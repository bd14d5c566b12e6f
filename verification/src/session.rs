//! One recording session: the actor, its pipeline and its completion signal,
//! tied together.
//!
//! `spawn` creates the session and the handle that commands it. Whoever runs
//! the session delivers events to it one at a time: the commands that the
//! handle issues, failures of a source or the sink, and the news that the
//! sink has finalized. Delivering an event moves the actor on, applies the
//! effect to the pipeline and fires the completion signal when the session
//! ends. A session takes its capture devices when it is spawned and gives
//! them back when it ends.

use crate::actor::{
    advance, effect_of, refusal, reply_of, signal_of, ActorModel, Command, Effect, Event, Outcome,
    RecordingActor, Reply, SessionState,
};
use crate::config::{
    capture_sources, held_while_paused, lists_held_sources, sources_of, OptionalFeeds,
    RecordingBaseInputs, SourceKind,
};
use crate::devices::{
    capture_devices, devices_of, first_busy, law_released_devices_are_free, lemma_none_busy,
    Device, DeviceLedger,
};
use crate::error::{ErrorPhase, RecordingError};
use crate::handle::SessionHandle;
use crate::pipeline::{
    lemma_all_empty, queued, Coordinator, Forwarded, Frame, Offer, PipelineModel, Valve,
};
use vstd::prelude::*;
use vstd::string::*;

verus! {

/// The most frames that wait in the queue of one source.
pub const QUEUE_CAPACITY: usize = 64;

/// The most offers in a row that may find a queue full before the sink
/// counts as stalled.
pub const STALL_GRACE: u32 = 16;

/// What a completion signal is, as far as its behaviour goes.
pub ghost struct SignalModel {
    /// Whether the session has ended and the signal was fired.
    pub fired: bool,
    /// The outcome, until the receiving end has taken it.
    pub waiting: Option<Outcome>,
}

/// The notification that a session has ended. It fires once, with the
/// outcome, and the outcome can be taken once.
pub struct CompletionSignal {
    fired: bool,
    waiting: Option<Outcome>,
}

/// What a session is, as far as its behaviour goes.
#[verifier::ext_equal]
pub ghost struct SessionModel {
    pub recording_id: String,
    pub inputs: RecordingBaseInputs,
    pub feeds: OptionalFeeds,
    pub sources: Seq<SourceKind>,
    pub devices: Seq<Device>,
    pub actor: ActorModel,
    pub pipeline: PipelineModel,
    pub signal: SignalModel,
}

/// A running session.
pub struct Session {
    recording_id: String,
    inputs: RecordingBaseInputs,
    feeds: OptionalFeeds,
    sources: Vec<SourceKind>,
    devices: Vec<Device>,
    actor: RecordingActor,
    pipeline: Coordinator,
    signal: CompletionSignal,
}

/// What delivering an event brought about.
#[derive(Clone, Debug, PartialEq, Eq)]
pub struct Delivery {
    /// The answer for the sender of a command.
    pub reply: Reply,
    /// What has to happen to the capture sources and the sink.
    pub effect: Effect,
    /// The frames that left the queues for the sink, in forwarding order.
    pub flushed: Vec<Forwarded>,
}

/// What became of a frame that was offered to a session.
#[derive(Clone, Debug, PartialEq, Eq)]
pub struct Offered {
    /// What the pipeline said to the offer.
    pub verdict: Offer,
    /// If the sink was found stalled: the failure that was delivered to the
    /// session, and what delivering it brought about.
    pub failure: Option<(Event, Delivery)>,
}

/// The cause that a stalled sink is reported with.
pub open spec fn stall_cause() -> Seq<char> {
    "sink stalled: a capture queue stayed full"@
}

/// The failure that reports a stalled sink.
pub open spec fn is_stall(event: Event) -> bool {
    event matches Event::Failure { cause } && cause@ == stall_cause()
}

/// The valve that goes with a state: open while recording, paused while
/// paused, closed once the session is stopping or has ended.
pub open spec fn valve_for(state: SessionState) -> Valve {
    match state {
        SessionState::Idle | SessionState::Recording => Valve::Open,
        SessionState::Paused => Valve::Paused,
        _ => Valve::Closed,
    }
}

/// The pipeline after an effect was applied to it at time `at`.
pub open spec fn after_effect(pipeline: PipelineModel, effect: Effect, at: u64) -> PipelineModel {
    match effect {
        Effect::Nothing | Effect::BeginForwarding => pipeline,
        Effect::PauseForwarding => pipeline.after_pause(at),
        Effect::ResumeForwarding => pipeline.after_resume(at),
        Effect::DrainAndFinalize | Effect::Abort => pipeline.torn_down(),
    }
}

/// The frames that an effect sends to the sink: all that is queued when the
/// session stops, and nothing otherwise.
pub open spec fn flushed_by(pipeline: PipelineModel, effect: Effect) -> Seq<Forwarded> {
    if effect == Effect::DrainAndFinalize {
        pipeline.drained()
    } else {
        Seq::<Forwarded>::empty()
    }
}

/// The text of the error for a session whose devices are not all free.
pub open spec fn busy_reason() -> Seq<char> {
    "capture device is already in use"@
}

/// The ledger after `event` was delivered to a session: when the event ends
/// the session, the session's devices are free again.
pub open spec fn ledger_after(held: Set<Device>, model: SessionModel, event: Event) -> Set<Device> {
    if signal_of(model.actor, event) is Some {
        held.difference(model.devices.to_set())
    } else {
        held
    }
}

impl SignalModel {
    /// The signal after the session signalled `outcome`, or nothing.
    pub open spec fn after(self, outcome: Option<Outcome>) -> SignalModel {
        match outcome {
            Some(o) => if self.fired {
                self
            } else {
                SignalModel { fired: true, waiting: Some(o) }
            },
            None => self,
        }
    }
}

impl SessionModel {
    /// What a session always satisfies: it has started, its valve goes with
    /// its state, its signal has fired exactly if it has ended, and it has
    /// one queue for each source.
    pub open spec fn wf(self) -> bool {
        &&& self.pipeline.wf()
        &&& self.actor.state != SessionState::Idle
        &&& self.pipeline.valve == valve_for(self.actor.state)
        &&& self.signal.fired == self.actor.state.is_terminal()
        &&& self.signal.waiting is Some ==> self.signal.fired
        &&& self.sources == sources_of(self.inputs, self.feeds)
        &&& self.devices == devices_of(self.inputs, self.feeds)
        &&& self.pipeline.queues.len() == self.sources.len()
    }

    /// A session that has just started recording.
    pub open spec fn started(
        recording_id: String,
        output_path: String,
        inputs: RecordingBaseInputs,
        feeds: OptionalFeeds,
    ) -> SessionModel {
        SessionModel {
            recording_id,
            inputs,
            feeds,
            sources: sources_of(inputs, feeds),
            devices: devices_of(inputs, feeds),
            actor: ActorModel { state: SessionState::Recording, output_path },
            pipeline: PipelineModel::fresh(
                sources_of(inputs, feeds).len() as usize,
                QUEUE_CAPACITY,
                STALL_GRACE,
            ),
            signal: SignalModel { fired: false, waiting: None },
        }
    }

    /// The session after a frame was offered to its pipeline.
    pub open spec fn with_offer(self, source: usize, frame: Frame) -> SessionModel {
        SessionModel { pipeline: self.pipeline.after_offer(source, frame), ..self }
    }

    /// The session after `event` was delivered at time `at`.
    pub open spec fn after_event(self, event: Event, at: u64) -> SessionModel {
        SessionModel {
            actor: advance(self.actor, event),
            pipeline: after_effect(self.pipeline, effect_of(self.actor.state, event), at),
            signal: self.signal.after(signal_of(self.actor, event)),
            ..self
        }
    }

    /// The session after a run of events, each with the time it was
    /// delivered at.
    pub open spec fn after_events(self, events: Seq<(Event, u64)>) -> SessionModel
        decreases events.len(),
    {
        if events.len() == 0 {
            self
        } else {
            self.after_event(events[0].0, events[0].1).after_events(events.drop_first())
        }
    }
}

impl View for CompletionSignal {
    type V = SignalModel;

    closed spec fn view(&self) -> SignalModel {
        SignalModel { fired: self.fired, waiting: self.waiting }
    }
}

impl View for Session {
    type V = SessionModel;

    closed spec fn view(&self) -> SessionModel {
        SessionModel {
            recording_id: self.recording_id,
            inputs: self.inputs,
            feeds: self.feeds,
            sources: self.sources@,
            devices: self.devices@,
            actor: self.actor@,
            pipeline: self.pipeline@,
            signal: self.signal@,
        }
    }
}

impl CompletionSignal {
    /// A signal that has not fired.
    pub fn new() -> (signal: CompletionSignal)
        ensures
            signal@ == (SignalModel { fired: false, waiting: None }),
    {
        CompletionSignal { fired: false, waiting: None }
    }

    /// Fires the signal with `outcome`. A signal that has fired before stays
    /// as it is: the first outcome is the only one.
    pub fn fire(&mut self, outcome: Outcome)
        ensures
            final(self)@ == old(self)@.after(Some(outcome)),
    {
        if !self.fired {
            self.fired = true;
            self.waiting = Some(outcome);
        }
    }

    /// Whether the signal has fired.
    pub fn has_fired(&self) -> (b: bool)
        ensures
            b == self@.fired,
    {
        self.fired
    }

    /// Takes the outcome, if the signal has fired and nobody took it yet.
    pub fn take(&mut self) -> (outcome: Option<Outcome>)
        ensures
            outcome == old(self)@.waiting,
            final(self)@ == (SignalModel { fired: old(self)@.fired, waiting: None }),
    {
        self.waiting.take()
    }
}

/// Creates a session and the handle that commands it. The session takes its
/// devices from `ledger`; `started` tells how starting the capture sources
/// and the sink went. If the devices were free and everything started, the
/// session is recording and holds its devices. If a device is held by another
/// session, or if a source or the sink failed to start, there is no session:
/// the ledger is as it was, and the error names the cause and blames the
/// start of the capture.
pub fn spawn(
    session_id: String,
    output_path: String,
    base_inputs: RecordingBaseInputs,
    feeds: OptionalFeeds,
    ledger: &mut DeviceLedger,
    started: Result<(), String>,
) -> (out: Result<(SessionHandle, Session), RecordingError>)
    ensures
        match out {
            Ok((handle, session)) => {
                &&& started is Ok
                &&& first_busy(old(ledger)@, devices_of(base_inputs, feeds)) is None
                &&& final(ledger)@ == old(ledger)@.union(devices_of(base_inputs, feeds).to_set())
                &&& handle.session() == Some(session_id)
                &&& session@ == SessionModel::started(session_id, output_path, base_inputs, feeds)
                &&& session@.wf()
            },
            Err(error) => {
                &&& final(ledger)@ == old(ledger)@
                &&& error.phase == ErrorPhase::CaptureStart
                &&& if first_busy(old(ledger)@, devices_of(base_inputs, feeds)) is Some {
                    error.cause@ == busy_reason()
                } else {
                    started is Err && error.cause == started->Err_0
                }
            },
        },
{
    let devices = capture_devices(&base_inputs, &feeds);
    let actor = RecordingActor::new(output_path);
    match ledger.acquire(&devices) {
        Err(_) => Err(failed_start(actor, String::from_str("capture device is already in use"))),
        Ok(_) => match started {
            Err(cause) => {
                ledger.release(&devices);
                proof {
                    lemma_none_busy(old(ledger)@, devices@);
                    assert(ledger@ =~= old(ledger)@);
                }
                Err(failed_start(actor, cause))
            },
            Ok(_) => {
                let mut actor = actor;
                let _ = actor.handle(Event::Started);
                let sources = capture_sources(&base_inputs, &feeds);
                let pipeline = Coordinator::new(sources.len(), QUEUE_CAPACITY, STALL_GRACE);
                let handle = SessionHandle::attach(session_id.clone());
                let session = Session {
                    recording_id: session_id,
                    inputs: base_inputs,
                    feeds,
                    sources,
                    devices,
                    actor,
                    pipeline,
                    signal: CompletionSignal::new(),
                };
                assert(session@ =~= SessionModel::started(
                    session_id,
                    output_path,
                    base_inputs,
                    feeds,
                ));
                Ok((handle, session))
            },
        },
    }
}

/// Fails a session that has not started, and gives the failure back.
fn failed_start(actor: RecordingActor, cause: String) -> (error: RecordingError)
    requires
        actor@.state == SessionState::Idle,
    ensures
        error == (RecordingError { phase: ErrorPhase::CaptureStart, cause }),
{
    let mut actor = actor;
    let step = actor.handle(Event::Failure { cause });
    match step.signal {
        Some(Outcome::Failed(error)) => error,
        _ => RecordingError { phase: ErrorPhase::CaptureStart, cause: String::new() },
    }
}

impl Session {
    /// The recording id of this session.
    pub fn recording_id(&self) -> (id: &String)
        ensures
            *id == self@.recording_id,
    {
        &self.recording_id
    }

    /// The state the session is in.
    pub fn state(&self) -> (state: SessionState)
        ensures
            state == self@.actor.state,
    {
        self.actor.state()
    }

    /// The capture sources of this session; a source's place in the list is
    /// the number of its queue.
    pub fn sources(&self) -> (sources: &Vec<SourceKind>)
        ensures
            sources@ == self@.sources,
    {
        &self.sources
    }

    /// The base inputs this session was spawned with.
    pub fn inputs(&self) -> (inputs: RecordingBaseInputs)
        ensures
            inputs == self@.inputs,
    {
        self.inputs
    }

    /// The devices this session captures from, in the order of its sources.
    pub fn devices(&self) -> (devices: &Vec<Device>)
        ensures
            devices@ == self@.devices,
    {
        &self.devices
    }

    /// The numbers of the sources whose producers are told to stop while the
    /// session is paused.
    pub fn producers_to_hold(&self) -> (held: Vec<usize>)
        ensures
            lists_held_sources(self@.sources, held@),
    {
        held_while_paused(&self.sources)
    }

    /// The state of the pipeline's valve.
    pub fn valve(&self) -> (valve: Valve)
        ensures
            valve == self@.pipeline.valve,
    {
        self.pipeline.valve()
    }

    /// Delivers one event at time `at`. The actor handles it, the effect is
    /// applied to the pipeline, and if the session ends the signal fires and
    /// the session's devices go back to `ledger`. What `stop` flushes from
    /// the queues comes back for the sink.
    pub fn deliver(&mut self, event: Event, at: u64, ledger: &mut DeviceLedger) -> (delivery:
        Delivery)
        ensures
            old(self)@.wf() ==> final(self)@.wf(),
            final(self)@ == old(self)@.after_event(event, at),
            final(ledger)@ == ledger_after(old(ledger)@, old(self)@, event),
            delivery.reply == reply_of(old(self)@.actor, event),
            delivery.effect == effect_of(old(self)@.actor.state, event),
            delivery.flushed@ == flushed_by(old(self)@.pipeline, delivery.effect),
    {
        let ghost before = self@;
        let step = self.actor.handle(event);
        let flushed: Vec<Forwarded> = match step.effect {
            Effect::Nothing | Effect::BeginForwarding => Vec::new(),
            Effect::PauseForwarding => {
                self.pipeline.pause(at);
                Vec::new()
            },
            Effect::ResumeForwarding => {
                self.pipeline.resume(at);
                Vec::new()
            },
            Effect::DrainAndFinalize => self.pipeline.drain(),
            Effect::Abort => {
                self.pipeline.discard();
                Vec::new()
            },
        };
        match step.signal {
            Some(outcome) => {
                self.signal.fire(outcome);
                ledger.release(&self.devices);
            },
            None => {},
        }
        assert(self@ =~= before.after_event(event, at));
        Delivery { reply: step.reply, effect: step.effect, flushed }
    }

    /// Offers a frame of `source` to the pipeline at time `at`. If the
    /// verdict is `Stalled`, the sink does not keep up, and that is not put
    /// up with: the failure is delivered to the session then and there, as
    /// any failure of the sink is, and comes back with what it brought about.
    pub fn offer(&mut self, source: usize, frame: Frame, at: u64, ledger: &mut DeviceLedger) -> (out:
        Offered)
        ensures
            old(self)@.wf() ==> final(self)@.wf(),
            out.verdict == old(self)@.pipeline.offer_verdict(source, frame),
            match out.failure {
                None => {
                    &&& !(out.verdict is Stalled)
                    &&& final(self)@ == old(self)@.with_offer(source, frame)
                    &&& final(ledger)@ == old(ledger)@
                },
                Some((event, delivery)) => {
                    &&& out.verdict is Stalled
                    &&& is_stall(event)
                    &&& final(self)@ == old(self)@.with_offer(source, frame).after_event(event, at)
                    &&& final(ledger)@ == ledger_after(
                        old(ledger)@,
                        old(self)@.with_offer(source, frame),
                        event,
                    )
                    &&& delivery.reply == reply_of(old(self)@.actor, event)
                    &&& delivery.effect == effect_of(old(self)@.actor.state, event)
                    &&& delivery.flushed@ == flushed_by(
                        old(self)@.pipeline.after_offer(source, frame),
                        delivery.effect,
                    )
                },
            },
    {
        let ghost before = self@;
        let verdict = self.pipeline.offer(source, frame);
        assert(self@ =~= before.with_offer(source, frame));
        let failure = match &verdict {
            Offer::Stalled(_) => {
                let cause = String::from_str("sink stalled: a capture queue stayed full");
                let event = Event::Failure { cause: cause.clone() };
                let delivery = self.deliver(Event::Failure { cause }, at, ledger);
                Some((event, delivery))
            },
            _ => None,
        };
        Offered { verdict, failure }
    }

    /// Forwards the next frame to the sink, if the session is recording and
    /// every source has a frame waiting.
    pub fn forward(&mut self) -> (out: Option<Forwarded>)
        ensures
            old(self)@.wf() ==> final(self)@.wf(),
            out == old(self)@.pipeline.next_forward(),
            final(self)@ == (SessionModel {
                pipeline: old(self)@.pipeline.after_forward(),
                ..old(self)@
            }),
            old(self)@.wf() && old(self)@.actor.state != SessionState::Recording ==> out is None,
    {
        let ghost before = self@;
        let out = self.pipeline.forward();
        assert(self@ =~= (SessionModel { pipeline: before.pipeline.after_forward(), ..before }));
        out
    }

    /// Takes the outcome from the completion signal, if the session has
    /// ended and nobody took it yet.
    pub fn completion(&mut self) -> (outcome: Option<Outcome>)
        ensures
            old(self)@.wf() ==> final(self)@.wf(),
            outcome == old(self)@.signal.waiting,
            final(self)@ == (SessionModel {
                signal: SignalModel { fired: old(self)@.signal.fired, waiting: None },
                ..old(self)@
            }),
    {
        let ghost before = self@;
        let outcome = self.signal.take();
        assert(self@ =~= (SessionModel {
            signal: SignalModel { fired: before.signal.fired, waiting: None },
            ..before
        }));
        outcome
    }
}

/// Delivering an event keeps a session well formed.
pub proof fn law_events_keep_sessions_sound(model: SessionModel, event: Event, at: u64)
    requires
        model.wf(),
    ensures
        model.after_event(event, at).wf(),
{
    let next = model.after_event(event, at);
    assert(next.pipeline.queues.len() == model.pipeline.queues.len());
}

/// The completion signal fires exactly once in the life of a session: over
/// any run of events it has fired exactly if the session has ended, and once
/// fired it is never fired again with another outcome.
pub proof fn law_signal_fires_once(model: SessionModel, events: Seq<(Event, u64)>)
    requires
        model.wf(),
    ensures
        model.after_events(events).wf(),
        model.after_events(events).signal.fired == model.after_events(
            events,
        ).actor.state.is_terminal(),
        model.signal.fired ==> model.after_events(events).signal == model.signal
            && model.after_events(events).actor == model.actor,
    decreases events.len(),
{
    if events.len() > 0 {
        let next = model.after_event(events[0].0, events[0].1);
        law_events_keep_sessions_sound(model, events[0].0, events[0].1);
        law_signal_fires_once(next, events.drop_first());
    }
}

/// A command that is refused leaves the whole session as it was: its state,
/// its pipeline, its signal and the devices it holds.
pub proof fn law_misuse_leaves_the_session_alone(
    model: SessionModel,
    held: Set<Device>,
    command: Command,
    at: u64,
)
    requires
        refusal(model.actor.state, command) is Some,
    ensures
        model.after_event(Event::Command(command), at) == model,
        ledger_after(held, model, Event::Command(command)) == held,
{
}

/// A failure that reaches a session which has not ended fails it in that
/// very step and tears its pipeline down: the session is failed, the signal
/// has fired with the failure, and no queue holds a frame any more.
pub proof fn law_failure_tears_the_session_down(model: SessionModel, cause: String, at: u64)
    requires
        model.wf(),
        !model.actor.state.is_terminal(),
    ensures
        model.after_event(Event::Failure { cause }, at).actor.state == SessionState::Failed,
        model.after_event(Event::Failure { cause }, at).pipeline == model.pipeline.torn_down(),
        model.after_event(Event::Failure { cause }, at).signal == (SignalModel {
            fired: true,
            waiting: Some(
                Outcome::Failed(
                    RecordingError { phase: model.actor.state.failure_phase(), cause },
                ),
            ),
        }),
        queued(model.after_event(Event::Failure { cause }, at).pipeline.queues) == 0,
{
    lemma_all_empty(model.pipeline.torn_down().queues);
}

/// When a session ends, by a cancel, a failure or the end of a stop, its
/// devices are free again: a session with the same inputs can take them.
pub proof fn law_ended_sessions_free_their_devices(
    model: SessionModel,
    held: Set<Device>,
    event: Event,
    at: u64,
)
    requires
        model.wf(),
        !model.actor.state.is_terminal(),
        model.after_event(event, at).actor.state.is_terminal(),
    ensures
        first_busy(
            ledger_after(held, model, event),
            devices_of(model.inputs, model.feeds),
        ) is None,
{
    law_released_devices_are_free(held, model.devices);
}

/// A stalled sink is not put up with: when an offer to a session that is
/// recording or paused finds the sink stalled, the session fails in that very
/// step, with the stall as the cause.
pub proof fn law_stall_fails_the_session(
    model: SessionModel,
    source: usize,
    frame: Frame,
    event: Event,
    at: u64,
)
    requires
        model.wf(),
        model.pipeline.offer_verdict(source, frame) is Stalled,
        is_stall(event),
    ensures
        model.actor.state == SessionState::Recording,
        model.with_offer(source, frame).after_event(event, at).actor.state == SessionState::Failed,
        model.with_offer(source, frame).after_event(event, at).pipeline.valve == Valve::Closed,
        model.with_offer(source, frame).after_event(event, at).signal.waiting matches Some(
            Outcome::Failed(error),
        ) && error.phase == ErrorPhase::MidRecording && error.cause@ == stall_cause(),
{
}

/// While a session is paused its valve is paused, so that no frame is
/// accepted and none is forwarded, whichever source it is from.
pub proof fn law_paused_session_is_shut_off(model: SessionModel, source: usize, frame: Frame)
    requires
        model.wf(),
        model.actor.state == SessionState::Paused,
    ensures
        model.pipeline.valve == Valve::Paused,
        model.pipeline.next_forward() is None,
        model.pipeline.after_offer(source, frame) == model.pipeline,
        model.pipeline.after_forward() == model.pipeline,
{
}

} // verus!
