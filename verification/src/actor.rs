//! The recording actor: the one owner of a session's state.
//!
//! Everything that can happen to a session arrives as an [`Event`] in a
//! single inbox and is handled one at a time, in arrival order. Handling an
//! event yields a [`Step`]: the reply for whoever sent a command, the effect
//! the pipeline has to carry out, and the completion signal if the session
//! just ended. The actor itself performs none of it.

use crate::error::{CommandError, ErrorPhase, RecordingError};
use std::collections::VecDeque;
use vstd::prelude::*;

verus! {

/// Where a session is in its life.
#[derive(Clone, Copy, Debug, PartialEq, Eq, Structural)]
pub enum SessionState {
    /// Created; the sources and the sink are still being started.
    Idle,
    /// Frames flow from the sources to the sink.
    Recording,
    /// The sources are held; nothing reaches the sink.
    Paused,
    /// `stop` was accepted; the pipeline is draining and the sink finalizing.
    Stopping,
    /// The recording was finalized.
    Completed,
    /// The recording was cancelled and its output discarded.
    Cancelled,
    /// A source or the sink failed.
    Failed,
}

/// What a caller can ask of a session.
#[derive(Clone, Copy, Debug, PartialEq, Eq, Structural)]
pub enum Command {
    Pause,
    Resume,
    Stop,
    Cancel,
}

/// The finalized artifact of a session.
#[derive(Clone, Debug, PartialEq, Eq)]
pub struct CompletedRecording {
    pub project_path: String,
}

/// How a session ended.
#[derive(Clone, Debug, PartialEq, Eq)]
pub enum Outcome {
    Completed(CompletedRecording),
    Cancelled,
    Failed(RecordingError),
}

/// One message in the actor's inbox.
#[derive(Clone, Debug, PartialEq, Eq)]
pub enum Event {
    /// Every source and the sink have started.
    Started,
    /// A caller sent a command through the handle.
    Command(Command),
    /// A source or the sink reported a failure it cannot recover from.
    Failure { cause: String },
    /// The sink has flushed and closed the container.
    Finalized,
}

/// What the pipeline has to do after an event was handled.
#[derive(Clone, Copy, Debug, PartialEq, Eq, Structural)]
pub enum Effect {
    /// Nothing changes in the pipeline.
    Nothing,
    /// Open the valve: frames may reach the sink.
    BeginForwarding,
    /// Close the valve and hold the producers that can be held.
    PauseForwarding,
    /// Open the valve again.
    ResumeForwarding,
    /// Stop the sources, flush what is queued to the sink, then finalize.
    DrainAndFinalize,
    /// Tear down the sources and the sink and discard what is queued.
    Abort,
}

/// What the sender of a command is told.
#[derive(Clone, Debug, PartialEq, Eq)]
pub enum Reply {
    /// The event was no command and no command was waiting for it.
    Silent,
    /// The command was carried out.
    Done,
    /// `stop` was accepted; its answer follows when the sink has finalized.
    Pending,
    /// The answer to an accepted `stop`: the recording is complete.
    Stopped(CompletedRecording),
    /// The answer to an accepted `stop`: the session failed before it could
    /// complete.
    StopFailed(RecordingError),
    /// The command is not allowed in the state the session is in.
    Rejected(CommandError),
}

/// Everything that follows from handling one event.
#[derive(Clone, Debug, PartialEq, Eq)]
pub struct Step {
    pub reply: Reply,
    pub effect: Effect,
    pub signal: Option<Outcome>,
}

/// What an actor is, as far as its behaviour goes.
pub ghost struct ActorModel {
    pub state: SessionState,
    pub output_path: String,
}

/// The owner of one session.
pub struct RecordingActor {
    state: SessionState,
    output_path: String,
}

/// The messages waiting for an actor, oldest first.
pub struct Inbox {
    queue: VecDeque<Event>,
}

impl SessionState {
    /// A session that has ended: no event changes it any more.
    pub open spec fn is_terminal(self) -> bool {
        self == SessionState::Completed || self == SessionState::Cancelled || self
            == SessionState::Failed
    }

    /// A session that takes commands: it is recording or paused.
    pub open spec fn is_active(self) -> bool {
        self == SessionState::Recording || self == SessionState::Paused
    }

    /// The phase a failure is blamed on when it arrives in this state.
    pub open spec fn failure_phase(self) -> ErrorPhase {
        match self {
            SessionState::Idle => ErrorPhase::CaptureStart,
            SessionState::Stopping => ErrorPhase::Finalize,
            _ => ErrorPhase::MidRecording,
        }
    }

    /// Whether the session has ended.
    pub fn terminal(&self) -> (b: bool)
        ensures
            b == self.is_terminal(),
    {
        match self {
            SessionState::Completed | SessionState::Cancelled | SessionState::Failed => true,
            _ => false,
        }
    }

    /// Whether the session takes commands.
    pub fn active(&self) -> (b: bool)
        ensures
            b == self.is_active(),
    {
        match self {
            SessionState::Recording | SessionState::Paused => true,
            _ => false,
        }
    }
}

impl Outcome {
    /// The terminal state that stands for this outcome.
    pub open spec fn terminal_state(self) -> SessionState {
        match self {
            Outcome::Completed(_) => SessionState::Completed,
            Outcome::Cancelled => SessionState::Cancelled,
            Outcome::Failed(_) => SessionState::Failed,
        }
    }

    /// The terminal state that stands for this outcome.
    pub fn state(&self) -> (state: SessionState)
        ensures
            state == self.terminal_state(),
    {
        match self {
            Outcome::Completed(_) => SessionState::Completed,
            Outcome::Cancelled => SessionState::Cancelled,
            Outcome::Failed(_) => SessionState::Failed,
        }
    }
}

/// The state a command leads to. A command that is not allowed leaves the
/// state as it is.
pub open spec fn after_command(state: SessionState, command: Command) -> SessionState {
    match command {
        Command::Pause => if state == SessionState::Recording {
            SessionState::Paused
        } else {
            state
        },
        Command::Resume => if state == SessionState::Paused {
            SessionState::Recording
        } else {
            state
        },
        Command::Stop => if state.is_active() {
            SessionState::Stopping
        } else {
            state
        },
        Command::Cancel => if state.is_active() {
            SessionState::Cancelled
        } else {
            state
        },
    }
}

/// Why a command is refused in a state, if it is.
pub open spec fn refusal(state: SessionState, command: Command) -> Option<CommandError> {
    if !state.is_active() {
        Some(CommandError::NoActiveRecording)
    } else if command == Command::Pause && state == SessionState::Paused {
        Some(CommandError::NotRecording)
    } else if command == Command::Resume && state == SessionState::Recording {
        Some(CommandError::NotPaused)
    } else {
        None
    }
}

/// The state an event leads to.
pub open spec fn next_state(state: SessionState, event: Event) -> SessionState {
    match event {
        Event::Started => if state == SessionState::Idle {
            SessionState::Recording
        } else {
            state
        },
        Event::Command(command) => after_command(state, command),
        Event::Failure { .. } => if state.is_terminal() {
            state
        } else {
            SessionState::Failed
        },
        Event::Finalized => if state == SessionState::Stopping {
            SessionState::Completed
        } else {
            state
        },
    }
}

/// What the pipeline has to do when an event is handled in a state.
pub open spec fn effect_of(state: SessionState, event: Event) -> Effect {
    match event {
        Event::Started => if state == SessionState::Idle {
            Effect::BeginForwarding
        } else {
            Effect::Nothing
        },
        Event::Command(command) => if refusal(state, command) is Some {
            Effect::Nothing
        } else {
            match command {
                Command::Pause => Effect::PauseForwarding,
                Command::Resume => Effect::ResumeForwarding,
                Command::Stop => Effect::DrainAndFinalize,
                Command::Cancel => Effect::Abort,
            }
        },
        Event::Failure { .. } => if state.is_terminal() {
            Effect::Nothing
        } else {
            Effect::Abort
        },
        Event::Finalized => Effect::Nothing,
    }
}

/// The outcome that is signalled when an event is handled in a state: one
/// exactly when the event ends the session.
pub open spec fn signal_of(model: ActorModel, event: Event) -> Option<Outcome> {
    match event {
        Event::Started => None,
        Event::Command(command) => if command == Command::Cancel && model.state.is_active() {
            Some(Outcome::Cancelled)
        } else {
            None
        },
        Event::Failure { cause } => if model.state.is_terminal() {
            None
        } else {
            Some(Outcome::Failed(RecordingError { phase: model.state.failure_phase(), cause }))
        },
        Event::Finalized => if model.state == SessionState::Stopping {
            Some(Outcome::Completed(CompletedRecording { project_path: model.output_path }))
        } else {
            None
        },
    }
}

/// What the sender of a command is told when an event is handled in a state.
/// While a session is stopping, the sender of `stop` is waiting: the event
/// that ends the session answers it.
pub open spec fn reply_of(model: ActorModel, event: Event) -> Reply {
    match event {
        Event::Started => Reply::Silent,
        Event::Command(command) => match refusal(model.state, command) {
            Some(error) => Reply::Rejected(error),
            None => if command == Command::Stop {
                Reply::Pending
            } else {
                Reply::Done
            },
        },
        Event::Failure { cause } => if model.state == SessionState::Stopping {
            Reply::StopFailed(RecordingError { phase: ErrorPhase::Finalize, cause })
        } else {
            Reply::Silent
        },
        Event::Finalized => if model.state == SessionState::Stopping {
            Reply::Stopped(CompletedRecording { project_path: model.output_path })
        } else {
            Reply::Silent
        },
    }
}

/// Everything that follows from handling an event in a state.
pub open spec fn step_of(model: ActorModel, event: Event) -> Step {
    Step {
        reply: reply_of(model, event),
        effect: effect_of(model.state, event),
        signal: signal_of(model, event),
    }
}

/// The actor after an event: its state moves on, its output path stays.
pub open spec fn advance(model: ActorModel, event: Event) -> ActorModel {
    ActorModel { state: next_state(model.state, event), output_path: model.output_path }
}

/// The actor after a run of events, handled in order.
pub open spec fn advance_all(model: ActorModel, events: Seq<Event>) -> ActorModel
    decreases events.len(),
{
    if events.len() == 0 {
        model
    } else {
        advance_all(advance(model, events[0]), events.drop_first())
    }
}

/// The steps a run of events yields, one for each event, in order.
pub open spec fn steps_of(model: ActorModel, events: Seq<Event>) -> Seq<Step>
    decreases events.len(),
{
    if events.len() == 0 {
        Seq::<Step>::empty()
    } else {
        seq![step_of(model, events[0])] + steps_of(
            advance(model, events[0]),
            events.drop_first(),
        )
    }
}

/// The outcomes that are signalled over a run of events, in order.
pub open spec fn signals_of(model: ActorModel, events: Seq<Event>) -> Seq<Outcome>
    decreases events.len(),
{
    if events.len() == 0 {
        Seq::<Outcome>::empty()
    } else {
        let rest = signals_of(advance(model, events[0]), events.drop_first());
        match signal_of(model, events[0]) {
            Some(outcome) => seq![outcome] + rest,
            None => rest,
        }
    }
}

impl View for RecordingActor {
    type V = ActorModel;

    closed spec fn view(&self) -> ActorModel {
        ActorModel { state: self.state, output_path: self.output_path }
    }
}

impl View for Inbox {
    type V = Seq<Event>;

    closed spec fn view(&self) -> Seq<Event> {
        self.queue@
    }
}

impl RecordingActor {
    /// An actor for a session that has not started yet. Its output goes to
    /// `output_path`.
    pub fn new(output_path: String) -> (actor: RecordingActor)
        ensures
            actor@ == (ActorModel { state: SessionState::Idle, output_path }),
    {
        RecordingActor { state: SessionState::Idle, output_path }
    }

    /// The state the session is in.
    pub fn state(&self) -> (state: SessionState)
        ensures
            state == self@.state,
    {
        self.state
    }

    /// Where the finished recording goes.
    pub fn output_path(&self) -> (path: &String)
        ensures
            *path == self@.output_path,
    {
        &self.output_path
    }

    /// Whether `command` would be refused right now, and why.
    pub fn refuses(&self, command: Command) -> (verdict: Option<CommandError>)
        ensures
            verdict == refusal(self@.state, command),
    {
        if !self.state.active() {
            return Some(CommandError::NoActiveRecording);
        }
        match (command, self.state) {
            (Command::Pause, SessionState::Paused) => Some(CommandError::NotRecording),
            (Command::Resume, SessionState::Recording) => Some(CommandError::NotPaused),
            _ => None,
        }
    }

    /// Handles a command: refuses it with the reason, or moves the session
    /// on and names the effect.
    fn on_command(&mut self, command: Command) -> (step: Step)
        ensures
            final(self)@ == advance(old(self)@, Event::Command(command)),
            step == step_of(old(self)@, Event::Command(command)),
    {
        match self.refuses(command) {
            Some(error) => Step {
                reply: Reply::Rejected(error),
                effect: Effect::Nothing,
                signal: None,
            },
            None => match command {
                Command::Pause => {
                    self.state = SessionState::Paused;
                    Step { reply: Reply::Done, effect: Effect::PauseForwarding, signal: None }
                },
                Command::Resume => {
                    self.state = SessionState::Recording;
                    Step { reply: Reply::Done, effect: Effect::ResumeForwarding, signal: None }
                },
                Command::Stop => {
                    self.state = SessionState::Stopping;
                    Step { reply: Reply::Pending, effect: Effect::DrainAndFinalize, signal: None }
                },
                Command::Cancel => {
                    self.state = SessionState::Cancelled;
                    Step {
                        reply: Reply::Done,
                        effect: Effect::Abort,
                        signal: Some(Outcome::Cancelled),
                    }
                },
            },
        }
    }

    /// Handles a failure of a source or the sink: a session that has not
    /// ended fails, and a caller waiting for `stop` is told so.
    fn on_failure(&mut self, cause: String) -> (step: Step)
        ensures
            final(self)@ == advance(old(self)@, Event::Failure { cause }),
            step == step_of(old(self)@, Event::Failure { cause }),
    {
        if self.state.terminal() {
            return Step { reply: Reply::Silent, effect: Effect::Nothing, signal: None };
        }
        let reply = match self.state {
            SessionState::Stopping => Reply::StopFailed(
                RecordingError { phase: ErrorPhase::Finalize, cause: cause.clone() },
            ),
            _ => Reply::Silent,
        };
        let phase = match self.state {
            SessionState::Idle => ErrorPhase::CaptureStart,
            SessionState::Stopping => ErrorPhase::Finalize,
            _ => ErrorPhase::MidRecording,
        };
        self.state = SessionState::Failed;
        Step {
            reply,
            effect: Effect::Abort,
            signal: Some(Outcome::Failed(RecordingError { phase, cause })),
        }
    }

    /// Handles one event. The new state, the reply, the effect and the
    /// signal are those that `advance` and `step_of` give for the state the
    /// actor was in.
    pub fn handle(&mut self, event: Event) -> (step: Step)
        ensures
            final(self)@ == advance(old(self)@, event),
            step == step_of(old(self)@, event),
    {
        match event {
            Event::Started => match self.state {
                SessionState::Idle => {
                    self.state = SessionState::Recording;
                    Step { reply: Reply::Silent, effect: Effect::BeginForwarding, signal: None }
                },
                _ => Step { reply: Reply::Silent, effect: Effect::Nothing, signal: None },
            },
            Event::Command(command) => self.on_command(command),
            Event::Failure { cause } => self.on_failure(cause),
            Event::Finalized => match self.state {
                SessionState::Stopping => {
                    self.state = SessionState::Completed;
                    Step {
                        reply: Reply::Stopped(
                            CompletedRecording { project_path: self.output_path.clone() },
                        ),
                        effect: Effect::Nothing,
                        signal: Some(
                            Outcome::Completed(
                                CompletedRecording { project_path: self.output_path.clone() },
                            ),
                        ),
                    }
                },
                _ => Step { reply: Reply::Silent, effect: Effect::Nothing, signal: None },
            },
        }
    }

    /// Handles every waiting event, oldest first, and leaves the inbox
    /// empty. The steps come back in the order the events arrived.
    pub fn run(&mut self, inbox: &mut Inbox) -> (steps: Vec<Step>)
        ensures
            final(self)@ == advance_all(old(self)@, old(inbox)@),
            steps@ == steps_of(old(self)@, old(inbox)@),
            final(inbox)@.len() == 0,
    {
        let mut steps: Vec<Step> = Vec::new();
        loop
            invariant
                steps_of(old(self)@, old(inbox)@) == steps@ + steps_of(self@, inbox@),
                advance_all(old(self)@, old(inbox)@) == advance_all(self@, inbox@),
            ensures
                inbox@.len() == 0,
                steps_of(old(self)@, old(inbox)@) == steps@ + steps_of(self@, inbox@),
                advance_all(old(self)@, old(inbox)@) == advance_all(self@, inbox@),
            decreases inbox@.len(),
        {
            let ghost before = self@;
            let ghost waiting = inbox@;
            let ghost done = steps@;
            match inbox.queue.pop_front() {
                Some(event) => {
                    assert(inbox@ =~= waiting.drop_first());
                    let step = self.handle(event);
                    steps.push(step);
                    assert(steps@ + steps_of(self@, inbox@) =~= done + steps_of(before, waiting));
                },
                None => {
                    break ;
                },
            }
        }
        assert(steps@ + Seq::<Step>::empty() =~= steps@);
        steps
    }
}

impl Inbox {
    /// An inbox with nothing in it.
    pub fn new() -> (inbox: Inbox)
        ensures
            inbox@ == Seq::<Event>::empty(),
    {
        Inbox { queue: VecDeque::new() }
    }

    /// Puts an event behind those that are already waiting.
    pub fn send(&mut self, event: Event)
        ensures
            final(self)@ == old(self)@.push(event),
    {
        self.queue.push_back(event);
    }

    /// How many events are waiting.
    pub fn len(&self) -> (n: usize)
        ensures
            n == self@.len(),
    {
        self.queue.len()
    }
}

/// A command that is refused changes nothing: the state stays, the pipeline
/// is left alone and no outcome is signalled. In particular `pause` on a
/// paused session and `resume` on a recording one are refused as misuse.
pub proof fn law_misuse_changes_nothing(model: ActorModel, command: Command)
    ensures
        refusal(model.state, command) is Some ==> {
            &&& advance(model, Event::Command(command)) == model
            &&& step_of(model, Event::Command(command)) == (Step {
                reply: Reply::Rejected(refusal(model.state, command)->0),
                effect: Effect::Nothing,
                signal: None,
            })
        },
        model.state == SessionState::Paused ==> refusal(model.state, Command::Pause) == Some(
            CommandError::NotRecording,
        ),
        model.state == SessionState::Recording ==> refusal(model.state, Command::Resume) == Some(
            CommandError::NotPaused,
        ),
        refusal(model.state, command) is None <==> after_command(model.state, command)
            != model.state,
{
}

/// Once a session is stopping or has ended, every command is refused for
/// want of an active recording, whatever was sent before.
pub proof fn law_no_commands_after_the_end(model: ActorModel, command: Command)
    requires
        model.state == SessionState::Stopping || model.state.is_terminal(),
    ensures
        reply_of(model, Event::Command(command)) == Reply::Rejected(
            CommandError::NoActiveRecording,
        ),
        advance(model, Event::Command(command)) == model,
        signal_of(model, Event::Command(command)) is None,
{
}

/// The events that a run of commands arrives as.
pub open spec fn as_events(commands: Seq<Command>) -> Seq<Event> {
    commands.map_values(|command: Command| Event::Command(command))
}

/// Once `stop` was accepted, no command that follows changes its answer:
/// the session stays stopping whatever is sent, and when the sink has
/// finalized, the sender of the `stop` gets the recording at the output path.
pub proof fn law_stop_is_answered_as_accepted(model: ActorModel, commands: Seq<Command>)
    requires
        model.state == SessionState::Stopping,
    ensures
        advance_all(model, as_events(commands)) == model,
        signals_of(model, as_events(commands)).len() == 0,
        reply_of(advance_all(model, as_events(commands)), Event::Finalized) == Reply::Stopped(
            CompletedRecording { project_path: model.output_path },
        ),
    decreases commands.len(),
{
    if commands.len() > 0 {
        let events = as_events(commands);
        assert(events[0] == Event::Command(commands[0]));
        assert(events.drop_first() =~= as_events(commands.drop_first()));
        law_stop_is_answered_as_accepted(model, commands.drop_first());
    }
}

/// A failure that reaches a session which has not ended makes it fail in
/// that very step: the pipeline is torn down and the failure is signalled
/// with the phase it happened in.
pub proof fn law_failure_ends_the_session(model: ActorModel, cause: String)
    requires
        !model.state.is_terminal(),
    ensures
        advance(model, Event::Failure { cause }).state == SessionState::Failed,
        effect_of(model.state, Event::Failure { cause }) == Effect::Abort,
        signal_of(model, Event::Failure { cause }) == Some(
            Outcome::Failed(RecordingError { phase: model.state.failure_phase(), cause }),
        ),
        model.state.is_active() ==> model.state.failure_phase() == ErrorPhase::MidRecording,
{
}

/// A session that has ended stays as it is, whatever arrives.
pub proof fn law_terminal_is_final(model: ActorModel, events: Seq<Event>)
    requires
        model.state.is_terminal(),
    ensures
        advance_all(model, events) == model,
        signals_of(model, events).len() == 0,
    decreases events.len(),
{
    if events.len() > 0 {
        law_terminal_is_final(advance(model, events[0]), events.drop_first());
    }
}

/// Over any run of events a session signals at most one outcome. It signals
/// one exactly if the run ends it, and that outcome names the state it ended
/// in.
pub proof fn law_single_outcome(model: ActorModel, events: Seq<Event>)
    ensures
        signals_of(model, events).len() <= 1,
        signals_of(model, events).len() == 1 <==> !model.state.is_terminal() && advance_all(
            model,
            events,
        ).state.is_terminal(),
        signals_of(model, events).len() == 1 ==> signals_of(model, events)[0].terminal_state()
            == advance_all(model, events).state,
    decreases events.len(),
{
    if model.state.is_terminal() {
        law_terminal_is_final(model, events);
    } else if events.len() > 0 {
        let next = advance(model, events[0]);
        if next.state.is_terminal() {
            law_terminal_is_final(next, events.drop_first());
            assert(signal_of(model, events[0]) is Some);
        } else {
            law_single_outcome(next, events.drop_first());
            assert(signal_of(model, events[0]) is None);
        }
    }
}

} // verus!
