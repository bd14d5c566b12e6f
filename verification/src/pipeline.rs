//! The pipeline coordinator: bounded queues between the capture sources and
//! the sink, and the valve that pausing closes.
//!
//! Every source has a queue of its own. Producers offer frames to their
//! queue. Once every source has a frame waiting, the coordinator forwards the
//! frame with the smallest timestamp among the queue heads, so that the sink
//! gets its frames by timestamp and not by arrival; what still waits when the
//! session stops leaves in the flush. A full queue gives the frame back to
//! its producer, which has to hold it and offer it again; a queue that stays
//! full for longer than the grace allows is reported, so that the session
//! can fail.
//! Timestamps are rebased when a frame is accepted, so that the time spent
//! paused leaves no gap in the output.

use std::collections::VecDeque;
use vstd::prelude::*;

verus! {

/// A frame or a block of samples, stamped by its source.
#[derive(Clone, Debug, PartialEq, Eq)]
pub struct Frame {
    pub timestamp: u64,
    pub data: Vec<u8>,
}

/// A frame on its way to the sink, with the number of the source it is from.
#[derive(Clone, Debug, PartialEq, Eq)]
pub struct Forwarded {
    pub source: usize,
    pub frame: Frame,
}

/// Whether frames may pass.
#[derive(Clone, Copy, Debug, PartialEq, Eq, Structural)]
pub enum Valve {
    /// Frames are accepted and forwarded.
    Open,
    /// Nothing is accepted and nothing is forwarded.
    Paused,
    /// The pipeline was torn down.
    Closed,
}

/// What became of a frame that a producer offered.
#[derive(Clone, Debug, PartialEq, Eq)]
pub enum Offer {
    /// The frame is queued.
    Accepted,
    /// The queue is full. The producer holds the frame and offers it again.
    Full(Frame),
    /// The queue has been full for longer than the grace allows: the sink
    /// does not keep up, and the session has to be told.
    Stalled(Frame),
    /// The session is paused; the frame will never reach the sink.
    Discarded,
    /// The frame was captured before the session last resumed.
    Stale,
    /// The pipeline was torn down.
    Closed,
    /// No source has this number.
    UnknownSource,
}

/// What a coordinator is, as far as its behaviour goes.
#[verifier::ext_equal]
pub ghost struct PipelineModel {
    /// The frames waiting in each source's queue, oldest first.
    pub queues: Seq<Seq<Frame>>,
    /// For each source, how many offers in a row found its queue full.
    pub stalls: Seq<u32>,
    /// The most frames a queue holds.
    pub capacity: usize,
    /// The most refused offers in a row that are put up with.
    pub grace: u32,
    pub valve: Valve,
    /// When the current pause began, while the valve is paused.
    pub paused_at: u64,
    /// When the last pause ended.
    pub resumed_at: u64,
    /// The time spent paused so far, not counting a pause that still lasts.
    pub paused_total: u64,
}

/// The coordinator of one session's pipeline.
pub struct Coordinator {
    queues: Vec<VecDeque<Frame>>,
    stalls: Vec<u32>,
    capacity: usize,
    grace: u32,
    valve: Valve,
    paused_at: u64,
    resumed_at: u64,
    paused_total: u64,
}

/// One thing that is done to the pipeline while a session runs: a producer
/// offers a frame, the sink is served, or the session pauses or resumes.
pub ghost enum PipelineOp {
    Offer { source: usize, frame: Frame },
    Forward,
    Pause { at: u64 },
    Resume { at: u64 },
}

/// Queue `a` is served before queue `b`: its head is older, or as old and
/// `a` is the lower number.
pub open spec fn goes_first(queues: Seq<Seq<Frame>>, a: int, b: int) -> bool {
    queues[a][0].timestamp < queues[b][0].timestamp || (queues[a][0].timestamp
        == queues[b][0].timestamp && a <= b)
}

/// Queue `i` holds a frame and is served before every other queue below `n`
/// that holds one.
pub open spec fn leads(queues: Seq<Seq<Frame>>, i: int, n: int) -> bool {
    &&& 0 <= i < n <= queues.len()
    &&& queues[i].len() > 0
    &&& forall|j: int| 0 <= j < n && (#[trigger] queues[j]).len() > 0 ==> goes_first(queues, i, j)
}

/// The queue that is served next: the one whose head has the smallest
/// timestamp, the lowest number among equals. None if every queue is empty.
pub open spec fn earliest(queues: Seq<Seq<Frame>>) -> Option<int> {
    if exists|i: int| leads(queues, i, queues.len() as int) {
        Some(choose|i: int| leads(queues, i, queues.len() as int))
    } else {
        None
    }
}

/// Every queue holds a frame.
pub open spec fn all_waiting(queues: Seq<Seq<Frame>>) -> bool {
    forall|i: int| 0 <= i < queues.len() ==> (#[trigger] queues[i]).len() > 0
}

/// The queues after the head of queue `i` has left.
pub open spec fn popped(queues: Seq<Seq<Frame>>, i: int) -> Seq<Seq<Frame>> {
    queues.update(i, queues[i].drop_first())
}

/// The number of frames in all queues together.
pub open spec fn queued(queues: Seq<Seq<Frame>>) -> nat
    decreases queues.len(),
{
    if queues.len() == 0 {
        0
    } else {
        queued(queues.drop_last()) + queues.last().len()
    }
}

/// The first `n` frames that leave the queues when the earliest head is
/// taken again and again.
pub open spec fn merged_steps(queues: Seq<Seq<Frame>>, n: nat) -> Seq<Forwarded>
    decreases n,
{
    if n == 0 {
        Seq::<Forwarded>::empty()
    } else {
        match earliest(queues) {
            Some(i) => seq![(Forwarded { source: i as usize, frame: queues[i][0] })]
                + merged_steps(popped(queues, i), (n - 1) as nat),
            None => Seq::<Forwarded>::empty(),
        }
    }
}

/// All queued frames in the order they are forwarded.
pub open spec fn merged(queues: Seq<Seq<Frame>>) -> Seq<Forwarded> {
    merged_steps(queues, queued(queues))
}

/// The frames of one source among those that were forwarded, in order.
pub open spec fn frames_from(out: Seq<Forwarded>, source: int) -> Seq<Frame>
    decreases out.len(),
{
    if out.len() == 0 {
        Seq::<Frame>::empty()
    } else {
        let rest = frames_from(out.drop_first(), source);
        if out[0].source == source {
            seq![out[0].frame] + rest
        } else {
            rest
        }
    }
}

/// Within every queue, timestamps never go down.
pub open spec fn each_in_order(queues: Seq<Seq<Frame>>) -> bool {
    forall|s: int, a: int, b: int|
        0 <= s < queues.len() && 0 <= a <= b < queues[s].len() ==> (#[trigger] queues[s][a]).timestamp
            <= (#[trigger] queues[s][b]).timestamp
}

/// Timestamps never go down along `out`.
pub open spec fn in_time_order(out: Seq<Forwarded>) -> bool {
    forall|a: int, b: int|
        0 <= a <= b < out.len() ==> (#[trigger] out[a]).frame.timestamp <= (
        #[trigger] out[b]).frame.timestamp
}

/// A stall count after one more refused offer. It stops at the largest count.
pub open spec fn bumped(stall: u32) -> u32 {
    if stall < u32::MAX {
        (stall + 1) as u32
    } else {
        stall
    }
}

impl PipelineModel {
    /// What the fields of a coordinator always satisfy: every queue is within
    /// the capacity, a torn down pipeline holds nothing, and the pause
    /// bookkeeping is consistent with a clock that never runs backwards.
    pub open spec fn wf(self) -> bool {
        &&& self.stalls.len() == self.queues.len() <= usize::MAX
        &&& forall|i: int|
            0 <= i < self.queues.len() ==> (#[trigger] self.queues[i]).len() <= self.capacity
        &&& self.valve == Valve::Closed ==> forall|i: int|
            0 <= i < self.queues.len() ==> (#[trigger] self.queues[i]).len() == 0
        &&& self.paused_total <= self.resumed_at
        &&& self.valve == Valve::Paused ==> self.resumed_at <= self.paused_at
    }

    /// A pipeline for `sources` sources with empty queues and an open valve.
    pub open spec fn fresh(sources: usize, capacity: usize, grace: u32) -> PipelineModel {
        PipelineModel {
            queues: Seq::new(sources as nat, |i: int| Seq::<Frame>::empty()),
            stalls: Seq::new(sources as nat, |i: int| 0u32),
            capacity,
            grace,
            valve: Valve::Open,
            paused_at: 0,
            resumed_at: 0,
            paused_total: 0,
        }
    }

    /// The frame as it is queued: its timestamp less the time spent paused.
    pub open spec fn rebased(self, frame: Frame) -> Frame {
        Frame { timestamp: (frame.timestamp - self.paused_total) as u64, data: frame.data }
    }

    /// What a producer is told when it offers `frame` to queue `source`.
    pub open spec fn offer_verdict(self, source: usize, frame: Frame) -> Offer {
        if source >= self.queues.len() {
            Offer::UnknownSource
        } else if self.valve == Valve::Closed {
            Offer::Closed
        } else if self.valve == Valve::Paused {
            Offer::Discarded
        } else if frame.timestamp < self.resumed_at {
            Offer::Stale
        } else if self.queues[source as int].len() >= self.capacity {
            if bumped(self.stalls[source as int]) > self.grace {
                Offer::Stalled(frame)
            } else {
                Offer::Full(frame)
            }
        } else {
            Offer::Accepted
        }
    }

    /// The pipeline after `frame` was offered to queue `source`. An accepted
    /// frame joins the end of its queue; a frame that found the queue full
    /// counts towards the stall; any other offer leaves no trace.
    pub open spec fn after_offer(self, source: usize, frame: Frame) -> PipelineModel {
        match self.offer_verdict(source, frame) {
            Offer::Accepted => PipelineModel {
                queues: self.queues.update(
                    source as int,
                    self.queues[source as int].push(self.rebased(frame)),
                ),
                stalls: self.stalls.update(source as int, 0),
                ..self
            },
            Offer::Full(_) | Offer::Stalled(_) => PipelineModel {
                stalls: self.stalls.update(source as int, bumped(self.stalls[source as int])),
                ..self
            },
            _ => self,
        }
    }

    /// The frame that is forwarded next: the earliest head, if the valve is
    /// open and every queue holds a frame. While the queue of one source is
    /// empty nothing is forwarded, because that source may yet deliver a
    /// frame that is older than all that wait.
    pub open spec fn next_forward(self) -> Option<Forwarded> {
        if self.valve != Valve::Open || !all_waiting(self.queues) {
            None
        } else {
            match earliest(self.queues) {
                Some(i) => Some(Forwarded { source: i as usize, frame: self.queues[i][0] }),
                None => None,
            }
        }
    }

    /// The pipeline after the next frame was forwarded, if there was one.
    pub open spec fn after_forward(self) -> PipelineModel {
        match self.next_forward() {
            Some(f) => PipelineModel {
                queues: popped(self.queues, f.source as int),
                stalls: self.stalls.update(f.source as int, 0),
                ..self
            },
            None => self,
        }
    }

    /// The pipeline after a pause at time `at`. Only an open valve is paused.
    /// A time before the last resume counts as the time of that resume.
    pub open spec fn after_pause(self, at: u64) -> PipelineModel {
        if self.valve == Valve::Open {
            PipelineModel {
                valve: Valve::Paused,
                paused_at: if at < self.resumed_at {
                    self.resumed_at
                } else {
                    at
                },
                ..self
            }
        } else {
            self
        }
    }

    /// When a pause that is resumed at time `at` ends: at `at`, or when the
    /// pause began if `at` lies before that.
    pub open spec fn resume_time(self, at: u64) -> u64 {
        if at < self.paused_at {
            self.paused_at
        } else {
            at
        }
    }

    /// The pipeline after a resume at time `at`. Only a paused valve is
    /// resumed; the length of the pause is added to the time spent paused.
    pub open spec fn after_resume(self, at: u64) -> PipelineModel {
        if self.valve == Valve::Paused {
            PipelineModel {
                valve: Valve::Open,
                resumed_at: self.resume_time(at),
                paused_total: (self.paused_total + (self.resume_time(at) - self.paused_at)) as u64,
                ..self
            }
        } else {
            self
        }
    }

    /// What is flushed to the sink when the session stops: every queued
    /// frame, in forwarding order.
    pub open spec fn drained(self) -> Seq<Forwarded> {
        merged(self.queues)
    }

    /// The pipeline after it was torn down: every queue is empty and the
    /// valve is closed for good.
    pub open spec fn torn_down(self) -> PipelineModel {
        PipelineModel {
            queues: Seq::new(self.queues.len(), |i: int| Seq::<Frame>::empty()),
            valve: Valve::Closed,
            ..self
        }
    }

    /// The pipeline after one operation.
    pub open spec fn after(self, op: PipelineOp) -> PipelineModel {
        match op {
            PipelineOp::Offer { source, frame } => self.after_offer(source, frame),
            PipelineOp::Forward => self.after_forward(),
            PipelineOp::Pause { at } => self.after_pause(at),
            PipelineOp::Resume { at } => self.after_resume(at),
        }
    }

    /// The frame that one operation sends to the sink, if it sends one.
    pub open spec fn sent_by(self, op: PipelineOp) -> Option<Forwarded> {
        match op {
            PipelineOp::Forward => self.next_forward(),
            _ => None,
        }
    }

    /// The pipeline after a run of operations.
    pub open spec fn after_all(self, ops: Seq<PipelineOp>) -> PipelineModel
        decreases ops.len(),
    {
        if ops.len() == 0 {
            self
        } else {
            self.after(ops[0]).after_all(ops.drop_first())
        }
    }

    /// The frames that a run of operations sends to the sink, in order.
    pub open spec fn sent_by_all(self, ops: Seq<PipelineOp>) -> Seq<Forwarded>
        decreases ops.len(),
    {
        if ops.len() == 0 {
            Seq::<Forwarded>::empty()
        } else {
            let rest = self.after(ops[0]).sent_by_all(ops.drop_first());
            match self.sent_by(ops[0]) {
                Some(f) => seq![f] + rest,
                None => rest,
            }
        }
    }
}

impl PipelineModel {
    /// Everything the sink gets from a run that ends with a stop: what is
    /// forwarded during the run, then what the stop flushes.
    pub open spec fn output(self, ops: Seq<PipelineOp>) -> Seq<Forwarded> {
        self.sent_by_all(ops) + self.after_all(ops).drained()
    }

    /// The timestamp each source delivered last, after one more operation.
    pub open spec fn marks_after(self, marks: Seq<u64>, op: PipelineOp) -> Seq<u64> {
        match op {
            PipelineOp::Offer { source, frame } => if self.offer_verdict(source, frame)
                == Offer::Accepted {
                marks.update(source as int, self.rebased(frame).timestamp)
            } else {
                marks
            },
            _ => marks,
        }
    }

    /// Over a run, no source delivers a frame that is older than the frame it
    /// delivered before. `marks` holds the timestamp each source delivered
    /// last before the run.
    pub open spec fn delivered_in_order(self, marks: Seq<u64>, ops: Seq<PipelineOp>) -> bool
        decreases ops.len(),
    {
        if ops.len() == 0 {
            true
        } else {
            &&& ops[0] matches PipelineOp::Offer { source, frame } ==> (self.offer_verdict(
                source,
                frame,
            ) == Offer::Accepted ==> marks[source as int] <= self.rebased(frame).timestamp)
            &&& self.after(ops[0]).delivered_in_order(
                self.marks_after(marks, ops[0]),
                ops.drop_first(),
            )
        }
    }

    /// What is queued is in order: within each queue timestamps never go
    /// down, no queued frame is older than `floor`, the last frame forwarded,
    /// or newer than the mark of its source, and no mark is older than
    /// `floor`.
    pub open spec fn settled(self, marks: Seq<u64>, floor: u64) -> bool {
        &&& marks.len() == self.queues.len()
        &&& each_in_order(self.queues)
        &&& forall|s: int, k: int|
            0 <= s < self.queues.len() && 0 <= k < self.queues[s].len() ==> floor <= (
            #[trigger] self.queues[s][k]).timestamp <= marks[s]
        &&& forall|s: int| 0 <= s < marks.len() ==> floor <= #[trigger] marks[s]
    }

    /// The frames of one source that are accepted over a run, as they are
    /// queued, in the order they were offered.
    pub open spec fn accepted_from(self, ops: Seq<PipelineOp>, source: int) -> Seq<Frame>
        decreases ops.len(),
    {
        if ops.len() == 0 {
            Seq::<Frame>::empty()
        } else {
            let rest = self.after(ops[0]).accepted_from(ops.drop_first(), source);
            match ops[0] {
                PipelineOp::Offer { source: s, frame } => if s == source && self.offer_verdict(
                    s,
                    frame,
                ) == Offer::Accepted {
                    seq![self.rebased(frame)] + rest
                } else {
                    rest
                },
                _ => rest,
            }
        }
    }
}

/// Whether a moment lies inside a pause, which lasts from its first moment up
/// to, but not including, its second.
pub open spec fn inside(moment: u64, pause: (u64, u64)) -> bool {
    pause.0 <= moment < pause.1
}

impl PipelineModel {
    /// The timestamps, as captured, of the frames that are accepted over a
    /// run, in the order they were offered.
    pub open spec fn stamps_accepted(self, ops: Seq<PipelineOp>) -> Seq<u64>
        decreases ops.len(),
    {
        if ops.len() == 0 {
            Seq::<u64>::empty()
        } else {
            let rest = self.after(ops[0]).stamps_accepted(ops.drop_first());
            match ops[0] {
                PipelineOp::Offer { source, frame } => if self.offer_verdict(source, frame)
                    == Offer::Accepted {
                    seq![frame.timestamp] + rest
                } else {
                    rest
                },
                _ => rest,
            }
        }
    }

    /// The pauses that end during a run, each with the moment it began and
    /// the moment it ended.
    pub open spec fn pauses_ended(self, ops: Seq<PipelineOp>) -> Seq<(u64, u64)>
        decreases ops.len(),
    {
        if ops.len() == 0 {
            Seq::<(u64, u64)>::empty()
        } else {
            let rest = self.after(ops[0]).pauses_ended(ops.drop_first());
            match ops[0] {
                PipelineOp::Resume { at } => if self.valve == Valve::Paused {
                    seq![(self.paused_at, self.resume_time(at))] + rest
                } else {
                    rest
                },
                _ => rest,
            }
        }
    }

    /// The newest timestamp accepted so far, after one more operation.
    pub open spec fn newest_after(self, newest: int, op: PipelineOp) -> int {
        match op {
            PipelineOp::Offer { source, frame } => if self.offer_verdict(source, frame)
                == Offer::Accepted && newest < frame.timestamp {
                frame.timestamp as int
            } else {
                newest
            },
            _ => newest,
        }
    }

    /// Frames are stamped by the clock that times the pauses, and are offered
    /// before the session pauses next: whenever a pause begins over the run,
    /// every frame accepted before was captured before that moment. `newest`
    /// is the newest timestamp accepted before the run.
    pub open spec fn on_the_clock(self, newest: int, ops: Seq<PipelineOp>) -> bool
        decreases ops.len(),
    {
        if ops.len() == 0 {
            true
        } else {
            &&& ops[0] matches PipelineOp::Pause { at } ==> (self.valve == Valve::Open ==> newest
                < self.after_pause(at).paused_at)
            &&& self.after(ops[0]).on_the_clock(self.newest_after(newest, ops[0]), ops.drop_first())
        }
    }
}

impl View for Coordinator {
    type V = PipelineModel;

    closed spec fn view(&self) -> PipelineModel {
        PipelineModel {
            queues: Seq::new(self.queues@.len(), |i: int| self.queues@[i]@),
            stalls: self.stalls@,
            capacity: self.capacity,
            grace: self.grace,
            valve: self.valve,
            paused_at: self.paused_at,
            resumed_at: self.resumed_at,
            paused_total: self.paused_total,
        }
    }
}

/// Some queue below `n` leads the others below `n`, or all of them are empty.
proof fn lemma_leader_below(queues: Seq<Seq<Frame>>, n: int) -> (leader: Option<int>)
    requires
        0 <= n <= queues.len(),
    ensures
        match leader {
            Some(i) => leads(queues, i, n),
            None => forall|j: int| 0 <= j < n ==> (#[trigger] queues[j]).len() == 0,
        },
    decreases n,
{
    if n == 0 {
        None
    } else {
        let before = lemma_leader_below(queues, n - 1);
        if queues[n - 1].len() == 0 {
            before
        } else {
            match before {
                None => Some(n - 1),
                Some(b) => if queues[n - 1][0].timestamp < queues[b][0].timestamp {
                    Some(n - 1)
                } else {
                    Some(b)
                },
            }
        }
    }
}

/// `earliest` names the queue that leads all others, and names none only if
/// every queue is empty. No second queue leads all others.
pub proof fn lemma_earliest(queues: Seq<Seq<Frame>>)
    ensures
        match earliest(queues) {
            Some(i) => leads(queues, i, queues.len() as int),
            None => forall|j: int| 0 <= j < queues.len() ==> (#[trigger] queues[j]).len() == 0,
        },
        forall|i: int| leads(queues, i, queues.len() as int) ==> earliest(queues) == Some(i),
{
    let leader = lemma_leader_below(queues, queues.len() as int);
    assert forall|i: int| leads(queues, i, queues.len() as int) implies earliest(queues) == Some(
        i,
    ) by {
        let c = choose|c: int| leads(queues, c, queues.len() as int);
        assert(goes_first(queues, i, c));
        assert(goes_first(queues, c, i));
    }
}

/// Taking the head of a queue takes one frame from the total.
proof fn lemma_queued_popped(queues: Seq<Seq<Frame>>, i: int)
    requires
        0 <= i < queues.len(),
        queues[i].len() > 0,
    ensures
        queued(popped(queues, i)) + 1 == queued(queues),
    decreases queues.len(),
{
    let after = popped(queues, i);
    if i == queues.len() - 1 {
        assert(after.drop_last() =~= queues.drop_last());
    } else {
        assert(after.drop_last() =~= popped(queues.drop_last(), i));
        lemma_queued_popped(queues.drop_last(), i);
    }
}

/// If no frame is queued, every queue is empty.
proof fn lemma_queued_zero(queues: Seq<Seq<Frame>>)
    requires
        queued(queues) == 0,
    ensures
        forall|j: int| 0 <= j < queues.len() ==> (#[trigger] queues[j]).len() == 0,
    decreases queues.len(),
{
    if queues.len() > 0 {
        lemma_queued_zero(queues.drop_last());
        assert forall|j: int| 0 <= j < queues.len() implies (#[trigger] queues[j]).len() == 0 by {
            if j < queues.len() - 1 {
                assert(queues.drop_last()[j] == queues[j]);
            }
        }
    }
}

/// What is merged from queues that hold a frame is the earliest head, then
/// what is merged from the rest.
proof fn lemma_merged_unfold(queues: Seq<Seq<Frame>>, i: int)
    requires
        earliest(queues) == Some(i),
    ensures
        0 <= i < queues.len(),
        queues[i].len() > 0,
        merged(queues) == seq![(Forwarded { source: i as usize, frame: queues[i][0] })] + merged(
            popped(queues, i),
        ),
{
    lemma_earliest(queues);
    lemma_queued_popped(queues, i);
}

/// Merging forwards every queued frame once, and the frames of each source
/// in the order they were queued.
proof fn lemma_merge_keeps_sources(queues: Seq<Seq<Frame>>, n: nat, source: int)
    requires
        n == queued(queues),
        0 <= source < queues.len(),
        queues.len() <= usize::MAX,
    ensures
        merged_steps(queues, n).len() == n,
        frames_from(merged_steps(queues, n), source) == queues[source],
    decreases n,
{
    lemma_earliest(queues);
    if n == 0 {
        lemma_queued_zero(queues);
        assert(queues[source] =~= Seq::<Frame>::empty());
    } else {
        match earliest(queues) {
            None => {
                assert(queued(queues) == 0) by {
                    lemma_all_empty(queues);
                }
            },
            Some(i) => {
                lemma_queued_popped(queues, i);
                let rest = popped(queues, i);
                let head = Forwarded { source: i as usize, frame: queues[i][0] };
                let out = merged_steps(queues, n);
                lemma_merge_keeps_sources(rest, (n - 1) as nat, source);
                assert(out.drop_first() =~= merged_steps(rest, (n - 1) as nat));
                assert(out[0] == head);
                if i == source {
                    assert(queues[source] =~= seq![queues[i][0]] + rest[source]);
                }
            },
        }
    }
}

/// If every queue is empty, no frame is queued.
pub proof fn lemma_all_empty(queues: Seq<Seq<Frame>>)
    requires
        forall|j: int| 0 <= j < queues.len() ==> (#[trigger] queues[j]).len() == 0,
    ensures
        queued(queues) == 0,
    decreases queues.len(),
{
    if queues.len() > 0 {
        assert forall|j: int| 0 <= j < queues.drop_last().len() implies (
        #[trigger] queues.drop_last()[j]).len() == 0 by {
            assert(queues.drop_last()[j] == queues[j]);
        }
        lemma_all_empty(queues.drop_last());
    }
}

/// No frame that is merged is older than a bound on all queued frames.
proof fn lemma_merged_not_before(queues: Seq<Seq<Frame>>, n: nat, bound: u64)
    requires
        forall|s: int, k: int|
            0 <= s < queues.len() && 0 <= k < queues[s].len() ==> bound <= (
            #[trigger] queues[s][k]).timestamp,
    ensures
        forall|a: int|
            0 <= a < merged_steps(queues, n).len() ==> bound <= (#[trigger] merged_steps(
                queues,
                n,
            )[a]).frame.timestamp,
    decreases n,
{
    lemma_earliest(queues);
    if n > 0 {
        match earliest(queues) {
            None => {},
            Some(i) => {
                let rest = popped(queues, i);
                assert forall|s: int, k: int|
                    0 <= s < rest.len() && 0 <= k < rest[s].len() implies bound <= (
                #[trigger] rest[s][k]).timestamp by {
                    if s == i {
                        assert(rest[s][k] == queues[s][k + 1]);
                    } else {
                        assert(rest[s][k] == queues[s][k]);
                    }
                }
                lemma_merged_not_before(rest, (n - 1) as nat, bound);
                let out = merged_steps(queues, n);
                let tail = merged_steps(rest, (n - 1) as nat);
                assert forall|a: int| 0 <= a < out.len() implies bound <= (
                #[trigger] out[a]).frame.timestamp by {
                    if a == 0 {
                        assert(out[0].frame == queues[i][0]);
                    } else {
                        assert(out[a] == tail[a - 1]);
                    }
                }
            },
        }
    }
}

/// Merging queues that are each in time order gives a run in time order.
proof fn lemma_merge_in_time_order(queues: Seq<Seq<Frame>>, n: nat)
    requires
        each_in_order(queues),
    ensures
        in_time_order(merged_steps(queues, n)),
    decreases n,
{
    lemma_earliest(queues);
    if n > 0 {
        match earliest(queues) {
            None => {},
            Some(i) => {
                let rest = popped(queues, i);
                let first = queues[i][0].timestamp;
                assert forall|s: int, k: int|
                    0 <= s < rest.len() && 0 <= k < rest[s].len() implies first <= (
                #[trigger] rest[s][k]).timestamp by {
                    assert(goes_first(queues, i, s));
                    if s == i {
                        assert(rest[s][k] == queues[s][k + 1]);
                        assert(queues[s][0].timestamp <= queues[s][k + 1].timestamp);
                    } else {
                        assert(rest[s][k] == queues[s][k]);
                        assert(queues[s][0].timestamp <= queues[s][k].timestamp);
                    }
                }
                assert(each_in_order(rest)) by {
                    assert forall|s: int, a: int, b: int|
                        0 <= s < rest.len() && 0 <= a <= b < rest[s].len() implies (
                    #[trigger] rest[s][a]).timestamp <= (#[trigger] rest[s][b]).timestamp by {
                        if s == i {
                            assert(rest[s][a] == queues[s][a + 1]);
                            assert(rest[s][b] == queues[s][b + 1]);
                            assert(queues[s][a + 1].timestamp <= queues[s][b + 1].timestamp);
                        } else {
                            assert(rest[s][a] == queues[s][a]);
                            assert(rest[s][b] == queues[s][b]);
                            assert(queues[s][a].timestamp <= queues[s][b].timestamp);
                        }
                    }
                }
                lemma_merged_not_before(rest, (n - 1) as nat, first);
                lemma_merge_in_time_order(rest, (n - 1) as nat);
                let out = merged_steps(queues, n);
                let tail = merged_steps(rest, (n - 1) as nat);
                assert forall|a: int, b: int| 0 <= a <= b < out.len() implies (
                #[trigger] out[a]).frame.timestamp <= (#[trigger] out[b]).frame.timestamp by {
                    if a == 0 {
                        assert(out[0].frame == queues[i][0]);
                        if b > 0 {
                            assert(out[b] == tail[b - 1]);
                        }
                    } else {
                        assert(out[a] == tail[a - 1]);
                        assert(out[b] == tail[b - 1]);
                    }
                }
            },
        }
    }
}

impl Coordinator {
    /// Holds of every coordinator, at every moment: each queue has its stall
    /// count, and the pause bookkeeping adds up.
    #[verifier::type_invariant]
    spec fn sound(self) -> bool {
        &&& self.stalls@.len() == self.queues@.len()
        &&& self.paused_total <= self.resumed_at
        &&& self.valve == Valve::Paused ==> self.resumed_at <= self.paused_at
    }

    /// A coordinator for `sources` sources. Every queue holds up to
    /// `capacity` frames, and a producer may be refused `grace` times in a
    /// row before the queue counts as stalled. The valve starts open.
    pub fn new(sources: usize, capacity: usize, grace: u32) -> (coordinator: Coordinator)
        ensures
            coordinator@ == PipelineModel::fresh(sources, capacity, grace),
            coordinator@.wf(),
    {
        let mut queues: Vec<VecDeque<Frame>> = Vec::new();
        let mut stalls: Vec<u32> = Vec::new();
        let mut i: usize = 0;
        while i < sources
            invariant
                i <= sources,
                queues@.len() == i,
                stalls@.len() == i,
                forall|j: int| 0 <= j < i ==> (#[trigger] queues@[j])@ == Seq::<Frame>::empty(),
                forall|j: int| 0 <= j < i ==> (#[trigger] stalls@[j]) == 0,
            decreases sources - i,
        {
            queues.push(VecDeque::new());
            stalls.push(0);
            i += 1;
        }
        let coordinator = Coordinator {
            queues,
            stalls,
            capacity,
            grace,
            valve: Valve::Open,
            paused_at: 0,
            resumed_at: 0,
            paused_total: 0,
        };
        assert(coordinator@ =~= PipelineModel::fresh(sources, capacity, grace));
        coordinator
    }

    /// The number of sources.
    pub fn sources(&self) -> (n: usize)
        ensures
            n == self@.queues.len(),
    {
        self.queues.len()
    }

    /// The state of the valve.
    pub fn valve(&self) -> (valve: Valve)
        ensures
            valve == self@.valve,
    {
        self.valve
    }

    /// The number of frames waiting in the queue of `source`, if there is
    /// such a source.
    pub fn pending(&self, source: usize) -> (n: Option<usize>)
        ensures
            match n {
                Some(len) => source < self@.queues.len() && len == self@.queues[source as int].len(),
                None => source >= self@.queues.len(),
            },
    {
        if source < self.queues.len() {
            Some(self.queues[source].len())
        } else {
            None
        }
    }

    /// The time spent paused so far.
    pub fn paused_total(&self) -> (total: u64)
        ensures
            total == self@.paused_total,
    {
        self.paused_total
    }

    /// Offers a frame of `source` to the pipeline. The verdict and the new
    /// contents are those that `offer_verdict` and `after_offer` give.
    pub fn offer(&mut self, source: usize, frame: Frame) -> (verdict: Offer)
        ensures
            old(self)@.wf() ==> final(self)@.wf(),
            verdict == old(self)@.offer_verdict(source, frame),
            final(self)@ == old(self)@.after_offer(source, frame),
    {
        proof {
            use_type_invariant(&*self);
        }
        if source >= self.queues.len() {
            return Offer::UnknownSource;
        }
        match self.valve {
            Valve::Closed => {
                return Offer::Closed;
            },
            Valve::Paused => {
                return Offer::Discarded;
            },
            Valve::Open => {},
        }
        if frame.timestamp < self.resumed_at {
            return Offer::Stale;
        }
        let ghost before = self@;
        if self.queues[source].len() >= self.capacity {
            let stall: u32 = self.stalls[source];
            let count: u32 = if stall < u32::MAX {
                stall + 1
            } else {
                stall
            };
            self.stalls[source] = count;
            assert(self@ =~= before.after_offer(source, frame));
            if count > self.grace {
                Offer::Stalled(frame)
            } else {
                Offer::Full(frame)
            }
        } else {
            let rebased = Frame { timestamp: frame.timestamp - self.paused_total, data: frame.data };
            self.queues[source].push_back(rebased);
            self.stalls[source] = 0;
            assert(self@.queues =~= before.queues.update(
                source as int,
                before.queues[source as int].push(before.rebased(frame)),
            ));
            assert(self@ =~= before.after_offer(source, frame));
            Offer::Accepted
        }
    }

    /// The number of the queue that is served next.
    fn earliest_source(&self) -> (best: Option<usize>)
        ensures
            match best {
                Some(i) => earliest(self@.queues) == Some(i as int),
                None => earliest(self@.queues) is None,
            },
    {
        let mut best: Option<usize> = None;
        let mut i: usize = 0;
        while i < self.queues.len()
            invariant
                i <= self.queues.len(),
                match best {
                    Some(b) => leads(self@.queues, b as int, i as int),
                    None => forall|j: int| 0 <= j < i ==> (#[trigger] self@.queues[j]).len() == 0,
                },
            decreases self.queues.len() - i,
        {
            if self.queues[i].len() > 0 {
                let stamp: u64 = self.queues[i][0].timestamp;
                match best {
                    None => {
                        best = Some(i);
                    },
                    Some(b) => {
                        if stamp < self.queues[b][0].timestamp {
                            best = Some(i);
                        }
                    },
                }
            }
            i += 1;
        }
        proof {
            lemma_earliest(self@.queues);
        }
        best
    }

    /// Takes the earliest head out of the queues, whatever the valve says.
    fn pop_earliest(&mut self) -> (out: Option<Forwarded>)
        ensures
            match out {
                Some(f) => earliest(old(self)@.queues) == Some(f.source as int) && f.frame == old(
                    self,
                )@.queues[f.source as int][0] && final(self)@ == (PipelineModel {
                    queues: popped(old(self)@.queues, f.source as int),
                    ..old(self)@
                }),
                None => earliest(old(self)@.queues) is None && final(self)@ == old(self)@,
            },
    {
        let ghost before = self@;
        proof {
            use_type_invariant(&*self);
            lemma_earliest(before.queues);
        }
        match self.earliest_source() {
            None => None,
            Some(source) => {
                match self.queues[source].pop_front() {
                    Some(frame) => {
                        assert(self@.queues =~= popped(before.queues, source as int));
                        Some(Forwarded { source, frame })
                    },
                    None => None,
                }
            },
        }
    }

    /// Whether every queue holds a frame.
    fn every_queue_waits(&self) -> (b: bool)
        ensures
            b == all_waiting(self@.queues),
    {
        let mut i: usize = 0;
        while i < self.queues.len()
            invariant
                i <= self.queues.len(),
                forall|j: int| 0 <= j < i ==> (#[trigger] self@.queues[j]).len() > 0,
            decreases self.queues.len() - i,
        {
            if self.queues[i].len() == 0 {
                assert(self@.queues[i as int].len() == 0);
                return false;
            }
            i += 1;
        }
        true
    }

    /// Forwards the next frame to the sink: the earliest queue head, if the
    /// valve is open and every source has a frame waiting. While a queue is
    /// empty, while the session is paused and after the pipeline was torn
    /// down, nothing is forwarded; what waits leaves with the flush.
    pub fn forward(&mut self) -> (out: Option<Forwarded>)
        ensures
            old(self)@.wf() ==> final(self)@.wf(),
            out == old(self)@.next_forward(),
            final(self)@ == old(self)@.after_forward(),
    {
        proof {
            use_type_invariant(&*self);
        }
        match self.valve {
            Valve::Open => {},
            _ => {
                return None;
            },
        }
        if !self.every_queue_waits() {
            return None;
        }
        let ghost before = self@;
        proof {
            lemma_earliest(before.queues);
        }
        match self.pop_earliest() {
            Some(f) => {
                proof {
                    use_type_invariant(&*self);
                }
                self.stalls[f.source] = 0;
                assert(self@ =~= before.after_forward());
                Some(f)
            },
            None => None,
        }
    }

    /// Closes the valve at time `at`. From now on every offer is discarded
    /// and nothing is forwarded, until the session resumes.
    pub fn pause(&mut self, at: u64)
        ensures
            old(self)@.wf() ==> final(self)@.wf(),
            final(self)@ == old(self)@.after_pause(at),
    {
        proof {
            use_type_invariant(&*self);
        }
        match self.valve {
            Valve::Open => {
                self.paused_at = if at < self.resumed_at {
                    self.resumed_at
                } else {
                    at
                };
                self.valve = Valve::Paused;
            },
            _ => {},
        }
    }

    /// Opens the valve again at time `at` and counts the pause that ends
    /// towards the time by which accepted frames are rebased.
    pub fn resume(&mut self, at: u64)
        ensures
            old(self)@.wf() ==> final(self)@.wf(),
            final(self)@ == old(self)@.after_resume(at),
    {
        proof {
            use_type_invariant(&*self);
        }
        match self.valve {
            Valve::Paused => {
                let end: u64 = if at < self.paused_at {
                    self.paused_at
                } else {
                    at
                };
                let pause: u64 = end - self.paused_at;
                self.valve = Valve::Open;
                self.resumed_at = end;
                self.paused_total = self.paused_total + pause;
            },
            _ => {},
        }
    }

    /// Flushes the pipeline for a stop: every queued frame comes back in
    /// forwarding order, a paused session's too, and the valve is closed
    /// for good.
    pub fn drain(&mut self) -> (out: Vec<Forwarded>)
        ensures
            old(self)@.wf() ==> final(self)@.wf(),
            out@ == old(self)@.drained(),
            final(self)@ == old(self)@.torn_down(),
    {
        proof {
            use_type_invariant(&*self);
        }
        let ghost before = self@;
        let mut out: Vec<Forwarded> = Vec::new();
        loop
            invariant
                merged(before.queues) == out@ + merged(self@.queues),
                self@ == (PipelineModel { queues: self@.queues, ..before }),
                self@.queues.len() == before.queues.len(),
            ensures
                merged(before.queues) == out@,
                self@ == (PipelineModel { queues: self@.queues, ..before }),
                self@.queues.len() == before.queues.len(),
                forall|j: int| 0 <= j < self@.queues.len() ==> (#[trigger] self@.queues[j]).len() == 0,
            decreases queued(self@.queues),
        {
            let ghost waiting = self@.queues;
            let ghost done = out@;
            proof {
                lemma_earliest(waiting);
            }
            match self.pop_earliest() {
                Some(f) => {
                    proof {
                        lemma_merged_unfold(waiting, f.source as int);
                        lemma_queued_popped(waiting, f.source as int);
                    }
                    out.push(f);
                    assert(out@ + merged(self@.queues) =~= done + merged(waiting));
                },
                None => {
                    proof {
                        lemma_all_empty(waiting);
                        assert(out@ + merged(self@.queues) =~= out@);
                    }
                    break ;
                },
            }
        }
        self.valve = Valve::Closed;
        assert(self@ =~= before.torn_down()) by {
            assert(self@.queues =~~= before.torn_down().queues);
        }
        out
    }

    /// Tears the pipeline down for a cancel or a failure: every queued frame
    /// is dropped and the valve is closed for good.
    pub fn discard(&mut self)
        ensures
            old(self)@.wf() ==> final(self)@.wf(),
            final(self)@ == old(self)@.torn_down(),
    {
        proof {
            use_type_invariant(&*self);
        }
        let ghost before = self@;
        let mut i: usize = 0;
        while i < self.queues.len()
            invariant
                i <= self.queues.len(),
                self@ == (PipelineModel { queues: self@.queues, ..before }),
                self@.queues.len() == before.queues.len(),
                forall|j: int| 0 <= j < i ==> (#[trigger] self@.queues[j]).len() == 0,
            decreases self.queues.len() - i,
        {
            let ghost step = self@.queues;
            proof {
                use_type_invariant(&*self);
            }
            self.queues[i].clear();
            assert(self@.queues =~= step.update(i as int, Seq::<Frame>::empty()));
            i += 1;
        }
        self.valve = Valve::Closed;
        assert(self@ =~= before.torn_down()) by {
            assert(self@.queues =~~= before.torn_down().queues);
        }
    }
}

/// While a session is paused nothing reaches the sink and nothing is queued:
/// until it resumes, whatever producers offer and however often the sink is
/// served, no frame is forwarded and the pipeline stays exactly as it was.
pub proof fn law_paused_forwards_nothing(model: PipelineModel, ops: Seq<PipelineOp>)
    requires
        model.valve == Valve::Paused,
        forall|i: int| 0 <= i < ops.len() ==> !(#[trigger] ops[i] is Resume),
    ensures
        model.sent_by_all(ops).len() == 0,
        model.after_all(ops) == model,
    decreases ops.len(),
{
    if ops.len() > 0 {
        assert(!(ops[0] is Resume));
        assert(model.after(ops[0]) == model);
        let rest = ops.drop_first();
        assert forall|i: int| 0 <= i < rest.len() implies !(#[trigger] rest[i] is Resume) by {
            assert(rest[i] == ops[i + 1]);
        }
        law_paused_forwards_nothing(model, rest);
    }
}

/// A pipeline that is well formed stays so, whatever is done to it: no queue
/// ever holds more than the capacity, and a pipeline that was torn down holds
/// nothing.
pub proof fn law_pipeline_stays_well_formed(model: PipelineModel, op: PipelineOp, at: u64)
    requires
        model.wf(),
    ensures
        model.after(op).wf(),
        model.after_pause(at).wf(),
        model.after_resume(at).wf(),
        model.torn_down().wf(),
{
    lemma_earliest(model.queues);
    let next = model.after(op);
    assert forall|i: int| 0 <= i < next.queues.len() implies (#[trigger] next.queues[i]).len()
        <= next.capacity by {
        assert(model.queues[i].len() <= model.capacity);
    }
    if next.valve == Valve::Closed {
        assert forall|i: int| 0 <= i < next.queues.len() implies (#[trigger] next.queues[i]).len()
            == 0 by {
            assert(model.queues[i].len() == 0);
        }
    }
}

/// A new pipeline is well formed.
pub proof fn law_fresh_pipeline_is_well_formed(sources: usize, capacity: usize, grace: u32)
    ensures
        PipelineModel::fresh(sources, capacity, grace).wf(),
{
}

/// After a pipeline was torn down nothing reaches the sink any more.
pub proof fn law_closed_forwards_nothing(model: PipelineModel, ops: Seq<PipelineOp>)
    requires
        model.valve == Valve::Closed,
    ensures
        model.sent_by_all(ops).len() == 0,
        model.after_all(ops) == model,
    decreases ops.len(),
{
    if ops.len() > 0 {
        assert(model.after(ops[0]) == model);
        law_closed_forwards_nothing(model, ops.drop_first());
    }
}

/// A frame that is accepted was not captured during a pause: it is no older
/// than the last resume, and it is queued with the paused time taken out.
pub proof fn law_accepted_frames_are_live(model: PipelineModel, source: usize, frame: Frame)
    requires
        model.wf(),
        model.offer_verdict(source, frame) == Offer::Accepted,
    ensures
        model.valve == Valve::Open,
        model.resumed_at <= frame.timestamp,
        model.rebased(frame).timestamp + model.paused_total == frame.timestamp,
        model.after_offer(source, frame).queues[source as int].last() == model.rebased(frame),
{
}

/// A pause leaves no gap: what is captured at the moment of the resume is
/// queued with the timestamp that the moment of the pause would have had.
pub proof fn law_resume_closes_the_gap(model: PipelineModel, at: u64)
    requires
        model.wf(),
        model.valve == Valve::Paused,
    ensures
        model.after_resume(at).wf(),
        model.after_resume(at).resumed_at - model.after_resume(at).paused_total == model.paused_at
            - model.paused_total,
{
}

/// Taking the earliest head leaves the queues in order, and nothing that
/// stays queued is older than the head that left.
proof fn lemma_popped_in_order(queues: Seq<Seq<Frame>>, i: int)
    requires
        each_in_order(queues),
        earliest(queues) == Some(i),
    ensures
        each_in_order(popped(queues, i)),
        forall|s: int, k: int|
            0 <= s < queues.len() && 0 <= k < popped(queues, i)[s].len() ==> queues[i][0].timestamp
                <= (#[trigger] popped(queues, i)[s][k]).timestamp,
        forall|s: int, k: int|
            0 <= s < queues.len() && 0 <= k < popped(queues, i)[s].len() ==> (#[trigger] popped(
                queues,
                i,
            )[s][k]) == queues[s][if s == i {
                k + 1
            } else {
                k
            }],
{
    lemma_earliest(queues);
    let rest = popped(queues, i);
    assert forall|s: int, k: int| 0 <= s < queues.len() && 0 <= k < rest[s].len() implies {
        &&& queues[i][0].timestamp <= (#[trigger] rest[s][k]).timestamp
        &&& rest[s][k] == queues[s][if s == i {
            k + 1
        } else {
            k
        }]
    } by {
        assert(goes_first(queues, i, s));
        if s == i {
            assert(rest[s][k] == queues[s][k + 1]);
            assert(queues[s][0].timestamp <= queues[s][k + 1].timestamp);
        } else {
            assert(rest[s][k] == queues[s][k]);
            assert(queues[s][0].timestamp <= queues[s][k].timestamp);
        }
    }
    assert forall|s: int, a: int, b: int|
        0 <= s < rest.len() && 0 <= a <= b < rest[s].len() implies (#[trigger] rest[s][a]).timestamp
        <= (#[trigger] rest[s][b]).timestamp by {
        if s == i {
            assert(rest[s][a] == queues[s][a + 1]);
            assert(rest[s][b] == queues[s][b + 1]);
            assert(queues[s][a + 1].timestamp <= queues[s][b + 1].timestamp);
        } else {
            assert(rest[s][a] == queues[s][a]);
            assert(rest[s][b] == queues[s][b]);
            assert(queues[s][a].timestamp <= queues[s][b].timestamp);
        }
    }
}

/// From a settled pipeline, a run in which every source delivers in order
/// gives the sink nothing out of time order and nothing older than the
/// floor.
proof fn lemma_output_in_time_order(
    model: PipelineModel,
    marks: Seq<u64>,
    floor: u64,
    ops: Seq<PipelineOp>,
)
    requires
        model.wf(),
        model.settled(marks, floor),
        model.delivered_in_order(marks, ops),
    ensures
        in_time_order(model.output(ops)),
        forall|a: int|
            0 <= a < model.output(ops).len() ==> floor <= (#[trigger] model.output(
                ops,
            )[a]).frame.timestamp,
    decreases ops.len(),
{
    let out = model.output(ops);
    if ops.len() == 0 {
        assert(out =~= model.drained());
        lemma_merge_in_time_order(model.queues, queued(model.queues));
        lemma_merged_not_before(model.queues, queued(model.queues), floor);
    } else {
        let op = ops[0];
        let next = model.after(op);
        let rest = ops.drop_first();
        law_pipeline_stays_well_formed(model, op, 0);
        lemma_earliest(model.queues);
        match model.sent_by(op) {
            Some(f) => {
                let i = f.source as int;
                lemma_popped_in_order(model.queues, i);
                let stamp = f.frame.timestamp;
                assert(next.queues == popped(model.queues, i));
                assert(next.settled(marks, stamp)) by {
                    assert forall|s: int, k: int|
                        0 <= s < next.queues.len() && 0 <= k < next.queues[s].len() implies stamp
                        <= (#[trigger] next.queues[s][k]).timestamp <= marks[s] by {
                        let m = if s == i {
                            k + 1
                        } else {
                            k
                        };
                        assert(next.queues[s][k] == model.queues[s][m]);
                        assert(model.queues[s][m].timestamp <= marks[s]);
                    }
                    assert forall|s: int| 0 <= s < marks.len() implies stamp <= #[trigger] marks[s] by {
                        assert(model.queues[s].len() > 0);
                        assert(goes_first(model.queues, i, s));
                        assert(model.queues[s][0].timestamp <= marks[s]);
                    }
                }
                assert(floor <= model.queues[i][0].timestamp);
                lemma_output_in_time_order(next, marks, stamp, rest);
                let tail = next.output(rest);
                assert(out =~= seq![f] + tail);
                assert forall|a: int, b: int| 0 <= a <= b < out.len() implies (
                #[trigger] out[a]).frame.timestamp <= (#[trigger] out[b]).frame.timestamp by {
                    if a > 0 {
                        assert(out[a] == tail[a - 1]);
                        assert(out[b] == tail[b - 1]);
                    } else if b > 0 {
                        assert(out[b] == tail[b - 1]);
                    }
                }
                assert forall|a: int| 0 <= a < out.len() implies floor <= (
                #[trigger] out[a]).frame.timestamp by {
                    if a > 0 {
                        assert(out[a] == tail[a - 1]);
                    }
                }
            },
            None => {
                let marked = model.marks_after(marks, op);
                assert(next.settled(marked, floor)) by {
                    match op {
                        PipelineOp::Offer { source, frame } => {
                            if model.offer_verdict(source, frame) == Offer::Accepted {
                                let r = model.rebased(frame);
                                let s0 = source as int;
                                assert(next.queues[s0] == model.queues[s0].push(r));
                                assert forall|s: int, k: int|
                                    0 <= s < next.queues.len() && 0 <= k < next.queues[s].len() implies floor
                                    <= (#[trigger] next.queues[s][k]).timestamp <= marked[s] by {
                                    if s == s0 {
                                        if k < model.queues[s].len() {
                                            assert(next.queues[s][k] == model.queues[s][k]);
                                            assert(model.queues[s][k].timestamp <= marks[s]);
                                        }
                                    } else {
                                        assert(next.queues[s][k] == model.queues[s][k]);
                                    }
                                }
                                assert forall|s: int, a: int, b: int|
                                    0 <= s < next.queues.len() && 0 <= a <= b
                                        < next.queues[s].len() implies (
                                #[trigger] next.queues[s][a]).timestamp <= (
                                #[trigger] next.queues[s][b]).timestamp by {
                                    if s == s0 {
                                        if b < model.queues[s].len() {
                                            assert(next.queues[s][a] == model.queues[s][a]);
                                            assert(next.queues[s][b] == model.queues[s][b]);
                                            assert(model.queues[s][a].timestamp
                                                <= model.queues[s][b].timestamp);
                                        } else if a < model.queues[s].len() {
                                            assert(next.queues[s][a] == model.queues[s][a]);
                                            assert(model.queues[s][a].timestamp <= marks[s]);
                                        }
                                    } else {
                                        assert(next.queues[s][a] == model.queues[s][a]);
                                        assert(next.queues[s][b] == model.queues[s][b]);
                                        assert(model.queues[s][a].timestamp
                                            <= model.queues[s][b].timestamp);
                                    }
                                }
                            } else {
                                assert(next.queues == model.queues);
                            }
                        },
                        _ => {
                            assert(next.queues == model.queues);
                        },
                    }
                }
                lemma_output_in_time_order(next, marked, floor, rest);
                assert(out =~= next.output(rest));
            },
        }
    }
}

/// Whatever the order in which frames arrive, the sink gets them by
/// timestamp: over any run of offers, turns of the sink, pauses and resumes
/// from a new pipeline, what is forwarded and then flushed by the stop is in
/// time order, as long as no source delivers a frame that is older than the
/// frame it delivered before.
pub proof fn law_output_in_time_order(
    sources: usize,
    capacity: usize,
    grace: u32,
    ops: Seq<PipelineOp>,
)
    requires
        PipelineModel::fresh(sources, capacity, grace).delivered_in_order(
            Seq::new(sources as nat, |i: int| 0u64),
            ops,
        ),
    ensures
        in_time_order(PipelineModel::fresh(sources, capacity, grace).output(ops)),
{
    let model = PipelineModel::fresh(sources, capacity, grace);
    let marks = Seq::new(sources as nat, |i: int| 0u64);
    lemma_output_in_time_order(model, marks, 0, ops);
}

/// The same holds from the middle of a session: from any pipeline in which
/// what is queued is settled, a run in which every source delivers in order
/// gives the sink its frames in time order.
pub proof fn law_output_stays_in_time_order(
    model: PipelineModel,
    marks: Seq<u64>,
    floor: u64,
    ops: Seq<PipelineOp>,
)
    requires
        model.wf(),
        model.settled(marks, floor),
        model.delivered_in_order(marks, ops),
    ensures
        in_time_order(model.output(ops)),
{
    lemma_output_in_time_order(model, marks, floor, ops);
}

/// Whatever is accepted over a run was captured no earlier than the last
/// resume before the run.
proof fn lemma_accepted_after_resume(model: PipelineModel, ops: Seq<PipelineOp>)
    requires
        model.wf(),
    ensures
        forall|a: int|
            0 <= a < model.stamps_accepted(ops).len() ==> model.resumed_at
                <= #[trigger] model.stamps_accepted(ops)[a],
    decreases ops.len(),
{
    if ops.len() > 0 {
        let next = model.after(ops[0]);
        let rest = ops.drop_first();
        law_pipeline_stays_well_formed(model, ops[0], 0);
        lemma_earliest(model.queues);
        lemma_accepted_after_resume(next, rest);
        assert(model.resumed_at <= next.resumed_at);
        let stamps = model.stamps_accepted(ops);
        let tail = next.stamps_accepted(rest);
        assert forall|a: int| 0 <= a < stamps.len() implies model.resumed_at
            <= #[trigger] stamps[a] by {
            if stamps.len() == tail.len() {
                assert(stamps =~= tail);
            } else {
                assert(stamps =~= seq![stamps[0]] + tail);
                if a > 0 {
                    assert(stamps[a] == tail[a - 1]);
                }
            }
        }
    }
}

/// With frames stamped by the clock, every pause that ends during a run, and
/// the pause that lasts at its end, began after all that was accepted before
/// the run.
proof fn lemma_pauses_begin_late(model: PipelineModel, newest: int, ops: Seq<PipelineOp>)
    requires
        model.wf(),
        model.on_the_clock(newest, ops),
        model.valve == Valve::Paused ==> newest < model.paused_at,
    ensures
        forall|j: int|
            0 <= j < model.pauses_ended(ops).len() ==> newest < (#[trigger] model.pauses_ended(
                ops,
            )[j]).0,
        model.after_all(ops).valve == Valve::Paused ==> newest < model.after_all(ops).paused_at,
    decreases ops.len(),
{
    if ops.len() > 0 {
        let next = model.after(ops[0]);
        let rest = ops.drop_first();
        let newer = model.newest_after(newest, ops[0]);
        law_pipeline_stays_well_formed(model, ops[0], 0);
        lemma_earliest(model.queues);
        lemma_pauses_begin_late(next, newer, rest);
        let pauses = model.pauses_ended(ops);
        let tail = next.pauses_ended(rest);
        assert forall|j: int| 0 <= j < pauses.len() implies newest < (#[trigger] pauses[j]).0 by {
            if pauses.len() == tail.len() {
                assert(pauses =~= tail);
            } else {
                assert(pauses =~= seq![pauses[0]] + tail);
                if j > 0 {
                    assert(pauses[j] == tail[j - 1]);
                }
            }
        }
    }
}

/// A pause leaves nothing in the output, however many pauses there are: over
/// any run of offers, turns of the sink, pauses and resumes, no frame that is
/// accepted was captured inside a pause that ended during the run, nor in the
/// pause that lasts at its end. This holds for frames that are stamped by
/// the clock that times the pauses.
pub proof fn law_no_content_from_any_pause(model: PipelineModel, newest: int, ops: Seq<PipelineOp>)
    requires
        model.wf(),
        model.on_the_clock(newest, ops),
        model.valve == Valve::Paused ==> newest < model.paused_at,
    ensures
        forall|a: int, j: int|
            0 <= a < model.stamps_accepted(ops).len() && 0 <= j < model.pauses_ended(ops).len()
                ==> !inside(
                #[trigger] model.stamps_accepted(ops)[a],
                #[trigger] model.pauses_ended(ops)[j],
            ),
        forall|a: int|
            0 <= a < model.stamps_accepted(ops).len() && model.after_all(ops).valve
                == Valve::Paused ==> (#[trigger] model.stamps_accepted(ops)[a]) < model.after_all(
                ops,
            ).paused_at,
    decreases ops.len(),
{
    if ops.len() > 0 {
        let next = model.after(ops[0]);
        let rest = ops.drop_first();
        let newer = model.newest_after(newest, ops[0]);
        law_pipeline_stays_well_formed(model, ops[0], 0);
        lemma_earliest(model.queues);
        law_no_content_from_any_pause(next, newer, rest);
        lemma_accepted_after_resume(next, rest);
        lemma_pauses_begin_late(next, newer, rest);
        let stamps = model.stamps_accepted(ops);
        let tail = next.stamps_accepted(rest);
        let pauses = model.pauses_ended(ops);
        let later = next.pauses_ended(rest);
        if stamps.len() == tail.len() {
            assert(stamps =~= tail);
        } else {
            assert(stamps =~= seq![stamps[0]] + tail);
            assert(pauses =~= later);
            assert(stamps[0] <= newer);
        }
        if pauses.len() == later.len() {
            assert(pauses =~= later);
        } else {
            assert(pauses =~= seq![pauses[0]] + later);
            assert(stamps =~= tail);
            assert(pauses[0].1 == next.resumed_at);
        }
        assert forall|a: int, j: int|
            0 <= a < stamps.len() && 0 <= j < pauses.len() implies !inside(
            #[trigger] stamps[a],
            #[trigger] pauses[j],
        ) by {
            if stamps.len() != tail.len() {
                if a > 0 {
                    assert(stamps[a] == tail[a - 1]);
                }
            } else if pauses.len() != later.len() {
                if j > 0 {
                    assert(pauses[j] == later[j - 1]);
                }
            }
        }
        assert forall|a: int|
            0 <= a < stamps.len() && model.after_all(ops).valve == Valve::Paused implies (
        #[trigger] stamps[a]) < model.after_all(ops).paused_at by {
            if stamps.len() != tail.len() && a > 0 {
                assert(stamps[a] == tail[a - 1]);
            }
        }
    }
}

/// No frame is lost and none is made up: what the sink gets of one source,
/// forwarded during the run or flushed by the stop, is what was queued for
/// that source and then what the run accepted from it, each frame once and
/// in the order the source delivered them.
pub proof fn law_every_frame_is_sent_once(model: PipelineModel, ops: Seq<PipelineOp>, source: int)
    requires
        model.wf(),
        0 <= source < model.queues.len(),
    ensures
        frames_from(model.output(ops), source) == model.queues[source] + model.accepted_from(
            ops,
            source,
        ),
    decreases ops.len(),
{
    let out = model.output(ops);
    if ops.len() == 0 {
        assert(out =~= model.drained());
        lemma_merge_keeps_sources(model.queues, queued(model.queues), source);
        assert(model.queues[source] + Seq::<Frame>::empty() =~= model.queues[source]);
    } else {
        let op = ops[0];
        let next = model.after(op);
        let rest = ops.drop_first();
        law_pipeline_stays_well_formed(model, op, 0);
        lemma_earliest(model.queues);
        law_every_frame_is_sent_once(next, rest, source);
        let tail = next.output(rest);
        match model.sent_by(op) {
            Some(f) => {
                let i = f.source as int;
                assert(out =~= seq![f] + tail);
                assert(out.drop_first() =~= tail);
                assert(next.queues == popped(model.queues, i));
                if i == source {
                    assert(model.queues[source] =~= seq![f.frame] + next.queues[source]);
                    assert(frames_from(out, source) =~= model.queues[source] + model.accepted_from(
                        ops,
                        source,
                    ));
                }
            },
            None => {
                assert(out =~= tail);
                match op {
                    PipelineOp::Offer { source: s, frame } => {
                        if model.offer_verdict(s, frame) == Offer::Accepted && s == source {
                            let r = model.rebased(frame);
                            assert(next.queues[source] == model.queues[source].push(r));
                            assert(frames_from(out, source) =~= model.queues[source] + (seq![r]
                                + next.accepted_from(rest, source)));
                        } else {
                            assert(next.queues[source] == model.queues[source]);
                        }
                    },
                    _ => {
                        assert(next.queues == model.queues);
                    },
                }
            },
        }
    }
}

/// Flushing forwards every queued frame exactly once, and the frames of each
/// source in the order that source delivered them.
pub proof fn law_drain_keeps_source_order(model: PipelineModel, source: int)
    requires
        0 <= source < model.queues.len(),
        model.queues.len() <= usize::MAX,
    ensures
        model.drained().len() == queued(model.queues),
        frames_from(model.drained(), source) == model.queues[source],
{
    lemma_merge_keeps_sources(model.queues, queued(model.queues), source);
}

/// Flushing interleaves the sources by timestamp: if no source delivered its
/// frames out of order, what is forwarded is in time order.
pub proof fn law_drain_in_time_order(model: PipelineModel)
    requires
        each_in_order(model.queues),
    ensures
        in_time_order(model.drained()),
{
    lemma_merge_in_time_order(model.queues, queued(model.queues));
}

} // verus!
