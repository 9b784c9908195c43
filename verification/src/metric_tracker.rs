//! The sink that collects classified outcomes until they are read.
//!
//! Outcomes are recorded as they are classified and handed out, all at
//! once and in the order of their recording, to whoever polls. The tracker
//! is a plain value: where several tasks share it, they do so behind a lock,
//! so that every use of it is one `record` or one `get_roam_events` in some
//! order.

use crate::roaming::{Outcome, UxiRoamEvent};
use vstd::prelude::*;

verus! {

/// The outcomes recorded and not yet handed out.
pub struct MetricTracker {
    roam_events: Vec<UxiRoamEvent>,
}

/// The views of a sequence of outcomes.
pub open spec fn outcome_views(events: Seq<UxiRoamEvent>) -> Seq<Outcome> {
    events.map_values(|event: UxiRoamEvent| event@)
}

impl View for MetricTracker {
    type V = Seq<Outcome>;

    closed spec fn view(&self) -> Seq<Outcome> {
        outcome_views(self.roam_events@)
    }
}

/// One use of the tracker.
pub enum TrackerOp {
    /// An outcome is recorded.
    Record(Outcome),
    /// All that is buffered is handed out.
    Drain,
}

/// The tracker's history: what its buffer holds, and what each drain so far
/// has handed out, one entry per drain.
pub struct TrackerTrace {
    pub buffer: Seq<Outcome>,
    pub drained: Seq<Seq<Outcome>>,
}

/// The buffer after an outcome was recorded: the outcome stands last.
pub open spec fn after_record(buffer: Seq<Outcome>, outcome: Outcome) -> Seq<Outcome> {
    buffer.push(outcome)
}

/// What a drain hands out, and the buffer it leaves: all of the buffer, and
/// nothing.
pub open spec fn after_drain(buffer: Seq<Outcome>) -> (Seq<Outcome>, Seq<Outcome>) {
    (buffer, Seq::empty())
}

/// The history after one more use of the tracker.
pub open spec fn apply_op(trace: TrackerTrace, op: TrackerOp) -> TrackerTrace {
    match op {
        TrackerOp::Record(outcome) => TrackerTrace {
            buffer: after_record(trace.buffer, outcome),
            drained: trace.drained,
        },
        TrackerOp::Drain => TrackerTrace {
            buffer: after_drain(trace.buffer).1,
            drained: trace.drained.push(after_drain(trace.buffer).0),
        },
    }
}

/// The history of a new tracker after the uses `ops`, in order.
pub open spec fn trace_of(ops: Seq<TrackerOp>) -> TrackerTrace
    decreases ops.len(),
{
    if ops.len() == 0 {
        TrackerTrace { buffer: Seq::empty(), drained: Seq::empty() }
    } else {
        apply_op(trace_of(ops.drop_last()), ops.last())
    }
}

/// The outcomes recorded by the uses `ops`, in order.
pub open spec fn recorded(ops: Seq<TrackerOp>) -> Seq<Outcome>
    decreases ops.len(),
{
    if ops.len() == 0 {
        Seq::empty()
    } else {
        match ops.last() {
            TrackerOp::Record(outcome) => recorded(ops.drop_last()).push(outcome),
            TrackerOp::Drain => recorded(ops.drop_last()),
        }
    }
}

/// The sequences of `parts` one after another.
pub open spec fn concat_all(parts: Seq<Seq<Outcome>>) -> Seq<Outcome>
    decreases parts.len(),
{
    if parts.len() == 0 {
        Seq::empty()
    } else {
        concat_all(parts.drop_last()) + parts.last()
    }
}

impl MetricTracker {
    /// A tracker that holds nothing.
    pub fn new() -> (tracker: Self)
        ensures
            tracker@ == Seq::<Outcome>::empty(),
    {
        let tracker = MetricTracker { roam_events: Vec::new() };
        assert(tracker@ =~= Seq::<Outcome>::empty());
        tracker
    }

    /// Records an outcome behind those already held.
    pub fn record(&mut self, event: UxiRoamEvent)
        ensures
            final(self)@ == after_record(old(self)@, event@),
    {
        self.roam_events.push(event);
        assert(final(self)@ =~= after_record(old(self)@, event@));
    }

    /// Hands out all outcomes recorded since the last call, in the order of
    /// their recording, and holds none of them afterwards.
    pub fn get_roam_events(&mut self) -> (events: Vec<UxiRoamEvent>)
        ensures
            outcome_views(events@) == after_drain(old(self)@).0,
            final(self)@ == after_drain(old(self)@).1,
    {
        let mut events: Vec<UxiRoamEvent> = Vec::new();
        std::mem::swap(&mut self.roam_events, &mut events);
        assert(final(self)@ =~= Seq::<Outcome>::empty());
        events
    }
}

/// A drain that follows a drain, with nothing recorded in between, hands
/// out nothing.
pub proof fn lemma_second_drain_is_empty(buffer: Seq<Outcome>)
    ensures
        after_drain(after_drain(buffer).1).0 == Seq::<Outcome>::empty(),
        after_drain(after_drain(buffer).1).1 == Seq::<Outcome>::empty(),
{
}

/// Nothing is lost and nothing comes twice: whatever the order of records
/// and drains, what the drains handed out, one drain after another, followed
/// by what is still buffered, is exactly what was recorded, in the order of
/// recording. So every recorded outcome is handed out by exactly one drain,
/// or is still held.
pub proof fn lemma_no_loss_no_duplication(ops: Seq<TrackerOp>)
    ensures
        concat_all(trace_of(ops).drained) + trace_of(ops).buffer == recorded(ops),
    decreases ops.len(),
{
    if ops.len() > 0 {
        let before = trace_of(ops.drop_last());
        lemma_no_loss_no_duplication(ops.drop_last());
        match ops.last() {
            TrackerOp::Record(outcome) => {
                assert(concat_all(before.drained) + before.buffer.push(outcome) =~= (concat_all(
                    before.drained,
                ) + before.buffer).push(outcome));
            },
            TrackerOp::Drain => {
                let drained = before.drained.push(before.buffer);
                assert(drained.drop_last() =~= before.drained);
                assert(concat_all(drained) + Seq::<Outcome>::empty() =~= concat_all(before.drained)
                    + before.buffer);
            },
        }
    }
}

/// After a final drain nothing is held, so the drains together have handed
/// out exactly what was recorded.
pub proof fn lemma_drained_is_recorded(ops: Seq<TrackerOp>)
    ensures
        concat_all(trace_of(ops.push(TrackerOp::Drain)).drained) == recorded(ops),
{
    let all = ops.push(TrackerOp::Drain);
    assert(all.drop_last() =~= ops);
    lemma_no_loss_no_duplication(all);
    assert(concat_all(trace_of(all).drained) + Seq::<Outcome>::empty() =~= concat_all(
        trace_of(all).drained,
    ));
}

} // verus!
