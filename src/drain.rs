use vstd::prelude::*;
use crate::queue::texts;

verus! {

/// The abstract state of one drain cycle: the batch taken from the queue, and
/// the outcome of each send attempted so far, in batch order.
pub struct CycleView {
    pub batch: Seq<Seq<char>>,
    pub outcomes: Seq<bool>,
}

impl CycleView {
    pub open spec fn wf(self) -> bool {
        self.outcomes.len() <= self.batch.len()
    }

    /// Every message of the batch has been attempted.
    pub open spec fn done(self) -> bool {
        self.outcomes.len() >= self.batch.len()
    }

    /// The message to attempt next, if any is left.
    pub open spec fn next(self) -> Option<Seq<char>> {
        if self.outcomes.len() < self.batch.len() {
            Some(self.batch[self.outcomes.len() as int])
        } else {
            None
        }
    }

    /// The messages attempted so far, in order.
    pub open spec fn attempted(self) -> Seq<Seq<char>> {
        self.batch.take(self.outcomes.len() as int)
    }

    /// The state after the next attempt, which `delivered` tells the outcome of.
    pub open spec fn record(self, delivered: bool) -> CycleView {
        CycleView { batch: self.batch, outcomes: self.outcomes.push(delivered) }
    }

    /// The state after one attempt for each outcome of `results`, in order.
    pub open spec fn run(self, results: Seq<bool>) -> CycleView
        decreases results.len(),
    {
        if results.len() == 0 {
            self
        } else {
            self.record(results[0]).run(results.drop_first())
        }
    }
}

/// One pass of the drain worker over a batch of messages. Each message is
/// attempted once, in order; a failed send is reported and the cycle goes on.
pub struct DrainCycle {
    batch: Vec<String>,
    outcomes: Vec<bool>,
}

impl View for DrainCycle {
    type V = CycleView;

    closed spec fn view(&self) -> CycleView {
        CycleView { batch: texts(self.batch@), outcomes: self.outcomes@ }
    }
}

impl DrainCycle {
    pub closed spec fn wf(&self) -> bool {
        self@.wf()
    }

    /// A cycle over `batch` with nothing attempted yet.
    pub fn new(batch: Vec<String>) -> (r: DrainCycle)
        ensures
            r.wf(),
            r@.batch == texts(batch@),
            r@.outcomes == Seq::<bool>::empty(),
    {
        DrainCycle { batch, outcomes: Vec::new() }
    }

    /// The message to send next, or `None` once every message was attempted.
    pub fn next_message(&self) -> (r: Option<String>)
        requires
            self.wf(),
        ensures
            match r {
                Some(m) => self@.next() == Some(m@),
                None => self@.next() is None,
            },
    {
        let i = self.outcomes.len();
        if i < self.batch.len() {
            Some(self.batch[i].clone())
        } else {
            None
        }
    }

    /// Records the outcome of sending the message that `next_message` gave.
    pub fn record(&mut self, delivered: bool)
        requires
            old(self).wf(),
            !old(self)@.done(),
        ensures
            final(self).wf(),
            final(self)@ == old(self)@.record(delivered),
    {
        self.outcomes.push(delivered);
    }

    pub fn is_done(&self) -> (r: bool)
        ensures
            r == self@.done(),
    {
        self.outcomes.len() >= self.batch.len()
    }

    /// The number of messages in the batch.
    pub fn batch_len(&self) -> (r: usize)
        ensures
            r == self@.batch.len(),
    {
        self.batch.len()
    }

    /// The number of messages attempted so far.
    pub fn attempted_len(&self) -> (r: usize)
        ensures
            r == self@.outcomes.len(),
    {
        self.outcomes.len()
    }
}

/// Whether a send succeeded or failed never changes which message is
/// attempted next, nor which were attempted before.
pub proof fn lemma_failure_does_not_change_next(v: CycleView)
    requires
        v.wf(),
        !v.done(),
    ensures
        v.record(false).next() == v.record(true).next(),
        v.record(false).attempted() == v.record(true).attempted(),
        v.record(false).attempted() == v.attempted().push(v.batch[v.outcomes.len() as int]),
{
    assert(v.record(false).attempted() =~= v.attempted().push(v.batch[v.outcomes.len() as int]));
}

proof fn lemma_run_outcomes(v: CycleView, results: Seq<bool>)
    ensures
        v.run(results).batch == v.batch,
        v.run(results).outcomes == v.outcomes + results,
    decreases results.len(),
{
    if results.len() == 0 {
        assert(v.outcomes + results =~= v.outcomes);
    } else {
        lemma_run_outcomes(v.record(results[0]), results.drop_first());
        assert(v.outcomes.push(results[0]) + results.drop_first() =~= v.outcomes + results);
    }
}

/// A cycle that starts on a batch attempts every message of it exactly once
/// and in order, whatever the outcome of each send: one attempt per message
/// ends the cycle.
pub proof fn lemma_cycle_attempts_every_message(v: CycleView, results: Seq<bool>)
    requires
        v.outcomes.len() == 0,
        results.len() == v.batch.len(),
    ensures
        v.run(results).done(),
        v.run(results).attempted() == v.batch,
        v.run(results).outcomes == results,
        v.run(results).next() is None,
{
    lemma_run_outcomes(v, results);
    assert(v.outcomes + results =~= results);
    assert(v.batch.take(v.batch.len() as int) =~= v.batch);
}

} // verus!
