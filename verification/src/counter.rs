//! The per-stage progress counter.
//!
//! A stage gets a fresh counter. Every callback of the stage's collaborator
//! counts one part as done and sends the new count, in one step, so that no
//! count is lost and no message reports less than an earlier one did.

use crate::taskstatus::{set_task_status, ChannelClosed, ProgressChannel, ProgressMessage};
use vstd::prelude::*;

verus! {

/// What a stage's counter holds.
pub struct CounterState {
    /// The parts of work known when the stage started; 0 when unknown.
    pub total: nat,
    /// The parts recorded as done.
    pub completed: nat,
}

impl CounterState {
    /// The counter of a stage that starts with `total` parts.
    pub open spec fn fresh(total: nat) -> CounterState {
        CounterState { total, completed: 0 }
    }

    /// The counter after one more part was recorded.
    pub open spec fn recorded(self) -> CounterState {
        CounterState { total: self.total, completed: self.completed + 1 }
    }

    /// The message that reports this counter for the stage `stage_name`.
    pub open spec fn report(self, stage_name: Seq<char>) -> ProgressMessage {
        ProgressMessage::Working { stage_name, total: self.total, completed: self.completed }
    }

    /// The counter after `n` more parts were recorded.
    pub open spec fn recorded_times(self, n: nat) -> CounterState
        decreases n,
    {
        if n == 0 {
            self
        } else {
            self.recorded_times((n - 1) as nat).recorded()
        }
    }

    /// The messages that recording `n` more parts sends, oldest first.
    pub open spec fn reports(self, stage_name: Seq<char>, n: nat) -> Seq<ProgressMessage>
        decreases n,
    {
        if n == 0 {
            Seq::empty()
        } else {
            self.reports(stage_name, (n - 1) as nat).push(
                self.recorded_times(n).report(stage_name),
            )
        }
    }
}

/// Counts the parts of one stage that are done.
pub struct StageProgressCounter {
    total: usize,
    completed: usize,
}

impl View for StageProgressCounter {
    type V = CounterState;

    closed spec fn view(&self) -> CounterState {
        CounterState { total: self.total as nat, completed: self.completed as nat }
    }
}

impl StageProgressCounter {
    /// A counter at zero for a stage of `total` parts (0 when unknown).
    pub fn new(total: usize) -> (counter: Self)
        ensures
            counter@ == CounterState::fresh(total as nat),
    {
        StageProgressCounter { total, completed: 0 }
    }

    /// The parts of work known when the stage started.
    pub fn total(&self) -> (total: usize)
        ensures
            total == self@.total,
    {
        self.total
    }

    /// The parts recorded as done.
    pub fn completed(&self) -> (completed: usize)
        ensures
            completed == self@.completed,
    {
        self.completed
    }

    /// Counts one more part as done and sends the new count for `stage_name`.
    /// The part is counted whether or not the monitor still listens.
    pub fn record_progress(&mut self, sender: &mut ProgressChannel, stage_name: &str) -> (sent:
        Result<(), ChannelClosed>)
        requires
            old(self)@.completed < usize::MAX,
        ensures
            final(self)@ == old(self)@.recorded(),
            sent is Ok <==> old(sender)@.open,
            final(sender)@.open == old(sender)@.open,
            final(sender)@.pending == if old(sender)@.open {
                old(sender)@.pending.push(old(self)@.recorded().report(stage_name@))
            } else {
                old(sender)@.pending
            },
    {
        self.completed = self.completed + 1;
        set_task_status(sender, stage_name, self.total, self.completed)
    }
}

/// Recording `n` parts on any counter adds `n` to its count and sends `n`
/// messages, the `i`-th of which reports `i + 1` parts more than the counter
/// started with.
pub proof fn lemma_recorded_times(counter: CounterState, stage_name: Seq<char>, n: nat)
    ensures
        counter.recorded_times(n).total == counter.total,
        counter.recorded_times(n).completed == counter.completed + n,
        counter.reports(stage_name, n).len() == n,
        forall|i: int|
            0 <= i < n ==> #[trigger] counter.reports(stage_name, n)[i] == (
            ProgressMessage::Working {
                stage_name,
                total: counter.total,
                completed: (counter.completed + i + 1) as nat,
            }),
    decreases n,
{
    if n > 0 {
        lemma_recorded_times(counter, stage_name, (n - 1) as nat);
    }
}

/// A stage that is fed `n` frames ends with a count of `n`, and the counts it
/// reported are exactly 1, 2, ..., `n`: none is skipped and none repeated.
pub proof fn lemma_frames_counted_once(total: nat, stage_name: Seq<char>, n: nat)
    ensures
        CounterState::fresh(total).recorded_times(n).completed == n,
        CounterState::fresh(total).reports(stage_name, n).len() == n,
        forall|i: int|
            0 <= i < n ==> #[trigger] CounterState::fresh(total).reports(stage_name, n)[i] == (
            ProgressMessage::Working { stage_name, total, completed: (i + 1) as nat }),
{
    lemma_recorded_times(CounterState::fresh(total), stage_name, n);
}

/// While a stage of `total` frames has recorded no more than `total` of them,
/// none of its messages reports more parts done than the stage has, and each
/// reports more than the one before.
pub proof fn lemma_reports_increase(total: nat, stage_name: Seq<char>, n: nat)
    requires
        n <= total,
    ensures
        forall|i: int|
            0 <= i < n ==> (#[trigger] CounterState::fresh(total).reports(
                stage_name,
                n,
            )[i]).within_total(),
        forall|i: int, j: int|
            0 <= i < j < n ==> (#[trigger] CounterState::fresh(total).reports(
                stage_name,
                n,
            )[i])->completed < (#[trigger] CounterState::fresh(total).reports(
                stage_name,
                n,
            )[j])->completed,
{
    lemma_frames_counted_once(total, stage_name, n);
}

} // verus!
