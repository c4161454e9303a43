//! What holds of a process over a whole sequence of scheduling steps.
//!
//! A scheduling loop applies `select`, `deselect` and `tick` to a process in
//! some order. [`Step`] names one such call and [`ProcessView::run`] the
//! process after a sequence of them. The proof functions of this module
//! state, for every such sequence, how the remaining time and the metrics
//! develop.

use crate::process::{ProcessState, ProcessView};
use vstd::prelude::*;

verus! {

/// One call that a scheduling loop makes on a process.
pub enum Step {
    /// `select` at the given clock value.
    Select(int),
    /// `deselect`.
    Deselect,
    /// `tick` at the given clock value.
    Tick(int),
}

impl ProcessView {
    /// The process after one step.
    pub open spec fn step(self, s: Step) -> ProcessView {
        match s {
            Step::Select(cur_time) => self.select(cur_time),
            Step::Deselect => self.deselect(),
            Step::Tick(cur_time) => self.tick(cur_time),
        }
    }

    /// The process after the steps of `steps`, first to last.
    pub open spec fn run(self, steps: Seq<Step>) -> ProcessView
        decreases steps.len(),
    {
        if steps.len() == 0 {
            self
        } else {
            self.run(steps.drop_last()).step(steps.last())
        }
    }

    /// No step of `steps` selects the process at a point where it has
    /// finished.
    pub open spec fn orderly(self, steps: Seq<Step>) -> bool
        decreases steps.len(),
    {
        steps.len() == 0 || {
            &&& self.orderly(steps.drop_last())
            &&& steps.last() is Select ==> !self.run(steps.drop_last()).finished()
        }
    }

    /// How many ticks of `steps` find the process ready or running.
    pub open spec fn active_ticks(self, steps: Seq<Step>) -> nat
        decreases steps.len(),
    {
        if steps.len() == 0 {
            0
        } else {
            let before = self.run(steps.drop_last());
            let earlier = self.active_ticks(steps.drop_last());
            if steps.last() is Tick && before.state is Some {
                earlier + 1
            } else {
                earlier
            }
        }
    }

    /// How many ticks of `steps` find the process ready.
    pub open spec fn ready_ticks(self, steps: Seq<Step>) -> nat
        decreases steps.len(),
    {
        if steps.len() == 0 {
            0
        } else {
            let before = self.run(steps.drop_last());
            let earlier = self.ready_ticks(steps.drop_last());
            if steps.last() is Tick && before.state == Some(ProcessState::Ready) {
                earlier + 1
            } else {
                earlier
            }
        }
    }

    /// How many ticks of `steps` find the process ready and never executed.
    pub open spec fn first_wait_ticks(self, steps: Seq<Step>) -> nat
        decreases steps.len(),
    {
        if steps.len() == 0 {
            0
        } else {
            let before = self.run(steps.drop_last());
            let earlier = self.first_wait_ticks(steps.drop_last());
            if steps.last() is Tick && before.state == Some(ProcessState::Ready)
                && before.never_ran() {
                earlier + 1
            } else {
                earlier
            }
        }
    }
}

/// Whether no step of `steps` is a `select`.
pub open spec fn without_select(steps: Seq<Step>) -> bool {
    forall|i: int| 0 <= i < steps.len() ==> !(#[trigger] steps[i] is Select)
}

/// A sequence of ticks and deselections is orderly for every process.
pub proof fn lemma_without_select_orderly(p: ProcessView, steps: Seq<Step>)
    requires
        without_select(steps),
    ensures
        p.orderly(steps),
    decreases steps.len(),
{
    if steps.len() > 0 {
        lemma_without_select_orderly(p, steps.drop_last());
    }
}

/// A well-formed process stays well-formed over every orderly sequence of
/// steps.
pub proof fn lemma_run_preserves_wf(p: ProcessView, steps: Seq<Step>)
    requires
        p.wf(),
        p.orderly(steps),
    ensures
        p.run(steps).wf(),
    decreases steps.len(),
{
    if steps.len() > 0 {
        lemma_run_preserves_wf(p, steps.drop_last());
    }
}

/// No step ever adds to the remaining time: over every sequence of steps
/// it can only fall.
pub proof fn lemma_remaining_never_grows(p: ProcessView, steps: Seq<Step>)
    ensures
        p.run(steps).time_remaining <= p.time_remaining,
    decreases steps.len(),
{
    if steps.len() > 0 {
        lemma_remaining_never_grows(p, steps.drop_last());
    }
}

/// Over every orderly sequence of steps, and so over every sequence of
/// ticks, the remaining time of a well-formed process does not grow and
/// does not fall below zero.
pub proof fn lemma_remaining_monotonic(p: ProcessView, steps: Seq<Step>)
    requires
        p.wf(),
        p.orderly(steps),
    ensures
        0 <= p.run(steps).time_remaining <= p.time_remaining,
{
    lemma_run_preserves_wf(p, steps);
    lemma_remaining_never_grows(p, steps);
}

/// Between any two points of a sequence of steps the remaining time does
/// not grow: the process after `i` steps has at least as much left as after
/// `j >= i` steps.
pub proof fn lemma_remaining_monotonic_between(
    p: ProcessView,
    steps: Seq<Step>,
    i: int,
    j: int,
)
    requires
        0 <= i <= j <= steps.len(),
    ensures
        p.run(steps.take(j)).time_remaining <= p.run(steps.take(i)).time_remaining,
    decreases j - i,
{
    if i < j {
        assert(steps.take(j).drop_last() =~= steps.take(j - 1));
        lemma_remaining_monotonic_between(p, steps, i, j - 1);
    }
}

/// What one tick does to each counter, whatever the process: the turnaround
/// time grows by one if the process is active, the wait time by one if it is
/// ready, the response time by one if it is ready and has never executed,
/// and the remaining time falls by one if it is running. Nothing else about
/// the counters changes.
pub proof fn lemma_tick_effect(p: ProcessView, cur_time: int)
    ensures
        p.tick(cur_time).turnaround_time == p.turnaround_time + (if p.state is Some {
            1int
        } else {
            0int
        }),
        p.tick(cur_time).wait_time == p.wait_time + (if p.state == Some(ProcessState::Ready) {
            1int
        } else {
            0int
        }),
        p.tick(cur_time).response_time == p.response_time + (if p.state == Some(
            ProcessState::Ready,
        ) && p.never_ran() {
            1int
        } else {
            0int
        }),
        p.tick(cur_time).time_remaining == p.time_remaining - (if p.state == Some(
            ProcessState::Running,
        ) {
            1int
        } else {
            0int
        }),
        p.tick(cur_time).time_remaining <= p.time_remaining,
        !p.never_ran() ==> p.tick(cur_time).response_time == p.response_time,
{
}

/// A tick leaves a finished, well-formed process exactly as it is.
pub proof fn lemma_tick_after_finish(p: ProcessView, cur_time: int)
    requires
        p.wf(),
        p.finished(),
    ensures
        p.tick(cur_time) == p,
        p.tick(cur_time).state is None,
{
}

/// Finishing is final: no orderly sequence of steps changes anything about a
/// finished, well-formed process.
pub proof fn lemma_finished_is_terminal(p: ProcessView, steps: Seq<Step>)
    requires
        p.wf(),
        p.finished(),
        p.orderly(steps),
    ensures
        p.run(steps) == p,
    decreases steps.len(),
{
    if steps.len() > 0 {
        lemma_finished_is_terminal(p, steps.drop_last());
    }
}

/// Once a process has executed for a tick, its response time is frozen: no
/// sequence of steps changes it, not even one that makes the process ready
/// again.
pub proof fn lemma_response_time_frozen(p: ProcessView, steps: Seq<Step>)
    requires
        p.time_remaining < p.burst_time,
    ensures
        p.run(steps).response_time == p.response_time,
        p.run(steps).time_remaining < p.run(steps).burst_time,
    decreases steps.len(),
{
    if steps.len() > 0 {
        lemma_response_time_frozen(p, steps.drop_last());
        lemma_fixed_fields(p, steps.drop_last());
    }
}

/// No step changes the name, the arrival time or the burst time.
pub proof fn lemma_fixed_fields(p: ProcessView, steps: Seq<Step>)
    ensures
        p.run(steps).name == p.name,
        p.run(steps).arrival_time == p.arrival_time,
        p.run(steps).burst_time == p.burst_time,
    decreases steps.len(),
{
    if steps.len() > 0 {
        lemma_fixed_fields(p, steps.drop_last());
    }
}

/// Over every sequence of steps the turnaround time grows by the number of
/// ticks that find the process active, the wait time by the number that
/// find it ready, the response time by the number that find it ready and
/// never executed, and the remaining time falls by the number that find it
/// running.
pub proof fn lemma_tick_accounting(p: ProcessView, steps: Seq<Step>)
    ensures
        p.run(steps).turnaround_time == p.turnaround_time + p.active_ticks(steps),
        p.run(steps).wait_time == p.wait_time + p.ready_ticks(steps),
        p.run(steps).response_time == p.response_time + p.first_wait_ticks(steps),
        p.run(steps).time_remaining == p.time_remaining - (p.active_ticks(steps)
            - p.ready_ticks(steps)),
        p.first_wait_ticks(steps) <= p.ready_ticks(steps) <= p.active_ticks(steps),
    decreases steps.len(),
{
    if steps.len() > 0 {
        lemma_tick_accounting(p, steps.drop_last());
    }
}

/// From creation on, over every sequence of steps, the turnaround time of a
/// process is its wait time plus the time it has executed.
pub proof fn lemma_turnaround_is_wait_plus_execution(
    name: Seq<char>,
    arrival_time: int,
    burst_time: int,
    steps: Seq<Step>,
)
    ensures
        ({
            let p = ProcessView::fresh(name, arrival_time, burst_time).run(steps);
            p.turnaround_time == p.wait_time + (burst_time - p.time_remaining)
        }),
{
    let p = ProcessView::fresh(name, arrival_time, burst_time);
    lemma_tick_accounting(p, steps);
}

/// Deselecting a finished process changes nothing: it stays inactive where
/// it was.
pub proof fn lemma_deselect_keeps_finished(p: ProcessView)
    requires
        p.finished(),
    ensures
        p.deselect() == p,
        p.wf() ==> p.deselect().state is None,
{
}

} // verus!
