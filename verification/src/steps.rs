//! Performing a list of operations one after another: the run stops at the
//! first operation that fails and reports that one; it succeeds only when
//! every operation did.

use vstd::prelude::*;

verus! {

/// A run over `total` operations: how many succeeded so far, and whether the
/// last one tried failed.
pub struct StepRun {
    total: usize,
    done: usize,
    failed: bool,
}

/// What a run is.
pub struct StepRunView {
    pub total: nat,
    pub done: nat,
    pub failed: bool,
}

impl View for StepRun {
    type V = StepRunView;

    closed spec fn view(&self) -> StepRunView {
        StepRunView { total: self.total as nat, done: self.done as nat, failed: self.failed }
    }
}

/// What a run does next.
#[derive(Debug, Clone, Copy, PartialEq, Eq, Structural)]
pub enum Step {
    /// Perform the operation at `index`.
    Perform { index: usize },
    /// The operation at `index` failed: the run ends with its error, and no
    /// later operation is performed.
    Failed { index: usize },
    /// Every operation succeeded.
    Succeeded,
}

/// The step after a run in state `v`.
pub open spec fn spec_step(v: StepRunView) -> Step {
    if v.failed {
        Step::Failed { index: v.done as usize }
    } else if v.done < v.total {
        Step::Perform { index: v.done as usize }
    } else {
        Step::Succeeded
    }
}

impl StepRun {
    /// Counts stay within the operations; a failed run failed at one.
    pub open spec fn wf(&self) -> bool {
        &&& self@.done <= self@.total
        &&& self@.failed ==> self@.done < self@.total
    }

    /// A run over `total` operations, none performed yet.
    pub fn new(total: usize) -> (r: StepRun)
        ensures
            r.wf(),
            r@ == (StepRunView { total: total as nat, done: 0, failed: false }),
    {
        StepRun { total, done: 0, failed: false }
    }

    /// What the run does next.
    pub fn next(&self) -> (r: Step)
        requires
            self.wf(),
        ensures
            r == spec_step(self@),
    {
        if self.failed {
            Step::Failed { index: self.done }
        } else if self.done < self.total {
            Step::Perform { index: self.done }
        } else {
            Step::Succeeded
        }
    }

    /// Records how the operation just performed went: on success the run
    /// moves on, on failure it stops there.
    pub fn record(&mut self, ok: bool)
        requires
            old(self).wf(),
            spec_step(old(self)@) is Perform,
        ensures
            final(self).wf(),
            final(self)@.total == old(self)@.total,
            ok ==> final(self)@.done == old(self)@.done + 1 && !final(self)@.failed,
            !ok ==> final(self)@.done == old(self)@.done && final(self)@.failed,
    {
        if ok {
            self.done = self.done + 1;
        } else {
            self.failed = true;
        }
    }
}

/// A run fed the outcomes of its operations in order ends where the first
/// failure is, performing no operation after it, and succeeds only when
/// every operation succeeded: after the outcomes of the first `k` operations
/// are recorded, the run is in the state `run_after(total, outcomes, k)`.
pub open spec fn run_after(total: nat, outcomes: Seq<bool>, k: nat) -> StepRunView
    decreases k,
{
    if k == 0 {
        StepRunView { total, done: 0, failed: false }
    } else {
        let v = run_after(total, outcomes, (k - 1) as nat);
        if v.failed || v.done >= total {
            v
        } else if outcomes[k - 1] {
            StepRunView { total, done: v.done + 1, failed: false }
        } else {
            StepRunView { total, done: v.done, failed: true }
        }
    }
}

/// A run fed the outcomes of its operations in order stops at the first
/// failure and reports that operation, performing none after it; it
/// succeeds only when every operation succeeded.
pub proof fn lemma_run_stops_at_first_failure(outcomes: Seq<bool>)
    ensures
        (forall|i: int| 0 <= i < outcomes.len() ==> outcomes[i]) ==> spec_step(
            run_after(outcomes.len(), outcomes, outcomes.len()),
        ) == Step::Succeeded,
        forall|f: int|
            0 <= f < outcomes.len() && !outcomes[f] && (forall|i: int| 0 <= i < f ==> outcomes[i]) ==> spec_step(
                run_after(outcomes.len(), outcomes, outcomes.len()),
            ) == (Step::Failed { index: f as usize }),
{
    let n = outcomes.len();
    lemma_run_after(outcomes, n);
    let v = run_after(n, outcomes, n);
    assert forall|f: int|
        0 <= f < n && !outcomes[f] && (forall|i: int| 0 <= i < f ==> outcomes[i]) implies spec_step(v) == (Step::Failed {
        index: f as usize,
    }) by {
        if v.failed {
            if v.done < f {
                assert(outcomes[v.done as int]);
            } else if v.done > f {
                assert(outcomes[f]);
            }
        }
    }
}

proof fn lemma_run_after(outcomes: Seq<bool>, k: nat)
    requires
        k <= outcomes.len(),
    ensures
        ({
            let v = run_after(outcomes.len(), outcomes, k);
            &&& v.total == outcomes.len()
            &&& v.done <= k
            &&& !v.failed ==> v.done == k && forall|i: int| 0 <= i < k ==> outcomes[i]
            &&& v.failed ==> v.done < k && !outcomes[v.done as int] && forall|i: int| 0 <= i < v.done ==> outcomes[i]
        }),
    decreases k,
{
    if k > 0 {
        lemma_run_after(outcomes, (k - 1) as nat);
    }
}

} // verus!
