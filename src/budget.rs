//! Iteration budget of the eccentric-anomaly solver.
//!
//! The solver refines its estimate of the eccentric anomaly a bounded number
//! of times. After each refinement the caller reports whether the estimate has
//! settled, and the budget decides whether to refine again or to stop.
use vstd::prelude::*;

verus! {

/// Most refinements the solver makes before it settles for its last estimate.
pub const MAX_ITER: u32 = 100;

/// What the solver does after a refinement.
#[derive(Clone, Copy, Debug, PartialEq, Eq, Structural)]
pub enum Verdict {
    /// The estimate has not settled and refinements remain: correct it and go on.
    Continue,
    /// The estimate has settled: return it.
    Converged,
    /// No refinement is left: return the last estimate as an approximation.
    Exhausted,
}

/// The verdict on a refinement made after `used` earlier ones.
pub open spec fn verdict_of(used: nat, converged: bool) -> Verdict {
    if converged {
        Verdict::Converged
    } else if used + 1 >= MAX_ITER {
        Verdict::Exhausted
    } else {
        Verdict::Continue
    }
}

/// Counts the refinements of one solve.
pub struct Budget {
    used: u32,
}

impl Budget {
    /// Number of refinements already reported.
    pub closed spec fn used(&self) -> nat {
        self.used as nat
    }

    pub closed spec fn wf(&self) -> bool {
        self.used <= MAX_ITER
    }

    /// A budget of which nothing is spent.
    pub fn new() -> (r: Budget)
        ensures
            r.wf(),
            r.used() == 0,
    {
        Budget { used: 0 }
    }

    /// Records one refinement and whether its estimate settled, and returns
    /// what to do next. A budget that is spent records nothing more and
    /// answers `Exhausted`.
    pub fn record(&mut self, converged: bool) -> (r: Verdict)
        requires
            old(self).wf(),
        ensures
            final(self).wf(),
            old(self).used() < MAX_ITER ==> final(self).used() == old(self).used() + 1
                && r == verdict_of(old(self).used(), converged),
            old(self).used() >= MAX_ITER ==> final(self).used() == old(self).used()
                && r == Verdict::Exhausted,
    {
        if self.used >= MAX_ITER {
            return Verdict::Exhausted;
        }
        let used = self.used;
        self.used = used + 1;
        if converged {
            Verdict::Converged
        } else if used + 1 >= MAX_ITER {
            Verdict::Exhausted
        } else {
            Verdict::Continue
        }
    }
}

/// Refinements a solve makes when the `k`-th refinement from `used` on
/// reports `outcomes[k]`: it stops at the first verdict other than `Continue`,
/// or when `outcomes` runs out.
pub open spec fn run_length(used: nat, outcomes: Seq<bool>) -> nat
    decreases outcomes.len(),
{
    if outcomes.len() == 0 {
        0
    } else if verdict_of(used, outcomes[0]) != Verdict::Continue {
        1
    } else {
        1 + run_length(used + 1, outcomes.drop_first())
    }
}

/// Whether a solve from `used` with these outcomes reaches a verdict that ends it.
pub open spec fn stops(used: nat, outcomes: Seq<bool>) -> bool
    decreases outcomes.len(),
{
    if outcomes.len() == 0 {
        false
    } else if verdict_of(used, outcomes[0]) != Verdict::Continue {
        true
    } else {
        stops(used + 1, outcomes.drop_first())
    }
}

proof fn lemma_run_bounded(used: nat, outcomes: Seq<bool>)
    requires
        used < MAX_ITER,
    ensures
        used + run_length(used, outcomes) <= MAX_ITER,
        outcomes.len() + used >= MAX_ITER ==> stops(used, outcomes),
    decreases outcomes.len(),
{
    if outcomes.len() > 0 && verdict_of(used, outcomes[0]) == Verdict::Continue {
        lemma_run_bounded(used + 1, outcomes.drop_first());
    }
}

/// Whatever each refinement reports, a solve ends after at most `MAX_ITER`
/// refinements, and given `MAX_ITER` reports it always ends.
pub proof fn lemma_solve_terminates(outcomes: Seq<bool>)
    ensures
        run_length(0, outcomes) <= MAX_ITER,
        outcomes.len() >= MAX_ITER ==> stops(0, outcomes),
{
    lemma_run_bounded(0, outcomes);
}

/// A solve whose first refinement settles ends there, with `Converged`.
pub proof fn lemma_settled_first_refinement(outcomes: Seq<bool>)
    requires
        outcomes.len() > 0,
        outcomes[0],
    ensures
        run_length(0, outcomes) == 1,
        verdict_of(0, outcomes[0]) == Verdict::Converged,
{
}

} // verus!
