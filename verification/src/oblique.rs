//! The oblique-shock wave-angle search: weak-branch selection with a
//! bounded retry budget.
//!
//! The theta-beta-Mach relation ties the wave angle beta of an attached
//! oblique shock to the upstream Mach number and the deflection angle
//! theta.  For a deflection below the detachment limit it has two roots,
//! and the physically realised one is the weak branch: the smaller beta.
//! The search seeds a root finder at the maximum wave angle beta_max and,
//! whenever the engine converges outside the physical range (0, beta_max],
//! lowers the seed by a fixed step and tries again, so that the first root
//! accepted is the weak one.
//!
//! The controller here owns every decision of that search: how each engine
//! outcome is classified ([`classify_wave_angle`]), and whether the search
//! accepts, fails, or retries ([`WaveAngleSearch::advance`]).  A retry
//! budget bounds the search: however the engine behaves, the search issues
//! at most one solve more than it has retries ([`lemma_solves_bounded`]),
//! and on exhaustion it fails the same way as on non-convergence.

use vstd::prelude::*;

verus! {

/// How many times the search will lower the seed and try again before it
/// gives up.  The seed starts at beta_max, below a right angle, and each
/// retry lowers it by [`WAVE_ANGLE_STEP_CENTI`] hundredths of a radian, so
/// the budget is generous: long before it runs out the seed has left the
/// physical range and the engine itself stops converging.
pub const WAVE_ANGLE_RETRY_CAP: u32 = 100;

/// The step, in hundredths of a radian, by which each retry lowers the
/// seed (10 hundredths: 0.1 radian).
pub const WAVE_ANGLE_STEP_CENTI: u32 = 10;

/// One engine outcome, as the search sees it.
#[derive(Clone, Copy, Debug, PartialEq, Eq, Structural)]
pub enum WaveAngleOutcome {
    /// The engine converged to a wave angle neither below zero nor above
    /// beta_max.
    InRange,
    /// The engine converged, but to a strong-branch or non-physical angle:
    /// one below zero or above beta_max.
    OutOfRange,
    /// The engine did not converge.
    NoConvergence,
}

/// One decision of the search.
#[derive(Clone, Copy, Debug, PartialEq, Eq, Structural)]
pub enum WaveAngleStep {
    /// The converged angle is the answer.
    Accept,
    /// The search is over without an answer: the result is not a number.
    Fail,
    /// Lower the seed by the fixed step and solve again.
    Retry,
}

/// Classification of an engine outcome.  A failed solve is non-convergence;
/// a converged angle below zero or above beta_max is out of range; any
/// other converged angle is in range.
pub open spec fn outcome_of(converged: bool, below_zero: bool, above_max: bool) -> WaveAngleOutcome {
    if !converged {
        WaveAngleOutcome::NoConvergence
    } else if below_zero || above_max {
        WaveAngleOutcome::OutOfRange
    } else {
        WaveAngleOutcome::InRange
    }
}

/// Classifies one engine outcome from the three judgements the numeric
/// front end can make of it: whether the engine converged at all, and
/// whether the converged angle fell below zero or above beta_max.
pub fn classify_wave_angle(converged: bool, below_zero: bool, above_max: bool) -> (o: WaveAngleOutcome)
    ensures
        o == outcome_of(converged, below_zero, above_max),
{
    if !converged {
        WaveAngleOutcome::NoConvergence
    } else if below_zero || above_max {
        WaveAngleOutcome::OutOfRange
    } else {
        WaveAngleOutcome::InRange
    }
}

/// The decision rule: accept an in-range angle, fail on non-convergence,
/// and on an out-of-range angle retry while any budget is left.
pub open spec fn decision_of(retries: u32, outcome: WaveAngleOutcome) -> WaveAngleStep {
    match outcome {
        WaveAngleOutcome::InRange => WaveAngleStep::Accept,
        WaveAngleOutcome::NoConvergence => WaveAngleStep::Fail,
        WaveAngleOutcome::OutOfRange => if retries == 0 {
            WaveAngleStep::Fail
        } else {
            WaveAngleStep::Retry
        },
    }
}

/// The budget after one decision: a retry spends one, everything else ends
/// the search and spends nothing.
pub open spec fn retries_after(retries: u32, outcome: WaveAngleOutcome) -> u32 {
    if decision_of(retries, outcome) == WaveAngleStep::Retry {
        (retries - 1) as u32
    } else {
        retries
    }
}

/// The search only ever accepts an angle that was classified in range.
pub proof fn lemma_accept_only_in_range(retries: u32, outcome: WaveAngleOutcome)
    ensures
        decision_of(retries, outcome) == WaveAngleStep::Accept <==> outcome == WaveAngleOutcome::InRange,
{
}

/// The search fails exactly on non-convergence or on an out-of-range angle
/// with the budget spent: the two failure paths and no other.
pub proof fn lemma_fail_paths(retries: u32, outcome: WaveAngleOutcome)
    ensures
        decision_of(retries, outcome) == WaveAngleStep::Fail <==> (outcome
            == WaveAngleOutcome::NoConvergence || (outcome == WaveAngleOutcome::OutOfRange
            && retries == 0)),
{
}

/// How many solves the search issues, given the budget it starts with and
/// the outcomes the engine would hand back in order: one for the first
/// solve, plus the rest of the run after each retry.
pub open spec fn solves_used(retries: u32, outcomes: Seq<WaveAngleOutcome>) -> nat
    decreases outcomes.len(),
{
    if outcomes.len() == 0 {
        0
    } else if decision_of(retries, outcomes[0]) == WaveAngleStep::Retry {
        1 + solves_used(retries_after(retries, outcomes[0]), outcomes.skip(1))
    } else {
        1
    }
}

/// The search terminates: whatever outcomes the engine hands back, a
/// budget of `retries` admits at most `retries + 1` solves.
pub proof fn lemma_solves_bounded(retries: u32, outcomes: Seq<WaveAngleOutcome>)
    ensures
        solves_used(retries, outcomes) <= retries + 1,
    decreases outcomes.len(),
{
    if outcomes.len() != 0 && decision_of(retries, outcomes[0]) == WaveAngleStep::Retry {
        lemma_solves_bounded(retries_after(retries, outcomes[0]), outcomes.skip(1));
    }
}

/// The decision that ends a run of the search: the first non-retry
/// decision it takes, given the budget it starts with and the outcomes the
/// engine would hand back in order; nothing, if those outcomes run out
/// while the search still retries.
pub open spec fn run_ending(retries: u32, outcomes: Seq<WaveAngleOutcome>) -> Option<WaveAngleStep>
    decreases outcomes.len(),
{
    if outcomes.len() == 0 {
        None
    } else if decision_of(retries, outcomes[0]) == WaveAngleStep::Retry {
        run_ending(retries_after(retries, outcomes[0]), outcomes.skip(1))
    } else {
        Some(decision_of(retries, outcomes[0]))
    }
}

/// A search whose solves never land in range — as for a deflection beyond
/// the maximum for the upstream state, where no attached weak shock exists
/// and the relation has no root in (0, beta_max] — is never accepted: if
/// the run ends it ends in Fail, and once the outcomes outnumber the
/// retries it does end.
pub proof fn lemma_never_in_range_fails(retries: u32, outcomes: Seq<WaveAngleOutcome>)
    requires
        forall|i: int| 0 <= i < outcomes.len() ==> outcomes[i] != WaveAngleOutcome::InRange,
    ensures
        run_ending(retries, outcomes) != Some(WaveAngleStep::Accept),
        outcomes.len() > retries ==> run_ending(retries, outcomes) == Some(WaveAngleStep::Fail),
    decreases outcomes.len(),
{
    if outcomes.len() != 0 && decision_of(retries, outcomes[0]) == WaveAngleStep::Retry {
        lemma_never_in_range_fails(retries_after(retries, outcomes[0]), outcomes.skip(1));
    }
}

/// The state of one wave-angle search: the retries it has left.
pub struct WaveAngleSearch {
    retries_left: u32,
}

impl WaveAngleSearch {
    /// The retries the search has left.
    pub closed spec fn retries(&self) -> u32 {
        self.retries_left
    }

    /// Starts a search with the full retry budget.
    pub fn new() -> (s: Self)
        ensures
            s.retries() == WAVE_ANGLE_RETRY_CAP,
    {
        WaveAngleSearch { retries_left: WAVE_ANGLE_RETRY_CAP }
    }

    /// The retries the search has left, for the numeric front end.
    pub fn retries_left(&self) -> (n: u32)
        ensures
            n == self.retries(),
    {
        self.retries_left
    }

    /// Takes one engine outcome and decides how the search goes on,
    /// spending one retry when it decides to go around again.
    pub fn advance(&mut self, outcome: WaveAngleOutcome) -> (d: WaveAngleStep)
        ensures
            d == decision_of(old(self).retries(), outcome),
            final(self).retries() == retries_after(old(self).retries(), outcome),
    {
        match outcome {
            WaveAngleOutcome::InRange => WaveAngleStep::Accept,
            WaveAngleOutcome::NoConvergence => WaveAngleStep::Fail,
            WaveAngleOutcome::OutOfRange => {
                if self.retries_left == 0 {
                    WaveAngleStep::Fail
                } else {
                    self.retries_left = self.retries_left - 1;
                    WaveAngleStep::Retry
                }
            },
        }
    }
}

} // verus!
