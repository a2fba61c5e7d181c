//! The bisection search for the critical area ratio: bracket narrowing
//! with a fixed iteration budget.
//!
//! The area ratio A/A* falls to its minimum of 1 at the sonic point and
//! rises on either side, so it is bisected one branch at a time: on the
//! supersonic branch it increases with Mach number, on the subsonic branch
//! it decreases.  Each round, the forward relation is evaluated at the
//! bracket midpoint and compared with the target, and the controller here
//! decides from that comparison alone how the search goes on: an exact hit
//! answers with the midpoint, any ordered comparison moves one end of the
//! bracket to the midpoint, an unordered (not-a-number) comparison narrows
//! nothing, and a spent budget answers with the midpoint as it stands — a
//! fixed-iteration-count approximation, since floating-point equality with
//! the target is rarely reached.

use vstd::prelude::*;

verus! {

/// How the forward relation, evaluated at the bracket midpoint, compares
/// with the target ratio.
#[derive(Clone, Copy, Debug, PartialEq, Eq, Structural)]
pub enum RatioCmp {
    /// The midpoint value is below the target.
    BelowTarget,
    /// The midpoint value equals the target exactly.
    AtTarget,
    /// The midpoint value is above the target.
    AboveTarget,
    /// The midpoint value and the target do not compare (one is NaN).
    Unordered,
}

/// One decision of the search.
#[derive(Clone, Copy, Debug, PartialEq, Eq, Structural)]
pub enum BisectStep {
    /// The midpoint hit the target exactly: answer with the midpoint.
    Exact,
    /// The root lies above the midpoint: the lower end moves up to it.
    RaiseLo,
    /// The root lies below the midpoint: the upper end moves down to it.
    LowerHi,
    /// Nothing narrows this round.
    Stay,
    /// The budget is spent: answer with the midpoint as it stands.
    CutOff,
}

/// The narrowing rule while budget is left.  On the supersonic branch the
/// area ratio increases with Mach number, so a midpoint value below the
/// target puts the root above the midpoint; on the subsonic branch the
/// relation decreases and the same comparison puts the root below it.  An
/// exact hit finishes, and an unordered comparison moves nothing.
pub open spec fn narrow_of(supersonic: bool, cmp: RatioCmp) -> BisectStep {
    match cmp {
        RatioCmp::AtTarget => BisectStep::Exact,
        RatioCmp::BelowTarget => if supersonic {
            BisectStep::RaiseLo
        } else {
            BisectStep::LowerHi
        },
        RatioCmp::AboveTarget => if supersonic {
            BisectStep::LowerHi
        } else {
            BisectStep::RaiseLo
        },
        RatioCmp::Unordered => BisectStep::Stay,
    }
}

/// The decision rule: cut the search off once the budget is spent,
/// otherwise narrow by [`narrow_of`].
pub open spec fn bisect_decision_of(iters_left: u32, supersonic: bool, cmp: RatioCmp) -> BisectStep {
    if iters_left == 0 {
        BisectStep::CutOff
    } else {
        narrow_of(supersonic, cmp)
    }
}

/// The budget after one decision: answering — exactly or at the cutoff —
/// ends the search, everything else spends one round.
pub open spec fn iters_after(iters_left: u32, supersonic: bool, cmp: RatioCmp) -> u32 {
    match bisect_decision_of(iters_left, supersonic, cmp) {
        BisectStep::Exact => iters_left,
        BisectStep::CutOff => iters_left,
        _ => (iters_left - 1) as u32,
    }
}

/// The search answers with an exact midpoint only on an exact hit, and
/// cuts off only once the budget is spent.
pub proof fn lemma_answers(iters_left: u32, supersonic: bool, cmp: RatioCmp)
    ensures
        bisect_decision_of(iters_left, supersonic, cmp) == BisectStep::Exact <==> (iters_left > 0
            && cmp == RatioCmp::AtTarget),
        bisect_decision_of(iters_left, supersonic, cmp) == BisectStep::CutOff <==> iters_left == 0,
{
}

/// How many rounds the search runs, given the budget it starts with and
/// the comparisons its midpoints would yield in order: one for the round
/// at hand, plus the rest of the run when that round narrows.
pub open spec fn rounds_used(iters_left: u32, supersonic: bool, cmps: Seq<RatioCmp>) -> nat
    decreases cmps.len(),
{
    if cmps.len() == 0 {
        0
    } else {
        match bisect_decision_of(iters_left, supersonic, cmps[0]) {
            BisectStep::Exact => 1,
            BisectStep::CutOff => 1,
            _ => 1 + rounds_used(iters_after(iters_left, supersonic, cmps[0]), supersonic, cmps.skip(1)),
        }
    }
}

/// The search terminates: whatever the midpoints compare like, a budget of
/// `iters_left` admits at most `iters_left + 1` rounds.
pub proof fn lemma_rounds_bounded(iters_left: u32, supersonic: bool, cmps: Seq<RatioCmp>)
    ensures
        rounds_used(iters_left, supersonic, cmps) <= iters_left + 1,
    decreases cmps.len(),
{
    if cmps.len() != 0 {
        match bisect_decision_of(iters_left, supersonic, cmps[0]) {
            BisectStep::Exact => {},
            BisectStep::CutOff => {},
            _ => {
                lemma_rounds_bounded(iters_after(iters_left, supersonic, cmps[0]), supersonic, cmps.skip(1));
            },
        }
    }
}

/// The decision taken before any round runs: answer with the sonic Mach
/// number at once, or go to the planned search.
#[derive(Clone, Copy, Debug, PartialEq, Eq, Structural)]
pub enum AreaRatioStart {
    /// The target is the sonic area ratio exactly: the answer is Mach 1,
    /// whatever the branch, without running the search.
    AnswerSonic,
    /// Any other target: run the planned bisection.
    RunSearch,
}

/// The short-circuit rule: only a target equal to the sonic area ratio —
/// the unique minimum of the relation, where the two branches coincide —
/// is answered without a search.
pub open spec fn start_of(cmp: RatioCmp) -> AreaRatioStart {
    if cmp == RatioCmp::AtTarget {
        AreaRatioStart::AnswerSonic
    } else {
        AreaRatioStart::RunSearch
    }
}

/// Decides, from the comparison of the sonic area ratio (exactly one)
/// with the target, whether the inversion answers Mach 1 at once or runs
/// the planned search.
pub fn area_ratio_start(cmp: RatioCmp) -> (s: AreaRatioStart)
    ensures
        s == start_of(cmp),
{
    if cmp == RatioCmp::AtTarget {
        AreaRatioStart::AnswerSonic
    } else {
        AreaRatioStart::RunSearch
    }
}

/// The state of one bisection search: the branch it walks and the rounds
/// it has left.
pub struct BisectSearch {
    supersonic: bool,
    iters_left: u32,
}

impl BisectSearch {
    /// The branch the search walks.
    pub closed spec fn branch(&self) -> bool {
        self.supersonic
    }

    /// The rounds the search has left.
    pub closed spec fn iters(&self) -> u32 {
        self.iters_left
    }

    /// Starts a search of the branch named by `supersonic` with a budget
    /// of `max_iters` rounds.
    pub fn new(supersonic: bool, max_iters: u32) -> (s: Self)
        ensures
            s.branch() == supersonic,
            s.iters() == max_iters,
    {
        BisectSearch { supersonic, iters_left: max_iters }
    }

    /// The rounds the search has left, for the numeric front end.
    pub fn iters_left(&self) -> (n: u32)
        ensures
            n == self.iters(),
    {
        self.iters_left
    }

    /// Takes the comparison of one midpoint with the target and decides
    /// how the search goes on, spending one round whenever it narrows.
    pub fn advance(&mut self, cmp: RatioCmp) -> (d: BisectStep)
        ensures
            d == bisect_decision_of(old(self).iters(), old(self).branch(), cmp),
            final(self).iters() == iters_after(old(self).iters(), old(self).branch(), cmp),
            final(self).branch() == old(self).branch(),
    {
        if self.iters_left == 0 {
            return BisectStep::CutOff;
        }
        match cmp {
            RatioCmp::AtTarget => BisectStep::Exact,
            RatioCmp::BelowTarget => {
                self.iters_left = self.iters_left - 1;
                if self.supersonic {
                    BisectStep::RaiseLo
                } else {
                    BisectStep::LowerHi
                }
            },
            RatioCmp::AboveTarget => {
                self.iters_left = self.iters_left - 1;
                if self.supersonic {
                    BisectStep::LowerHi
                } else {
                    BisectStep::RaiseLo
                }
            },
            RatioCmp::Unordered => {
                self.iters_left = self.iters_left - 1;
                BisectStep::Stay
            },
        }
    }
}

} // verus!
