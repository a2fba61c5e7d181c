//! Root-finding strategy per invertible flow relation.
//!
//! Each relation that maps a Mach number to a ratio or an angle is inverted
//! in one of three ways: by an algebraic closed form, by Newton iteration
//! (with an analytic derivative where one is worth having, by finite
//! differences otherwise), or by bisection.  The choice, the initial guess,
//! the search bracket and the iteration cap are fixed per relation and per
//! branch; [`inversion_plan`] is the one place that fixes them.
//!
//! Initial guesses are carried in hundredths of a Mach number, so that the
//! numeric front end recovers them exactly in either floating-point width
//! (150 hundredths is exactly 1.5).

use vstd::prelude::*;

verus! {

/// Failure of an iterative inversion: the root-finding engine exhausted its
/// iteration budget or wandered off to a non-number.
#[derive(Clone, Copy, Debug, PartialEq, Eq, Structural)]
pub enum SolveError {
    /// No root was found within the engine's iteration budget.
    NonConvergence,
}

/// An invertible forward relation: given a Mach number (and a specific-heat
/// ratio), each of these yields a ratio or an angle, and the inversion layer
/// recovers the Mach number from that value.
#[derive(Clone, Copy, Debug, PartialEq, Eq, Structural)]
pub enum Relation {
    /// Static-to-total temperature ratio T/T0.
    TT0,
    /// Total-to-static temperature ratio T0/T.
    T0T,
    /// Static-to-total pressure ratio p/p0.
    PP0,
    /// Total-to-static pressure ratio p0/p.
    P0P,
    /// Static-to-stagnation density ratio rho/rho0.
    RhoRho0,
    /// Stagnation-to-static density ratio rho0/rho.
    Rho0Rho,
    /// Normalised velocity V/sqrt(cp T0).
    VCpt0,
    /// Impulse function F/(m sqrt(cp T0)).
    FMcpt0,
    /// Normalised mass flow m sqrt(cp T0)/(A p0).
    Mcpt0Ap0,
    /// Static normalised mass flow m sqrt(cp T0)/(A p).
    Mcpt0Ap,
    /// Critical area ratio A/A*.
    AAc,
    /// Prandtl-Meyer angle.
    PmAngle,
    /// Mach angle.
    MachAngle,
}

/// A fixed point of the Mach-number axis, used as a bisection bracket end.
#[derive(Clone, Copy, Debug, PartialEq, Eq, Structural)]
pub enum BracketEnd {
    /// Mach 0: the flow at rest.
    Rest,
    /// Mach 1: the sonic point, where the two branches of the area ratio meet.
    Sonic,
    /// The largest representable Mach number of the numeric front end.
    Largest,
}

/// How one inversion is to be carried out.
#[derive(Clone, Copy, Debug, PartialEq, Eq, Structural)]
pub enum InversionPlan {
    /// The relation has an algebraic inverse; no solver runs.
    ClosedForm,
    /// Newton iteration with an analytic derivative, seeded at `seed_centi`
    /// hundredths of a Mach number and capped at `max_iters` steps.
    NewtonWithDerivative { seed_centi: u32, max_iters: u32 },
    /// Finite-difference Newton iteration seeded at `seed_centi` hundredths
    /// of a Mach number, with the engine's default iteration cap.
    FiniteDifferenceNewton { seed_centi: u32 },
    /// Bisection of the bracket from `lo` to `hi`, for at most `max_iters`
    /// halvings.
    Bisection { lo: BracketEnd, hi: BracketEnd, max_iters: u32 },
}

/// Iteration cap for the derivative-based Newton inversions.
pub const NEWTON_ITER_CAP: u32 = 100;

/// Iteration cap for the bisection inversion of the critical area ratio.
pub const BISECT_ITER_CAP: u32 = 10000;

/// The strategy table.
///
/// The temperature, pressure, density and velocity ratios are monotonic
/// power laws in Mach squared, so they invert in closed form, as does the
/// Mach angle.  The two mass-flow functions and the impulse function have no
/// closed-form inverse and go to Newton iteration with analytic derivatives,
/// seeded just above Mach 1 on the supersonic branch and just below it on
/// the subsonic branch.  The Prandtl-Meyer angle goes to finite-difference
/// Newton seeded at Mach 2.  The critical area ratio, two-to-one around its
/// sonic minimum, is bisected over the bracket of the requested branch.
pub open spec fn plan_of(rel: Relation, supersonic: bool) -> InversionPlan {
    match rel {
        Relation::TT0 => InversionPlan::ClosedForm,
        Relation::T0T => InversionPlan::ClosedForm,
        Relation::PP0 => InversionPlan::ClosedForm,
        Relation::P0P => InversionPlan::ClosedForm,
        Relation::RhoRho0 => InversionPlan::ClosedForm,
        Relation::Rho0Rho => InversionPlan::ClosedForm,
        Relation::VCpt0 => InversionPlan::ClosedForm,
        Relation::MachAngle => InversionPlan::ClosedForm,
        Relation::PmAngle => InversionPlan::FiniteDifferenceNewton { seed_centi: 200 },
        Relation::FMcpt0 => InversionPlan::NewtonWithDerivative {
            seed_centi: if supersonic { 150 } else { 50 },
            max_iters: NEWTON_ITER_CAP,
        },
        Relation::Mcpt0Ap0 => InversionPlan::NewtonWithDerivative {
            seed_centi: if supersonic { 150 } else { 50 },
            max_iters: NEWTON_ITER_CAP,
        },
        Relation::Mcpt0Ap => InversionPlan::NewtonWithDerivative {
            seed_centi: 50,
            max_iters: NEWTON_ITER_CAP,
        },
        Relation::AAc => InversionPlan::Bisection {
            lo: if supersonic { BracketEnd::Sonic } else { BracketEnd::Rest },
            hi: if supersonic { BracketEnd::Largest } else { BracketEnd::Sonic },
            max_iters: BISECT_ITER_CAP,
        },
    }
}

/// Chooses the root-finding strategy for inverting `rel` on the branch named
/// by `supersonic`.  The branch selector matters only for the relations that
/// are two-to-one or solver-seeded per branch; the others ignore it.
pub fn inversion_plan(rel: Relation, supersonic: bool) -> (p: InversionPlan)
    ensures
        p == plan_of(rel, supersonic),
{
    match rel {
        Relation::TT0 => InversionPlan::ClosedForm,
        Relation::T0T => InversionPlan::ClosedForm,
        Relation::PP0 => InversionPlan::ClosedForm,
        Relation::P0P => InversionPlan::ClosedForm,
        Relation::RhoRho0 => InversionPlan::ClosedForm,
        Relation::Rho0Rho => InversionPlan::ClosedForm,
        Relation::VCpt0 => InversionPlan::ClosedForm,
        Relation::MachAngle => InversionPlan::ClosedForm,
        Relation::PmAngle => InversionPlan::FiniteDifferenceNewton { seed_centi: 200 },
        Relation::FMcpt0 => InversionPlan::NewtonWithDerivative {
            seed_centi: if supersonic { 150 } else { 50 },
            max_iters: NEWTON_ITER_CAP,
        },
        Relation::Mcpt0Ap0 => InversionPlan::NewtonWithDerivative {
            seed_centi: if supersonic { 150 } else { 50 },
            max_iters: NEWTON_ITER_CAP,
        },
        Relation::Mcpt0Ap => InversionPlan::NewtonWithDerivative {
            seed_centi: 50,
            max_iters: NEWTON_ITER_CAP,
        },
        Relation::AAc => InversionPlan::Bisection {
            lo: if supersonic { BracketEnd::Sonic } else { BracketEnd::Rest },
            hi: if supersonic { BracketEnd::Largest } else { BracketEnd::Sonic },
            max_iters: BISECT_ITER_CAP,
        },
    }
}

} // verus!
