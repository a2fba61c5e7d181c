use comp_flow::strategy::{
    inversion_plan, BracketEnd, InversionPlan, Relation, SolveError, BISECT_ITER_CAP,
    NEWTON_ITER_CAP,
};

#[test]
fn closed_form_relations() {
    let closed = [
        Relation::TT0,
        Relation::T0T,
        Relation::PP0,
        Relation::P0P,
        Relation::RhoRho0,
        Relation::Rho0Rho,
        Relation::VCpt0,
        Relation::MachAngle,
    ];
    for rel in closed {
        assert_eq!(inversion_plan(rel, false), InversionPlan::ClosedForm);
        assert_eq!(inversion_plan(rel, true), InversionPlan::ClosedForm);
    }
}

#[test]
fn prandtl_meyer_plan() {
    let plan = InversionPlan::FiniteDifferenceNewton { seed_centi: 200 };
    assert_eq!(inversion_plan(Relation::PmAngle, false), plan);
    assert_eq!(inversion_plan(Relation::PmAngle, true), plan);
}

#[test]
fn mass_flow_plans_seed_by_branch() {
    for rel in [Relation::FMcpt0, Relation::Mcpt0Ap0] {
        assert_eq!(
            inversion_plan(rel, true),
            InversionPlan::NewtonWithDerivative { seed_centi: 150, max_iters: 100 }
        );
        assert_eq!(
            inversion_plan(rel, false),
            InversionPlan::NewtonWithDerivative { seed_centi: 50, max_iters: 100 }
        );
    }
}

#[test]
fn static_mass_flow_plan_ignores_branch() {
    let plan = InversionPlan::NewtonWithDerivative { seed_centi: 50, max_iters: 100 };
    assert_eq!(inversion_plan(Relation::Mcpt0Ap, false), plan);
    assert_eq!(inversion_plan(Relation::Mcpt0Ap, true), plan);
}

#[test]
fn area_ratio_brackets() {
    assert_eq!(
        inversion_plan(Relation::AAc, true),
        InversionPlan::Bisection {
            lo: BracketEnd::Sonic,
            hi: BracketEnd::Largest,
            max_iters: 10000,
        }
    );
    assert_eq!(
        inversion_plan(Relation::AAc, false),
        InversionPlan::Bisection {
            lo: BracketEnd::Rest,
            hi: BracketEnd::Sonic,
            max_iters: 10000,
        }
    );
}

#[test]
fn iteration_caps() {
    assert_eq!(NEWTON_ITER_CAP, 100);
    assert_eq!(BISECT_ITER_CAP, 10000);
}

#[test]
fn solve_error_is_comparable() {
    assert_eq!(SolveError::NonConvergence, SolveError::NonConvergence);
}
