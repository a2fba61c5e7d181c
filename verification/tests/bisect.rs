use comp_flow::bisect::{
    area_ratio_start, AreaRatioStart, BisectSearch, BisectStep, RatioCmp,
};

#[test]
fn sonic_target_is_answered_without_a_search() {
    assert_eq!(area_ratio_start(RatioCmp::AtTarget), AreaRatioStart::AnswerSonic);
}

#[test]
fn any_other_target_goes_to_the_search() {
    assert_eq!(area_ratio_start(RatioCmp::BelowTarget), AreaRatioStart::RunSearch);
    assert_eq!(area_ratio_start(RatioCmp::AboveTarget), AreaRatioStart::RunSearch);
    // a NaN target compares with the sonic ratio as unordered
    assert_eq!(area_ratio_start(RatioCmp::Unordered), AreaRatioStart::RunSearch);
}

#[test]
fn exact_hit_finishes_on_either_branch() {
    let mut sup = BisectSearch::new(true, 10000);
    assert_eq!(sup.advance(RatioCmp::AtTarget), BisectStep::Exact);
    let mut sub = BisectSearch::new(false, 10000);
    assert_eq!(sub.advance(RatioCmp::AtTarget), BisectStep::Exact);
}

#[test]
fn supersonic_branch_follows_a_rising_relation() {
    // On the supersonic branch the area ratio rises with Mach number: a
    // midpoint value below the target means the root is above the midpoint.
    let mut search = BisectSearch::new(true, 10000);
    assert_eq!(search.advance(RatioCmp::BelowTarget), BisectStep::RaiseLo);
    assert_eq!(search.advance(RatioCmp::AboveTarget), BisectStep::LowerHi);
}

#[test]
fn subsonic_branch_follows_a_falling_relation() {
    // On the subsonic branch the area ratio falls with Mach number: the
    // same comparisons narrow the bracket the other way round.
    let mut search = BisectSearch::new(false, 10000);
    assert_eq!(search.advance(RatioCmp::BelowTarget), BisectStep::LowerHi);
    assert_eq!(search.advance(RatioCmp::AboveTarget), BisectStep::RaiseLo);
}

#[test]
fn narrowing_spends_the_budget() {
    let mut search = BisectSearch::new(true, 3);
    assert_eq!(search.iters_left(), 3);
    assert_eq!(search.advance(RatioCmp::BelowTarget), BisectStep::RaiseLo);
    assert_eq!(search.advance(RatioCmp::AboveTarget), BisectStep::LowerHi);
    assert_eq!(search.iters_left(), 1);
}

#[test]
fn unordered_comparison_stays_but_spends() {
    // A NaN midpoint value narrows nothing, yet still counts against the
    // budget, so even a search that only ever sees NaN cuts off.
    let mut search = BisectSearch::new(false, 2);
    assert_eq!(search.advance(RatioCmp::Unordered), BisectStep::Stay);
    assert_eq!(search.iters_left(), 1);
}

#[test]
fn spent_budget_cuts_the_search_off() {
    let mut search = BisectSearch::new(true, 2);
    assert_eq!(search.advance(RatioCmp::BelowTarget), BisectStep::RaiseLo);
    assert_eq!(search.advance(RatioCmp::Unordered), BisectStep::Stay);
    assert_eq!(search.advance(RatioCmp::BelowTarget), BisectStep::CutOff);
    // the cutoff is terminal, whatever comes next
    assert_eq!(search.advance(RatioCmp::AtTarget), BisectStep::CutOff);
    assert_eq!(search.iters_left(), 0);
}

#[test]
fn full_run_ends_within_the_budget() {
    // A run that never hits the target exactly: one round per unit of
    // budget, then the cutoff.
    let mut search = BisectSearch::new(false, 100);
    let mut rounds: u32 = 0;
    loop {
        rounds += 1;
        match search.advance(RatioCmp::AboveTarget) {
            BisectStep::CutOff => break,
            step => assert_eq!(step, BisectStep::RaiseLo),
        }
    }
    assert_eq!(rounds, 101);
}
