use match_strategies::exertion::{
    ActivityIntensity, ConditionLedger, ConditionProcessor, JadednessRule, MATCH_CONDITION_FLOOR,
    MAX_CONDITION, MAX_JADEDNESS,
};

#[test]
fn chase_is_a_sprint_unless_legacy() {
    assert_eq!(ActivityIntensity::chase(false), ActivityIntensity::VeryHigh);
    assert_eq!(ActivityIntensity::chase(true), ActivityIntensity::High);
}

#[test]
fn a_whole_point_of_fatigue_moves_condition() {
    let p = ConditionProcessor::new(ActivityIntensity::High);
    let r = p.settle(ConditionLedger { condition: 8000, jadedness: 0 }, 3, 1, JadednessRule::field_player());
    assert_eq!(r, ConditionLedger { condition: 7997, jadedness: 0 });
    let r = p.settle(ConditionLedger { condition: 8000, jadedness: 0 }, -2, 1, JadednessRule::field_player());
    assert_eq!(r.condition, 8002);
}

#[test]
fn condition_is_held_to_the_match_band() {
    let p = ConditionProcessor::with_velocity(ActivityIntensity::VeryHigh);
    let low = p.settle(ConditionLedger { condition: 1502, jadedness: 0 }, 10, 7, JadednessRule::field_player());
    assert_eq!(low.condition, MATCH_CONDITION_FLOOR);
    let high = p.settle(ConditionLedger { condition: 9995, jadedness: 0 }, -10, 7, JadednessRule::field_player());
    assert_eq!(high.condition, MAX_CONDITION);
}

#[test]
fn no_change_leaves_condition_alone() {
    let p = ConditionProcessor::new(ActivityIntensity::Low);
    let r = p.settle(ConditionLedger { condition: 1200, jadedness: 0 }, 0, 7, JadednessRule::field_player());
    assert_eq!(r.condition, 1200);
}

#[test]
fn jadedness_builds_only_when_tired_on_a_check_tick() {
    let p = ConditionProcessor::new(ActivityIntensity::Low);
    let rule = JadednessRule::field_player();
    let tired_check = p.settle(ConditionLedger { condition: 3000, jadedness: 10 }, 0, 200, rule);
    assert_eq!(tired_check.jadedness, 15);
    let tired_off_tick = p.settle(ConditionLedger { condition: 3000, jadedness: 10 }, 0, 201, rule);
    assert_eq!(tired_off_tick.jadedness, 10);
    let fresh = p.settle(ConditionLedger { condition: 5000, jadedness: 10 }, 0, 200, rule);
    assert_eq!(fresh.jadedness, 10);
    let capped = p.settle(ConditionLedger { condition: 3000, jadedness: 9998 }, 0, 100, rule);
    assert_eq!(capped.jadedness, MAX_JADEDNESS);
}

#[test]
fn goalkeepers_use_their_own_rule() {
    let rule = JadednessRule::goalkeeper();
    assert_eq!(rule.interval, 150);
    assert_eq!(rule.increment, 3);
    let p = ConditionProcessor::new(ActivityIntensity::Low);
    let r = p.settle(ConditionLedger { condition: 3200, jadedness: 0 }, 0, 150, rule);
    assert_eq!(r.jadedness, 0);
    let r = p.settle(ConditionLedger { condition: 2900, jadedness: 0 }, 0, 150, rule);
    assert_eq!(r.jadedness, 3);
}
