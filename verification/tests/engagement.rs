use match_strategies::engagement::{
    BoxOccupancy, ContactFoul, ContactRestraint, CoverCandidate, EngagementView, MarkEngagement,
    PenaltyRisk, TackleDecision, TackleEngagement, TackleRestraint,
};
use match_strategies::model::{DefensiveDuty, FoulSeverity, PlayerSide};

const NOWHERE: BoxOccupancy = BoxOccupancy { left: false, right: false };
const LEFT_BOX: BoxOccupancy = BoxOccupancy { left: true, right: false };
const RIGHT_BOX: BoxOccupancy = BoxOccupancy { left: false, right: true };

fn view(duty: DefensiveDuty) -> EngagementView {
    EngagementView {
        side: Some(PlayerSide::Left),
        duty,
        presser_nominated: true,
        best_to_chase: false,
        box_emergency: false,
        ball: NOWHERE,
        player: NOWHERE,
    }
}

#[test]
fn tackle_decision_fires_on_arrival_and_every_interval() {
    assert!(!TackleDecision::is_decision_tick(0));
    assert!(TackleDecision::is_decision_tick(1));
    assert!(!TackleDecision::is_decision_tick(2));
    assert!(!TackleDecision::is_decision_tick(50));
    assert!(TackleDecision::is_decision_tick(51));
    assert!(TackleDecision::is_decision_tick(101));
}

#[test]
fn contact_foul_decided_every_hundred_ticks_never_at_zero() {
    assert!(!ContactFoul::is_decision_tick(0));
    assert!(!ContactFoul::is_decision_tick(99));
    assert!(ContactFoul::is_decision_tick(100));
    assert!(ContactFoul::is_decision_tick(300));
}

#[test]
fn thresholds_are_ordered() {
    assert!(TackleEngagement::CONTACT < TackleEngagement::COMMIT);
    assert!(TackleEngagement::COMMIT < TackleEngagement::DISENGAGE);
    assert!(MarkEngagement::ENGAGE < MarkEngagement::RELEASE);
}

#[test]
fn nominated_presser_always_engages() {
    let v = view(DefensiveDuty::Press);
    assert!(TackleEngagement::is_nominated_presser(&v));
    assert!(TackleEngagement::may_engage_carrier(&v));
}

#[test]
fn nomination_excludes_everybody_else_in_open_play() {
    let mut v = view(DefensiveDuty::Other);
    v.best_to_chase = true;
    assert!(!TackleEngagement::may_engage_carrier(&v));
    let mut cover = view(DefensiveDuty::Cover);
    cover.best_to_chase = true;
    assert!(!TackleEngagement::may_engage_carrier(&cover));
}

#[test]
fn the_box_election_not_the_cover_duty_licenses_the_second_man() {
    // The plan's cover, with the ball in our box and a presser named, is
    // not licensed by his duty.
    let mut v = view(DefensiveDuty::Cover);
    v.ball = LEFT_BOX;
    assert!(!TackleEngagement::may_engage_carrier(&v));
    // One of the two the box election names is, whatever his duty.
    v.box_emergency = true;
    assert!(TackleEngagement::may_engage_carrier(&v));
    let mut other = view(DefensiveDuty::Other);
    other.box_emergency = true;
    assert!(TackleEngagement::may_engage_carrier(&other));
    assert!(TackleEngagement::should_commit(&other, true, true));
}

#[test]
fn chase_election_decides_when_nobody_is_nominated() {
    let mut v = view(DefensiveDuty::Other);
    v.presser_nominated = false;
    assert!(!TackleEngagement::may_engage_carrier(&v));
    v.best_to_chase = true;
    assert!(TackleEngagement::may_engage_carrier(&v));
    assert!(TackleEngagement::should_commit(&v, true, true));
    assert!(!TackleEngagement::should_commit(&v, false, true));
    assert!(!TackleEngagement::should_commit(&v, true, false));
}

#[test]
fn penalty_risk_reads_the_ball_against_the_own_box() {
    let mut v = view(DefensiveDuty::Other);
    v.ball = LEFT_BOX;
    assert!(PenaltyRisk::applies(&v));
    assert!(PenaltyRisk::in_own_box(&v));
    v.side = Some(PlayerSide::Right);
    assert!(!PenaltyRisk::applies(&v));
    // An unknown side resolves to the right-hand box.
    v.side = None;
    v.ball = RIGHT_BOX;
    assert!(PenaltyRisk::applies(&v));
    assert!(!PenaltyRisk::own_box(None));
    assert!(PenaltyRisk::own_box(Some(PlayerSide::Left)));
}

#[test]
fn standing_in_the_box_is_careful_but_not_a_penalty() {
    let mut v = view(DefensiveDuty::Other);
    v.player = LEFT_BOX;
    assert!(!PenaltyRisk::applies(&v));
    assert!(PenaltyRisk::in_own_box(&v));
    assert_eq!(ContactFoul::box_restraint(&v), ContactRestraint::InOwnBox);
    v.ball = LEFT_BOX;
    assert_eq!(ContactFoul::box_restraint(&v), ContactRestraint::Penalty);
    v.ball = NOWHERE;
    v.player = NOWHERE;
    assert_eq!(ContactFoul::box_restraint(&v), ContactRestraint::OpenPlay);
}

#[test]
fn the_keeper_is_not_cover() {
    let keeper = CoverCandidate { id: 1, is_goalkeeper: true, goal_side: true, within_scan: true };
    let me = CoverCandidate { id: 7, is_goalkeeper: false, goal_side: true, within_scan: true };
    let far = CoverCandidate { id: 4, is_goalkeeper: false, goal_side: true, within_scan: false };
    let mate = CoverCandidate { id: 5, is_goalkeeper: false, goal_side: true, within_scan: true };
    assert!(!TackleDecision::cover_exists(7, &vec![keeper, me, far]));
    assert!(TackleDecision::cover_exists(7, &vec![keeper, me, far, mate]));
    assert!(!TackleDecision::cover_exists(7, &vec![]));
}

#[test]
fn box_restraint_tiers() {
    assert_eq!(TackleDecision::box_restraint(false, false), TackleRestraint::OpenPlay);
    assert_eq!(TackleDecision::box_restraint(true, true), TackleRestraint::BoxWithCover);
    assert_eq!(TackleDecision::box_restraint(true, false), TackleRestraint::BoxLastMan);
}

#[test]
fn contact_fouls_are_never_violent() {
    assert_eq!(ContactFoul::severity(true), FoulSeverity::Reckless);
    assert_eq!(ContactFoul::severity(false), FoulSeverity::Normal);
}
