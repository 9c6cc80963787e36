use match_strategies::defenders::blocking::{BlockingView, DefenderBlockingState};
use match_strategies::defenders::common::{
    count_flags, DefensiveLine, DefensiveRecovery, Interception, LineDeviation, LooseBallRead,
};
use match_strategies::defenders::holding_line::{DefenderHoldingLineState, HoldingLineView, LineCarrierRead};
use match_strategies::defenders::marking::{DefenderMarkingState, MarkCandidates, MarkTarget, MarkingView};
use match_strategies::defenders::passing::{CounterTarget, DefenderPassingState, PassOption, PassingView};
use match_strategies::defenders::running::{CarrierRead, DefenderRunningState, OverlapRead, RunningView};
use match_strategies::defenders::standing::{DefenderStandingState, StandingCarrierRead, StandingView};
use match_strategies::model::{
    DefenderState, DefenderTransition, DefensiveDuty, DefensiveRole, FoulSeverity, PassReason,
    PlayerDistanceFromStartPosition, PlayerEvent, PlayerSide, PlayerState,
};

fn to(state: DefenderState) -> Option<DefenderTransition> {
    Some(DefenderTransition { state, event: None })
}

fn running() -> RunningView {
    RunningView {
        player_id: 5,
        in_state_time: 0,
        has_ball: false,
        opponent_closing_fast: false,
        emergency_target: None,
        in_shooting_range: false,
        can_finish: false,
        ball_in_own_penalty_area: false,
        opponent_within_12: false,
        opponent_within_15: false,
        opponent_within_20: false,
        opponent_within_25: false,
        opponent_within_30: false,
        near_boundary: false,
        teammates_within_15: 0,
        opponents_within_15: 0,
        teammates_within_20: 0,
        opponents_within_20: 0,
        movement_congested: false,
        carrier_quality: false,
        ownership_duration: 0,
        open_target: false,
        nearby_conditions: vec![],
        control_ball: false,
        progressive_target: false,
        has_vision: false,
        opposite_side_target: None,
        buildup_short: None,
        buildup_long: None,
        just_lost_possession: false,
        within_counter_press: false,
        carrier: None,
        distance_from_start: PlayerDistanceFromStartPosition::Small,
        ball_within_30: false,
        ball_within_50: false,
        ball_within_80: false,
        ball_within_100: false,
        ball_within_200: false,
        best_to_chase: false,
        carrier_approaching: false,
        ball_owned: true,
        ball_slow: false,
        take_ball_immediately: false,
        owner_is_teammate: false,
        ball_towards_me: false,
        teammate_chasing: false,
        overlap: OverlapRead {
            wide: false,
            on_left_flank: true,
            ball_on_left: true,
            ball_ahead: true,
            deeper_defenders: vec![],
            blockers: vec![],
        },
    }
}

#[test]
fn running_emergency_pass_or_clear() {
    let s = DefenderRunningState {};
    let mut v = running();
    v.has_ball = true;
    v.opponent_closing_fast = true;
    assert_eq!(s.try_fast(&v), to(DefenderState::Clearing));
    v.emergency_target = Some(8);
    assert_eq!(
        s.try_fast(&v),
        Some(DefenderTransition {
            state: DefenderState::Standing,
            event: Some(PlayerEvent::PassTo { from: 5, to: 8, reason: PassReason::DefenderEmergencyPass }),
        })
    );
}

#[test]
fn running_on_the_ball_too_long() {
    let s = DefenderRunningState {};
    let mut v = running();
    v.has_ball = true;
    v.in_state_time = 120;
    v.buildup_short = Some(9);
    v.buildup_long = Some(10);
    assert_eq!(
        s.try_fast(&v).unwrap().event,
        Some(PlayerEvent::PassTo { from: 5, to: 9, reason: PassReason::DefenderBuildupShort })
    );
    v.in_state_time = 200;
    assert_eq!(
        s.try_fast(&v).unwrap().event,
        Some(PlayerEvent::PassTo { from: 5, to: 10, reason: PassReason::DefenderBuildupLong })
    );
    v.in_state_time = 260;
    assert_eq!(s.try_fast(&v), to(DefenderState::Clearing));
    v.in_state_time = 50;
    assert_eq!(s.try_fast(&v), None);
}

#[test]
fn running_passing_rules() {
    let s = DefenderRunningState {};
    let mut v = running();
    v.has_ball = true;
    v.in_state_time = 20;
    v.ownership_duration = 20;
    v.opponent_within_12 = true;
    v.opponent_within_15 = true;
    v.opponent_within_20 = true;
    v.opponent_within_25 = true;
    v.opponent_within_30 = true;
    assert!(s.should_pass(&v));
    assert_eq!(s.try_fast(&v), to(DefenderState::Passing));
    // A crowd with no open man: carry it out.
    v.opponents_within_20 = 3;
    v.teammates_within_20 = 1;
    assert!(!s.should_pass(&v));
    v.open_target = true;
    assert!(s.should_pass(&v));
    // Tired team-mates under pressure.
    let mut t = running();
    t.has_ball = true;
    t.opponent_within_15 = true;
    t.nearby_conditions = vec![30, 45];
    assert!(s.are_teammates_tired(&t));
    assert!(s.should_pass(&t));
    t.nearby_conditions = vec![30, 55];
    assert!(!s.are_teammates_tired(&t));
}

#[test]
fn running_clears_under_pressure_in_own_box() {
    let s = DefenderRunningState {};
    let mut v = running();
    v.has_ball = true;
    v.ball_in_own_penalty_area = true;
    v.opponent_within_30 = true;
    assert!(s.should_clear(&v));
    assert_eq!(s.try_fast(&v), to(DefenderState::Clearing));
    let mut b = running();
    b.near_boundary = true;
    b.teammates_within_15 = 1;
    b.opponents_within_15 = 2;
    assert!(s.is_congested_near_boundary(&b));
    b.opponents_within_15 = 1;
    assert!(!s.is_congested_near_boundary(&b));
}

#[test]
fn running_carry() {
    let s = DefenderRunningState {};
    let mut v = running();
    v.has_ball = true;
    v.in_state_time = 50;
    v.carrier_quality = true;
    assert!(s.should_carry_ball(&v));
    assert_eq!(s.try_fast(&v), None);
    v.in_state_time = 201;
    assert!(!s.should_carry_ball(&v));
}

#[test]
fn running_off_the_ball() {
    let s = DefenderRunningState {};
    let mut v = running();
    v.just_lost_possession = true;
    v.within_counter_press = true;
    v.carrier = Some(CarrierRead { best_defender: false, within_30: true });
    assert_eq!(s.try_fast(&v), to(DefenderState::Tackling));
    let mut r = running();
    r.distance_from_start = PlayerDistanceFromStartPosition::Big;
    assert_eq!(s.try_fast(&r), to(DefenderState::Returning));
    let mut i = running();
    i.ball_owned = false;
    i.best_to_chase = true;
    i.ball_within_200 = true;
    i.ball_towards_me = true;
    assert!(s.should_intercept(&i));
    assert_eq!(s.try_fast(&i), to(DefenderState::Intercepting));
    i.owner_is_teammate = true;
    assert!(!s.should_intercept(&i));
}

fn standing() -> StandingView {
    StandingView {
        in_state_time: 0,
        has_ball: false,
        take_ball_immediately: false,
        carrier: None,
        unmarked_nearby: false,
        ball_on_own_side: false,
        ball_above_head_height: false,
        ball_within_5: false,
        ball_towards_me_06: false,
        ball_fast: false,
        ball_within_20: false,
        ball_towards_me_07: false,
        ball_low: false,
        shooter_nearby: false,
        ball_towards_me_08: false,
        ball_within_60: false,
        ball_within_200: false,
        ball_owned: true,
        ball_in_attacking_third: false,
        ball_in_middle_third: false,
        control_ball: false,
        last_defender: false,
        near_start: false,
        at_start: true,
        should_hold_line: false,
        dangerous_runner: false,
        opponent_within_25: false,
        opponent_within_50: false,
        tired: false,
        ball_within_400: true,
    }
}

#[test]
fn standing_reactions() {
    let s = DefenderStandingState {};
    let mut v = standing();
    assert_eq!(s.try_fast(&v), None);
    v.in_state_time = 31;
    assert_eq!(s.try_fast(&v), to(DefenderState::Walking));
    let mut c = standing();
    c.carrier = Some(StandingCarrierRead { within_30: false, within_press: true, best_defender: false, can_support_press: false });
    c.ball_on_own_side = true;
    assert_eq!(s.try_fast(&c), to(DefenderState::TrackingBack));
    c.unmarked_nearby = true;
    assert_eq!(s.try_fast(&c), to(DefenderState::Marking));
    c.carrier = Some(StandingCarrierRead { within_30: true, within_press: true, best_defender: false, can_support_press: false });
    assert_eq!(s.try_fast(&c), to(DefenderState::Tackling));
    let mut b = standing();
    b.ball_fast = true;
    b.ball_within_20 = true;
    b.ball_towards_me_07 = true;
    b.ball_low = true;
    b.shooter_nearby = true;
    assert!(s.should_block_shot(&b));
    assert_eq!(s.try_fast(&b), to(DefenderState::Blocking));
    let mut h = standing();
    h.has_ball = true;
    assert_eq!(s.try_fast(&h), to(DefenderState::Running));
}

#[test]
fn standing_push_up_and_walk() {
    let s = DefenderStandingState {};
    let mut v = standing();
    v.ball_in_attacking_third = true;
    v.control_ball = true;
    v.near_start = true;
    assert!(s.should_push_up(&v));
    v.last_defender = true;
    assert!(!s.should_push_up(&v));
    let mut w = standing();
    w.tired = true;
    w.control_ball = true;
    assert!(s.should_transition_to_walking(&w));
    w.opponent_within_50 = true;
    assert!(!s.should_transition_to_walking(&w));
}

fn holding() -> HoldingLineView {
    HoldingLineView {
        has_ball: false,
        central_defender: false,
        team_attacking_corner: false,
        aerial_ball: false,
        box_emergency: false,
        carrier: None,
        step_up: false,
        deviation: LineDeviation::InsideEnter,
        ball_owned: true,
        ball_within_40: false,
        ball_slow: false,
        role: DefensiveRole::Hold,
        counter_press_reach: false,
        ball_on_own_side: false,
        runner_within_25: false,
        unmarked_within_60: false,
        loose_ball_to_goal: false,
        ball_within_150: false,
        ball_within_250: false,
        ball_towards_me: false,
        opponent_nearby: false,
    }
}

#[test]
fn holding_line_keeps_its_line() {
    let s = DefenderHoldingLineState {};
    let mut v = holding();
    assert_eq!(s.process(&v), None);
    v.deviation = LineDeviation::InsideExit;
    assert_eq!(s.process(&v), None);
    v.deviation = LineDeviation::Outside;
    assert_eq!(s.process(&v), to(DefenderState::Running));
}

#[test]
fn holding_line_roles_against_the_carrier() {
    let s = DefenderHoldingLineState {};
    let mut v = holding();
    v.carrier = Some(LineCarrierRead { within_25: true, within_60: true, within_100: true });
    v.role = DefensiveRole::Primary;
    assert_eq!(s.process(&v), to(DefenderState::Tackling));
    v.role = DefensiveRole::Help;
    assert_eq!(s.process(&v), to(DefenderState::Marking));
    v.role = DefensiveRole::Cover;
    v.ball_on_own_side = true;
    assert_eq!(s.process(&v), to(DefenderState::Covering));
    v.role = DefensiveRole::Hold;
    v.ball_within_150 = true;
    assert_eq!(s.process(&v), to(DefenderState::Intercepting));
    v.central_defender = true;
    v.team_attacking_corner = true;
    assert_eq!(s.process(&v), to(DefenderState::AttackingCorner));
}

fn passing() -> PassingView {
    PassingView {
        player_id: 4,
        side: Some(PlayerSide::Left),
        in_state_time: 0,
        has_ball: true,
        ownership_duration: 10,
        opponents_in_our_half: vec![],
        counter_target: None,
        heavy_pressure: false,
        must_clear_under_pressure: false,
        safe_option: None,
        nearby_conditions: vec![],
        safe_option_100: None,
        best_option_200: None,
        dangerous_position: false,
        good_dribbler: false,
        opponents_within_20: 0,
        safe_option_200: None,
        immediate_pressure: false,
        has_clear_option: false,
    }
}

#[test]
fn passing_counter_attack_needs_five_caught_upfield() {
    let mut v = passing();
    v.counter_target = Some(CounterTarget { id: 9, in_opponent_half: true, pass_in_range: true, opponents_in_lane: 1 });
    v.opponents_in_our_half = vec![true, true, true, true, false, false];
    assert_eq!(DefenderPassingState::find_counter_attack_target(&v), None);
    v.opponents_in_our_half.push(true);
    assert_eq!(DefenderPassingState::find_counter_attack_target(&v), Some(9));
    assert_eq!(
        DefenderPassingState {}.process(&v).unwrap().event,
        Some(PlayerEvent::PassTo { from: 4, to: 9, reason: PassReason::DefenderCounterAttack })
    );
    v.ownership_duration = 50;
    assert_eq!(DefenderPassingState::find_counter_attack_target(&v), Some(9));
    // The moment has passed: the opposition has reorganised.
    v.ownership_duration = 51;
    assert_eq!(DefenderPassingState::find_counter_attack_target(&v), None);
    v.ownership_duration = 75;
    assert_eq!(DefenderPassingState::find_counter_attack_target(&v), None);
    assert_eq!(count_flags(&vec![true, false, true]), 2);
}

#[test]
fn passing_under_pressure_and_timeouts() {
    let s = DefenderPassingState {};
    let mut v = passing();
    v.heavy_pressure = true;
    assert_eq!(s.process(&v), to(DefenderState::Clearing));
    v.safe_option = Some(3);
    assert_eq!(
        s.process(&v).unwrap().event,
        Some(PlayerEvent::PassTo { from: 4, to: 3, reason: PassReason::DefenderPassingUnderPressure })
    );
    let mut t = passing();
    t.in_state_time = 60;
    assert_eq!(s.process(&t), to(DefenderState::Running));
    t.in_state_time = 66;
    assert_eq!(s.process(&t), to(DefenderState::Clearing));
    t.safe_option_200 = Some(PassOption { id: 6, acceptable: true });
    assert_eq!(
        s.process(&t).unwrap().event,
        Some(PlayerEvent::PassTo { from: 4, to: 6, reason: PassReason::DefenderPassingTimeout })
    );
    let mut n = passing();
    n.has_ball = false;
    assert_eq!(s.process(&n), to(DefenderState::Pressing));
    assert!(s.should_adjust_position(&passing()));
}

fn marking() -> MarkingView {
    MarkingView {
        player_id: 2,
        in_state_time: 1,
        has_ball: false,
        control_ball: false,
        candidates: MarkCandidates { assigned: None, help: None, unmarked: None, most_dangerous: None },
        foul_roll: false,
        reckless_roll: false,
        box_emergency: false,
        carrier_within_25: None,
        take_ball_immediately: false,
        best_to_chase: false,
        condition_pct: 80,
        aerial_ball: false,
        ball_within_15: false,
        ball_owned: true,
        ball_towards_me: false,
        duty_has_target: true,
        role: DefensiveRole::Hold,
    }
}

fn man(id: u32) -> MarkTarget {
    MarkTarget { id, has_ball: false, within_10: false, within_30: false, beyond_release: false }
}

#[test]
fn marking_prefers_the_assigned_man() {
    let s = DefenderMarkingState {};
    let mut v = marking();
    v.candidates = MarkCandidates { assigned: Some(man(10)), help: Some(man(11)), unmarked: Some(man(12)), most_dangerous: None };
    assert_eq!(s.find_best_marking_target(&v).unwrap().id, 10);
    v.candidates.assigned = None;
    assert_eq!(s.find_best_marking_target(&v).unwrap().id, 12);
    v.carrier_within_25 = Some(false);
    assert_eq!(s.find_best_marking_target(&v).unwrap().id, 11);
}

#[test]
fn marking_transitions() {
    let s = DefenderMarkingState {};
    let mut v = marking();
    assert_eq!(s.process(&v), to(DefenderState::Standing));
    v.candidates.assigned = Some(man(10));
    assert_eq!(s.process(&v), None);
    v.candidates.assigned = Some(MarkTarget { id: 10, has_ball: true, within_10: true, within_30: true, beyond_release: false });
    assert_eq!(s.process(&v), to(DefenderState::Tackling));
    v.candidates.assigned = Some(MarkTarget { id: 10, has_ball: false, within_10: false, within_30: false, beyond_release: true });
    assert_eq!(s.process(&v), to(DefenderState::Running));
    v.condition_pct = 19;
    assert_eq!(s.process(&v), to(DefenderState::Resting));
}

#[test]
fn marking_contact_foul_on_the_decision_tick() {
    let s = DefenderMarkingState {};
    let mut v = marking();
    v.candidates.assigned = Some(man(10));
    v.foul_roll = true;
    v.reckless_roll = true;
    assert_eq!(s.process(&v), None);
    v.in_state_time = 100;
    assert_eq!(
        s.process(&v),
        Some(DefenderTransition {
            state: DefenderState::Standing,
            event: Some(PlayerEvent::CommitFoul(2, FoulSeverity::Reckless)),
        })
    );
}

#[test]
fn blocking_ends_standing() {
    let s = DefenderBlockingState {};
    let mut v = BlockingView {
        player_id: 3,
        in_state_time: 10,
        has_ball: false,
        ball_owned: false,
        ball_within_block: true,
        block_roll: true,
        ball_stopped: false,
        ball_far: false,
        ball_towards_me: true,
    };
    assert_eq!(
        s.try_fast(&v),
        Some(DefenderTransition { state: DefenderState::Standing, event: Some(PlayerEvent::ClaimBall(3)) })
    );
    v.block_roll = false;
    assert_eq!(s.try_fast(&v), None);
    v.in_state_time = 501;
    assert_eq!(s.try_fast(&v), to(DefenderState::Standing));
}

#[test]
fn line_hysteresis() {
    let holding = PlayerState::Defender(DefenderState::HoldingLine);
    let standing = PlayerState::Defender(DefenderState::Standing);
    assert!(DefensiveLine::is_in_line(holding, LineDeviation::InsideExit));
    assert!(!DefensiveLine::is_in_line(standing, LineDeviation::InsideExit));
    assert!(DefensiveLine::is_in_line(standing, LineDeviation::InsideEnter));
    assert!(!DefensiveLine::is_in_line(holding, LineDeviation::Outside));
    assert!(DefensiveLine::ENTER_BAND < DefensiveLine::EXIT_BAND);
}

#[test]
fn interception_and_loose_ball_recovery() {
    assert!(Interception::is_available(false, false));
    assert!(!Interception::is_available(false, true));
    let r = LooseBallRead {
        player_id: 5,
        team_id: 1,
        side: Some(PlayerSide::Left),
        legacy: false,
        ball_owned: false,
        last_owner: Some(30),
        last_owner_team: Some(2),
        restart_taker: None,
        designated: true,
        theirs_closer: false,
    };
    assert!(DefensiveRecovery::is_going_for_a_loose_ball(&r));
    let mut ours = r;
    ours.last_owner_team = Some(1);
    assert!(!DefensiveRecovery::is_going_for_a_loose_ball(&ours));
    let mut taker = r;
    taker.restart_taker = Some(6);
    assert!(!DefensiveRecovery::is_going_for_a_loose_ball(&taker));
    taker.restart_taker = Some(5);
    assert!(DefensiveRecovery::is_going_for_a_loose_ball(&taker));
    assert!(!DefensiveRecovery::depth_override_applies(false, true, DefensiveDuty::Other, DefensiveRole::Hold, &r));
    let mut none = r;
    none.designated = false;
    assert!(DefensiveRecovery::depth_override_applies(false, true, DefensiveDuty::Other, DefensiveRole::Hold, &none));
    assert!(!DefensiveRecovery::depth_override_applies(false, true, DefensiveDuty::Press, DefensiveRole::Hold, &none));
    assert!(!DefensiveRecovery::depth_override_applies(false, false, DefensiveDuty::Other, DefensiveRole::Hold, &none));
}

#[test]
fn running_overlap_on_his_own_flank() {
    let s = DefenderRunningState {};
    let mut v = running();
    v.control_ball = true;
    v.owner_is_teammate = true;
    v.overlap.wide = true;
    v.overlap.deeper_defenders = vec![false, true];
    assert!(s.should_overlap(&v));
    assert_eq!(s.try_fast(&v), to(DefenderState::PushingUp));
    // Nobody deeper: he is the last man and stays.
    v.overlap.deeper_defenders = vec![false, false];
    assert!(!s.should_overlap(&v));
    assert_eq!(s.try_fast(&v), None);
    v.overlap.deeper_defenders = vec![true];
    // The wing ahead is occupied.
    v.overlap.blockers = vec![false, true];
    assert!(!s.should_overlap(&v));
    v.overlap.blockers = vec![false];
    // The ball is on the other flank, or behind him.
    v.overlap.ball_on_left = false;
    assert!(!s.should_overlap(&v));
    v.overlap.ball_on_left = true;
    v.overlap.ball_ahead = false;
    assert!(!s.should_overlap(&v));
    v.overlap.ball_ahead = true;
    assert!(s.should_overlap(&v));
    // An opponent on the ball, or a central defender.
    v.owner_is_teammate = false;
    assert!(!s.should_overlap(&v));
    v.owner_is_teammate = true;
    v.overlap.wide = false;
    assert!(!s.should_overlap(&v));
}
