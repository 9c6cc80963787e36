use match_strategies::discipline::{DisciplineView, ShapeDiscipline};
use match_strategies::exertion::ActivityIntensity;
use match_strategies::model::{
    BallTickView, DefenderState, ForwardState, MidfielderState, PassOriginRestart, PlayerSide,
    PlayerState,
};
use match_strategies::width::{Flank, WideBallRead, WideChannel, WideIntent, WidePlan};

fn plan() -> WidePlan {
    WidePlan { left_holder: Some(11), right_holder: Some(7), overlap_runner: Some(3), ball_flank: Flank::Left }
}

#[test]
fn wide_intent_tiers() {
    assert_eq!(WideIntent::Hold.intensity(), ActivityIntensity::Moderate);
    assert_eq!(WideIntent::Advance.intensity(), ActivityIntensity::High);
    assert_eq!(WideIntent::Byline.intensity(), ActivityIntensity::VeryHigh);
}

#[test]
fn assignments_from_the_plan() {
    let p = plan();
    assert_eq!(WideChannel::assignment(&p, 11), Some(Flank::Left));
    assert_eq!(WideChannel::assignment(&p, 7), Some(Flank::Right));
    assert_eq!(WideChannel::assignment(&p, 3), Some(Flank::Left));
    assert_eq!(WideChannel::assignment(&p, 9), None);
    assert!(WideChannel::still_mine(&p, 11, false, true, false));
    assert!(!WideChannel::still_mine(&p, 11, true, true, false));
    assert!(!WideChannel::still_mine(&p, 11, false, false, false));
    assert!(!WideChannel::still_mine(&p, 11, false, true, true));
    assert!(!WideChannel::still_mine(&p, 9, false, true, false));
}

#[test]
fn intent_follows_the_ball() {
    let p = plan();
    let side = Some(PlayerSide::Left);
    let mut read = WideBallRead { on_my_side: false, short_of_run_progress: true, onside: true };
    assert_eq!(WideChannel::intent(&p, 11, side, &read), WideIntent::Hold);
    read.on_my_side = true;
    assert_eq!(WideChannel::intent(&p, 11, side, &read), WideIntent::Advance);
    read.short_of_run_progress = false;
    assert_eq!(WideChannel::intent(&p, 11, side, &read), WideIntent::Byline);
    read.onside = false;
    assert_eq!(WideChannel::intent(&p, 11, side, &read), WideIntent::Advance);
    assert_eq!(WideChannel::intent(&p, 9, side, &read), WideIntent::Hold);
    assert_eq!(WideChannel::intent(&p, 11, None, &read), WideIntent::Hold);
}

fn discipline(state: PlayerState) -> DisciplineView {
    DisciplineView {
        player_id: 4,
        is_goalkeeper: false,
        has_ball: false,
        committed_action: false,
        state,
        ball_near: false,
    }
}

fn ball() -> BallTickView {
    BallTickView {
        current_owner: None,
        kickoff_taker: None,
        kickoff_partner: None,
        throw_taker: None,
        restart_taker: None,
        restart_carrier: None,
        pass_target: None,
        ownership_duration: 0,
        held_in_hands: false,
        pass_origin: PassOriginRestart::Other,
    }
}

#[test]
fn shape_exemptions() {
    let b = ball();
    let plain = discipline(PlayerState::Defender(DefenderState::Marking));
    assert!(!ShapeDiscipline::is_exempt(&plain, &b));
    let mut keeper = plain;
    keeper.is_goalkeeper = true;
    assert!(ShapeDiscipline::is_exempt(&keeper, &b));
    assert!(ShapeDiscipline::is_exempt(&discipline(PlayerState::Injured), &b));
    assert!(ShapeDiscipline::is_exempt(&discipline(PlayerState::Midfielder(MidfielderState::HoldingWidth)), &b));
    assert!(ShapeDiscipline::is_exempt(&discipline(PlayerState::Forward(ForwardState::HoldingWidth)), &b));
    assert!(ShapeDiscipline::is_exempt(&discipline(PlayerState::Defender(DefenderState::Overlapping)), &b));
    let mut near = plain;
    near.ball_near = true;
    assert!(ShapeDiscipline::is_exempt(&near, &b));
    let mut target = b;
    target.pass_target = Some(4);
    assert!(ShapeDiscipline::is_exempt(&plain, &target));
    let mut taker = b;
    taker.restart_taker = Some(4);
    assert!(ShapeDiscipline::is_exempt(&plain, &taker));
    taker.restart_taker = Some(5);
    assert!(!ShapeDiscipline::is_exempt(&plain, &taker));
}
