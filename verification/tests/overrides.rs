use match_strategies::engagement::{BoxOccupancy, EngagementView};
use match_strategies::exertion::{ActivityIntensity, JadednessRule};
use match_strategies::model::{
    BallTickView, DefenderState, DefensiveDuty, ForwardState, GoalkeeperState, MidfielderState,
    PassOriginRestart, PassReason, PlayerEvent, PlayerFieldPositionGroup, PlayerSide, PlayerState,
};
use match_strategies::overrides::{
    CommonInjuredState, CornerHold, HoldWeight, KeeperReleaseSpace, KeeperSpaceAction,
    KeeperSpaceView, KickoffDelivery, PositionEntry, RestartCarry, ThrowInDelivery, ThrowInPhase,
};

fn ball() -> BallTickView {
    BallTickView {
        current_owner: None,
        kickoff_taker: None,
        kickoff_partner: None,
        throw_taker: None,
        restart_taker: None,
        restart_carrier: None,
        pass_target: None,
        ownership_duration: 0,
        held_in_hands: false,
        pass_origin: PassOriginRestart::Other,
    }
}

#[test]
fn kickoff_taker_holds_then_rolls_it_to_his_partner() {
    let mut b = ball();
    b.kickoff_taker = Some(9);
    b.current_owner = Some(9);
    b.kickoff_partner = Some(10);
    assert!(KickoffDelivery::taking(9, &b));
    assert!(!KickoffDelivery::taking(10, &b));
    b.ownership_duration = 39;
    assert_eq!(KickoffDelivery::deliver(9, &b), None);
    b.ownership_duration = 40;
    assert_eq!(
        KickoffDelivery::deliver(9, &b),
        Some(PlayerEvent::PassTo { from: 9, to: 10, reason: PassReason::KickOff })
    );
    b.kickoff_partner = None;
    assert_eq!(KickoffDelivery::deliver(9, &b), None);
}

#[test]
fn throw_in_scans_then_picks_then_gets_desperate() {
    let mut b = ball();
    b.throw_taker = Some(3);
    b.current_owner = Some(3);
    assert!(ThrowInDelivery::taking(true, 3, &b));
    assert!(!ThrowInDelivery::taking(false, 3, &b));
    assert_eq!(ThrowInDelivery::phase(10), ThrowInPhase::Scanning);
    assert_eq!(ThrowInDelivery::phase(40), ThrowInPhase::Picking { desperate: false });
    assert_eq!(ThrowInDelivery::phase(350), ThrowInPhase::Picking { desperate: true });
    assert_eq!(ThrowInDelivery::deliver(3, 20, Some(8)), None);
    assert_eq!(
        ThrowInDelivery::deliver(3, 60, Some(8)),
        Some(PlayerEvent::PassTo { from: 3, to: 8, reason: PassReason::ThrowIn })
    );
    assert_eq!(ThrowInDelivery::deliver(3, 60, None), None);
}

#[test]
fn restart_carrier_walks_to_his_station() {
    let mut b = ball();
    b.restart_carrier = Some(5);
    assert_eq!(RestartCarry::apply(5, &b, Some((1, 2))), Some((1, 2)));
    assert_eq!(RestartCarry::apply(6, &b, Some((1, 2))), None);
    assert_eq!(RestartCarry::apply::<u8>(5, &b, None), None);
}

#[test]
fn corner_hold_releases_the_fetching_taker_only() {
    let standing = PlayerState::Defender(DefenderState::Standing);
    let mut b = ball();
    b.pass_origin = PassOriginRestart::Corner;
    b.restart_taker = Some(2);
    assert_eq!(CornerHold::hold_weight(2, standing, false, &b), HoldWeight::Released);
    assert_eq!(CornerHold::hold_weight(4, standing, false, &b), HoldWeight::Full);
    b.restart_carrier = Some(2);
    assert_eq!(CornerHold::hold_weight(2, standing, false, &b), HoldWeight::Full);
    assert_eq!(CornerHold::apply(4, standing, false, &b, Some(7)), Some((7, HoldWeight::Full)));
    assert_eq!(CornerHold::apply::<u8>(4, standing, false, &b, None), None);
}

#[test]
fn corner_hold_once_live() {
    let standing = PlayerState::Defender(DefenderState::Standing);
    let mut b = ball();
    b.pass_origin = PassOriginRestart::Corner;
    assert_eq!(CornerHold::hold_weight(4, standing, false, &b), HoldWeight::ByBallDistance);
    assert_eq!(CornerHold::hold_weight(4, standing, true, &b), HoldWeight::Released);
    b.current_owner = Some(4);
    assert_eq!(CornerHold::hold_weight(4, standing, false, &b), HoldWeight::Released);
    b.current_owner = None;
    b.pass_target = Some(4);
    assert_eq!(CornerHold::hold_weight(4, standing, false, &b), HoldWeight::Released);
    b.pass_target = None;
    let chasing = PlayerState::Midfielder(MidfielderState::TakeBall);
    assert!(CornerHold::is_chasing(chasing));
    assert!(CornerHold::is_chasing(PlayerState::Goalkeeper(GoalkeeperState::TakeBall)));
    assert!(!CornerHold::is_chasing(PlayerState::Forward(ForwardState::Standing)));
    assert_eq!(CornerHold::hold_weight(4, chasing, false, &b), HoldWeight::Released);
    assert_eq!(CornerHold::apply(4, chasing, false, &b, Some(1)), None);
    b.pass_origin = PassOriginRestart::Other;
    assert_eq!(CornerHold::apply(4, standing, false, &b, Some(1)), None);
}

fn keeper_view(side: PlayerSide, player: BoxOccupancy) -> KeeperSpaceView {
    KeeperSpaceView {
        injured: false,
        is_goalkeeper: false,
        near_holder: false,
        engagement: EngagementView {
            side: Some(side),
            duty: DefensiveDuty::Other,
            presser_nominated: false,
            best_to_chase: false,
            box_emergency: false,
            ball: BoxOccupancy { left: true, right: false },
            player,
        },
    }
}

fn keeper_positions() -> Vec<PositionEntry> {
    vec![
        PositionEntry { player_id: 1, side: PlayerSide::Left, is_goalkeeper: true, in_own_area: true },
        PositionEntry { player_id: 4, side: PlayerSide::Left, is_goalkeeper: false, in_own_area: true },
        PositionEntry { player_id: 20, side: PlayerSide::Right, is_goalkeeper: true, in_own_area: false },
    ]
}

#[test]
fn forwards_back_out_of_a_keepers_area() {
    let positions = keeper_positions();
    let mut b = ball();
    b.held_in_hands = true;
    b.current_owner = Some(1);
    let in_left = BoxOccupancy { left: true, right: false };
    let out = BoxOccupancy { left: false, right: false };
    assert_eq!(KeeperReleaseSpace::holder_entry(&positions, 20), Some(positions[2]));
    assert_eq!(KeeperReleaseSpace::holder_entry(&positions, 7), None);
    let forward = keeper_view(PlayerSide::Right, in_left);
    assert_eq!(
        KeeperReleaseSpace::retreat(&forward, &b, &positions),
        Some(KeeperSpaceAction::Retreat { side: PlayerSide::Left })
    );
    // Even the man the election would send in walks out of a held ball.
    let mut presser = forward;
    presser.engagement.duty = DefensiveDuty::Press;
    assert_eq!(
        KeeperReleaseSpace::retreat(&presser, &b, &positions),
        Some(KeeperSpaceAction::Retreat { side: PlayerSide::Left })
    );
    // Outside the area, injured, or a keeper himself: nothing.
    assert_eq!(KeeperReleaseSpace::retreat(&keeper_view(PlayerSide::Right, out), &b, &positions), None);
    let mut hurt = forward;
    hurt.injured = true;
    assert_eq!(KeeperReleaseSpace::retreat(&hurt, &b, &positions), None);
    let mut other_keeper = forward;
    other_keeper.is_goalkeeper = true;
    assert_eq!(KeeperReleaseSpace::retreat(&other_keeper, &b, &positions), None);
    // A ball in an outfielder's hands (a throw-in) clears nobody.
    b.current_owner = Some(4);
    assert_eq!(KeeperReleaseSpace::retreat(&forward, &b, &positions), None);
}

#[test]
fn teammates_offer_the_keeper_an_outlet() {
    let positions = keeper_positions();
    let mut b = ball();
    b.held_in_hands = true;
    b.current_owner = Some(1);
    let mut mate = keeper_view(PlayerSide::Left, BoxOccupancy { left: true, right: false });
    assert_eq!(KeeperReleaseSpace::retreat(&mate, &b, &positions), None);
    mate.near_holder = true;
    assert_eq!(
        KeeperReleaseSpace::retreat(&mate, &b, &positions),
        Some(KeeperSpaceAction::OfferOutlet { side: PlayerSide::Left })
    );
}

#[test]
fn live_ball_at_keepers_feet_respects_the_election() {
    let positions = keeper_positions();
    let mut b = ball();
    b.current_owner = Some(1);
    let in_left = BoxOccupancy { left: true, right: false };
    let mut forward = keeper_view(PlayerSide::Right, in_left);
    assert_eq!(
        KeeperReleaseSpace::retreat(&forward, &b, &positions),
        Some(KeeperSpaceAction::Retreat { side: PlayerSide::Left })
    );
    forward.engagement.duty = DefensiveDuty::Press;
    assert_eq!(KeeperReleaseSpace::retreat(&forward, &b, &positions), None);
    // A keeper with the ball outside his own area clears nobody.
    b.current_owner = Some(20);
    let in_right = keeper_view(PlayerSide::Left, BoxOccupancy { left: false, right: true });
    assert_eq!(KeeperReleaseSpace::retreat(&in_right, &b, &positions), None);
    // During a goal kick's run-up the taker is protected though the ball
    // has no owner.
    b.current_owner = None;
    b.pass_origin = PassOriginRestart::GoalKick;
    b.restart_taker = Some(20);
    assert_eq!(
        KeeperReleaseSpace::retreat(&in_right, &b, &positions),
        Some(KeeperSpaceAction::Retreat { side: PlayerSide::Right })
    );
}

#[test]
fn injured_player_rejoins_in_his_role() {
    let s = CommonInjuredState {};
    assert_eq!(s.process(399, PlayerFieldPositionGroup::Defender), None);
    assert_eq!(
        s.process(400, PlayerFieldPositionGroup::Defender),
        Some(PlayerState::Defender(DefenderState::Standing))
    );
    assert_eq!(
        CommonInjuredState::default_state_for(PlayerFieldPositionGroup::Goalkeeper),
        PlayerState::Goalkeeper(GoalkeeperState::Standing)
    );
    assert_eq!(
        CommonInjuredState::default_state_for(PlayerFieldPositionGroup::Forward),
        PlayerState::Forward(ForwardState::Standing)
    );
    let (processor, rule) = s.process_conditions(PlayerFieldPositionGroup::Goalkeeper);
    assert_eq!(processor.intensity, ActivityIntensity::Low);
    assert_eq!(rule, JadednessRule::goalkeeper());
    let (_, rule) = s.process_conditions(PlayerFieldPositionGroup::Midfielder);
    assert_eq!(rule, JadednessRule::field_player());
}
