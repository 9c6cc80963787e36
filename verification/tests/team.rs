use match_strategies::model::PlayerSide;
use match_strategies::team::{
    AttackCandidate, ChaseCandidate, ChaseRival, CoachInstruction, GamePhase, MatchCoach, Tactics,
    TeamOperationsImpl, TeamTacticalState, TeamView,
};

fn view() -> TeamView {
    TeamView {
        player_id: 7,
        team_id: 1,
        side: Some(PlayerSide::Left),
        field_home_team_id: 1,
        score_home_team_id: 1,
        home_goals: 0,
        away_goals: 0,
        tactics_left: Tactics { id: 11 },
        tactics_right: Tactics { id: 22 },
        coach: MatchCoach {
            instruction: CoachInstruction { prefer_possession: false },
            last_possession_gain_tick: 0,
            allows_shot: true,
        },
        tactical: TeamTacticalState { phase: GamePhase::Defending },
        current_tick: 10_000,
        total_match_time_ms: 1_000_000,
        half_time_ms: 2_700_000,
        previous_owner_team: None,
        ball_moving: false,
        ball_heading_forward: false,
        teammate_much_closer: false,
        last_owner_team: None,
        owner_team: None,
        ownership_duration: 0,
        nearby_conditions: vec![],
        attack_candidates: vec![],
        chase_candidates: vec![],
        chase_rivals: vec![],
    }
}

#[test]
fn score_read_from_each_side() {
    let mut v = view();
    v.home_goals = 2;
    v.away_goals = 1;
    let ops = TeamOperationsImpl::new(&v);
    assert_eq!(ops.score_diff(), 1);
    assert!(!ops.is_loosing());
    assert!(ops.is_leading());
    let mut away = v.clone();
    away.team_id = 2;
    let ops = TeamOperationsImpl::new(&away);
    assert_eq!(ops.score_diff(), -1);
    assert!(ops.is_loosing());
    assert!(!ops.is_leading());
}

#[test]
fn a_draw_counts_as_leading() {
    let v = view();
    let ops = TeamOperationsImpl::new(&v);
    assert!(!ops.is_loosing());
    assert!(ops.is_leading());
}

#[test]
fn getters_read_the_team() {
    let v = view();
    let ops = TeamOperationsImpl::new(&v);
    assert_eq!(ops.tactics().id, 11);
    assert_eq!(ops.phase(), GamePhase::Defending);
    assert!(ops.can_shoot());
    assert!(!ops.coach_instruction().prefer_possession());
    assert_eq!(ops.coach().last_possession_gain_tick, 0);
    assert_eq!(ops.tactical().phase, GamePhase::Defending);
    let mut right = view();
    right.side = Some(PlayerSide::Right);
    assert_eq!(TeamOperationsImpl::new(&right).tactics().id, 22);
}

#[test]
fn just_lost_possession_window() {
    let mut v = view();
    v.last_owner_team = Some(1);
    v.ownership_duration = 29;
    assert!(TeamOperationsImpl::new(&v).has_just_lost_possession());
    v.ownership_duration = 30;
    assert!(!TeamOperationsImpl::new(&v).has_just_lost_possession());
    v.ownership_duration = 5;
    v.teammate_much_closer = true;
    assert!(!TeamOperationsImpl::new(&v).has_just_lost_possession());
    v.teammate_much_closer = false;
    v.last_owner_team = Some(2);
    assert!(!TeamOperationsImpl::new(&v).has_just_lost_possession());
}

#[test]
fn possession_play_reasons() {
    let mut v = view();
    // Attack not ready, nothing else: keep the ball.
    assert!(TeamOperationsImpl::new(&v).should_play_possession());
    v.attack_candidates = vec![AttackCandidate { attacker: true, near_goal: true, closely_marked: false }];
    assert!(!TeamOperationsImpl::new(&v).should_play_possession());
    v.coach.instruction.prefer_possession = true;
    assert!(TeamOperationsImpl::new(&v).should_play_possession());
    v.coach.instruction.prefer_possession = false;
    v.teammate_much_closer = true;
    v.coach.last_possession_gain_tick = 9_800;
    assert!(TeamOperationsImpl::new(&v).should_play_possession());
    v.teammate_much_closer = false;
    v.nearby_conditions = vec![40, 55];
    assert!(TeamOperationsImpl::new(&v).should_play_possession());
    v.nearby_conditions = vec![60, 55];
    assert!(!TeamOperationsImpl::new(&v).should_play_possession());
    // Past 88% of the match and not behind.
    v.total_match_time_ms = 4_800_000;
    assert!(TeamOperationsImpl::new(&v).should_play_possession());
    v.away_goals = 1;
    assert!(!TeamOperationsImpl::new(&v).should_play_possession());
}

#[test]
fn attack_ready_needs_a_free_attacker_near_goal() {
    let mut v = view();
    v.attack_candidates = vec![
        AttackCandidate { attacker: true, near_goal: true, closely_marked: true },
        AttackCandidate { attacker: false, near_goal: true, closely_marked: false },
    ];
    assert!(!TeamOperationsImpl::new(&v).is_attack_ready());
    v.attack_candidates.push(AttackCandidate { attacker: true, near_goal: true, closely_marked: false });
    assert!(TeamOperationsImpl::new(&v).is_attack_ready());
}

#[test]
fn chase_election() {
    let mut v = view();
    assert!(TeamOperationsImpl::new(&v).is_best_player_to_chase_ball());
    v.chase_rivals = vec![ChaseRival { no_further: true, known: true, clearly_better: false }];
    assert!(TeamOperationsImpl::new(&v).is_best_player_to_chase_ball());
    v.chase_rivals.push(ChaseRival { no_further: true, known: true, clearly_better: true });
    assert!(!TeamOperationsImpl::new(&v).is_best_player_to_chase_ball());
    v.chase_rivals.clear();
    v.owner_team = Some(1);
    assert!(!TeamOperationsImpl::new(&v).is_best_player_to_chase_ball());
    v.owner_team = Some(2);
    assert!(TeamOperationsImpl::new(&v).is_best_player_to_chase_ball());
}

#[test]
fn teammate_already_chasing() {
    let mut v = view();
    v.chase_candidates = vec![ChaseCandidate { moving: false, heading_to_ball: true, comparably_close: true }];
    assert!(!TeamOperationsImpl::new(&v).is_teammate_chasing_ball());
    v.chase_candidates.push(ChaseCandidate { moving: true, heading_to_ball: true, comparably_close: true });
    assert!(TeamOperationsImpl::new(&v).is_teammate_chasing_ball());
}

#[test]
fn control_of_the_ball() {
    let mut v = view();
    assert!(!TeamOperationsImpl::new(&v).is_control_ball());
    // The man on it decides, whatever else is true.
    v.owner_team = Some(1);
    assert!(TeamOperationsImpl::new(&v).is_control_ball());
    v.owner_team = Some(2);
    v.teammate_much_closer = true;
    assert!(!TeamOperationsImpl::new(&v).is_control_ball());
    // Loose: one of ours much nearer it.
    v.owner_team = None;
    assert!(TeamOperationsImpl::new(&v).is_control_ball());
    v.teammate_much_closer = false;
    // Played by one of ours and travelling forward.
    v.previous_owner_team = Some(1);
    v.ball_moving = true;
    v.ball_heading_forward = true;
    assert!(TeamOperationsImpl::new(&v).is_control_ball());
    // Travelling elsewhere: only with a team-mate running onto it.
    v.ball_heading_forward = false;
    assert!(!TeamOperationsImpl::new(&v).is_control_ball());
    v.chase_candidates = vec![ChaseCandidate { moving: true, heading_to_ball: true, comparably_close: true }];
    assert!(TeamOperationsImpl::new(&v).is_control_ball());
    // Standing still, the pass counts for nothing.
    v.ball_moving = false;
    assert!(!TeamOperationsImpl::new(&v).is_control_ball());
    // Played by an opponent.
    v.ball_moving = true;
    v.previous_owner_team = Some(2);
    assert!(!TeamOperationsImpl::new(&v).is_control_ball());
}

#[test]
fn score_counts_past_a_signed_byte_wrap() {
    let mut v = view();
    v.home_goals = 200;
    v.away_goals = 0;
    // An 8-bit signed reading of 200 is -56.
    assert_eq!(TeamOperationsImpl::new(&v).score_diff(), -56);
    v.team_id = 2;
    assert_eq!(TeamOperationsImpl::new(&v).score_diff(), 56);
}
