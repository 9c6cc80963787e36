//! Team-level reads one player makes: the score from his side, whether his
//! side has the ball or has just lost it, whether to keep possession, and
//! who should go for a loose ball.
use vstd::prelude::*;
use crate::model::PlayerSide;

verus! {

/// A team's tactical set-up, as far as these rules need to tell two apart.
#[derive(Debug, Clone, Copy, PartialEq, Eq, Structural)]
pub struct Tactics {
    pub id: u32,
}

/// The coach's standing instruction.
#[derive(Debug, Clone, Copy, PartialEq, Eq, Structural)]
pub struct CoachInstruction {
    /// Keep the ball rather than force play forward.
    pub prefer_possession: bool,
}

impl CoachInstruction {
    /// Whether the instruction asks for possession play.
    pub fn prefer_possession(&self) -> (r: bool)
        ensures
            r == self.prefer_possession,
    {
        self.prefer_possession
    }
}

/// What the touchline knows about one team.
#[derive(Debug, Clone, Copy, PartialEq, Eq, Structural)]
pub struct MatchCoach {
    pub instruction: CoachInstruction,
    /// The tick on which the team last won the ball.
    pub last_possession_gain_tick: u64,
    /// Whether the coach's shot discipline allows a shot on the current tick.
    pub allows_shot: bool,
}

/// The phase of play a team is in.
#[derive(Debug, Clone, Copy, PartialEq, Eq, Structural)]
pub enum GamePhase {
    Attacking,
    Defending,
    Transition,
}

/// A team's live tactical state.
#[derive(Debug, Clone, Copy, PartialEq, Eq, Structural)]
pub struct TeamTacticalState {
    pub phase: GamePhase,
}

/// A team-mate as "is the attack ready" sees him.
#[derive(Debug, Clone, Copy, PartialEq, Eq, Structural)]
pub struct AttackCandidate {
    /// A forward or a midfielder.
    pub attacker: bool,
    /// Within striking range of the opponents' goal.
    pub near_goal: bool,
    /// An opponent is touch-tight on him.
    pub closely_marked: bool,
}

/// A team-mate as "is somebody already chasing" sees him.
#[derive(Debug, Clone, Copy, PartialEq, Eq, Structural)]
pub struct ChaseCandidate {
    /// Moving at all.
    pub moving: bool,
    /// Running straight at the ball.
    pub heading_to_ball: bool,
    /// Not much further from the ball than this player.
    pub comparably_close: bool,
}

/// A team-mate as the chase election sees him.
#[derive(Debug, Clone, Copy, PartialEq, Eq, Structural)]
pub struct ChaseRival {
    /// No further from the ball than this player.
    pub no_further: bool,
    /// His skills are on record.
    pub known: bool,
    /// His pace-adjusted score clearly beats this player's.
    pub clearly_better: bool,
}

/// Everything the team reads for one player on one tick.
#[derive(Debug, Clone, PartialEq, Eq)]
pub struct TeamView {
    pub player_id: u32,
    pub team_id: u32,
    pub side: Option<PlayerSide>,
    /// The team listed at home on the pitch.
    pub field_home_team_id: u32,
    /// The team the scoreline lists at home.
    pub score_home_team_id: u32,
    pub home_goals: u8,
    pub away_goals: u8,
    pub tactics_left: Tactics,
    pub tactics_right: Tactics,
    pub coach: MatchCoach,
    pub tactical: TeamTacticalState,
    pub current_tick: u64,
    pub total_match_time_ms: u64,
    pub half_time_ms: u64,
    /// The team of the ball's previous owner, when he is on record.
    pub previous_owner_team: Option<u32>,
    /// The ball is travelling rather than rolling to a stop.
    pub ball_moving: bool,
    /// It is travelling toward the goal this team attacks.
    pub ball_heading_forward: bool,
    /// The team-mate nearest the ball is well inside the nearest opponent's
    /// distance from it (under seven tenths of it).
    pub teammate_much_closer: bool,
    /// The team of the ball's last owner, when he is on record.
    pub last_owner_team: Option<u32>,
    /// The team of the ball's current owner, when there is one on record.
    pub owner_team: Option<u32>,
    pub ownership_duration: u64,
    /// Condition percentages of the team-mates near him.
    pub nearby_conditions: Vec<u32>,
    pub attack_candidates: Vec<AttackCandidate>,
    pub chase_candidates: Vec<ChaseCandidate>,
    pub chase_rivals: Vec<ChaseRival>,
}

/// The team-level reads for one player.
pub struct TeamOperationsImpl<'a> {
    pub view: &'a TeamView,
}

/// A goal count as an 8-bit signed reading takes it: counts past 127 wrap
/// round to negative values.
pub open spec fn signed_goals(g: u8) -> int {
    if g <= 127 {
        g as int
    } else {
        g as int - 256
    }
}

pub open spec fn score_diff_spec(v: TeamView) -> int {
    if v.team_id == v.field_home_team_id {
        signed_goals(v.home_goals) - signed_goals(v.away_goals)
    } else {
        signed_goals(v.away_goals) - signed_goals(v.home_goals)
    }
}

/// The goal difference fits the signed byte it is reported in.
pub open spec fn score_diff_fits(v: TeamView) -> bool {
    -128 <= score_diff_spec(v) <= 127
}

pub open spec fn is_loosing_spec(v: TeamView) -> bool {
    if v.team_id == v.score_home_team_id {
        v.home_goals < v.away_goals
    } else {
        v.away_goals < v.home_goals
    }
}

pub open spec fn sum_seq(s: Seq<u32>) -> int
    decreases s.len(),
{
    if s.len() == 0 {
        0
    } else {
        sum_seq(s.drop_last()) + s.last()
    }
}

/// The nearby team-mates are tired on average: more than none of them, and
/// their mean condition (rounded down) below `limit` percent.
pub open spec fn tired_on_average(s: Seq<u32>, limit: int) -> bool {
    s.len() > 0 && sum_seq(s) / (s.len() as int) < limit
}

pub open spec fn teammate_chasing_spec(v: TeamView) -> bool {
    exists|i: int|
        0 <= i < v.chase_candidates@.len() && #[trigger] v.chase_candidates@[i].moving
            && v.chase_candidates@[i].heading_to_ball && v.chase_candidates@[i].comparably_close
}

pub open spec fn control_ball_spec(v: TeamView) -> bool {
    match v.owner_team {
        Some(t) => t == v.team_id,
        None => (v.previous_owner_team == Some(v.team_id) && v.ball_moving && (
        v.ball_heading_forward || teammate_chasing_spec(v))) || v.teammate_much_closer,
    }
}

pub open spec fn attack_ready_spec(c: Seq<AttackCandidate>) -> bool {
    exists|i: int| 0 <= i < c.len() && #[trigger] c[i].attacker && c[i].near_goal && !c[i].closely_marked
}

pub open spec fn late_in_match(t: int, half: int) -> bool {
    t * 25 > half * 2 * 22
}

pub open spec fn ticks_since_gain(v: TeamView) -> int {
    if v.current_tick >= v.coach.last_possession_gain_tick {
        v.current_tick - v.coach.last_possession_gain_tick
    } else {
        0
    }
}

/// The possession decision gets as far as reading the goal difference: no
/// earlier reason has settled it and the match is late.
pub open spec fn possession_reads_score(v: TeamView) -> bool {
    &&& !v.coach.instruction.prefer_possession
    &&& !(ticks_since_gain(v) < 300 && control_ball_spec(v))
    &&& !tired_on_average(v.nearby_conditions@, 50)
    &&& late_in_match(v.total_match_time_ms as int, v.half_time_ms as int)
}

pub open spec fn should_play_possession_spec(v: TeamView) -> bool {
    if v.coach.instruction.prefer_possession {
        true
    } else if ticks_since_gain(v) < 300 && control_ball_spec(v) {
        true
    } else if tired_on_average(v.nearby_conditions@, 50) {
        true
    } else if late_in_match(v.total_match_time_ms as int, v.half_time_ms as int) && score_diff_spec(v)
        >= 0 {
        true
    } else {
        !attack_ready_spec(v.attack_candidates@)
    }
}

/// Sums a sequence of counts into a 128-bit total, which no sequence that
/// fits in memory can overflow.
pub fn sum_counts(s: &Vec<u32>) -> (r: u128)
    ensures
        r == sum_seq(s@),
{
    let len = s.len();
    assert(len as int <= u64::MAX);
    let mut total: u128 = 0;
    let mut i: usize = 0;
    while i < s.len()
        invariant
            i <= s@.len(),
            s@.len() <= u64::MAX,
            total == sum_seq(s@.take(i as int)),
            total <= i * (u32::MAX as int),
        decreases s@.len() - i,
    {
        assert(s@.take(i as int + 1).drop_last() =~= s@.take(i as int));
        assert((i + 1) * (u32::MAX as int) <= u64::MAX * (u32::MAX as int)) by (nonlinear_arith)
            requires
                i + 1 <= u64::MAX,
        ;
        assert((i + 1) * (u32::MAX as int) == i * (u32::MAX as int) + u32::MAX) by (nonlinear_arith);
        total = total + s[i] as u128;
        i = i + 1;
    }
    assert(s@.take(i as int) =~= s@);
    total
}

/// A goal count read as a signed byte: see [`signed_goals`].
fn signed_goal_count(g: u8) -> (r: i16)
    ensures
        r == signed_goals(g),
{
    if g <= 127 {
        g as i16
    } else {
        g as i16 - 256
    }
}

/// Whether the mean of the given condition percentages (rounded down) is
/// below `limit`; false for an empty list.
pub fn average_below(s: &Vec<u32>, limit: u64) -> (r: bool)
    ensures
        r == tired_on_average(s@, limit as int),
{
    if s.len() == 0 {
        return false;
    }
    let total = sum_counts(s);
    total / (s.len() as u128) < limit as u128
}

impl<'a> TeamOperationsImpl<'a> {
    /// The reads for the player `view` describes.
    pub fn new(view: &'a TeamView) -> (r: TeamOperationsImpl<'a>)
        ensures
            r.view == view,
    {
        TeamOperationsImpl { view }
    }

    /// The tactics of this player's team, chosen by the end it attacks from.
    pub fn tactics(&self) -> (r: &'a Tactics)
        requires
            self.view.side.is_some(),
        ensures
            *r == (if self.view.side == Some(PlayerSide::Left) {
                self.view.tactics_left
            } else {
                self.view.tactics_right
            }),
    {
        match self.view.side {
            Some(PlayerSide::Left) => &self.view.tactics_left,
            _ => &self.view.tactics_right,
        }
    }

    /// The coach's standing instruction.
    pub fn coach_instruction(&self) -> (r: CoachInstruction)
        ensures
            r == self.view.coach.instruction,
    {
        self.coach().instruction
    }

    /// This team's coach.
    pub fn coach(&self) -> (r: &'a MatchCoach)
        ensures
            *r == self.view.coach,
    {
        &self.view.coach
    }

    /// This team's tactical state.
    pub fn tactical(&self) -> (r: &'a TeamTacticalState)
        ensures
            *r == self.view.tactical,
    {
        &self.view.tactical
    }

    /// The phase of play this team is in.
    pub fn phase(&self) -> (r: GamePhase)
        ensures
            r == self.view.tactical.phase,
    {
        self.tactical().phase
    }

    /// Is any forward or midfielder near the opponents' goal without a
    /// man touch-tight on him?
    pub fn is_attack_ready(&self) -> (r: bool)
        ensures
            r == attack_ready_spec(self.view.attack_candidates@),
    {
        let c = &self.view.attack_candidates;
        let mut i: usize = 0;
        while i < c.len()
            invariant
                i <= c@.len(),
                c@ == self.view.attack_candidates@,
                forall|j: int|
                    0 <= j < i ==> !(#[trigger] c@[j].attacker && c@[j].near_goal
                        && !c@[j].closely_marked),
            decreases c@.len() - i,
        {
            let t = c[i];
            if t.attacker && t.near_goal && !t.closely_marked {
                assert(c@[i as int].attacker && c@[i as int].near_goal && !c@[i as int].closely_marked);
                return true;
            }
            i = i + 1;
        }
        false
    }

    /// Keep the ball rather than force it: the coach asks for it; the team
    /// has only just won it back and has it; the men around him are tired;
    /// it is late and the team is not behind; or the attack is not ready.
    pub fn should_play_possession(&self) -> (r: bool)
        requires
            possession_reads_score(*self.view) ==> score_diff_fits(*self.view),
        ensures
            r == should_play_possession_spec(*self.view),
    {
        if self.coach_instruction().prefer_possession() {
            return true;
        }
        let ticks_since_gain = self.view.current_tick.saturating_sub(
            self.coach().last_possession_gain_tick,
        );
        if ticks_since_gain < 300 && self.is_control_ball() {
            return true;
        }
        if average_below(&self.view.nearby_conditions, 50) {
            return true;
        }
        let late = (self.view.total_match_time_ms as u128) * 25 > (self.view.half_time_ms as u128)
            * 2 * 22;
        if late && self.score_diff() >= 0 {
            return true;
        }
        !self.is_attack_ready()
    }

    /// Whether the coach's shot discipline allows a shot now.
    pub fn can_shoot(&self) -> (r: bool)
        ensures
            r == self.view.coach.allows_shot,
    {
        self.coach().allows_shot
    }

    /// Goals for minus goals against, from this player's side.
    pub fn score_diff(&self) -> (r: i8)
        requires
            score_diff_fits(*self.view),
        ensures
            r == score_diff_spec(*self.view),
    {
        let home = signed_goal_count(self.view.home_goals);
        let away = signed_goal_count(self.view.away_goals);
        let diff: i16 = if self.view.team_id == self.view.field_home_team_id {
            home - away
        } else {
            away - home
        };
        diff as i8
    }

    /// The team lost the ball a moment ago: it does not have it now, the
    /// last owner was one of ours, and the new owner has had it under 30
    /// ticks.
    pub fn has_just_lost_possession(&self) -> (r: bool)
        ensures
            r == (!control_ball_spec(*self.view) && self.view.last_owner_team == Some(
                self.view.team_id,
            ) && self.view.ownership_duration < 30),
    {
        if self.is_control_ball() {
            return false;
        }
        match self.view.last_owner_team {
            Some(t) => {
                if t == self.view.team_id {
                    return self.view.ownership_duration < 30;
                }
                false
            },
            None => false,
        }
    }

    /// Not losing: a draw counts.
    pub fn is_leading(&self) -> (r: bool)
        ensures
            r == !is_loosing_spec(*self.view),
    {
        !self.is_loosing()
    }

    /// Behind on the scoreline.
    pub fn is_loosing(&self) -> (r: bool)
        ensures
            r == is_loosing_spec(*self.view),
    {
        if self.view.team_id == self.view.score_home_team_id {
            self.view.home_goals < self.view.away_goals
        } else {
            self.view.away_goals < self.view.home_goals
        }
    }

    /// Does this team have the ball, or as good as? One of ours on it
    /// decides, either way. With nobody on it: one of ours played it last
    /// and it is still travelling, toward the goal we attack or with a
    /// team-mate running onto it; or one of ours is much nearer it than
    /// any opponent.
    pub fn is_control_ball(&self) -> (r: bool)
        ensures
            r == control_ball_spec(*self.view),
    {
        match self.view.owner_team {
            Some(t) => {
                return t == self.view.team_id;
            },
            None => {},
        }
        let ours_last = match self.view.previous_owner_team {
            Some(t) => t == self.view.team_id,
            None => false,
        };
        if ours_last && self.view.ball_moving {
            if self.view.ball_heading_forward {
                return true;
            }
            if self.is_teammate_chasing_ball() {
                return true;
            }
        }
        self.view.teammate_much_closer
    }

    /// Is a team-mate already running at the ball, from no further away
    /// than this player?
    pub fn is_teammate_chasing_ball(&self) -> (r: bool)
        ensures
            r == teammate_chasing_spec(*self.view),
    {
        let c = &self.view.chase_candidates;
        let mut i: usize = 0;
        while i < c.len()
            invariant
                i <= c@.len(),
                c@ == self.view.chase_candidates@,
                forall|j: int|
                    0 <= j < i ==> !(#[trigger] c@[j].moving && c@[j].heading_to_ball
                        && c@[j].comparably_close),
            decreases c@.len() - i,
        {
            let t = c[i];
            if t.moving && t.heading_to_ball && t.comparably_close {
                assert(c@[i as int].moving && c@[i as int].heading_to_ball);
                return true;
            }
            i = i + 1;
        }
        false
    }

    /// The chase election: never while one of ours has the ball; otherwise
    /// this player, unless a team-mate no further from the ball clearly
    /// beats his score.
    pub fn is_best_player_to_chase_ball(&self) -> (r: bool)
        ensures
            r == (self.view.owner_team != Some(self.view.team_id) && !exists|i: int|
                0 <= i < self.view.chase_rivals@.len() && #[trigger] self.view.chase_rivals@[i].no_further
                    && self.view.chase_rivals@[i].known
                    && self.view.chase_rivals@[i].clearly_better),
    {
        match self.view.owner_team {
            Some(t) => {
                if t == self.view.team_id {
                    return false;
                }
            },
            None => {},
        }
        let c = &self.view.chase_rivals;
        let mut i: usize = 0;
        while i < c.len()
            invariant
                i <= c@.len(),
                c@ == self.view.chase_rivals@,
                self.view.owner_team != Some(self.view.team_id),
                forall|j: int|
                    0 <= j < i ==> !(#[trigger] c@[j].no_further && c@[j].known
                        && c@[j].clearly_better),
            decreases c@.len() - i,
        {
            let t = c[i];
            if t.no_further && t.known && t.clearly_better {
                assert(c@[i as int].no_further && c@[i as int].known);
                return false;
            }
            i = i + 1;
        }
        true
    }
}

/// Whoever is on the ball decides who controls it: one of ours means we
/// do, an opponent means we do not.
pub proof fn lemma_control_follows_the_owner(v: TeamView)
    ensures
        v.owner_team == Some(v.team_id) ==> control_ball_spec(v),
        (v.owner_team matches Some(t) && t != v.team_id) ==> !control_ball_spec(v),
{
}

/// Keeping the ball because it has just been won lasts 300 ticks. A team
/// on the ball with no instruction to keep it, nobody tired around him,
/// not late in the match and the attack ready plays forward once its last
/// possession gain is 300 ticks old — and within those 300 ticks keeps the
/// ball, whatever the attack.
pub proof fn lemma_won_ball_window_lasts_300_ticks(v: TeamView)
    requires
        v.owner_team == Some(v.team_id),
        !v.coach.instruction.prefer_possession,
        v.nearby_conditions@.len() == 0,
        v.total_match_time_ms * 25 <= v.half_time_ms * 44,
    ensures
        (v.current_tick >= v.coach.last_possession_gain_tick + 300 && exists|i: int|
            0 <= i < v.attack_candidates@.len() && #[trigger] v.attack_candidates@[i].attacker
                && v.attack_candidates@[i].near_goal && !v.attack_candidates@[i].closely_marked)
            ==> !should_play_possession_spec(v),
        (v.current_tick < v.coach.last_possession_gain_tick + 300) ==> should_play_possession_spec(v),
{
}

/// Each reason to keep the ball is enough on its own: the coach asks for
/// it; the team has the ball within 300 ticks of winning it; the men
/// around him average under half condition; or past 88% of the match the
/// team is not behind. With none of them, it keeps the ball exactly when
/// no attacker is free near goal.
pub proof fn lemma_possession_reasons(v: TeamView)
    ensures
        v.coach.instruction.prefer_possession ==> should_play_possession_spec(v),
        v.current_tick >= v.coach.last_possession_gain_tick && v.current_tick
            < v.coach.last_possession_gain_tick + 300 && v.owner_team == Some(v.team_id)
            ==> should_play_possession_spec(v),
        v.nearby_conditions@.len() > 0 && sum_seq(v.nearby_conditions@) < 50
            * v.nearby_conditions@.len() ==> should_play_possession_spec(v),
        v.total_match_time_ms * 25 > v.half_time_ms * 44 && score_diff_spec(v) >= 0
            ==> should_play_possession_spec(v),
        !v.coach.instruction.prefer_possession && !(ticks_since_gain(v) < 300 && control_ball_spec(
            v,
        )) && v.nearby_conditions@.len() == 0 && v.total_match_time_ms * 25 <= v.half_time_ms * 44
            ==> (should_play_possession_spec(v) <==> !exists|i: int|
            0 <= i < v.attack_candidates@.len() && #[trigger] v.attack_candidates@[i].attacker
                && v.attack_candidates@[i].near_goal && !v.attack_candidates@[i].closely_marked),
{
    let n = v.nearby_conditions@.len() as int;
    let t = sum_seq(v.nearby_conditions@);
    if n > 0 && t < 50 * n {
        assert(t / n < 50) by (nonlinear_arith)
            requires
                n > 0,
                t < 50 * n,
        ;
    }
}

/// The scoreline read from the two sides is opposite: one team's goal
/// difference is the other's negated.
pub proof fn lemma_score_diff_antisymmetric(a: TeamView, b: TeamView)
    requires
        a.field_home_team_id == b.field_home_team_id,
        a.home_goals == b.home_goals,
        a.away_goals == b.away_goals,
        a.team_id == a.field_home_team_id,
        b.team_id != b.field_home_team_id,
    ensures
        score_diff_spec(a) == -score_diff_spec(b),
{
}

/// When the scoreline and the pitch agree on who is at home, a team is
/// losing exactly when its goal difference is negative (for counts that a
/// signed byte reads as they are).
pub proof fn lemma_loosing_iff_negative_diff(v: TeamView)
    requires
        v.score_home_team_id == v.field_home_team_id,
        v.home_goals <= 127,
        v.away_goals <= 127,
    ensures
        is_loosing_spec(v) == (score_diff_spec(v) < 0),
{
}

/// A coach who asks for possession always gets it, and a side that is not
/// behind late in the match always plays for possession.
pub proof fn lemma_possession_when_asked_or_late(v: TeamView)
    ensures
        v.coach.instruction.prefer_possession ==> should_play_possession_spec(v),
        late_in_match(v.total_match_time_ms as int, v.half_time_ms as int) && score_diff_spec(v) >= 0
            ==> should_play_possession_spec(v),
{
}

} // verus!
