//! Rules that move a player against his own state's wishes, applied where
//! every state's movement converges: the kick-off and the throw-in taker,
//! the restart carrier walking the ball back, the corner hold, the retreat
//! out of a keeper's area, and the shared down-injured handler.
use vstd::prelude::*;
use crate::model::{
    BallTickView, DefenderState, ForwardState, GoalkeeperState, MidfielderState, PassOriginRestart,
    PassReason, PlayerEvent, PlayerFieldPositionGroup, PlayerSide, PlayerState,
};
use crate::engagement::{BoxOccupancy, EngagementView, TackleEngagement};
use crate::exertion::{ActivityIntensity, ConditionProcessor, JadednessRule};

verus! {

/// The kick-off: the beat the taker holds it for, and the man he rolls it to.
pub struct KickoffDelivery;

/// The throw-in: the look up, the patience bound, and the release.
pub struct ThrowInDelivery;

/// Steers the taker of a restart while he carries the ball to the spot.
pub struct RestartCarry;

/// Hold the corner routine's stations until the ball comes near.
pub struct CornerHold;

/// Back out of the area of a keeper who has the ball in his hands.
pub struct KeeperReleaseSpace;

/// A player who has just gone down injured.
#[derive(Debug, Clone, Copy, PartialEq, Eq, Structural)]
pub struct CommonInjuredState {}

/// Where the throw-in taker is in his routine.
#[derive(Debug, Clone, Copy, PartialEq, Eq, Structural)]
pub enum ThrowInPhase {
    /// Still looking up.
    Scanning,
    /// Looking for a receiver; `desperate` once patience has run out, when
    /// a marked man will do.
    Picking { desperate: bool },
}

/// How strongly the corner routine holds a player to his station.
#[derive(Debug, Clone, Copy, PartialEq, Eq, Structural)]
pub enum HoldWeight {
    /// Not at all: the ball is his business.
    Released,
    /// Completely.
    Full,
    /// By how near the ball is: full far from it, released close to it.
    ByBallDistance,
}

/// One row of the live position store: a player, the end his team defends,
/// whether he is playing in goal, and whether he stands inside the penalty
/// area at that end.
#[derive(Debug, Clone, Copy, PartialEq, Eq, Structural)]
pub struct PositionEntry {
    pub player_id: u32,
    pub side: PlayerSide,
    pub is_goalkeeper: bool,
    pub in_own_area: bool,
}

/// What the keeper's-space rule reads about this player on one tick.
#[derive(Debug, Clone, Copy, PartialEq, Eq, Structural)]
pub struct KeeperSpaceView {
    /// He is down injured.
    pub injured: bool,
    /// He is playing in goal himself.
    pub is_goalkeeper: bool,
    /// He is within the support distance of the ball's holder.
    pub near_holder: bool,
    /// His side, his duty and which area he is standing in, as the
    /// engagement election reads them.
    pub engagement: EngagementView,
}

/// How a keeper's possession moves this player.
#[derive(Debug, Clone, Copy, PartialEq, Eq, Structural)]
pub enum KeeperSpaceAction {
    /// Open out to offer his own keeper, whose team defends `side`, a pass.
    OfferOutlet { side: PlayerSide },
    /// Walk out of the area of the opposing keeper, whose team defends
    /// `side`.
    Retreat { side: PlayerSide },
}

impl KickoffDelivery {
    /// How long he stands over it before he plays it, in engine ticks.
    pub const SCAN_TICKS: u64 = 40;

    /// True while this player is taking a kick-off and still has the ball.
    pub fn taking(me: u32, ball: &BallTickView) -> (r: bool)
        ensures
            r == (ball.kickoff_taker == Some(me) && ball.current_owner == Some(me)),
    {
        let taker = match ball.kickoff_taker {
            Some(id) => id == me,
            None => false,
        };
        let owner = match ball.current_owner {
            Some(id) => id == me,
            None => false,
        };
        taker && owner
    }

    /// The kick-off, once he has looked up: a pass to the agreed partner.
    /// `None` while he is still standing over it, or when nobody was
    /// agreed.
    pub fn deliver(me: u32, ball: &BallTickView) -> (r: Option<PlayerEvent>)
        ensures
            ball.ownership_duration < Self::SCAN_TICKS ==> r.is_none(),
            ball.ownership_duration >= Self::SCAN_TICKS ==> r == match ball.kickoff_partner {
                Some(p) => Some(PlayerEvent::PassTo { from: me, to: p, reason: PassReason::KickOff }),
                None => None::<PlayerEvent>,
            },
    {
        if ball.ownership_duration < Self::SCAN_TICKS {
            return None;
        }
        match ball.kickoff_partner {
            Some(p) => Some(PlayerEvent::PassTo { from: me, to: p, reason: PassReason::KickOff }),
            None => None,
        }
    }
}

impl ThrowInDelivery {
    /// How long he looks up before he throws, in engine ticks.
    pub const SCAN_TICKS: u64 = 40;
    /// After this long with the ball he takes the best man even if marked.
    pub const PATIENCE_TICKS: u64 = 350;

    /// True while this player is taking a throw-in and still has the ball,
    /// with the throw-in model switched on (`armed`).
    pub fn taking(armed: bool, me: u32, ball: &BallTickView) -> (r: bool)
        ensures
            r == (armed && ball.throw_taker == Some(me) && ball.current_owner == Some(me)),
    {
        let taker = match ball.throw_taker {
            Some(id) => id == me,
            None => false,
        };
        let owner = match ball.current_owner {
            Some(id) => id == me,
            None => false,
        };
        armed && taker && owner
    }

    pub open spec fn phase_spec(held: u64) -> ThrowInPhase {
        if held < Self::SCAN_TICKS {
            ThrowInPhase::Scanning
        } else {
            ThrowInPhase::Picking { desperate: held >= Self::PATIENCE_TICKS }
        }
    }

    /// Where he is in the routine after `held` ticks with the ball.
    pub fn phase(held: u64) -> (r: ThrowInPhase)
        ensures
            r == Self::phase_spec(held),
    {
        if held < Self::SCAN_TICKS {
            ThrowInPhase::Scanning
        } else {
            ThrowInPhase::Picking { desperate: held >= Self::PATIENCE_TICKS }
        }
    }

    /// The throw, once he has looked up: a pass to the receiver his scan
    /// picked (`picked`). `None` while he is still looking up, or when the
    /// scan found nobody.
    pub fn deliver(me: u32, held: u64, picked: Option<u32>) -> (r: Option<PlayerEvent>)
        ensures
            held < Self::SCAN_TICKS ==> r.is_none(),
            held >= Self::SCAN_TICKS ==> r == match picked {
                Some(p) => Some(PlayerEvent::PassTo { from: me, to: p, reason: PassReason::ThrowIn }),
                None => None::<PlayerEvent>,
            },
    {
        match Self::phase(held) {
            ThrowInPhase::Scanning => None,
            ThrowInPhase::Picking { .. } => match picked {
                Some(p) => Some(PlayerEvent::PassTo { from: me, to: p, reason: PassReason::ThrowIn }),
                None => None,
            },
        }
    }
}

impl RestartCarry {
    /// The station to walk to: his set-piece station while he is the one
    /// carrying the restart ball, nothing for everybody else.
    pub fn apply<T>(me: u32, ball: &BallTickView, station: Option<T>) -> (r: Option<T>)
        ensures
            r == (if ball.restart_carrier == Some(me) {
                station
            } else {
                None
            }),
    {
        let carrying = match ball.restart_carrier {
            Some(id) => id == me,
            None => false,
        };
        if !carrying {
            return None;
        }
        station
    }
}

impl CornerHold {
    pub open spec fn is_chasing_spec(state: PlayerState) -> bool {
        state == PlayerState::Defender(DefenderState::TakeBall) || state
            == PlayerState::Midfielder(MidfielderState::TakeBall) || state
            == PlayerState::Forward(ForwardState::TakeBall) || state
            == PlayerState::Goalkeeper(GoalkeeperState::TakeBall)
    }

    pub open spec fn hold_weight_spec(me: u32, state: PlayerState, committed: bool, ball: BallTickView) -> HoldWeight {
        if ball.restart_taker.is_some() {
            if ball.restart_taker == Some(me) && ball.restart_carrier != Some(me) {
                HoldWeight::Released
            } else {
                HoldWeight::Full
            }
        } else if ball.current_owner == Some(me) || committed {
            HoldWeight::Released
        } else if ball.pass_target == Some(me) || Self::is_chasing_spec(state) {
            HoldWeight::Released
        } else {
            HoldWeight::ByBallDistance
        }
    }

    /// A player in any role's take-ball state is chasing the ball.
    pub fn is_chasing(state: PlayerState) -> (r: bool)
        ensures
            r == Self::is_chasing_spec(state),
    {
        match state {
            PlayerState::Defender(DefenderState::TakeBall) => true,
            PlayerState::Midfielder(MidfielderState::TakeBall) => true,
            PlayerState::Forward(ForwardState::TakeBall) => true,
            PlayerState::Goalkeeper(GoalkeeperState::TakeBall) => true,
            _ => false,
        }
    }

    /// How strongly the routine holds him. While a restart is being
    /// fetched, everybody is held except the taker on his way out to the
    /// ball; once play is live, the man on the ball, a player mid-action,
    /// the pass's target and anybody chasing are released, and the rest are
    /// held by how far the ball is.
    pub fn hold_weight(me: u32, state: PlayerState, committed: bool, ball: &BallTickView) -> (r:
        HoldWeight)
        ensures
            r == Self::hold_weight_spec(me, state, committed, *ball),
    {
        let is_me = |o: Option<u32>| -> (b: bool)
            ensures
                b == (o == Some(me)),
            {
                match o {
                    Some(id) => id == me,
                    None => false,
                }
            };
        if ball.restart_taker.is_some() {
            let fetching = is_me(ball.restart_taker) && !is_me(ball.restart_carrier);
            return if fetching {
                HoldWeight::Released
            } else {
                HoldWeight::Full
            };
        }
        if is_me(ball.current_owner) || committed {
            return HoldWeight::Released;
        }
        if is_me(ball.pass_target) || Self::is_chasing(state) {
            return HoldWeight::Released;
        }
        HoldWeight::ByBallDistance
    }

    /// The station and the hold for this player, or `None` when the corner
    /// routine has nothing to say: no station, the ball not live from a
    /// corner, or the player released.
    pub fn apply<T>(
        me: u32,
        state: PlayerState,
        committed: bool,
        ball: &BallTickView,
        station: Option<T>,
    ) -> (r: Option<(T, HoldWeight)>)
        ensures
            r == (match station {
                Some(s) => if ball.pass_origin == PassOriginRestart::Corner && Self::hold_weight_spec(me, state, committed, *ball)
                    != HoldWeight::Released {
                    Some((s, Self::hold_weight_spec(me, state, committed, *ball)))
                } else {
                    None
                },
                None => None,
            }),
    {
        match station {
            None => None,
            Some(s) => {
                let corner = match ball.pass_origin {
                    PassOriginRestart::Corner => true,
                    _ => false,
                };
                if !corner {
                    return None;
                }
                let w = Self::hold_weight(me, state, committed, ball);
                match w {
                    HoldWeight::Released => None,
                    _ => Some((s, w)),
                }
            },
        }
    }
}

/// The first row of the position store that belongs to `id`.
pub open spec fn first_entry_of(entries: Seq<PositionEntry>, id: u32) -> Option<PositionEntry>
    decreases entries.len(),
{
    if entries.len() == 0 {
        None
    } else if entries[0].player_id == id {
        Some(entries[0])
    } else {
        first_entry_of(entries.drop_first(), id)
    }
}

/// Whether a player standing in `occupancy` is inside the area at the end
/// that `side` defends.
pub open spec fn inside_area_of(occupancy: BoxOccupancy, side: PlayerSide) -> bool {
    match side {
        PlayerSide::Left => occupancy.left,
        PlayerSide::Right => occupancy.right,
    }
}

impl KeeperReleaseSpace {
    /// A goal kick is being taken: the ball is live from one and its taker
    /// has been named.
    pub open spec fn goal_kick_spec(ball: BallTickView) -> bool {
        ball.pass_origin == PassOriginRestart::GoalKick && ball.restart_taker.is_some()
    }

    /// Whose restart or possession this is: the goal kick's taker during
    /// the run-up, else the man on the ball.
    pub open spec fn holder_spec(ball: BallTickView) -> Option<u32> {
        if Self::goal_kick_spec(ball) {
            ball.restart_taker
        } else {
            ball.current_owner
        }
    }

    pub open spec fn retreat_spec(
        v: KeeperSpaceView,
        ball: BallTickView,
        positions: Seq<PositionEntry>,
    ) -> Option<KeeperSpaceAction> {
        let dead = ball.held_in_hands || Self::goal_kick_spec(ball);
        if v.injured || v.is_goalkeeper {
            None
        } else {
            match Self::holder_spec(ball) {
                None => None,
                Some(h) => match first_entry_of(positions, h) {
                    None => None,
                    Some(e) => if !e.is_goalkeeper {
                        None
                    } else if Some(e.side) == v.engagement.side {
                        if v.near_holder {
                            Some(KeeperSpaceAction::OfferOutlet { side: e.side })
                        } else {
                            None
                        }
                    } else if !dead && !e.in_own_area {
                        None
                    } else if !inside_area_of(v.engagement.player, e.side) {
                        None
                    } else if !dead && TackleEngagement::may_engage_carrier_spec(v.engagement) {
                        None
                    } else {
                        Some(KeeperSpaceAction::Retreat { side: e.side })
                    },
                },
            }
        }
    }

    /// The first row of the live position store for `id`.
    pub fn holder_entry(positions: &Vec<PositionEntry>, id: u32) -> (r: Option<PositionEntry>)
        ensures
            r == first_entry_of(positions@, id),
    {
        let mut i: usize = 0;
        assert(positions@.skip(0) =~= positions@);
        while i < positions.len()
            invariant
                i <= positions@.len(),
                first_entry_of(positions@, id) == first_entry_of(positions@.skip(i as int), id),
            decreases positions@.len() - i,
        {
            let e = positions[i];
            assert(positions@.skip(i as int)[0] == e);
            assert(positions@.skip(i as int).drop_first() =~= positions@.skip(i as int + 1));
            if e.player_id == id {
                return Some(e);
            }
            i = i + 1;
        }
        assert(positions@.skip(i as int).len() == 0);
        None
    }

    /// How the goalkeeper's possession moves this player, or `None` when
    /// his own movement applies. Only a keeper's possession counts — the
    /// ball in his hands, a goal kick he is about to take, or a live ball
    /// at his feet. A teammate near him opens out to offer a pass. An
    /// opponent standing in the keeper's area walks out of it, except on
    /// a live ball outside that area or when the engagement election lets
    /// him challenge. Injured players and keepers are never moved.
    pub fn retreat(
        v: &KeeperSpaceView,
        ball: &BallTickView,
        positions: &Vec<PositionEntry>,
    ) -> (r: Option<KeeperSpaceAction>)
        ensures
            r == Self::retreat_spec(*v, *ball, positions@),
    {
        if v.injured || v.is_goalkeeper {
            return None;
        }
        let goal_kick = match ball.pass_origin {
            PassOriginRestart::GoalKick => ball.restart_taker.is_some(),
            _ => false,
        };
        let holder_id = if goal_kick {
            ball.restart_taker
        } else {
            ball.current_owner
        };
        let h = match holder_id {
            Some(h) => h,
            None => return None,
        };
        let e = match Self::holder_entry(positions, h) {
            Some(e) => e,
            None => return None,
        };
        if !e.is_goalkeeper {
            return None;
        }
        let same = match v.engagement.side {
            Some(s) => s == e.side,
            None => false,
        };
        if same {
            return if v.near_holder {
                Some(KeeperSpaceAction::OfferOutlet { side: e.side })
            } else {
                None
            };
        }
        let dead = ball.held_in_hands || goal_kick;
        if !dead && !e.in_own_area {
            return None;
        }
        let inside = match e.side {
            PlayerSide::Left => v.engagement.player.left,
            PlayerSide::Right => v.engagement.player.right,
        };
        if !inside {
            return None;
        }
        if !dead && TackleEngagement::may_engage_carrier(&v.engagement) {
            return None;
        }
        Some(KeeperSpaceAction::Retreat { side: e.side })
    }
}

impl CommonInjuredState {
    /// Ticks a player stays down before hobbling back into the game.
    pub const TREATMENT_TICKS: u64 = 400;

    pub open spec fn default_state_spec(group: PlayerFieldPositionGroup) -> PlayerState {
        match group {
            PlayerFieldPositionGroup::Goalkeeper => PlayerState::Goalkeeper(GoalkeeperState::Standing),
            PlayerFieldPositionGroup::Defender => PlayerState::Defender(DefenderState::Standing),
            PlayerFieldPositionGroup::Midfielder => PlayerState::Midfielder(MidfielderState::Standing),
            PlayerFieldPositionGroup::Forward => PlayerState::Forward(ForwardState::Standing),
        }
    }

    /// The role default he rejoins in: standing, in his own role.
    pub fn default_state_for(group: PlayerFieldPositionGroup) -> (r: PlayerState)
        ensures
            r == Self::default_state_spec(group),
    {
        match group {
            PlayerFieldPositionGroup::Goalkeeper => PlayerState::Goalkeeper(GoalkeeperState::Standing),
            PlayerFieldPositionGroup::Defender => PlayerState::Defender(DefenderState::Standing),
            PlayerFieldPositionGroup::Midfielder => PlayerState::Midfielder(MidfielderState::Standing),
            PlayerFieldPositionGroup::Forward => PlayerState::Forward(ForwardState::Standing),
        }
    }

    /// Stays down for the treatment window, then rejoins in his role's
    /// default state.
    pub fn process(&self, in_state_time: u64, group: PlayerFieldPositionGroup) -> (r: Option<
        PlayerState,
    >)
        ensures
            r == (if in_state_time < Self::TREATMENT_TICKS {
                None
            } else {
                Some(Self::default_state_spec(group))
            }),
    {
        if in_state_time < Self::TREATMENT_TICKS {
            return None;
        }
        Some(Self::default_state_for(group))
    }

    /// Down injured is not a rest: the role's own condition processor at
    /// the low tier, with the role's jadedness rule.
    pub fn process_conditions(&self, group: PlayerFieldPositionGroup) -> (r: (
        ConditionProcessor,
        JadednessRule,
    ))
        ensures
            r.0.intensity == ActivityIntensity::Low,
            r.1 == (if group == PlayerFieldPositionGroup::Goalkeeper {
                JadednessRule {
                    low_condition_threshold: crate::exertion::GOALKEEPER_LOW_CONDITION_THRESHOLD,
                    interval: crate::exertion::GOALKEEPER_JADEDNESS_INTERVAL,
                    increment: crate::exertion::GOALKEEPER_JADEDNESS_INCREMENT,
                }
            } else {
                JadednessRule {
                    low_condition_threshold: crate::exertion::LOW_CONDITION_THRESHOLD,
                    interval: crate::exertion::FIELD_PLAYER_JADEDNESS_INTERVAL,
                    increment: crate::exertion::JADEDNESS_INCREMENT,
                }
            }),
    {
        let processor = ConditionProcessor::new(ActivityIntensity::Low);
        let rule = match group {
            PlayerFieldPositionGroup::Goalkeeper => JadednessRule::goalkeeper(),
            _ => JadednessRule::field_player(),
        };
        (processor, rule)
    }
}

/// A player who has gone down stays down for the whole treatment window
/// and then always rejoins standing in his own role.
pub proof fn lemma_injured_rejoins_in_role(in_state_time: u64, group: PlayerFieldPositionGroup)
    ensures
        in_state_time >= CommonInjuredState::TREATMENT_TICKS ==> match CommonInjuredState::default_state_spec(group) {
            PlayerState::Goalkeeper(s) => group == PlayerFieldPositionGroup::Goalkeeper && s == GoalkeeperState::Standing,
            PlayerState::Defender(s) => group == PlayerFieldPositionGroup::Defender && s == DefenderState::Standing,
            PlayerState::Midfielder(s) => group == PlayerFieldPositionGroup::Midfielder && s == MidfielderState::Standing,
            PlayerState::Forward(s) => group == PlayerFieldPositionGroup::Forward && s == ForwardState::Standing,
            PlayerState::Injured => false,
        },
{
}

/// While a restart is being fetched, the only player the corner routine
/// releases is the taker on his way out to the ball; once he carries it
/// back, he is held too.
pub proof fn lemma_corner_fetch_releases_only_taker(
    me: u32,
    state: PlayerState,
    committed: bool,
    ball: BallTickView,
)
    requires
        ball.restart_taker.is_some(),
    ensures
        (CornerHold::hold_weight_spec(me, state, committed, ball) == HoldWeight::Released) == (
        ball.restart_taker == Some(me) && ball.restart_carrier != Some(me)),
{
}

/// A player chasing the ball in his take-ball state — whatever his role,
/// defender included — is never held to his corner station once the ball is
/// live.
pub proof fn lemma_corner_chasers_released(
    me: u32,
    state: PlayerState,
    committed: bool,
    ball: BallTickView,
)
    requires
        ball.restart_taker.is_none(),
        state == PlayerState::Defender(DefenderState::TakeBall) || state == PlayerState::Midfielder(
            MidfielderState::TakeBall,
        ) || state == PlayerState::Forward(ForwardState::TakeBall) || state == PlayerState::Goalkeeper(
            GoalkeeperState::TakeBall,
        ),
    ensures
        CornerHold::is_chasing_spec(state),
        CornerHold::hold_weight_spec(me, state, committed, ball) == HoldWeight::Released,
{
}

/// The keeper's space only ever moves outfielders who are fit: a retreat
/// is for an opponent of a goalkeeper who is standing inside that keeper's
/// area, an outlet for a teammate of one.
pub proof fn lemma_keeper_space_moves_only_the_right_men(
    v: KeeperSpaceView,
    ball: BallTickView,
    positions: Seq<PositionEntry>,
)
    ensures
        KeeperReleaseSpace::retreat_spec(v, ball, positions) is Some ==> !v.injured
            && !v.is_goalkeeper,
        KeeperReleaseSpace::retreat_spec(v, ball, positions) matches Some(
            KeeperSpaceAction::Retreat { side },
        ) ==> Some(side) != v.engagement.side && inside_area_of(v.engagement.player, side),
        KeeperReleaseSpace::retreat_spec(v, ball, positions) matches Some(
            KeeperSpaceAction::OfferOutlet { side },
        ) ==> Some(side) == v.engagement.side && v.near_holder,
{
}

/// A keeper with the ball in his hands cannot be challenged, so every fit
/// opponent inside his area walks out, whatever the engagement election
/// says.
pub proof fn lemma_held_ball_clears_opponents_from_area(
    v: KeeperSpaceView,
    ball: BallTickView,
    positions: Seq<PositionEntry>,
    keeper: PositionEntry,
)
    requires
        ball.held_in_hands,
        KeeperReleaseSpace::holder_spec(ball) == Some(keeper.player_id),
        first_entry_of(positions, keeper.player_id) == Some(keeper),
        keeper.is_goalkeeper,
        Some(keeper.side) != v.engagement.side,
        inside_area_of(v.engagement.player, keeper.side),
        !v.injured,
        !v.is_goalkeeper,
    ensures
        KeeperReleaseSpace::retreat_spec(v, ball, positions) == Some(
            KeeperSpaceAction::Retreat { side: keeper.side },
        ),
{
}

/// On a live ball at a keeper's feet the tackle election stands: an
/// opponent it lets challenge the carrier is left to do so.
pub proof fn lemma_live_ball_respects_engagement(
    v: KeeperSpaceView,
    ball: BallTickView,
    positions: Seq<PositionEntry>,
)
    requires
        !ball.held_in_hands,
        !KeeperReleaseSpace::goal_kick_spec(ball),
        TackleEngagement::may_engage_carrier_spec(v.engagement),
    ensures
        !(KeeperReleaseSpace::retreat_spec(v, ball, positions) matches Some(
            KeeperSpaceAction::Retreat { .. },
        )),
{
}

} // verus!
