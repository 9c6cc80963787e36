//! The vocabulary every rule is written in: sides, position groups, team
//! duties, the per-role state enums and the events a state can emit.
use vstd::prelude::*;

verus! {

/// Which end a team attacks from.
#[derive(Debug, Clone, Copy, PartialEq, Eq, Structural)]
pub enum PlayerSide {
    Left,
    Right,
}

impl PlayerSide {
    pub open spec fn opposite_spec(self) -> PlayerSide {
        match self {
            PlayerSide::Left => PlayerSide::Right,
            PlayerSide::Right => PlayerSide::Left,
        }
    }

    /// The other end of the pitch.
    pub fn opposite(self) -> (r: PlayerSide)
        ensures
            r == self.opposite_spec(),
            r != self,
    {
        match self {
            PlayerSide::Left => PlayerSide::Right,
            PlayerSide::Right => PlayerSide::Left,
        }
    }
}

/// The four lines of a team.
#[derive(Debug, Clone, Copy, PartialEq, Eq, Structural)]
pub enum PlayerFieldPositionGroup {
    Goalkeeper,
    Defender,
    Midfielder,
    Forward,
}

/// The job the team's defensive plan has given a player this tick.
#[derive(Debug, Clone, Copy, PartialEq, Eq, Structural)]
pub enum DefensiveDuty {
    /// The one engager the plan nominates against the carrier.
    Press,
    /// The second body, goal-side of the presser.
    Cover,
    /// Any other duty (marking a man, holding a zone, nothing at all).
    Other,
}

/// A defender's part in the defence of the current carrier.
#[derive(Debug, Clone, Copy, PartialEq, Eq, Structural)]
pub enum DefensiveRole {
    /// The man who goes to him.
    Primary,
    /// The man behind the primary.
    Cover,
    /// Picks up the nearest threat.
    Help,
    /// Holds his position.
    Hold,
}

/// Every state a defender can be in.
#[derive(Debug, Clone, Copy, PartialEq, Eq, Structural)]
pub enum DefenderState {
    Standing,
    Covering,
    PushingUp,
    Resting,
    Passing,
    Running,
    Intercepting,
    Marking,
    Clearing,
    Heading,
    Tackling,
    Pressing,
    TrackingBack,
    HoldingLine,
    Returning,
    Walking,
    TakeBall,
    Shooting,
    Guarding,
    AttackingCorner,
    Blocking,
    Overlapping,
}

/// The states of a midfielder that the shared rules look at.
#[derive(Debug, Clone, Copy, PartialEq, Eq, Structural)]
pub enum MidfielderState {
    Standing,
    TakeBall,
    HoldingWidth,
    /// Any other midfielder state.
    Other,
}

/// The states of a forward that the shared rules look at.
#[derive(Debug, Clone, Copy, PartialEq, Eq, Structural)]
pub enum ForwardState {
    Standing,
    TakeBall,
    HoldingWidth,
    /// Any other forward state.
    Other,
}

/// The states of a goalkeeper that the shared rules look at.
#[derive(Debug, Clone, Copy, PartialEq, Eq, Structural)]
pub enum GoalkeeperState {
    Standing,
    TakeBall,
    /// Any other goalkeeper state.
    Other,
}

/// A player's state, whatever his role.
#[derive(Debug, Clone, Copy, PartialEq, Eq, Structural)]
pub enum PlayerState {
    Goalkeeper(GoalkeeperState),
    Defender(DefenderState),
    Midfielder(MidfielderState),
    Forward(ForwardState),
    Injured,
}

/// Why a pass was played, as the event log records it.
#[derive(Debug, Clone, Copy, PartialEq, Eq, Structural)]
pub enum PassReason {
    KickOff,
    ThrowIn,
    DefenderEmergencyPass,
    DefenderBuildupShort,
    DefenderBuildupLong,
    DefenderCounterAttack,
    DefenderPassingUnderPressure,
    DefenderPassingTiredShort,
    DefenderPassingNormal,
    DefenderPassingTimeout,
    DefenderOverlapCross,
}

/// What kind of strike a shot event is.
#[derive(Debug, Clone, Copy, PartialEq, Eq, Structural)]
pub enum ShotKind {
    /// A shot with the feet.
    Normal,
    /// A header from an attacking corner.
    CornerHeader,
    /// A header aimed at goal.
    HeaderOnGoal,
    /// A headed clearance.
    HeadedClearance,
}

/// How serious a foul is.
#[derive(Debug, Clone, Copy, PartialEq, Eq, Structural)]
pub enum FoulSeverity {
    Normal,
    Reckless,
    Violent,
}

/// What a state hands to the event system alongside its transition.
#[derive(Debug, Clone, Copy, PartialEq, Eq, Structural)]
pub enum PlayerEvent {
    /// `from` plays the ball to `to`.
    PassTo { from: u32, to: u32, reason: PassReason },
    /// The player claims a loose ball (a blocked shot, an interception).
    ClaimBall(u32),
    /// The player strikes the ball at goal or away.
    Shoot { player: u32, kind: ShotKind },
    /// The player clears the ball; its flight is worked out by the caller.
    ClearBall(u32),
    /// The player wins the ball with a tackle.
    TacklingBall(u32),
    /// The player comes away with the ball.
    GainBall(u32),
    /// The player commits a foul of the given severity.
    CommitFoul(u32, FoulSeverity),
}

/// A state transition of a defender, with the event it emits, if any.
#[derive(Debug, Clone, Copy, PartialEq, Eq, Structural)]
pub struct DefenderTransition {
    pub state: DefenderState,
    pub event: Option<PlayerEvent>,
}

impl DefenderTransition {
    pub open spec fn to(state: DefenderState) -> DefenderTransition {
        DefenderTransition { state, event: None }
    }

    /// A plain change of state, with no event.
    pub fn with_state(state: DefenderState) -> (r: DefenderTransition)
        ensures
            r == DefenderTransition::to(state),
    {
        DefenderTransition { state, event: None }
    }

    /// A change of state that also emits `event`.
    pub fn with_event(state: DefenderState, event: PlayerEvent) -> (r: DefenderTransition)
        ensures
            r.state == state,
            r.event == Some(event),
    {
        DefenderTransition { state, event: Some(event) }
    }
}

/// How far a player has drifted from his starting position.
#[derive(Debug, Clone, Copy, PartialEq, Eq, Structural)]
pub enum PlayerDistanceFromStartPosition {
    Small,
    Medium,
    Big,
}

/// The restart the ball was last played from.
#[derive(Debug, Clone, Copy, PartialEq, Eq, Structural)]
pub enum PassOriginRestart {
    Corner,
    GoalKick,
    /// Open play or any other restart.
    Other,
}

/// What the dispatcher knows about the ball on one tick: who has it, who is
/// taking or carrying a restart, who a pass is meant for.
#[derive(Debug, Clone, Copy, PartialEq, Eq, Structural)]
pub struct BallTickView {
    pub current_owner: Option<u32>,
    pub kickoff_taker: Option<u32>,
    pub kickoff_partner: Option<u32>,
    pub throw_taker: Option<u32>,
    pub restart_taker: Option<u32>,
    pub restart_carrier: Option<u32>,
    pub pass_target: Option<u32>,
    /// How many ticks the current owner has had the ball.
    pub ownership_duration: u64,
    /// The goalkeeper has the ball in his hands.
    pub held_in_hands: bool,
    /// The restart the ball is live from.
    pub pass_origin: PassOriginRestart,
}

/// Every defender state in declared order — the state universe.
pub const DEFENDER_STATE_COUNT: usize = 22;

impl DefenderState {
    /// The stable small number that identifies a state in logs and
    /// snapshots: its position in the declared order.
    pub open spec fn compact_id_spec(self) -> nat {
        match self {
            DefenderState::Standing => 0,
            DefenderState::Covering => 1,
            DefenderState::PushingUp => 2,
            DefenderState::Resting => 3,
            DefenderState::Passing => 4,
            DefenderState::Running => 5,
            DefenderState::Intercepting => 6,
            DefenderState::Marking => 7,
            DefenderState::Clearing => 8,
            DefenderState::Heading => 9,
            DefenderState::Tackling => 10,
            DefenderState::Pressing => 11,
            DefenderState::TrackingBack => 12,
            DefenderState::HoldingLine => 13,
            DefenderState::Returning => 14,
            DefenderState::Walking => 15,
            DefenderState::TakeBall => 16,
            DefenderState::Shooting => 17,
            DefenderState::Guarding => 18,
            DefenderState::AttackingCorner => 19,
            DefenderState::Blocking => 20,
            DefenderState::Overlapping => 21,
        }
    }

    pub open spec fn all_spec() -> Seq<DefenderState> {
        seq![
            DefenderState::Standing,
            DefenderState::Covering,
            DefenderState::PushingUp,
            DefenderState::Resting,
            DefenderState::Passing,
            DefenderState::Running,
            DefenderState::Intercepting,
            DefenderState::Marking,
            DefenderState::Clearing,
            DefenderState::Heading,
            DefenderState::Tackling,
            DefenderState::Pressing,
            DefenderState::TrackingBack,
            DefenderState::HoldingLine,
            DefenderState::Returning,
            DefenderState::Walking,
            DefenderState::TakeBall,
            DefenderState::Shooting,
            DefenderState::Guarding,
            DefenderState::AttackingCorner,
            DefenderState::Blocking,
            DefenderState::Overlapping,
        ]
    }

    /// The state's compact identifier.
    pub fn compact_id(self) -> (r: u8)
        ensures
            r as nat == self.compact_id_spec(),
    {
        match self {
            DefenderState::Standing => 0,
            DefenderState::Covering => 1,
            DefenderState::PushingUp => 2,
            DefenderState::Resting => 3,
            DefenderState::Passing => 4,
            DefenderState::Running => 5,
            DefenderState::Intercepting => 6,
            DefenderState::Marking => 7,
            DefenderState::Clearing => 8,
            DefenderState::Heading => 9,
            DefenderState::Tackling => 10,
            DefenderState::Pressing => 11,
            DefenderState::TrackingBack => 12,
            DefenderState::HoldingLine => 13,
            DefenderState::Returning => 14,
            DefenderState::Walking => 15,
            DefenderState::TakeBall => 16,
            DefenderState::Shooting => 17,
            DefenderState::Guarding => 18,
            DefenderState::AttackingCorner => 19,
            DefenderState::Blocking => 20,
            DefenderState::Overlapping => 21,
        }
    }

    /// Every variant, in declared order.
    pub fn all() -> (r: Vec<DefenderState>)
        ensures
            r@ == DefenderState::all_spec(),
    {
        let r = vec![
            DefenderState::Standing,
            DefenderState::Covering,
            DefenderState::PushingUp,
            DefenderState::Resting,
            DefenderState::Passing,
            DefenderState::Running,
            DefenderState::Intercepting,
            DefenderState::Marking,
            DefenderState::Clearing,
            DefenderState::Heading,
            DefenderState::Tackling,
            DefenderState::Pressing,
            DefenderState::TrackingBack,
            DefenderState::HoldingLine,
            DefenderState::Returning,
            DefenderState::Walking,
            DefenderState::TakeBall,
            DefenderState::Shooting,
            DefenderState::Guarding,
            DefenderState::AttackingCorner,
            DefenderState::Blocking,
            DefenderState::Overlapping,
        ];
        assert(r@ =~= DefenderState::all_spec());
        r
    }

    pub open spec fn name_spec(self) -> Seq<char> {
        match self {
            DefenderState::Standing => "Standing"@,
            DefenderState::Resting => "Resting"@,
            DefenderState::Passing => "Passing"@,
            DefenderState::Intercepting => "Intercepting"@,
            DefenderState::Marking => "Marking"@,
            DefenderState::Clearing => "Clearing"@,
            DefenderState::Heading => "Heading"@,
            DefenderState::Pressing => "Pressing"@,
            DefenderState::TrackingBack => "Tracking Back"@,
            DefenderState::HoldingLine => "Holding Line"@,
            DefenderState::Running => "Running"@,
            DefenderState::Returning => "Returning"@,
            DefenderState::Walking => "Walking"@,
            DefenderState::Tackling => "Tackling"@,
            DefenderState::Covering => "Covering"@,
            DefenderState::PushingUp => "Pushing Up"@,
            DefenderState::TakeBall => "Take Ball"@,
            DefenderState::Shooting => "Shooting"@,
            DefenderState::Guarding => "Guarding"@,
            DefenderState::AttackingCorner => "Attacking Corner"@,
            DefenderState::Blocking => "Blocking"@,
            DefenderState::Overlapping => "Overlapping"@,
        }
    }

    /// The display name of the state.
    pub fn name(self) -> (r: &'static str)
        ensures
            r@ == self.name_spec(),
    {
        match self {
            DefenderState::Standing => "Standing",
            DefenderState::Resting => "Resting",
            DefenderState::Passing => "Passing",
            DefenderState::Intercepting => "Intercepting",
            DefenderState::Marking => "Marking",
            DefenderState::Clearing => "Clearing",
            DefenderState::Heading => "Heading",
            DefenderState::Pressing => "Pressing",
            DefenderState::TrackingBack => "Tracking Back",
            DefenderState::HoldingLine => "Holding Line",
            DefenderState::Running => "Running",
            DefenderState::Returning => "Returning",
            DefenderState::Walking => "Walking",
            DefenderState::Tackling => "Tackling",
            DefenderState::Covering => "Covering",
            DefenderState::PushingUp => "Pushing Up",
            DefenderState::TakeBall => "Take Ball",
            DefenderState::Shooting => "Shooting",
            DefenderState::Guarding => "Guarding",
            DefenderState::AttackingCorner => "Attacking Corner",
            DefenderState::Blocking => "Blocking",
            DefenderState::Overlapping => "Overlapping",
        }
    }
}

/// The state universe is listed exactly once, in identifier order: the
/// entry at a state's compact identifier is that state, so identifiers are
/// distinct and every state appears.
pub proof fn lemma_state_universe_indexed(s: DefenderState)
    ensures
        DefenderState::all_spec().len() == DEFENDER_STATE_COUNT,
        s.compact_id_spec() < DEFENDER_STATE_COUNT,
        DefenderState::all_spec()[s.compact_id_spec() as int] == s,
{
}

/// Two states with the same compact identifier are the same state.
pub proof fn lemma_compact_id_injective(a: DefenderState, b: DefenderState)
    requires
        a.compact_id_spec() == b.compact_id_spec(),
    ensures
        a == b,
{
    lemma_state_universe_indexed(a);
    lemma_state_universe_indexed(b);
}

} // verus!
