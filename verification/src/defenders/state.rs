//! Dispatch of a defender's tick to the handler of the state he is in.
use vstd::prelude::*;
use crate::model::{DefenderState, DefenderTransition};
use crate::defenders::attacking_corner::{AttackingCornerView, DefenderAttackingCornerState, attacking_corner_spec};
use crate::defenders::blocking::{BlockingView, DefenderBlockingState};
use crate::defenders::clearing::DefenderClearingState;
use crate::defenders::covering::{CoveringView, DefenderCoveringState, covering_spec};
use crate::defenders::guarding::{DefenderGuardingState, GuardingView, guarding_state_spec};
use crate::defenders::heading::{DefenderHeadingState, HeadingView, heading_spec};
use crate::defenders::holding_line::{DefenderHoldingLineState, HoldingLineView, holding_line_spec};
use crate::defenders::intercepting::{DefenderInterceptingState, InterceptingView, intercepting_state_spec};
use crate::defenders::marking::{DefenderMarkingState, MarkingView, marking_spec};
use crate::defenders::overlapping::{DefenderOverlappingState, OverlappingView, overlapping_spec};
use crate::defenders::passing::{DefenderPassingState, PassingView, passing_spec};
use crate::defenders::pressing::{DefenderPressingState, PressingView, pressing_state_spec};
use crate::defenders::resting::DefenderRestingState;
use crate::defenders::returning::{DefenderReturningState, ReturningView, returning_state_spec};
use crate::defenders::running::{DefenderRunningState, RunningView, running_spec};
use crate::defenders::shooting::DefenderShootingState;
use crate::defenders::standing::{DefenderStandingState, StandingView, standing_spec};
use crate::defenders::tackling::{DefenderTacklingState, TacklingView, tackling_spec};
use crate::defenders::takeball::DefenderTakeBallState;
use crate::defenders::tracking_back::{DefenderTrackingBackState, TrackingBackView, tracking_back_state_spec};
use crate::defenders::walking::{DefenderWalkingState, WalkingView, walking_state_spec};

verus! {

/// What one state read on this tick, tagged with the state that read it.
#[derive(Debug, Clone, PartialEq, Eq)]
pub enum DefenderReading {
    Standing(StandingView),
    Covering(CoveringView),
    Resting { condition_pct: u32, crisis: bool, ball_within_10: bool, opponent_within_10: bool },
    Passing(PassingView),
    Running(RunningView),
    Intercepting(InterceptingView),
    Marking(MarkingView),
    Clearing { me: u32, owner: Option<u32>, kickable: bool, in_state_time: u64 },
    Heading(HeadingView),
    Tackling(TacklingView),
    Pressing(PressingView),
    TrackingBack(TrackingBackView),
    HoldingLine(HoldingLineView),
    Returning(ReturningView),
    Walking(WalkingView),
    TakeBall { has_ball: bool, ball_owned: bool },
    Shooting { me: u32, has_ball: bool, beyond_35: bool, clear_shot: bool },
    Guarding(GuardingView),
    AttackingCorner(AttackingCornerView),
    Blocking(BlockingView),
    Overlapping(OverlappingView),
    /// Pushing up reads nothing here: see [`DefenderStrategies::process`].
    PushingUp,
}

/// One tick of a defender's state machine: the transition, if any, and
/// whether a challenge was made (which starts the tackle cooldown).
#[derive(Debug, Clone, Copy, PartialEq, Eq, Structural)]
pub struct DefenderStep {
    pub transition: Option<DefenderTransition>,
    pub start_tackle_cooldown: bool,
}

/// The defender's state machine.
pub struct DefenderStrategies {}

pub open spec fn of_state(s: Option<DefenderState>) -> Option<DefenderTransition> {
    match s {
        Some(s) => Some(DefenderTransition::to(s)),
        None => None,
    }
}

pub open spec fn plain(t: Option<DefenderTransition>) -> Option<DefenderStep> {
    Some(DefenderStep { transition: t, start_tackle_cooldown: false })
}

/// The step the handler of `state` takes on `reading`; `None` when the
/// reading was taken by another state's handler.
pub open spec fn dispatch_spec(state: DefenderState, reading: DefenderReading) -> Option<DefenderStep> {
    match (state, reading) {
        (DefenderState::Standing, DefenderReading::Standing(v)) => plain(standing_spec(v)),
        (DefenderState::Covering, DefenderReading::Covering(v)) => plain(covering_spec(v)),
        (
            DefenderState::Resting,
            DefenderReading::Resting { condition_pct, crisis, ball_within_10, opponent_within_10 },
        ) => plain(
            DefenderRestingState::process_spec(condition_pct, crisis, ball_within_10, opponent_within_10),
        ),
        (DefenderState::Passing, DefenderReading::Passing(v)) => plain(passing_spec(v)),
        (DefenderState::Running, DefenderReading::Running(v)) => plain(running_spec(v)),
        (DefenderState::Intercepting, DefenderReading::Intercepting(v)) => plain(
            of_state(intercepting_state_spec(v)),
        ),
        (DefenderState::Marking, DefenderReading::Marking(v)) => plain(marking_spec(v)),
        (DefenderState::Clearing, DefenderReading::Clearing { me, owner, kickable, in_state_time }) => plain(
            if !DefenderClearingState::contact_spec(me, owner, kickable) {
                Some(DefenderTransition::to(DefenderState::Standing))
            } else if in_state_time < 5 {
                None
            } else {
                Some(
                    DefenderTransition {
                        state: DefenderState::Standing,
                        event: Some(crate::model::PlayerEvent::ClearBall(me)),
                    },
                )
            },
        ),
        (DefenderState::Heading, DefenderReading::Heading(v)) => plain(Some(heading_spec(v))),
        (DefenderState::Tackling, DefenderReading::Tackling(v)) => Some(
            DefenderStep {
                transition: tackling_spec(v).transition,
                start_tackle_cooldown: tackling_spec(v).start_tackle_cooldown,
            },
        ),
        (DefenderState::Pressing, DefenderReading::Pressing(v)) => plain(of_state(pressing_state_spec(v))),
        (DefenderState::TrackingBack, DefenderReading::TrackingBack(v)) => plain(
            of_state(tracking_back_state_spec(v)),
        ),
        (DefenderState::HoldingLine, DefenderReading::HoldingLine(v)) => plain(holding_line_spec(v)),
        (DefenderState::Returning, DefenderReading::Returning(v)) => plain(
            of_state(returning_state_spec(v)),
        ),
        (DefenderState::Walking, DefenderReading::Walking(v)) => plain(of_state(walking_state_spec(v))),
        (DefenderState::TakeBall, DefenderReading::TakeBall { has_ball, ball_owned }) => plain(
            if has_ball || ball_owned {
                Some(DefenderTransition::to(DefenderState::Running))
            } else {
                None
            },
        ),
        (DefenderState::Shooting, DefenderReading::Shooting { me, has_ball, beyond_35, clear_shot }) => plain(
            if !has_ball || (beyond_35 && !clear_shot) {
                Some(DefenderTransition::to(DefenderState::Standing))
            } else {
                Some(
                    DefenderTransition {
                        state: DefenderState::Standing,
                        event: Some(
                            crate::model::PlayerEvent::Shoot {
                                player: me,
                                kind: crate::model::ShotKind::Normal,
                            },
                        ),
                    },
                )
            },
        ),
        (DefenderState::Guarding, DefenderReading::Guarding(v)) => plain(of_state(guarding_state_spec(v))),
        (DefenderState::AttackingCorner, DefenderReading::AttackingCorner(v)) => plain(
            attacking_corner_spec(v),
        ),
        (DefenderState::Blocking, DefenderReading::Blocking(v)) => plain(
            DefenderBlockingState::try_fast_spec(v),
        ),
        (DefenderState::Overlapping, DefenderReading::Overlapping(v)) => plain(overlapping_spec(v)),
        (DefenderState::PushingUp, DefenderReading::PushingUp) => plain(
            Some(DefenderTransition::to(DefenderState::Running)),
        ),
        _ => None,
    }
}

impl DefenderStrategies {
    /// Hands the tick to the handler of the state the defender is in, and
    /// gives `None` for a reading another state's handler took. Every
    /// state is routed. Pushing up has no handler of its own in this
    /// library: a defender in it is handed straight to running, whose
    /// handler reads the play afresh (and sends him forward again when the
    /// overlap is still on).
    pub fn process(state: DefenderState, reading: &DefenderReading) -> (r: Option<DefenderStep>)
        ensures
            r == dispatch_spec(state, *reading),
    {
        let t = match (state, reading) {
            (DefenderState::Standing, DefenderReading::Standing(v)) => DefenderStandingState {}.try_fast(v),
            (DefenderState::Covering, DefenderReading::Covering(v)) => DefenderCoveringState {}.try_fast(v),
            (
                DefenderState::Resting,
                DefenderReading::Resting { condition_pct, crisis, ball_within_10, opponent_within_10 },
            ) => DefenderRestingState {}.process(
                *condition_pct,
                *crisis,
                *ball_within_10,
                *opponent_within_10,
            ),
            (DefenderState::Passing, DefenderReading::Passing(v)) => DefenderPassingState {}.process(v),
            (DefenderState::Running, DefenderReading::Running(v)) => DefenderRunningState {}.try_fast(v),
            (DefenderState::Intercepting, DefenderReading::Intercepting(v)) => DefenderInterceptingState {}.process(v),
            (DefenderState::Marking, DefenderReading::Marking(v)) => DefenderMarkingState {}.process(v),
            (DefenderState::Clearing, DefenderReading::Clearing { me, owner, kickable, in_state_time }) => DefenderClearingState {}.process(
                *me,
                *owner,
                *kickable,
                *in_state_time,
            ),
            (DefenderState::Heading, DefenderReading::Heading(v)) => DefenderHeadingState {}.process(v),
            (DefenderState::Tackling, DefenderReading::Tackling(v)) => {
                let s = DefenderTacklingState {}.process(v);
                return Some(
                    DefenderStep {
                        transition: s.transition,
                        start_tackle_cooldown: s.start_tackle_cooldown,
                    },
                );
            },
            (DefenderState::Pressing, DefenderReading::Pressing(v)) => DefenderPressingState {}.process(v),
            (DefenderState::TrackingBack, DefenderReading::TrackingBack(v)) => DefenderTrackingBackState {}.process(v),
            (DefenderState::HoldingLine, DefenderReading::HoldingLine(v)) => DefenderHoldingLineState {}.process(v),
            (DefenderState::Returning, DefenderReading::Returning(v)) => DefenderReturningState {}.process(v),
            (DefenderState::Walking, DefenderReading::Walking(v)) => DefenderWalkingState {}.process(v),
            (DefenderState::TakeBall, DefenderReading::TakeBall { has_ball, ball_owned }) => DefenderTakeBallState {}.process(
                *has_ball,
                *ball_owned,
            ),
            (DefenderState::Shooting, DefenderReading::Shooting { me, has_ball, beyond_35, clear_shot }) => DefenderShootingState {}.process(
                *me,
                *has_ball,
                *beyond_35,
                *clear_shot,
            ),
            (DefenderState::Guarding, DefenderReading::Guarding(v)) => DefenderGuardingState {}.try_fast(v),
            (DefenderState::AttackingCorner, DefenderReading::AttackingCorner(v)) => DefenderAttackingCornerState {}.process(v),
            (DefenderState::Blocking, DefenderReading::Blocking(v)) => DefenderBlockingState {}.try_fast(v),
            (DefenderState::Overlapping, DefenderReading::Overlapping(v)) => DefenderOverlappingState {}.process(v),
            (DefenderState::PushingUp, DefenderReading::PushingUp) => Some(
                DefenderTransition::with_state(DefenderState::Running),
            ),
            _ => {
                return None;
            },
        };
        Some(DefenderStep { transition: t, start_tackle_cooldown: false })
    }
}

/// Only the tackling state ever starts the tackle cooldown: no other state
/// makes a challenge.
pub proof fn lemma_only_tackling_challenges(state: DefenderState, reading: DefenderReading)
    ensures
        dispatch_spec(state, reading) matches Some(s) && s.start_tackle_cooldown ==> state
            == DefenderState::Tackling,
{
}

} // verus!
