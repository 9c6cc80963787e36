//! The defender tracking back toward his own goal.
use vstd::prelude::*;
use crate::model::{DefenderState, DefenderTransition, PlayerDistanceFromStartPosition};
use crate::defenders::returning::{closing_stage, in_closing_stage};

verus! {

/// Everything the tracking-back state reads on one tick.
#[derive(Debug, Clone, Copy, PartialEq, Eq, Structural)]
pub struct TrackingBackView {
    pub has_ball: bool,
    pub take_ball_immediately: bool,
    pub best_to_chase: bool,
    pub mark_within_150: bool,
    pub within_10_of_start: bool,
    pub ball_owned: bool,
    pub ball_within_30: bool,
    pub ball_towards_me: bool,
    pub loosing: bool,
    pub total_match_time_ms: u64,
    pub match_time_ms: u64,
    pub tired: bool,
    pub ball_on_own_side: bool,
    pub distance_from_start: PlayerDistanceFromStartPosition,
}

/// The defender tracking back toward his own goal.
#[derive(Debug, Clone, Copy, PartialEq, Eq, Structural, Default)]
pub struct DefenderTrackingBackState {}

pub open spec fn tracking_back_state_spec(v: TrackingBackView) -> Option<DefenderState> {
    if v.has_ball {
        Some(DefenderState::Running)
    } else if v.take_ball_immediately && v.best_to_chase {
        Some(DefenderState::TakeBall)
    } else if v.mark_within_150 {
        Some(DefenderState::Marking)
    } else if v.within_10_of_start {
        Some(DefenderState::Standing)
    } else if !v.has_ball && !v.ball_owned && v.ball_within_30 && v.ball_towards_me {
        Some(DefenderState::Intercepting)
    } else if v.loosing && closing_stage(v.total_match_time_ms, v.match_time_ms) {
        Some(DefenderState::Pressing)
    } else if v.tired {
        Some(DefenderState::HoldingLine)
    } else if v.ball_on_own_side {
        match v.distance_from_start {
            PlayerDistanceFromStartPosition::Big => None,
            PlayerDistanceFromStartPosition::Medium => Some(DefenderState::HoldingLine),
            PlayerDistanceFromStartPosition::Small => Some(DefenderState::Standing),
        }
    } else {
        None
    }
}

impl DefenderTrackingBackState {
    /// The state's decision for this tick.
    pub fn process(&self, v: &TrackingBackView) -> (r: Option<DefenderTransition>)
        ensures
            r == (match tracking_back_state_spec(*v) {
                Some(s) => Some(DefenderTransition::to(s)),
                None => None,
            }),
    {
        let next = if v.has_ball {
            Some(DefenderState::Running)
        } else if v.take_ball_immediately && v.best_to_chase {
            Some(DefenderState::TakeBall)
        } else if v.mark_within_150 {
            Some(DefenderState::Marking)
        } else if v.within_10_of_start {
            Some(DefenderState::Standing)
        } else if !v.has_ball && !v.ball_owned && v.ball_within_30 && v.ball_towards_me {
            Some(DefenderState::Intercepting)
        } else if v.loosing && in_closing_stage(v.total_match_time_ms, v.match_time_ms) {
            Some(DefenderState::Pressing)
        } else if v.tired {
            Some(DefenderState::HoldingLine)
        } else if v.ball_on_own_side {
            match v.distance_from_start {
                PlayerDistanceFromStartPosition::Big => None,
                PlayerDistanceFromStartPosition::Medium => Some(DefenderState::HoldingLine),
                PlayerDistanceFromStartPosition::Small => Some(DefenderState::Standing),
            }
        } else {
            None
        };
        match next {
            Some(s) => Some(DefenderTransition::with_state(s)),
            None => None,
        }
    }
}

} // verus!
