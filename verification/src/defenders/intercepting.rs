//! The defender going to cut out a pass.
use vstd::prelude::*;
use crate::model::{DefenderState, DefenderTransition};
use crate::engagement::{EngagementView, TackleEngagement};

verus! {

/// Everything the intercepting state reads on one tick.
#[derive(Debug, Clone, Copy, PartialEq, Eq, Structural)]
pub struct InterceptingView {
    pub has_ball: bool,
    pub aerial_ball: bool,
    pub ball_owned: bool,
    pub ball_within_60: bool,
    pub ball_slow: bool,
    pub best_to_chase: bool,
    /// An opponent has the ball; `Some(within_commit)` for him.
    pub carrier_within_commit: Option<bool>,
    pub can_attempt_tackle: bool,
    pub engagement: EngagementView,
    pub ball_moving: bool,
    pub ball_towards_me: bool,
    pub ball_beyond_130: bool,
    /// He gets to the interception point before any opponent.
    pub wins_the_race: bool,
}

/// The defender going to cut out a pass.
#[derive(Debug, Clone, Copy, PartialEq, Eq, Structural, Default)]
pub struct DefenderInterceptingState {}

pub open spec fn intercepting_state_spec(v: InterceptingView) -> Option<DefenderState> {
    if v.has_ball {
        Some(DefenderState::Running)
    } else if v.aerial_ball {
        Some(DefenderState::Heading)
    } else if !v.ball_owned && v.ball_within_60 && v.ball_slow && v.best_to_chase {
        Some(DefenderState::TakeBall)
    } else if v.carrier_within_commit.is_some() && v.carrier_within_commit.unwrap()
        && v.can_attempt_tackle && TackleEngagement::may_engage_carrier_spec(v.engagement) {
        Some(DefenderState::Tackling)
    } else if v.ball_moving && (!v.ball_towards_me || v.ball_beyond_130) {
        Some(DefenderState::Returning)
    } else if !v.wins_the_race {
        Some(DefenderState::Pressing)
    } else {
        None
    }
}

impl DefenderInterceptingState {
    /// Whether he wins the race to the interception point.
    pub fn can_reach_before_opponent(&self, v: &InterceptingView) -> (r: bool)
        ensures
            r == v.wins_the_race,
    {
        v.wins_the_race
    }

    /// The state's decision for this tick.
    pub fn process(&self, v: &InterceptingView) -> (r: Option<DefenderTransition>)
        ensures
            r == (match intercepting_state_spec(*v) {
                Some(s) => Some(DefenderTransition::to(s)),
                None => None,
            }),
    {
        if v.has_ball {
            return Some(DefenderTransition::with_state(DefenderState::Running));
        }
        if v.aerial_ball {
            return Some(DefenderTransition::with_state(DefenderState::Heading));
        }
        if !v.ball_owned && v.ball_within_60 && v.ball_slow && v.best_to_chase {
            return Some(DefenderTransition::with_state(DefenderState::TakeBall));
        }
        match v.carrier_within_commit {
            Some(within) => {
                if TackleEngagement::should_commit(&v.engagement, within, v.can_attempt_tackle) {
                    return Some(DefenderTransition::with_state(DefenderState::Tackling));
                }
            },
            None => {},
        }
        if v.ball_moving && (!v.ball_towards_me || v.ball_beyond_130) {
            return Some(DefenderTransition::with_state(DefenderState::Returning));
        }
        if !self.can_reach_before_opponent(v) {
            return Some(DefenderTransition::with_state(DefenderState::Pressing));
        }
        None
    }
}

} // verus!
