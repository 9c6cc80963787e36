//! The defender jogging back to his station.
use vstd::prelude::*;
use crate::model::{DefenderState, DefenderTransition};

verus! {

/// Everything the returning state reads on one tick.
#[derive(Debug, Clone, Copy, PartialEq, Eq, Structural)]
pub struct ReturningView {
    pub has_ball: bool,
    pub defensive_crisis: bool,
    pub take_ball_immediately: bool,
    pub best_to_chase: bool,
    /// The plan has assigned him a man, within 150 units.
    pub mark_within_150: bool,
    pub within_10_of_start: bool,
    pub within_5_of_start: bool,
    pub control_ball: bool,
    pub ball_within_30: bool,
    pub ball_within_100: bool,
    pub ball_within_200: bool,
    pub carrier_exists: bool,
    pub ball_owned: bool,
    pub ball_towards_me: bool,
    pub loosing: bool,
    pub total_match_time_ms: u64,
    /// The length of a match.
    pub match_time_ms: u64,
}

/// The closing stage of a match: the last fifteenth of it.
pub open spec fn closing_stage(t: u64, match_time: u64) -> bool {
    t > match_time - match_time / 15
}

/// Whether the match is in its closing stage.
pub fn in_closing_stage(t: u64, match_time: u64) -> (r: bool)
    ensures
        r == closing_stage(t, match_time),
{
    t > match_time - match_time / 15
}

/// The defender jogging back to his station.
#[derive(Debug, Clone, Copy, PartialEq, Eq, Structural, Default)]
pub struct DefenderReturningState {}

pub open spec fn returning_state_spec(v: ReturningView) -> Option<DefenderState> {
    if v.has_ball {
        Some(DefenderState::Passing)
    } else if v.defensive_crisis {
        Some(DefenderState::Standing)
    } else if v.take_ball_immediately && v.best_to_chase {
        Some(DefenderState::TakeBall)
    } else if v.mark_within_150 {
        Some(DefenderState::Marking)
    } else if v.within_10_of_start {
        Some(DefenderState::Standing)
    } else if v.control_ball {
        if v.within_5_of_start {
            Some(DefenderState::Standing)
        } else {
            None
        }
    } else if v.ball_within_100 {
        if v.carrier_exists {
            Some(DefenderState::Tackling)
        } else {
            Some(DefenderState::TakeBall)
        }
    } else if !v.has_ball && !v.ball_owned && v.ball_towards_me && v.ball_within_200 {
        Some(DefenderState::Intercepting)
    } else if v.loosing && closing_stage(v.total_match_time_ms, v.match_time_ms) && v.ball_within_30 {
        Some(DefenderState::Pressing)
    } else {
        None
    }
}

impl DefenderReturningState {
    /// The state's decision for this tick.
    pub fn process(&self, v: &ReturningView) -> (r: Option<DefenderTransition>)
        ensures
            r == (match returning_state_spec(*v) {
                Some(s) => Some(DefenderTransition::to(s)),
                None => None,
            }),
    {
        let next = if v.has_ball {
            Some(DefenderState::Passing)
        } else if v.defensive_crisis {
            Some(DefenderState::Standing)
        } else if v.take_ball_immediately && v.best_to_chase {
            Some(DefenderState::TakeBall)
        } else if v.mark_within_150 {
            Some(DefenderState::Marking)
        } else if v.within_10_of_start {
            Some(DefenderState::Standing)
        } else if v.control_ball {
            if v.within_5_of_start {
                Some(DefenderState::Standing)
            } else {
                None
            }
        } else if v.ball_within_100 {
            if v.carrier_exists {
                Some(DefenderState::Tackling)
            } else {
                Some(DefenderState::TakeBall)
            }
        } else if !v.has_ball && !v.ball_owned && v.ball_towards_me && v.ball_within_200 {
            Some(DefenderState::Intercepting)
        } else if v.loosing && in_closing_stage(v.total_match_time_ms, v.match_time_ms)
            && v.ball_within_30 {
            Some(DefenderState::Pressing)
        } else {
            None
        };
        match next {
            Some(s) => Some(DefenderTransition::with_state(s)),
            None => None,
        }
    }
}

} // verus!
