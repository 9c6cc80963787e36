//! The defender standing in position.
use vstd::prelude::*;
use crate::model::{DefenderState, DefenderTransition};

verus! {

/// The carrier as a standing defender reads him.
#[derive(Debug, Clone, Copy, PartialEq, Eq, Structural)]
pub struct StandingCarrierRead {
    pub within_30: bool,
    /// Inside the pressing distance (tighter in our defensive third).
    pub within_press: bool,
    pub best_defender: bool,
    pub can_support_press: bool,
}

/// Everything the standing state reads on one tick.
#[derive(Debug, Clone, Copy, PartialEq, Eq, Structural)]
pub struct StandingView {
    pub in_state_time: u64,
    pub has_ball: bool,
    pub take_ball_immediately: bool,
    pub carrier: Option<StandingCarrierRead>,
    /// An unmarked opponent within 50 units.
    pub unmarked_nearby: bool,
    pub ball_on_own_side: bool,
    // heading
    pub ball_above_head_height: bool,
    pub ball_within_5: bool,
    pub ball_towards_me_06: bool,
    // blocking
    pub ball_fast: bool,
    pub ball_within_20: bool,
    pub ball_towards_me_07: bool,
    pub ball_low: bool,
    pub shooter_nearby: bool,
    // interception and pressing
    pub ball_towards_me_08: bool,
    pub ball_within_60: bool,
    pub ball_within_200: bool,
    pub ball_owned: bool,
    // push up, line, cover
    pub ball_in_attacking_third: bool,
    pub ball_in_middle_third: bool,
    pub control_ball: bool,
    pub last_defender: bool,
    /// Within a quarter of the pitch of his starting position.
    pub near_start: bool,
    /// Within 15 units of his starting position.
    pub at_start: bool,
    pub should_hold_line: bool,
    pub dangerous_runner: bool,
    pub opponent_within_25: bool,
    pub opponent_within_50: bool,
    // walking
    pub tired: bool,
    pub ball_within_400: bool,
}

/// The defender standing in position.
#[derive(Debug, Clone, Copy, PartialEq, Eq, Structural, Default)]
pub struct DefenderStandingState {}

pub open spec fn should_head_ball_spec(v: StandingView) -> bool {
    v.ball_above_head_height && v.ball_within_5 && v.ball_towards_me_06
}

pub open spec fn should_block_shot_spec(v: StandingView) -> bool {
    v.ball_fast && v.ball_within_20 && v.ball_towards_me_07 && v.ball_low && v.shooter_nearby
}

pub open spec fn should_push_up_spec(v: StandingView) -> bool {
    v.ball_in_attacking_third && v.control_ball && !v.last_defender && v.near_start
}

pub open spec fn should_cover_space_spec(v: StandingView) -> bool {
    v.ball_in_middle_third && !v.opponent_within_25 && !v.dangerous_runner && !v.at_start
}

pub open spec fn should_walk_spec(v: StandingView) -> bool {
    (v.tired || v.in_state_time > 300) && (!v.ball_within_400 || v.at_start) && !v.opponent_within_50
        && v.control_ball
}

pub open spec fn standing_state_spec(v: StandingView) -> Option<DefenderState> {
    if v.has_ball {
        Some(DefenderState::Running)
    } else if v.take_ball_immediately {
        Some(DefenderState::TakeBall)
    } else if v.carrier.is_some() && v.carrier.unwrap().within_30 {
        Some(DefenderState::Tackling)
    } else if v.carrier.is_some() && v.carrier.unwrap().within_press && (
    v.carrier.unwrap().best_defender || v.carrier.unwrap().can_support_press) {
        Some(DefenderState::Pressing)
    } else if v.carrier.is_some() && v.carrier.unwrap().within_press && v.unmarked_nearby {
        Some(DefenderState::Marking)
    } else if v.carrier.is_some() && v.carrier.unwrap().within_press && v.ball_on_own_side {
        Some(DefenderState::TrackingBack)
    } else if should_head_ball_spec(v) {
        Some(DefenderState::Heading)
    } else if should_block_shot_spec(v) {
        Some(DefenderState::Blocking)
    } else if v.ball_on_own_side && v.ball_towards_me_08 && v.ball_within_200 {
        Some(DefenderState::Intercepting)
    } else if v.ball_on_own_side && v.carrier.is_some() && v.ball_within_60 {
        Some(DefenderState::Pressing)
    } else if should_push_up_spec(v) {
        Some(DefenderState::PushingUp)
    } else if v.should_hold_line {
        Some(DefenderState::HoldingLine)
    } else if v.dangerous_runner {
        Some(DefenderState::Marking)
    } else if should_cover_space_spec(v) {
        Some(DefenderState::Covering)
    } else if v.ball_on_own_side && !v.ball_owned && v.ball_within_200 {
        Some(DefenderState::Intercepting)
    } else if should_walk_spec(v) || v.in_state_time > 30 {
        Some(DefenderState::Walking)
    } else {
        None
    }
}

pub open spec fn standing_spec(v: StandingView) -> Option<DefenderTransition> {
    match standing_state_spec(v) {
        Some(s) => Some(DefenderTransition::to(s)),
        None => None,
    }
}

impl DefenderStandingState {
    /// Tired or stood too long, with the ball far away or himself already in
    /// position, nobody within 50, and his team on the ball.
    pub fn should_transition_to_walking(&self, v: &StandingView) -> (r: bool)
        ensures
            r == should_walk_spec(*v),
    {
        let standing_too_long = v.in_state_time > 300;
        (v.tired || standing_too_long) && (!v.ball_within_400 || v.at_start) && !v.opponent_within_50
            && v.control_ball
    }

    /// Push up behind an attack: ball in the final third, his team on it,
    /// not the last man, and not far from his station.
    pub fn should_push_up(&self, v: &StandingView) -> (r: bool)
        ensures
            r == should_push_up_spec(*v),
    {
        v.ball_in_attacking_third && v.control_ball && !self.is_last_defender(v) && v.near_start
    }

    /// The line's own judgement that he should hold it.
    pub fn should_hold_defensive_line(&self, v: &StandingView) -> (r: bool)
        ensures
            r == v.should_hold_line,
    {
        v.should_hold_line
    }

    /// Cover space: ball in the middle third, no threat within 25, no
    /// dangerous run, and away from his station.
    pub fn should_cover_space(&self, v: &StandingView) -> (r: bool)
        ensures
            r == should_cover_space_spec(*v),
    {
        v.ball_in_middle_third && !v.opponent_within_25 && !self.scan_for_dangerous_runs(v)
            && !v.at_start
    }

    /// Is an opponent making a dangerous run at goal?
    pub fn scan_for_dangerous_runs(&self, v: &StandingView) -> (r: bool)
        ensures
            r == v.dangerous_runner,
    {
        v.dangerous_runner
    }

    /// Is he the deepest defender?
    pub fn is_last_defender(&self, v: &StandingView) -> (r: bool)
        ensures
            r == v.last_defender,
    {
        v.last_defender
    }

    /// A ball above head height, within reach and coming his way.
    pub fn should_head_ball(&self, v: &StandingView) -> (r: bool)
        ensures
            r == should_head_ball_spec(*v),
    {
        v.ball_above_head_height && v.ball_within_5 && v.ball_towards_me_06
    }

    /// A shot: fast, close, low, coming his way, with an opponent nearby
    /// who could have struck it.
    pub fn should_block_shot(&self, v: &StandingView) -> (r: bool)
        ensures
            r == should_block_shot_spec(*v),
    {
        if !v.ball_fast || !v.ball_within_20 {
            return false;
        }
        if !v.ball_towards_me_07 {
            return false;
        }
        if !v.ball_low {
            return false;
        }
        v.shooter_nearby && v.ball_within_20
    }

    fn next_state(&self, v: &StandingView) -> (r: Option<DefenderState>)
        ensures
            r == standing_state_spec(*v),
    {
        if v.has_ball {
            return Some(DefenderState::Running);
        }
        if v.take_ball_immediately {
            return Some(DefenderState::TakeBall);
        }
        match v.carrier {
            Some(c) => {
                if c.within_30 {
                    return Some(DefenderState::Tackling);
                }
                if c.within_press {
                    if c.best_defender {
                        return Some(DefenderState::Pressing);
                    }
                    if c.can_support_press {
                        return Some(DefenderState::Pressing);
                    }
                    if v.unmarked_nearby {
                        return Some(DefenderState::Marking);
                    }
                    if v.ball_on_own_side {
                        return Some(DefenderState::TrackingBack);
                    }
                }
            },
            None => {},
        }
        if self.should_head_ball(v) {
            return Some(DefenderState::Heading);
        }
        if self.should_block_shot(v) {
            return Some(DefenderState::Blocking);
        }
        if v.ball_on_own_side {
            if v.ball_towards_me_08 && v.ball_within_200 {
                return Some(DefenderState::Intercepting);
            }
            if v.carrier.is_some() && v.ball_within_60 {
                return Some(DefenderState::Pressing);
            }
        }
        if self.should_push_up(v) {
            return Some(DefenderState::PushingUp);
        }
        if self.should_hold_defensive_line(v) {
            return Some(DefenderState::HoldingLine);
        }
        if self.scan_for_dangerous_runs(v) {
            return Some(DefenderState::Marking);
        }
        if self.should_cover_space(v) {
            return Some(DefenderState::Covering);
        }
        if v.ball_on_own_side && !v.ball_owned && v.ball_within_200 {
            return Some(DefenderState::Intercepting);
        }
        if self.should_transition_to_walking(v) {
            return Some(DefenderState::Walking);
        }
        if v.in_state_time > 30 {
            return Some(DefenderState::Walking);
        }
        None
    }

    /// The state's decision for this tick.
    pub fn try_fast(&self, v: &StandingView) -> (r: Option<DefenderTransition>)
        ensures
            r == standing_spec(*v),
    {
        match self.next_state(v) {
            Some(s) => Some(DefenderTransition::with_state(s)),
            None => None,
        }
    }
}

/// Nobody stands still for long: past 30 ticks a standing defender always
/// moves to some other state.
pub proof fn lemma_standing_is_transient(v: StandingView)
    requires
        v.in_state_time > 30,
    ensures
        standing_state_spec(v).is_some(),
        standing_state_spec(v) != Some(DefenderState::Standing),
{
}

/// A defender who finds the ball at his feet always starts running with it.
pub proof fn lemma_standing_with_ball_runs(v: StandingView)
    requires
        v.has_ball,
    ensures
        standing_state_spec(v) == Some(DefenderState::Running),
{
}

} // verus!
