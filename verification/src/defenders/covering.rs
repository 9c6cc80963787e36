//! The defender covering the space behind the play.
use vstd::prelude::*;
use crate::model::{DefenderState, DefenderTransition};

verus! {

/// Everything the covering state reads on one tick.
#[derive(Debug, Clone, PartialEq, Eq)]
pub struct CoveringView {
    pub in_state_time: u64,
    pub opponent_within_25: bool,
    /// An opponent within the threat scan making a fast run at our goal.
    pub dangerous_run: bool,
    /// The carrier is within 40 and this defender is the best placed for him.
    pub carrier_within_40_and_mine: bool,
    pub ball_on_own_side: bool,
    /// The ball is inside the push-up zone (the final third, less the
    /// hysteresis margin).
    pub ball_in_push_up_zone: bool,
    pub ball_in_attacking_third: bool,
    pub control_ball: bool,
    /// One flag per team-mate defender: not ahead of this one.
    pub defenders_not_ahead: Vec<bool>,
    pub near_start: bool,
    /// An unmarked opponent within 25 for whom he is the best defender.
    pub unmarked_mine: bool,
    pub ball_towards_me: bool,
    pub ball_within_120: bool,
}

/// The defender covering the space behind the play.
#[derive(Debug, Clone, Copy, PartialEq, Eq, Structural, Default)]
pub struct DefenderCoveringState {}

pub open spec fn last_defender_spec(v: CoveringView) -> bool {
    forall|i: int| 0 <= i < v.defenders_not_ahead@.len() ==> #[trigger] v.defenders_not_ahead@[i]
}

pub open spec fn covering_push_up_spec(v: CoveringView) -> bool {
    v.ball_in_attacking_third && v.control_ball && !last_defender_spec(v) && v.near_start
}

pub open spec fn covering_spec(v: CoveringView) -> Option<DefenderTransition> {
    let min_time: u64 = if v.opponent_within_25 || v.dangerous_run {
        30
    } else {
        100
    };
    if v.in_state_time < min_time {
        None
    } else if v.carrier_within_40_and_mine {
        Some(DefenderTransition::to(DefenderState::Pressing))
    } else if v.ball_on_own_side {
        Some(DefenderTransition::to(DefenderState::Standing))
    } else if v.ball_in_push_up_zone && covering_push_up_spec(v) {
        Some(DefenderTransition::to(DefenderState::PushingUp))
    } else if v.unmarked_mine || v.opponent_within_25 {
        Some(DefenderTransition::to(DefenderState::Marking))
    } else if v.ball_towards_me && v.ball_within_120 {
        Some(DefenderTransition::to(DefenderState::Intercepting))
    } else {
        None
    }
}

impl DefenderCoveringState {
    /// Is he the deepest defender: no team-mate defender deeper than him?
    pub fn is_last_defender(&self, v: &CoveringView) -> (r: bool)
        ensures
            r == last_defender_spec(*v),
    {
        let d = &v.defenders_not_ahead;
        let mut i: usize = 0;
        while i < d.len()
            invariant
                i <= d@.len(),
                d@ == v.defenders_not_ahead@,
                forall|j: int| 0 <= j < i ==> #[trigger] d@[j],
            decreases d@.len() - i,
        {
            if !d[i] {
                return false;
            }
            i = i + 1;
        }
        true
    }

    /// A threat: somebody within marking distance, or a dangerous run.
    pub fn has_dangerous_threat_nearby(&self, v: &CoveringView) -> (r: bool)
        ensures
            r == (v.opponent_within_25 || v.dangerous_run),
    {
        if v.opponent_within_25 {
            return true;
        }
        v.dangerous_run
    }

    /// Push up: ball in the final third, his team on it, not the last man,
    /// and near his station.
    pub fn should_push_up(&self, v: &CoveringView) -> (r: bool)
        ensures
            r == covering_push_up_spec(*v),
    {
        v.ball_in_attacking_third && v.control_ball && !self.is_last_defender(v) && v.near_start
    }

    /// The state's decision for this tick. He holds the cover for a minimum
    /// time (shorter when a threat is near) before reconsidering.
    pub fn try_fast(&self, v: &CoveringView) -> (r: Option<DefenderTransition>)
        ensures
            r == covering_spec(*v),
    {
        let min_time: u64 = if self.has_dangerous_threat_nearby(v) {
            30
        } else {
            100
        };
        if v.in_state_time < min_time {
            return None;
        }
        if v.carrier_within_40_and_mine {
            return Some(DefenderTransition::with_state(DefenderState::Pressing));
        }
        if v.ball_on_own_side {
            return Some(DefenderTransition::with_state(DefenderState::Standing));
        }
        if v.ball_in_push_up_zone && self.should_push_up(v) {
            return Some(DefenderTransition::with_state(DefenderState::PushingUp));
        }
        if v.unmarked_mine {
            return Some(DefenderTransition::with_state(DefenderState::Marking));
        }
        if v.opponent_within_25 {
            return Some(DefenderTransition::with_state(DefenderState::Marking));
        }
        if v.ball_towards_me && v.ball_within_120 {
            return Some(DefenderTransition::with_state(DefenderState::Intercepting));
        }
        None
    }
}

/// The cover is held: before 30 ticks in the state nothing moves him, and
/// without a threat nothing moves him before 100.
pub proof fn lemma_cover_is_held(v: CoveringView)
    ensures
        v.in_state_time < 30 ==> covering_spec(v).is_none(),
        !v.opponent_within_25 && !v.dangerous_run && v.in_state_time < 100 ==> covering_spec(v).is_none(),
{
}

} // verus!
