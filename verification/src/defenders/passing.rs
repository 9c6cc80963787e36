//! The defender on the ball, looking for a pass.
use vstd::prelude::*;
use crate::model::{DefenderState, DefenderTransition, PassReason, PlayerEvent, PlayerSide};
use crate::team::{average_below, tired_on_average};
use crate::defenders::common::{count_flags, flag_count};

verus! {

/// A pass the passing layer has found, and whether it meets this state's
/// own test for it (its minimum distance, and for the normal pass, its
/// direction).
#[derive(Debug, Clone, Copy, PartialEq, Eq, Structural)]
pub struct PassOption {
    pub id: u32,
    pub acceptable: bool,
}

/// The team-mate furthest up the pitch, as a counter-attack outlet.
#[derive(Debug, Clone, Copy, PartialEq, Eq, Structural)]
pub struct CounterTarget {
    pub id: u32,
    /// He is in the opponents' half.
    pub in_opponent_half: bool,
    /// The pass is between 50 and 350 units long.
    pub pass_in_range: bool,
    /// Opponents standing in the passing lane.
    pub opponents_in_lane: u32,
}

/// Everything the passing state reads on one tick.
#[derive(Debug, Clone, PartialEq, Eq)]
pub struct PassingView {
    pub player_id: u32,
    pub side: Option<PlayerSide>,
    pub in_state_time: u64,
    pub has_ball: bool,
    pub ownership_duration: u64,
    /// One flag per opponent: standing in our half.
    pub opponents_in_our_half: Vec<bool>,
    pub counter_target: Option<CounterTarget>,
    pub heavy_pressure: bool,
    /// His profile says clear it when pressed.
    pub must_clear_under_pressure: bool,
    pub safe_option: Option<u32>,
    pub nearby_conditions: Vec<u32>,
    pub safe_option_100: Option<PassOption>,
    pub best_option_200: Option<PassOption>,
    pub dangerous_position: bool,
    /// Dribbling good enough to take it on.
    pub good_dribbler: bool,
    pub opponents_within_20: u32,
    pub safe_option_200: Option<PassOption>,
    pub immediate_pressure: bool,
    pub has_clear_option: bool,
}

/// The defender on the ball, looking for a pass.
#[derive(Debug, Clone, Copy, PartialEq, Eq, Structural, Default)]
pub struct DefenderPassingState {}

pub open spec fn counter_attack_target_spec(v: PassingView) -> Option<u32> {
    if v.ownership_duration > DefenderPassingState::COUNTER_WINDOW_TICKS || v.side.is_none() || flag_count(v.opponents_in_our_half@) < 5 {
        None
    } else {
        match v.counter_target {
            None => None,
            Some(t) => if t.in_opponent_half && t.pass_in_range && t.opponents_in_lane <= 1 {
                Some(t.id)
            } else {
                None
            },
        }
    }
}

pub open spec fn pass_to(v: PassingView, to: u32, reason: PassReason) -> Option<DefenderTransition> {
    Some(
        DefenderTransition {
            state: DefenderState::Standing,
            event: Some(PlayerEvent::PassTo { from: v.player_id, to, reason }),
        },
    )
}

pub open spec fn acceptable(o: Option<PassOption>) -> bool {
    o.is_some() && o.unwrap().acceptable
}

pub open spec fn passing_spec(v: PassingView) -> Option<DefenderTransition> {
    if !v.has_ball {
        Some(DefenderTransition::to(DefenderState::Pressing))
    } else if counter_attack_target_spec(v).is_some() {
        pass_to(v, counter_attack_target_spec(v).unwrap(), PassReason::DefenderCounterAttack)
    } else if v.heavy_pressure {
        if v.must_clear_under_pressure {
            Some(DefenderTransition::to(DefenderState::Clearing))
        } else {
            match v.safe_option {
                Some(s) => pass_to(v, s, PassReason::DefenderPassingUnderPressure),
                None => Some(DefenderTransition::to(DefenderState::Clearing)),
            }
        }
    } else if tired_on_average(v.nearby_conditions@, 40) && acceptable(v.safe_option_100) {
        pass_to(v, v.safe_option_100.unwrap().id, PassReason::DefenderPassingTiredShort)
    } else if acceptable(v.best_option_200) {
        pass_to(v, v.best_option_200.unwrap().id, PassReason::DefenderPassingNormal)
    } else if v.dangerous_position {
        Some(DefenderTransition::to(DefenderState::Clearing))
    } else if v.in_state_time > 20 && v.good_dribbler && v.opponents_within_20 < 1 {
        Some(DefenderTransition::to(DefenderState::Running))
    } else if v.in_state_time > 50 {
        if acceptable(v.safe_option_200) {
            pass_to(v, v.safe_option_200.unwrap().id, PassReason::DefenderPassingTimeout)
        } else if v.in_state_time > 65 {
            Some(DefenderTransition::to(DefenderState::Clearing))
        } else {
            Some(DefenderTransition::to(DefenderState::Running))
        }
    } else {
        None
    }
}

impl DefenderPassingState {
    /// How long after winning the ball a counter-attack is still on, in
    /// ticks: beyond it the opposition has reorganised.
    pub const COUNTER_WINDOW_TICKS: u64 = 50;

    /// The counter-attack: only just after winning the ball (within
    /// [`Self::COUNTER_WINDOW_TICKS`]), with at least
    /// five opponents caught in our half, to the man furthest forward when
    /// he is in their half, at a sensible range, with at most one opponent
    /// in the lane.
    pub fn find_counter_attack_target(v: &PassingView) -> (r: Option<u32>)
        ensures
            r == counter_attack_target_spec(*v),
    {
        if v.ownership_duration > Self::COUNTER_WINDOW_TICKS {
            return None;
        }
        if v.side.is_none() {
            return None;
        }
        if count_flags(&v.opponents_in_our_half) < 5 {
            return None;
        }
        match v.counter_target {
            None => None,
            Some(t) => {
                if !t.in_opponent_half {
                    return None;
                }
                if !t.pass_in_range {
                    return None;
                }
                if t.opponents_in_lane > 1 {
                    return None;
                }
                Some(t.id)
            },
        }
    }

    /// He can take it on: a good dribbler with nobody within 20.
    pub fn can_dribble_effectively(&self, v: &PassingView) -> (r: bool)
        ensures
            r == (v.good_dribbler && v.opponents_within_20 < 1),
    {
        v.good_dribbler && v.opponents_within_20 < 1
    }

    /// Early in the state, unpressed and with no clear option, he moves to
    /// a better passing position.
    pub fn should_adjust_position(&self, v: &PassingView) -> (r: bool)
        ensures
            r == (v.in_state_time <= 40 && !v.immediate_pressure && !v.has_clear_option),
    {
        if v.in_state_time > 40 {
            return false;
        }
        !v.immediate_pressure && !v.has_clear_option
    }

    /// The team-mates around him average under 40% condition.
    pub fn are_teammates_tired(&self, v: &PassingView) -> (r: bool)
        ensures
            r == tired_on_average(v.nearby_conditions@, 40),
    {
        average_below(&v.nearby_conditions, 40)
    }

    fn pass(v: &PassingView, to: u32, reason: PassReason) -> (r: Option<DefenderTransition>)
        ensures
            r == pass_to(*v, to, reason),
    {
        Some(
            DefenderTransition::with_event(
                DefenderState::Standing,
                PlayerEvent::PassTo { from: v.player_id, to, reason },
            ),
        )
    }

    /// The state's decision for this tick.
    pub fn process(&self, v: &PassingView) -> (r: Option<DefenderTransition>)
        ensures
            r == passing_spec(*v),
    {
        if !v.has_ball {
            return Some(DefenderTransition::with_state(DefenderState::Pressing));
        }
        match Self::find_counter_attack_target(v) {
            Some(t) => {
                return Self::pass(v, t, PassReason::DefenderCounterAttack);
            },
            None => {},
        }
        if v.heavy_pressure {
            if v.must_clear_under_pressure {
                return Some(DefenderTransition::with_state(DefenderState::Clearing));
            }
            return match v.safe_option {
                Some(s) => Self::pass(v, s, PassReason::DefenderPassingUnderPressure),
                None => Some(DefenderTransition::with_state(DefenderState::Clearing)),
            };
        }
        if self.are_teammates_tired(v) {
            match v.safe_option_100 {
                Some(o) => {
                    if o.acceptable {
                        return Self::pass(v, o.id, PassReason::DefenderPassingTiredShort);
                    }
                },
                None => {},
            }
        }
        match v.best_option_200 {
            Some(o) => {
                if o.acceptable {
                    return Self::pass(v, o.id, PassReason::DefenderPassingNormal);
                }
            },
            None => {},
        }
        if v.dangerous_position {
            return Some(DefenderTransition::with_state(DefenderState::Clearing));
        }
        if v.in_state_time > 20 && self.can_dribble_effectively(v) {
            return Some(DefenderTransition::with_state(DefenderState::Running));
        }
        if v.in_state_time > 50 {
            match v.safe_option_200 {
                Some(o) => {
                    if o.acceptable {
                        return Self::pass(v, o.id, PassReason::DefenderPassingTimeout);
                    }
                },
                None => {},
            }
            if v.in_state_time > 65 {
                return Some(DefenderTransition::with_state(DefenderState::Clearing));
            }
            return Some(DefenderTransition::with_state(DefenderState::Running));
        }
        None
    }
}

/// A defender never stays in the passing state past 50 ticks with the ball:
/// by then he has passed, cleared, or gone back to running with it.
pub proof fn lemma_passing_is_bounded(v: PassingView)
    requires
        v.in_state_time > 50,
    ensures
        passing_spec(v).is_some(),
{
}

/// Every pass the state plays is played by this defender himself.
pub proof fn lemma_passes_come_from_him(v: PassingView)
    ensures
        passing_spec(v) matches Some(t) ==> (t.event matches Some(PlayerEvent::PassTo { from, .. })
            ==> from == v.player_id),
{
}

} // verus!
