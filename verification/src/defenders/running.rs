//! The defender running, with the ball or toward the play.
use vstd::prelude::*;
use crate::model::{
    DefenderState, DefenderTransition, PassReason, PlayerDistanceFromStartPosition, PlayerEvent,
};
use crate::team::{average_below, tired_on_average};
use crate::defenders::common::{count_flags, flag_count};

verus! {

/// The man with the ball, as a running defender reads him.
#[derive(Debug, Clone, Copy, PartialEq, Eq, Structural)]
pub struct CarrierRead {
    /// This defender is the best placed to go to him.
    pub best_defender: bool,
    /// He is within 30 units.
    pub within_30: bool,
}

/// What the overlapping-run rule reads about a running defender.
#[derive(Debug, Clone, PartialEq, Eq)]
pub struct OverlapRead {
    /// His station is out toward a touchline (the outer quarter either
    /// side).
    pub wide: bool,
    /// His station is on the left half of the pitch's width.
    pub on_left_flank: bool,
    /// The ball is on the left half of the pitch's width.
    pub ball_on_left: bool,
    /// The ball is ahead of him, toward the goal his team attacks.
    pub ball_ahead: bool,
    /// One flag per other team-mate defender: nearer our goal than he is.
    pub deeper_defenders: Vec<bool>,
    /// One flag per opponent: standing in the space ahead of the ball on
    /// his wing.
    pub blockers: Vec<bool>,
}

/// Everything the running state reads on one tick.
#[derive(Debug, Clone, PartialEq, Eq)]
pub struct RunningView {
    pub player_id: u32,
    pub in_state_time: u64,
    pub has_ball: bool,
    // --- on the ball ---
    /// An opponent is about to arrive on him.
    pub opponent_closing_fast: bool,
    /// The best team-mate for an emergency pass, if any.
    pub emergency_target: Option<u32>,
    /// Within shooting distance with a clear shot.
    pub in_shooting_range: bool,
    /// Finishing good enough to try it.
    pub can_finish: bool,
    /// The ball is in his own penalty area.
    pub ball_in_own_penalty_area: bool,
    pub opponent_within_12: bool,
    pub opponent_within_15: bool,
    pub opponent_within_20: bool,
    pub opponent_within_25: bool,
    pub opponent_within_30: bool,
    /// Within 20 units of a touchline or goal line.
    pub near_boundary: bool,
    pub teammates_within_15: u32,
    pub opponents_within_15: u32,
    pub teammates_within_20: u32,
    pub opponents_within_20: u32,
    /// His movement layer reports him boxed in.
    pub movement_congested: bool,
    /// Dribbling and composure good enough to carry it.
    pub carrier_quality: bool,
    pub ownership_duration: u64,
    /// A team-mate beyond 50 units, in space, with a clear lane.
    pub open_target: bool,
    /// Condition percentages of the team-mates within 150 units.
    pub nearby_conditions: Vec<u32>,
    pub control_ball: bool,
    /// A team-mate ahead of him, in space, with a clear lane.
    pub progressive_target: bool,
    /// Vision good enough to switch play.
    pub has_vision: bool,
    /// An open team-mate on the far side of the pitch.
    pub opposite_side_target: Option<u32>,
    /// The best build-up pass within 150 and within 300 units.
    pub buildup_short: Option<u32>,
    pub buildup_long: Option<u32>,
    // --- off the ball ---
    pub just_lost_possession: bool,
    /// The ball is within the counter-press range.
    pub within_counter_press: bool,
    pub carrier: Option<CarrierRead>,
    pub distance_from_start: PlayerDistanceFromStartPosition,
    pub ball_within_30: bool,
    pub ball_within_50: bool,
    pub ball_within_80: bool,
    pub ball_within_100: bool,
    pub ball_within_200: bool,
    pub best_to_chase: bool,
    /// The carrier is running at this defender.
    pub carrier_approaching: bool,
    pub ball_owned: bool,
    pub ball_slow: bool,
    pub take_ball_immediately: bool,
    /// The ball's owner, when there is one, plays for this defender's team.
    pub owner_is_teammate: bool,
    pub ball_towards_me: bool,
    pub teammate_chasing: bool,
    /// What the overlapping-run rule reads.
    pub overlap: OverlapRead,
}

/// The defender running, with the ball or toward the play.
#[derive(Debug, Clone, Copy, PartialEq, Eq, Structural, Default)]
pub struct DefenderRunningState {}

pub open spec fn should_carry_ball_spec(v: RunningView) -> bool {
    if v.in_state_time < 5 || v.in_state_time > 200 || v.ball_in_own_penalty_area
        || v.opponent_within_20 {
        false
    } else {
        !v.opponent_within_25 && v.carrier_quality
    }
}

pub open spec fn congested_near_boundary_spec(v: RunningView) -> bool {
    v.near_boundary && v.teammates_within_15 + v.opponents_within_15 >= 3
}

pub open spec fn should_clear_spec(v: RunningView) -> bool {
    (v.ball_in_own_penalty_area && v.opponent_within_30) || congested_near_boundary_spec(v)
        || v.movement_congested
}

pub open spec fn should_pass_spec(v: RunningView) -> bool {
    if !v.opponent_within_15 && (v.in_state_time < 10 || v.ownership_duration < 5) {
        false
    } else if v.opponents_within_20 + v.teammates_within_20 >= 4 && !v.open_target {
        false
    } else if v.opponent_within_12 {
        true
    } else if v.opponent_within_15 && tired_on_average(v.nearby_conditions@, 40) {
        true
    } else if !v.opponent_within_30 && v.control_ball && v.progressive_target {
        true
    } else {
        v.has_vision && v.opposite_side_target.is_some()
    }
}

/// Overlap: a wide defender whose team has the ball, with a team-mate on it
/// on his own flank ahead of him, at least one defender deeper than him,
/// and nobody in the space ahead on the wing.
pub open spec fn should_overlap_spec(v: RunningView) -> bool {
    &&& v.overlap.wide
    &&& v.control_ball
    &&& v.owner_is_teammate
    &&& v.overlap.ball_on_left == v.overlap.on_left_flank
    &&& v.overlap.ball_ahead
    &&& flag_count(v.overlap.deeper_defenders@) >= 1
    &&& flag_count(v.overlap.blockers@) == 0
}

pub open spec fn should_intercept_spec(v: RunningView) -> bool {
    if v.owner_is_teammate || !v.best_to_chase {
        false
    } else {
        (v.ball_within_200 && v.ball_towards_me) || (v.ball_within_50 && !v.teammate_chasing)
    }
}

/// The tail of the decision: a defender who has kept the ball too long
/// clears it under pressure, looks short and then long for a build-up pass,
/// and finally clears it.
pub open spec fn holding_too_long_spec(v: RunningView) -> Option<DefenderTransition> {
    if v.has_ball && v.in_state_time > 80 {
        if v.opponent_within_15 {
            Some(DefenderTransition::to(DefenderState::Clearing))
        } else if v.in_state_time <= 150 && v.buildup_short.is_some() {
            Some(
                DefenderTransition {
                    state: DefenderState::Standing,
                    event: Some(
                        PlayerEvent::PassTo {
                            from: v.player_id,
                            to: v.buildup_short.unwrap(),
                            reason: PassReason::DefenderBuildupShort,
                        },
                    ),
                },
            )
        } else if v.in_state_time <= 250 && v.buildup_long.is_some() {
            Some(
                DefenderTransition {
                    state: DefenderState::Standing,
                    event: Some(
                        PlayerEvent::PassTo {
                            from: v.player_id,
                            to: v.buildup_long.unwrap(),
                            reason: PassReason::DefenderBuildupLong,
                        },
                    ),
                },
            )
        } else if v.in_state_time > 250 {
            Some(DefenderTransition::to(DefenderState::Clearing))
        } else {
            None
        }
    } else {
        None
    }
}

pub open spec fn running_spec(v: RunningView) -> Option<DefenderTransition> {
    if v.has_ball {
        if v.opponent_closing_fast {
            match v.emergency_target {
                Some(t) => Some(
                    DefenderTransition {
                        state: DefenderState::Standing,
                        event: Some(
                            PlayerEvent::PassTo {
                                from: v.player_id,
                                to: t,
                                reason: PassReason::DefenderEmergencyPass,
                            },
                        ),
                    },
                ),
                None => Some(DefenderTransition::to(DefenderState::Clearing)),
            }
        } else if v.in_shooting_range && v.can_finish {
            Some(DefenderTransition::to(DefenderState::Shooting))
        } else if should_clear_spec(v) {
            Some(DefenderTransition::to(DefenderState::Clearing))
        } else if should_carry_ball_spec(v) {
            None
        } else if should_pass_spec(v) {
            Some(DefenderTransition::to(DefenderState::Passing))
        } else {
            holding_too_long_spec(v)
        }
    } else {
        if v.just_lost_possession && v.within_counter_press && v.carrier.is_some() && (
        v.carrier.unwrap().best_defender || v.carrier.unwrap().within_30) {
            Some(DefenderTransition::to(DefenderState::Tackling))
        } else if v.distance_from_start == PlayerDistanceFromStartPosition::Big {
            Some(DefenderTransition::to(DefenderState::Returning))
        } else if v.carrier.is_some() && (v.ball_within_30 || (v.ball_within_100
            && v.best_to_chase) || (v.ball_within_80 && v.carrier_approaching)) {
            Some(DefenderTransition::to(DefenderState::Tackling))
        } else if !v.ball_owned && v.ball_within_50 && v.ball_slow && v.best_to_chase {
            Some(DefenderTransition::to(DefenderState::TakeBall))
        } else if v.take_ball_immediately && v.best_to_chase {
            Some(DefenderTransition::to(DefenderState::TakeBall))
        } else if !v.ball_owned && should_intercept_spec(v) {
            Some(DefenderTransition::to(DefenderState::Intercepting))
        } else if should_overlap_spec(v) {
            Some(DefenderTransition::to(DefenderState::PushingUp))
        } else {
            None
        }
    }
}

impl DefenderRunningState {
    /// Carry it on: settled in the state but not for too long, out of his
    /// own area, nobody within 20, space ahead and the quality to carry.
    pub fn should_carry_ball(&self, v: &RunningView) -> (r: bool)
        ensures
            r == should_carry_ball_spec(*v),
    {
        if v.in_state_time < 5 {
            return false;
        }
        if v.in_state_time > 200 {
            return false;
        }
        if v.ball_in_own_penalty_area {
            return false;
        }
        if v.opponent_within_20 {
            return false;
        }
        !v.opponent_within_25 && v.carrier_quality
    }

    /// Get rid of it: pressed in his own area, or boxed in.
    pub fn should_clear(&self, v: &RunningView) -> (r: bool)
        ensures
            r == should_clear_spec(*v),
    {
        if v.ball_in_own_penalty_area && v.opponent_within_30 {
            return true;
        }
        if self.is_congested_near_boundary(v) || v.movement_congested {
            return true;
        }
        false
    }

    /// Near a line with three or more players, either side, within 15.
    pub fn is_congested_near_boundary(&self, v: &RunningView) -> (r: bool)
        ensures
            r == congested_near_boundary_spec(*v),
    {
        if !v.near_boundary {
            return false;
        }
        let total: u64 = v.teammates_within_15 as u64 + v.opponents_within_15 as u64;
        total >= 3
    }

    /// Pass it: not before he has settled unless pressed; not into a crowd
    /// without an open man; always when touch-tight; when pressed and his
    /// team-mates are tired; when free and a progressive pass is on; or to
    /// switch play when he has the vision for it.
    pub fn should_pass(&self, v: &RunningView) -> (r: bool)
        ensures
            r == should_pass_spec(*v),
    {
        if !v.opponent_within_15 {
            if v.in_state_time < 10 {
                return false;
            }
            if v.ownership_duration < 5 {
                return false;
            }
        }
        let nearby: u64 = v.opponents_within_20 as u64 + v.teammates_within_20 as u64;
        if nearby >= 4 && !v.open_target {
            return false;
        }
        if v.opponent_within_12 {
            return true;
        }
        if v.opponent_within_15 && self.are_teammates_tired(v) {
            return true;
        }
        if !v.opponent_within_30 && v.control_ball && v.progressive_target {
            return true;
        }
        v.has_vision && v.opposite_side_target.is_some()
    }

    /// The team-mates around him average under 40% condition.
    pub fn are_teammates_tired(&self, v: &RunningView) -> (r: bool)
        ensures
            r == tired_on_average(v.nearby_conditions@, 40),
    {
        average_below(&v.nearby_conditions, 40)
    }

    /// Go for a loose ball: not when it is ours, only as the chase
    /// election's man, when it is coming at him or close and nobody else is
    /// on it.
    pub fn should_intercept(&self, v: &RunningView) -> (r: bool)
        ensures
            r == should_intercept_spec(*v),
    {
        if v.owner_is_teammate {
            return false;
        }
        if !v.best_to_chase {
            return false;
        }
        if v.ball_within_200 && v.ball_towards_me {
            return true;
        }
        if v.ball_within_50 && !v.teammate_chasing {
            return true;
        }
        false
    }

    /// Make the overlapping run: see [`should_overlap_spec`].
    pub fn should_overlap(&self, v: &RunningView) -> (r: bool)
        ensures
            r == should_overlap_spec(*v),
    {
        let o = &v.overlap;
        if !o.wide || !v.control_ball || !v.owner_is_teammate {
            return false;
        }
        if o.ball_on_left != o.on_left_flank || !o.ball_ahead {
            return false;
        }
        if count_flags(&o.deeper_defenders) < 1 {
            return false;
        }
        count_flags(&o.blockers) == 0
    }

    /// The state's decision for this tick.
    pub fn try_fast(&self, v: &RunningView) -> (r: Option<DefenderTransition>)
        ensures
            r == running_spec(*v),
    {
        if v.has_ball {
            if v.opponent_closing_fast {
                return match v.emergency_target {
                    Some(t) => Some(
                        DefenderTransition::with_event(
                            DefenderState::Standing,
                            PlayerEvent::PassTo {
                                from: v.player_id,
                                to: t,
                                reason: PassReason::DefenderEmergencyPass,
                            },
                        ),
                    ),
                    None => Some(DefenderTransition::with_state(DefenderState::Clearing)),
                };
            }
            if v.in_shooting_range && v.can_finish {
                return Some(DefenderTransition::with_state(DefenderState::Shooting));
            }
            if self.should_clear(v) {
                return Some(DefenderTransition::with_state(DefenderState::Clearing));
            }
            if self.should_carry_ball(v) {
                return None;
            }
            if self.should_pass(v) {
                return Some(DefenderTransition::with_state(DefenderState::Passing));
            }
        } else {
            if v.just_lost_possession && v.within_counter_press {
                match v.carrier {
                    Some(c) => {
                        if c.best_defender || c.within_30 {
                            return Some(DefenderTransition::with_state(DefenderState::Tackling));
                        }
                    },
                    None => {},
                }
            }
            if v.distance_from_start == PlayerDistanceFromStartPosition::Big {
                return Some(DefenderTransition::with_state(DefenderState::Returning));
            }
            if v.carrier.is_some() {
                if v.ball_within_30 {
                    return Some(DefenderTransition::with_state(DefenderState::Tackling));
                }
                if v.ball_within_100 && v.best_to_chase {
                    return Some(DefenderTransition::with_state(DefenderState::Tackling));
                }
                if v.ball_within_80 && v.carrier_approaching {
                    return Some(DefenderTransition::with_state(DefenderState::Tackling));
                }
            }
            if !v.ball_owned && v.ball_within_50 && v.ball_slow && v.best_to_chase {
                return Some(DefenderTransition::with_state(DefenderState::TakeBall));
            }
            if v.take_ball_immediately && v.best_to_chase {
                return Some(DefenderTransition::with_state(DefenderState::TakeBall));
            }
            if !v.ball_owned && self.should_intercept(v) {
                return Some(DefenderTransition::with_state(DefenderState::Intercepting));
            }
            if self.should_overlap(v) {
                return Some(DefenderTransition::with_state(DefenderState::PushingUp));
            }
        }
        if v.has_ball && v.in_state_time > 80 {
            if v.opponent_within_15 {
                return Some(DefenderTransition::with_state(DefenderState::Clearing));
            }
            if v.in_state_time <= 150 {
                match v.buildup_short {
                    Some(t) => {
                        return Some(
                            DefenderTransition::with_event(
                                DefenderState::Standing,
                                PlayerEvent::PassTo {
                                    from: v.player_id,
                                    to: t,
                                    reason: PassReason::DefenderBuildupShort,
                                },
                            ),
                        );
                    },
                    None => {},
                }
            }
            if v.in_state_time <= 250 {
                match v.buildup_long {
                    Some(t) => {
                        return Some(
                            DefenderTransition::with_event(
                                DefenderState::Standing,
                                PlayerEvent::PassTo {
                                    from: v.player_id,
                                    to: t,
                                    reason: PassReason::DefenderBuildupLong,
                                },
                            ),
                        );
                    },
                    None => {},
                }
            }
            if v.in_state_time > 250 {
                return Some(DefenderTransition::with_state(DefenderState::Clearing));
            }
        }
        None
    }
}

/// A defender on the ball never leaves it in the running state for more
/// than 250 ticks: past that, unless he has chosen to carry it, he has
/// passed, shot or cleared.
pub proof fn lemma_running_never_holds_forever(v: RunningView)
    requires
        v.has_ball,
        v.in_state_time > 250,
    ensures
        running_spec(v).is_some(),
{
}

/// A running defender who is about to be closed down always gets rid of
/// the ball: a pass to the emergency target, or a clearance.
pub proof fn lemma_closing_opponent_forces_release(v: RunningView)
    requires
        v.has_ball,
        v.opponent_closing_fast,
    ensures
        running_spec(v) matches Some(t) && (t.state == DefenderState::Clearing || (t.state
            == DefenderState::Standing && t.event is Some)),
{
}

/// A running defender without the ball goes to an opponent carrier — when
/// the ball is within 30, within 100 and he is the best man to chase it, or
/// within 80 with the carrier running at him — unless he is far out of
/// position and has to return first.
pub proof fn lemma_running_engages_the_carrier(v: RunningView)
    requires
        !v.has_ball,
        v.carrier.is_some(),
        v.distance_from_start != PlayerDistanceFromStartPosition::Big,
        v.ball_within_30 || (v.ball_within_100 && v.best_to_chase) || (v.ball_within_80
            && v.carrier_approaching),
    ensures
        running_spec(v) == Some(DefenderTransition::to(DefenderState::Tackling)),
{
}

} // verus!
