//! The defender holding the back line.
use vstd::prelude::*;
use crate::model::{DefenderState, DefenderTransition, DefensiveRole, PlayerState};
use crate::defenders::common::{DefensiveLine, LineDeviation};

verus! {

/// The carrier as the line reads him.
#[derive(Debug, Clone, Copy, PartialEq, Eq, Structural)]
pub struct LineCarrierRead {
    pub within_25: bool,
    pub within_60: bool,
    pub within_100: bool,
}

/// Everything the holding-line state reads on one tick.
#[derive(Debug, Clone, Copy, PartialEq, Eq, Structural)]
pub struct HoldingLineView {
    pub has_ball: bool,
    pub central_defender: bool,
    /// His team is attacking a corner.
    pub team_attacking_corner: bool,
    /// A high ball dropping on him, close and coming his way.
    pub aerial_ball: bool,
    /// He is one of the two closest to a carrier in our own area.
    pub box_emergency: bool,
    pub carrier: Option<LineCarrierRead>,
    /// An attacker is coming at the line and he should meet him.
    pub step_up: bool,
    pub deviation: LineDeviation,
    pub ball_owned: bool,
    pub ball_within_40: bool,
    pub ball_slow: bool,
    pub role: DefensiveRole,
    /// The counter-press window is open and the ball is inside its range.
    pub counter_press_reach: bool,
    pub ball_on_own_side: bool,
    /// A dangerous runner within 25 units.
    pub runner_within_25: bool,
    /// An unmarked opponent within 60 units.
    pub unmarked_within_60: bool,
    /// A loose ball running at our goal, level with or behind him.
    pub loose_ball_to_goal: bool,
    pub ball_within_150: bool,
    pub ball_within_250: bool,
    pub ball_towards_me: bool,
    pub opponent_nearby: bool,
}

/// The defender holding the back line.
#[derive(Debug, Clone, Copy, PartialEq, Eq, Structural, Default)]
pub struct DefenderHoldingLineState {}

pub open spec fn carrier_role_spec(v: HoldingLineView) -> Option<DefenderState> {
    match v.carrier {
        None => None,
        Some(c) => if c.within_25 && v.role == DefensiveRole::Primary {
            Some(DefenderState::Tackling)
        } else {
            match v.role {
                DefensiveRole::Primary => if c.within_60 || v.counter_press_reach {
                    Some(DefenderState::Pressing)
                } else {
                    None
                },
                DefensiveRole::Cover => if c.within_100 && v.ball_on_own_side {
                    Some(DefenderState::Covering)
                } else {
                    None
                },
                DefensiveRole::Help => Some(DefenderState::Marking),
                DefensiveRole::Hold => None,
            }
        },
    }
}

pub open spec fn holding_line_state_spec(v: HoldingLineView) -> Option<DefenderState> {
    if !v.has_ball && v.central_defender && v.team_attacking_corner {
        Some(DefenderState::AttackingCorner)
    } else if v.aerial_ball {
        Some(DefenderState::Heading)
    } else if v.box_emergency && v.carrier.is_some() {
        if v.carrier.unwrap().within_25 {
            Some(DefenderState::Tackling)
        } else {
            Some(DefenderState::Pressing)
        }
    } else if v.step_up {
        Some(DefenderState::Pressing)
    } else if !DefensiveLine::is_in_line_spec(
        PlayerState::Defender(DefenderState::HoldingLine),
        v.deviation,
    ) {
        Some(DefenderState::Running)
    } else if !v.ball_owned && v.ball_within_40 && v.ball_slow {
        Some(DefenderState::TakeBall)
    } else if carrier_role_spec(v).is_some() {
        carrier_role_spec(v)
    } else if v.runner_within_25 {
        Some(DefenderState::Marking)
    } else if v.ball_on_own_side && v.unmarked_within_60 {
        Some(DefenderState::Guarding)
    } else if v.loose_ball_to_goal {
        Some(DefenderState::Intercepting)
    } else if v.ball_within_250 && v.ball_towards_me {
        Some(DefenderState::Intercepting)
    } else if v.ball_within_150 {
        if v.opponent_nearby {
            Some(DefenderState::Marking)
        } else {
            Some(DefenderState::Intercepting)
        }
    } else {
        None
    }
}

pub open spec fn holding_line_spec(v: HoldingLineView) -> Option<DefenderTransition> {
    match holding_line_state_spec(v) {
        Some(s) => Some(DefenderTransition::to(s)),
        None => None,
    }
}

impl DefenderHoldingLineState {
    /// The response to the carrier by this defender's role against him.
    pub fn carrier_response(&self, v: &HoldingLineView) -> (r: Option<DefenderState>)
        ensures
            r == carrier_role_spec(*v),
    {
        match v.carrier {
            None => None,
            Some(c) => {
                let primary = match v.role {
                    DefensiveRole::Primary => true,
                    _ => false,
                };
                if c.within_25 && primary {
                    return Some(DefenderState::Tackling);
                }
                match v.role {
                    DefensiveRole::Primary => {
                        if c.within_60 || v.counter_press_reach {
                            Some(DefenderState::Pressing)
                        } else {
                            None
                        }
                    },
                    DefensiveRole::Cover => {
                        if c.within_100 && v.ball_on_own_side {
                            Some(DefenderState::Covering)
                        } else {
                            None
                        }
                    },
                    DefensiveRole::Help => Some(DefenderState::Marking),
                    DefensiveRole::Hold => None,
                }
            },
        }
    }

    /// The state's decision for this tick.
    pub fn process(&self, v: &HoldingLineView) -> (r: Option<DefenderTransition>)
        ensures
            r == holding_line_spec(*v),
    {
        let next = self.next_state(v);
        match next {
            Some(s) => Some(DefenderTransition::with_state(s)),
            None => None,
        }
    }

    fn next_state(&self, v: &HoldingLineView) -> (r: Option<DefenderState>)
        ensures
            r == holding_line_state_spec(*v),
    {
        if !v.has_ball && v.central_defender && v.team_attacking_corner {
            return Some(DefenderState::AttackingCorner);
        }
        if v.aerial_ball {
            return Some(DefenderState::Heading);
        }
        if v.box_emergency {
            match v.carrier {
                Some(c) => {
                    if c.within_25 {
                        return Some(DefenderState::Tackling);
                    }
                    return Some(DefenderState::Pressing);
                },
                None => {},
            }
        }
        if v.step_up {
            return Some(DefenderState::Pressing);
        }
        if !DefensiveLine::is_in_line(PlayerState::Defender(DefenderState::HoldingLine), v.deviation) {
            return Some(DefenderState::Running);
        }
        if !v.ball_owned && v.ball_within_40 && v.ball_slow {
            return Some(DefenderState::TakeBall);
        }
        let by_role = self.carrier_response(v);
        if by_role.is_some() {
            return by_role;
        }
        if v.runner_within_25 {
            return Some(DefenderState::Marking);
        }
        if v.ball_on_own_side && v.unmarked_within_60 {
            return Some(DefenderState::Guarding);
        }
        if v.loose_ball_to_goal {
            return Some(DefenderState::Intercepting);
        }
        if v.ball_within_250 && v.ball_towards_me {
            return Some(DefenderState::Intercepting);
        }
        if v.ball_within_150 {
            return if v.opponent_nearby {
                Some(DefenderState::Marking)
            } else {
                Some(DefenderState::Intercepting)
            };
        }
        None
    }
}

/// A defender holding the line never leaves it to drift: every transition
/// out is to an action (a challenge, a mark, an interception) or back into
/// shape by running; and he only drops the line when he is past its exit
/// band or something more urgent came first.
pub proof fn lemma_holding_line_transitions(v: HoldingLineView)
    ensures
        holding_line_state_spec(v) != Some(DefenderState::HoldingLine),
        holding_line_state_spec(v) != Some(DefenderState::Standing),
        holding_line_state_spec(v) != Some(DefenderState::Walking),
        holding_line_state_spec(v) == Some(DefenderState::Running) ==> v.deviation
            == LineDeviation::Outside,
{
}

} // verus!
