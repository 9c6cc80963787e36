//! The defender pressing the man on the ball.
use vstd::prelude::*;
use crate::model::{DefenderState, DefenderTransition, DefensiveRole};
use crate::engagement::{EngagementView, TackleEngagement};

verus! {

/// The carrier as the pressing state reads him.
#[derive(Debug, Clone, Copy, PartialEq, Eq, Structural)]
pub struct PressCarrierRead {
    pub within_commit: bool,
    /// Beyond this defender's pressing range.
    pub beyond_press_range: bool,
}

/// Everything the pressing state reads on one tick.
#[derive(Debug, Clone, Copy, PartialEq, Eq, Structural)]
pub struct PressingView {
    pub has_ball: bool,
    pub condition_pct: u32,
    /// His defensive profile says his legs are gone.
    pub profile_spent: bool,
    pub ball_in_flight: bool,
    pub ball_owned: bool,
    pub carrier: Option<PressCarrierRead>,
    pub can_attempt_tackle: bool,
    pub engagement: EngagementView,
    pub role: DefensiveRole,
    pub ball_within_50: bool,
    pub ball_within_60: bool,
    pub ball_slow: bool,
}

/// The defender pressing the man on the ball.
#[derive(Debug, Clone, Copy, PartialEq, Eq, Structural, Default)]
pub struct DefenderPressingState {}

pub open spec fn pressing_state_spec(v: PressingView) -> Option<DefenderState> {
    if v.has_ball {
        Some(DefenderState::Running)
    } else if v.condition_pct < 25 || v.profile_spent {
        Some(DefenderState::Resting)
    } else if v.ball_in_flight && v.ball_owned {
        Some(DefenderState::HoldingLine)
    } else {
        match v.carrier {
            Some(c) => if c.within_commit && v.can_attempt_tackle
                && TackleEngagement::may_engage_carrier_spec(v.engagement) {
                Some(DefenderState::Tackling)
            } else if c.beyond_press_range {
                Some(DefenderState::HoldingLine)
            } else {
                match v.role {
                    DefensiveRole::Primary => None,
                    DefensiveRole::Cover => Some(DefenderState::Covering),
                    DefensiveRole::Help => Some(DefenderState::Marking),
                    DefensiveRole::Hold => Some(DefenderState::HoldingLine),
                }
            },
            None => if !v.ball_owned && v.ball_within_50 && v.ball_slow {
                Some(DefenderState::TakeBall)
            } else if v.ball_within_60 && !v.ball_owned {
                Some(DefenderState::Intercepting)
            } else {
                Some(DefenderState::HoldingLine)
            },
        }
    }
}

impl DefenderPressingState {
    /// The state's decision for this tick: only the carrier's primary
    /// defender keeps pressing; the others take their own part.
    pub fn process(&self, v: &PressingView) -> (r: Option<DefenderTransition>)
        ensures
            r == (match pressing_state_spec(*v) {
                Some(s) => Some(DefenderTransition::to(s)),
                None => None,
            }),
    {
        let next = if v.has_ball {
            Some(DefenderState::Running)
        } else if v.condition_pct < 25 || v.profile_spent {
            Some(DefenderState::Resting)
        } else if v.ball_in_flight && v.ball_owned {
            Some(DefenderState::HoldingLine)
        } else {
            match v.carrier {
                Some(c) => {
                    if TackleEngagement::should_commit(&v.engagement, c.within_commit, v.can_attempt_tackle) {
                        Some(DefenderState::Tackling)
                    } else if c.beyond_press_range {
                        Some(DefenderState::HoldingLine)
                    } else {
                        match v.role {
                            DefensiveRole::Primary => None,
                            DefensiveRole::Cover => Some(DefenderState::Covering),
                            DefensiveRole::Help => Some(DefenderState::Marking),
                            DefensiveRole::Hold => Some(DefenderState::HoldingLine),
                        }
                    }
                },
                None => {
                    if !v.ball_owned && v.ball_within_50 && v.ball_slow {
                        Some(DefenderState::TakeBall)
                    } else if v.ball_within_60 && !v.ball_owned {
                        Some(DefenderState::Intercepting)
                    } else {
                        Some(DefenderState::HoldingLine)
                    }
                },
            }
        };
        match next {
            Some(s) => Some(DefenderTransition::with_state(s)),
            None => None,
        }
    }
}

/// Pressing and tackling do not two-cycle on the engagement gate: the
/// press hands a player to the tackling state only when the engagement
/// rules already license him to go in.
pub proof fn lemma_press_hands_over_only_licensed(v: PressingView)
    ensures
        pressing_state_spec(v) == Some(DefenderState::Tackling) ==> TackleEngagement::may_engage_carrier_spec(
            v.engagement,
        ) && v.can_attempt_tackle,
        pressing_state_spec(v).is_none() ==> v.role == DefensiveRole::Primary,
{
}

} // verus!
