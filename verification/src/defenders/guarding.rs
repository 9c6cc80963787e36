//! The defender guarding an attacker tight.
use vstd::prelude::*;
use crate::model::{DefenderState, DefenderTransition};

verus! {

/// The man he is guarding, as he reads him.
#[derive(Debug, Clone, Copy, PartialEq, Eq, Structural)]
pub struct GuardTarget {
    pub id: u32,
    pub has_ball: bool,
    pub within_5: bool,
    /// Beyond the guarding range.
    pub beyond_range: bool,
    /// The ball is nearer him than the man is, give or take 10 units.
    pub ball_nearer_than_man: bool,
}

/// Everything the guarding state reads on one tick.
#[derive(Debug, Clone, Copy, PartialEq, Eq, Structural)]
pub struct GuardingView {
    pub take_ball_immediately: bool,
    pub condition_pct: u32,
    pub aerial_ball: bool,
    /// The man his scan picked to guard.
    pub target: Option<GuardTarget>,
    pub ball_within_80: bool,
    pub ball_towards_me: bool,
    pub ball_on_own_side: bool,
    pub ball_beyond_300: bool,
}

/// The defender guarding an attacker tight.
#[derive(Debug, Clone, Copy, PartialEq, Eq, Structural, Default)]
pub struct DefenderGuardingState {}

pub open spec fn guarding_state_spec(v: GuardingView) -> Option<DefenderState> {
    if v.take_ball_immediately {
        Some(DefenderState::TakeBall)
    } else if v.condition_pct < 15 {
        Some(DefenderState::Resting)
    } else if v.aerial_ball {
        Some(DefenderState::Heading)
    } else {
        match v.target {
            None => Some(DefenderState::HoldingLine),
            Some(o) => if o.has_ball {
                if o.within_5 {
                    Some(DefenderState::Tackling)
                } else {
                    Some(DefenderState::Pressing)
                }
            } else if v.ball_within_80 && v.ball_towards_me && o.ball_nearer_than_man {
                Some(DefenderState::Intercepting)
            } else if o.beyond_range {
                Some(DefenderState::HoldingLine)
            } else if !v.ball_on_own_side && v.ball_beyond_300 {
                Some(DefenderState::PushingUp)
            } else {
                None
            },
        }
    }
}

impl DefenderGuardingState {
    /// The state's decision for this tick.
    pub fn try_fast(&self, v: &GuardingView) -> (r: Option<DefenderTransition>)
        ensures
            r == (match guarding_state_spec(*v) {
                Some(s) => Some(DefenderTransition::to(s)),
                None => None,
            }),
    {
        let next = if v.take_ball_immediately {
            Some(DefenderState::TakeBall)
        } else if v.condition_pct < 15 {
            Some(DefenderState::Resting)
        } else if v.aerial_ball {
            Some(DefenderState::Heading)
        } else {
            match v.target {
                None => Some(DefenderState::HoldingLine),
                Some(o) => {
                    if o.has_ball {
                        if o.within_5 {
                            Some(DefenderState::Tackling)
                        } else {
                            Some(DefenderState::Pressing)
                        }
                    } else if v.ball_within_80 && v.ball_towards_me && o.ball_nearer_than_man {
                        Some(DefenderState::Intercepting)
                    } else if o.beyond_range {
                        Some(DefenderState::HoldingLine)
                    } else if !v.ball_on_own_side && v.ball_beyond_300 {
                        Some(DefenderState::PushingUp)
                    } else {
                        None
                    }
                },
            }
        };
        match next {
            Some(s) => Some(DefenderTransition::with_state(s)),
            None => None,
        }
    }
}

/// A guard whose man receives the ball always goes to him: a tackle when
/// touch-tight, a press otherwise (unless something earlier in the order —
/// the loose ball, exhaustion, a header — came first).
pub proof fn lemma_guard_goes_to_the_ball(v: GuardingView)
    requires
        !v.take_ball_immediately,
        v.condition_pct >= 15,
        !v.aerial_ball,
        v.target matches Some(o) && o.has_ball,
    ensures
        guarding_state_spec(v) == Some(DefenderState::Tackling) || guarding_state_spec(v) == Some(
            DefenderState::Pressing,
        ),
{
}

} // verus!
