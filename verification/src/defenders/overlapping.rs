//! The full-back running beyond the man on his flank.
use vstd::prelude::*;
use crate::model::{DefenderState, DefenderTransition};
use crate::width::{WideChannel, WidePlan};

verus! {

/// Everything the overlapping state reads on one tick.
#[derive(Debug, Clone, Copy, PartialEq, Eq, Structural)]
pub struct OverlappingView {
    pub player_id: u32,
    pub has_ball: bool,
    pub control_ball: bool,
    pub plan: WidePlan,
    /// A box slot has been given to him.
    pub box_slot: bool,
    pub ball_towards_me: bool,
    pub ball_within_120: bool,
    pub ball_owned: bool,
}

/// The full-back running beyond the man on his flank.
#[derive(Debug, Clone, Copy, PartialEq, Eq, Structural, Default)]
pub struct DefenderOverlappingState {}

pub open spec fn overlapping_spec(v: OverlappingView) -> Option<DefenderTransition> {
    if v.has_ball {
        Some(DefenderTransition::to(DefenderState::Running))
    } else if !(v.control_ball && WideChannel::assignment_spec(v.plan, v.player_id).is_some()
        && !v.box_slot) {
        Some(
            DefenderTransition::to(
                if v.control_ball {
                    DefenderState::PushingUp
                } else {
                    DefenderState::TrackingBack
                },
            ),
        )
    } else if v.ball_towards_me && v.ball_within_120 && !v.ball_owned {
        Some(DefenderTransition::to(DefenderState::TakeBall))
    } else {
        None
    }
}

impl DefenderOverlappingState {
    /// The state's decision: run with it when it reaches him; once the wide
    /// job is gone, push up behind the attack if his side still has the
    /// ball or track back if not; go for a loose ball coming his way.
    pub fn process(&self, v: &OverlappingView) -> (r: Option<DefenderTransition>)
        ensures
            r == overlapping_spec(*v),
    {
        if v.has_ball {
            return Some(DefenderTransition::with_state(DefenderState::Running));
        }
        if !WideChannel::still_mine(&v.plan, v.player_id, v.has_ball, v.control_ball, v.box_slot) {
            return Some(
                DefenderTransition::with_state(
                    if v.control_ball {
                        DefenderState::PushingUp
                    } else {
                        DefenderState::TrackingBack
                    },
                ),
            );
        }
        if v.ball_towards_me && v.ball_within_120 && !v.ball_owned {
            return Some(DefenderTransition::with_state(DefenderState::TakeBall));
        }
        None
    }
}

} // verus!
