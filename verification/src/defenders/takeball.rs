//! The defender going for a loose ball.
use vstd::prelude::*;
use crate::model::{DefenderState, DefenderTransition};

verus! {

/// The defender going for a loose ball.
#[derive(Debug, Clone, Copy, PartialEq, Eq, Structural, Default)]
pub struct DefenderTakeBallState {}

impl DefenderTakeBallState {
    /// The chase ends when he has it or anybody else has: either way he
    /// runs on.
    pub fn process(&self, has_ball: bool, ball_owned: bool) -> (r: Option<DefenderTransition>)
        ensures
            r == (if has_ball || ball_owned {
                Some(DefenderTransition::to(DefenderState::Running))
            } else {
                None
            }),
    {
        if has_ball {
            return Some(DefenderTransition::with_state(DefenderState::Running));
        }
        if ball_owned {
            return Some(DefenderTransition::with_state(DefenderState::Running));
        }
        None
    }
}

} // verus!
