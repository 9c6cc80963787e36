//! The defender clearing the ball.
use vstd::prelude::*;
use crate::model::{DefenderState, DefenderTransition, PlayerEvent};

verus! {

/// The defender clearing the ball.
#[derive(Debug, Clone, Copy, PartialEq, Eq, Structural, Default)]
pub struct DefenderClearingState {}

impl DefenderClearingState {
    pub open spec fn contact_spec(me: u32, owner: Option<u32>, kickable: bool) -> bool {
        (owner.is_none() || owner == Some(me)) && kickable
    }

    /// He can still reach the ball: nobody else owns it and it is within
    /// kicking distance (`kickable`).
    pub fn contact_available(&self, me: u32, owner: Option<u32>, kickable: bool) -> (r: bool)
        ensures
            r == Self::contact_spec(me, owner, kickable),
    {
        let free = match owner {
            None => true,
            Some(id) => id == me,
        };
        free && kickable
    }

    /// The state's decision: back to standing if the ball has gone; a beat
    /// to set himself; then the clearance, after which he stands.
    pub fn process(&self, me: u32, owner: Option<u32>, kickable: bool, in_state_time: u64) -> (r:
        Option<DefenderTransition>)
        ensures
            r == (if !Self::contact_spec(me, owner, kickable) {
                Some(DefenderTransition::to(DefenderState::Standing))
            } else if in_state_time < 5 {
                None
            } else {
                Some(
                    DefenderTransition {
                        state: DefenderState::Standing,
                        event: Some(PlayerEvent::ClearBall(me)),
                    },
                )
            }),
    {
        if !self.contact_available(me, owner, kickable) {
            return Some(DefenderTransition::with_state(DefenderState::Standing));
        }
        if in_state_time < 5 {
            return None;
        }
        Some(DefenderTransition::with_event(DefenderState::Standing, PlayerEvent::ClearBall(me)))
    }
}

} // verus!
