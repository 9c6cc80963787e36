//! The overlapping defender delivering a cross.
use vstd::prelude::*;
use crate::model::{DefenderState, DefenderTransition, PassReason, PlayerEvent};

verus! {

/// The defender delivering a cross.
#[derive(Debug, Clone, Copy, PartialEq, Eq, Structural, Default)]
pub struct DefenderCrossingState {}

impl DefenderCrossingState {
    /// How long he sets himself before the cross, in ticks.
    pub const CROSS_EXECUTION_TIME: u64 = 5;

    pub open spec fn process_spec(me: u32, has_ball: bool, in_state_time: u64, pick: Option<u32>) -> Option<
        DefenderTransition,
    > {
        if !has_ball {
            Some(DefenderTransition::to(DefenderState::TrackingBack))
        } else if in_state_time > Self::CROSS_EXECUTION_TIME {
            match pick {
                Some(t) => Some(
                    DefenderTransition {
                        state: DefenderState::TrackingBack,
                        event: Some(
                            PlayerEvent::PassTo { from: me, to: t, reason: PassReason::DefenderOverlapCross },
                        ),
                    },
                ),
                None => Some(DefenderTransition::to(DefenderState::Passing)),
            }
        } else {
            None
        }
    }

    /// Without the ball he tracks back; once set he crosses to the target
    /// the cross model picked (`pick`) and tracks back, or, with nobody to
    /// cross to, looks for a pass instead.
    pub fn process(&self, me: u32, has_ball: bool, in_state_time: u64, pick: Option<u32>) -> (r:
        Option<DefenderTransition>)
        ensures
            r == Self::process_spec(me, has_ball, in_state_time, pick),
    {
        if !has_ball {
            return Some(DefenderTransition::with_state(DefenderState::TrackingBack));
        }
        if in_state_time > Self::CROSS_EXECUTION_TIME {
            return match pick {
                Some(t) => Some(
                    DefenderTransition::with_event(
                        DefenderState::TrackingBack,
                        PlayerEvent::PassTo { from: me, to: t, reason: PassReason::DefenderOverlapCross },
                    ),
                ),
                None => Some(DefenderTransition::with_state(DefenderState::Passing)),
            };
        }
        None
    }
}

} // verus!
