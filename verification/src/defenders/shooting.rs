//! The defender taking a shot.
use vstd::prelude::*;
use crate::model::{DefenderState, DefenderTransition, PlayerEvent, ShotKind};

verus! {

/// The defender taking a shot.
#[derive(Debug, Clone, Copy, PartialEq, Eq, Structural, Default)]
pub struct DefenderShootingState {}

impl DefenderShootingState {
    /// The state's decision: nothing to shoot without the ball; from
    /// distance he needs a clear sight of goal; otherwise he shoots, and
    /// stands.
    pub fn process(&self, me: u32, has_ball: bool, beyond_35: bool, clear_shot: bool) -> (r: Option<
        DefenderTransition,
    >)
        ensures
            r == (if !has_ball || (beyond_35 && !clear_shot) {
                Some(DefenderTransition::to(DefenderState::Standing))
            } else {
                Some(
                    DefenderTransition {
                        state: DefenderState::Standing,
                        event: Some(PlayerEvent::Shoot { player: me, kind: ShotKind::Normal }),
                    },
                )
            }),
    {
        if !has_ball {
            return Some(DefenderTransition::with_state(DefenderState::Standing));
        }
        if beyond_35 && !clear_shot {
            return Some(DefenderTransition::with_state(DefenderState::Standing));
        }
        Some(
            DefenderTransition::with_event(
                DefenderState::Standing,
                PlayerEvent::Shoot { player: me, kind: ShotKind::Normal },
            ),
        )
    }
}

} // verus!
