//! The defender pushed up into the box for his own side's corner.
use vstd::prelude::*;
use crate::model::{DefenderState, DefenderTransition, PlayerEvent, ShotKind};

verus! {

/// Everything the attacking-corner state reads on one tick.
#[derive(Debug, Clone, Copy, PartialEq, Eq, Structural)]
pub struct AttackingCornerView {
    pub player_id: u32,
    pub has_ball: bool,
    /// Within 80 units of the opponents' goal.
    pub near_opponent_goal: bool,
    /// The ball is at header height and within header reach.
    pub header_chance: bool,
    /// He wins the header.
    pub header_won: bool,
    pub team_attacking_corner: bool,
    pub ball_owned: bool,
    pub ball_within_8: bool,
}

/// The defender pushed up into the box for a corner.
#[derive(Debug, Clone, Copy, PartialEq, Eq, Structural, Default)]
pub struct DefenderAttackingCornerState {}

pub open spec fn attacking_corner_spec(v: AttackingCornerView) -> Option<DefenderTransition> {
    if v.has_ball {
        if v.near_opponent_goal {
            Some(DefenderTransition::to(DefenderState::Shooting))
        } else {
            Some(DefenderTransition::to(DefenderState::Running))
        }
    } else if v.header_chance {
        if v.header_won {
            Some(
                DefenderTransition {
                    state: DefenderState::AttackingCorner,
                    event: Some(PlayerEvent::Shoot { player: v.player_id, kind: ShotKind::CornerHeader }),
                },
            )
        } else {
            None
        }
    } else if !v.team_attacking_corner {
        Some(DefenderTransition::to(DefenderState::Returning))
    } else if !v.ball_owned && v.ball_within_8 {
        Some(DefenderTransition::to(DefenderState::TakeBall))
    } else {
        None
    }
}

impl DefenderAttackingCornerState {
    /// The state's decision for this tick.
    pub fn process(&self, v: &AttackingCornerView) -> (r: Option<DefenderTransition>)
        ensures
            r == attacking_corner_spec(*v),
    {
        if v.has_ball {
            if v.near_opponent_goal {
                return Some(DefenderTransition::with_state(DefenderState::Shooting));
            }
            return Some(DefenderTransition::with_state(DefenderState::Running));
        }
        if v.header_chance {
            if v.header_won {
                return Some(
                    DefenderTransition::with_event(
                        DefenderState::AttackingCorner,
                        PlayerEvent::Shoot { player: v.player_id, kind: ShotKind::CornerHeader },
                    ),
                );
            }
            return None;
        }
        if !v.team_attacking_corner {
            return Some(DefenderTransition::with_state(DefenderState::Returning));
        }
        if !v.ball_owned && v.ball_within_8 {
            return Some(DefenderTransition::with_state(DefenderState::TakeBall));
        }
        None
    }
}

/// Once the corner is over he goes home: with the ball elsewhere and no
/// header on, a finished corner always sends him back.
pub proof fn lemma_corner_over_returns(v: AttackingCornerView)
    requires
        !v.has_ball,
        !v.header_chance,
        !v.team_attacking_corner,
    ensures
        attacking_corner_spec(v) == Some(DefenderTransition::to(DefenderState::Returning)),
{
}

} // verus!
