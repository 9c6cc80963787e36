//! The defender going up for a header.
use vstd::prelude::*;
use crate::model::{DefenderState, DefenderTransition, PlayerEvent, ShotKind};

verus! {

/// Everything the heading state reads on one tick.
#[derive(Debug, Clone, Copy, PartialEq, Eq, Structural)]
pub struct HeadingView {
    pub player_id: u32,
    pub team_attacking_corner: bool,
    /// The ball is beyond heading reach.
    pub ball_out_of_reach: bool,
    /// The ball is below heading height.
    pub ball_too_low: bool,
    /// The header roll came in.
    pub header_won: bool,
    /// Within attacking-header range of the opponents' goal.
    pub near_opponent_goal: bool,
}

/// The defender going up for a header.
#[derive(Debug, Clone, Copy, PartialEq, Eq, Structural, Default)]
pub struct DefenderHeadingState {}

pub open spec fn heading_spec(v: HeadingView) -> DefenderTransition {
    if v.ball_out_of_reach {
        DefenderTransition::to(
            if v.team_attacking_corner {
                DefenderState::AttackingCorner
            } else {
                DefenderState::HoldingLine
            },
        )
    } else if v.ball_too_low {
        DefenderTransition::to(
            if v.team_attacking_corner {
                DefenderState::AttackingCorner
            } else {
                DefenderState::Standing
            },
        )
    } else if v.header_won {
        if v.near_opponent_goal {
            DefenderTransition {
                state: DefenderState::AttackingCorner,
                event: Some(PlayerEvent::Shoot { player: v.player_id, kind: ShotKind::HeaderOnGoal }),
            }
        } else {
            DefenderTransition {
                state: DefenderState::HoldingLine,
                event: Some(
                    PlayerEvent::Shoot { player: v.player_id, kind: ShotKind::HeadedClearance },
                ),
            }
        }
    } else {
        DefenderTransition::to(DefenderState::Standing)
    }
}

impl DefenderHeadingState {
    /// The state's decision: back to his job when the ball is out of reach
    /// or too low; otherwise, if he wins it, a header at goal near theirs or
    /// a headed clearance anywhere else; if not, he is left standing.
    pub fn process(&self, v: &HeadingView) -> (r: Option<DefenderTransition>)
        ensures
            r == Some(heading_spec(*v)),
    {
        if v.ball_out_of_reach {
            return Some(
                DefenderTransition::with_state(
                    if v.team_attacking_corner {
                        DefenderState::AttackingCorner
                    } else {
                        DefenderState::HoldingLine
                    },
                ),
            );
        }
        if v.ball_too_low {
            return Some(
                DefenderTransition::with_state(
                    if v.team_attacking_corner {
                        DefenderState::AttackingCorner
                    } else {
                        DefenderState::Standing
                    },
                ),
            );
        }
        if v.header_won {
            if v.near_opponent_goal {
                Some(
                    DefenderTransition::with_event(
                        DefenderState::AttackingCorner,
                        PlayerEvent::Shoot { player: v.player_id, kind: ShotKind::HeaderOnGoal },
                    ),
                )
            } else {
                Some(
                    DefenderTransition::with_event(
                        DefenderState::HoldingLine,
                        PlayerEvent::Shoot { player: v.player_id, kind: ShotKind::HeadedClearance },
                    ),
                )
            }
        } else {
            Some(DefenderTransition::with_state(DefenderState::Standing))
        }
    }
}

} // verus!
