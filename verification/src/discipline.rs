//! Positional discipline: when the shape has no say over a player because
//! the ball, not the shape, is his job this instant.
use vstd::prelude::*;
use crate::model::{BallTickView, DefenderState, ForwardState, MidfielderState, PlayerState};

verus! {

/// What the exemption test reads about one player.
#[derive(Debug, Clone, Copy, PartialEq, Eq, Structural)]
pub struct DisciplineView {
    pub player_id: u32,
    pub is_goalkeeper: bool,
    pub has_ball: bool,
    /// Mid-way through an action that cannot be abandoned.
    pub committed_action: bool,
    pub state: PlayerState,
    /// The ball is within the engagement distance of him.
    pub ball_near: bool,
}

/// The elastic tether that keeps a player inside his zone.
pub struct ShapeDiscipline;

impl ShapeDiscipline {
    pub open spec fn holds_width_spec(state: PlayerState) -> bool {
        state == PlayerState::Midfielder(MidfielderState::HoldingWidth) || state
            == PlayerState::Forward(ForwardState::HoldingWidth) || state == PlayerState::Defender(
            DefenderState::Overlapping,
        )
    }

    pub open spec fn is_exempt_spec(v: DisciplineView, ball: BallTickView) -> bool {
        v.is_goalkeeper || v.has_ball || v.committed_action || v.state == PlayerState::Injured
            || v.ball_near || ball.pass_target == Some(v.player_id) || Self::holds_width_spec(
            v.state,
        ) || ball.restart_taker == Some(v.player_id)
    }

    /// Is the ball this player's job right now? Then the shape is not: the
    /// goalkeeper; the man on the ball or mid-action; the injured; anybody
    /// near the ball; the target of a pass; the players holding or running
    /// a touchline; and the restart taker.
    pub fn is_exempt(v: &DisciplineView, ball: &BallTickView) -> (r: bool)
        ensures
            r == Self::is_exempt_spec(*v, *ball),
    {
        if v.is_goalkeeper {
            return true;
        }
        if v.has_ball || v.committed_action {
            return true;
        }
        if v.state == PlayerState::Injured {
            return true;
        }
        if v.ball_near {
            return true;
        }
        let target = match ball.pass_target {
            Some(id) => id == v.player_id,
            None => false,
        };
        if target {
            return true;
        }
        let width = match v.state {
            PlayerState::Midfielder(MidfielderState::HoldingWidth) => true,
            PlayerState::Forward(ForwardState::HoldingWidth) => true,
            PlayerState::Defender(DefenderState::Overlapping) => true,
            _ => false,
        };
        if width {
            return true;
        }
        match ball.restart_taker {
            Some(id) => id == v.player_id,
            None => false,
        }
    }
}

/// The shape never pulls at a man whose job is the ball: the keeper, the
/// man on the ball, a player mid-action, the injured, anybody near the
/// ball, the pass's target, the men holding or running a touchline, and the
/// man sent for a restart are all exempt.
pub proof fn lemma_keeper_and_taker_exempt(v: DisciplineView, ball: BallTickView)
    ensures
        v.is_goalkeeper ==> ShapeDiscipline::is_exempt_spec(v, ball),
        v.has_ball ==> ShapeDiscipline::is_exempt_spec(v, ball),
        v.committed_action ==> ShapeDiscipline::is_exempt_spec(v, ball),
        v.state == PlayerState::Injured ==> ShapeDiscipline::is_exempt_spec(v, ball),
        v.ball_near ==> ShapeDiscipline::is_exempt_spec(v, ball),
        ball.pass_target == Some(v.player_id) ==> ShapeDiscipline::is_exempt_spec(v, ball),
        v.state == PlayerState::Midfielder(MidfielderState::HoldingWidth) ==> ShapeDiscipline::is_exempt_spec(v, ball),
        v.state == PlayerState::Forward(ForwardState::HoldingWidth) ==> ShapeDiscipline::is_exempt_spec(v, ball),
        v.state == PlayerState::Defender(DefenderState::Overlapping) ==> ShapeDiscipline::is_exempt_spec(v, ball),
        ball.restart_taker == Some(v.player_id) ==> ShapeDiscipline::is_exempt_spec(v, ball),
        // Anybody else is held to the shape.
        !v.is_goalkeeper && !v.has_ball && !v.committed_action && v.state == PlayerState::Defender(
            DefenderState::Marking,
        ) && !v.ball_near && ball.pass_target != Some(v.player_id) && ball.restart_taker != Some(
            v.player_id,
        ) ==> !ShapeDiscipline::is_exempt_spec(v, ball),
{
}

} // verus!
