//! The defender throwing himself in front of a shot.
use vstd::prelude::*;
use crate::model::{DefenderState, DefenderTransition, PlayerEvent};

verus! {

/// Everything the blocking state reads on one tick.
#[derive(Debug, Clone, Copy, PartialEq, Eq, Structural)]
pub struct BlockingView {
    pub player_id: u32,
    pub in_state_time: u64,
    pub has_ball: bool,
    pub ball_owned: bool,
    /// Within lunging distance of the ball.
    pub ball_within_block: bool,
    /// The block roll came in.
    pub block_roll: bool,
    /// The ball has all but stopped.
    pub ball_stopped: bool,
    /// The ball is beyond four lunges away.
    pub ball_far: bool,
    pub ball_towards_me: bool,
}

/// The defender throwing himself in front of a shot.
#[derive(Debug, Clone, Copy, PartialEq, Eq, Structural, Default)]
pub struct DefenderBlockingState {}

impl DefenderBlockingState {
    /// He gives up the block after this long, in ticks.
    pub const MAX_BLOCK_TIME: u64 = 500;

    pub open spec fn try_fast_spec(v: BlockingView) -> Option<DefenderTransition> {
        if v.has_ball || v.in_state_time > Self::MAX_BLOCK_TIME {
            Some(DefenderTransition::to(DefenderState::Standing))
        } else if v.ball_within_block && !v.ball_owned && v.block_roll {
            Some(
                DefenderTransition {
                    state: DefenderState::Standing,
                    event: Some(PlayerEvent::ClaimBall(v.player_id)),
                },
            )
        } else if v.ball_stopped || v.ball_far || !v.ball_towards_me {
            Some(DefenderTransition::to(DefenderState::Standing))
        } else {
            None
        }
    }

    /// The state's decision: back to standing with the ball at his feet,
    /// after the time limit, once the shot is dead, far, or not coming at
    /// him; a claimed ball when the block comes off.
    pub fn try_fast(&self, v: &BlockingView) -> (r: Option<DefenderTransition>)
        ensures
            r == Self::try_fast_spec(*v),
    {
        if v.has_ball {
            return Some(DefenderTransition::with_state(DefenderState::Standing));
        }
        if v.in_state_time > Self::MAX_BLOCK_TIME {
            return Some(DefenderTransition::with_state(DefenderState::Standing));
        }
        if v.ball_within_block && !v.ball_owned && v.block_roll {
            return Some(
                DefenderTransition::with_event(DefenderState::Standing, PlayerEvent::ClaimBall(v.player_id)),
            );
        }
        if v.ball_stopped {
            return Some(DefenderTransition::with_state(DefenderState::Standing));
        }
        if v.ball_far {
            return Some(DefenderTransition::with_state(DefenderState::Standing));
        }
        if !v.ball_towards_me {
            return Some(DefenderTransition::with_state(DefenderState::Standing));
        }
        None
    }
}

/// A block always ends in standing: every transition out of the state is
/// back to standing.
pub proof fn lemma_block_ends_standing(v: BlockingView)
    ensures
        DefenderBlockingState::try_fast_spec(v) matches Some(t) ==> t.state == DefenderState::Standing,
        v.in_state_time > DefenderBlockingState::MAX_BLOCK_TIME ==> DefenderBlockingState::try_fast_spec(
            v,
        ).is_some(),
{
}

} // verus!
