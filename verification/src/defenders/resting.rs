//! The exhausted defender getting his breath back.
use vstd::prelude::*;
use crate::model::{DefenderState, DefenderTransition};

verus! {

/// The exhausted defender getting his breath back.
#[derive(Debug, Clone, Copy, PartialEq, Eq, Structural, Default)]
pub struct DefenderRestingState {}

impl DefenderRestingState {
    /// Condition, in percent, at which he is recovered.
    pub const STAMINA_RECOVERY_THRESHOLD: u32 = 65;
    /// Condition, in percent, at which he answers a defensive crisis.
    pub const CRISIS_ENGAGE_STAMINA: u32 = 45;

    pub open spec fn process_spec(
        condition_pct: u32,
        crisis: bool,
        ball_within_10: bool,
        opponent_within_10: bool,
    ) -> Option<DefenderTransition> {
        if crisis && condition_pct >= Self::CRISIS_ENGAGE_STAMINA {
            Some(DefenderTransition::to(DefenderState::Pressing))
        } else if condition_pct >= Self::STAMINA_RECOVERY_THRESHOLD {
            Some(DefenderTransition::to(DefenderState::HoldingLine))
        } else if ball_within_10 {
            Some(
                DefenderTransition::to(
                    if opponent_within_10 {
                        DefenderState::Marking
                    } else {
                        DefenderState::Intercepting
                    },
                ),
            )
        } else {
            None
        }
    }

    /// Is an opponent within 10 units?
    pub fn is_opponent_nearby(&self, opponent_within_10: bool) -> (r: bool)
        ensures
            r == opponent_within_10,
    {
        opponent_within_10
    }

    /// The state's decision: back to pressing in a crisis if he has enough
    /// left, back to the line once recovered, and a reaction to a ball at
    /// his feet.
    pub fn process(&self, condition_pct: u32, crisis: bool, ball_within_10: bool, opponent_within_10: bool)
        -> (r: Option<DefenderTransition>)
        ensures
            r == Self::process_spec(condition_pct, crisis, ball_within_10, opponent_within_10),
    {
        if crisis && condition_pct >= Self::CRISIS_ENGAGE_STAMINA {
            return Some(DefenderTransition::with_state(DefenderState::Pressing));
        }
        if condition_pct >= Self::STAMINA_RECOVERY_THRESHOLD {
            return Some(DefenderTransition::with_state(DefenderState::HoldingLine));
        }
        if ball_within_10 {
            let opponent_nearby = self.is_opponent_nearby(opponent_within_10);
            return Some(
                DefenderTransition::with_state(
                    if opponent_nearby {
                        DefenderState::Marking
                    } else {
                        DefenderState::Intercepting
                    },
                ),
            );
        }
        None
    }
}

/// A recovered defender never stays resting, and below the crisis level a
/// crisis never drags him out.
pub proof fn lemma_rest_until_recovered(condition_pct: u32, crisis: bool, ball: bool, opp: bool)
    ensures
        condition_pct >= DefenderRestingState::STAMINA_RECOVERY_THRESHOLD ==> DefenderRestingState::process_spec(
            condition_pct,
            crisis,
            ball,
            opp,
        ).is_some(),
        condition_pct < DefenderRestingState::CRISIS_ENGAGE_STAMINA ==> DefenderRestingState::process_spec(
            condition_pct,
            crisis,
            ball,
            opp,
        ) != Some(DefenderTransition::to(DefenderState::Pressing)),
{
}

} // verus!
