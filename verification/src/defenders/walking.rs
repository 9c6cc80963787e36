//! The defender walking in his zone.
use vstd::prelude::*;
use crate::model::{DefenderState, DefenderTransition};

verus! {

/// How far the carrier is from a walking defender.
#[derive(Debug, Clone, Copy, PartialEq, Eq, Structural)]
pub enum CarrierBand {
    Under25,
    Under50,
    Under80,
    Under120,
    Farther,
}

/// Everything the walking state reads on one tick.
#[derive(Debug, Clone, Copy, PartialEq, Eq, Structural)]
pub struct WalkingView {
    pub has_ball: bool,
    pub central_defender: bool,
    pub team_attacking_corner: bool,
    pub take_ball_immediately: bool,
    pub best_to_chase: bool,
    pub carrier: Option<CarrierBand>,
    /// The first opponent without the ball is within 25 units.
    pub free_opponent_within_25: bool,
    pub ball_on_own_side: bool,
    pub ball_owned: bool,
    pub ball_towards_me_08: bool,
    pub ball_within_150: bool,
    /// More than a recovery run from his anchor.
    pub far_from_anchor: bool,
    pub opponent_within_20: bool,
    pub ball_within_20: bool,
    pub ball_fast: bool,
    pub ball_towards_me: bool,
}

/// The defender walking in his zone.
#[derive(Debug, Clone, Copy, PartialEq, Eq, Structural, Default)]
pub struct DefenderWalkingState {}

pub open spec fn nearby_threats_spec(v: WalkingView) -> bool {
    v.opponent_within_20 || (v.ball_within_20 && v.ball_fast && v.ball_towards_me)
}

pub open spec fn walking_state_spec(v: WalkingView) -> Option<DefenderState> {
    if !v.has_ball && v.central_defender && v.team_attacking_corner {
        Some(DefenderState::AttackingCorner)
    } else if v.take_ball_immediately && v.best_to_chase {
        Some(DefenderState::TakeBall)
    } else if v.carrier == Some(CarrierBand::Under25) {
        Some(DefenderState::Tackling)
    } else if v.carrier == Some(CarrierBand::Under50) || v.carrier == Some(CarrierBand::Under80) {
        Some(DefenderState::Pressing)
    } else if v.free_opponent_within_25 {
        Some(DefenderState::Marking)
    } else if v.ball_on_own_side && v.carrier == Some(CarrierBand::Under120) {
        Some(DefenderState::Covering)
    } else if !v.has_ball && !v.ball_owned && v.ball_towards_me_08 && v.ball_within_150 {
        Some(DefenderState::Intercepting)
    } else if v.far_from_anchor && !nearby_threats_spec(v) {
        Some(DefenderState::Returning)
    } else {
        None
    }
}

impl DefenderWalkingState {
    /// A threat: an opponent within 20, or a fast ball within 20 coming at
    /// him.
    pub fn has_nearby_threats(&self, v: &WalkingView) -> (r: bool)
        ensures
            r == nearby_threats_spec(*v),
    {
        if v.opponent_within_20 {
            return true;
        }
        if v.ball_within_20 && v.ball_fast && v.ball_towards_me {
            return true;
        }
        false
    }

    /// The state's decision for this tick. The carrier's distance is read
    /// in bands: tackle under 25, press under 80, cover under 120 on our
    /// side.
    pub fn process(&self, v: &WalkingView) -> (r: Option<DefenderTransition>)
        ensures
            r == (match walking_state_spec(*v) {
                Some(s) => Some(DefenderTransition::to(s)),
                None => None,
            }),
    {
        if !v.has_ball && v.central_defender && v.team_attacking_corner {
            return Some(DefenderTransition::with_state(DefenderState::AttackingCorner));
        }
        if v.take_ball_immediately && v.best_to_chase {
            return Some(DefenderTransition::with_state(DefenderState::TakeBall));
        }
        match v.carrier {
            Some(CarrierBand::Under25) => {
                return Some(DefenderTransition::with_state(DefenderState::Tackling));
            },
            Some(CarrierBand::Under50) => {
                return Some(DefenderTransition::with_state(DefenderState::Pressing));
            },
            Some(CarrierBand::Under80) => {
                return Some(DefenderTransition::with_state(DefenderState::Pressing));
            },
            _ => {},
        }
        if v.free_opponent_within_25 {
            return Some(DefenderTransition::with_state(DefenderState::Marking));
        }
        if v.ball_on_own_side {
            match v.carrier {
                Some(CarrierBand::Under120) => {
                    return Some(DefenderTransition::with_state(DefenderState::Covering));
                },
                _ => {},
            }
        }
        if !v.has_ball && !v.ball_owned && v.ball_towards_me_08 && v.ball_within_150 {
            return Some(DefenderTransition::with_state(DefenderState::Intercepting));
        }
        if v.far_from_anchor && !self.has_nearby_threats(v) {
            return Some(DefenderTransition::with_state(DefenderState::Returning));
        }
        None
    }
}

/// A walking defender never marks the carrier himself: inside the marking
/// distance he is already inside the pressing distance, so the carrier
/// close by is always pressed or tackled.
pub proof fn lemma_carrier_never_just_marked(v: WalkingView)
    requires
        !(!v.has_ball && v.central_defender && v.team_attacking_corner),
        !(v.take_ball_immediately && v.best_to_chase),
        v.carrier == Some(CarrierBand::Under25) || v.carrier == Some(CarrierBand::Under50),
    ensures
        walking_state_spec(v) == Some(DefenderState::Tackling) || walking_state_spec(v) == Some(
            DefenderState::Pressing,
        ),
{
}

} // verus!
