//! The defender going to ground.
use vstd::prelude::*;
use crate::model::{DefenderState, DefenderTransition, FoulSeverity, PlayerEvent};

verus! {

/// Everything the sliding-tackle state reads on one tick.
#[derive(Debug, Clone, Copy, PartialEq, Eq, Structural)]
pub struct SlidingTackleView {
    pub player_id: u32,
    pub condition_pct: u32,
    pub ball_in_flight: bool,
    pub ball_owned: bool,
    /// An opponent has the ball; `Some(beyond_reach)` for him.
    pub carrier_beyond_reach: Option<bool>,
    /// The success roll came in.
    pub success_roll: bool,
    /// The foul roll came in.
    pub foul_roll: bool,
    /// Aggression high enough for the violent tail.
    pub very_aggressive: bool,
    /// The violent roll came in.
    pub violent_roll: bool,
}

/// How a slide came out: won it, committed a foul, and how bad.
#[derive(Debug, Clone, Copy, PartialEq, Eq, Structural)]
pub struct SlideResult {
    pub success: bool,
    pub committed_foul: bool,
    pub severity: FoulSeverity,
}

/// The defender going to ground.
#[derive(Debug, Clone, Copy, PartialEq, Eq, Structural, Default)]
pub struct DefenderSlidingTackleState {}

pub open spec fn slide_spec(v: SlidingTackleView) -> SlideResult {
    let committed = !v.success_roll && v.foul_roll;
    SlideResult {
        success: v.success_roll,
        committed_foul: committed,
        severity: if !committed {
            FoulSeverity::Normal
        } else if v.very_aggressive && v.violent_roll {
            FoulSeverity::Violent
        } else {
            FoulSeverity::Reckless
        },
    }
}

pub open spec fn sliding_spec(v: SlidingTackleView) -> DefenderTransition {
    if v.condition_pct < 20 {
        DefenderTransition::to(DefenderState::Resting)
    } else if v.ball_in_flight && v.ball_owned {
        DefenderTransition::to(DefenderState::Returning)
    } else {
        match v.carrier_beyond_reach {
            None => DefenderTransition::to(DefenderState::HoldingLine),
            Some(true) => DefenderTransition::to(DefenderState::Pressing),
            Some(false) => {
                let r = slide_spec(v);
                if r.success {
                    DefenderTransition {
                        state: DefenderState::Standing,
                        event: Some(PlayerEvent::GainBall(v.player_id)),
                    }
                } else if r.committed_foul {
                    DefenderTransition {
                        state: DefenderState::Standing,
                        event: Some(PlayerEvent::CommitFoul(v.player_id, r.severity)),
                    }
                } else {
                    DefenderTransition::to(DefenderState::Standing)
                }
            },
        }
    }
}

impl DefenderSlidingTackleState {
    /// The slide: won on the success roll; a foul only when it is lost and
    /// the foul roll comes in; a foul is violent for a very aggressive man
    /// whose violent roll comes in, and reckless otherwise.
    pub fn attempt_sliding_tackle(&self, v: &SlidingTackleView) -> (r: SlideResult)
        ensures
            r == slide_spec(*v),
    {
        let committed = !v.success_roll && v.foul_roll;
        let severity = if !committed {
            FoulSeverity::Normal
        } else if v.very_aggressive && v.violent_roll {
            FoulSeverity::Violent
        } else {
            FoulSeverity::Reckless
        };
        SlideResult { success: v.success_roll, committed_foul: committed, severity }
    }

    /// The state's decision for this tick.
    pub fn process(&self, v: &SlidingTackleView) -> (r: Option<DefenderTransition>)
        ensures
            r == Some(sliding_spec(*v)),
    {
        if v.condition_pct < 20 {
            return Some(DefenderTransition::with_state(DefenderState::Resting));
        }
        if v.ball_in_flight && v.ball_owned {
            return Some(DefenderTransition::with_state(DefenderState::Returning));
        }
        match v.carrier_beyond_reach {
            None => Some(DefenderTransition::with_state(DefenderState::HoldingLine)),
            Some(beyond) => {
                if beyond {
                    return Some(DefenderTransition::with_state(DefenderState::Pressing));
                }
                let r = self.attempt_sliding_tackle(v);
                if r.success {
                    Some(DefenderTransition::with_event(DefenderState::Standing, PlayerEvent::GainBall(v.player_id)))
                } else if r.committed_foul {
                    Some(
                        DefenderTransition::with_event(
                            DefenderState::Standing,
                            PlayerEvent::CommitFoul(v.player_id, r.severity),
                        ),
                    )
                } else {
                    Some(DefenderTransition::with_state(DefenderState::Standing))
                }
            },
        }
    }
}

/// A successful slide is never a foul, and every foul from a slide is at
/// least reckless.
pub proof fn lemma_slide_foul_only_when_lost(v: SlidingTackleView)
    ensures
        slide_spec(v).success ==> !slide_spec(v).committed_foul,
        slide_spec(v).committed_foul ==> slide_spec(v).severity != FoulSeverity::Normal,
{
}

} // verus!
