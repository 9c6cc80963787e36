//! The defender marking a man.
use vstd::prelude::*;
use crate::model::{DefenderState, DefenderTransition, DefensiveRole, PlayerEvent};
use crate::engagement::ContactFoul;

verus! {

/// A man this defender could mark, as he reads him.
#[derive(Debug, Clone, Copy, PartialEq, Eq, Structural)]
pub struct MarkTarget {
    pub id: u32,
    pub has_ball: bool,
    pub within_10: bool,
    pub within_30: bool,
    /// Beyond the marking release distance.
    pub beyond_release: bool,
}

/// The candidates for his man, in the order the state prefers them.
#[derive(Debug, Clone, Copy, PartialEq, Eq, Structural)]
pub struct MarkCandidates {
    /// The man the team plan assigned him.
    pub assigned: Option<MarkTarget>,
    /// The man he should help on, while an opponent has the ball.
    pub help: Option<MarkTarget>,
    /// The nearest unmarked opponent within 100 units.
    pub unmarked: Option<MarkTarget>,
    /// The most dangerous opponent within 150 units.
    pub most_dangerous: Option<MarkTarget>,
}

/// Everything the marking state reads on one tick.
#[derive(Debug, Clone, Copy, PartialEq, Eq, Structural)]
pub struct MarkingView {
    pub player_id: u32,
    pub in_state_time: u64,
    pub has_ball: bool,
    pub control_ball: bool,
    pub candidates: MarkCandidates,
    /// The contact-foul roll came in on this decision.
    pub foul_roll: bool,
    /// The severity roll came in under the reckless chance.
    pub reckless_roll: bool,
    pub box_emergency: bool,
    /// An opponent has the ball; `Some(within_25)` for the carrier.
    pub carrier_within_25: Option<bool>,
    pub take_ball_immediately: bool,
    pub best_to_chase: bool,
    /// His condition, in percent.
    pub condition_pct: u32,
    pub aerial_ball: bool,
    pub ball_within_15: bool,
    pub ball_owned: bool,
    pub ball_towards_me: bool,
    /// The plan's duty for him names a man.
    pub duty_has_target: bool,
    pub role: DefensiveRole,
}

/// The defender marking a man.
#[derive(Debug, Clone, Copy, PartialEq, Eq, Structural, Default)]
pub struct DefenderMarkingState {}

pub open spec fn best_target_spec(v: MarkingView) -> Option<MarkTarget> {
    if v.candidates.assigned.is_some() {
        v.candidates.assigned
    } else if v.carrier_within_25.is_some() && v.candidates.help.is_some() {
        v.candidates.help
    } else if v.candidates.unmarked.is_some() {
        v.candidates.unmarked
    } else {
        v.candidates.most_dangerous
    }
}

pub open spec fn marking_spec(v: MarkingView) -> Option<DefenderTransition> {
    if v.has_ball || v.control_ball {
        Some(DefenderTransition::to(DefenderState::Running))
    } else if ContactFoul::is_decision_tick_spec(v.in_state_time as int) && best_target_spec(
        v,
    ).is_some() && v.foul_roll {
        Some(
            DefenderTransition {
                state: DefenderState::Standing,
                event: Some(
                    PlayerEvent::CommitFoul(v.player_id, ContactFoul::severity_spec(v.reckless_roll)),
                ),
            },
        )
    } else if v.box_emergency && v.carrier_within_25.is_some() {
        if v.carrier_within_25.unwrap() {
            Some(DefenderTransition::to(DefenderState::Tackling))
        } else {
            Some(DefenderTransition::to(DefenderState::Pressing))
        }
    } else if v.take_ball_immediately && v.best_to_chase {
        Some(DefenderTransition::to(DefenderState::TakeBall))
    } else if v.condition_pct < 20 {
        Some(DefenderTransition::to(DefenderState::Resting))
    } else if v.aerial_ball {
        Some(DefenderTransition::to(DefenderState::Heading))
    } else {
        match best_target_spec(v) {
            None => Some(DefenderTransition::to(DefenderState::Standing)),
            Some(m) => if m.has_ball && m.within_10 {
                Some(DefenderTransition::to(DefenderState::Tackling))
            } else if m.has_ball && m.within_30 {
                Some(DefenderTransition::to(DefenderState::Pressing))
            } else if m.beyond_release {
                Some(DefenderTransition::to(DefenderState::Running))
            } else if v.ball_within_15 && !m.has_ball && !v.has_ball && !v.ball_owned
                && v.ball_towards_me {
                Some(DefenderTransition::to(DefenderState::Intercepting))
            } else if !v.duty_has_target && v.carrier_within_25.is_some() && v.role
                != DefensiveRole::Help {
                Some(DefenderTransition::to(DefenderState::Standing))
            } else {
                None
            },
        }
    }
}

impl DefenderMarkingState {
    /// His man: the one the plan assigned; else, while an opponent has the
    /// ball, the man he should help on; else the nearest unmarked opponent;
    /// else the most dangerous one.
    pub fn find_best_marking_target(&self, v: &MarkingView) -> (r: Option<MarkTarget>)
        ensures
            r == best_target_spec(*v),
    {
        if v.candidates.assigned.is_some() {
            return v.candidates.assigned;
        }
        if v.carrier_within_25.is_some() && v.candidates.help.is_some() {
            return v.candidates.help;
        }
        if v.candidates.unmarked.is_some() {
            return v.candidates.unmarked;
        }
        v.candidates.most_dangerous
    }

    /// The state's decision for this tick.
    pub fn process(&self, v: &MarkingView) -> (r: Option<DefenderTransition>)
        ensures
            r == marking_spec(*v),
    {
        if v.has_ball {
            return Some(DefenderTransition::with_state(DefenderState::Running));
        }
        if v.control_ball {
            return Some(DefenderTransition::with_state(DefenderState::Running));
        }
        if ContactFoul::is_decision_tick(v.in_state_time) {
            if self.find_best_marking_target(v).is_some() && v.foul_roll {
                return Some(
                    DefenderTransition::with_event(
                        DefenderState::Standing,
                        PlayerEvent::CommitFoul(v.player_id, ContactFoul::severity(v.reckless_roll)),
                    ),
                );
            }
        }
        if v.box_emergency {
            match v.carrier_within_25 {
                Some(close) => {
                    if close {
                        return Some(DefenderTransition::with_state(DefenderState::Tackling));
                    }
                    return Some(DefenderTransition::with_state(DefenderState::Pressing));
                },
                None => {},
            }
        }
        if v.take_ball_immediately && v.best_to_chase {
            return Some(DefenderTransition::with_state(DefenderState::TakeBall));
        }
        if v.condition_pct < 20 {
            return Some(DefenderTransition::with_state(DefenderState::Resting));
        }
        if v.aerial_ball {
            return Some(DefenderTransition::with_state(DefenderState::Heading));
        }
        match self.find_best_marking_target(v) {
            None => Some(DefenderTransition::with_state(DefenderState::Standing)),
            Some(m) => {
                if m.has_ball {
                    if m.within_10 {
                        return Some(DefenderTransition::with_state(DefenderState::Tackling));
                    }
                    if m.within_30 {
                        return Some(DefenderTransition::with_state(DefenderState::Pressing));
                    }
                }
                if m.beyond_release {
                    return Some(DefenderTransition::with_state(DefenderState::Running));
                }
                if v.ball_within_15 && !m.has_ball {
                    if !v.has_ball && !v.ball_owned && v.ball_towards_me {
                        return Some(DefenderTransition::with_state(DefenderState::Intercepting));
                    }
                }
                if !v.duty_has_target && v.carrier_within_25.is_some() {
                    let help = match v.role {
                        DefensiveRole::Help => true,
                        _ => false,
                    };
                    if !help {
                        return Some(DefenderTransition::with_state(DefenderState::Standing));
                    }
                }
                None
            },
        }
    }
}

/// The plan's assignment always wins: when the plan names his man, that is
/// the man he marks.
pub proof fn lemma_assignment_wins(v: MarkingView)
    requires
        v.candidates.assigned.is_some(),
    ensures
        best_target_spec(v) == v.candidates.assigned,
{
}

/// A marker only fouls on a contact-foul decision tick, and never with the
/// ball at his feet or his side in possession.
pub proof fn lemma_marking_fouls_on_cadence(v: MarkingView)
    ensures
        (marking_spec(v) matches Some(t) && t.event matches Some(PlayerEvent::CommitFoul(_, _)))
            ==> ContactFoul::is_decision_tick_spec(v.in_state_time as int) && !v.has_ball
            && !v.control_ball,
{
}

} // verus!
