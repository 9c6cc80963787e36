//! The defender engaged with the carrier: containing, and now and then
//! going in.
use vstd::prelude::*;
use crate::model::{DefenderState, DefenderTransition, FoulSeverity, PlayerEvent};
use crate::engagement::{EngagementView, TackleEngagement};

verus! {

/// How a challenge came out.
#[derive(Debug, Clone, Copy, PartialEq, Eq, Structural)]
pub enum TackleOutcome {
    Won,
    Foul(FoulSeverity),
    Missed,
}

/// The carrier as the tackling state reads him.
#[derive(Debug, Clone, Copy, PartialEq, Eq, Structural)]
pub struct TackleCarrierRead {
    /// He has got away: beyond the disengage distance.
    pub beyond_disengage: bool,
    /// He is within contact range.
    pub within_contact: bool,
}

/// Everything the tackling state reads on one tick.
#[derive(Debug, Clone, Copy, PartialEq, Eq, Structural)]
pub struct TacklingView {
    pub player_id: u32,
    pub in_state_time: u64,
    pub has_ball: bool,
    pub control_ball: bool,
    pub carrier: Option<TackleCarrierRead>,
    pub engagement: EngagementView,
    /// A recovery challenge is on, he is eligible for it, and the roll says
    /// he makes it now.
    pub recovery_commits: bool,
    /// How the recovery challenge came out, when it is made.
    pub recovery_outcome: TackleOutcome,
    /// His tackle cooldown has run out.
    pub can_attempt_tackle: bool,
    /// He is eligible to decide this tick and the roll says he goes in.
    pub tackle_commits: bool,
    /// How the tackle came out, when it is made.
    pub tackle_outcome: TackleOutcome,
    pub opponent_within_30: bool,
    pub teammate_within_30: bool,
    pub ball_owned: bool,
    /// Where he would meet the loose ball is within contact range.
    pub meeting_in_contact: bool,
    pub ball_in_flight: bool,
    pub ball_beyond_80: bool,
    pub ball_beyond_120: bool,
    pub ball_within_5: bool,
    pub ball_towards_me: bool,
    /// The nearest opponent within 15 units is also within 10.
    pub close_opponent_within_10: bool,
}

/// What one tick of the tackling state produces: the transition, and
/// whether a challenge was made (which starts the tackle cooldown).
#[derive(Debug, Clone, Copy, PartialEq, Eq, Structural)]
pub struct TackleStep {
    pub transition: Option<DefenderTransition>,
    pub start_tackle_cooldown: bool,
}

/// The defender engaged with the carrier.
#[derive(Debug, Clone, Copy, PartialEq, Eq, Structural, Default)]
pub struct DefenderTacklingState {}

pub open spec fn settle_spec(me: u32, outcome: TackleOutcome) -> DefenderTransition {
    match outcome {
        TackleOutcome::Won => DefenderTransition {
            state: DefenderState::Standing,
            event: Some(PlayerEvent::TacklingBall(me)),
        },
        TackleOutcome::Foul(s) => DefenderTransition {
            state: DefenderState::Standing,
            event: Some(PlayerEvent::CommitFoul(me, s)),
        },
        TackleOutcome::Missed => DefenderTransition::to(DefenderState::Pressing),
    }
}

pub open spec fn foul_severity_spec(
    committed: bool,
    success: bool,
    very_aggressive: bool,
    violent_roll: bool,
    aggressive: bool,
    reckless_roll: bool,
) -> FoulSeverity {
    if !committed {
        FoulSeverity::Normal
    } else if very_aggressive && !success && violent_roll {
        FoulSeverity::Violent
    } else if !success && aggressive && reckless_roll {
        FoulSeverity::Reckless
    } else {
        FoulSeverity::Normal
    }
}

pub open spec fn step(t: DefenderTransition, cooldown: bool) -> TackleStep {
    TackleStep { transition: Some(t), start_tackle_cooldown: cooldown }
}

pub open spec fn quiet(t: Option<DefenderTransition>) -> TackleStep {
    TackleStep { transition: t, start_tackle_cooldown: false }
}

pub open spec fn tackling_spec(v: TacklingView) -> TackleStep {
    if v.has_ball || v.control_ball {
        quiet(Some(DefenderTransition::to(DefenderState::Running)))
    } else if v.carrier.is_some() {
        let c = v.carrier.unwrap();
        if c.beyond_disengage {
            quiet(Some(DefenderTransition::to(DefenderState::Pressing)))
        } else if v.recovery_commits && TackleEngagement::may_engage_carrier_spec(v.engagement) {
            step(settle_spec(v.player_id, v.recovery_outcome), true)
        } else if !c.within_contact {
            quiet(None)
        } else if !v.can_attempt_tackle {
            quiet(Some(DefenderTransition::to(DefenderState::Pressing)))
        } else if !TackleEngagement::may_engage_carrier_spec(v.engagement) || !v.tackle_commits {
            quiet(None)
        } else {
            step(settle_spec(v.player_id, v.tackle_outcome), true)
        }
    } else if !v.opponent_within_30 && !v.teammate_within_30 && !v.ball_owned
        && v.meeting_in_contact && !v.ball_in_flight {
        quiet(
            Some(
                DefenderTransition {
                    state: DefenderState::Running,
                    event: Some(PlayerEvent::ClaimBall(v.player_id)),
                },
            ),
        )
    } else if v.ball_beyond_120 && !v.ball_towards_me {
        quiet(Some(DefenderTransition::to(DefenderState::Returning)))
    } else if !v.ball_owned && v.ball_within_5 && !v.ball_in_flight {
        quiet(
            Some(
                DefenderTransition {
                    state: DefenderState::Running,
                    event: Some(PlayerEvent::ClaimBall(v.player_id)),
                },
            ),
        )
    } else if v.close_opponent_within_10 {
        quiet(Some(DefenderTransition::to(DefenderState::Pressing)))
    } else if v.in_state_time > 30 {
        if v.ball_beyond_80 {
            quiet(Some(DefenderTransition::to(DefenderState::Returning)))
        } else {
            quiet(Some(DefenderTransition::to(DefenderState::Standing)))
        }
    } else {
        quiet(None)
    }
}

impl DefenderTacklingState {
    /// What a challenge leads to: a won tackle or a foul leaves him
    /// standing with the event; a miss sends him back to pressing.
    pub fn settle(&self, me: u32, outcome: TackleOutcome) -> (r: DefenderTransition)
        ensures
            r == settle_spec(me, outcome),
    {
        match outcome {
            TackleOutcome::Won => DefenderTransition::with_event(
                DefenderState::Standing,
                PlayerEvent::TacklingBall(me),
            ),
            TackleOutcome::Foul(s) => DefenderTransition::with_event(
                DefenderState::Standing,
                PlayerEvent::CommitFoul(me, s),
            ),
            TackleOutcome::Missed => DefenderTransition::with_state(DefenderState::Pressing),
        }
    }

    /// The severity ladder of a sliding challenge: normal when no foul was
    /// committed; violent for a very aggressive man who missed and whose
    /// violent roll came in; reckless for an aggressive man who missed and
    /// whose reckless roll came in; normal otherwise.
    pub fn attempt_sliding_tackle(
        &self,
        success: bool,
        committed: bool,
        very_aggressive: bool,
        violent_roll: bool,
        aggressive: bool,
        reckless_roll: bool,
    ) -> (r: TackleOutcome)
        ensures
            r == (if committed {
                TackleOutcome::Foul(
                    foul_severity_spec(
                        committed,
                        success,
                        very_aggressive,
                        violent_roll,
                        aggressive,
                        reckless_roll,
                    ),
                )
            } else if success {
                TackleOutcome::Won
            } else {
                TackleOutcome::Missed
            }),
    {
        let severity = if !committed {
            FoulSeverity::Normal
        } else if very_aggressive && !success && violent_roll {
            FoulSeverity::Violent
        } else if !success && aggressive && reckless_roll {
            FoulSeverity::Reckless
        } else {
            FoulSeverity::Normal
        };
        if committed {
            TackleOutcome::Foul(severity)
        } else if success {
            TackleOutcome::Won
        } else {
            TackleOutcome::Missed
        }
    }

    /// Anybody, either side, within 30 units.
    pub fn exists_nearby(&self, v: &TacklingView) -> (r: bool)
        ensures
            r == (v.opponent_within_30 || v.teammate_within_30),
    {
        v.opponent_within_30 || v.teammate_within_30
    }

    /// He can take a loose ball alone: nobody near, nobody owns it, and he
    /// meets it within contact range.
    pub fn can_intercept_ball(&self, v: &TacklingView) -> (r: bool)
        ensures
            r == (!(v.opponent_within_30 || v.teammate_within_30) && !v.ball_owned
                && v.meeting_in_contact),
    {
        if self.exists_nearby(v) || v.ball_owned {
            return false;
        }
        v.meeting_in_contact
    }

    /// The state's decision for this tick.
    pub fn process(&self, v: &TacklingView) -> (r: TackleStep)
        ensures
            r == tackling_spec(*v),
    {
        if v.has_ball || v.control_ball {
            return TackleStep {
                transition: Some(DefenderTransition::with_state(DefenderState::Running)),
                start_tackle_cooldown: false,
            };
        }
        match v.carrier {
            Some(c) => {
                if c.beyond_disengage {
                    return TackleStep {
                        transition: Some(DefenderTransition::with_state(DefenderState::Pressing)),
                        start_tackle_cooldown: false,
                    };
                }
                if v.recovery_commits && TackleEngagement::may_engage_carrier(&v.engagement) {
                    return TackleStep {
                        transition: Some(self.settle(v.player_id, v.recovery_outcome)),
                        start_tackle_cooldown: true,
                    };
                }
                if !c.within_contact {
                    return TackleStep { transition: None, start_tackle_cooldown: false };
                }
                if !v.can_attempt_tackle {
                    return TackleStep {
                        transition: Some(DefenderTransition::with_state(DefenderState::Pressing)),
                        start_tackle_cooldown: false,
                    };
                }
                if !TackleEngagement::may_engage_carrier(&v.engagement) {
                    return TackleStep { transition: None, start_tackle_cooldown: false };
                }
                if !v.tackle_commits {
                    return TackleStep { transition: None, start_tackle_cooldown: false };
                }
                return TackleStep {
                    transition: Some(self.settle(v.player_id, v.tackle_outcome)),
                    start_tackle_cooldown: true,
                };
            },
            None => {
                if self.can_intercept_ball(v) && !v.ball_in_flight {
                    return TackleStep {
                        transition: Some(
                            DefenderTransition::with_event(
                                DefenderState::Running,
                                PlayerEvent::ClaimBall(v.player_id),
                            ),
                        ),
                        start_tackle_cooldown: false,
                    };
                }
                if v.ball_beyond_120 && !v.ball_towards_me {
                    return TackleStep {
                        transition: Some(DefenderTransition::with_state(DefenderState::Returning)),
                        start_tackle_cooldown: false,
                    };
                }
                if !v.ball_owned && v.ball_within_5 && !v.ball_in_flight {
                    return TackleStep {
                        transition: Some(
                            DefenderTransition::with_event(
                                DefenderState::Running,
                                PlayerEvent::ClaimBall(v.player_id),
                            ),
                        ),
                        start_tackle_cooldown: false,
                    };
                }
                if v.close_opponent_within_10 {
                    return TackleStep {
                        transition: Some(DefenderTransition::with_state(DefenderState::Pressing)),
                        start_tackle_cooldown: false,
                    };
                }
            },
        }
        if v.in_state_time > 30 {
            if v.ball_beyond_80 {
                return TackleStep {
                    transition: Some(DefenderTransition::with_state(DefenderState::Returning)),
                    start_tackle_cooldown: false,
                };
            }
            return TackleStep {
                transition: Some(DefenderTransition::with_state(DefenderState::Standing)),
                start_tackle_cooldown: false,
            };
        }
        TackleStep { transition: None, start_tackle_cooldown: false }
    }
}

/// A challenge is only ever made by a player the engagement rules license
/// to go in, and every challenge starts the tackle cooldown; a player still
/// on cooldown never makes an ordinary tackle.
pub proof fn lemma_only_licensed_challenges(v: TacklingView)
    ensures
        tackling_spec(v).start_tackle_cooldown ==> TackleEngagement::may_engage_carrier_spec(
            v.engagement,
        ),
        tackling_spec(v).start_tackle_cooldown ==> v.carrier.is_some() && !v.has_ball
            && !v.control_ball,
        tackling_spec(v).start_tackle_cooldown && !v.recovery_commits ==> v.can_attempt_tackle
            && v.carrier.unwrap().within_contact,
{
}

/// A foul is never violent unless the challenger missed, and a clean
/// challenge never carries a severity at all.
pub proof fn lemma_violence_needs_a_miss(
    committed: bool,
    success: bool,
    very_aggressive: bool,
    violent_roll: bool,
    aggressive: bool,
    reckless_roll: bool,
)
    ensures
        foul_severity_spec(committed, success, very_aggressive, violent_roll, aggressive, reckless_roll)
            == FoulSeverity::Violent ==> committed && !success && very_aggressive,
        !committed ==> foul_severity_spec(
            committed,
            success,
            very_aggressive,
            violent_roll,
            aggressive,
            reckless_roll,
        ) == FoulSeverity::Normal,
{
}

} // verus!
