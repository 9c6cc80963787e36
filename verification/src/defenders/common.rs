//! Rules every defender state shares: the back line's entry and exit
//! bands, whether an interception is on, and when a recovery run toward
//! goal yields to going for a loose ball.
use vstd::prelude::*;
use crate::model::{DefenderState, DefensiveDuty, DefensiveRole, PlayerSide, PlayerState};
use crate::exertion::{
    JadednessRule, FIELD_PLAYER_JADEDNESS_INTERVAL, JADEDNESS_INCREMENT, LOW_CONDITION_THRESHOLD,
};

verus! {

/// How many of the flags are set.
pub open spec fn flag_count(s: Seq<bool>) -> nat
    decreases s.len(),
{
    if s.len() == 0 {
        0
    } else {
        flag_count(s.drop_last()) + if s.last() {
            1nat
        } else {
            0nat
        }
    }
}

/// Counts the set flags: one per player meeting some test.
pub fn count_flags(flags: &Vec<bool>) -> (r: u64)
    ensures
        r == flag_count(flags@),
{
    let len = flags.len();
    assert(len as int <= u64::MAX);
    let mut n: u64 = 0;
    let mut i: usize = 0;
    while i < flags.len()
        invariant
            i <= flags@.len(),
            flags@.len() <= u64::MAX,
            n == flag_count(flags@.take(i as int)),
            n <= i,
        decreases flags@.len() - i,
    {
        assert(flags@.take(i as int + 1).drop_last() =~= flags@.take(i as int));
        if flags[i] {
            n = n + 1;
        }
        i = i + 1;
    }
    assert(flags@.take(i as int) =~= flags@);
    n
}

/// How far a defender stands from the line's depth, against its two bands.
#[derive(Debug, Clone, Copy, PartialEq, Eq, Structural)]
pub enum LineDeviation {
    /// Within the entry band.
    InsideEnter,
    /// Outside the entry band but within the exit band.
    InsideExit,
    /// Outside both.
    Outside,
}

/// The back four's depth and the bands around it, in whole game units.
pub struct DefensiveLine;

/// Whether an interception is available at all.
pub struct Interception;

/// The run back toward goal when the ball is behind the defender.
pub struct DefensiveRecovery;

/// The defender's condition configuration.
pub struct DefenderConfig;

impl DefenderConfig {
    /// The integer part of it: a defender tires into jadedness as every
    /// outfield player does.
    pub fn jadedness_rule() -> (r: JadednessRule)
        ensures
            r.low_condition_threshold == LOW_CONDITION_THRESHOLD,
            r.interval == FIELD_PLAYER_JADEDNESS_INTERVAL,
            r.increment == JADEDNESS_INCREMENT,
            r.wf(),
    {
        JadednessRule::field_player()
    }
}

impl DefensiveLine {
    /// Once holding the line he stays in it until he is this far off it.
    pub const EXIT_BAND: u32 = 35;
    /// He joins the line only when this close to it.
    pub const ENTER_BAND: u32 = 20;

    pub open spec fn is_in_line_spec(state: PlayerState, deviation: LineDeviation) -> bool {
        if state == PlayerState::Defender(DefenderState::HoldingLine) {
            deviation != LineDeviation::Outside
        } else {
            deviation == LineDeviation::InsideEnter
        }
    }

    pub open spec fn shape_binds_spec(has_ball: bool, duty: DefensiveDuty, target_in_own_box: bool) -> bool {
        !has_ball && duty != DefensiveDuty::Press && !target_in_own_box
    }

    /// Whether the back line's shape bends a defender's target toward his
    /// slot: not for the man on the ball, not for the plan's presser, and
    /// not for a target inside his own area, where the box's own marking
    /// governs.
    pub fn shape_binds(has_ball: bool, duty: DefensiveDuty, target_in_own_box: bool) -> (r: bool)
        ensures
            r == Self::shape_binds_spec(has_ball, duty, target_in_own_box),
    {
        if has_ball {
            return false;
        }
        let press = match duty {
            DefensiveDuty::Press => true,
            _ => false,
        };
        !press && !target_in_own_box
    }

    /// In line: within the exit band while already holding it, within the
    /// entry band otherwise.
    pub fn is_in_line(state: PlayerState, deviation: LineDeviation) -> (r: bool)
        ensures
            r == Self::is_in_line_spec(state, deviation),
    {
        let holding = match state {
            PlayerState::Defender(DefenderState::HoldingLine) => true,
            _ => false,
        };
        if holding {
            match deviation {
                LineDeviation::Outside => false,
                _ => true,
            }
        } else {
            match deviation {
                LineDeviation::InsideEnter => true,
                _ => false,
            }
        }
    }
}

impl Interception {
    /// An interception is on when neither he nor anybody else has the ball.
    pub fn is_available(has_ball: bool, ball_owned: bool) -> (r: bool)
        ensures
            r == (!has_ball && !ball_owned),
    {
        !has_ball && !ball_owned
    }
}

/// What the loose-ball test reads.
#[derive(Debug, Clone, Copy, PartialEq, Eq, Structural)]
pub struct LooseBallRead {
    pub player_id: u32,
    pub team_id: u32,
    pub side: Option<PlayerSide>,
    /// The legacy recovery model is switched on.
    pub legacy: bool,
    pub ball_owned: bool,
    pub last_owner: Option<u32>,
    /// The last owner's team, when he is on record.
    pub last_owner_team: Option<u32>,
    /// The taker of a pending restart, if any.
    pub restart_taker: Option<u32>,
    /// The chase table designates him for his side.
    pub designated: bool,
    /// The opponents' best chaser is nearer the drop than he is.
    pub theirs_closer: bool,
}

impl DefensiveRecovery {
    pub open spec fn theirs_spec(r: LooseBallRead) -> bool {
        r.last_owner.is_none() || r.last_owner_team.is_none() || r.last_owner_team != Some(r.team_id)
    }

    pub open spec fn going_for_loose_ball_spec(r: LooseBallRead) -> bool {
        if r.legacy || r.ball_owned || !Self::theirs_spec(r) || r.side.is_none() {
            false
        } else if r.restart_taker.is_some() {
            r.restart_taker == Some(r.player_id)
        } else {
            r.designated && !r.theirs_closer
        }
    }

    /// He is going for a ball nobody owns that the opponents lost: the
    /// taker of a pending restart; otherwise the man his side's chase table
    /// designates, unless an opponent is nearer the drop.
    pub fn is_going_for_a_loose_ball(r: &LooseBallRead) -> (b: bool)
        ensures
            b == Self::going_for_loose_ball_spec(*r),
    {
        if r.legacy {
            return false;
        }
        if r.ball_owned {
            return false;
        }
        let ours = match r.last_owner {
            None => false,
            Some(_) => match r.last_owner_team {
                None => false,
                Some(t) => t == r.team_id,
            },
        };
        if ours {
            return false;
        }
        if r.side.is_none() {
            return false;
        }
        match r.restart_taker {
            Some(t) => {
                return t == r.player_id;
            },
            None => {},
        }
        if !r.designated {
            return false;
        }
        !r.theirs_closer
    }

    pub open spec fn applies_spec(
        has_ball: bool,
        behind: bool,
        duty: DefensiveDuty,
        role: DefensiveRole,
        r: LooseBallRead,
    ) -> bool {
        !has_ball && behind && duty != DefensiveDuty::Press && role != DefensiveRole::Primary
            && !Self::going_for_loose_ball_spec(r)
    }

    /// Whether the recovery run overrides the state's own depth: only off
    /// the ball, only when the cover point is behind him, and never for the
    /// presser, the primary defender of the carrier, or a man going for a
    /// loose ball.
    pub fn depth_override_applies(
        has_ball: bool,
        behind: bool,
        duty: DefensiveDuty,
        role: DefensiveRole,
        r: &LooseBallRead,
    ) -> (b: bool)
        ensures
            b == Self::applies_spec(has_ball, behind, duty, role, *r),
    {
        if has_ball || !behind {
            return false;
        }
        let press = match duty {
            DefensiveDuty::Press => true,
            _ => false,
        };
        let primary = match role {
            DefensiveRole::Primary => true,
            _ => false,
        };
        if press || primary || Self::is_going_for_a_loose_ball(r) {
            return false;
        }
        true
    }
}

/// The line's bands are ordered entry inside exit, so a defender who joins
/// the line is still in it on the next tick: entering implies staying.
pub proof fn lemma_line_hysteresis(deviation: LineDeviation, other: PlayerState)
    ensures
        DefensiveLine::ENTER_BAND < DefensiveLine::EXIT_BAND,
        DefensiveLine::is_in_line_spec(other, deviation) ==> DefensiveLine::is_in_line_spec(
            PlayerState::Defender(DefenderState::HoldingLine),
            deviation,
        ),
{
}

/// A loose ball that was ours is never a reason to abandon the recovery run,
/// and a restart taker is the only man who goes for a restart ball.
pub proof fn lemma_loose_ball_only_theirs(r: LooseBallRead)
    ensures
        DefensiveRecovery::going_for_loose_ball_spec(r) ==> DefensiveRecovery::theirs_spec(r),
        DefensiveRecovery::going_for_loose_ball_spec(r) && r.restart_taker.is_some() ==> r.restart_taker
            == Some(r.player_id),
{
}

} // verus!
