//! How hard a player is working and what it costs him: the exertion tier a
//! state declares, the condition scale, and the integer ledger that turns an
//! accumulated fatigue point into a condition change and, for a very tired
//! player, a little lasting jadedness.
use vstd::prelude::*;

verus! {

/// Maximum condition value.
pub const MAX_CONDITION: i16 = 10000;

/// Absolute minimum condition during a match (15%).
pub const MATCH_CONDITION_FLOOR: i16 = 1500;

/// Condition threshold below which jadedness increases (35%).
pub const LOW_CONDITION_THRESHOLD: i16 = 3500;

/// Condition threshold for goalkeepers' jadedness (30%).
pub const GOALKEEPER_LOW_CONDITION_THRESHOLD: i16 = 3000;

/// Jadedness check interval for field players, in ticks.
pub const FIELD_PLAYER_JADEDNESS_INTERVAL: u64 = 100;

/// Jadedness check interval for goalkeepers, in ticks.
pub const GOALKEEPER_JADEDNESS_INTERVAL: u64 = 150;

/// Maximum jadedness value.
pub const MAX_JADEDNESS: i16 = 10000;

/// Jadedness increase per check when condition is low (field players).
pub const JADEDNESS_INCREMENT: i16 = 5;

/// Jadedness increase per check when condition is low (goalkeepers).
pub const GOALKEEPER_JADEDNESS_INCREMENT: i16 = 3;

/// The exertion tier a state declares each tick.
#[derive(Debug, Clone, Copy, PartialEq, Eq, Structural)]
pub enum ActivityIntensity {
    /// Explosive actions: shooting, heading, tackling, sliding.
    VeryHigh,
    /// Sustained running: pressing, intercepting, dribbling.
    High,
    /// Assisting, creating space, marking, tracking, covering.
    Moderate,
    /// Walking, passing.
    Low,
    /// Standing still, resting, holding the line.
    Recovery,
}

impl ActivityIntensity {
    pub open spec fn chase_spec(legacy: bool) -> ActivityIntensity {
        if legacy {
            ActivityIntensity::High
        } else {
            ActivityIntensity::VeryHigh
        }
    }

    /// The effort a player declares while running at the ball or at the
    /// man who has it. A sprint, unless the legacy chase model is switched
    /// on (`legacy`), in which case it is the sustained-running tier.
    pub fn chase(legacy: bool) -> (r: ActivityIntensity)
        ensures
            r == ActivityIntensity::chase_spec(legacy),
    {
        if legacy {
            ActivityIntensity::High
        } else {
            ActivityIntensity::VeryHigh
        }
    }
}

/// The integer part of a role's condition configuration: below which
/// condition jadedness starts to build, how often it is checked, and by how
/// much it rises per check.
#[derive(Debug, Clone, Copy, PartialEq, Eq, Structural)]
pub struct JadednessRule {
    pub low_condition_threshold: i16,
    pub interval: u64,
    pub increment: i16,
}

impl JadednessRule {
    pub open spec fn wf(self) -> bool {
        &&& self.interval > 0
        &&& 0 <= self.increment
    }

    /// The rule every outfield role uses.
    pub fn field_player() -> (r: JadednessRule)
        ensures
            r.low_condition_threshold == LOW_CONDITION_THRESHOLD,
            r.interval == FIELD_PLAYER_JADEDNESS_INTERVAL,
            r.increment == JADEDNESS_INCREMENT,
            r.wf(),
    {
        JadednessRule {
            low_condition_threshold: LOW_CONDITION_THRESHOLD,
            interval: FIELD_PLAYER_JADEDNESS_INTERVAL,
            increment: JADEDNESS_INCREMENT,
        }
    }

    /// The goalkeeper's rule.
    pub fn goalkeeper() -> (r: JadednessRule)
        ensures
            r.low_condition_threshold == GOALKEEPER_LOW_CONDITION_THRESHOLD,
            r.interval == GOALKEEPER_JADEDNESS_INTERVAL,
            r.increment == GOALKEEPER_JADEDNESS_INCREMENT,
            r.wf(),
    {
        JadednessRule {
            low_condition_threshold: GOALKEEPER_LOW_CONDITION_THRESHOLD,
            interval: GOALKEEPER_JADEDNESS_INTERVAL,
            increment: GOALKEEPER_JADEDNESS_INCREMENT,
        }
    }
}

/// A player's condition and jadedness, on the 0..10000 scales.
#[derive(Debug, Clone, Copy, PartialEq, Eq, Structural)]
pub struct ConditionLedger {
    pub condition: i16,
    pub jadedness: i16,
}

pub open spec fn clamp_int(v: int, lo: int, hi: int) -> int {
    if v < lo {
        lo
    } else if v > hi {
        hi
    } else {
        v
    }
}

/// The condition after a whole-point change: unchanged when the change is
/// zero, otherwise `condition - change` held to the match floor and the
/// maximum.
pub open spec fn settled_condition(condition: int, change: int) -> int {
    if change == 0 {
        condition
    } else {
        clamp_int(condition - change, MATCH_CONDITION_FLOOR as int, MAX_CONDITION as int)
    }
}

/// The jadedness after the check: up by the rule's increment, capped at the
/// maximum, when the (settled) condition is below the rule's threshold on a
/// check tick; otherwise unchanged.
pub open spec fn settled_jadedness(
    condition: int,
    jadedness: int,
    in_state_time: nat,
    rule: JadednessRule,
) -> int {
    if condition < rule.low_condition_threshold && in_state_time % (rule.interval as nat) == 0 {
        if jadedness + rule.increment < MAX_JADEDNESS {
            jadedness + rule.increment
        } else {
            MAX_JADEDNESS as int
        }
    } else {
        jadedness
    }
}

/// Settles one tick of the condition ledger for a processor declaring some
/// exertion tier.
#[derive(Debug, Clone, Copy, PartialEq, Eq, Structural)]
pub struct ConditionProcessor {
    pub intensity: ActivityIntensity,
}

impl ConditionProcessor {
    /// A processor for the given exertion tier.
    pub fn new(intensity: ActivityIntensity) -> (r: ConditionProcessor)
        ensures
            r.intensity == intensity,
    {
        ConditionProcessor { intensity }
    }

    /// The same as [`Self::new`]; kept for the callers that still use the
    /// older name.
    pub fn with_velocity(intensity: ActivityIntensity) -> (r: ConditionProcessor)
        ensures
            r.intensity == intensity,
    {
        Self::new(intensity)
    }

    /// Applies a whole-point condition change (`change`, the integer part of
    /// the fatigue accumulator: positive tires, negative recovers) and then
    /// the jadedness check, for a player who has been `in_state_time` ticks
    /// in his state.
    pub fn settle(&self, ledger: ConditionLedger, change: i16, in_state_time: u64, rule: JadednessRule)
        -> (r: ConditionLedger)
        requires
            rule.wf(),
            i16::MIN <= ledger.condition - change <= i16::MAX,
            ledger.jadedness + rule.increment <= i16::MAX,
        ensures
            r.condition == settled_condition(ledger.condition as int, change as int),
            r.jadedness == settled_jadedness(
                r.condition as int,
                ledger.jadedness as int,
                in_state_time as nat,
                rule,
            ),
    {
        let mut condition = ledger.condition;
        if change != 0 {
            let moved: i16 = ledger.condition - change;
            condition = if moved < MATCH_CONDITION_FLOOR {
                MATCH_CONDITION_FLOOR
            } else if moved > MAX_CONDITION {
                MAX_CONDITION
            } else {
                moved
            };
        }
        let mut jadedness = ledger.jadedness;
        if condition < rule.low_condition_threshold && in_state_time % rule.interval == 0 {
            let raised: i16 = ledger.jadedness + rule.increment;
            jadedness = if raised < MAX_JADEDNESS {
                raised
            } else {
                MAX_JADEDNESS
            };
        }
        ConditionLedger { condition, jadedness }
    }
}

/// A condition inside the match band stays inside it, whatever change a
/// tick brings.
pub proof fn lemma_condition_stays_in_band(condition: int, change: int)
    requires
        MATCH_CONDITION_FLOOR <= condition <= MAX_CONDITION,
    ensures
        MATCH_CONDITION_FLOOR <= settled_condition(condition, change) <= MAX_CONDITION,
{
}

/// Any non-zero change lands the condition inside the match band, wherever
/// it stood before.
pub proof fn lemma_condition_clamped_on_change(condition: int, change: int)
    requires
        change != 0,
    ensures
        MATCH_CONDITION_FLOOR <= settled_condition(condition, change) <= MAX_CONDITION,
{
}

/// Jadedness is long-term tiredness: a tick never lowers it and never takes
/// it past the maximum.
pub proof fn lemma_jadedness_monotone_and_bounded(
    condition: int,
    jadedness: int,
    in_state_time: nat,
    rule: JadednessRule,
)
    requires
        rule.wf(),
        jadedness <= MAX_JADEDNESS,
    ensures
        jadedness <= settled_jadedness(condition, jadedness, in_state_time, rule) <= MAX_JADEDNESS,
{
}

/// A player at or above the threshold never gains jadedness.
pub proof fn lemma_fresh_player_not_jaded(
    condition: int,
    jadedness: int,
    in_state_time: nat,
    rule: JadednessRule,
)
    requires
        condition >= rule.low_condition_threshold,
    ensures
        settled_jadedness(condition, jadedness, in_state_time, rule) == jadedness,
{
}

} // verus!
