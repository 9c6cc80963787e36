//! Decision logic of the defending side of a football match engine: the
//! exertion tiers and the condition ledger, the engagement rules (who may
//! challenge, when a challenge or a contact foul is decided, whether a foul
//! would be a penalty), the dispatch-time overrides (kick-off, throw-in,
//! restart carry, corner hold, keeper release space), the team-level reads
//! (score, possession, the wide channel, positional discipline, the
//! goalkeeper's organising call) and the
//! state machine of every defender state.
//!
//! Every function here works on plain values: identifiers, tick counters,
//! enums and the outcomes of the geometric tests that the caller has
//! already taken against the pitch.
use vstd::prelude::*;

pub mod model;
pub mod exertion;
pub mod engagement;
pub mod overrides;
pub mod team;
pub mod width;
pub mod keeper_voice;
pub mod discipline;
pub mod defenders;

verus! {

} // verus!
