//! The defender's state machine: one module per state, each deciding the
//! next state from what the state reads on the current tick.
pub mod attacking_corner;
pub mod blocking;
pub mod clearing;
pub mod common;
pub mod covering;
pub mod crossing;
pub mod guarding;
pub mod heading;
pub mod holding_line;
pub mod intercepting;
pub mod marking;
pub mod overlapping;
pub mod passing;
pub mod pressing;
pub mod resting;
pub mod returning;
pub mod running;
pub mod shooting;
pub mod sliding_tackle;
pub mod standing;
pub mod state;
pub mod tackling;
pub mod takeball;
pub mod tracking_back;
pub mod walking;
