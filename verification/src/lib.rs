//! Live-update fan-out and admission control for a birth-guessing game.
//!
//! [`limiter`] is a token-bucket rate limiter keyed by client address.
//! [`models`] holds the notifications that describe one committed change
//! each. [`bus`] is the process-wide update bus and the per-connection filter
//! that narrows the bus to one game. [`rules`] holds the decisions that
//! request handlers make between their calls to the store, and [`utils`]
//! generates the keys handed to organizers.

pub mod bus;
pub mod limiter;
pub mod models;
pub mod rules;
pub mod utils;
