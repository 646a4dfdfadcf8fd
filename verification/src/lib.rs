//! Remapping engine for a pointing device: meta-key disambiguation, scroll
//! mode with fractional carry, sticky button locks and swipe gestures, all as
//! a state machine over plain `(type, code, value)` input events.

pub mod config;
pub mod event;
pub mod gesture;
pub mod limiter;
pub mod lock;
pub mod logic;
pub mod meta;
pub mod scroll;
pub mod snapshot;
pub mod state;
pub mod utils;
