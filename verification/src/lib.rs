//! Decides when the monitors of a desktop session may be powered down:
//! whether audio is playing, how a "not playing" verdict is double-checked,
//! and which display-power command follows.
//!
//! The library holds the decisions only. Looking up tools, running them and
//! sleeping are left to the caller, which hands the outcomes in as plain
//! values.

pub mod audiosys;
pub mod check;
pub mod config;
pub mod debounce;
pub mod detect;
pub mod json;
pub mod monitor;
pub mod poll;
pub mod probe;
pub mod text;
