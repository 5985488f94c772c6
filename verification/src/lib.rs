//! Core of an idle-driven attendance tracker: a two-state attendance status
//! inferred from system idle time, the settings that govern the automatic
//! transitions, the wire payload built for each reported event, and the
//! per-tick transition policy of the monitor loop.

pub mod settings;
pub mod state;
pub mod payload;
pub mod monitor;
pub mod commands;
pub mod dispatch;
