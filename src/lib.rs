//! Interaction-lock logic of a click-through lyrics overlay: the shared lock
//! record, the per-tick decisions of the poll loop, and the small parsers and
//! choices that surround them.

pub mod lock_state;
pub mod poll;
pub mod laws;
pub mod config;
pub mod tray;
pub mod placement;
pub mod payload;
pub mod fonts;
