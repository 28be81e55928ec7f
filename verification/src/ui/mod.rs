//! Decisions behind the UI extensions of immediate mode.
pub mod anchored;
pub mod capabilities;
pub mod tooltip;
pub mod widgets;
