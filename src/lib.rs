//! Turns a window manager's workspace state into one display symbol per
//! workspace slot, as a plain line or as widget markup for a status bar, and
//! decides when a polling refresher has something new to show.

pub mod workspace;
pub mod symbols;
pub mod poll;
pub mod text;
pub mod widget;
