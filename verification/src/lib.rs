//! Focus-following layer promotion.
//!
//! The crate tracks which window has input focus and decides how a group of
//! named layers must be restacked so that the layer belonging to the focused
//! window ends up on top. Everything here works on plain values: the host
//! adapter samples the window system, resolves layers and applies the
//! stacking changes that this crate computes.

pub mod active_window_manager;
pub mod reorder;
pub mod source;
pub mod text;
pub mod tick;
