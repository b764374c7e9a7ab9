//! Core of a single-window centered-text renderer: the window-message state
//! machine, the graphics-resource lifecycle it drives, and the pure
//! computations (DPI-scaled layout, wide-string encoding) behind each frame.
//!
//! Platform calls (window system, 2D drawing, text layout) are performed by a
//! thin shell around this crate; the shell hands their outcomes in as plain
//! values and carries the actions decided here back out.

pub mod events;
pub mod format;
pub mod geometry;
pub mod messages;
pub mod paint;
pub mod state;
pub mod wide;

use vstd::prelude::*;

verus! {

} // verus!
