//! The drawing surface offered to drawables.
//!
//! A canvas is a splittable rectangular region: it reports its drawable
//! width and height, can be split along either axis into two independently
//! addressable halves, and can be shrunk by per-edge insets. All operations
//! are pure — they return new canvases and mutate nothing.

use vstd::prelude::*;

mod crossterm;

pub use crossterm::CrosstermCanvas;

verus! {

/// A splittable rectangular drawing region. Splitting at an offset beyond
/// the region's extent clamps to the edge; all operations are pure.
pub trait Canvas: Sized {
    /// The drawable width of the canvas.
    fn width(&self) -> usize;

    /// The drawable height of the canvas.
    fn height(&self) -> usize;

    /// Split widthwise at offset `x`, returning the left and right halves.
    fn split_width(&self, x: usize) -> (Self, Self);

    /// Split heightwise at offset `y`, returning the top and bottom
    /// halves.
    fn split_height(&self, y: usize) -> (Self, Self);

    /// Shrink by the four per-edge insets, returning the inner region.
    fn shrink(&self, top: usize, bottom: usize, left: usize, right: usize) -> Self;
}

} // verus!
