//! A whole terminal canvas: a rectangle of cells addressed by absolute
//! column and row bounds, fixed for the duration of a render. The terminal
//! device behind it is written by the unverified glue; the geometry —
//! splitting and shrinking, clamped at the edges — is what matters here.

use vstd::prelude::*;

use super::Canvas;

verus! {

/// A rectangular region of the terminal: half-open column range
/// `x_min..x_max` and row range `y_min..y_max`.
pub struct CrosstermCanvas {
    x_min: usize,
    x_max: usize,
    y_min: usize,
    y_max: usize,
}

impl CrosstermCanvas {
    /// The column where this region starts.
    pub closed spec fn x_min_spec(self) -> int {
        self.x_min as int
    }

    /// The column where this region ends.
    pub closed spec fn x_max_spec(self) -> int {
        self.x_max as int
    }

    /// The row where this region starts.
    pub closed spec fn y_min_spec(self) -> int {
        self.y_min as int
    }

    /// The row where this region ends.
    pub closed spec fn y_max_spec(self) -> int {
        self.y_max as int
    }

    /// A well-formed region: both ranges are ordered.
    pub open spec fn wf(self) -> bool {
        self.x_min_spec() <= self.x_max_spec() && self.y_min_spec() <= self.y_max_spec()
    }

    /// The drawable width: the length of the column range.
    pub open spec fn width_spec(self) -> int {
        if self.x_min_spec() <= self.x_max_spec() {
            self.x_max_spec() - self.x_min_spec()
        } else {
            0
        }
    }

    /// The drawable height: the length of the row range.
    pub open spec fn height_spec(self) -> int {
        if self.y_min_spec() <= self.y_max_spec() {
            self.y_max_spec() - self.y_min_spec()
        } else {
            0
        }
    }

    /// A canvas over the given bounds.
    pub fn new(x_min: usize, x_max: usize, y_min: usize, y_max: usize) -> (c: CrosstermCanvas)
        requires
            x_min <= x_max,
            y_min <= y_max,
        ensures
            c.x_min_spec() == x_min,
            c.x_max_spec() == x_max,
            c.y_min_spec() == y_min,
            c.y_max_spec() == y_max,
            c.wf(),
    {
        CrosstermCanvas { x_min, x_max, y_min, y_max }
    }
}

impl Canvas for CrosstermCanvas {
    /// The drawable width of the canvas.
    fn width(&self) -> (w: usize)
        ensures
            w == self.width_spec(),
    {
        if self.x_min <= self.x_max {
            self.x_max - self.x_min
        } else {
            0
        }
    }

    /// The drawable height of the canvas.
    fn height(&self) -> (h: usize)
        ensures
            h == self.height_spec(),
    {
        if self.y_min <= self.y_max {
            self.y_max - self.y_min
        } else {
            0
        }
    }

    /// Split widthwise at offset `x`, clamped to the width: the left half
    /// covers the first `min(x, width)` columns, the right half the rest.
    fn split_width(&self, x: usize) -> (halves: (Self, Self))
        ensures
            ({
                let cut = self.x_min_spec() + if x <= self.width_spec() {
                    x as int
                } else {
                    self.width_spec()
                };
                &&& halves.0.x_min_spec() == self.x_min_spec()
                &&& halves.0.x_max_spec() == cut
                &&& halves.1.x_min_spec() == cut
                &&& halves.1.x_max_spec() == self.x_max_spec()
                &&& halves.0.y_min_spec() == self.y_min_spec()
                &&& halves.0.y_max_spec() == self.y_max_spec()
                &&& halves.1.y_min_spec() == self.y_min_spec()
                &&& halves.1.y_max_spec() == self.y_max_spec()
            }),
    {
        let w = if self.x_min <= self.x_max {
            self.x_max - self.x_min
        } else {
            0
        };
        let offset = if x <= w {
            x
        } else {
            w
        };
        let cut = self.x_min + offset;
        (
            CrosstermCanvas {
                x_min: self.x_min,
                x_max: cut,
                y_min: self.y_min,
                y_max: self.y_max,
            },
            CrosstermCanvas {
                x_min: cut,
                x_max: self.x_max,
                y_min: self.y_min,
                y_max: self.y_max,
            },
        )
    }

    /// Split heightwise at offset `y`, clamped to the height: the top half
    /// covers the first `min(y, height)` rows, the bottom half the rest.
    fn split_height(&self, y: usize) -> (halves: (Self, Self))
        ensures
            ({
                let cut = self.y_min_spec() + if y <= self.height_spec() {
                    y as int
                } else {
                    self.height_spec()
                };
                &&& halves.0.y_min_spec() == self.y_min_spec()
                &&& halves.0.y_max_spec() == cut
                &&& halves.1.y_min_spec() == cut
                &&& halves.1.y_max_spec() == self.y_max_spec()
                &&& halves.0.x_min_spec() == self.x_min_spec()
                &&& halves.0.x_max_spec() == self.x_max_spec()
                &&& halves.1.x_min_spec() == self.x_min_spec()
                &&& halves.1.x_max_spec() == self.x_max_spec()
            }),
    {
        let h = if self.y_min <= self.y_max {
            self.y_max - self.y_min
        } else {
            0
        };
        let offset = if y <= h {
            y
        } else {
            h
        };
        let cut = self.y_min + offset;
        (
            CrosstermCanvas {
                x_min: self.x_min,
                x_max: self.x_max,
                y_min: self.y_min,
                y_max: cut,
            },
            CrosstermCanvas {
                x_min: self.x_min,
                x_max: self.x_max,
                y_min: cut,
                y_max: self.y_max,
            },
        )
    }

    /// Shrink by per-edge insets, each clamped so the region never
    /// inverts: the left inset moves the start of the column range at most
    /// to its end, and so on for the other edges.
    fn shrink(&self, top: usize, bottom: usize, left: usize, right: usize) -> (inner: Self)
        ensures
            inner.x_min_spec() == if left as int <= self.width_spec() {
                self.x_min_spec() + left
            } else {
                self.x_max_spec()
            },
            inner.x_max_spec() == if self.x_max_spec() - right >= inner.x_min_spec() {
                self.x_max_spec() - right
            } else {
                inner.x_min_spec()
            },
            inner.y_min_spec() == if top as int <= self.height_spec() {
                self.y_min_spec() + top
            } else {
                self.y_max_spec()
            },
            inner.y_max_spec() == if self.y_max_spec() - bottom >= inner.y_min_spec() {
                self.y_max_spec() - bottom
            } else {
                inner.y_min_spec()
            },
            inner.wf(),
    {
        let w = if self.x_min <= self.x_max {
            self.x_max - self.x_min
        } else {
            0
        };
        let h = if self.y_min <= self.y_max {
            self.y_max - self.y_min
        } else {
            0
        };
        let x_min = if left <= w {
            self.x_min + left
        } else {
            self.x_max
        };
        let x_max = if right <= self.x_max && self.x_max - right >= x_min {
            self.x_max - right
        } else {
            x_min
        };
        let y_min = if top <= h {
            self.y_min + top
        } else {
            self.y_max
        };
        let y_max = if bottom <= self.y_max && self.y_max - bottom >= y_min {
            self.y_max - bottom
        } else {
            y_min
        };
        CrosstermCanvas { x_min, x_max, y_min, y_max }
    }
}

} // verus!
