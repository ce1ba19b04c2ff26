use vstd::prelude::*;

verus! {

/// A rectangle on screen in whole pixels, as the window library keeps it:
/// top-left corner `(x, y)`, width `w`, height `h`.
#[derive(Clone, Copy, PartialEq, Eq, Structural, Debug)]
pub struct CellRect {
    pub x: i32,
    pub y: i32,
    pub w: i32,
    pub h: i32,
}

/// `v` fits in an `i32`.
pub open spec fn fits_i32(v: int) -> bool {
    i32::MIN <= v <= i32::MAX
}

impl CellRect {
    pub fn new(x: i32, y: i32, w: i32, h: i32) -> (r: CellRect)
        ensures
            r == (CellRect { x, y, w, h }),
    {
        CellRect { x, y, w, h }
    }

    /// The point `(px, py)` lies in the rectangle, borders included.
    pub open spec fn spec_contains(self, px: int, py: int) -> bool {
        self.x <= px <= self.x + self.w && self.y <= py <= self.y + self.h
    }

    /// The test of `contains` on `(px, py)` computes no right or bottom edge
    /// that leaves the `i32` range: the test stops at the first comparison
    /// that fails, so an edge is computed only where the comparisons before
    /// it hold.
    pub open spec fn probe_fits(self, px: int, py: int) -> bool {
        &&& px >= self.x ==> fits_i32(self.x + self.w)
        &&& (px >= self.x && px <= self.x + self.w && py >= self.y) ==> fits_i32(self.y + self.h)
    }

    /// Whether the point `(px, py)` lies in the rectangle, borders included.
    pub fn contains(&self, px: i32, py: i32) -> (r: bool)
        requires
            self.probe_fits(px as int, py as int),
        ensures
            r == self.spec_contains(px as int, py as int),
    {
        px >= self.x && px <= self.x + self.w && py >= self.y && py <= self.y + self.h
    }
}

/// How the window covers the screen.
#[derive(Clone, Copy, PartialEq, Eq, Structural, Debug)]
pub enum FullscreenMode {
    Off,
    True,
    Desktop,
}

impl FullscreenMode {
    /// The mode that the fullscreen key switches to: a windowed window goes
    /// to desktop fullscreen, any fullscreen window goes back to a window.
    pub open spec fn spec_toggled(self) -> FullscreenMode {
        match self {
            FullscreenMode::Off => FullscreenMode::Desktop,
            _ => FullscreenMode::Off,
        }
    }

    /// The mode that the fullscreen key switches to.
    pub fn toggled(&self) -> (m: FullscreenMode)
        ensures
            m == self.spec_toggled(),
    {
        match self {
            FullscreenMode::Off => FullscreenMode::Desktop,
            _ => FullscreenMode::Off,
        }
    }
}

} // verus!
