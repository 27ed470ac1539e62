//! Screen geometry: points and rectangles in 16-bit character-cell
//! coordinates, hit testing for pointer clicks, and the one-cell border
//! removal that turns a framed drawing area into the grid's viewport.

use vstd::prelude::*;

verus! {

/// A point in absolute screen coordinates: column `x`, row `y`.
#[derive(Clone, Copy, Debug, PartialEq, Eq, Structural)]
pub struct Point {
    pub x: u16,
    pub y: u16,
}

/// A rectangle of character cells: origin and size.
#[derive(Clone, Copy, Debug, PartialEq, Eq, Structural)]
pub struct Rect {
    pub x: u16,
    pub y: u16,
    pub width: u16,
    pub height: u16,
}

/// A rectangle whose far corner still fits in 16-bit screen coordinates;
/// everything a terminal reports satisfies this.
pub open spec fn rect_wf(r: Rect) -> bool {
    &&& r.x + r.width <= u16::MAX
    &&& r.y + r.height <= u16::MAX
}

impl Point {
    /// Whether the point lies inside the rectangle: origin edges inclusive,
    /// far edges exclusive.
    pub open spec fn spec_in_rect(self, rect: Rect) -> bool {
        &&& rect.x <= self.x < rect.x + rect.width
        &&& rect.y <= self.y < rect.y + rect.height
    }

    /// Hit test against a rectangle.
    pub fn in_rect(self, rect: Rect) -> (r: bool)
        ensures
            r == self.spec_in_rect(rect),
    {
        let x_end: u32 = rect.x as u32 + rect.width as u32;
        let y_end: u32 = rect.y as u32 + rect.height as u32;
        self.x >= rect.x && (self.x as u32) < x_end && self.y >= rect.y && (self.y as u32) < y_end
    }
}

impl Rect {
    /// The rectangle left after removing a one-cell border on every side:
    /// the area inside a frame. Rectangles too small to have an interior
    /// shrink to the empty rectangle at the origin.
    pub open spec fn spec_inner(self) -> Rect {
        if self.width < 2 || self.height < 2 {
            Rect { x: 0, y: 0, width: 0, height: 0 }
        } else {
            Rect {
                x: (self.x + 1) as u16,
                y: (self.y + 1) as u16,
                width: (self.width - 2) as u16,
                height: (self.height - 2) as u16,
            }
        }
    }

    /// Remove the one-cell border.
    pub fn inner(self) -> (r: Rect)
        requires
            rect_wf(self),
        ensures
            r == self.spec_inner(),
            rect_wf(r),
    {
        if self.width < 2 || self.height < 2 {
            Rect { x: 0, y: 0, width: 0, height: 0 }
        } else {
            Rect {
                x: self.x + 1,
                y: self.y + 1,
                width: self.width - 2,
                height: self.height - 2,
            }
        }
    }
}

} // verus!
