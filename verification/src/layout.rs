//! Rectangles on the terminal's grid of cells.

use vstd::prelude::*;

verus! {

/// A rectangle of cells: its top left corner, and its size.
#[derive(Clone, Copy, Debug, PartialEq, Eq, Structural)]
pub struct Area {
    pub x: u16,
    pub y: u16,
    pub width: u16,
    pub height: u16,
}

impl Area {
    /// The column just right of the rectangle.
    pub open spec fn right(self) -> int {
        self.x + self.width
    }

    /// The row just below the rectangle.
    pub open spec fn bottom(self) -> int {
        self.y + self.height
    }

    /// Whether the rectangle holds no cell.
    pub open spec fn is_empty(self) -> bool {
        self.width == 0 || self.height == 0
    }

    /// Whether the cell in column `x` and row `y` lies in the rectangle.
    pub open spec fn covers(self, x: int, y: int) -> bool {
        self.x <= x < self.right() && self.y <= y < self.bottom()
    }

    /// Whether every column and row of the rectangle has a `u16` number.
    pub open spec fn on_grid(self) -> bool {
        self.right() <= u16::MAX && self.bottom() <= u16::MAX
    }

    /// Whether the rectangle lies inside `outer`, edges included.
    pub open spec fn within(self, outer: Area) -> bool {
        &&& outer.x <= self.x
        &&& outer.y <= self.y
        &&& self.right() <= outer.right()
        &&& self.bottom() <= outer.bottom()
    }

    /// The rectangle that is left when `horizontal` columns are taken off
    /// the left and the right and `vertical` rows off the top and the bottom;
    /// the empty rectangle at the origin when there is not that much to take.
    pub open spec fn inner_spec(self, horizontal: u16, vertical: u16) -> Area {
        if self.width < 2 * horizontal || self.height < 2 * vertical {
            Area { x: 0, y: 0, width: 0, height: 0 }
        } else {
            Area {
                x: (self.x + horizontal) as u16,
                y: (self.y + vertical) as u16,
                width: (self.width - 2 * horizontal) as u16,
                height: (self.height - 2 * vertical) as u16,
            }
        }
    }

    /// The rectangle of `width` by `height` cells in the middle of this one,
    /// cut down to this one's size where it would not fit. Where the space
    /// left over is odd, the smaller share is on the left and at the top.
    pub open spec fn centered_spec(self, width: u16, height: u16) -> Area {
        let w = if width <= self.width { width } else { self.width };
        let h = if height <= self.height { height } else { self.height };
        Area {
            x: (self.x + (self.width - w) / 2) as u16,
            y: (self.y + (self.height - h) / 2) as u16,
            width: w,
            height: h,
        }
    }

    /// Shrinks the rectangle by a margin on every side.
    #[verifier::when_used_as_spec(inner_spec)]
    pub fn inner(self, horizontal: u16, vertical: u16) -> (r: Area)
        requires
            self.on_grid(),
        ensures
            r == self.inner_spec(horizontal, vertical),
    {
        if horizontal > self.width / 2 || vertical > self.height / 2 {
            Area { x: 0, y: 0, width: 0, height: 0 }
        } else {
            Area {
                x: self.x + horizontal,
                y: self.y + vertical,
                width: self.width - 2 * horizontal,
                height: self.height - 2 * vertical,
            }
        }
    }

    /// Places a rectangle of the given size in the middle of this one.
    #[verifier::when_used_as_spec(centered_spec)]
    pub fn centered(self, width: u16, height: u16) -> (r: Area)
        requires
            self.on_grid(),
        ensures
            r == self.centered_spec(width, height),
    {
        let w: u16 = if width <= self.width { width } else { self.width };
        let h: u16 = if height <= self.height { height } else { self.height };
        Area {
            x: self.x + (self.width - w) / 2,
            y: self.y + (self.height - h) / 2,
            width: w,
            height: h,
        }
    }
}

/// A centered rectangle lies inside the one it was centered in, and the
/// space left over on the two sides differs by one cell at most, as does
/// the space above and below.
pub proof fn lemma_centered_is_centered(outer: Area, width: u16, height: u16)
    requires
        outer.on_grid(),
    ensures
        outer.centered_spec(width, height).within(outer),
        outer.centered_spec(width, height).on_grid(),
        ({
            let c = outer.centered_spec(width, height);
            let left = c.x - outer.x;
            let right = outer.right() - c.right();
            let above = c.y - outer.y;
            let below = outer.bottom() - c.bottom();
            &&& left <= right <= left + 1
            &&& above <= below <= above + 1
        }),
{
}

/// An inner rectangle lies inside the one it was taken from, unless that one
/// was too small for the margin, and then it is empty.
pub proof fn lemma_inner_is_inside(outer: Area, horizontal: u16, vertical: u16)
    requires
        outer.on_grid(),
    ensures
        outer.inner_spec(horizontal, vertical).is_empty() || outer.inner_spec(
            horizontal,
            vertical,
        ).within(outer),
        outer.inner_spec(horizontal, vertical).on_grid(),
{
}

} // verus!
