use vstd::prelude::*;

verus! {

/// A rectangle in window coordinates, edges inclusive of `left`/`top` and
/// exclusive of `right`/`bottom`.
#[derive(Clone, Copy, Debug, PartialEq, Eq, Structural)]
pub struct Rect {
    pub left: i32,
    pub top: i32,
    pub right: i32,
    pub bottom: i32,
}

impl Rect {
    /// Width of the rectangle as a mathematical integer.
    pub open spec fn width(self) -> int {
        self.right - self.left
    }

    /// Height of the rectangle as a mathematical integer.
    pub open spec fn height(self) -> int {
        self.bottom - self.top
    }

    /// A rectangle whose extent is non-negative and fits in an `i32`.
    pub open spec fn is_valid(self) -> bool {
        0 <= self.width() <= i32::MAX && 0 <= self.height() <= i32::MAX
    }

    /// The same extent moved so that its top-left corner is the origin.
    pub open spec fn anchored_spec(self) -> Rect {
        Rect { left: 0, top: 0, right: self.width() as i32, bottom: self.height() as i32 }
    }

    pub fn new(left: i32, top: i32, right: i32, bottom: i32) -> (r: Rect)
        ensures
            r == (Rect { left, top, right, bottom }),
    {
        Rect { left, top, right, bottom }
    }

    pub fn is_valid_rect(&self) -> (r: bool)
        ensures
            r == self.is_valid(),
    {
        let w: i64 = self.right as i64 - self.left as i64;
        let h: i64 = self.bottom as i64 - self.top as i64;
        0 <= w && w <= i32::MAX as i64 && 0 <= h && h <= i32::MAX as i64
    }

    /// Bounds for a view that fills this client area: `{0, 0, width, height}`,
    /// whatever the area's position.
    pub fn anchored(&self) -> (r: Rect)
        requires
            self.is_valid(),
        ensures
            r == self.anchored_spec(),
            r.left == 0,
            r.top == 0,
            r.right == self.width(),
            r.bottom == self.height(),
    {
        Rect { left: 0, top: 0, right: self.right - self.left, bottom: self.bottom - self.top }
    }
}

} // verus!
