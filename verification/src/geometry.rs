//! Screen rectangles in virtual-desktop pixel coordinates.

use vstd::prelude::*;

verus! {

/// Whether a mathematical integer fits in an `i32`.
pub open spec fn fits_i32(v: int) -> bool {
    i32::MIN <= v <= i32::MAX
}

/// An axis-aligned rectangle given by its edges; `right` and `bottom` are exclusive.
#[derive(Debug, Clone, Copy, PartialEq, Eq, Structural)]
pub struct ScreenRect {
    pub left: i32,
    pub top: i32,
    pub right: i32,
    pub bottom: i32,
}

impl ScreenRect {
    /// Width as a mathematical integer.
    pub open spec fn spec_width(self) -> int {
        self.right - self.left
    }

    /// Height as a mathematical integer.
    pub open spec fn spec_height(self) -> int {
        self.bottom - self.top
    }

    /// A rectangle is valid when it has positive extent on both axes.
    pub open spec fn spec_is_valid(self) -> bool {
        self.right > self.left && self.bottom > self.top
    }

    /// Whether shrinking every edge by `px` stays inside the `i32` range.
    pub open spec fn inset_fits(self, px: int) -> bool {
        &&& fits_i32(self.left + px)
        &&& fits_i32(self.top + px)
        &&& fits_i32(self.right - px)
        &&& fits_i32(self.bottom - px)
    }

    /// The rectangle with every edge moved inwards by `px`.
    pub open spec fn spec_inset(self, px: int) -> ScreenRect {
        ScreenRect {
            left: (self.left + px) as i32,
            top: (self.top + px) as i32,
            right: (self.right - px) as i32,
            bottom: (self.bottom - px) as i32,
        }
    }

    pub fn new(left: i32, top: i32, right: i32, bottom: i32) -> (r: Self)
        ensures
            r == (ScreenRect { left, top, right, bottom }),
    {
        ScreenRect { left, top, right, bottom }
    }

    /// The rectangle whose top-left corner is `(x, y)` and whose extent is `w` by `h`.
    pub fn from_xywh(x: i32, y: i32, w: i32, h: i32) -> (r: Self)
        requires
            fits_i32(x + w),
            fits_i32(y + h),
        ensures
            r.left == x,
            r.top == y,
            r.right == x + w,
            r.bottom == y + h,
    {
        ScreenRect { left: x, top: y, right: x + w, bottom: y + h }
    }

    pub fn width(self) -> (w: i32)
        requires
            fits_i32(self.spec_width()),
        ensures
            w == self.spec_width(),
    {
        self.right - self.left
    }

    pub fn height(self) -> (h: i32)
        requires
            fits_i32(self.spec_height()),
        ensures
            h == self.spec_height(),
    {
        self.bottom - self.top
    }

    pub fn is_valid(self) -> (b: bool)
        ensures
            b == self.spec_is_valid(),
    {
        self.right > self.left && self.bottom > self.top
    }

    /// Whether `inset(px)` can be computed without leaving the `i32` range.
    pub fn can_inset(self, px: i32) -> (b: bool)
        ensures
            b == self.inset_fits(px as int),
    {
        let l = self.left as i64 + px as i64;
        let t = self.top as i64 + px as i64;
        let r = self.right as i64 - px as i64;
        let b = self.bottom as i64 - px as i64;
        let lo = i32::MIN as i64;
        let hi = i32::MAX as i64;
        lo <= l && l <= hi && lo <= t && t <= hi && lo <= r && r <= hi && lo <= b && b <= hi
    }

    pub fn inset(self, px: i32) -> (r: Self)
        requires
            self.inset_fits(px as int),
        ensures
            r == self.spec_inset(px as int),
    {
        ScreenRect {
            left: self.left + px,
            top: self.top + px,
            right: self.right - px,
            bottom: self.bottom - px,
        }
    }
}

} // verus!
