//! Displays and the rectangle that encloses all of them.

use crate::geometry::{fits_i32, ScreenRect};
use crate::text::{i32_to_string, int_repr, nat_repr, usize_to_string};
use vstd::prelude::*;

verus! {

/// A display as the operating system reports it.
#[derive(Debug, Clone, PartialEq, Eq)]
pub struct MonitorInfo {
    pub name: String,
    pub bounds: ScreenRect,
    pub work_area: ScreenRect,
    pub is_primary: bool,
}

pub open spec fn min_i32(a: i32, b: i32) -> i32 {
    if a <= b {
        a
    } else {
        b
    }
}

pub open spec fn max_i32(a: i32, b: i32) -> i32 {
    if a >= b {
        a
    } else {
        b
    }
}

/// The smallest rectangle enclosing the bounds of the first `n` monitors,
/// starting from the empty extent `(i32::MAX, i32::MAX, i32::MIN, i32::MIN)`.
pub open spec fn spec_bounding_box(ms: Seq<MonitorInfo>, n: int) -> ScreenRect
    decreases n,
{
    if n <= 0 {
        ScreenRect { left: i32::MAX, top: i32::MAX, right: i32::MIN, bottom: i32::MIN }
    } else {
        let b = spec_bounding_box(ms, n - 1);
        let r = ms[n - 1].bounds;
        ScreenRect {
            left: min_i32(b.left, r.left),
            top: min_i32(b.top, r.top),
            right: max_i32(b.right, r.right),
            bottom: max_i32(b.bottom, r.bottom),
        }
    }
}

/// The box encloses every monitor, and each of its edges is an edge of some monitor.
pub open spec fn encloses_exactly(ms: Seq<MonitorInfo>, b: ScreenRect) -> bool {
    &&& forall|i: int|
        0 <= i < ms.len() ==> {
            &&& b.left <= #[trigger] ms[i].bounds.left
            &&& b.top <= ms[i].bounds.top
            &&& ms[i].bounds.right <= b.right
            &&& ms[i].bounds.bottom <= b.bottom
        }
    &&& exists|i: int| 0 <= i < ms.len() && #[trigger] ms[i].bounds.left == b.left
    &&& exists|i: int| 0 <= i < ms.len() && #[trigger] ms[i].bounds.top == b.top
    &&& exists|i: int| 0 <= i < ms.len() && #[trigger] ms[i].bounds.right == b.right
    &&& exists|i: int| 0 <= i < ms.len() && #[trigger] ms[i].bounds.bottom == b.bottom
}

proof fn lemma_bounding_box(ms: Seq<MonitorInfo>, n: int)
    requires
        0 < n <= ms.len(),
    ensures
        encloses_exactly(ms.take(n), spec_bounding_box(ms, n)),
    decreases n,
{
    let b = spec_bounding_box(ms, n);
    let t = ms.take(n);
    if n == 1 {
        let e = spec_bounding_box(ms, 0);
        assert(e.left == i32::MAX && e.top == i32::MAX);
        assert(t[0] == ms[0]);
        assert(t[0].bounds.left == b.left);
        assert(t[0].bounds.top == b.top);
        assert(t[0].bounds.right == b.right);
        assert(t[0].bounds.bottom == b.bottom);
    } else {
        lemma_bounding_box(ms, n - 1);
        let p = ms.take(n - 1);
        assert forall|i: int| 0 <= i < n - 1 implies #[trigger] t[i] == p[i] by {}
        assert(t[n - 1] == ms[n - 1]);
        let pb = spec_bounding_box(ms, n - 1);
        if pb.left <= ms[n - 1].bounds.left {
            let k = choose|i: int| 0 <= i < p.len() && #[trigger] p[i].bounds.left == pb.left;
            assert(t[k].bounds.left == b.left);
        } else {
            assert(t[n - 1].bounds.left == b.left);
        }
        if pb.top <= ms[n - 1].bounds.top {
            let k = choose|i: int| 0 <= i < p.len() && #[trigger] p[i].bounds.top == pb.top;
            assert(t[k].bounds.top == b.top);
        } else {
            assert(t[n - 1].bounds.top == b.top);
        }
        if pb.right >= ms[n - 1].bounds.right {
            let k = choose|i: int| 0 <= i < p.len() && #[trigger] p[i].bounds.right == pb.right;
            assert(t[k].bounds.right == b.right);
        } else {
            assert(t[n - 1].bounds.right == b.right);
        }
        if pb.bottom >= ms[n - 1].bounds.bottom {
            let k = choose|i: int| 0 <= i < p.len() && #[trigger] p[i].bounds.bottom == pb.bottom;
            assert(t[k].bounds.bottom == b.bottom);
        } else {
            assert(t[n - 1].bounds.bottom == b.bottom);
        }
    }
}

/// The smallest rectangle enclosing every monitor's bounds. For an empty list
/// it is the empty extent `(i32::MAX, i32::MAX, i32::MIN, i32::MIN)`.
pub fn bounding_box(monitors: &[MonitorInfo]) -> (b: ScreenRect)
    ensures
        b == spec_bounding_box(monitors@, monitors@.len() as int),
        monitors@.len() > 0 ==> encloses_exactly(monitors@, b),
{
    let mut left = i32::MAX;
    let mut top = i32::MAX;
    let mut right = i32::MIN;
    let mut bottom = i32::MIN;
    let mut i: usize = 0;
    while i < monitors.len()
        invariant
            i <= monitors@.len(),
            (ScreenRect { left, top, right, bottom }) == spec_bounding_box(monitors@, i as int),
        decreases monitors@.len() - i,
    {
        let m = &monitors[i];
        if m.bounds.left < left {
            left = m.bounds.left;
        }
        if m.bounds.top < top {
            top = m.bounds.top;
        }
        if m.bounds.right > right {
            right = m.bounds.right;
        }
        if m.bounds.bottom > bottom {
            bottom = m.bounds.bottom;
        }
        i = i + 1;
    }
    proof {
        if monitors@.len() > 0 {
            lemma_bounding_box(monitors@, monitors@.len() as int);
            assert(monitors@.take(monitors@.len() as int) =~= monitors@);
        }
    }
    ScreenRect::new(left, top, right, bottom)
}

/// The virtual desktop: the rectangle enclosing all monitors, if there are any.
pub fn virtual_screen(monitors: &[MonitorInfo]) -> (r: Option<ScreenRect>)
    ensures
        monitors@.len() == 0 ==> r is None,
        monitors@.len() > 0 ==> r == Some(spec_bounding_box(monitors@, monitors@.len() as int)),
        r matches Some(b) ==> encloses_exactly(monitors@, b),
{
    if monitors.len() == 0 {
        return None;
    }
    Some(bounding_box(monitors))
}

/// The line under the monitor preview describing monitor number `idx` (from 0).
pub open spec fn spec_caption(m: MonitorInfo, idx: nat) -> Seq<char> {
    "#"@ + nat_repr(idx + 1) + "  "@ + int_repr(m.bounds.spec_width()) + "×"@ + int_repr(
        m.bounds.spec_height(),
    ) + " at ("@ + int_repr(m.bounds.left as int) + ","@ + int_repr(m.bounds.top as int) + ")"@
        + if m.is_primary {
        " · primary"@
    } else {
        Seq::empty()
    }
}

/// The monitor the selection points at: the selection, or the last one when
/// it is past the end.
pub open spec fn shown_index(selected: usize, len: nat) -> nat {
    if selected < len {
        selected as nat
    } else {
        (len - 1) as nat
    }
}

/// Whether the caption of the selected monitor can be written (its width and
/// height are in the `i32` range).
pub open spec fn caption_fits(monitors: Seq<MonitorInfo>, selected: usize) -> bool {
    monitors.len() > 0 ==> {
        let m = monitors[shown_index(selected, monitors.len()) as int];
        fits_i32(m.bounds.spec_width()) && fits_i32(m.bounds.spec_height())
    }
}

/// The caption of the selected monitor, or nothing when there are no monitors.
pub fn monitor_caption(monitors: &[MonitorInfo], selected: usize) -> (r: Option<String>)
    requires
        caption_fits(monitors@, selected),
    ensures
        monitors@.len() == 0 ==> r is None,
        monitors@.len() > 0 ==> ({
            let idx = shown_index(selected, monitors@.len());
            r matches Some(s) && s@ == spec_caption(monitors@[idx as int], idx)
        }),
{
    let n = monitors.len();
    if n == 0 {
        return None;
    }
    let idx = if selected < n {
        selected
    } else {
        n - 1
    };
    let m = &monitors[idx];
    let mut s = String::from_str("#");
    s.append(usize_to_string(idx + 1).as_str());
    s.append("  ");
    s.append(i32_to_string(m.bounds.width()).as_str());
    s.append("×");
    s.append(i32_to_string(m.bounds.height()).as_str());
    s.append(" at (");
    s.append(i32_to_string(m.bounds.left).as_str());
    s.append(",");
    s.append(i32_to_string(m.bounds.top).as_str());
    s.append(")");
    if m.is_primary {
        s.append(" · primary");
    }
    proof {
        let idx_n = shown_index(selected, monitors@.len());
        assert(idx as nat == idx_n);
        if !m.is_primary {
            assert(s@ =~= spec_caption(monitors@[idx as int], idx_n));
        }
    }
    Some(s)
}

/// Whether `monitor_caption` may be called (see `caption_fits`).
pub fn caption_fits_now(monitors: &[MonitorInfo], selected: usize) -> (b: bool)
    ensures
        b == caption_fits(monitors@, selected),
{
    let n = monitors.len();
    if n == 0 {
        return true;
    }
    let idx = if selected < n {
        selected
    } else {
        n - 1
    };
    let r = monitors[idx].bounds;
    let w = r.right as i64 - r.left as i64;
    let h = r.bottom as i64 - r.top as i64;
    i32::MIN as i64 <= w && w <= i32::MAX as i64 && i32::MIN as i64 <= h && h <= i32::MAX as i64
}

} // verus!
