//! Monitor geometry: the bounds of the whole desktop, when the monitor
//! layout changed, which wallpaper windows to move, and the size of each
//! renderer's surface.
use vstd::prelude::*;

verus! {

/// A rectangle in physical screen pixels (as Win32's `RECT`).
#[derive(Clone, Copy, PartialEq, Eq, Debug, Structural)]
pub struct Rect {
    pub left: i32,
    pub top: i32,
    pub right: i32,
    pub bottom: i32,
}

/// The smallest rectangle that holds both `a` and `b`.
pub open spec fn union_rect(a: Rect, b: Rect) -> Rect {
    Rect {
        left: if a.left <= b.left { a.left } else { b.left },
        top: if a.top <= b.top { a.top } else { b.top },
        right: if a.right >= b.right { a.right } else { b.right },
        bottom: if a.bottom >= b.bottom { a.bottom } else { b.bottom },
    }
}

/// The bounds of the virtual screen that the monitors `s` make up; all zero
/// when there is no monitor.
pub open spec fn bounds_of(s: Seq<Rect>) -> Rect
    decreases s.len(),
{
    if s.len() == 0 {
        Rect { left: 0, top: 0, right: 0, bottom: 0 }
    } else if s.len() == 1 {
        s[0]
    } else {
        union_rect(bounds_of(s.drop_last()), s.last())
    }
}

/// The bounds of the virtual screen that the monitors `rects` make up.
pub fn virtual_bounds(rects: &[Rect]) -> (b: Rect)
    ensures
        b == bounds_of(rects@),
{
    if rects.len() == 0 {
        return Rect { left: 0, top: 0, right: 0, bottom: 0 };
    }
    let mut b = rects[0];
    let mut i: usize = 1;
    assert(rects@.subrange(0, 1) =~= seq![rects@[0]]);
    while i < rects.len()
        invariant
            1 <= i <= rects@.len(),
            b == bounds_of(rects@.subrange(0, i as int)),
        decreases rects.len() - i,
    {
        let r = rects[i];
        assert(rects@.subrange(0, i + 1).drop_last() =~= rects@.subrange(0, i as int));
        b = Rect {
            left: if b.left <= r.left { b.left } else { r.left },
            top: if b.top <= r.top { b.top } else { r.top },
            right: if b.right >= r.right { b.right } else { r.right },
            bottom: if b.bottom >= r.bottom { b.bottom } else { r.bottom },
        };
        i += 1;
    }
    assert(rects@.subrange(0, rects@.len() as int) =~= rects@);
    b
}

/// Whether `outer` holds `inner`.
pub open spec fn contains_rect(outer: Rect, inner: Rect) -> bool {
    outer.left <= inner.left && outer.top <= inner.top && inner.right <= outer.right
        && inner.bottom <= outer.bottom
}

/// Law: the virtual screen holds every monitor, and each of its edges is the
/// edge of some monitor, so no smaller rectangle holds them all.
pub proof fn law_bounds_hold_every_monitor(s: Seq<Rect>)
    requires
        s.len() > 0,
    ensures
        forall|i: int| 0 <= i < s.len() ==> contains_rect(bounds_of(s), #[trigger] s[i]),
        exists|i: int| 0 <= i < s.len() && bounds_of(s).left == s[i].left,
        exists|i: int| 0 <= i < s.len() && bounds_of(s).top == s[i].top,
        exists|i: int| 0 <= i < s.len() && bounds_of(s).right == s[i].right,
        exists|i: int| 0 <= i < s.len() && bounds_of(s).bottom == s[i].bottom,
    decreases s.len(),
{
    if s.len() > 1 {
        let p = s.drop_last();
        law_bounds_hold_every_monitor(p);
        assert forall|i: int| 0 <= i < s.len() implies contains_rect(bounds_of(s), #[trigger] s[i]) by {
            if i < s.len() - 1 {
                assert(s[i] == p[i]);
            }
        }
        let n = s.len() - 1;
        let il = choose|i: int| 0 <= i < p.len() && bounds_of(p).left == p[i].left;
        let it = choose|i: int| 0 <= i < p.len() && bounds_of(p).top == p[i].top;
        let ir = choose|i: int| 0 <= i < p.len() && bounds_of(p).right == p[i].right;
        let ib = choose|i: int| 0 <= i < p.len() && bounds_of(p).bottom == p[i].bottom;
        assert(s[il] == p[il] && s[it] == p[it] && s[ir] == p[ir] && s[ib] == p[ib]);
        assert(s[n] == s.last());
    } else {
        assert(bounds_of(s) == s[0]);
    }
}

/// Whether the monitor layout differs from the one the windows were made
/// for: another number of monitors, or any monitor with another rectangle.
pub fn monitors_changed(current: &[Rect], known: &[Rect]) -> (changed: bool)
    ensures
        changed == (current@ != known@),
{
    if current.len() != known.len() {
        return true;
    }
    let mut i: usize = 0;
    while i < current.len()
        invariant
            i <= current@.len() == known@.len(),
            forall|k: int| 0 <= k < i ==> current@[k] == known@[k],
        decreases current.len() - i,
    {
        let a = current[i];
        let b = known[i];
        if a.left != b.left || a.top != b.top || a.right != b.right || a.bottom != b.bottom {
            assert(current@[i as int] != known@[i as int]);
            return true;
        }
        i += 1;
    }
    assert(current@ =~= known@);
    false
}

/// Whether a rectangle's width and height fit in an `i32`.
pub open spec fn size_fits(r: Rect) -> bool {
    i32::MIN <= r.right - r.left <= i32::MAX && i32::MIN <= r.bottom - r.top <= i32::MAX
}

/// Width and height of a monitor rectangle.
pub fn monitor_size(r: Rect) -> (wh: (i32, i32))
    requires
        size_fits(r),
    ensures
        wh.0 == r.right - r.left,
        wh.1 == r.bottom - r.top,
{
    (r.right - r.left, r.bottom - r.top)
}

/// A wallpaper window: the monitor rectangle it covers and its size.
#[derive(Clone, Copy, PartialEq, Eq, Debug, Structural)]
pub struct MonitorSlot {
    pub rect: Rect,
    pub width: i32,
    pub height: i32,
}

/// Whether the window in `slot` must move to cover the monitor `r`: its
/// top-left corner or its size changed.
pub open spec fn slot_moved(slot: MonitorSlot, r: Rect) -> bool {
    slot.rect.left != r.left || slot.rect.top != r.top || slot.width != r.right - r.left
        || slot.height != r.bottom - r.top
}

/// How the wallpaper windows follow the monitors.
pub enum MonitorSync {
    /// The number of monitors changed: destroy all windows and make new ones.
    Recreate,
    /// Same number of monitors: move and resize the windows whose flag is set.
    Adjust(Vec<bool>),
}

/// How the wallpaper windows `slots` follow the monitors `current`.
pub fn plan_monitor_sync(current: &[Rect], slots: &[MonitorSlot]) -> (p: MonitorSync)
    requires
        forall|i: int| 0 <= i < current@.len() ==> size_fits(#[trigger] current@[i]),
    ensures
        current@.len() != slots@.len() <==> p is Recreate,
        p matches MonitorSync::Adjust(flags) ==> flags@.len() == current@.len() && forall|i: int|
            0 <= i < flags@.len() ==> flags@[i] == slot_moved(slots@[i], current@[i]),
        p matches MonitorSync::Adjust(flags) ==> forall|i: int|
            0 <= i < flags@.len() ==> (!flags@[i] <==> (slots@[i].rect.left == current@[i].left
                && slots@[i].rect.top == current@[i].top && slots@[i].width == current@[i].right
                - current@[i].left && slots@[i].height == current@[i].bottom - current@[i].top)),
{
    if current.len() != slots.len() {
        return MonitorSync::Recreate;
    }
    let mut flags: Vec<bool> = Vec::new();
    let mut i: usize = 0;
    while i < current.len()
        invariant
            i <= current@.len() == slots@.len(),
            forall|i: int| 0 <= i < current@.len() ==> size_fits(#[trigger] current@[i]),
            flags@.len() == i,
            forall|k: int| 0 <= k < i ==> flags@[k] == slot_moved(slots@[k], current@[k]),
        decreases current.len() - i,
    {
        let r = current[i];
        let s = slots[i];
        let (w, h) = monitor_size(r);
        flags.push(s.rect.left != r.left || s.rect.top != r.top || s.width != w || s.height != h);
        i += 1;
    }
    MonitorSync::Adjust(flags)
}

/// A window dimension as a surface dimension: the `i32` converted with
/// `as usize` (a negative value wraps around), and at least 1.
pub open spec fn surface_dimension(v: i32) -> usize {
    let u = #[verifier::truncate] (v as usize);
    if v >= 1 {
        v as usize
    } else if v == 0 || u == 0 {
        1
    } else {
        u
    }
}

fn dimension(v: i32) -> (d: usize)
    ensures
        d == surface_dimension(v),
{
    let u = #[verifier::truncate] (v as usize);
    if u >= 1 {
        u
    } else {
        1
    }
}

/// The size of a renderer's surface for a window of `win_w` by `win_h`.
pub fn compute_renderer_size(win_w: i32, win_h: i32) -> (size: (usize, usize))
    ensures
        size.0 == surface_dimension(win_w),
        size.1 == surface_dimension(win_h),
        size.0 >= 1 && size.1 >= 1,
{
    (dimension(win_w), dimension(win_h))
}

/// What a renderer's surface was last configured for.
#[derive(Clone, Copy, PartialEq, Eq, Debug, Structural)]
pub struct SurfaceGeometry {
    pub width: usize,
    pub height: usize,
    /// The monitor the surface covers.
    pub monitor: Rect,
    /// The whole virtual screen.
    pub desktop: Rect,
}

/// Whether a renderer configured for `current` must be reconfigured for
/// `next`: never for an empty size, otherwise when anything changed.
pub fn needs_resize(current: &SurfaceGeometry, next: &SurfaceGeometry) -> (r: bool)
    ensures
        r == (next.width != 0 && next.height != 0 && *current != *next),
{
    if next.width == 0 || next.height == 0 {
        return false;
    }
    !(current.width == next.width && current.height == next.height && current.monitor.left
        == next.monitor.left && current.monitor.top == next.monitor.top && current.monitor.right
        == next.monitor.right && current.monitor.bottom == next.monitor.bottom
        && current.desktop.left == next.desktop.left && current.desktop.top == next.desktop.top
        && current.desktop.right == next.desktop.right && current.desktop.bottom
        == next.desktop.bottom)
}

/// Law: a wallpaper window is left where it is exactly when it already
/// covers its monitor: same top-left corner, same width and same height. A
/// monitor that moved in either direction, or changed size, gets its window
/// moved.
pub proof fn law_window_kept_only_when_covering(slot: MonitorSlot, r: Rect)
    ensures
        !slot_moved(slot, r) <==> (slot.rect.left == r.left && slot.rect.top == r.top && slot.width
            == r.right - r.left && slot.height == r.bottom - r.top),
{
}

} // verus!
