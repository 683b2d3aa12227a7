//! Display rectangles: the primary monitor's bounds and their centre.
use vstd::prelude::*;

verus! {

/// A screen rectangle in physical pixels, as the Win32 `RECT`: the right and
/// bottom edges lie just outside it.
#[derive(Debug, Clone, Copy, PartialEq, Eq, Structural)]
pub struct Rect {
    pub left: i32,
    pub top: i32,
    pub right: i32,
    pub bottom: i32,
}

/// The monitor flag that marks the primary display (`MONITORINFOF_PRIMARY`).
pub const MONITORINFOF_PRIMARY: u32 = 0x0001;

/// Half of `w`, rounded toward zero as integer division in Rust rounds.
pub open spec fn half_toward_zero(w: int) -> int {
    if w >= 0 {
        w / 2
    } else {
        -((-w) / 2)
    }
}

impl Rect {
    /// The width and the height of the rectangle fit in an `i32`.
    pub open spec fn extent_fits(&self) -> bool {
        &&& i32::MIN <= self.right - self.left <= i32::MAX
        &&& i32::MIN <= self.bottom - self.top <= i32::MAX
    }

    /// The rectangle covers at least one pixel.
    pub open spec fn is_nonempty(&self) -> bool {
        self.right > self.left && self.bottom > self.top
    }

    /// The centre of the rectangle: the left and top edges plus half the
    /// width and half the height.
    pub open spec fn center(&self) -> (int, int) {
        (
            self.left + half_toward_zero(self.right - self.left),
            self.top + half_toward_zero(self.bottom - self.top),
        )
    }
}

/// The centre `(x, y)` of `rect`.
pub fn get_rect_center(rect: &Rect) -> (c: (i32, i32))
    requires
        rect.extent_fits(),
    ensures
        c.0 == rect.center().0,
        c.1 == rect.center().1,
        rect.right - rect.left >= 0 ==> 0 <= (rect.right - rect.left) - 2 * (c.0 - rect.left) <= 1,
        rect.right - rect.left < 0 ==> -1 <= (rect.right - rect.left) - 2 * (c.0 - rect.left) <= 0,
        rect.bottom - rect.top >= 0 ==> 0 <= (rect.bottom - rect.top) - 2 * (c.1 - rect.top) <= 1,
        rect.bottom - rect.top < 0 ==> -1 <= (rect.bottom - rect.top) - 2 * (c.1 - rect.top) <= 0,
{
    proof {
        lemma_center_is_midpoint(*rect);
    }
    let width = rect.right - rect.left;
    let height = rect.bottom - rect.top;
    (rect.left + width / 2, rect.top + height / 2)
}

/// The centre is the midpoint: twice its distance from the left (top) edge is
/// the width (height), or one less than a positive odd width (height) and one
/// more than a negative odd one, as halving rounds toward zero.
pub proof fn lemma_center_is_midpoint(rect: Rect)
    ensures
        rect.right - rect.left >= 0 ==> 0 <= (rect.right - rect.left) - 2 * (rect.center().0
            - rect.left) <= 1,
        rect.right - rect.left < 0 ==> -1 <= (rect.right - rect.left) - 2 * (rect.center().0
            - rect.left) <= 0,
        rect.bottom - rect.top >= 0 ==> 0 <= (rect.bottom - rect.top) - 2 * (rect.center().1
            - rect.top) <= 1,
        rect.bottom - rect.top < 0 ==> -1 <= (rect.bottom - rect.top) - 2 * (rect.center().1
            - rect.top) <= 0,
{
}

/// The centre of a rectangle that covers a pixel is one of its pixels.
pub proof fn lemma_center_inside(rect: Rect)
    requires
        rect.is_nonempty(),
    ensures
        rect.left <= rect.center().0 < rect.right,
        rect.top <= rect.center().1 < rect.bottom,
{
}

/// Whether a monitor, described by its `MONITORINFO` flags, is the primary
/// display; `info_read` says whether its information could be read at all.
pub fn is_primary_monitor(info_read: bool, flags: u32) -> (primary: bool)
    ensures
        primary == (info_read && flags & MONITORINFOF_PRIMARY != 0),
{
    info_read && (flags & MONITORINFOF_PRIMARY) != 0
}

/// The bounds used as the primary display: those the monitor enumeration
/// found, when it reported success and found a rectangle that covers a pixel;
/// otherwise the primary screen's size placed at the origin.
pub fn primary_rect_or_screen(
    enumeration_succeeded: bool,
    found: Rect,
    screen_width: i32,
    screen_height: i32,
) -> (r: Rect)
    ensures
        enumeration_succeeded && found.is_nonempty() ==> r == found,
        !(enumeration_succeeded && found.is_nonempty()) ==> r == (Rect {
            left: 0,
            top: 0,
            right: screen_width,
            bottom: screen_height,
        }),
{
    if enumeration_succeeded && (found.right > found.left && found.bottom > found.top) {
        found
    } else {
        Rect { left: 0, top: 0, right: screen_width, bottom: screen_height }
    }
}

} // verus!
