//! Where the quick input window opens and how large it is: the size that the
//! settings ask for, within bounds and within the work area of the monitor under the
//! pointer, and a position near the pointer that keeps the window inside that work
//! area.

use vstd::prelude::*;
use crate::model::Settings;

verus! {

/// The part of a monitor that windows may use, in pixels.
#[derive(Debug, Clone, Copy, PartialEq, Eq, Structural)]
pub struct WorkArea {
    pub x: i32,
    pub y: i32,
    pub width: i32,
    pub height: i32,
}

/// The size of the quick input window, and its position where the worker places it.
#[derive(Debug, Clone, Copy, PartialEq, Eq)]
pub struct QuickInputGeometry {
    pub width: i32,
    pub height: i32,
    pub position: Option<(i32, i32)>,
}

/// The smaller of two numbers.
pub open spec fn min_int(a: int, b: int) -> int {
    if a <= b {
        a
    } else {
        b
    }
}

/// The larger of two numbers.
pub open spec fn max_int(a: int, b: int) -> int {
    if a >= b {
        a
    } else {
        b
    }
}

/// `v` brought within `lo` and `hi`.
pub open spec fn clamp_int(v: int, lo: int, hi: int) -> int {
    max_int(lo, min_int(v, hi))
}

/// The width that the settings ask for: from 240 to 1600.
pub open spec fn requested_width(s: Settings) -> int {
    clamp_int(s.quick_input_width as int, 240, 1600)
}

/// The height that the settings ask for: from 40 to 240.
pub open spec fn requested_height(s: Settings) -> int {
    clamp_int(s.quick_input_height as int, 40, 240)
}

/// The width within a work area: no wider than it less 24 pixels, but never below 240.
pub open spec fn fitted_width(s: Settings, wa: WorkArea) -> int {
    min_int(requested_width(s), max_int(wa.width - 24, 240))
}

/// The height within a work area: no higher than it less 24 pixels, but never below 40.
pub open spec fn fitted_height(s: Settings, wa: WorkArea) -> int {
    min_int(requested_height(s), max_int(wa.height - 24, 40))
}

/// The left edge: at the pointer, but 12 pixels inside the work area on both sides
/// (the left side winning where the window does not fit).
pub open spec fn fitted_x(px: int, wa: WorkArea, width: int) -> int {
    max_int(min_int(px, wa.x + wa.width - width - 12), wa.x + 12)
}

/// The top edge: 16 pixels below the pointer, but 12 pixels inside the work area
/// (the top winning where the window does not fit).
pub open spec fn fitted_y(py: int, wa: WorkArea, height: int) -> int {
    max_int(min_int(py + 16, wa.y + wa.height - height - 12), wa.y + 12)
}

/// Whether the numbers that placing the window works with fit in an `i32`.
pub open spec fn placement_fits(s: Settings, px: i32, py: i32, wa: WorkArea) -> bool {
    let w = fitted_width(s, wa);
    let h = fitted_height(s, wa);
    &&& i32::MIN <= wa.width - 24
    &&& i32::MIN <= wa.height - 24
    &&& i32::MIN <= wa.x + wa.width - w - 12 <= i32::MAX
    &&& wa.x + 12 <= i32::MAX
    &&& py + 16 <= i32::MAX
    &&& i32::MIN <= wa.y + wa.height - h - 12 <= i32::MAX
    &&& wa.y + 12 <= i32::MAX
}

fn min_i64(a: i64, b: i64) -> (r: i64)
    ensures
        r == min_int(a as int, b as int),
{
    if a <= b {
        a
    } else {
        b
    }
}

fn max_i64(a: i64, b: i64) -> (r: i64)
    ensures
        r == max_int(a as int, b as int),
{
    if a >= b {
        a
    } else {
        b
    }
}

/// The quick input window's geometry. `pointer` is the pointer's position and the
/// work area of the monitor under it, `None` where they are not known: the window then
/// has the size that the settings ask for and is not placed. Otherwise the size is
/// fitted to the work area, and the window is placed near the pointer, except on
/// Wayland, where the compositor places it.
pub fn quick_input_geometry(settings: &Settings, pointer: Option<(i32, i32, WorkArea)>, wayland: bool) -> (r:
    QuickInputGeometry)
    requires
        pointer matches Some((px, py, wa)) ==> placement_fits(*settings, px, py, wa),
    ensures
        match pointer {
            None => r.width == requested_width(*settings) && r.height == requested_height(*settings)
                && r.position is None,
            Some((px, py, wa)) => {
                &&& r.width == fitted_width(*settings, wa)
                &&& r.height == fitted_height(*settings, wa)
                &&& wayland ==> r.position is None
                &&& !wayland ==> r.position == Some(
                    (
                        fitted_x(px as int, wa, r.width as int) as i32,
                        fitted_y(py as int, wa, r.height as int) as i32,
                    ),
                )
            },
        },
{
    let requested_w = max_i64(240, min_i64(settings.quick_input_width as i64, 1600));
    let requested_h = max_i64(40, min_i64(settings.quick_input_height as i64, 240));
    match pointer {
        None => QuickInputGeometry { width: requested_w as i32, height: requested_h as i32, position: None },
        Some((px, py, wa)) => {
            let width = min_i64(requested_w, max_i64(wa.width as i64 - 24, 240));
            let height = min_i64(requested_h, max_i64(wa.height as i64 - 24, 40));
            if wayland {
                return QuickInputGeometry { width: width as i32, height: height as i32, position: None };
            }
            let x = max_i64(min_i64(px as i64, wa.x as i64 + wa.width as i64 - width - 12), wa.x as i64 + 12);
            let y = max_i64(
                min_i64(py as i64 + 16, wa.y as i64 + wa.height as i64 - height - 12),
                wa.y as i64 + 12,
            );
            QuickInputGeometry { width: width as i32, height: height as i32, position: Some((x as i32, y as i32)) }
        },
    }
}

/// A window placed near the pointer lies 12 pixels inside the work area on the left
/// and on the top, and also on the right and at the bottom where it fits.
pub proof fn lemma_placed_window_stays_inside(s: Settings, px: int, py: int, wa: WorkArea)
    ensures
        ({
            let w = fitted_width(s, wa);
            let h = fitted_height(s, wa);
            let x = fitted_x(px, wa, w);
            let y = fitted_y(py, wa, h);
            &&& x >= wa.x + 12
            &&& y >= wa.y + 12
            &&& wa.x + 12 <= wa.x + wa.width - w - 12 ==> x + w + 12 <= wa.x + wa.width
            &&& wa.y + 12 <= wa.y + wa.height - h - 12 ==> y + h + 12 <= wa.y + wa.height
        }),
{
}

/// The fitted size stays within what the settings allow: from 240 to 1600 pixels wide
/// and from 40 to 240 high.
pub proof fn lemma_fitted_size_in_bounds(s: Settings, wa: WorkArea)
    ensures
        240 <= fitted_width(s, wa) <= 1600,
        40 <= fitted_height(s, wa) <= 240,
{
}

} // verus!
