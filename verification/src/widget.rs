//! Floating widget: scale limits, window size and placement.

use vstd::prelude::*;

verus! {

/// Smallest widget scale, in percent.
pub const WIDGET_MIN_SCALE: u32 = 80;

/// Largest widget scale, in percent.
pub const WIDGET_MAX_SCALE: u32 = 220;

/// The value `x` forced into `[lo, hi]`.
pub open spec fn clamp_spec(x: int, lo: int, hi: int) -> int {
    if x < lo {
        lo
    } else if x > hi {
        hi
    } else {
        x
    }
}

/// Scale used when a saved configuration has none.
pub fn default_widget_scale() -> (scale: u32)
    ensures
        scale == 100,
{
    100
}

/// Forces a widget scale into `[WIDGET_MIN_SCALE, WIDGET_MAX_SCALE]`.
pub fn clamp_widget_scale(scale: u32) -> (r: u32)
    ensures
        r == clamp_spec(scale as int, WIDGET_MIN_SCALE as int, WIDGET_MAX_SCALE as int),
{
    if scale < WIDGET_MIN_SCALE {
        WIDGET_MIN_SCALE
    } else if scale > WIDGET_MAX_SCALE {
        WIDGET_MAX_SCALE
    } else {
        scale
    }
}

/// Base widget width at 100 %, in pixels.
pub const WIDGET_WIDTH: u64 = 172;

/// Base widget height at 100 %, in pixels.
pub const WIDGET_HEIGHT: u64 = 34;

/// Smallest widget width, in pixels.
pub const WIDGET_MIN_WIDTH: u64 = 156;

/// Smallest widget height, in pixels.
pub const WIDGET_MIN_HEIGHT: u64 = 42;

/// Gap kept between the widget and the edges of the work area.
pub const WIDGET_EDGE_GAP: i32 = 8;

/// Default distance of the widget from the work area's right edge.
pub const WIDGET_DEFAULT_RIGHT_MARGIN: i32 = 28;

/// Default distance of the widget from the work area's bottom edge.
pub const WIDGET_DEFAULT_BOTTOM_MARGIN: i32 = 16;

/// `base * scale / 100` rounded to the nearest integer (halves away from
/// zero), at least `min`, and at most `u32::MAX`.
pub open spec fn scaled_length(base: int, scale: int, min: int) -> int {
    let rounded = (base * scale + 50) / 100;
    let at_least = if rounded < min {
        min
    } else {
        rounded
    };
    if at_least > u32::MAX {
        u32::MAX as int
    } else {
        at_least
    }
}

fn scale_length(base: u64, scale: u32, min: u64) -> (r: u32)
    requires
        base <= 1000,
    ensures
        r == scaled_length(base as int, scale as int, min as int),
{
    assert(base * scale <= 1000 * u32::MAX) by (nonlinear_arith)
        requires
            base <= 1000,
            scale <= u32::MAX,
    ;
    let rounded = (base * scale as u64 + 50) / 100;
    let at_least = if rounded < min {
        min
    } else {
        rounded
    };
    if at_least > u32::MAX as u64 {
        u32::MAX
    } else {
        at_least as u32
    }
}

/// Widget window size (width, height) in pixels at `scale` percent.
pub fn widget_dimensions(scale: u32) -> (d: (u32, u32))
    ensures
        d.0 == scaled_length(WIDGET_WIDTH as int, scale as int, WIDGET_MIN_WIDTH as int),
        d.1 == scaled_length(WIDGET_HEIGHT as int, scale as int, WIDGET_MIN_HEIGHT as int),
{
    (
        scale_length(WIDGET_WIDTH, scale, WIDGET_MIN_WIDTH),
        scale_length(WIDGET_HEIGHT, scale, WIDGET_MIN_HEIGHT),
    )
}

/// A monitor's work area: top-left corner and size in physical pixels.
#[derive(Clone, Copy, Debug, PartialEq, Eq, Structural)]
pub struct WorkArea {
    pub x: i32,
    pub y: i32,
    pub width: u32,
    pub height: u32,
}

/// Fits in an `i32`.
pub open spec fn fits_i32(v: int) -> bool {
    i32::MIN <= v <= i32::MAX
}

/// The work area's right and bottom edges and the extreme positions the
/// widget may take inside it, with each coordinate computed in `i32` (sizes
/// cast to `i32` as they are).
pub open spec fn placement_bounds(area: WorkArea, width: u32, height: u32) -> (int, int, int, int, int, int) {
    let right = area.x + (area.width as i32);
    let bottom = area.y + (area.height as i32);
    let min_x = area.x + WIDGET_EDGE_GAP;
    let min_y = area.y + WIDGET_EDGE_GAP;
    let max_x = right - (width as i32) - WIDGET_EDGE_GAP;
    let max_y = bottom - (height as i32) - WIDGET_EDGE_GAP;
    (right, bottom, min_x, min_y, max_x, max_y)
}

/// No coordinate of the placement leaves the `i32` range.
pub open spec fn placement_fits(area: WorkArea, width: u32, height: u32) -> bool {
    let (right, bottom, min_x, min_y, max_x, max_y) = placement_bounds(area, width, height);
    &&& fits_i32(right)
    &&& fits_i32(bottom)
    &&& fits_i32(min_x)
    &&& fits_i32(min_y)
    &&& fits_i32(right - (width as i32))
    &&& fits_i32(bottom - (height as i32))
    &&& fits_i32(max_x)
    &&& fits_i32(max_y)
    &&& fits_i32(right - (width as i32) - WIDGET_DEFAULT_RIGHT_MARGIN)
    &&& fits_i32(bottom - (height as i32) - WIDGET_DEFAULT_BOTTOM_MARGIN)
}

/// Where the widget goes: its saved position, or the bottom-right corner
/// with the default margins, pulled inside the work area with the edge gap
/// (the top-left bound wins when the area is too small).
pub open spec fn widget_placement(
    area: WorkArea,
    width: u32,
    height: u32,
    stored: Option<(i32, i32)>,
) -> (int, int) {
    let (right, bottom, min_x, min_y, max_x, max_y) = placement_bounds(area, width, height);
    let hi_x = if max_x < min_x {
        min_x
    } else {
        max_x
    };
    let hi_y = if max_y < min_y {
        min_y
    } else {
        max_y
    };
    let (x, y) = match stored {
        Some(p) => (p.0 as int, p.1 as int),
        None => (
            right - (width as i32) - WIDGET_DEFAULT_RIGHT_MARGIN,
            bottom - (height as i32) - WIDGET_DEFAULT_BOTTOM_MARGIN,
        ),
    };
    (clamp_spec(x, min_x, hi_x), clamp_spec(y, min_y, hi_y))
}

fn clamp_i32(v: i32, lo: i32, hi: i32) -> (r: i32)
    requires
        lo <= hi,
    ensures
        r == clamp_spec(v as int, lo as int, hi as int),
{
    if v < lo {
        lo
    } else if v > hi {
        hi
    } else {
        v
    }
}

/// See `widget_placement`.
pub fn position_widget(area: WorkArea, width: u32, height: u32, stored: Option<(i32, i32)>) -> (p: (
    i32,
    i32,
))
    requires
        placement_fits(area, width, height),
    ensures
        (p.0 as int, p.1 as int) == widget_placement(area, width, height, stored),
{
    let w = area.width as i32;
    let h = area.height as i32;
    let ww = width as i32;
    let wh = height as i32;
    let work_right = area.x + w;
    let work_bottom = area.y + h;
    let min_x = area.x + WIDGET_EDGE_GAP;
    let min_y = area.y + WIDGET_EDGE_GAP;
    let max_x_raw = work_right - ww - WIDGET_EDGE_GAP;
    let max_y_raw = work_bottom - wh - WIDGET_EDGE_GAP;
    let max_x = if max_x_raw < min_x {
        min_x
    } else {
        max_x_raw
    };
    let max_y = if max_y_raw < min_y {
        min_y
    } else {
        max_y_raw
    };
    let (x, y) = match stored {
        Some((saved_x, saved_y)) => (clamp_i32(saved_x, min_x, max_x), clamp_i32(saved_y, min_y, max_y)),
        None => {
            let default_x = work_right - ww - WIDGET_DEFAULT_RIGHT_MARGIN;
            let default_y = work_bottom - wh - WIDGET_DEFAULT_BOTTOM_MARGIN;
            (clamp_i32(default_x, min_x, max_x), clamp_i32(default_y, min_y, max_y))
        },
    };
    (clamp_i32(x, min_x, max_x), clamp_i32(y, min_y, max_y))
}

/// The widget always lands inside the work area's bounds, and a saved
/// position that already lies inside them is kept.
pub proof fn law_widget_placement_in_bounds(
    area: WorkArea,
    width: u32,
    height: u32,
    stored: Option<(i32, i32)>,
)
    ensures
        ({
            let (right, bottom, min_x, min_y, max_x, max_y) = placement_bounds(
                area,
                width,
                height,
            );
            let (x, y) = widget_placement(area, width, height, stored);
            &&& min_x <= x
            &&& min_y <= y
            &&& (max_x >= min_x ==> x <= max_x)
            &&& (max_y >= min_y ==> y <= max_y)
            &&& (stored matches Some(p) ==> (min_x <= p.0 <= max_x && min_y <= p.1 <= max_y
                ==> x == p.0 && y == p.1))
        }),
{
}

/// With no saved position the widget sits at the work area's bottom-right
/// corner less the default margins (28 px right, 16 px bottom), whenever
/// that point lies inside the allowed bounds.
pub proof fn law_default_placement_is_bottom_right(area: WorkArea, width: u32, height: u32)
    requires
        placement_fits(area, width, height),
        area.width <= i32::MAX,
        area.height <= i32::MAX,
        width <= i32::MAX,
        height <= i32::MAX,
        area.x + 8 <= area.x + area.width - width - 28 <= area.x + area.width - width - 8,
        area.y + 8 <= area.y + area.height - height - 16 <= area.y + area.height - height - 8,
    ensures
        widget_placement(area, width, height, None) == (
            area.x + area.width - width - 28,
            area.y + area.height - height - 16,
        ),
{
}

/// Moving the work area moves the widget with it: shifting the area (and a
/// saved position) by `(dx, dy)` shifts the placement by `(dx, dy)`.
pub proof fn law_placement_follows_work_area(
    area: WorkArea,
    dx: i32,
    dy: i32,
    width: u32,
    height: u32,
    stored: Option<(i32, i32)>,
    moved_stored: Option<(i32, i32)>,
)
    requires
        fits_i32(area.x + dx),
        fits_i32(area.y + dy),
        placement_fits(area, width, height),
        placement_fits(WorkArea { x: (area.x + dx) as i32, y: (area.y + dy) as i32, ..area }, width, height),
        match (stored, moved_stored) {
            (Some(p), Some(q)) => q.0 == p.0 + dx && q.1 == p.1 + dy,
            (None, None) => true,
            _ => false,
        },
    ensures
        ({
            let p = widget_placement(area, width, height, stored);
            let q = widget_placement(
                WorkArea { x: (area.x + dx) as i32, y: (area.y + dy) as i32, ..area },
                width,
                height,
                moved_stored,
            );
            q == (p.0 + dx, p.1 + dy)
        }),
{
}

/// The scale kept is always in range, and clamping twice is clamping once.
pub proof fn law_widget_scale_in_range(scale: u32)
    ensures
        WIDGET_MIN_SCALE <= clamp_spec(scale as int, WIDGET_MIN_SCALE as int, WIDGET_MAX_SCALE as int)
            <= WIDGET_MAX_SCALE,
        clamp_spec(
            clamp_spec(scale as int, WIDGET_MIN_SCALE as int, WIDGET_MAX_SCALE as int),
            WIDGET_MIN_SCALE as int,
            WIDGET_MAX_SCALE as int,
        ) == clamp_spec(scale as int, WIDGET_MIN_SCALE as int, WIDGET_MAX_SCALE as int),
{
}

} // verus!
