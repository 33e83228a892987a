//! Scaling between design pixels and device pixels, and keeping windows on the
//! screen.

use vstd::prelude::*;

verus! {

/// Dots per inch at which design pixels and device pixels agree.
pub const BASE_DPI: u32 = 96;

/// Width of the tag editor in design pixels.
pub const POPUP_LOGICAL_W: i32 = 420;

/// Height of the tag editor in design pixels.
pub const POPUP_LOGICAL_H: i32 = 320;

/// The resolution that a window reports, or the base where it reports none.
pub open spec fn effective_dpi(dpi: u32) -> int {
    if dpi == 0 {
        BASE_DPI as int
    } else {
        dpi as int
    }
}

/// `v` brought into the range from `low` to `high`.
pub open spec fn clamped(v: int, low: int, high: int) -> int {
    if v < low {
        low
    } else if v > high {
        high
    } else {
        v
    }
}

/// `px` design pixels in device pixels, rounded to the nearest, at least one.
pub open spec fn scaled(px: int, dpi: u32) -> int {
    clamped((px * effective_dpi(dpi) + BASE_DPI / 2) / (BASE_DPI as int), 1, i32::MAX as int)
}

/// `px` device pixels in design pixels, rounded to the nearest, never negative.
pub open spec fn unscaled(px: int, dpi: u32) -> int {
    clamped(
        (px * BASE_DPI + effective_dpi(dpi) / 2) / effective_dpi(dpi),
        0,
        i32::MAX as int,
    )
}

/// Converts design pixels to device pixels.
pub fn scale_px(px: i32, dpi: u32) -> (r: i32)
    ensures
        r == scaled(px as int, dpi),
{
    let d: u64 = if dpi == 0 {
        BASE_DPI as u64
    } else {
        dpi as u64
    };
    if px <= 0 {
        proof {
            assert(px * d <= 0) by (nonlinear_arith)
                requires
                    px <= 0,
                    d >= 0,
            ;
        }
        return 1;
    }
    proof {
        assert(0 <= px * d <= 0x7fff_ffff * 0xffff_ffff) by (nonlinear_arith)
            requires
                0 <= px <= 0x7fff_ffff,
                0 <= d <= 0xffff_ffff,
        ;
    }
    let v: u64 = (px as u64 * d + (BASE_DPI / 2) as u64) / BASE_DPI as u64;
    if v < 1 {
        1
    } else if v > i32::MAX as u64 {
        i32::MAX
    } else {
        v as i32
    }
}

/// Converts device pixels to design pixels.
pub fn unscale_px(px: i32, dpi: u32) -> (r: i32)
    ensures
        r == unscaled(px as int, dpi),
{
    let d: u64 = if dpi == 0 {
        BASE_DPI as u64
    } else {
        dpi as u64
    };
    if px <= 0 {
        proof {
            let n = px * BASE_DPI + d / 2;
            assert(n / (d as int) <= 0) by (nonlinear_arith)
                requires
                    n < d,
                    d > 0,
            ;
        }
        return 0;
    }
    proof {
        assert(0 <= px * BASE_DPI <= 0x7fff_ffff * 96) by (nonlinear_arith)
            requires
                0 <= px <= 0x7fff_ffff,
                BASE_DPI == 96,
        ;
    }
    let v: u64 = (px as u64 * BASE_DPI as u64 + d / 2) / d;
    if v > i32::MAX as u64 {
        i32::MAX
    } else {
        v as i32
    }
}

/// Converting to device pixels and back gives the design pixels again, at every
/// resolution from the base up and as long as nothing is cut off.
pub proof fn unscale_reverts_scale(px: int, dpi: u32)
    requires
        1 <= px <= i32::MAX,
        effective_dpi(dpi) >= BASE_DPI,
        scaled(px, dpi) == (px * effective_dpi(dpi) + BASE_DPI / 2) / (BASE_DPI as int),
    ensures
        unscaled(scaled(px, dpi), dpi) == px,
{
    let d = effective_dpi(dpi);
    let n = px * d;
    let s = (n + 48) / 96;
    assert(n >= d) by (nonlinear_arith)
        requires
            px >= 1,
            d >= 96,
            n == px * d,
    ;
    assert(s >= 1);
    assert(scaled(px, dpi) == s);
    let m = s * 96 + d / 2;
    assert(n - 47 <= s * 96 <= n + 48);
    if d == 96 {
        assert(n == px * 96);
        assert(s == px);
    }
    assert(n <= m < n + d);
    assert(m / d == px) by (nonlinear_arith)
        requires
            n == px * d,
            n <= m < n + d,
            d > 0,
    ;
}

/// More design pixels never take fewer device pixels.
pub proof fn scaling_is_monotone(a: int, b: int, dpi: u32)
    requires
        a <= b,
    ensures
        scaled(a, dpi) <= scaled(b, dpi),
        1 <= scaled(a, dpi) <= i32::MAX,
{
    let d = effective_dpi(dpi);
    assert(a * d <= b * d) by (nonlinear_arith)
        requires
            a <= b,
            d >= 0,
    ;
}

/// At the base resolution both conversions keep every size from one pixel up.
pub proof fn base_resolution_changes_nothing(px: int)
    requires
        1 <= px <= i32::MAX,
    ensures
        scaled(px, BASE_DPI) == px,
        unscaled(px, BASE_DPI) == px,
        scaled(px, 0) == px,
        unscaled(px, 0) == px,
{
}

/// Whether a thousand design pixels fit a screen coordinate at this resolution.
pub open spec fn is_usual_dpi(dpi: u32) -> bool {
    (1000 * effective_dpi(dpi) + BASE_DPI / 2) / (BASE_DPI as int) < i32::MAX
}

/// A rectangle by its corner and its size.
#[derive(Debug, Clone, Copy, PartialEq, Eq, Structural)]
pub struct Place {
    pub x: i32,
    pub y: i32,
    pub width: i32,
    pub height: i32,
}

/// A place from its four measures.
pub open spec fn place(x: int, y: int, width: int, height: int) -> Place {
    Place { x: x as i32, y: y as i32, width: width as i32, height: height as i32 }
}

/// Whether a place lies in a window of this size.
pub open spec fn lies_in(p: Place, width: int, height: int) -> bool {
    &&& 0 <= p.x
    &&& 0 <= p.y
    &&& 0 <= p.width
    &&& 0 <= p.height
    &&& p.x + p.width <= width
    &&& p.y + p.height <= height
}

/// A rectangle by its edges.
#[derive(Debug, Clone, Copy, PartialEq, Eq, Structural)]
pub struct Rect {
    pub left: i32,
    pub top: i32,
    pub right: i32,
    pub bottom: i32,
}

/// Start of a span of length `size` that should begin at `start`, moved back so
/// that it ends by `high`, but never before `low`.
pub open spec fn kept_inside(start: int, size: int, low: int, high: int) -> int {
    let back = if start + size > high {
        high - size
    } else {
        start
    };
    if back < low {
        low
    } else {
        back
    }
}

/// The place for a window of `w` by `h` that should stand at `(x, y)` in the
/// work area of a screen. Without a work area the place stays.
pub open spec fn placed(x: int, y: int, w: int, h: int, work: Option<Rect>) -> (int, int) {
    match work {
        Some(work) => (
            kept_inside(x, w, work.left as int, work.right as int),
            kept_inside(y, h, work.top as int, work.bottom as int),
        ),
        None => (x, y),
    }
}

/// Whether a number fits a screen coordinate.
pub open spec fn is_coordinate(v: int) -> bool {
    i32::MIN <= v <= i32::MAX
}

fn keep_inside(start: i32, size: i32, low: i32, high: i32) -> (r: i32)
    requires
        is_coordinate(start + size),
        is_coordinate(high - size),
    ensures
        r == kept_inside(start as int, size as int, low as int, high as int),
{
    let back: i32 = if start + size > high {
        high - size
    } else {
        start
    };
    if back < low {
        low
    } else {
        back
    }
}

/// Moves a window into the work area: back from the right and lower edge, but
/// never across the left and upper edge.
pub fn clamp_to_work(x: i32, y: i32, w: i32, h: i32, work: Option<Rect>) -> (place: (i32, i32))
    requires
        is_coordinate(x + w),
        is_coordinate(y + h),
        work matches Some(r) ==> is_coordinate(r.right - w) && is_coordinate(r.bottom - h),
    ensures
        (place.0 as int, place.1 as int) == placed(x as int, y as int, w as int, h as int, work),
{
    match work {
        Some(work) => (
            keep_inside(x, w, work.left, work.right),
            keep_inside(y, h, work.top, work.bottom),
        ),
        None => (x, y),
    }
}

/// A window that is no larger than the work area ends up inside it, and one
/// that was inside stays where it was.
pub proof fn windows_are_kept_inside(x: int, y: int, w: int, h: int, work: Rect)
    requires
        0 <= w <= work.right - work.left,
        0 <= h <= work.bottom - work.top,
    ensures
        work.left <= placed(x, y, w, h, Some(work)).0,
        placed(x, y, w, h, Some(work)).0 + w <= work.right,
        work.top <= placed(x, y, w, h, Some(work)).1,
        placed(x, y, w, h, Some(work)).1 + h <= work.bottom,
        work.left <= x && x + w <= work.right && work.top <= y && y + h <= work.bottom ==> placed(
            x,
            y,
            w,
            h,
            Some(work),
        ) == (x, y),
{
}

/// Both conversions give the whole number that is nearest to the exact size, as long
/// as it is at least one, or not negative, and fits.
pub proof fn conversions_are_the_nearest(px: int, dpi: u32)
    requires
        0 <= px <= i32::MAX,
    ensures
        1 < scaled(px, dpi) < i32::MAX ==> px * effective_dpi(dpi) - 48 <= scaled(px, dpi) * 96
            <= px * effective_dpi(dpi) + 48,
        0 <= unscaled(px, dpi) <= i32::MAX,
        unscaled(px, dpi) < i32::MAX ==> px * 96 - effective_dpi(dpi) < unscaled(px, dpi)
            * effective_dpi(dpi) <= px * 96 + effective_dpi(dpi),
        dpi != 0 ==> effective_dpi(dpi) == dpi,
        effective_dpi(0) == 96,
{
    let d = effective_dpi(dpi);
    let n = px * d;
    assert(n >= 0) by (nonlinear_arith)
        requires
            px >= 0,
            d > 0,
            n == px * d,
    ;
    let s = (n + 48) / 96;
    assert(n - 48 <= s * 96 <= n + 48);
    let k = px * 96 + d / 2;
    let u = k / d;
    vstd::arithmetic::div_mod::lemma_fundamental_div_mod(k, d);
    vstd::arithmetic::div_mod::lemma_mod_bound(k, d);
    vstd::arithmetic::mul::lemma_mul_is_commutative(d, u);
    assert(u >= 0) by {
        vstd::arithmetic::div_mod::lemma_div_pos_is_pos(k, d);
    }
}

/// A window is moved no farther than needed: it keeps its place where it can, and
/// otherwise touches the edge that it would have crossed. One that is too large
/// begins at the left and upper edge.
pub proof fn windows_move_no_farther_than_needed(x: int, w: int, low: int, high: int)
    requires
        0 <= w,
        low <= high,
    ensures
        low <= x && x + w <= high ==> kept_inside(x, w, low, high) == x,
        x < low && x + w <= high ==> kept_inside(x, w, low, high) == low,
        x + w > high && low <= high - w ==> kept_inside(x, w, low, high) + w == high,
        w > high - low ==> kept_inside(x, w, low, high) == low || x + w <= high,
{
}

/// A window is placed in both directions alike, and without a screen it stays where
/// it should stand.
pub proof fn directions_are_alike(x: int, y: int, w: int, h: int, work: Rect)
    ensures
        placed(x, y, w, h, None) == (x, y),
        ({
            let turned = Rect {
                left: work.top,
                top: work.left,
                right: work.bottom,
                bottom: work.right,
            };
            let a = placed(x, y, w, h, Some(work));
            let b = placed(y, x, h, w, Some(turned));
            a.0 == b.1 && a.1 == b.0
        }),
{
}

/// What is said here of sizes and places is said of the functions that convert and
/// move.
pub proof fn sizes_and_places_are_computed_like_this(
    px: i32,
    dpi: u32,
    device: i32,
    design: i32,
    x: i32,
    y: i32,
    w: i32,
    h: i32,
    work: Option<Rect>,
    at: (i32, i32),
)
    requires
        call_ensures(scale_px, (px, dpi), device),
        call_ensures(unscale_px, (px, dpi), design),
        call_ensures(clamp_to_work, (x, y, w, h, work), at),
    ensures
        device == scaled(px as int, dpi),
        design == unscaled(px as int, dpi),
        (at.0 as int, at.1 as int) == placed(x as int, y as int, w as int, h as int, work),
{
}

} // verus!
