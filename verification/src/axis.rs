//! The arithmetic of one axis of the viewport: how much of the world is
//! visible, how far the scale may grow inside a bounded region, and where
//! the centre of the viewport may stand.
//!
//! Every quantity is counted in millionths (see [`crate::fixed`]); every
//! quotient is rounded down.

use crate::arith::{floor_div, lemma_div_monotone, lemma_product_bound, max_int, min_int};
use crate::fixed::{opt_view, saturate, Fixed, LIMIT, ONE};
use vstd::prelude::*;

verus! {

/// Largest magnitude of a visible extent: the largest base extent at the
/// largest scale.
pub const EXTENT_LIMIT: i128 = 10_000_000_000_000_000_000_000;

/// Largest magnitude of the shift that a cursor or a drag can ask for.
pub const SHIFT_LIMIT: i128 = 3_000_000_000_000_000_000_000_000_000_000_000_000;

/// Largest scale cap that a bounded region can give.
pub const CAP_LIMIT: i128 = 200_000_000_000_000_000_000;

/// The divisor of the zoom: a scroll of this many millionths of a pixel
/// would bring the scale to nothing, and each pixel changes it by a
/// thousandth.
pub const ZOOM_DIVISOR: i128 = 1_000_000_000;

/// A net scroll of at least this magnitude brings every scale but zero to
/// the end of the representable range.
pub const SCROLL_LIMIT: i128 = 200_000_000_000_000_000_000_000;

/// An optional machine integer as an optional integer.
pub open spec fn opt_int(o: Option<i128>) -> Option<int> {
    match o {
        Some(v) => Some(v as int),
        None => None,
    }
}

/// Extent of the world that is visible along an axis whose extent at scale
/// one is `base`.
pub open spec fn visible_extent(base: int, scale: int) -> int {
    base * scale / (ONE as int)
}

/// Distance from the centre of the viewport to its edge.
pub open spec fn half_extent(visible: int) -> int {
    visible / 2
}

/// Largest scale at which a viewport of extent `base` at scale one shows no
/// more than `width`. A region of negative width and a viewport without
/// extent give no cap.
pub open spec fn max_safe_scale(width: int, base: int) -> Option<int> {
    if width >= 0 && base > 0 {
        Some(width * ONE / base)
    } else {
        None
    }
}

/// The cap that the bounds of an axis put on the scale: there is one only
/// where both bounds are set.
pub open spec fn axis_scale_cap(min: Option<int>, max: Option<int>, base: int) -> Option<int> {
    match (min, max) {
        (Some(lo), Some(hi)) => max_safe_scale(hi - lo, base),
        _ => None,
    }
}

/// `scale`, lowered to `cap` where there is one.
pub open spec fn capped(scale: int, cap: Option<int>) -> int {
    match cap {
        Some(c) => min_int(scale, c),
        None => scale,
    }
}

/// Where the centre `p` of a viewport of half extent `half` comes to stand
/// between the bounds of an axis. The lower bound is applied first and the
/// upper bound last, so the upper bound wins where the two disagree; the
/// result stays within the representable range.
pub open spec fn clamp_axis(p: int, min: Option<int>, max: Option<int>, half: int) -> int {
    let raised = match min {
        Some(lo) => max_int(p, lo + half),
        None => p,
    };
    let lowered = match max {
        Some(hi) => min_int(raised, hi - half),
        None => raised,
    };
    saturate(lowered)
}

/// World distance from the centre of the viewport to a cursor that stands
/// `n / 2` pixels from the centre of a window `window` pixels wide. A window
/// without extent gives no distance.
pub open spec fn cursor_offset(n: int, visible: int, window: int) -> int {
    if window > 0 {
        n * visible / (2 * window)
    } else {
        0
    }
}

/// World distance that corresponds to `d` pixels in a window `window` pixels
/// wide. A window without extent gives no distance.
pub open spec fn drag_offset(d: int, visible: int, window: int) -> int {
    if window > 0 {
        d * visible / window
    } else {
        0
    }
}

/// The centre that keeps the world point under the cursor where it is while
/// the visible extent changes from `old_visible` to `new_visible`.
pub open spec fn anchor_target(p: int, n: int, old_visible: int, new_visible: int, window: int) -> int {
    p + cursor_offset(n, old_visible, window) - cursor_offset(n, new_visible, window)
}

/// The centre `p`, moved to its [`anchor_target`] as far as the
/// representable range goes.
pub open spec fn anchor_axis(p: int, n: int, old_visible: int, new_visible: int, window: int) -> int {
    saturate(anchor_target(p, n, old_visible, new_visible, window))
}

/// The centre that lies as far from `p` as a drag of `d` pixels asks for, in
/// the opposite direction.
pub open spec fn drag_target(p: int, d: int, visible: int, window: int) -> int {
    p - drag_offset(d, visible, window)
}

/// The centre `p`, moved to its [`drag_target`] as far as the representable
/// range goes.
pub open spec fn drag_axis(p: int, d: int, visible: int, window: int) -> int {
    saturate(drag_target(p, d, visible, window))
}

/// The scale that a net scroll of `scroll` asks for, before any limit of the
/// camera: a positive scroll lowers the scale. The result stays within the
/// representable range.
pub open spec fn zoom_candidate(scale: int, scroll: int) -> int {
    saturate(scale * (ZOOM_DIVISOR - scroll) / (ZOOM_DIVISOR as int))
}

/// Beyond [`SCROLL_LIMIT`] the candidate depends on the signs alone.
pub(crate) proof fn lemma_zoom_candidate_far(scale: int, scroll: int)
    requires
        -LIMIT <= scale <= LIMIT,
        scroll >= SCROLL_LIMIT || scroll <= -SCROLL_LIMIT,
    ensures
        scale == 0 ==> zoom_candidate(scale, scroll) == 0,
        (scale > 0) == (scroll > 0) && scale != 0 ==> zoom_candidate(scale, scroll) == -LIMIT,
        (scale > 0) != (scroll > 0) && scale != 0 ==> zoom_candidate(scale, scroll) == LIMIT,
{
    let f = ZOOM_DIVISOR - scroll;
    let far: int = 200_000_000_000_000;
    if scale == 0 {
        assert(scale * f == 0) by (nonlinear_arith)
            requires
                scale == 0,
        ;
    } else if scroll > 0 {
        // f <= -(far - 1) * ZOOM_DIVISOR
        if scale > 0 {
            assert(scale * f <= -(far - 1) * ZOOM_DIVISOR) by (nonlinear_arith)
                requires
                    scale >= 1,
                    f <= -(far - 1) * ZOOM_DIVISOR,
                    far > 1,
                    ZOOM_DIVISOR > 0,
            ;
            lemma_div_monotone(scale * f, -(far - 1) * ZOOM_DIVISOR, ZOOM_DIVISOR as int);
            crate::arith::lemma_div_of_multiple(-(far - 1), ZOOM_DIVISOR as int);
        } else {
            assert(scale * f >= (far - 1) * ZOOM_DIVISOR) by (nonlinear_arith)
                requires
                    scale <= -1,
                    f <= -(far - 1) * ZOOM_DIVISOR,
                    far > 1,
                    ZOOM_DIVISOR > 0,
            ;
            lemma_div_monotone((far - 1) * ZOOM_DIVISOR, scale * f, ZOOM_DIVISOR as int);
            crate::arith::lemma_div_of_multiple(far - 1, ZOOM_DIVISOR as int);
        }
    } else {
        // f >= (far + 1) * ZOOM_DIVISOR
        if scale > 0 {
            assert(scale * f >= (far + 1) * ZOOM_DIVISOR) by (nonlinear_arith)
                requires
                    scale >= 1,
                    f >= (far + 1) * ZOOM_DIVISOR,
                    far > 1,
                    ZOOM_DIVISOR > 0,
            ;
            lemma_div_monotone((far + 1) * ZOOM_DIVISOR, scale * f, ZOOM_DIVISOR as int);
            crate::arith::lemma_div_of_multiple(far + 1, ZOOM_DIVISOR as int);
        } else {
            assert(scale * f <= -(far + 1) * ZOOM_DIVISOR) by (nonlinear_arith)
                requires
                    scale <= -1,
                    f >= (far + 1) * ZOOM_DIVISOR,
                    far > 1,
                    ZOOM_DIVISOR > 0,
            ;
            lemma_div_monotone(scale * f, -(far + 1) * ZOOM_DIVISOR, ZOOM_DIVISOR as int);
            crate::arith::lemma_div_of_multiple(-(far + 1), ZOOM_DIVISOR as int);
        }
    }
}

/// The scale that a net scroll asks for, before any limit of the camera.
pub(crate) fn zoom_scale(scale: Fixed, scroll: i128) -> (r: Fixed)
    ensures
        r@ == zoom_candidate(scale@, scroll as int),
{
    let s: i128 = scale.raw() as i128;
    if scroll >= SCROLL_LIMIT || scroll <= -SCROLL_LIMIT {
        proof {
            lemma_zoom_candidate_far(s as int, scroll as int);
        }
        if s == 0 {
            scale
        } else if (s > 0) == (scroll > 0) {
            Fixed::from_raw(-LIMIT)
        } else {
            Fixed::from_raw(LIMIT)
        }
    } else {
        let f: i128 = ZOOM_DIVISOR - scroll;
        proof {
            lemma_product_bound(s as int, f as int, LIMIT as int, SCROLL_LIMIT + ZOOM_DIVISOR);
            assert(LIMIT * (SCROLL_LIMIT + ZOOM_DIVISOR) <= i128::MAX) by (nonlinear_arith)
                requires
                    LIMIT == 100_000_000_000_000,
                    SCROLL_LIMIT == 200_000_000_000_000_000_000_000,
                    ZOOM_DIVISOR == 1_000_000_000,
            ;
        }
        Fixed::saturating(floor_div(s * f, ZOOM_DIVISOR))
    }
}

/// The visible extent of an axis at a scale.
pub(crate) fn visible_size(base: Fixed, scale: Fixed) -> (v: i128)
    ensures
        v == visible_extent(base@, scale@),
        -EXTENT_LIMIT <= v <= EXTENT_LIMIT,
{
    let b: i128 = base.raw() as i128;
    let s: i128 = scale.raw() as i128;
    proof {
        lemma_product_bound(b as int, s as int, LIMIT as int, LIMIT as int);
        assert(LIMIT as int * LIMIT as int == 10_000_000_000_000_000_000_000_000_000) by (nonlinear_arith)
            requires
                LIMIT == 100_000_000_000_000,
        ;
        lemma_div_monotone(-10_000_000_000_000_000_000_000_000_000, b * s, ONE as int);
        lemma_div_monotone(b * s, 10_000_000_000_000_000_000_000_000_000, ONE as int);
    }
    floor_div(b * s, ONE as i128)
}

/// Half of a visible extent.
pub(crate) fn half_size(visible: i128) -> (h: i128)
    requires
        -EXTENT_LIMIT <= visible <= EXTENT_LIMIT,
    ensures
        h == half_extent(visible as int),
        -EXTENT_LIMIT <= h <= EXTENT_LIMIT,
{
    floor_div(visible, 2)
}

/// The scale cap of a region `width` wide in a viewport of extent `base` at
/// scale one.
pub(crate) fn safe_scale(width: i128, base: Fixed) -> (c: Option<i128>)
    requires
        -2 * LIMIT <= width <= 2 * LIMIT,
    ensures
        opt_int(c) == max_safe_scale(width as int, base@),
        c matches Some(v) ==> 0 <= v <= CAP_LIMIT,
{
    let b: i128 = base.raw() as i128;
    if width >= 0 && b > 0 {
        proof {
            assert(0 <= width * ONE <= CAP_LIMIT) by (nonlinear_arith)
                requires
                    0 <= width <= 2 * LIMIT,
                    ONE == 1_000_000,
                    LIMIT == 100_000_000_000_000,
                    CAP_LIMIT == 200_000_000_000_000_000_000,
            ;
            lemma_div_monotone(0, width * ONE, b as int);
            assert(width * ONE / (b as int) <= width * ONE) by (nonlinear_arith)
                requires
                    0 <= width * ONE,
                    b >= 1,
            ;
        }
        Some(floor_div(width * (ONE as i128), b))
    } else {
        None
    }
}

/// The scale cap that the bounds of an axis give.
pub(crate) fn bounds_scale_cap(min: Option<Fixed>, max: Option<Fixed>, base: Fixed) -> (c: Option<i128>)
    ensures
        opt_int(c) == axis_scale_cap(opt_view(min), opt_view(max), base@),
        c matches Some(v) ==> 0 <= v <= CAP_LIMIT,
{
    match (min, max) {
        (Some(lo), Some(hi)) => safe_scale(hi.raw() as i128 - lo.raw() as i128, base),
        _ => None,
    }
}

/// `scale`, lowered to `cap` where there is one.
pub(crate) fn cap_scale(scale: Fixed, cap: Option<i128>) -> (r: Fixed)
    requires
        cap matches Some(v) ==> v >= 0,
    ensures
        r@ == capped(scale@, opt_int(cap)),
{
    match cap {
        Some(c) => {
            if scale.raw() as i128 <= c {
                scale
            } else {
                Fixed::saturating(c)
            }
        },
        None => scale,
    }
}

/// The centre `p` brought between the bounds of an axis.
pub(crate) fn clamp_coordinate(p: Fixed, min: Option<Fixed>, max: Option<Fixed>, half: i128) -> (r: Fixed)
    requires
        -EXTENT_LIMIT <= half <= EXTENT_LIMIT,
    ensures
        r@ == clamp_axis(p@, opt_view(min), opt_view(max), half as int),
{
    let mut c: i128 = p.raw() as i128;
    if let Some(lo) = min {
        let floor: i128 = lo.raw() as i128 + half;
        if c < floor {
            c = floor;
        }
    }
    if let Some(hi) = max {
        let ceiling: i128 = hi.raw() as i128 - half;
        if c > ceiling {
            c = ceiling;
        }
    }
    Fixed::saturating(c)
}

/// World distance from the centre of the viewport to the cursor.
pub(crate) fn cursor_shift(n: i128, visible: i128, window: Fixed) -> (r: i128)
    requires
        -3 * LIMIT <= n <= 3 * LIMIT,
        -EXTENT_LIMIT <= visible <= EXTENT_LIMIT,
    ensures
        r == cursor_offset(n as int, visible as int, window@),
        -SHIFT_LIMIT <= r <= SHIFT_LIMIT,
{
    let w: i128 = window.raw() as i128;
    if w > 0 {
        proof {
            lemma_shift_bound(n as int, visible as int, 2 * w);
        }
        floor_div(n * visible, 2 * w)
    } else {
        0
    }
}

/// World distance that corresponds to a drag of `d` pixels.
pub(crate) fn drag_shift(d: i128, visible: i128, window: Fixed) -> (r: i128)
    requires
        -2 * LIMIT <= d <= 2 * LIMIT,
        -EXTENT_LIMIT <= visible <= EXTENT_LIMIT,
    ensures
        r == drag_offset(d as int, visible as int, window@),
        -SHIFT_LIMIT <= r <= SHIFT_LIMIT,
{
    let w: i128 = window.raw() as i128;
    if w > 0 {
        proof {
            lemma_shift_bound(d as int, visible as int, w as int);
        }
        floor_div(d * visible, w)
    } else {
        0
    }
}

/// A shift is bounded by the product of the largest pixel distance and the
/// largest visible extent.
proof fn lemma_shift_bound(n: int, visible: int, divisor: int)
    requires
        -3 * LIMIT <= n <= 3 * LIMIT,
        -EXTENT_LIMIT <= visible <= EXTENT_LIMIT,
        divisor > 0,
    ensures
        -SHIFT_LIMIT <= n * visible <= SHIFT_LIMIT,
        -SHIFT_LIMIT <= n * visible / divisor <= SHIFT_LIMIT,
{
    lemma_product_bound(n, visible, 3 * LIMIT, EXTENT_LIMIT as int);
    assert((3 * LIMIT) * (EXTENT_LIMIT as int) == SHIFT_LIMIT) by (nonlinear_arith)
        requires
            LIMIT == 100_000_000_000_000,
            EXTENT_LIMIT == 10_000_000_000_000_000_000_000,
            SHIFT_LIMIT == 3_000_000_000_000_000_000_000_000_000_000_000_000,
    ;
    crate::arith::lemma_div_bound(n * visible, divisor, SHIFT_LIMIT as int);
}

} // verus!
