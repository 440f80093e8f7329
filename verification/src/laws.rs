//! What holds of the camera whatever it is given: each law below is stated
//! over the functions that the contracts of [`crate::camera`] speak of, and
//! proved for all integers, representable or not.

use crate::axis::{
    axis_scale_cap, capped, cursor_offset, drag_offset, half_extent, max_safe_scale, visible_extent,
    zoom_candidate, ZOOM_DIVISOR,
};
use crate::camera::{
    anchor_in_reach, bounded_scale, clamped, panned, placed, scale_caps, updated, visible, world_under_cursor,
    zoomed, zoomed_scale, PanCamView, ViewportStateView, ViewportView,
};
use crate::fixed::{representable, saturate, Vec2View, ONE};
use crate::input::{net_scroll, ScrollEvent};
use vstd::prelude::*;

verus! {

/// A quotient by a positive divisor is the exact quotient rounded down.
proof fn lemma_rounds_down(a: int, d: int)
    by (nonlinear_arith)
    requires
        d > 0,
    ensures
        a - d < d * (a / d) <= a,
{
}

/// Every quantity that the camera computes by a division is the exact
/// quotient rounded down, so it lies less than a millionth below it: the
/// visible extent `base * scale`, the scale cap `width / base`, the scale
/// `scale * (1 - scroll / 1000)` that a scroll asks for, and the world
/// distances `d * visible / window` of a drag and `n * visible / (2 * window)`
/// of the cursor.
pub proof fn law_quotients_round_down(
    base: int,
    scale: int,
    width: int,
    scroll: int,
    d: int,
    n: int,
    visible: int,
    window: int,
)
    ensures
        base * scale - ONE < ONE * visible_extent(base, scale) <= base * scale,
        max_safe_scale(width, base) matches Some(cap) ==> width * ONE - base < base * cap <= width * ONE,
        representable(scale * (ZOOM_DIVISOR - scroll) / (ZOOM_DIVISOR as int)) ==> scale * (ZOOM_DIVISOR - scroll)
            - ZOOM_DIVISOR < ZOOM_DIVISOR * zoom_candidate(scale, scroll) <= scale * (ZOOM_DIVISOR - scroll),
        window > 0 ==> d * visible - window < window * drag_offset(d, visible, window) <= d * visible,
        window > 0 ==> n * visible - 2 * window < 2 * window * cursor_offset(n, visible, window) <= n * visible,
{
    lemma_rounds_down(base * scale, ONE as int);
    if base > 0 {
        lemma_rounds_down(width * ONE, base);
    }
    lemma_rounds_down(scale * (ZOOM_DIVISOR - scroll), ZOOM_DIVISOR as int);
    if window > 0 {
        lemma_rounds_down(d * visible, window);
        lemma_rounds_down(n * visible, 2 * window);
    }
}

/// Whether `min_scale` passes every upper limit of the camera unchanged:
/// neither `max_scale` nor the cap of a bounded axis lies below it.
pub open spec fn min_scale_fits(cam: PanCamView, view: ViewportView) -> bool {
    bounded_scale(cam, capped(cam.min_scale, cam.max_scale), view) == cam.min_scale
}

/// What a camera is given in one tick.
pub struct Tick {
    pub focus_claimed: bool,
    pub scroll: int,
    pub last_pos: Option<Vec2View>,
    pub cursor: Option<Vec2View>,
    pub dragging: bool,
    pub view: ViewportView,
}

/// The state after one tick.
pub open spec fn ticked(cam: PanCamView, state: ViewportStateView, tick: Tick) -> ViewportStateView {
    updated(
        cam,
        state,
        tick.focus_claimed,
        tick.scroll,
        tick.last_pos,
        tick.cursor,
        tick.dragging,
        tick.view,
    )
}

/// The state after the ticks of `ticks`, one after the other. A tick in
/// which nothing is claimed and nothing is dragged is a zoom; one in which
/// nothing is claimed and nothing is scrolled is a pan.
pub open spec fn ticked_through(cam: PanCamView, state: ViewportStateView, ticks: Seq<Tick>) -> ViewportStateView
    decreases ticks.len(),
{
    if ticks.len() == 0 {
        state
    } else {
        ticked(cam, ticked_through(cam, state, ticks.drop_last()), ticks.last())
    }
}

/// Where the centre of the viewport may stand on an axis with the given
/// bounds. With both bounds it lies between them, each moved inwards by half
/// of what is visible; where that leaves no room, it stands where the upper
/// bound puts it. With one bound it lies on the inner side of it. A place
/// that no value can hold counts as the end of the representable range.
pub open spec fn axis_settled(p: int, min: Option<int>, max: Option<int>, half: int) -> bool {
    match (min, max) {
        (Some(lo), Some(hi)) => if lo + half <= hi - half {
            lo + half <= p <= hi - half
        } else {
            p == saturate(hi - half)
        },
        (Some(lo), None) => p >= saturate(lo + half),
        (None, Some(hi)) => p <= saturate(hi - half),
        (None, None) => true,
    }
}

/// Whether the viewport of `state` lies between the bounds on both axes.
pub open spec fn settled(cam: PanCamView, state: ViewportStateView, view: ViewportView) -> bool {
    &&& axis_settled(state.position.x, cam.min_x, cam.max_x, half_extent(visible(view, state.scale).x))
    &&& axis_settled(state.position.y, cam.min_y, cam.max_y, half_extent(visible(view, state.scale).y))
}

/// Whether every bound of the camera that is set is representable.
pub open spec fn representable_bounds(cam: PanCamView) -> bool {
    &&& cam.min_x matches Some(v) ==> representable(v)
    &&& cam.max_x matches Some(v) ==> representable(v)
    &&& cam.min_y matches Some(v) ==> representable(v)
    &&& cam.max_y matches Some(v) ==> representable(v)
}

/// A zoom that acts gives a scale of at least `min_scale` exactly where
/// `min_scale` fits under the upper limits of the camera.
pub proof fn law_zoom_respects_min_scale(
    cam: PanCamView,
    state: ViewportStateView,
    scroll: int,
    cursor: Option<Vec2View>,
    view: ViewportView,
)
    requires
        cam.enabled,
        scroll != 0,
    ensures
        zoomed(cam, state, scroll, cursor, view).scale >= cam.min_scale <==> min_scale_fits(cam, view),
{
}

/// A scale that is at least `min_scale` stays so through any sequence of
/// zooms and pans, as long as `min_scale` fits under the upper limits of the
/// camera in each tick.
pub proof fn law_scale_lower_bound(cam: PanCamView, state: ViewportStateView, ticks: Seq<Tick>)
    requires
        state.scale >= cam.min_scale,
        forall|i: int| 0 <= i < ticks.len() ==> min_scale_fits(cam, #[trigger] ticks[i].view),
    ensures
        ticked_through(cam, state, ticks).scale >= cam.min_scale,
    decreases ticks.len(),
{
    if ticks.len() > 0 {
        let earlier = ticks.drop_last();
        assert forall|i: int| 0 <= i < earlier.len() implies min_scale_fits(cam, #[trigger] earlier[i].view) by {
            assert(earlier[i] == ticks[i]);
        }
        law_scale_lower_bound(cam, state, earlier);
        assert(min_scale_fits(cam, ticks[ticks.len() - 1].view));
    }
}

/// A scale that is no larger than `max_scale` stays so through any sequence
/// of zooms and pans.
pub proof fn law_scale_upper_bound(cam: PanCamView, state: ViewportStateView, ticks: Seq<Tick>)
    requires
        cam.max_scale matches Some(m) && state.scale <= m,
    ensures
        ticked_through(cam, state, ticks).scale <= cam.max_scale->0,
    decreases ticks.len(),
{
    if ticks.len() > 0 {
        law_scale_upper_bound(cam, state, ticks.drop_last());
    }
}

/// After a zoom that acts, the scale is no larger than `max_scale`, where
/// there is one.
pub proof fn law_zoom_respects_max_scale(
    cam: PanCamView,
    state: ViewportStateView,
    scroll: int,
    cursor: Option<Vec2View>,
    view: ViewportView,
)
    requires
        cam.enabled,
        scroll != 0,
    ensures
        cam.max_scale matches Some(m) ==> zoomed(cam, state, scroll, cursor, view).scale <= m,
{
}

/// At a scale of no more than `width / base`, a viewport that shows `base` at
/// scale one shows no more than `width`.
proof fn lemma_capped_scale_shows_no_more(width: int, base: int, scale: int)
    by (nonlinear_arith)
    requires
        base > 0,
        width >= 0,
        scale <= width * 1_000_000 / base,
        ONE == 1_000_000,
    ensures
        base * scale / (ONE as int) <= width,
{
}

/// On a horizontal axis bounded by `min_x` and `max_x`, in a viewport that
/// shows a width of `base` at scale one, no correction and no zoom gives a
/// scale above `(max_x - min_x) / base`; a correction of a larger scale
/// gives exactly that where the other axis allows it; and at such a scale no
/// more than the bounded region is visible.
pub proof fn law_bounded_width_max_scale(
    cam: PanCamView,
    state: ViewportStateView,
    scroll: int,
    cursor: Option<Vec2View>,
    view: ViewportView,
)
    requires
        cam.min_x matches Some(lo) && cam.max_x matches Some(hi) && lo <= hi,
        view.base_world_size.x > 0,
    ensures
        ({
            let most = (cam.max_x->0 - cam.min_x->0) * ONE / view.base_world_size.x;
            &&& scale_caps((Some(cam.max_x->0 - cam.min_x->0), None), view).0 == Some(most)
            &&& clamped(cam, state, view).scale <= most
            &&& cam.enabled && scroll != 0 ==> zoomed(cam, state, scroll, cursor, view).scale <= most
            &&& state.scale >= most && axis_scale_cap(cam.min_y, cam.max_y, view.base_world_size.y) is None
                ==> clamped(cam, state, view).scale == most
            &&& visible(view, clamped(cam, state, view).scale).x <= cam.max_x->0 - cam.min_x->0
            &&& cam.enabled && scroll != 0 ==> visible(view, zoomed(cam, state, scroll, cursor, view).scale).x
                <= cam.max_x->0 - cam.min_x->0
        }),
{
    let width = cam.max_x->0 - cam.min_x->0;
    let base = view.base_world_size.x;
    lemma_capped_scale_shows_no_more(width, base, clamped(cam, state, view).scale);
    if cam.enabled && scroll != 0 {
        lemma_capped_scale_shows_no_more(width, base, zoomed(cam, state, scroll, cursor, view).scale);
    }
}

/// On a vertical axis bounded by `min_y` and `max_y`, in a viewport that
/// shows a height of `base` at scale one, no correction and no zoom gives a
/// scale above `(max_y - min_y) / base`; a correction of a larger scale
/// gives exactly that where the other axis allows it; and at such a scale no
/// more than the bounded region is visible.
pub proof fn law_bounded_height_max_scale(
    cam: PanCamView,
    state: ViewportStateView,
    scroll: int,
    cursor: Option<Vec2View>,
    view: ViewportView,
)
    requires
        cam.min_y matches Some(lo) && cam.max_y matches Some(hi) && lo <= hi,
        view.base_world_size.y > 0,
    ensures
        ({
            let most = (cam.max_y->0 - cam.min_y->0) * ONE / view.base_world_size.y;
            &&& scale_caps((None, Some(cam.max_y->0 - cam.min_y->0)), view).1 == Some(most)
            &&& clamped(cam, state, view).scale <= most
            &&& cam.enabled && scroll != 0 ==> zoomed(cam, state, scroll, cursor, view).scale <= most
            &&& state.scale >= most && axis_scale_cap(cam.min_x, cam.max_x, view.base_world_size.x) is None
                ==> clamped(cam, state, view).scale == most
            &&& visible(view, clamped(cam, state, view).scale).y <= cam.max_y->0 - cam.min_y->0
            &&& cam.enabled && scroll != 0 ==> visible(view, zoomed(cam, state, scroll, cursor, view).scale).y
                <= cam.max_y->0 - cam.min_y->0
        }),
{
    let width = cam.max_y->0 - cam.min_y->0;
    let base = view.base_world_size.y;
    lemma_capped_scale_shows_no_more(width, base, clamped(cam, state, view).scale);
    if cam.enabled && scroll != 0 {
        lemma_capped_scale_shows_no_more(width, base, zoomed(cam, state, scroll, cursor, view).scale);
    }
}

/// Events that sum to zero, none at all among them, leave the state as it
/// is, and so does a disabled camera.
pub proof fn law_zoom_without_scroll(
    cam: PanCamView,
    state: ViewportStateView,
    events: Seq<ScrollEvent>,
    cursor: Option<Vec2View>,
    view: ViewportView,
)
    ensures
        net_scroll(Seq::<ScrollEvent>::empty()) == 0,
        net_scroll(events) == 0 || !cam.enabled ==> zoomed(cam, state, net_scroll(events), cursor, view) == state,
{
}

/// While nothing is dragged, panning leaves the state as it is, and so it
/// does while the cursor is unknown now or was unknown in the tick before.
/// The scale it leaves in any case.
pub proof fn law_pan_without_drag(
    cam: PanCamView,
    state: ViewportStateView,
    last_pos: Option<Vec2View>,
    cursor: Option<Vec2View>,
    dragging: bool,
    view: ViewportView,
)
    ensures
        !dragging || last_pos is None || cursor is None ==> panned(cam, state, last_pos, cursor, dragging, view)
            == state,
        panned(cam, state, last_pos, cursor, dragging, view).scale == state.scale,
{
}

/// On a camera without bounds that zooms to the cursor, the world point
/// under the cursor is the same after a zoom as before it, as long as the
/// centre that keeps it there is representable.
pub proof fn law_cursor_anchor(
    cam: PanCamView,
    state: ViewportStateView,
    scroll: int,
    cursor: Vec2View,
    view: ViewportView,
)
    requires
        cam.enabled,
        cam.zoom_to_cursor,
        cam.min_x is None && cam.max_x is None && cam.min_y is None && cam.max_y is None,
        anchor_in_reach(state.position, cursor, state.scale, zoomed_scale(cam, state.scale, scroll, view), view),
    ensures
        world_under_cursor(zoomed(cam, state, scroll, Some(cursor), view), cursor, view) == world_under_cursor(
            state,
            cursor,
            view,
        ),
{
}

/// The viewport of a corrected state lies between the bounds, and so does
/// that of a new camera.
pub proof fn law_clamp_settles(cam: PanCamView, state: ViewportStateView, pos: Vec2View, view: ViewportView)
    requires
        representable_bounds(cam),
    ensures
        settled(cam, clamped(cam, state, view), view),
        settled(cam, placed(cam, pos, view), view),
{
}

/// After a zoom that acts, the viewport lies between the bounds; after one
/// that does not, it does if it did before.
pub proof fn law_zoom_settles(
    cam: PanCamView,
    state: ViewportStateView,
    scroll: int,
    cursor: Option<Vec2View>,
    view: ViewportView,
)
    requires
        representable_bounds(cam),
    ensures
        cam.enabled && scroll != 0 ==> settled(cam, zoomed(cam, state, scroll, cursor, view), view),
        settled(cam, state, view) ==> settled(cam, zoomed(cam, state, scroll, cursor, view), view),
{
}

/// After a drag, the viewport lies between the bounds; after a tick without
/// one, it does if it did before.
pub proof fn law_pan_settles(
    cam: PanCamView,
    state: ViewportStateView,
    last_pos: Option<Vec2View>,
    cursor: Option<Vec2View>,
    dragging: bool,
    view: ViewportView,
)
    requires
        representable_bounds(cam),
    ensures
        dragging && last_pos is Some && cursor is Some ==> settled(
            cam,
            panned(cam, state, last_pos, cursor, dragging, view),
            view,
        ),
        settled(cam, state, view) ==> settled(cam, panned(cam, state, last_pos, cursor, dragging, view), view),
{
}

/// A tick either leaves the state as it is or leaves the viewport between
/// the bounds; a tick that an overlay claims leaves the state as it is.
pub proof fn law_tick_settles(cam: PanCamView, state: ViewportStateView, tick: Tick)
    requires
        representable_bounds(cam),
    ensures
        ticked(cam, state, tick) == state || settled(cam, ticked(cam, state, tick), tick.view),
        tick.focus_claimed ==> ticked(cam, state, tick) == state,
{
}

/// On an axis without bounds, a drag of `dx` pixels to the right moves the
/// centre to the left by `dx` times the visible extent over the extent of
/// the window, as long as that place is representable; on the vertical axis,
/// where the screen counts downwards, a drag downwards moves the centre
/// upwards.
pub proof fn law_pan_is_linear(
    cam: PanCamView,
    state: ViewportStateView,
    from: Vec2View,
    to: Vec2View,
    view: ViewportView,
)
    requires
        view.window_size.x > 0,
        view.window_size.y > 0,
    ensures
        ({
            let after = panned(cam, state, Some(from), Some(to), true, view);
            let x = state.position.x - (to.x - from.x) * visible(view, state.scale).x / view.window_size.x;
            let y = state.position.y - (from.y - to.y) * visible(view, state.scale).y / view.window_size.y;
            &&& cam.min_x is None && cam.max_x is None && representable(x) ==> after.position.x == x
            &&& cam.min_y is None && cam.max_y is None && representable(y) ==> after.position.y == y
        }),
{
}

/// Correcting a corrected state changes nothing, whatever the first state
/// was.
pub proof fn law_clamp_idempotent(cam: PanCamView, state: ViewportStateView, view: ViewportView)
    ensures
        clamped(cam, clamped(cam, state, view), view) == clamped(cam, state, view),
{
}

} // verus!
