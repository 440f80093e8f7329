//! A bounded two-dimensional camera: it pans while a grab button is held,
//! zooms with the scroll wheel, and keeps what it shows inside a rectangle
//! of the world.
//!
//! A camera is a configuration ([`PanCam`]) and a state ([`ViewportState`]).
//! Each operation takes a state and gives the next one; what it gives is said
//! by a function over plain integers ([`clamped`], [`zoomed`], [`panned`]).
//!
//! Degenerate configurations are accepted and have a fixed meaning. Where the
//! upper bound of an axis lies below the lower one, the axis puts no cap on
//! the scale and the upper bound decides the position. Where `max_scale` lies
//! below `min_scale`, `max_scale` decides. A window or a viewport without
//! extent moves nothing and caps nothing.

use crate::arith::max_int;
use crate::axis::{
    anchor_axis, anchor_target, axis_scale_cap, bounds_scale_cap, cap_scale, capped, clamp_axis,
    clamp_coordinate, cursor_offset, cursor_shift, drag_axis, drag_shift, half_extent, half_size,
    max_safe_scale, safe_scale, visible_extent, visible_size, zoom_candidate, zoom_scale,
};
use crate::fixed::{opt_vec2_view, opt_view, representable, saturate, Fixed, Vec2, Vec2View, LIMIT};
use crate::input::{
    any_held, grab_held, just_pressed_buttons, net_scroll, pressed_buttons, scroll_total, Button, ScrollEvent,
};
use bevy::input::mouse::MouseButton;
use bevy::input::Input;
use vstd::prelude::*;

verus! {

/// The scale of a camera that has just been made: one half.
pub const INITIAL_SCALE: i64 = 500_000;

/// The smallest scale of a camera with the default configuration: a
/// hundred-thousandth.
pub const DEFAULT_MIN_SCALE: i64 = 10;

/// The configuration of a camera that pans and zooms.
#[derive(Clone, Debug)]
pub struct PanCam {
    /// The buttons that drag the camera while they are held.
    pub grab_buttons: Vec<Button>,
    /// Whether the camera responds to input at all.
    pub enabled: bool,
    /// When true, zooming keeps the world point under the cursor in place;
    /// when false, it keeps the centre of the viewport in place.
    pub zoom_to_cursor: bool,
    /// The scale is raised to this value when zooming in.
    pub min_scale: Fixed,
    /// If present, the scale is lowered to this value when zooming out.
    pub max_scale: Option<Fixed>,
    /// If present, the left edge of the viewport stays at or right of it.
    pub min_x: Option<Fixed>,
    /// If present, the right edge of the viewport stays at or left of it.
    pub max_x: Option<Fixed>,
    /// If present, the lower edge of the viewport stays at or above it.
    pub min_y: Option<Fixed>,
    /// If present, the upper edge of the viewport stays at or below it.
    pub max_y: Option<Fixed>,
}

/// What a [`PanCam`] stands for.
pub struct PanCamView {
    pub grab_buttons: Seq<Button>,
    pub enabled: bool,
    pub zoom_to_cursor: bool,
    pub min_scale: int,
    pub max_scale: Option<int>,
    pub min_x: Option<int>,
    pub max_x: Option<int>,
    pub min_y: Option<int>,
    pub max_y: Option<int>,
}

impl View for PanCam {
    type V = PanCamView;

    open spec fn view(&self) -> PanCamView {
        PanCamView {
            grab_buttons: self.grab_buttons@,
            enabled: self.enabled,
            zoom_to_cursor: self.zoom_to_cursor,
            min_scale: self.min_scale@,
            max_scale: opt_view(self.max_scale),
            min_x: opt_view(self.min_x),
            max_x: opt_view(self.max_x),
            min_y: opt_view(self.min_y),
            max_y: opt_view(self.max_y),
        }
    }
}

/// The configuration of a camera that nobody has configured: every button
/// grabs, zooming follows the cursor, and nothing bounds the view.
pub open spec fn default_pan_cam() -> PanCamView {
    PanCamView {
        grab_buttons: seq![Button::Left, Button::Right, Button::Middle],
        enabled: true,
        zoom_to_cursor: true,
        min_scale: DEFAULT_MIN_SCALE as int,
        max_scale: None,
        min_x: None,
        max_x: None,
        min_y: None,
        max_y: None,
    }
}

impl Default for PanCam {
    fn default() -> (r: PanCam)
        ensures
            r@ == default_pan_cam(),
    {
        let mut grab_buttons: Vec<Button> = Vec::new();
        grab_buttons.push(Button::Left);
        grab_buttons.push(Button::Right);
        grab_buttons.push(Button::Middle);
        let r = PanCam {
            grab_buttons,
            enabled: true,
            zoom_to_cursor: true,
            min_scale: Fixed::from_raw(DEFAULT_MIN_SCALE),
            max_scale: None,
            min_x: None,
            max_x: None,
            min_y: None,
            max_y: None,
        };
        assert(r@.grab_buttons =~= default_pan_cam().grab_buttons);
        r
    }
}

/// Where a camera stands and how far it is zoomed out.
#[derive(Clone, Copy, Debug, PartialEq, Eq, Structural)]
pub struct ViewportState {
    /// The world point at the centre of the viewport.
    pub position: Vec2,
    /// World extent that is visible, relative to the extent at scale one.
    pub scale: Fixed,
}

/// What a [`ViewportState`] stands for.
pub struct ViewportStateView {
    pub position: Vec2View,
    pub scale: int,
}

impl View for ViewportState {
    type V = ViewportStateView;

    open spec fn view(&self) -> ViewportStateView {
        ViewportStateView { position: self.position@, scale: self.scale@ }
    }
}

/// The window that a camera draws into.
#[derive(Clone, Copy, Debug, PartialEq, Eq, Structural)]
pub struct Viewport {
    /// Extent of the window, in pixels.
    pub window_size: Vec2,
    /// Extent of the world that the window shows at scale one.
    pub base_world_size: Vec2,
}

/// What a [`Viewport`] stands for.
pub struct ViewportView {
    pub window_size: Vec2View,
    pub base_world_size: Vec2View,
}

impl View for Viewport {
    type V = ViewportView;

    open spec fn view(&self) -> ViewportView {
        ViewportView { window_size: self.window_size@, base_world_size: self.base_world_size@ }
    }
}

impl Viewport {
    /// A window that shows one world unit per pixel at scale one.
    pub fn from_window(window_size: Vec2) -> (r: Viewport)
        ensures
            r == (Viewport { window_size, base_world_size: window_size }),
    {
        Viewport { window_size, base_world_size: window_size }
    }
}

/// The caps that a region of the given extent puts on the scale, one for
/// each axis on which the region has an extent.
pub open spec fn scale_caps(bounds_size: (Option<int>, Option<int>), view: ViewportView) -> (
    Option<int>,
    Option<int>,
) {
    (
        match bounds_size.0 {
            Some(width) => max_safe_scale(width, view.base_world_size.x),
            None => None,
        },
        match bounds_size.1 {
            Some(height) => max_safe_scale(height, view.base_world_size.y),
            None => None,
        },
    )
}

/// What a cap comes to as a value of the library: caps beyond the
/// representable range, which no scale can reach, come to its end.
pub open spec fn representable_cap(cap: Option<int>) -> Option<int> {
    match cap {
        Some(c) => Some(saturate(c)),
        None => None,
    }
}

/// `scale`, lowered so that no more than the bounded region is visible on
/// any axis that has both bounds.
pub open spec fn bounded_scale(cam: PanCamView, scale: int, view: ViewportView) -> int {
    capped(
        capped(scale, axis_scale_cap(cam.min_x, cam.max_x, view.base_world_size.x)),
        axis_scale_cap(cam.min_y, cam.max_y, view.base_world_size.y),
    )
}

/// The extent of the world that is visible at `scale`.
pub open spec fn visible(view: ViewportView, scale: int) -> Vec2View {
    Vec2View {
        x: visible_extent(view.base_world_size.x, scale),
        y: visible_extent(view.base_world_size.y, scale),
    }
}

/// `position`, brought between the bounds of each axis for a viewport at
/// `scale`.
pub open spec fn clamp_position(cam: PanCamView, position: Vec2View, scale: int, view: ViewportView) -> Vec2View {
    Vec2View {
        x: clamp_axis(position.x, cam.min_x, cam.max_x, half_extent(visible(view, scale).x)),
        y: clamp_axis(position.y, cam.min_y, cam.max_y, half_extent(visible(view, scale).y)),
    }
}

/// The state that `state` is corrected to: first the scale is lowered to
/// what the bounds allow, then the position is brought between the bounds.
pub open spec fn clamped(cam: PanCamView, state: ViewportStateView, view: ViewportView) -> ViewportStateView {
    let scale = bounded_scale(cam, state.scale, view);
    ViewportStateView { position: clamp_position(cam, state.position, scale, view), scale }
}

/// The scale after a net scroll of `scroll`: the candidate is raised to
/// `min_scale`, then lowered to `max_scale`, then to what the bounds allow.
pub open spec fn zoomed_scale(cam: PanCamView, scale: int, scroll: int, view: ViewportView) -> int {
    bounded_scale(cam, capped(max_int(zoom_candidate(scale, scroll), cam.min_scale), cam.max_scale), view)
}

/// Twice the distance of the cursor from the centre of the window, in
/// pixels, rightwards and upwards: screen coordinates grow downwards.
pub open spec fn cursor_from_centre(cursor: Vec2View, view: ViewportView) -> Vec2View {
    Vec2View { x: 2 * cursor.x - view.window_size.x, y: view.window_size.y - 2 * cursor.y }
}

/// The world point that is shown under the cursor.
pub open spec fn world_under_cursor(state: ViewportStateView, cursor: Vec2View, view: ViewportView) -> Vec2View {
    let n = cursor_from_centre(cursor, view);
    Vec2View {
        x: state.position.x + cursor_offset(n.x, visible(view, state.scale).x, view.window_size.x),
        y: state.position.y + cursor_offset(n.y, visible(view, state.scale).y, view.window_size.y),
    }
}

/// Whether the centre that keeps the world point under the cursor in place
/// from `old_scale` to `new_scale` is representable.
pub open spec fn anchor_in_reach(
    position: Vec2View,
    cursor: Vec2View,
    old_scale: int,
    new_scale: int,
    view: ViewportView,
) -> bool {
    let n = cursor_from_centre(cursor, view);
    let before = visible(view, old_scale);
    let after = visible(view, new_scale);
    &&& representable(anchor_target(position.x, n.x, before.x, after.x, view.window_size.x))
    &&& representable(anchor_target(position.y, n.y, before.y, after.y, view.window_size.y))
}

/// Where the centre comes to stand so that the world point under the cursor
/// is the same at `new_scale` as it was at `old_scale`, as far as the
/// representable range goes.
pub open spec fn anchored(
    position: Vec2View,
    cursor: Vec2View,
    old_scale: int,
    new_scale: int,
    view: ViewportView,
) -> Vec2View {
    let n = cursor_from_centre(cursor, view);
    let before = visible(view, old_scale);
    let after = visible(view, new_scale);
    Vec2View {
        x: anchor_axis(position.x, n.x, before.x, after.x, view.window_size.x),
        y: anchor_axis(position.y, n.y, before.y, after.y, view.window_size.y),
    }
}

/// The state after a net scroll of `scroll` pixels. A disabled camera and a
/// scroll of zero change nothing. Otherwise the scale follows
/// [`zoomed_scale`]; the position follows the cursor where the camera zooms
/// to the cursor and the cursor is known, and is then brought between the
/// bounds.
pub open spec fn zoomed(
    cam: PanCamView,
    state: ViewportStateView,
    scroll: int,
    cursor: Option<Vec2View>,
    view: ViewportView,
) -> ViewportStateView {
    if !cam.enabled || scroll == 0 {
        state
    } else {
        let scale = zoomed_scale(cam, state.scale, scroll, view);
        let moved = match cursor {
            Some(c) if cam.zoom_to_cursor => anchored(state.position, c, state.scale, scale, view),
            _ => state.position,
        };
        ViewportStateView { position: clamp_position(cam, moved, scale, view), scale }
    }
}

/// Whether the camera is being dragged: it is enabled and one of its grab
/// buttons is down and was so before this tick.
pub open spec fn dragging(cam: PanCamView, pressed: Set<Button>, just_pressed: Set<Button>) -> bool {
    cam.enabled && any_held(cam.grab_buttons, pressed, just_pressed)
}

/// Where the centre comes to stand when the cursor has gone from `from` to
/// `to`: as far as the cursor went, in the opposite direction.
pub open spec fn dragged(
    position: Vec2View,
    from: Vec2View,
    to: Vec2View,
    scale: int,
    view: ViewportView,
) -> Vec2View {
    Vec2View {
        x: drag_axis(position.x, to.x - from.x, visible(view, scale).x, view.window_size.x),
        y: drag_axis(position.y, from.y - to.y, visible(view, scale).y, view.window_size.y),
    }
}

/// The state after a tick of a camera: nothing changes while an overlay
/// claims the input; otherwise the camera zooms first and pans then, so that
/// the drag starts from where the zoom has put the centre.
pub open spec fn updated(
    cam: PanCamView,
    state: ViewportStateView,
    focus_claimed: bool,
    scroll: int,
    last_pos: Option<Vec2View>,
    cursor: Option<Vec2View>,
    dragging: bool,
    view: ViewportView,
) -> ViewportStateView {
    if focus_claimed {
        state
    } else {
        panned(cam, zoomed(cam, state, scroll, cursor, view), last_pos, cursor, dragging, view)
    }
}

/// The state after a tick of panning. Nothing changes unless the camera is
/// being dragged and the cursor is known both in this tick and in the one
/// before. Otherwise the position follows the drag and is then brought
/// between the bounds; the scale stays.
pub open spec fn panned(
    cam: PanCamView,
    state: ViewportStateView,
    last_pos: Option<Vec2View>,
    cursor: Option<Vec2View>,
    dragging: bool,
    view: ViewportView,
) -> ViewportStateView {
    match (last_pos, cursor) {
        (Some(from), Some(to)) if dragging => ViewportStateView {
            position: clamp_position(cam, dragged(state.position, from, to, state.scale, view), state.scale, view),
            scale: state.scale,
        },
        _ => state,
    }
}

/// The state of a camera that has just been made to look at `pos`.
pub open spec fn placed(cam: PanCamView, pos: Vec2View, view: ViewportView) -> ViewportStateView {
    ViewportStateView {
        position: clamp_position(cam, pos, INITIAL_SCALE as int, view),
        scale: INITIAL_SCALE as int,
    }
}

/// The position brought between the bounds of each axis.
fn clamp_to_bounds(cam: &PanCam, position: Vec2, scale: Fixed, view: &Viewport) -> (r: Vec2)
    ensures
        r@ == clamp_position(cam@, position@, scale@, view@),
{
    let half_x = half_size(visible_size(view.base_world_size.x, scale));
    let half_y = half_size(visible_size(view.base_world_size.y, scale));
    Vec2 {
        x: clamp_coordinate(position.x, cam.min_x, cam.max_x, half_x),
        y: clamp_coordinate(position.y, cam.min_y, cam.max_y, half_y),
    }
}

/// The scale lowered to what the bounds allow.
fn bound_scale(cam: &PanCam, scale: Fixed, view: &Viewport) -> (r: Fixed)
    ensures
        r@ == bounded_scale(cam@, scale@, view@),
{
    let cap_x = bounds_scale_cap(cam.min_x, cam.max_x, view.base_world_size.x);
    let cap_y = bounds_scale_cap(cam.min_y, cam.max_y, view.base_world_size.y);
    cap_scale(cap_scale(scale, cap_x), cap_y)
}

/// Corrects a state, whatever it holds, to one that respects the bounds of
/// the camera: the scale shows no more than the bounded region on an axis
/// with both bounds, and the viewport lies between the bounds.
pub fn clamp(cam: &PanCam, state: ViewportState, view: &Viewport) -> (r: ViewportState)
    ensures
        r@ == clamped(cam@, state@, view@),
{
    let scale = bound_scale(cam, state.scale, view);
    ViewportState { position: clamp_to_bounds(cam, state.position, scale, view), scale }
}

/// The largest scale at which the viewport shows no more than a region of
/// extent `bounds_size`, for each axis: an axis on which the region has no
/// extent, or a negative one, gives none, and so does a viewport without
/// extent.
pub fn max_scale_within_bounds(bounds_size: (Option<Fixed>, Option<Fixed>), view: &Viewport) -> (r: (
    Option<Fixed>,
    Option<Fixed>,
))
    ensures
        opt_view(r.0) == representable_cap(scale_caps((opt_view(bounds_size.0), opt_view(bounds_size.1)), view@).0),
        opt_view(r.1) == representable_cap(scale_caps((opt_view(bounds_size.0), opt_view(bounds_size.1)), view@).1),
{
    let x = match bounds_size.0 {
        Some(width) => match safe_scale(width.raw() as i128, view.base_world_size.x) {
            Some(c) => Some(Fixed::saturating(c)),
            None => None,
        },
        None => None,
    };
    let y = match bounds_size.1 {
        Some(height) => match safe_scale(height.raw() as i128, view.base_world_size.y) {
            Some(c) => Some(Fixed::saturating(c)),
            None => None,
        },
        None => None,
    };
    (x, y)
}

/// Twice the distance of the cursor from the centre of the window.
fn cursor_offset_from_centre(cursor: Vec2, view: &Viewport) -> (n: (i128, i128))
    ensures
        n.0 == cursor_from_centre(cursor@, view@).x,
        n.1 == cursor_from_centre(cursor@, view@).y,
        -3 * LIMIT <= n.0 <= 3 * LIMIT,
        -3 * LIMIT <= n.1 <= 3 * LIMIT,
{
    (
        2 * (cursor.x.raw() as i128) - view.window_size.x.raw() as i128,
        view.window_size.y.raw() as i128 - 2 * (cursor.y.raw() as i128),
    )
}

/// The centre moved so that the world point under the cursor stays in place.
fn anchor(position: Vec2, cursor: Vec2, old_scale: Fixed, new_scale: Fixed, view: &Viewport) -> (r: Vec2)
    ensures
        r@ == anchored(position@, cursor@, old_scale@, new_scale@, view@),
{
    let n = cursor_offset_from_centre(cursor, view);
    let old_x = cursor_shift(n.0, visible_size(view.base_world_size.x, old_scale), view.window_size.x);
    let new_x = cursor_shift(n.0, visible_size(view.base_world_size.x, new_scale), view.window_size.x);
    let old_y = cursor_shift(n.1, visible_size(view.base_world_size.y, old_scale), view.window_size.y);
    let new_y = cursor_shift(n.1, visible_size(view.base_world_size.y, new_scale), view.window_size.y);
    Vec2 {
        x: Fixed::saturating(position.x.raw() as i128 + old_x - new_x),
        y: Fixed::saturating(position.y.raw() as i128 + old_y - new_y),
    }
}

/// Zooms the camera by the scroll events of a tick.
///
/// A disabled camera and events that sum to zero leave the state as it is.
/// Otherwise each pixel of net scroll changes the scale by a thousandth,
/// a positive scroll zooming in; the scale is raised to `min_scale`, lowered
/// to `max_scale` and to what the bounds allow. Where the camera zooms to
/// the cursor and the cursor is in the window, the world point under the
/// cursor stays in place. At the end the viewport is brought between the
/// bounds, which decide where bounds and cursor disagree.
pub fn camera_zoom(
    cam: &PanCam,
    state: ViewportState,
    scroll_events: &Vec<ScrollEvent>,
    cursor: Option<Vec2>,
    view: &Viewport,
) -> (r: ViewportState)
    ensures
        r@ == zoomed(cam@, state@, net_scroll(scroll_events@), opt_vec2_view(cursor), view@),
        !cam.enabled || net_scroll(scroll_events@) == 0 ==> r == state,
{
    let scroll = scroll_total(scroll_events);
    if !cam.enabled || scroll == 0 {
        return state;
    }
    let mut scale = zoom_scale(state.scale, scroll);
    if scale.raw() < cam.min_scale.raw() {
        scale = cam.min_scale;
    }
    if let Some(max_scale) = cam.max_scale {
        if scale.raw() > max_scale.raw() {
            scale = max_scale;
        }
    }
    let scale = bound_scale(cam, scale, view);
    let moved = match cursor {
        Some(c) => {
            if cam.zoom_to_cursor {
                anchor(state.position, c, state.scale, scale, view)
            } else {
                state.position
            }
        },
        None => state.position,
    };
    ViewportState { position: clamp_to_bounds(cam, moved, scale, view), scale }
}

/// Pans the camera by the way that the cursor has gone since the tick
/// before, given whether one of its grab buttons is held.
///
/// The state changes only while the camera is enabled, a grab button is
/// held, and the cursor is known both now and in the tick before
/// (`last_pos`). Then the centre moves against the cursor, by the world
/// distance that the pixels stand for at the present scale, and the viewport
/// is brought between the bounds. The scale stays.
pub fn pan(
    cam: &PanCam,
    state: ViewportState,
    last_pos: Option<Vec2>,
    cursor: Option<Vec2>,
    held: bool,
    view: &Viewport,
) -> (r: ViewportState)
    ensures
        r@ == panned(cam@, state@, opt_vec2_view(last_pos), opt_vec2_view(cursor), cam.enabled && held, view@),
        !cam.enabled || !held || last_pos is None || cursor is None ==> r == state,
        r.scale == state.scale,
{
    let (from, to) = match (last_pos, cursor) {
        (Some(from), Some(to)) => (from, to),
        _ => {
            return state;
        },
    };
    if !(cam.enabled && held) {
        return state;
    }
    let dx: i128 = to.x.raw() as i128 - from.x.raw() as i128;
    let dy: i128 = from.y.raw() as i128 - to.y.raw() as i128;
    let shift_x = drag_shift(dx, visible_size(view.base_world_size.x, state.scale), view.window_size.x);
    let shift_y = drag_shift(dy, visible_size(view.base_world_size.y, state.scale), view.window_size.y);
    let moved = Vec2 {
        x: Fixed::saturating(state.position.x.raw() as i128 - shift_x),
        y: Fixed::saturating(state.position.y.raw() as i128 - shift_y),
    };
    ViewportState { position: clamp_to_bounds(cam, moved, state.scale, view), scale: state.scale }
}

/// Pans the camera by the way that the cursor has gone since the tick
/// before, and remembers where the cursor is.
///
/// The camera is dragged while it is enabled and the engine's record holds
/// one of its grab buttons as down, but not as having gone down in this
/// tick; [`pan`] says what a drag does. The second result is the `last_pos`
/// of the next tick: the cursor of this one.
pub fn camera_movement(
    cam: &PanCam,
    state: ViewportState,
    last_pos: Option<Vec2>,
    cursor: Option<Vec2>,
    mouse_buttons: &Input<MouseButton>,
    view: &Viewport,
) -> (r: (ViewportState, Option<Vec2>))
    ensures
        r.0@ == panned(
            cam@,
            state@,
            opt_vec2_view(last_pos),
            opt_vec2_view(cursor),
            dragging(cam@, pressed_buttons(*mouse_buttons), just_pressed_buttons(*mouse_buttons)),
            view@,
        ),
        !cam.enabled || last_pos is None || cursor is None ==> r.0 == state,
        r.0.scale == state.scale,
        r.1 == cursor,
{
    let held = grab_held(&cam.grab_buttons, mouse_buttons);
    (pan(cam, state, last_pos, cursor, held, view), cursor)
}

/// Runs one tick of a camera: the zoom, then the pan, unless an overlay
/// claims the input of the tick, in which case the state stays as it is. The
/// second result is the `last_pos` of the next tick: the cursor of this one,
/// whether or not the camera ran.
pub fn update(
    cam: &PanCam,
    state: ViewportState,
    focus_claimed: bool,
    scroll_events: &Vec<ScrollEvent>,
    last_pos: Option<Vec2>,
    cursor: Option<Vec2>,
    mouse_buttons: &Input<MouseButton>,
    view: &Viewport,
) -> (r: (ViewportState, Option<Vec2>))
    ensures
        r.0@ == updated(
            cam@,
            state@,
            focus_claimed,
            net_scroll(scroll_events@),
            opt_vec2_view(last_pos),
            opt_vec2_view(cursor),
            dragging(cam@, pressed_buttons(*mouse_buttons), just_pressed_buttons(*mouse_buttons)),
            view@,
        ),
        focus_claimed || !cam.enabled ==> r.0 == state,
        r.1 == cursor,
{
    if focus_claimed {
        return (state, cursor);
    }
    let zoomed = camera_zoom(cam, state, scroll_events, cursor, view);
    camera_movement(cam, zoomed, last_pos, cursor, mouse_buttons, view)
}

/// The world point that is shown under the cursor, as far as the
/// representable range goes.
pub fn cursor_world_position(state: ViewportState, cursor: Vec2, view: &Viewport) -> (r: Vec2)
    ensures
        r@.x == saturate(world_under_cursor(state@, cursor@, view@).x),
        r@.y == saturate(world_under_cursor(state@, cursor@, view@).y),
{
    let n = cursor_offset_from_centre(cursor, view);
    let x = cursor_shift(n.0, visible_size(view.base_world_size.x, state.scale), view.window_size.x);
    let y = cursor_shift(n.1, visible_size(view.base_world_size.y, state.scale), view.window_size.y);
    Vec2 {
        x: Fixed::saturating(state.position.x.raw() as i128 + x),
        y: Fixed::saturating(state.position.y.raw() as i128 + y),
    }
}

/// The state of a new camera that looks at `pos`: it starts at
/// [`INITIAL_SCALE`], and its viewport is brought between the bounds before
/// it is first shown.
pub fn new_camera2d_with_constraints(pancam: &PanCam, pos: &Vec2, view: &Viewport) -> (r: ViewportState)
    ensures
        r@ == placed(pancam@, pos@, view@),
{
    let scale = Fixed::from_raw(INITIAL_SCALE);
    ViewportState { position: clamp_to_bounds(pancam, *pos, scale, view), scale }
}

} // verus!
