//! Where a level puts its camera: over the middle of its tile map, bounded
//! by the map.

use crate::arith::floor_div;
use crate::camera::{default_pan_cam, new_camera2d_with_constraints, placed, PanCam, PanCamView, Viewport, ViewportState};
use crate::fixed::{saturate, Fixed, Vec2, Vec2View, ONE};
use vstd::prelude::*;

verus! {

/// The smallest scale of the camera of a level: a quarter.
pub const LEVEL_MIN_SCALE: i64 = 250_000;

/// The largest scale of the camera of a level: thirty.
pub const LEVEL_MAX_SCALE: i64 = 30_000_000;

/// The extent of a tile map: how many tiles it has each way, and how many
/// world units a tile takes.
#[derive(Clone, Copy, Debug, PartialEq, Eq, Structural)]
pub struct TiledMapSize {
    pub width: u32,
    pub height: u32,
    pub tile_width: u32,
    pub tile_height: u32,
}

/// The distance between the centres of the first and the last of `tiles`
/// tiles in a row, as far as the representable range goes. A row without
/// tiles has none.
pub open spec fn map_extent(tiles: u32, tile_size: u32) -> int {
    if tiles == 0 {
        0
    } else {
        saturate((tiles - 1) * tile_size * ONE)
    }
}

/// The region that the camera of a level may show: from the centre of the
/// first tile to the centre of the last one. Without a map the region has
/// no extent.
pub open spec fn map_size(map: Option<TiledMapSize>) -> Vec2View {
    match map {
        Some(m) => Vec2View { x: map_extent(m.width, m.tile_width), y: map_extent(m.height, m.tile_height) },
        None => Vec2View { x: 0, y: 0 },
    }
}

/// The point that the camera of a level first looks at: the middle of the
/// map.
pub open spec fn map_centre(map: Option<TiledMapSize>) -> Vec2View {
    Vec2View { x: map_size(map).x / 2, y: map_size(map).y / 2 }
}

/// The configuration of the camera of a level: as the default one, but with
/// a scale between a quarter and thirty and a view bounded by the map.
pub open spec fn level_pan_cam(map: Option<TiledMapSize>) -> PanCamView {
    PanCamView {
        min_scale: LEVEL_MIN_SCALE as int,
        max_scale: Some(LEVEL_MAX_SCALE as int),
        min_x: Some(0),
        min_y: Some(0),
        max_x: Some(map_size(map).x),
        max_y: Some(map_size(map).y),
        ..default_pan_cam()
    }
}

/// The extent of a row of tiles.
fn extent(tiles: u32, tile_size: u32) -> (r: Fixed)
    ensures
        r@ == map_extent(tiles, tile_size),
{
    if tiles == 0 {
        Fixed::from_raw(0)
    } else {
        let steps: i128 = (tiles - 1) as i128;
        let size: i128 = tile_size as i128;
        assert(0 <= steps * size <= 0x1_0000_0000 * 0x1_0000_0000) by (nonlinear_arith)
            requires
                0 <= steps < 0x1_0000_0000,
                0 <= size < 0x1_0000_0000,
        ;
        let tiles_extent: i128 = steps * size;
        assert(0 <= tiles_extent * ONE <= 0x1_0000_0000 * 0x1_0000_0000 * 1_000_000) by (nonlinear_arith)
            requires
                0 <= tiles_extent <= 0x1_0000_0000 * 0x1_0000_0000,
                ONE == 1_000_000,
        ;
        Fixed::saturating(tiles_extent * (ONE as i128))
    }
}

/// Half of an extent.
fn half(extent: Fixed) -> (r: Fixed)
    ensures
        r@ == extent@ / 2,
{
    Fixed::saturating(floor_div(extent.raw() as i128, 2))
}

/// Makes the camera of a level: its configuration, bounded by the map, and
/// its first state, over the middle of the map with the viewport between
/// the bounds. Without a map the camera is bounded to the origin.
pub fn camera_spawn(map: Option<TiledMapSize>, view: &Viewport) -> (r: (PanCam, ViewportState))
    ensures
        r.0@ == level_pan_cam(map),
        r.1@ == placed(level_pan_cam(map), map_centre(map), view@),
{
    let size = match map {
        Some(m) => Vec2 { x: extent(m.width, m.tile_width), y: extent(m.height, m.tile_height) },
        None => Vec2 { x: Fixed::from_raw(0), y: Fixed::from_raw(0) },
    };
    let camera_pos = Vec2 { x: half(size.x), y: half(size.y) };
    let default = PanCam::default();
    let pancam = PanCam {
        grab_buttons: default.grab_buttons,
        enabled: default.enabled,
        zoom_to_cursor: default.zoom_to_cursor,
        min_scale: Fixed::from_raw(LEVEL_MIN_SCALE),
        max_scale: Some(Fixed::from_raw(LEVEL_MAX_SCALE)),
        min_x: Some(Fixed::from_raw(0)),
        min_y: Some(Fixed::from_raw(0)),
        max_x: Some(size.x),
        max_y: Some(size.y),
    };
    let state = new_camera2d_with_constraints(&pancam, &camera_pos, view);
    (pancam, state)
}

} // verus!
