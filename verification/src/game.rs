//! The rules of the game that the camera looks at: which way a key press
//! moves the player, which picture an animated sprite shows next, and which
//! objects of a map are places where a player starts.

use crate::fixed::{saturate, Fixed, Vec2, Vec2View, ONE};
use crate::level::TiledMapSize;
use bevy::input::keyboard::KeyCode;
use bevy::input::Input;
use vstd::prelude::*;
use vstd::string::StringSliceAdditionalSpecFns;

verus! {

/// The engine's name for a key, `bevy::input::keyboard::KeyCode`: a value
/// that is carried, never looked into.
#[verifier::external_type_specification]
#[verifier::external_body]
pub struct ExKeyCode(KeyCode);

/// A key that moves the player.
#[derive(Clone, Copy, Debug, PartialEq, Eq, Structural)]
pub enum Key {
    Numpad1,
    Numpad2,
    Numpad3,
    Numpad4,
    Numpad6,
    Numpad7,
    Numpad8,
    Numpad9,
    A,
    C,
    D,
    E,
    Q,
    W,
    X,
    Z,
    Down,
    Left,
    Right,
    Up,
}

/// One of the eight ways that the player can step.
#[derive(Clone, Copy, Debug, PartialEq, Eq, Structural)]
pub enum Direction {
    DownLeft,
    Down,
    DownRight,
    Left,
    Right,
    UpLeft,
    Up,
    UpRight,
}

/// The ways that are asked for in a tick.
#[derive(Clone, Copy, Debug, PartialEq, Eq, Structural)]
pub struct Asked {
    pub down_left: bool,
    pub down: bool,
    pub down_right: bool,
    pub left: bool,
    pub right: bool,
    pub up_left: bool,
    pub up: bool,
    pub up_right: bool,
}

/// The way that a key stands for.
pub open spec fn direction_of(key: Key) -> Direction {
    match key {
        Key::Numpad1 | Key::Z => Direction::DownLeft,
        Key::Numpad2 | Key::X | Key::Down => Direction::Down,
        Key::Numpad3 | Key::C => Direction::DownRight,
        Key::Numpad4 | Key::A | Key::Left => Direction::Left,
        Key::Numpad6 | Key::D | Key::Right => Direction::Right,
        Key::Numpad7 | Key::Q => Direction::UpLeft,
        Key::Numpad8 | Key::W | Key::Up => Direction::Up,
        Key::Numpad9 | Key::E => Direction::UpRight,
    }
}

/// The keys that the record holds as having gone down in this tick: those
/// for which `bevy::input::Input::just_pressed` answers yes.
pub uninterp spec fn just_pressed_keys(input: Input<KeyCode>) -> Set<Key>;

/// Whether one of `keys` stands for `direction`.
pub open spec fn asks(keys: Set<Key>, direction: Direction) -> bool {
    exists|key: Key| keys.contains(key) && #[trigger] direction_of(key) == direction
}

/// The ways that `keys` ask for.
pub open spec fn asked_by(keys: Set<Key>) -> Asked {
    Asked {
        down_left: asks(keys, Direction::DownLeft),
        down: asks(keys, Direction::Down),
        down_right: asks(keys, Direction::DownRight),
        left: asks(keys, Direction::Left),
        right: asks(keys, Direction::Right),
        up_left: asks(keys, Direction::UpLeft),
        up: asks(keys, Direction::Up),
        up_right: asks(keys, Direction::UpRight),
    }
}

/// The step that is taken, as a number of tiles to the right and a number
/// of tiles upwards. Where the ways disagree, one that is later in the order
/// of [`Direction`] decides each number that it speaks of.
pub open spec fn step_for(asked: Asked) -> (int, int) {
    (
        if asked.up_right {
            1
        } else if asked.up_left {
            -1
        } else if asked.right {
            1
        } else if asked.left {
            -1
        } else if asked.down_right {
            1
        } else if asked.down_left {
            -1
        } else {
            0int
        },
        if asked.up_right || asked.up || asked.up_left {
            1
        } else if asked.down_right || asked.down || asked.down_left {
            -1
        } else {
            0int
        },
    )
}

/// Calls `bevy::input::Input::just_pressed` with the engine's name of
/// `key`. Taken on trust: the answer is whether the record holds the key as
/// having gone down in this tick, and the call always returns.
#[verifier::external_body]
fn key_just_pressed(input: &Input<KeyCode>, key: Key) -> (r: bool)
    ensures
        r == just_pressed_keys(*input).contains(key),
{
    input.just_pressed(match key {
        Key::Numpad1 => KeyCode::Numpad1, Key::Numpad2 => KeyCode::Numpad2,
        Key::Numpad3 => KeyCode::Numpad3, Key::Numpad4 => KeyCode::Numpad4,
        Key::Numpad6 => KeyCode::Numpad6, Key::Numpad7 => KeyCode::Numpad7,
        Key::Numpad8 => KeyCode::Numpad8, Key::Numpad9 => KeyCode::Numpad9,
        Key::A => KeyCode::A, Key::C => KeyCode::C, Key::D => KeyCode::D, Key::E => KeyCode::E,
        Key::Q => KeyCode::Q, Key::W => KeyCode::W, Key::X => KeyCode::X, Key::Z => KeyCode::Z,
        Key::Down => KeyCode::Down, Key::Left => KeyCode::Left,
        Key::Right => KeyCode::Right, Key::Up => KeyCode::Up,
    })
}

/// The step that is taken when the given ways are asked for.
pub fn step(asked: Asked) -> (p: (i32, i32))
    ensures
        (p.0 as int, p.1 as int) == step_for(asked),
{
    let mut p: (i32, i32) = (0, 0);
    if asked.down_left {
        p = (-1, -1);
    }
    if asked.down {
        p = (p.0, -1);
    }
    if asked.down_right {
        p = (1, -1);
    }
    if asked.left {
        p = (-1, p.1);
    }
    if asked.right {
        p = (1, p.1);
    }
    if asked.up_left {
        p = (-1, 1);
    }
    if asked.up {
        p = (p.0, 1);
    }
    if asked.up_right {
        p = (1, 1);
    }
    p
}

/// Each key stands for its way.
proof fn lemma_keys_have_directions()
    ensures
        direction_of(Key::Numpad1) == Direction::DownLeft && direction_of(Key::Z) == Direction::DownLeft,
        direction_of(Key::Numpad2) == Direction::Down && direction_of(Key::X) == Direction::Down,
        direction_of(Key::Down) == Direction::Down,
        direction_of(Key::Numpad3) == Direction::DownRight && direction_of(Key::C) == Direction::DownRight,
        direction_of(Key::Numpad4) == Direction::Left && direction_of(Key::A) == Direction::Left,
        direction_of(Key::Left) == Direction::Left,
        direction_of(Key::Numpad6) == Direction::Right && direction_of(Key::D) == Direction::Right,
        direction_of(Key::Right) == Direction::Right,
        direction_of(Key::Numpad7) == Direction::UpLeft && direction_of(Key::Q) == Direction::UpLeft,
        direction_of(Key::Numpad8) == Direction::Up && direction_of(Key::W) == Direction::Up,
        direction_of(Key::Up) == Direction::Up,
        direction_of(Key::Numpad9) == Direction::UpRight && direction_of(Key::E) == Direction::UpRight,
{
}

/// The ways that the keys ask for that went down in this tick.
fn asked(input: &Input<KeyCode>) -> (r: Asked)
    ensures
        r == asked_by(just_pressed_keys(*input)),
{
    proof {
        lemma_keys_have_directions();
    }
    Asked {
        down_left: key_just_pressed(input, Key::Numpad1) || key_just_pressed(input, Key::Z),
        down: key_just_pressed(input, Key::Numpad2) || key_just_pressed(input, Key::X) || key_just_pressed(
            input,
            Key::Down,
        ),
        down_right: key_just_pressed(input, Key::Numpad3) || key_just_pressed(input, Key::C),
        left: key_just_pressed(input, Key::Numpad4) || key_just_pressed(input, Key::A) || key_just_pressed(
            input,
            Key::Left,
        ),
        right: key_just_pressed(input, Key::Numpad6) || key_just_pressed(input, Key::D) || key_just_pressed(
            input,
            Key::Right,
        ),
        up_left: key_just_pressed(input, Key::Numpad7) || key_just_pressed(input, Key::Q),
        up: key_just_pressed(input, Key::Numpad8) || key_just_pressed(input, Key::W) || key_just_pressed(
            input,
            Key::Up,
        ),
        up_right: key_just_pressed(input, Key::Numpad9) || key_just_pressed(input, Key::E),
    }
}

/// The step of the player in a tick, from the keys that the engine's record
/// holds as having gone down in it; [`step`] says which step the ways give
/// that the keys stand for.
pub fn player_movement(input: &Input<KeyCode>) -> (p: (i32, i32))
    ensures
        (p.0 as int, p.1 as int) == step_for(asked_by(just_pressed_keys(*input))),
{
    step(asked(input))
}

/// The number of pictures that an animated sprite goes through.
pub const FRAMES: i32 = 2;

/// The frame that follows `frame`: after the last one comes the first.
pub open spec fn next_frame(frame: int) -> int {
    if frame + 1 == FRAMES {
        0
    } else {
        frame + 1
    }
}

/// The picture of the sprite sheet that a frame shows.
pub open spec fn sprite_index(frame: int) -> int {
    if frame == 0 {
        22
    } else {
        42
    }
}

/// Moves an animated sprite on by one frame: gives the next frame and the
/// picture that it shows.
pub fn animate_sprite(frame: i32) -> (r: (i32, usize))
    requires
        -1 <= frame < FRAMES,
    ensures
        r.0 == next_frame(frame as int),
        r.1 == sprite_index(r.0 as int),
        0 <= r.0 < FRAMES,
{
    let mut next: i32 = frame + 1;
    if next == FRAMES {
        next = 0;
    }
    let index: usize = if next == 0 {
        22
    } else {
        42
    };
    (next, index)
}

/// A letter of the Latin alphabet as a small letter; any other byte as it
/// is.
pub open spec fn ascii_lower(b: u8) -> u8 {
    if 0x41 <= b <= 0x5a {
        (b + 0x20) as u8
    } else {
        b
    }
}

/// Whether `bytes` spell "spawn", in capital or small letters.
pub open spec fn spells_spawn(bytes: Seq<u8>) -> bool {
    &&& bytes.len() == 5
    &&& ascii_lower(bytes[0]) == 0x73
    &&& ascii_lower(bytes[1]) == 0x70
    &&& ascii_lower(bytes[2]) == 0x61
    &&& ascii_lower(bytes[3]) == 0x77
    &&& ascii_lower(bytes[4]) == 0x6e
}

/// A letter of the Latin alphabet as a small letter.
fn to_lower(b: u8) -> (r: u8)
    ensures
        r == ascii_lower(b),
{
    if 0x41 <= b && b <= 0x5a {
        b + 0x20
    } else {
        b
    }
}

/// Whether an object of a map is a place where a player starts: it is
/// visible and of the type "spawn", in capital or small letters.
pub fn is_spawn_object(visible: bool, user_type: &str) -> (r: bool)
    ensures
        r == (visible && spells_spawn(user_type.spec_bytes())),
{
    let bytes = user_type.as_bytes();
    visible && bytes.len() == 5 && to_lower(bytes[0]) == 0x73 && to_lower(bytes[1]) == 0x70 && to_lower(
        bytes[2],
    ) == 0x61 && to_lower(bytes[3]) == 0x77 && to_lower(bytes[4]) == 0x6e
}

/// Where an object of a map stands in the world: maps count downwards from
/// their upper edge, the world counts upwards from their lower edge.
pub open spec fn object_position(map: TiledMapSize, x: int, y: int) -> Vec2View {
    Vec2View { x, y: saturate(map.height * map.tile_height * ONE - y) }
}

/// Where a player who starts at an object of a map stands in the world.
pub fn spawn_position(map: TiledMapSize, x: Fixed, y: Fixed) -> (r: Vec2)
    ensures
        r@ == object_position(map, x@, y@),
{
    let rows: i128 = map.height as i128;
    let size: i128 = map.tile_height as i128;
    assert(0 <= rows * size <= 0x1_0000_0000 * 0x1_0000_0000) by (nonlinear_arith)
        requires
            0 <= rows < 0x1_0000_0000,
            0 <= size < 0x1_0000_0000,
    ;
    let height: i128 = rows * size;
    assert(0 <= height * ONE <= 0x1_0000_0000 * 0x1_0000_0000 * 1_000_000) by (nonlinear_arith)
        requires
            0 <= height <= 0x1_0000_0000 * 0x1_0000_0000,
            ONE == 1_000_000,
    ;
    Vec2 { x, y: Fixed::saturating(height * (ONE as i128) - y.raw() as i128) }
}

} // verus!
