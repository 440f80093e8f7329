use pancam::fixed::{Fixed, Vec2, LIMIT};
use bevy::input::keyboard::KeyCode;
use bevy::input::Input;
use pancam::game::{animate_sprite, is_spawn_object, player_movement, spawn_position, step, Asked};
use pancam::level::TiledMapSize;

fn fixed(value: f64) -> Fixed {
    Fixed::from_raw((value * 1_000_000.0).round() as i64)
}

/// A record in which `keys` have gone down in this tick.
fn just_pressed(keys: &[KeyCode]) -> Input<KeyCode> {
    let mut input = Input::default();
    for key in keys {
        input.press(*key);
    }
    input
}

#[test]
fn no_key_no_step() {
    assert_eq!(player_movement(&Input::default()), (0, 0));
    // keys that move nothing
    assert_eq!(player_movement(&just_pressed(&[KeyCode::Numpad5, KeyCode::S, KeyCode::Space])), (0, 0));
}

#[test]
fn one_key_one_step() {
    let steps = [
        (KeyCode::Numpad1, (-1, -1)),
        (KeyCode::Z, (-1, -1)),
        (KeyCode::Numpad2, (0, -1)),
        (KeyCode::X, (0, -1)),
        (KeyCode::Down, (0, -1)),
        (KeyCode::Numpad3, (1, -1)),
        (KeyCode::C, (1, -1)),
        (KeyCode::Numpad4, (-1, 0)),
        (KeyCode::A, (-1, 0)),
        (KeyCode::Left, (-1, 0)),
        (KeyCode::Numpad6, (1, 0)),
        (KeyCode::D, (1, 0)),
        (KeyCode::Right, (1, 0)),
        (KeyCode::Numpad7, (-1, 1)),
        (KeyCode::Q, (-1, 1)),
        (KeyCode::Numpad8, (0, 1)),
        (KeyCode::W, (0, 1)),
        (KeyCode::Up, (0, 1)),
        (KeyCode::Numpad9, (1, 1)),
        (KeyCode::E, (1, 1)),
    ];
    for (key, step) in steps {
        assert_eq!(player_movement(&just_pressed(&[key])), step);
    }
}

#[test]
fn a_key_moves_only_in_the_tick_in_which_it_goes_down() {
    let mut input = just_pressed(&[KeyCode::Left]);
    assert_eq!(player_movement(&input), (-1, 0));
    input.clear();
    assert!(input.pressed(KeyCode::Left));
    assert_eq!(player_movement(&input), (0, 0));
    input.press(KeyCode::Up);
    assert_eq!(player_movement(&input), (0, 1));
}

#[test]
fn the_later_direction_decides_between_keys() {
    // the order in which the keys went down does not count
    assert_eq!(player_movement(&just_pressed(&[KeyCode::Left, KeyCode::Right])), (1, 0));
    assert_eq!(player_movement(&just_pressed(&[KeyCode::Right, KeyCode::Left])), (1, 0));
    assert_eq!(player_movement(&just_pressed(&[KeyCode::Up, KeyCode::Down])), (0, 1));
    assert_eq!(player_movement(&just_pressed(&[KeyCode::Numpad1, KeyCode::Numpad9])), (1, 1));
    assert_eq!(player_movement(&just_pressed(&[KeyCode::Numpad3, KeyCode::A])), (-1, -1));
    assert_eq!(player_movement(&just_pressed(&[KeyCode::Numpad7, KeyCode::D])), (-1, 1));
    assert_eq!(player_movement(&just_pressed(&[KeyCode::Numpad7, KeyCode::X])), (-1, 1));
    assert_eq!(player_movement(&just_pressed(&[KeyCode::Down, KeyCode::Right])), (1, -1));
    assert_eq!(player_movement(&just_pressed(&[KeyCode::W, KeyCode::A])), (-1, 1));
    assert_eq!(player_movement(&just_pressed(&[KeyCode::E, KeyCode::Q, KeyCode::Z])), (1, 1));
}

#[test]
fn each_way_has_its_step() {
    let none = Asked {
        down_left: false,
        down: false,
        down_right: false,
        left: false,
        right: false,
        up_left: false,
        up: false,
        up_right: false,
    };
    assert_eq!(step(none), (0, 0));
    assert_eq!(step(Asked { down_left: true, ..none }), (-1, -1));
    assert_eq!(step(Asked { down: true, ..none }), (0, -1));
    assert_eq!(step(Asked { down_right: true, ..none }), (1, -1));
    assert_eq!(step(Asked { left: true, ..none }), (-1, 0));
    assert_eq!(step(Asked { right: true, ..none }), (1, 0));
    assert_eq!(step(Asked { up_left: true, ..none }), (-1, 1));
    assert_eq!(step(Asked { up: true, ..none }), (0, 1));
    assert_eq!(step(Asked { up_right: true, ..none }), (1, 1));
    assert_eq!(step(Asked { down_left: true, down_right: true, ..none }), (1, -1));
    assert_eq!(step(Asked { down_right: true, left: true, up: true, ..none }), (-1, 1));
    assert_eq!(step(Asked { right: true, up_left: true, down: true, ..none }), (-1, 1));
    let all = Asked {
        down_left: true,
        down: true,
        down_right: true,
        left: true,
        right: true,
        up_left: true,
        up: true,
        up_right: true,
    };
    assert_eq!(step(all), (1, 1));
    assert_eq!(step(Asked { up_right: false, ..all }), (-1, 1));
}

#[test]
fn frames_alternate() {
    assert_eq!(animate_sprite(0), (1, 42));
    assert_eq!(animate_sprite(1), (0, 22));
    assert_eq!(animate_sprite(-1), (0, 22));
}

#[test]
fn spawn_objects_are_visible_and_of_type_spawn() {
    assert!(is_spawn_object(true, "spawn"));
    assert!(is_spawn_object(true, "Spawn"));
    assert!(is_spawn_object(true, "SPAWN"));
    assert!(is_spawn_object(true, "sPaWn"));
    assert!(!is_spawn_object(false, "spawn"));
    assert!(!is_spawn_object(true, ""));
    assert!(!is_spawn_object(true, "spawn "));
    assert!(!is_spawn_object(true, "spaw"));
    assert!(!is_spawn_object(true, "spown"));
    assert!(!is_spawn_object(true, "enemy"));
    assert!(!is_spawn_object(true, "SPAWN\u{0}"));
    assert!(!is_spawn_object(true, "SPAW."));
    // bytes that lie as far below the small letters as the capitals, and twice as far
    assert!(!is_spawn_object(true, "SPAW\u{2e}"));
    assert!(!is_spawn_object(true, "3P!7."));
    // five bytes, four letters
    assert!(!is_spawn_object(true, "sp\u{e4}wn"));
    assert!(!is_spawn_object(true, "spa\u{175}"));
}

#[test]
fn objects_count_from_the_upper_edge_of_the_map() {
    let map = TiledMapSize { width: 10, height: 8, tile_width: 16, tile_height: 32 };
    // the map is 256 high
    assert_eq!(spawn_position(map, fixed(40.), fixed(56.)), Vec2::new(fixed(40.), fixed(200.)));
    assert_eq!(spawn_position(map, fixed(-1.5), fixed(256.)), Vec2::new(fixed(-1.5), fixed(0.)));
    assert_eq!(spawn_position(map, fixed(0.), fixed(-4.25)), Vec2::new(fixed(0.), fixed(260.25)));
    let huge = TiledMapSize { width: 1, height: u32::MAX, tile_width: 1, tile_height: u32::MAX };
    assert_eq!(spawn_position(huge, fixed(0.), fixed(0.)).y.raw(), LIMIT);
}
