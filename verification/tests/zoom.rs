use pancam::camera::{camera_zoom, cursor_world_position, PanCam, Viewport, ViewportState};
use pancam::fixed::{Fixed, Vec2, LIMIT};
use pancam::input::{ScrollUnit, ScrollEvent};

fn fixed(value: f64) -> Fixed {
    Fixed::from_raw((value * 1_000_000.0).round() as i64)
}

fn vec2(x: f64, y: f64) -> Vec2 {
    Vec2::new(fixed(x), fixed(y))
}

fn state(x: f64, y: f64, scale: f64) -> ViewportState {
    ViewportState { position: vec2(x, y), scale: fixed(scale) }
}

fn window(width: f64, height: f64) -> Viewport {
    Viewport::from_window(vec2(width, height))
}

fn lines(amount: f64) -> ScrollEvent {
    ScrollEvent { unit: ScrollUnit::Line, amount: fixed(amount) }
}

fn pixels(amount: f64) -> ScrollEvent {
    ScrollEvent { unit: ScrollUnit::Pixel, amount: fixed(amount) }
}

#[test]
fn scrolling_up_one_line_zooms_in_by_a_tenth() {
    let cam = PanCam::default();
    let r = camera_zoom(&cam, state(3., 4., 1.), &vec![lines(1.)], None, &window(100., 100.));
    assert_eq!(r, state(3., 4., 0.9));
}

#[test]
fn scrolling_down_one_line_zooms_out_by_a_tenth() {
    let cam = PanCam::default();
    let r = camera_zoom(&cam, state(3., 4., 1.), &vec![lines(-1.)], None, &window(100., 100.));
    assert_eq!(r, state(3., 4., 1.1));
}

#[test]
fn a_pixel_changes_the_scale_by_a_thousandth() {
    let cam = PanCam::default();
    let r = camera_zoom(&cam, state(0., 0., 2.), &vec![pixels(50.)], None, &window(100., 100.));
    assert_eq!(r.scale, fixed(1.9));
    let r = camera_zoom(&cam, state(0., 0., 2.), &vec![pixels(-1.)], None, &window(100., 100.));
    assert_eq!(r.scale, fixed(2.002));
    let r = camera_zoom(&cam, state(0., 0., 2.), &vec![pixels(0.5)], None, &window(100., 100.));
    assert_eq!(r.scale, fixed(1.999));
}

#[test]
fn events_of_a_tick_are_summed() {
    let cam = PanCam::default();
    let events = vec![lines(1.), pixels(25.), lines(-2.), pixels(-5.)];
    // 100 + 25 - 200 - 5 = -80 pixels
    let r = camera_zoom(&cam, state(0., 0., 1.), &events, None, &window(100., 100.));
    assert_eq!(r.scale, fixed(1.08));
}

#[test]
fn no_events_leave_the_state_as_it_is() {
    let cam = PanCam { min_x: Some(fixed(0.)), max_x: Some(fixed(10.)), ..PanCam::default() };
    // a state that breaks every bound stays as it is
    let s = state(-500., 7., 50.);
    let r = camera_zoom(&cam, s, &vec![], Some(vec2(10., 10.)), &window(100., 100.));
    assert_eq!(r, s);
}

#[test]
fn events_that_sum_to_zero_leave_the_state_as_it_is() {
    let cam = PanCam { min_x: Some(fixed(0.)), max_x: Some(fixed(10.)), ..PanCam::default() };
    let s = state(-500., 7., 50.);
    let events = vec![lines(1.), pixels(-100.)];
    let r = camera_zoom(&cam, s, &events, Some(vec2(10., 10.)), &window(100., 100.));
    assert_eq!(r, s);
    let r = camera_zoom(&cam, s, &vec![pixels(0.)], Some(vec2(10., 10.)), &window(100., 100.));
    assert_eq!(r, s);
}

#[test]
fn a_disabled_camera_does_not_zoom() {
    let cam = PanCam { enabled: false, max_scale: Some(fixed(1.)), ..PanCam::default() };
    let s = state(1., 2., 3.);
    let r = camera_zoom(&cam, s, &vec![lines(3.)], Some(vec2(10., 10.)), &window(100., 100.));
    assert_eq!(r, s);
}

#[test]
fn scale_is_raised_to_min_scale() {
    let cam = PanCam { min_scale: fixed(0.25), ..PanCam::default() };
    // 0.3 * (1 - 0.5) = 0.15
    let r = camera_zoom(&cam, state(0., 0., 0.3), &vec![pixels(500.)], None, &window(100., 100.));
    assert_eq!(r.scale, fixed(0.25));
}

#[test]
fn a_scroll_beyond_a_thousand_pixels_stops_at_min_scale() {
    let cam = PanCam { min_scale: fixed(0.25), ..PanCam::default() };
    // 1 * (1 - 2) = -1
    let r = camera_zoom(&cam, state(0., 0., 1.), &vec![lines(20.)], None, &window(100., 100.));
    assert_eq!(r.scale, fixed(0.25));
    // exactly a thousand pixels bring the scale to nothing
    let r = camera_zoom(&cam, state(0., 0., 1.), &vec![lines(10.)], None, &window(100., 100.));
    assert_eq!(r.scale, fixed(0.25));
}

#[test]
fn scale_never_falls_below_min_scale_over_many_zooms() {
    let cam = PanCam { min_scale: fixed(0.25), max_scale: Some(fixed(30.)), ..PanCam::default() };
    let view = window(640., 480.);
    let mut s = state(0., 0., 1.);
    let scrolls = [3., -7., 12., 0.5, -0.25, 40., -100., 9., 9., 9., 9., 9., -1., 2000., -3000.];
    for round in 0..20 {
        for amount in scrolls.iter() {
            let cursor = Some(vec2(17. * round as f64, 300.));
            s = camera_zoom(&cam, s, &vec![lines(*amount)], cursor, &view);
            assert!(s.scale.raw() >= cam.min_scale.raw());
            assert!(s.scale.raw() <= 30_000_000);
        }
    }
}

#[test]
fn scale_is_lowered_to_max_scale() {
    let cam = PanCam { max_scale: Some(fixed(2.)), ..PanCam::default() };
    // 1.9 * 1.2 = 2.28
    let r = camera_zoom(&cam, state(0., 0., 1.9), &vec![pixels(-200.)], None, &window(100., 100.));
    assert_eq!(r.scale, fixed(2.));
}

#[test]
fn max_scale_decides_where_it_lies_below_min_scale() {
    let cam = PanCam { min_scale: fixed(2.), max_scale: Some(fixed(1.)), ..PanCam::default() };
    let r = camera_zoom(&cam, state(0., 0., 1.5), &vec![lines(1.)], None, &window(100., 100.));
    assert_eq!(r.scale, fixed(1.));
    let r = camera_zoom(&cam, state(0., 0., 1.5), &vec![lines(-1.)], None, &window(100., 100.));
    assert_eq!(r.scale, fixed(1.));
}

#[test]
fn zoom_stops_where_the_bounded_region_fills_the_window() {
    let cam = PanCam { min_x: Some(fixed(0.)), max_x: Some(fixed(200.)), ..PanCam::default() };
    let view = window(100., 100.);
    let r = camera_zoom(&cam, state(100., 0., 1.9), &vec![pixels(-200.)], None, &view);
    assert_eq!(r, state(100., 0., 2.));
    // half the width of the bounds, half the scale
    let cam = PanCam { min_x: Some(fixed(0.)), max_x: Some(fixed(50.)), ..PanCam::default() };
    let r = camera_zoom(&cam, state(25., 0., 0.4), &vec![lines(-10.)], None, &view);
    assert_eq!(r, state(25., 0., 0.5));
    // the same for the height
    let cam = PanCam { min_y: Some(fixed(0.)), max_y: Some(fixed(100.)), ..PanCam::default() };
    let r = camera_zoom(&cam, state(0., 50., 0.9), &vec![lines(-10.)], None, &view);
    assert_eq!(r, state(0., 50., 1.));
}

#[test]
fn bounds_cap_lies_below_min_scale() {
    // a region one unit wide in a window of 100 pixels allows a scale of
    // 0.01 at most, and the bounds decide
    let cam = PanCam {
        min_scale: fixed(0.25),
        min_x: Some(fixed(0.)),
        max_x: Some(fixed(1.)),
        ..PanCam::default()
    };
    let r = camera_zoom(&cam, state(0., 0., 1.), &vec![lines(1.)], None, &window(100., 100.));
    assert_eq!(r, state(0.5, 0., 0.01));
}

#[test]
fn zoom_keeps_the_world_point_under_the_cursor() {
    let cam = PanCam::default();
    let view = window(100., 100.);
    let cursor = vec2(75., 25.);
    let before = state(10., 20., 1.);
    // the cursor is 25 pixels right of and 25 pixels above the centre
    assert_eq!(cursor_world_position(before, cursor, &view), vec2(35., 45.));
    let after = camera_zoom(&cam, before, &vec![lines(1.)], Some(cursor), &view);
    assert_eq!(after, state(12.5, 22.5, 0.9));
    assert_eq!(cursor_world_position(after, cursor, &view), vec2(35., 45.));
    let after = camera_zoom(&cam, before, &vec![lines(-5.)], Some(cursor), &view);
    assert_eq!(after, state(-2.5, 7.5, 1.5));
    assert_eq!(cursor_world_position(after, cursor, &view), vec2(35., 45.));
}

#[test]
fn zoom_keeps_the_world_point_under_the_cursor_for_odd_values() {
    let cam = PanCam { min_scale: fixed(0.001), ..PanCam::default() };
    let view = Viewport { window_size: vec2(1279., 719.), base_world_size: vec2(333.333_333, 187.5) };
    let cursors = [vec2(0., 0.), vec2(1279., 719.), vec2(640.5, 13.), vec2(1., 718.999_999)];
    let scrolls = [1., -1., 0.333_333, 7.77, -9.5];
    let mut s = state(-12.345_678, 98.765_432, 1.234_567);
    for cursor in cursors.iter() {
        for amount in scrolls.iter() {
            let world = cursor_world_position(s, *cursor, &view);
            s = camera_zoom(&cam, s, &vec![lines(*amount)], Some(*cursor), &view);
            assert_eq!(cursor_world_position(s, *cursor, &view), world);
        }
    }
}

#[test]
fn zoom_at_the_centre_of_the_window_leaves_the_position() {
    let cam = PanCam::default();
    let r = camera_zoom(&cam, state(10., 20., 1.), &vec![lines(1.)], Some(vec2(50., 50.)), &window(100., 100.));
    assert_eq!(r, state(10., 20., 0.9));
}

#[test]
fn zoom_without_a_cursor_leaves_the_position() {
    let cam = PanCam::default();
    let r = camera_zoom(&cam, state(10., 20., 1.), &vec![lines(1.)], None, &window(100., 100.));
    assert_eq!(r, state(10., 20., 0.9));
}

#[test]
fn zoom_to_the_centre_leaves_the_position() {
    let cam = PanCam { zoom_to_cursor: false, ..PanCam::default() };
    let r = camera_zoom(&cam, state(10., 20., 1.), &vec![lines(1.)], Some(vec2(75., 25.)), &window(100., 100.));
    assert_eq!(r, state(10., 20., 0.9));
}

#[test]
fn bounds_decide_where_they_disagree_with_the_cursor() {
    let cam = PanCam {
        min_x: Some(fixed(0.)),
        max_x: Some(fixed(200.)),
        min_y: Some(fixed(0.)),
        max_y: Some(fixed(200.)),
        ..PanCam::default()
    };
    let view = window(100., 100.);
    // zooming out at the left upper corner would move the centre to the
    // right and down: (50 - 5, 150 + 5)
    let r = camera_zoom(&cam, state(50., 150., 1.), &vec![lines(-1.)], Some(vec2(0., 0.)), &view);
    // visible: 110, so the centre stays between 55 and 145
    assert_eq!(r, state(55., 145., 1.1));
}

#[test]
fn zoom_clamps_the_position_without_a_cursor_too() {
    let cam = PanCam { min_x: Some(fixed(0.)), max_x: Some(fixed(200.)), ..PanCam::default() };
    let r = camera_zoom(&cam, state(50., 0., 1.), &vec![lines(-1.)], None, &window(100., 100.));
    assert_eq!(r, state(55., 0., 1.1));
}

#[test]
fn zoom_in_a_window_without_extent_moves_nothing() {
    let cam = PanCam::default();
    let r = camera_zoom(&cam, state(10., 20., 1.), &vec![lines(1.)], Some(vec2(5., 5.)), &window(0., 0.));
    assert_eq!(r, state(10., 20., 0.9));
}

#[test]
fn scale_stays_representable() {
    let cam = PanCam::default();
    let top = ViewportState { position: vec2(0., 0.), scale: Fixed::from_raw(LIMIT) };
    let r = camera_zoom(&cam, top, &vec![lines(-1.)], None, &window(100., 100.));
    assert_eq!(r.scale.raw(), LIMIT);
    // the largest scroll that events can carry
    let most = ScrollEvent { unit: ScrollUnit::Line, amount: Fixed::from_raw(-LIMIT) };
    let events = vec![most; 4000];
    // a millionth grows by the factor 1 + 4 * 10^10
    let r = camera_zoom(&cam, state(0., 0., 0.000_001), &events, None, &window(100., 100.));
    assert_eq!(r.scale.raw(), 40_000_000_001);
    let r = camera_zoom(&cam, state(0., 0., 5.), &events, None, &window(100., 100.));
    assert_eq!(r.scale.raw(), LIMIT);
    let least = ScrollEvent { unit: ScrollUnit::Line, amount: Fixed::from_raw(LIMIT) };
    let events = vec![least; 4000];
    let r = camera_zoom(&cam, state(0., 0., 5.), &events, None, &window(100., 100.));
    assert_eq!(r.scale, cam.min_scale);
    // a scale of zero stays where min_scale puts it
    let r = camera_zoom(&cam, state(0., 0., 0.), &vec![most; 4000], None, &window(100., 100.));
    assert_eq!(r.scale, cam.min_scale);
}

#[test]
fn position_stays_representable() {
    let cam = PanCam { max_scale: None, ..PanCam::default() };
    let view = window(100., 100.);
    let edge = ViewportState { position: Vec2::new(Fixed::from_raw(LIMIT), Fixed::from_raw(-LIMIT)), scale: fixed(10.) };
    // zooming in on the right lower corner moves the centre right and down
    let r = camera_zoom(&cam, edge, &vec![lines(5.)], Some(vec2(100., 100.)), &view);
    assert_eq!(r.scale, fixed(5.));
    assert_eq!(r.position.x.raw(), LIMIT);
    assert_eq!(r.position.y.raw(), -LIMIT);
}
