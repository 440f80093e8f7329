//! What the input layer reports in one tick: buttons, scroll events and the
//! focus that an overlay claims.
//!
//! Buttons are read from the engine's own record of them, which is not
//! looked into: what this module takes on trust of it is said at each item
//! that asks it.

use crate::fixed::{Fixed, LIMIT};
use bevy::input::mouse::MouseButton;
use bevy::input::Input;
use vstd::prelude::*;

verus! {

/// Pixels that one scrolled line counts for.
pub const PIXELS_PER_LINE: i64 = 100;

/// The engine's record of what is pressed, `bevy::input::Input`: a value
/// that is carried, never looked into.
#[verifier::external_type_specification]
#[verifier::external_body]
#[verifier::reject_recursive_types(T)]
pub struct ExInput<T: Copy + Eq + core::hash::Hash + Send + Sync + 'static>(Input<T>);

/// The engine's name for a button, `bevy::input::mouse::MouseButton`: a
/// value that is carried, never looked into.
#[verifier::external_type_specification]
#[verifier::external_body]
pub struct ExMouseButton(MouseButton);

/// A button of a pointer device.
#[derive(Clone, Copy, Debug, PartialEq, Eq, Structural)]
pub enum Button {
    Left,
    Right,
    Middle,
    Other(u16),
}

/// The unit in which a scroll event counts.
#[derive(Clone, Copy, Debug, PartialEq, Eq, Structural)]
pub enum ScrollUnit {
    /// The amount is a number of lines.
    Line,
    /// The amount is a number of pixels.
    Pixel,
}

/// One turn of the scroll wheel.
#[derive(Clone, Copy, Debug, PartialEq, Eq, Structural)]
pub struct ScrollEvent {
    pub unit: ScrollUnit,
    /// How far the wheel was turned, in the unit of the event.
    pub amount: Fixed,
}

/// What an overlay answers when it is asked what input it wants for
/// itself.
#[derive(Clone, Copy, Debug, PartialEq, Eq, Structural)]
pub struct EguiFocus {
    pub wants_pointer_input: bool,
    pub wants_keyboard_input: bool,
}

/// What a scroll event counts for, in pixels.
pub open spec fn scroll_pixels(ev: ScrollEvent) -> int {
    match ev.unit {
        ScrollUnit::Pixel => ev.amount@,
        ScrollUnit::Line => ev.amount@ * PIXELS_PER_LINE,
    }
}

/// The sum of what the events count for, in pixels.
pub open spec fn net_scroll(events: Seq<ScrollEvent>) -> int
    decreases events.len(),
{
    if events.len() == 0 {
        0
    } else {
        net_scroll(events.drop_last()) + scroll_pixels(events.last())
    }
}

/// The buttons that the record holds as down: those for which
/// `bevy::input::Input::pressed` answers yes.
pub uninterp spec fn pressed_buttons(input: Input<MouseButton>) -> Set<Button>;

/// The buttons that the record holds as having gone down in this tick:
/// those for which `bevy::input::Input::just_pressed` answers yes.
pub uninterp spec fn just_pressed_buttons(input: Input<MouseButton>) -> Set<Button>;

/// Whether `button` is down and was so before this tick.
pub open spec fn is_held(pressed: Set<Button>, just_pressed: Set<Button>, button: Button) -> bool {
    pressed.contains(button) && !just_pressed.contains(button)
}

/// Whether one of `grab_buttons` is held.
pub open spec fn any_held(grab_buttons: Seq<Button>, pressed: Set<Button>, just_pressed: Set<Button>) -> bool {
    exists|i: int| 0 <= i < grab_buttons.len() && is_held(pressed, just_pressed, #[trigger] grab_buttons[i])
}

/// Calls `bevy::input::Input::pressed` with the engine's name of `button`.
/// Taken on trust: the answer is whether the record holds the button as
/// down, and the call always returns.
#[verifier::external_body]
fn button_pressed(input: &Input<MouseButton>, button: Button) -> (r: bool)
    ensures
        r == pressed_buttons(*input).contains(button),
{
    input.pressed(
        match button {
            Button::Left => MouseButton::Left,
            Button::Right => MouseButton::Right,
            Button::Middle => MouseButton::Middle,
            Button::Other(code) => MouseButton::Other(code),
        },
    )
}

/// Calls `bevy::input::Input::just_pressed` with the engine's name of
/// `button`. Taken on trust: the answer is whether the record holds the
/// button as having gone down in this tick, and the call always returns.
#[verifier::external_body]
fn button_just_pressed(input: &Input<MouseButton>, button: Button) -> (r: bool)
    ensures
        r == just_pressed_buttons(*input).contains(button),
{
    input.just_pressed(
        match button {
            Button::Left => MouseButton::Left,
            Button::Right => MouseButton::Right,
            Button::Middle => MouseButton::Middle,
            Button::Other(code) => MouseButton::Other(code),
        },
    )
}

/// Whether one of `grab_buttons` is down and was so before this tick.
pub fn grab_held(grab_buttons: &Vec<Button>, input: &Input<MouseButton>) -> (r: bool)
    ensures
        r == any_held(grab_buttons@, pressed_buttons(*input), just_pressed_buttons(*input)),
{
    let mut i: usize = 0;
    while i < grab_buttons.len()
        invariant
            i <= grab_buttons.len(),
            forall|j: int|
                0 <= j < i ==> !is_held(
                    pressed_buttons(*input),
                    just_pressed_buttons(*input),
                    #[trigger] grab_buttons@[j],
                ),
        decreases grab_buttons.len() - i,
    {
        let button = grab_buttons[i];
        if button_pressed(input, button) && !button_just_pressed(input, button) {
            return true;
        }
        i += 1;
    }
    false
}

/// The net scroll of a tick, in pixels: a line counts for
/// [`PIXELS_PER_LINE`] pixels.
pub fn scroll_total(events: &Vec<ScrollEvent>) -> (total: i128)
    ensures
        total == net_scroll(events@),
{
    let mut total: i128 = 0;
    let mut i: usize = 0;
    while i < events.len()
        invariant
            i <= events.len(),
            total == net_scroll(events@.subrange(0, i as int)),
            -(i as int) * 10_000_000_000_000_000 <= total <= (i as int) * 10_000_000_000_000_000,
        decreases events.len() - i,
    {
        let ev = events[i];
        let amount: i128 = ev.amount.raw() as i128;
        assert(PIXELS_PER_LINE == 100 && LIMIT == 100_000_000_000_000);
        let pixels: i128 = match ev.unit {
            ScrollUnit::Pixel => amount,
            ScrollUnit::Line => amount * (PIXELS_PER_LINE as i128),
        };
        proof {
            let next = events@.subrange(0, i as int + 1);
            assert(next.drop_last() == events@.subrange(0, i as int));
            assert(next.last() == ev);
        }
        total = total + pixels;
        i += 1;
    }
    proof {
        assert(events@.subrange(0, events.len() as int) == events@);
    }
    total
}

/// Whether an overlay claims the input of this tick: it does where there is
/// one and it wants the pointer or the keyboard.
pub fn check_egui_wants_focus(ctx: Option<EguiFocus>) -> (wants_focus: bool)
    ensures
        wants_focus == match ctx {
            Some(c) => c.wants_pointer_input || c.wants_keyboard_input,
            None => false,
        },
{
    match ctx {
        Some(c) => c.wants_pointer_input || c.wants_keyboard_input,
        None => false,
    }
}

} // verus!
