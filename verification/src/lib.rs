//! A camera for a two-dimensional world that pans with the mouse, zooms
//! with the scroll wheel and stays inside a rectangle of the world, with a
//! proof of what it does.
//!
//! Every quantity is a decimal fixed-point number ([`fixed::Fixed`]), so that
//! each result is a function of integers that can be stated and proved:
//! [`camera`] holds the operations and what they give, [`laws`] what holds of
//! them whatever they are given, [`axis`] the arithmetic of one axis,
//! [`input`] what a tick brings in, and [`level`] and [`game`] the rules of
//! the game that the camera is shown with.

pub mod arith;
pub mod axis;
pub mod camera;
pub mod fixed;
pub mod game;
pub mod input;
pub mod laws;
pub mod level;
