//! Decimal fixed-point numbers: every length, scale and pixel count of the
//! camera is a whole number of millionths, kept within a hundred million
//! units either way.
//!
//! The range is chosen so that every product that the camera forms fits a
//! machine integer; a value that would leave it stays at its end.

use vstd::prelude::*;

verus! {

/// Raw steps in one unit: a value carries six decimal places.
pub const ONE: i64 = 1_000_000;

/// Largest magnitude that a raw value can take: one hundred million units.
pub const LIMIT: i64 = 100_000_000_000_000;

/// Whether `v` lies within the range that a [`Fixed`] can hold.
pub open spec fn representable(v: int) -> bool {
    -LIMIT <= v <= LIMIT
}

/// The representable value nearest to `v`.
pub open spec fn saturate(v: int) -> int {
    if v < -LIMIT {
        -(LIMIT as int)
    } else if v > LIMIT {
        LIMIT as int
    } else {
        v
    }
}

/// A signed decimal fixed-point number, counted in millionths of a unit.
#[derive(Clone, Copy, Debug, PartialEq, Eq, Structural)]
pub struct Fixed {
    raw: i64,
}

impl View for Fixed {
    type V = int;

    /// The number of millionths that the value stands for.
    closed spec fn view(&self) -> int {
        self.raw as int
    }
}

impl Fixed {
    #[verifier::type_invariant]
    spec fn in_range(self) -> bool {
        -LIMIT <= self.raw <= LIMIT
    }

    /// The value of `raw` millionths, brought into the representable range.
    pub fn from_raw(raw: i64) -> (r: Fixed)
        ensures
            r@ == saturate(raw as int),
    {
        if raw < -LIMIT {
            Fixed { raw: -LIMIT }
        } else if raw > LIMIT {
            Fixed { raw: LIMIT }
        } else {
            Fixed { raw }
        }
    }

    /// The value of `raw` millionths, for a count that a shorter integer
    /// may not hold, brought into the representable range.
    pub fn saturating(raw: i128) -> (r: Fixed)
        ensures
            r@ == saturate(raw as int),
    {
        if raw < -(LIMIT as i128) {
            Fixed { raw: -LIMIT }
        } else if raw > LIMIT as i128 {
            Fixed { raw: LIMIT }
        } else {
            Fixed { raw: raw as i64 }
        }
    }

    /// The value of `units` whole units, brought into the representable range.
    pub fn from_units(units: i64) -> (r: Fixed)
        ensures
            r@ == saturate(units as int * ONE as int),
    {
        assert(i128::MIN <= units as int * ONE as int <= i128::MAX) by (nonlinear_arith)
            requires
                ONE == 1_000_000,
                i64::MIN <= units <= i64::MAX,
        ;
        Fixed::saturating(units as i128 * ONE as i128)
    }

    /// The number of millionths that the value stands for.
    pub fn raw(&self) -> (r: i64)
        ensures
            r == self@,
            representable(r as int),
    {
        proof {
            use_type_invariant(self);
        }
        self.raw
    }
}

/// What an optional value stands for.
pub open spec fn opt_view(o: Option<Fixed>) -> Option<int> {
    match o {
        Some(f) => Some(f@),
        None => None,
    }
}

/// A pair of integers: what a [`Vec2`] stands for.
pub struct Vec2View {
    pub x: int,
    pub y: int,
}

/// A point or an extent in the plane.
#[derive(Clone, Copy, Debug, PartialEq, Eq, Structural)]
pub struct Vec2 {
    pub x: Fixed,
    pub y: Fixed,
}

impl View for Vec2 {
    type V = Vec2View;

    open spec fn view(&self) -> Vec2View {
        Vec2View { x: self.x@, y: self.y@ }
    }
}

impl Vec2 {
    /// The pair of `x` and `y`.
    pub fn new(x: Fixed, y: Fixed) -> (r: Vec2)
        ensures
            r == (Vec2 { x, y }),
    {
        Vec2 { x, y }
    }
}

/// What an optional point stands for.
pub open spec fn opt_vec2_view(o: Option<Vec2>) -> Option<Vec2View> {
    match o {
        Some(v) => Some(v@),
        None => None,
    }
}

} // verus!
