use vstd::prelude::*;
use crate::geometry::{Collidable, Point2D, ShapeType, MAX_DELTA, MAX_SIZE, MAX_STEP, MAX_SPEED, MICROS, UNIT};

verus! {

/// The display colour of a shape.
#[derive(Clone, Copy, Debug, PartialEq, Eq, Structural, Default)]
pub enum Color {
    #[default]
    White,
    Yellow,
    DarkPurple,
    Blue,
    Green,
    Red,
    Purple,
    Orange,
    Pink,
    Brown,
    Gray,
    DarkBlue,
    DarkGreen,
}

/// Number of colours enemies are drawn from.
pub const PALETTE_LEN: usize = 11;

/// The enemy palette, in order.
pub open spec fn palette_spec(i: int) -> Color {
    if i == 0 {
        Color::DarkPurple
    } else if i == 1 {
        Color::Blue
    } else if i == 2 {
        Color::Green
    } else if i == 3 {
        Color::Red
    } else if i == 4 {
        Color::Purple
    } else if i == 5 {
        Color::Orange
    } else if i == 6 {
        Color::Pink
    } else if i == 7 {
        Color::Brown
    } else if i == 8 {
        Color::Gray
    } else if i == 9 {
        Color::DarkBlue
    } else {
        Color::DarkGreen
    }
}

/// The colour at index `i` of the enemy palette.
pub fn palette(i: usize) -> (r: Color)
    requires
        i < PALETTE_LEN,
    ensures
        r == palette_spec(i as int),
{
    match i {
        0 => Color::DarkPurple,
        1 => Color::Blue,
        2 => Color::Green,
        3 => Color::Red,
        4 => Color::Purple,
        5 => Color::Orange,
        6 => Color::Pink,
        7 => Color::Brown,
        8 => Color::Gray,
        9 => Color::DarkBlue,
        _ => Color::DarkGreen,
    }
}

/// The geometric and kinematic state of an entity.
#[derive(Clone, Copy, Debug, PartialEq, Eq, Structural, Default)]
pub struct Shape {
    pub shape_type: ShapeType,
    /// Side of the hit-box.
    pub size: i64,
    /// Units per second; the owning entity decides the direction.
    pub speed: i64,
    pub position: Point2D,
    pub color: Color,
    /// Set by collision resolution on an entity about to be removed.
    pub collided: bool,
}

impl Collidable for Shape {
    open spec fn shape_type_spec(&self) -> ShapeType {
        self.shape_type
    }

    open spec fn position_spec(&self) -> Point2D {
        self.position
    }

    open spec fn size_spec(&self) -> i64 {
        self.size
    }

    fn shape_type(&self) -> (r: ShapeType) {
        self.shape_type
    }

    fn position(&self) -> (r: Point2D) {
        self.position
    }

    fn size(&self) -> (r: i64) {
        self.size
    }
}

/// Distance covered at `speed` units per second during `delta_time`
/// microseconds, rounded down.
pub open spec fn travel_spec(speed: i64, delta_time: i64) -> int {
    (speed * delta_time) / (MICROS as int)
}

pub fn travel(speed: i64, delta_time: i64) -> (r: i64)
    requires
        0 <= speed <= MAX_SPEED,
        0 <= delta_time <= MAX_DELTA,
    ensures
        r == travel_spec(speed, delta_time),
        0 <= r <= MAX_STEP,
{
    assert(0 <= speed * delta_time <= MAX_SPEED * MAX_DELTA) by (nonlinear_arith)
        requires
            0 <= speed <= MAX_SPEED,
            0 <= delta_time <= MAX_DELTA,
    ;
    (speed * delta_time) / MICROS
}

/// A non-negative length rounded to the nearest whole pixel, halves up.
pub open spec fn round_spec(v: i64) -> int {
    (v + UNIT / 2) / (UNIT as int)
}

pub fn round_units(v: i64) -> (r: u32)
    requires
        0 <= v <= MAX_SIZE,
    ensures
        r == round_spec(v),
        r <= MAX_SIZE / UNIT + 1,
{
    ((v + UNIT / 2) / UNIT) as u32
}

/// Number of particles in the explosion left by an entity of the given
/// size: four per whole pixel of its rounded size.
pub fn explosion_particles(size: i64) -> (r: u32)
    requires
        0 <= size <= MAX_SIZE,
    ensures
        r == 4 * round_spec(size),
{
    round_units(size) * 4
}

} // verus!
