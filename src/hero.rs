use vstd::prelude::*;
use crate::geometry::{Collidable, Point2D, ShapeType, MAX_DELTA, MAX_DIM};
use crate::shape::{travel, travel_spec, Color, Shape};

verus! {

/// Side of the hero's hit-box.
pub const HERO_SIZE: i64 = 32_000;

/// The hero's movement speed, in units per second.
pub const MOVEMENT_SPEED: i64 = 200_000;

/// The player's controls as sampled for one frame.
#[derive(Clone, Copy, Debug, PartialEq, Eq, Structural, Default)]
pub struct Controls {
    /// Movement keys held down.
    pub up: bool,
    pub down: bool,
    pub left: bool,
    pub right: bool,
    /// The fire key went down this frame.
    pub fire: bool,
    /// The cancel key is held down.
    pub cancel_held: bool,
    /// The cancel key went down this frame.
    pub cancel_pressed: bool,
    /// The confirm key went down this frame.
    pub confirm: bool,
}

/// Which way the ship leans, for its animation.
#[derive(Clone, Copy, Debug, PartialEq, Eq, Structural, Default)]
pub enum Bank {
    #[default]
    Level,
    Left,
    Right,
}

/// What the renderer learns from one frame of steering.
#[derive(Clone, Copy, Debug, PartialEq, Eq, Structural, Default)]
pub struct Steering {
    pub bank: Bank,
    /// `1` when only right is held, `-1` when only left is held, else `0`:
    /// the background scrolls by this times `delta_time`.
    pub scroll: i64,
}

/// The steering reported for a frame of input: leaning left wins over
/// leaning right, and opposite keys cancel in the scroll.
pub open spec fn steering_for(c: Controls) -> Steering {
    Steering {
        bank: if c.left {
            Bank::Left
        } else if c.right {
            Bank::Right
        } else {
            Bank::Level
        },
        scroll: ((if c.right {
            1int
        } else {
            0
        }) - (if c.left {
            1int
        } else {
            0
        })) as i64,
    }
}

/// `v` bounded to `[lo, hi]`: `lo` below it, else `hi` above it.
pub open spec fn clamp_spec(v: int, lo: int, hi: int) -> int {
    if v < lo {
        lo
    } else if v > hi {
        hi
    } else {
        v
    }
}

pub fn clamp(v: i64, lo: i64, hi: i64) -> (r: i64)
    ensures
        r == clamp_spec(v as int, lo as int, hi as int),
{
    if v < lo {
        lo
    } else if v > hi {
        hi
    } else {
        v
    }
}

/// The hero's shape at the start of a session in an arena of the given size.
pub open spec fn hero_start(width: i64, height: i64) -> Shape {
    Shape {
        shape_type: ShapeType::Circle,
        size: HERO_SIZE,
        speed: MOVEMENT_SPEED,
        position: Point2D { x: (width / 2) as i64, y: (height / 2) as i64 },
        color: Color::Yellow,
        collided: false,
    }
}

/// Offset along one axis for a pair of opposing keys.
pub open spec fn axis(plus: bool, minus: bool, step: int) -> int {
    (if plus {
        step
    } else {
        0
    }) - (if minus {
        step
    } else {
        0
    })
}

/// The hero's shape after one frame of input: every held movement key
/// moves it by `speed * delta_time` along its axis, then each coordinate is
/// clamped so that the whole circle stays inside the arena.
pub open spec fn steered(s: Shape, c: Controls, delta_time: i64, width: i64, height: i64) -> Shape {
    let step = travel_spec(s.speed, delta_time);
    let radius = s.size / 2;
    Shape {
        position: Point2D {
            x: clamp_spec(s.position.x + axis(c.right, c.left, step), radius, width - radius) as i64,
            y: clamp_spec(s.position.y + axis(c.down, c.up, step), radius, height - radius) as i64,
        },
        ..s
    }
}

/// The player's ship.
pub struct Hero {
    shape: Shape,
}

impl View for Hero {
    type V = Shape;

    closed spec fn view(&self) -> Shape {
        self.shape
    }
}

impl Collidable for Hero {
    open spec fn shape_type_spec(&self) -> ShapeType {
        self@.shape_type
    }

    open spec fn position_spec(&self) -> Point2D {
        self@.position
    }

    open spec fn size_spec(&self) -> i64 {
        self@.size
    }

    fn shape_type(&self) -> (r: ShapeType) {
        self.shape.shape_type
    }

    fn position(&self) -> (r: Point2D) {
        self.shape.position
    }

    fn size(&self) -> (r: i64) {
        self.shape.size
    }
}

impl Hero {
    /// A circle of the hero's size and speed, not far outside the arena.
    pub open spec fn wf(&self) -> bool {
        &&& self@.shape_type == ShapeType::Circle
        &&& self@.size == HERO_SIZE
        &&& self@.speed == MOVEMENT_SPEED
        &&& -MAX_DIM <= self@.position.x <= MAX_DIM
        &&& -MAX_DIM <= self@.position.y <= MAX_DIM
        &&& !self@.collided
    }

    /// The hero at the centre of an arena of the given size.
    pub fn new(width: i64, height: i64) -> (r: Hero)
        requires
            0 <= width <= MAX_DIM,
            0 <= height <= MAX_DIM,
        ensures
            r@ == hero_start(width, height),
            r.wf(),
    {
        Hero { shape: Self::create_shape(width, height) }
    }

    fn create_shape(width: i64, height: i64) -> (r: Shape)
        requires
            0 <= width <= MAX_DIM,
            0 <= height <= MAX_DIM,
        ensures
            r == hero_start(width, height),
    {
        Shape {
            shape_type: ShapeType::Circle,
            size: HERO_SIZE,
            speed: MOVEMENT_SPEED,
            position: Point2D { x: width / 2, y: height / 2 },
            color: Color::Yellow,
            collided: false,
        }
    }

    pub fn get_speed(&self) -> (r: i64)
        ensures
            r == self@.speed,
    {
        self.shape.speed
    }

    /// Puts the hero back at the centre of an arena of the given size.
    pub fn restart(&mut self, width: i64, height: i64)
        requires
            0 <= width <= MAX_DIM,
            0 <= height <= MAX_DIM,
        ensures
            final(self)@ == hero_start(width, height),
            final(self).wf(),
    {
        self.shape = Self::create_shape(width, height);
    }

    /// Moves the hero by the held movement keys for `delta_time`
    /// microseconds and keeps it inside the arena. Whenever the arena is at
    /// least as wide (high) as the hero, the hero's centre ends in
    /// `[radius, width - radius]` (`[radius, height - radius]`).
    pub fn check_inputs(&mut self, delta_time: i64, controls: &Controls, width: i64, height: i64) -> (r:
        Steering)
        requires
            old(self).wf(),
            0 <= delta_time <= MAX_DELTA,
            0 <= width <= MAX_DIM,
            0 <= height <= MAX_DIM,
        ensures
            final(self)@ == steered(old(self)@, *controls, delta_time, width, height),
            final(self).wf(),
            width >= HERO_SIZE ==> HERO_SIZE / 2 <= final(self)@.position.x <= width - HERO_SIZE
                / 2,
            height >= HERO_SIZE ==> HERO_SIZE / 2 <= final(self)@.position.y <= height - HERO_SIZE
                / 2,
            r == steering_for(*controls),
    {
        let step = travel(self.shape.speed, delta_time);
        let radius = self.shape.size / 2;
        let mut bank = Bank::Level;
        let mut scroll: i64 = 0;
        let mut x = self.shape.position.x;
        let mut y = self.shape.position.y;
        if controls.right {
            x = x + step;
            scroll = scroll + 1;
            bank = Bank::Right;
        }
        if controls.left {
            x = x - step;
            scroll = scroll - 1;
            bank = Bank::Left;
        }
        if controls.down {
            y = y + step;
        }
        if controls.up {
            y = y - step;
        }
        self.shape.position.x = clamp(x, radius, width - radius);
        self.shape.position.y = clamp(y, radius, height - radius);
        Steering { bank, scroll }
    }
}

} // verus!
