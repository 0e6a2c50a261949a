use vstd::prelude::*;
use crate::geometry::{
    placed, Collidable, Point2D, ShapeType, MAX_DELTA, MAX_DIM, MAX_SPEED,
};
use crate::random::random_below;
use crate::shape::{palette, palette_spec, travel, travel_spec, Shape, PALETTE_LEN};

verus! {

/// Smallest enemy size (inclusive).
pub const ENEMY_MIN_SIZE: i64 = 16_000;

/// Largest enemy size (exclusive).
pub const ENEMY_MAX_SIZE: i64 = 64_000;

/// Smallest enemy speed (inclusive).
pub const ENEMY_MIN_SPEED: i64 = 50_000;

/// Largest enemy speed (exclusive).
pub const ENEMY_MAX_SPEED: i64 = 150_000;

/// Resolution of the horizontal spawn position: the free span of the
/// arena is cut into this many steps.
pub const SPAWN_STEPS: u32 = 1_048_576;

/// A falling enemy.
#[derive(Clone, Copy, Debug, PartialEq, Eq, Structural, Default)]
pub struct Enemy {
    pub shape: Shape,
}

/// A shape that can move without leaving the representable range.
pub open spec fn shape_wf(s: Shape) -> bool {
    &&& placed(s.position, s.size)
    &&& 0 <= s.speed <= MAX_SPEED
}

/// A live enemy: well-formed and not marked collided.
pub open spec fn enemy_wf(e: Enemy) -> bool {
    &&& shape_wf(e.shape)
    &&& !e.shape.collided
}

/// What every freshly spawned enemy shape satisfies in an arena of the
/// given width: a square with size in `[16, 64)` px, speed in `[50, 150)`
/// px/s, just above the top edge (`y == -size`), horizontally inside
/// `[size/2, width - size/2)` when the arena is wider than the enemy (at
/// `size/2` otherwise), with a palette colour.
pub open spec fn spawned_shape(s: Shape, width: i64) -> bool {
    &&& s.shape_type == ShapeType::Square
    &&& ENEMY_MIN_SIZE <= s.size < ENEMY_MAX_SIZE
    &&& ENEMY_MIN_SPEED <= s.speed < ENEMY_MAX_SPEED
    &&& s.position.y == -s.size
    &&& width - s.size > 0 ==> s.size / 2 <= s.position.x < width - s.size / 2
    &&& width - s.size <= 0 ==> s.position.x == s.size / 2
    &&& exists|i: int| 0 <= i < PALETTE_LEN && s.color == palette_spec(i)
    &&& !s.collided
}

/// The enemy after moving down for `delta_time` microseconds.
pub open spec fn fallen(e: Enemy, delta_time: i64) -> Enemy {
    Enemy {
        shape: Shape {
            position: Point2D {
                x: e.shape.position.x,
                y: (e.shape.position.y + travel_spec(e.shape.speed, delta_time)) as i64,
            },
            ..e.shape
        },
    }
}

/// Random draws that a spawn can be made from: offsets into the size and
/// speed ranges, a step of the free horizontal span, and a palette index.
pub open spec fn draws_ok(size_draw: int, speed_draw: int, step: int, colour: int) -> bool {
    &&& 0 <= size_draw < ENEMY_MAX_SIZE - ENEMY_MIN_SIZE
    &&& 0 <= speed_draw < ENEMY_MAX_SPEED - ENEMY_MIN_SPEED
    &&& 0 <= step < SPAWN_STEPS
    &&& 0 <= colour < PALETTE_LEN
}

/// The enemy shape made from the given draws in an arena of the given
/// width: size and speed offset from their minimums, horizontally at
/// `size/2` plus `step` steps of the free span `width - size` (at `size/2`
/// when there is none), just above the top edge.
pub open spec fn shape_from_draws(
    width: i64,
    size_draw: int,
    speed_draw: int,
    step: int,
    colour: int,
) -> Shape {
    let size = ENEMY_MIN_SIZE + size_draw;
    let x = if width - size > 0 {
        size / 2 + (width - size) * step / (SPAWN_STEPS as int)
    } else {
        size / 2
    };
    Shape {
        shape_type: ShapeType::Square,
        size: size as i64,
        speed: (ENEMY_MIN_SPEED + speed_draw) as i64,
        position: Point2D { x: x as i64, y: -size as i64 },
        color: palette_spec(colour),
        collided: false,
    }
}

/// Builds the shape of a new enemy from its random draws.
pub fn spawn_shape(width: i64, size_draw: u32, speed_draw: u32, step: u32, colour: usize) -> (r:
    Shape)
    requires
        0 <= width <= MAX_DIM,
        draws_ok(size_draw as int, speed_draw as int, step as int, colour as int),
    ensures
        r == shape_from_draws(width, size_draw as int, speed_draw as int, step as int, colour as int),
        spawned_shape(r, width),
        shape_wf(r),
{
    let size = ENEMY_MIN_SIZE + size_draw as i64;
    let speed = ENEMY_MIN_SPEED + speed_draw as i64;
    let half = size / 2;
    let span = width - size;
    let x = if span > 0 {
        let step = step as i64;
        assert(0 <= span * step < span * SPAWN_STEPS) by (nonlinear_arith)
            requires
                0 < span <= MAX_DIM,
                0 <= step < SPAWN_STEPS,
        ;
        assert(span * step / (SPAWN_STEPS as int) < span) by (nonlinear_arith)
            requires
                0 <= span * step < span * SPAWN_STEPS,
        ;
        half + span * step / SPAWN_STEPS as i64
    } else {
        half
    };
    Shape {
        shape_type: ShapeType::Square,
        size,
        speed,
        position: Point2D { x, y: -size },
        color: palette(colour),
        collided: false,
    }
}

/// Draws the four random values a spawn is made from.
pub(crate) fn draw_spawn() -> (r: (u32, u32, u32, usize))
    ensures
        draws_ok(r.0 as int, r.1 as int, r.2 as int, r.3 as int),
{
    let size_draw = random_below((ENEMY_MAX_SIZE - ENEMY_MIN_SIZE) as u32);
    let speed_draw = random_below((ENEMY_MAX_SPEED - ENEMY_MIN_SPEED) as u32);
    let step = random_below(SPAWN_STEPS);
    let colour = random_below(PALETTE_LEN as u32) as usize;
    (size_draw, speed_draw, step, colour)
}

impl Collidable for Enemy {
    open spec fn shape_type_spec(&self) -> ShapeType {
        self.shape.shape_type
    }

    open spec fn position_spec(&self) -> Point2D {
        self.shape.position
    }

    open spec fn size_spec(&self) -> i64 {
        self.shape.size
    }

    fn shape_type(&self) -> (r: ShapeType) {
        self.shape.shape_type
    }

    fn position(&self) -> (r: Point2D) {
        self.shape.position
    }

    fn size(&self) -> (r: i64) {
        self.shape.size
    }
}

impl Enemy {
    /// A new enemy at a random place above an arena of the given width.
    pub fn new(width: i64) -> (r: Enemy)
        requires
            0 <= width <= MAX_DIM,
        ensures
            exists|size_draw: int, speed_draw: int, step: int, colour: int|
                draws_ok(size_draw, speed_draw, step, colour) && r.shape == #[trigger] shape_from_draws(
                    width,
                    size_draw,
                    speed_draw,
                    step,
                    colour,
                ),
            spawned_shape(r.shape, width),
            enemy_wf(r),
    {
        Enemy { shape: Self::create_shape(width) }
    }

    pub fn get_speed(&self) -> (r: i64)
        ensures
            r == self.shape.speed,
    {
        self.shape.speed
    }

    /// Draws the random size, speed, position and colour of a new enemy.
    pub fn create_shape(width: i64) -> (r: Shape)
        requires
            0 <= width <= MAX_DIM,
        ensures
            exists|size_draw: int, speed_draw: int, step: int, colour: int|
                draws_ok(size_draw, speed_draw, step, colour) && r == #[trigger] shape_from_draws(
                    width,
                    size_draw,
                    speed_draw,
                    step,
                    colour,
                ),
            spawned_shape(r, width),
            shape_wf(r),
    {
        let (size_draw, speed_draw, step, colour) = draw_spawn();
        spawn_shape(width, size_draw, speed_draw, step, colour)
    }

    /// Moves the enemy down by its speed times `delta_time` microseconds.
    pub fn update(&mut self, delta_time: i64)
        requires
            shape_wf(old(self).shape),
            0 <= delta_time <= MAX_DELTA,
        ensures
            *final(self) == fallen(*old(self), delta_time),
    {
        let step = travel(self.shape.speed, delta_time);
        self.shape.position.y = self.shape.position.y + step;
    }
}

} // verus!
