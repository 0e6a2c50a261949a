use vstd::prelude::*;
use crate::enemy::shape_wf;
use crate::geometry::{Collidable, Point2D, ShapeType, MAX_DELTA};
use crate::hero::Hero;
use crate::shape::{travel, travel_spec, Color, Shape};

verus! {

/// Side of a bullet's hit-box.
pub const BULLET_SIZE: i64 = 32_000;

/// How far above the hero's position a bullet appears.
pub const BULLET_OFFSET: i64 = 24_000;

/// A projectile flying up from the hero.
#[derive(Clone, Copy, Debug, PartialEq, Eq, Structural, Default)]
pub struct Bullet {
    pub shape: Shape,
}

/// A bullet in flight: well-formed and not marked collided.
pub open spec fn bullet_wf(b: Bullet) -> bool {
    &&& shape_wf(b.shape)
    &&& !b.shape.collided
}

/// The bullet fired by a hero whose shape is `h`: a square at the hero's
/// position raised by the offset, at twice the hero's speed.
pub open spec fn fired_from(h: Shape) -> Bullet {
    Bullet {
        shape: Shape {
            shape_type: ShapeType::Square,
            size: BULLET_SIZE,
            speed: (h.speed * 2) as i64,
            position: Point2D { x: h.position.x, y: (h.position.y - BULLET_OFFSET) as i64 },
            color: Color::Red,
            collided: false,
        },
    }
}

/// The bullet after moving up for `delta_time` microseconds.
pub open spec fn risen(b: Bullet, delta_time: i64) -> Bullet {
    Bullet {
        shape: Shape {
            position: Point2D {
                x: b.shape.position.x,
                y: (b.shape.position.y - travel_spec(b.shape.speed, delta_time)) as i64,
            },
            ..b.shape
        },
    }
}

impl Collidable for Bullet {
    open spec fn shape_type_spec(&self) -> ShapeType {
        self.shape.shape_type
    }

    open spec fn position_spec(&self) -> Point2D {
        self.shape.position
    }

    open spec fn size_spec(&self) -> i64 {
        self.shape.size
    }

    fn shape_type(&self) -> (r: ShapeType) {
        self.shape.shape_type
    }

    fn position(&self) -> (r: Point2D) {
        self.shape.position
    }

    fn size(&self) -> (r: i64) {
        self.shape.size
    }
}

impl Bullet {
    /// A bullet fired by `hero`.
    pub fn new(hero: &Hero) -> (r: Bullet)
        requires
            hero.wf(),
        ensures
            r == fired_from(hero@),
            bullet_wf(r),
    {
        let mut shape = Shape {
            shape_type: ShapeType::Square,
            size: BULLET_SIZE,
            speed: hero.get_speed() * 2,
            position: hero.position(),
            color: Color::Red,
            collided: false,
        };
        shape.position.y = shape.position.y - BULLET_OFFSET;
        Bullet { shape }
    }

    pub fn get_speed(&self) -> (r: i64)
        ensures
            r == self.shape.speed,
    {
        self.shape.speed
    }

    pub fn get_collided(&self) -> (r: bool)
        ensures
            r == self.shape.collided,
    {
        self.shape.collided
    }

    pub fn set_collided(&mut self, collided: bool)
        ensures
            *final(self) == (Bullet { shape: Shape { collided, ..old(self).shape } }),
    {
        self.shape.collided = collided;
    }

    /// Moves the bullet up by its speed times `delta_time` microseconds.
    pub fn update(&mut self, delta_time: i64)
        requires
            shape_wf(old(self).shape),
            0 <= delta_time <= MAX_DELTA,
        ensures
            *final(self) == risen(*old(self), delta_time),
    {
        let step = travel(self.shape.speed, delta_time);
        self.shape.position.y = self.shape.position.y - step;
    }
}

} // verus!
