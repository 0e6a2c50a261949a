use vstd::prelude::*;

verus! {

/// Number of fixed-point units in one pixel.
pub const UNIT: i64 = 1000;

/// Largest absolute value of a coordinate held by any entity.
pub const MAX_COORD: i64 = 1_000_000_000_000;

/// Largest size (extent) of an entity.
pub const MAX_SIZE: i64 = 1_000_000_000;

/// Largest arena width or height.
pub const MAX_DIM: i64 = 1_000_000_000;

/// Largest speed of an entity, in units per second.
pub const MAX_SPEED: i64 = 1_000_000_000;

/// Largest time step, in microseconds.
pub const MAX_DELTA: i64 = 1_000_000_000;

/// Microseconds in one second.
pub const MICROS: i64 = 1_000_000;

/// Longest distance an entity covers in one time step.
pub const MAX_STEP: i64 = 1_000_000_000_000;

/// A point of the arena; `y` grows downwards.
#[derive(Clone, Copy, Debug, PartialEq, Eq, Structural, Default)]
pub struct Point2D {
    pub x: i64,
    pub y: i64,
}

impl Point2D {
    pub fn new(x: i64, y: i64) -> (r: Point2D)
        ensures
            r == (Point2D { x, y }),
    {
        Point2D { x, y }
    }
}

/// An axis-aligned rectangle: top-left corner, width and height.
#[derive(Clone, Copy, Debug, PartialEq, Eq, Structural)]
pub struct Rect {
    pub x: i64,
    pub y: i64,
    pub w: i64,
    pub h: i64,
}

/// Two rectangles overlap when no axis separates them; touching edges count.
pub open spec fn rects_overlap(a: Rect, b: Rect) -> bool {
    &&& a.x <= b.x + b.w
    &&& a.x + a.w >= b.x
    &&& a.y <= b.y + b.h
    &&& a.y + a.h >= b.y
}

/// A rectangle whose corners stay far from the limits of `i64`.
pub open spec fn rect_in_range(r: Rect) -> bool {
    &&& -2 * MAX_COORD <= r.x <= 2 * MAX_COORD
    &&& -2 * MAX_COORD <= r.y <= 2 * MAX_COORD
    &&& 0 <= r.w <= MAX_SIZE
    &&& 0 <= r.h <= MAX_SIZE
}

impl Rect {
    pub fn overlaps(&self, other: &Rect) -> (r: bool)
        requires
            rect_in_range(*self),
            rect_in_range(*other),
        ensures
            r == rects_overlap(*self, *other),
    {
        self.x <= other.x + other.w && self.x + self.w >= other.x && self.y <= other.y + other.h
            && self.y + self.h >= other.y
    }
}

/// How an entity's position anchors its hit-box.
#[derive(Clone, Copy, Debug, PartialEq, Eq, Structural, Default)]
pub enum ShapeType {
    /// The position is the top-left corner of the hit-box.
    #[default]
    Square,
    /// The position is the centre of the hit-box.
    Circle,
}

/// The hit-box of an entity: a square of side `size`, anchored at its
/// top-left corner for a `Square` and at its centre for a `Circle`.
pub open spec fn hitbox(shape_type: ShapeType, p: Point2D, size: i64) -> Rect {
    match shape_type {
        ShapeType::Circle => Rect {
            x: (p.x - size / 2) as i64,
            y: (p.y - size / 2) as i64,
            w: size,
            h: size,
        },
        ShapeType::Square => Rect { x: p.x, y: p.y, w: size, h: size },
    }
}

/// A position and a size that an entity can hold.
pub open spec fn placed(p: Point2D, size: i64) -> bool {
    &&& -MAX_COORD <= p.x <= MAX_COORD
    &&& -MAX_COORD <= p.y <= MAX_COORD
    &&& 0 < size <= MAX_SIZE
}

/// Anything with a shape type, a position and a size, and so a hit-box.
pub trait Collidable: Sized {
    spec fn shape_type_spec(&self) -> ShapeType;

    spec fn position_spec(&self) -> Point2D;

    spec fn size_spec(&self) -> i64;

    fn shape_type(&self) -> (r: ShapeType)
        ensures
            r == self.shape_type_spec(),
    ;

    fn position(&self) -> (r: Point2D)
        ensures
            r == self.position_spec(),
    ;

    fn size(&self) -> (r: i64)
        ensures
            r == self.size_spec(),
    ;

    fn rect(&self) -> (r: Rect)
        requires
            placed(self.position_spec(), self.size_spec()),
        ensures
            r == hitbox(self.shape_type_spec(), self.position_spec(), self.size_spec()),
            rect_in_range(r),
    {
        let pos = self.position();
        let size = self.size();
        match self.shape_type() {
            ShapeType::Circle => Rect { x: pos.x - size / 2, y: pos.y - size / 2, w: size, h: size },
            ShapeType::Square => Rect { x: pos.x, y: pos.y, w: size, h: size },
        }
    }

}

/// Two entities collide when their hit-boxes overlap.
pub open spec fn collide<A: Collidable, B: Collidable>(a: &A, b: &B) -> bool {
    rects_overlap(
        hitbox(a.shape_type_spec(), a.position_spec(), a.size_spec()),
        hitbox(b.shape_type_spec(), b.position_spec(), b.size_spec()),
    )
}

/// Whether the hit-boxes of `a` and `b` overlap.
pub fn collides_with<A: Collidable, B: Collidable>(a: &A, b: &B) -> (r: bool)
    requires
        placed(a.position_spec(), a.size_spec()),
        placed(b.position_spec(), b.size_spec()),
    ensures
        r == collide(a, b),
{
    a.rect().overlaps(&b.rect())
}

} // verus!
