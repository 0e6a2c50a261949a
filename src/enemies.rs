use vstd::prelude::*;
use crate::enemy::{
    draw_spawn, draws_ok, enemy_wf, fallen, shape_from_draws, spawn_shape, spawned_shape, Enemy,
};
use crate::geometry::{collide, collides_with, Collidable, MAX_DELTA, MAX_DIM, MAX_SPEED};
use crate::random::random_below;
use crate::shape::Shape;

verus! {

/// Number of equally likely outcomes of the per-frame spawn roll.
pub const SPAWN_ROLL_OUTCOMES: u32 = 100;

/// Smallest roll that spawns an enemy.
pub const SPAWN_THRESHOLD: u32 = 95;

/// The enemy as marked by collision resolution.
pub open spec fn marked(e: Enemy) -> Enemy {
    Enemy { shape: Shape { collided: true, ..e.shape } }
}

/// The enemies of `s` that do not collide with `other`, in order.
pub open spec fn survivors<T: Collidable>(s: Seq<Enemy>, other: T) -> Seq<Enemy>
    decreases s.len(),
{
    if s.len() == 0 {
        s
    } else {
        let rest = survivors(s.drop_last(), other);
        if collide(&s.last(), &other) {
            rest
        } else {
            rest.push(s.last())
        }
    }
}

/// The enemies of `s` that collide with `other`, in order, marked collided.
pub open spec fn destroyed<T: Collidable>(s: Seq<Enemy>, other: T) -> Seq<Enemy>
    decreases s.len(),
{
    if s.len() == 0 {
        s
    } else {
        let rest = destroyed(s.drop_last(), other);
        if collide(&s.last(), &other) {
            rest.push(marked(s.last()))
        } else {
            rest
        }
    }
}

/// Each enemy of `s` moved down for `delta_time`, keeping those whose top
/// edge is still above `height + size`.
pub open spec fn fall_all(s: Seq<Enemy>, delta_time: i64, height: i64) -> Seq<Enemy>
    decreases s.len(),
{
    if s.len() == 0 {
        s
    } else {
        let rest = fall_all(s.drop_last(), delta_time, height);
        let e = fallen(s.last(), delta_time);
        if e.shape.position.y < height + e.shape.size {
            rest.push(e)
        } else {
            rest
        }
    }
}

/// `s` with the enemy spawned this frame, if any, added after the others.
pub open spec fn with_spawn(s: Seq<Enemy>, spawned: Option<Enemy>) -> Seq<Enemy> {
    match spawned {
        Some(e) => s.push(e),
        None => s,
    }
}

/// Whether a spawn roll in `0..100` spawns an enemy.
pub open spec fn spawn_hit(roll: u32) -> bool {
    roll >= SPAWN_THRESHOLD
}

/// Whether the spawn roll `roll`, drawn uniformly from `0..100`, spawns an
/// enemy this frame.
pub fn spawns(roll: u32) -> (r: bool)
    requires
        roll < SPAWN_ROLL_OUTCOMES,
    ensures
        r == spawn_hit(roll),
{
    roll >= SPAWN_THRESHOLD
}

/// The outcome of a spawn roll, given the draws a new enemy is made from:
/// that enemy when the roll spawns, else nothing.
pub open spec fn spawn_outcome(
    roll: u32,
    width: i64,
    size_draw: int,
    speed_draw: int,
    step: int,
    colour: int,
) -> Option<Enemy> {
    if spawn_hit(roll) {
        Some(Enemy { shape: shape_from_draws(width, size_draw, speed_draw, step, colour) })
    } else {
        None
    }
}

/// Decides from the spawn roll whether the enemy made from the given draws
/// joins the game this frame.
pub fn spawn_from_roll(
    roll: u32,
    width: i64,
    size_draw: u32,
    speed_draw: u32,
    step: u32,
    colour: usize,
) -> (r: Option<Enemy>)
    requires
        roll < SPAWN_ROLL_OUTCOMES,
        0 <= width <= MAX_DIM,
        draws_ok(size_draw as int, speed_draw as int, step as int, colour as int),
    ensures
        r == spawn_outcome(roll, width, size_draw as int, speed_draw as int, step as int, colour as int),
        r is Some ==> spawned_shape(r->0.shape, width) && enemy_wf(r->0),
{
    if spawns(roll) {
        Some(Enemy { shape: spawn_shape(width, size_draw, speed_draw, step, colour) })
    } else {
        None
    }
}

/// Rolls the per-frame spawn chance and, on a hit, draws a new enemy.
pub fn try_spawn(width: i64) -> (r: Option<Enemy>)
    requires
        0 <= width <= MAX_DIM,
    ensures
        exists|roll: u32, size_draw: int, speed_draw: int, step: int, colour: int|
            roll < SPAWN_ROLL_OUTCOMES && draws_ok(size_draw, speed_draw, step, colour) && r
                == #[trigger] spawn_outcome(roll, width, size_draw, speed_draw, step, colour),
        r is Some ==> spawned_shape(r->0.shape, width) && enemy_wf(r->0),
{
    let roll = random_below(SPAWN_ROLL_OUTCOMES);
    if spawns(roll) {
        let (size_draw, speed_draw, step, colour) = draw_spawn();
        spawn_from_roll(roll, width, size_draw, speed_draw, step, colour)
    } else {
        let r = None;
        assert(r == spawn_outcome(roll, width, 0, 0, 0, 0));
        r
    }
}

/// The live enemies, in spawn order.
pub struct Enemies {
    list: Vec<Enemy>,
}

impl View for Enemies {
    type V = Seq<Enemy>;

    closed spec fn view(&self) -> Seq<Enemy> {
        self.list@
    }
}

/// Every enemy of `s` is live.
pub open spec fn all_live(s: Seq<Enemy>) -> bool {
    forall|i: int| 0 <= i < s.len() ==> enemy_wf(#[trigger] s[i])
}

/// Every survivor is an enemy of `s` that does not collide with `other`.
pub proof fn lemma_survivors_from<T: Collidable>(s: Seq<Enemy>, other: T)
    ensures
        survivors(s, other).len() <= s.len(),
        forall|k: int|
            0 <= k < survivors(s, other).len() ==> s.contains(#[trigger] survivors(s, other)[k])
                && !collide(&survivors(s, other)[k], &other),
    decreases s.len(),
{
    if s.len() > 0 {
        lemma_survivors_from(s.drop_last(), other);
        let rest = survivors(s.drop_last(), other);
        assert forall|k: int| 0 <= k < rest.len() implies s.contains(#[trigger] rest[k]) by {
            let j = choose|j: int| 0 <= j < s.drop_last().len() && s.drop_last()[j] == rest[k];
            assert(s[j] == rest[k]);
        }
        assert(s[s.len() - 1] == s.last());
    }
}

/// Every destroyed enemy is an enemy of `s` marked collided.
pub proof fn lemma_destroyed_from<T: Collidable>(s: Seq<Enemy>, other: T)
    ensures
        forall|k: int|
            0 <= k < destroyed(s, other).len() ==> exists|j: int|
                0 <= j < s.len() && #[trigger] destroyed(s, other)[k] == marked(s[j]),
    decreases s.len(),
{
    if s.len() > 0 {
        lemma_destroyed_from(s.drop_last(), other);
        let rest = destroyed(s.drop_last(), other);
        let all = destroyed(s, other);
        assert forall|k: int| 0 <= k < all.len() implies exists|j: int|
            0 <= j < s.len() && #[trigger] all[k] == marked(s[j]) by {
            if k < rest.len() {
                let j = choose|j: int|
                    0 <= j < s.drop_last().len() && #[trigger] rest[k] == marked(s.drop_last()[j]);
                assert(s[j] == s.drop_last()[j]);
            } else {
                assert(s[s.len() - 1] == s.last());
            }
        }
    }
}

/// Every enemy left by `fall_all` lies above `height + size` and came from
/// an enemy of `s` moved down.
pub proof fn lemma_fall_all_from(s: Seq<Enemy>, delta_time: i64, height: i64)
    ensures
        fall_all(s, delta_time, height).len() <= s.len(),
        forall|k: int|
            0 <= k < fall_all(s, delta_time, height).len() ==> exists|j: int|
                0 <= j < s.len() && #[trigger] fall_all(s, delta_time, height)[k] == fallen(
                    s[j],
                    delta_time,
                ) && fall_all(s, delta_time, height)[k].shape.position.y < height + s[j].shape.size,
    decreases s.len(),
{
    if s.len() > 0 {
        lemma_fall_all_from(s.drop_last(), delta_time, height);
        let rest = fall_all(s.drop_last(), delta_time, height);
        let all = fall_all(s, delta_time, height);
        assert forall|k: int| 0 <= k < all.len() implies exists|j: int|
            0 <= j < s.len() && #[trigger] all[k] == fallen(s[j], delta_time)
                && all[k].shape.position.y < height + s[j].shape.size by {
            if k < rest.len() {
                let j = choose|j: int|
                    0 <= j < s.drop_last().len() && #[trigger] rest[k] == fallen(
                        s.drop_last()[j],
                        delta_time,
                    ) && rest[k].shape.position.y < height + s.drop_last()[j].shape.size;
                assert(s[j] == s.drop_last()[j]);
            } else {
                assert(s[s.len() - 1] == s.last());
            }
        }
    }
}

/// Number of rolls in `0..n` that spawn an enemy.
pub open spec fn spawning_rolls(n: nat) -> nat
    decreases n,
{
    if n == 0 {
        0
    } else {
        spawning_rolls((n - 1) as nat) + if spawn_hit((n - 1) as u32) {
            1nat
        } else {
            0nat
        }
    }
}

proof fn lemma_spawning_rolls_below(n: nat)
    requires
        n <= SPAWN_ROLL_OUTCOMES,
    ensures
        spawning_rolls(n) == if n <= SPAWN_THRESHOLD {
            0
        } else {
            n - SPAWN_THRESHOLD
        },
    decreases n,
{
    if n > 0 {
        lemma_spawning_rolls_below((n - 1) as nat);
    }
}

/// Of the 100 equally likely spawn rolls exactly 5 spawn an enemy, so an
/// enemy spawns with probability 5/100 per frame.
pub proof fn lemma_spawn_rate()
    ensures
        spawning_rolls(SPAWN_ROLL_OUTCOMES as nat) == 5,
{
    lemma_spawning_rolls_below(SPAWN_ROLL_OUTCOMES as nat);
}

/// Resolving collisions against an entity that overlaps none of the
/// enemies keeps them all, in order, and destroys none.
pub proof fn lemma_no_overlap_keeps_all<T: Collidable>(s: Seq<Enemy>, other: T)
    requires
        forall|i: int| 0 <= i < s.len() ==> !collide(#[trigger] &s[i], &other),
    ensures
        survivors(s, other) == s,
        destroyed(s, other).len() == 0,
    decreases s.len(),
{
    if s.len() > 0 {
        let init = s.drop_last();
        assert forall|i: int| 0 <= i < init.len() implies !collide(#[trigger] &init[i], &other) by {
            assert(init[i] == s[i]);
        }
        lemma_no_overlap_keeps_all(init, other);
        assert(!collide(&s[s.len() - 1], &other));
        assert(init.push(s.last()) =~= s);
    }
}

/// Collision resolution splits the enemies exactly: the survivors are the
/// enemies that do not overlap `other`, the destroyed ones are those that
/// do, each once and marked collided, both in the order they had in `s`.
pub proof fn lemma_resolution_partitions<T: Collidable>(s: Seq<Enemy>, other: T)
    ensures
        survivors(s, other) == s.filter(|e: Enemy| !collide(&e, &other)),
        destroyed(s, other) == s.filter(|e: Enemy| collide(&e, &other)).map_values(
            |e: Enemy| marked(e),
        ),
        survivors(s, other).len() + destroyed(s, other).len() == s.len(),
    decreases s.len(),
{
    reveal(Seq::filter);
    let keep = |e: Enemy| !collide(&e, &other);
    let hit = |e: Enemy| collide(&e, &other);
    let mark = |e: Enemy| marked(e);
    if s.len() > 0 {
        lemma_resolution_partitions(s.drop_last(), other);
        let h = s.drop_last().filter(hit);
        assert(h.push(s.last()).map_values(mark) =~= h.map_values(mark).push(marked(s.last())));
    } else {
        assert(s.filter(hit).map_values(mark) =~= s);
    }
}

impl Enemies {
    pub open spec fn wf(&self) -> bool {
        all_live(self@)
    }

    pub fn new() -> (r: Enemies)
        ensures
            r@ == Seq::<Enemy>::empty(),
            r.wf(),
    {
        Enemies { list: Vec::new() }
    }

    pub fn len(&self) -> (r: usize)
        ensures
            r == self@.len(),
    {
        self.list.len()
    }

    /// The enemy at index `i`.
    pub fn get(&self, i: usize) -> (r: Enemy)
        requires
            i < self@.len(),
        ensures
            r == self@[i as int],
    {
        self.list[i]
    }

    /// Adds a live enemy after the others.
    pub fn add(&mut self, enemy: Enemy)
        requires
            old(self).wf(),
            enemy_wf(enemy),
        ensures
            final(self)@ == old(self)@.push(enemy),
            final(self).wf(),
    {
        self.list.push(enemy);
    }

    /// Resolves collisions with `other`: every enemy that overlaps it is
    /// marked collided, appended to `hits` in order, and removed; the others
    /// stay in order. Returns whether any enemy was hit.
    pub fn collides_with<T: Collidable>(&mut self, other: &T, hits: &mut Vec<Enemy>) -> (r: bool)
        requires
            old(self).wf(),
            crate::geometry::placed(other.position_spec(), other.size_spec()),
        ensures
            final(self)@ == survivors(old(self)@, *other),
            final(hits)@ == old(hits)@ + destroyed(old(self)@, *other),
            r == (destroyed(old(self)@, *other).len() > 0),
            final(self).wf(),
    {
        let ghost start = self.list@;
        let mut kept: Vec<Enemy> = Vec::new();
        let mut any = false;
        let n = self.list.len();
        let mut i: usize = 0;
        while i < n
            invariant
                n == self.list.len(),
                self.list@ == start,
                all_live(start),
                crate::geometry::placed(other.position_spec(), other.size_spec()),
                i <= n,
                kept@ == survivors(start.take(i as int), *other),
                hits@ == old(hits)@ + destroyed(start.take(i as int), *other),
                any == (destroyed(start.take(i as int), *other).len() > 0),
            decreases n - i,
        {
            let e = self.list[i];
            assert(start.take(i + 1).drop_last() == start.take(i as int));
            assert(start.take(i + 1).last() == e);
            if collides_with(&e, other) {
                let mut m = e;
                m.shape.collided = true;
                hits.push(m);
                any = true;
            } else {
                kept.push(e);
            }
            assert(hits@ == old(hits)@ + destroyed(start.take(i + 1), *other));
            i += 1;
        }
        assert(start.take(n as int) == start);
        proof {
            lemma_survivors_from(start, *other);
        }
        self.list = kept;
        any
    }

    /// Moves every enemy down for `delta_time` microseconds and drops those
    /// that have left the bottom of an arena of the given height.
    pub fn advance(&mut self, delta_time: i64, height: i64)
        requires
            old(self).wf(),
            0 <= delta_time <= MAX_DELTA,
            0 <= height <= MAX_DIM,
        ensures
            final(self)@ == fall_all(old(self)@, delta_time, height),
            final(self).wf(),
    {
        let ghost start = self.list@;
        let mut kept: Vec<Enemy> = Vec::new();
        let n = self.list.len();
        let mut i: usize = 0;
        while i < n
            invariant
                n == self.list.len(),
                self.list@ == start,
                all_live(start),
                0 <= delta_time <= MAX_DELTA,
                0 <= height <= MAX_DIM,
                i <= n,
                kept@ == fall_all(start.take(i as int), delta_time, height),
            decreases n - i,
        {
            let mut e = self.list[i];
            assert(start.take(i + 1).drop_last() == start.take(i as int));
            assert(start.take(i + 1).last() == e);
            assert(enemy_wf(start[i as int]));
            e.update(delta_time);
            if e.shape.position.y < height + e.shape.size {
                kept.push(e);
            }
            i += 1;
        }
        assert(start.take(n as int) == start);
        proof {
            lemma_fall_all_from(start, delta_time, height);
            let res = fall_all(start, delta_time, height);
            assert forall|k: int| 0 <= k < res.len() implies enemy_wf(#[trigger] res[k]) by {
                let j = choose|j: int|
                    0 <= j < start.len() && #[trigger] res[k] == fallen(start[j], delta_time)
                        && res[k].shape.position.y < height + start[j].shape.size;
                let sp = start[j].shape.speed;
                assert(enemy_wf(start[j]));
                assert(0 <= sp * delta_time <= MAX_SPEED * MAX_DELTA) by (nonlinear_arith)
                    requires
                        0 <= sp <= MAX_SPEED,
                        0 <= delta_time <= MAX_DELTA,
                ;
            }
        }
        self.list = kept;
    }

    /// One frame of the collection: `spawned`, if any, joins the others,
    /// then all of them fall for `delta_time` and leave at the bottom.
    pub fn update_with(&mut self, delta_time: i64, height: i64, spawned: Option<Enemy>)
        requires
            old(self).wf(),
            0 <= delta_time <= MAX_DELTA,
            0 <= height <= MAX_DIM,
            spawned is Some ==> enemy_wf(spawned->0),
        ensures
            final(self)@ == fall_all(with_spawn(old(self)@, spawned), delta_time, height),
            final(self).wf(),
    {
        if let Some(e) = spawned {
            self.add(e);
        }
        self.advance(delta_time, height);
    }

    /// One frame of the collection, with the spawn chance rolled here.
    pub fn update(&mut self, delta_time: i64, width: i64, height: i64)
        requires
            old(self).wf(),
            0 <= delta_time <= MAX_DELTA,
            0 <= width <= MAX_DIM,
            0 <= height <= MAX_DIM,
        ensures
            exists|spawned: Option<Enemy>|
                (spawned is Some ==> spawned_shape(spawned->0.shape, width))
                && final(self)@ == fall_all(#[trigger] with_spawn(old(self)@, spawned), delta_time, height),
            final(self).wf(),
    {
        let spawned = try_spawn(width);
        self.update_with(delta_time, height, spawned);
    }

    pub fn clear(&mut self)
        ensures
            final(self)@ == Seq::<Enemy>::empty(),
            final(self).wf(),
    {
        self.list = Vec::new();
    }
}

} // verus!
