use vstd::prelude::*;
use crate::bullet::{bullet_wf, fired_from, risen, Bullet};
use crate::enemies::{
    destroyed, fall_all, lemma_destroyed_from, survivors, try_spawn, with_spawn, Enemies,
};
use crate::enemy::{draws_ok, enemy_wf, shape_from_draws, shape_wf, spawned_shape, Enemy};
use crate::geometry::{MAX_DELTA, MAX_DIM, MAX_SIZE, MAX_SPEED};
use crate::hero::{hero_start, steered, steering_for, Bank, Controls, Hero, Steering};
use crate::scores::{decimal, Scores};
use crate::shape::{round_spec, round_units, Shape};

verus! {

/// Lives at the start of a game.
pub const INITIAL_LIVES: u32 = 5;

/// The top-level state of a session.
#[derive(Clone, Copy, Debug, PartialEq, Eq, Structural, Default)]
pub enum GameState {
    #[default]
    MainMenu,
    Playing,
    Paused,
    GameOver,
}

/// Everything the simulation needs from the outside for one frame.
#[derive(Clone, Copy, Debug, PartialEq, Eq, Structural, Default)]
pub struct Frame {
    /// Time since the previous frame, in microseconds.
    pub delta_time: i64,
    /// Current arena size.
    pub width: i64,
    pub height: i64,
    pub controls: Controls,
}

/// A frame whose values are within the simulation's limits.
pub open spec fn frame_ok(f: Frame) -> bool {
    &&& 0 <= f.delta_time <= MAX_DELTA
    &&& 0 <= f.width <= MAX_DIM
    &&& 0 <= f.height <= MAX_DIM
}

/// What the surroundings have to act on after a frame.
pub struct Report {
    /// The player asked to leave the program.
    pub quit: bool,
    /// A new game started: transient effects are to be dropped.
    pub restarted: bool,
    pub steering: Steering,
    /// Enemies destroyed by bullets, in order: each is worth its rounded
    /// size in points and leaves an explosion at its position.
    pub explosions: Vec<Enemy>,
    /// Text of a new high score, to be stored.
    pub stored_high_score: Option<Vec<u8>>,
}

/// Each bullet of `s` moved up for `delta_time`, keeping those whose
/// centre line is still below `-size / 2`.
pub open spec fn rise_all(s: Seq<Bullet>, delta_time: i64) -> Seq<Bullet>
    decreases s.len(),
{
    if s.len() == 0 {
        s
    } else {
        let rest = rise_all(s.drop_last(), delta_time);
        let b = risen(s.last(), delta_time);
        if 2 * b.shape.position.y > -b.shape.size {
            rest.push(b)
        } else {
            rest
        }
    }
}

/// The outcome of firing `bullets`, in order, into `enemies`: each bullet
/// destroys every enemy still there that it overlaps and is spent if it
/// hit any. Gives the enemies left, the bullets left, and the enemies
/// destroyed.
pub open spec fn volley(enemies: Seq<Enemy>, bullets: Seq<Bullet>) -> (
    Seq<Enemy>,
    Seq<Bullet>,
    Seq<Enemy>,
)
    decreases bullets.len(),
{
    if bullets.len() == 0 {
        (enemies, bullets, Seq::empty())
    } else {
        let (e, b, d) = volley(enemies, bullets.drop_last());
        let shot = bullets.last();
        let gone = destroyed(e, shot);
        (survivors(e, shot), if gone.len() > 0 {
            b
        } else {
            b.push(shot)
        }, d + gone)
    }
}

/// Points for destroying the enemies of `s`: the sum of their rounded sizes.
pub open spec fn award(s: Seq<Enemy>) -> int
    decreases s.len(),
{
    if s.len() == 0 {
        0
    } else {
        award(s.drop_last()) + round_spec(s.last().shape.size)
    }
}

/// `score + points`, saturating at `u32::MAX`.
pub open spec fn add_points(score: u32, points: int) -> u32 {
    if score + points > u32::MAX {
        u32::MAX
    } else {
        (score + points) as u32
    }
}

/// Enemies whose size can be scored.
pub open spec fn sized(s: Seq<Enemy>) -> bool {
    forall|i: int| 0 <= i < s.len() ==> 0 < #[trigger] s[i].shape.size <= MAX_SIZE
}

/// Adds the points for destroying `enemies` to `score`, saturating.
pub fn award_points(score: u32, enemies: &Vec<Enemy>) -> (r: u32)
    requires
        sized(enemies@),
    ensures
        r == add_points(score, award(enemies@)),
{
    let mut total = score;
    let mut i: usize = 0;
    while i < enemies.len()
        invariant
            i <= enemies@.len(),
            sized(enemies@),
            total == add_points(score, award(enemies@.take(i as int))),
            award(enemies@.take(i as int)) >= 0,
        decreases enemies@.len() - i,
    {
        assert(enemies@.take(i + 1).drop_last() =~= enemies@.take(i as int));
        let points = round_units(enemies[i].shape.size);
        total = total.saturating_add(points);
        i += 1;
    }
    assert(enemies@.take(i as int) =~= enemies@);
    total
}

/// Every bullet of `s` is in flight.
pub open spec fn all_flying(s: Seq<Bullet>) -> bool {
    forall|i: int| 0 <= i < s.len() ==> bullet_wf(#[trigger] s[i])
}

/// Lives after a frame in which the hero was hit or not: one fewer on a
/// hit, never below zero.
pub open spec fn lives_after(lives: u32, hit: bool) -> u32 {
    if hit && lives > 0 {
        (lives - 1) as u32
    } else {
        lives
    }
}

/// The high score after a game ends, and the text stored for it.
pub open spec fn finalized(before: Scores, after: Scores, stored: Option<Vec<u8>>) -> bool {
    &&& after.score == before.score
    &&& before.score > before.high_score ==> after.high_score == before.score && stored is Some
        && stored->0@ == decimal(before.score as nat)
    &&& before.score <= before.high_score ==> after.high_score == before.high_score
        && stored is None
}

/// One frame of play, in order: `spawned` joins the enemies and they fall;
/// the bullets rise; the hero steers, may fire from its new position, and
/// the cancel key pauses; enemies touching the hero are destroyed and, if
/// any were, one life is lost; with no lives left the game is over and the
/// high score is settled, otherwise the bullets are fired into the enemies
/// and score.
pub open spec fn played(before: Game, after: Game, frame: Frame, spawned: Option<Enemy>, r: Report) -> bool {
    let e1 = fall_all(with_spawn(before.enemies@, spawned), frame.delta_time, frame.height);
    let b1 = rise_all(before.bullets@, frame.delta_time);
    let b2 = if frame.controls.fire {
        b1.push(fired_from(after.hero@))
    } else {
        b1
    };
    let hit = destroyed(e1, after.hero).len() > 0;
    let lives = lives_after(before.lives, hit);
    let e2 = survivors(e1, after.hero);
    let (e3, b3, d) = volley(e2, b2);
    &&& after.hero@ == steered(
        before.hero@,
        frame.controls,
        frame.delta_time,
        frame.width,
        frame.height,
    )
    &&& r.steering == steering_for(frame.controls)
    &&& !r.quit
    &&& !r.restarted
    &&& after.lives == lives
    &&& if lives == 0 {
        &&& after.game_state == GameState::GameOver
        &&& after.enemies@ == e2
        &&& after.bullets@ == b2
        &&& r.explosions@.len() == 0
        &&& finalized(before.scores, after.scores, r.stored_high_score)
    } else {
        &&& after.game_state == if frame.controls.cancel_held {
            GameState::Paused
        } else {
            GameState::Playing
        }
        &&& after.enemies@ == e3
        &&& after.bullets@ == b3
        &&& r.explosions@ == d
        &&& after.scores.score == add_points(before.scores.score, award(d))
        &&& after.scores.high_score == before.scores.high_score
        &&& r.stored_high_score is None
    }
}

/// The session after a restart: full lives, no points, the hero centred,
/// no enemies or bullets, playing; the high score is kept.
pub open spec fn restarted(before: Game, after: Game, width: i64, height: i64) -> bool {
    &&& after.lives == INITIAL_LIVES
    &&& after.scores.score == 0
    &&& after.scores.high_score == before.scores.high_score
    &&& after.hero@ == hero_start(width, height)
    &&& after.enemies@.len() == 0
    &&& after.bullets@.len() == 0
    &&& after.game_state == GameState::Playing
}

/// The session is left as it was.
pub open spec fn unchanged(before: Game, after: Game) -> bool {
    &&& after.game_state == before.game_state
    &&& after.lives == before.lives
    &&& after.hero == before.hero
    &&& after.enemies@ == before.enemies@
    &&& after.bullets@ == before.bullets@
    &&& after.scores == before.scores
}

/// A report with nothing to act on but `quit` and `restarted`.
pub open spec fn quiet(r: Report, quit: bool, restarted: bool) -> bool {
    &&& r.quit == quit
    &&& r.restarted == restarted
    &&& r.steering == Steering { bank: Bank::Level, scroll: 0 }
    &&& r.explosions@.len() == 0
    &&& r.stored_high_score is None
}

/// One game session.
pub struct Game {
    pub game_state: GameState,
    pub lives: u32,
    pub hero: Hero,
    pub enemies: Enemies,
    pub bullets: Vec<Bullet>,
    pub scores: Scores,
}

impl Game {
    /// The entities are well-formed, and lives run out exactly in the
    /// game-over state.
    pub open spec fn wf(&self) -> bool {
        &&& self.hero.wf()
        &&& self.enemies.wf()
        &&& all_flying(self.bullets@)
        &&& (self.lives == 0 <==> self.game_state == GameState::GameOver)
    }

    /// Moves every bullet up and drops those that have left the top.
    fn update_bullets(&mut self, delta_time: i64)
        requires
            all_flying(old(self).bullets@),
            0 <= delta_time <= MAX_DELTA,
        ensures
            final(self).bullets@ == rise_all(old(self).bullets@, delta_time),
            all_flying(final(self).bullets@),
            final(self).game_state == old(self).game_state,
            final(self).lives == old(self).lives,
            final(self).hero == old(self).hero,
            final(self).enemies == old(self).enemies,
            final(self).scores == old(self).scores,
    {
        let ghost start = self.bullets@;
        let mut kept: Vec<Bullet> = Vec::new();
        let n = self.bullets.len();
        let mut i: usize = 0;
        while i < n
            invariant
                n == self.bullets.len(),
                self.bullets@ == start,
                all_flying(start),
                0 <= delta_time <= MAX_DELTA,
                i <= n,
                kept@ == rise_all(start.take(i as int), delta_time),
                all_flying(kept@),
            decreases n - i,
        {
            let mut b = self.bullets[i];
            assert(start.take(i + 1).drop_last() == start.take(i as int));
            assert(start.take(i + 1).last() == b);
            assert(bullet_wf(start[i as int]));
            let ghost sp = b.shape.speed;
            assert(0 <= sp * delta_time <= MAX_SPEED * MAX_DELTA) by (nonlinear_arith)
                requires
                    0 <= sp <= MAX_SPEED,
                    0 <= delta_time <= MAX_DELTA,
            ;
            b.update(delta_time);
            if 2 * b.shape.position.y > -b.shape.size {
                kept.push(b);
            }
            i += 1;
        }
        assert(start.take(n as int) == start);
        self.bullets = kept;
    }

    /// Fires every bullet, in order, into the enemies; spent bullets and
    /// destroyed enemies leave, and each destroyed enemy scores its rounded
    /// size. Returns the destroyed enemies.
    fn check_bullets_collisions(&mut self) -> (r: Vec<Enemy>)
        requires
            old(self).enemies.wf(),
            all_flying(old(self).bullets@),
        ensures
            ({
                let (e, b, d) = volley(old(self).enemies@, old(self).bullets@);
                &&& final(self).enemies@ == e
                &&& final(self).bullets@ == b
                &&& r@ == d
                &&& final(self).scores.score == add_points(old(self).scores.score, award(d))
            }),
            final(self).enemies.wf(),
            all_flying(final(self).bullets@),
            final(self).scores.high_score == old(self).scores.high_score,
            final(self).game_state == old(self).game_state,
            final(self).lives == old(self).lives,
            final(self).hero == old(self).hero,
    {
        let ghost start = self.bullets@;
        let ghost e0 = self.enemies@;
        let mut kept: Vec<Bullet> = Vec::new();
        let mut booms: Vec<Enemy> = Vec::new();
        let n = self.bullets.len();
        let mut i: usize = 0;
        while i < n
            invariant
                n == self.bullets.len(),
                self.bullets@ == start,
                all_flying(start),
                i <= n,
                volley(e0, start.take(i as int)) == (self.enemies@, kept@, booms@),
                self.enemies.wf(),
                all_flying(kept@),
                sized(booms@),
                self.scores == old(self).scores,
                self.game_state == old(self).game_state,
                self.lives == old(self).lives,
                self.hero == old(self).hero,
            decreases n - i,
        {
            let b = self.bullets[i];
            assert(start.take(i + 1).drop_last() == start.take(i as int));
            assert(start.take(i + 1).last() == b);
            assert(bullet_wf(start[i as int]));
            let ghost before = self.enemies@;
            let ghost booms_before = booms@;
            let hit = self.enemies.collides_with(&b, &mut booms);
            proof {
                lemma_destroyed_from(before, b);
                let gone = destroyed(before, b);
                assert forall|k: int| 0 <= k < booms@.len() implies 0 < #[trigger] booms@[k].shape.size
                    <= MAX_SIZE by {
                    if k >= booms_before.len() {
                        assert(booms@[k] == gone[k - booms_before.len()]);
                        let j = choose|j: int|
                            0 <= j < before.len() && #[trigger] gone[k - booms_before.len()]
                                == crate::enemies::marked(before[j]);
                        assert(enemy_wf(before[j]));
                    }
                }
            }
            if !hit {
                kept.push(b);
            }
            i += 1;
        }
        assert(start.take(n as int) == start);
        self.bullets = kept;
        self.scores.score = award_points(self.scores.score, &booms);
        booms
    }

    /// A session in the main menu, with full lives, the hero centred in an
    /// arena of the given size, and `scores` carried in.
    pub fn new(width: i64, height: i64, scores: Scores) -> (r: Game)
        requires
            0 <= width <= MAX_DIM,
            0 <= height <= MAX_DIM,
        ensures
            r.wf(),
            r.game_state == GameState::MainMenu,
            r.lives == INITIAL_LIVES,
            r.hero@ == hero_start(width, height),
            r.enemies@.len() == 0,
            r.bullets@.len() == 0,
            r.scores == scores,
    {
        Game {
            game_state: GameState::MainMenu,
            lives: INITIAL_LIVES,
            hero: Hero::new(width, height),
            enemies: Enemies::new(),
            bullets: Vec::new(),
            scores,
        }
    }

    /// A random enemy shape for an arena of the given width.
    pub fn get_enemy(width: i64) -> (r: Shape)
        requires
            0 <= width <= MAX_DIM,
        ensures
            exists|size_draw: int, speed_draw: int, step: int, colour: int|
                draws_ok(size_draw, speed_draw, step, colour) && r == #[trigger] shape_from_draws(
                    width,
                    size_draw,
                    speed_draw,
                    step,
                    colour,
                ),
            spawned_shape(r, width),
            shape_wf(r),
    {
        Enemy::create_shape(width)
    }

    fn add_bullet(&mut self)
        requires
            old(self).hero.wf(),
            all_flying(old(self).bullets@),
        ensures
            final(self).bullets@ == old(self).bullets@.push(fired_from(old(self).hero@)),
            all_flying(final(self).bullets@),
            final(self).game_state == old(self).game_state,
            final(self).lives == old(self).lives,
            final(self).hero == old(self).hero,
            final(self).enemies == old(self).enemies,
            final(self).scores == old(self).scores,
    {
        let b = Bullet::new(&self.hero);
        self.bullets.push(b);
    }

    /// Starts a new game in an arena of the given size.
    pub fn restart(&mut self, width: i64, height: i64)
        requires
            0 <= width <= MAX_DIM,
            0 <= height <= MAX_DIM,
        ensures
            restarted(*old(self), *final(self), width, height),
            final(self).wf(),
    {
        self.lives = INITIAL_LIVES;
        self.scores.score = 0;
        self.hero.restart(width, height);
        self.enemies.clear();
        self.bullets.clear();
        self.game_state = GameState::Playing;
    }

    fn check_playing_inputs(&mut self, frame: &Frame) -> (r: Steering)
        requires
            old(self).hero.wf(),
            all_flying(old(self).bullets@),
            frame_ok(*frame),
        ensures
            final(self).hero@ == steered(
                old(self).hero@,
                frame.controls,
                frame.delta_time,
                frame.width,
                frame.height,
            ),
            final(self).hero.wf(),
            r == steering_for(frame.controls),
            final(self).bullets@ == if frame.controls.fire {
                old(self).bullets@.push(fired_from(final(self).hero@))
            } else {
                old(self).bullets@
            },
            all_flying(final(self).bullets@),
            final(self).game_state == if frame.controls.cancel_held {
                GameState::Paused
            } else {
                old(self).game_state
            },
            final(self).lives == old(self).lives,
            final(self).enemies == old(self).enemies,
            final(self).scores == old(self).scores,
    {
        let steering = self.hero.check_inputs(
            frame.delta_time,
            &frame.controls,
            frame.width,
            frame.height,
        );
        if frame.controls.fire {
            self.add_bullet();
        }
        if frame.controls.cancel_held {
            self.game_state = GameState::Paused;
        }
        steering
    }

    /// Destroys the enemies touching the hero; returns whether there were any.
    pub fn check_hero_collisions(&mut self) -> (r: bool)
        requires
            old(self).hero.wf(),
            old(self).enemies.wf(),
        ensures
            final(self).enemies@ == survivors(old(self).enemies@, old(self).hero),
            r == (destroyed(old(self).enemies@, old(self).hero).len() > 0),
            final(self).enemies.wf(),
            final(self).game_state == old(self).game_state,
            final(self).lives == old(self).lives,
            final(self).hero == old(self).hero,
            final(self).bullets == old(self).bullets,
            final(self).scores == old(self).scores,
    {
        let mut crushed: Vec<Enemy> = Vec::new();
        self.enemies.collides_with(&self.hero, &mut crushed)
    }

    /// Resolves the hero's and then the bullets' collisions; returns the
    /// enemies destroyed by bullets and the text of a new high score.
    pub fn check_collisions(&mut self) -> (r: (Vec<Enemy>, Option<Vec<u8>>))
        requires
            old(self).hero.wf(),
            old(self).enemies.wf(),
            all_flying(old(self).bullets@),
            old(self).lives > 0,
        ensures
            ({
                let hit = destroyed(old(self).enemies@, old(self).hero).len() > 0;
                let lives = lives_after(old(self).lives, hit);
                let e2 = survivors(old(self).enemies@, old(self).hero);
                let (e3, b3, d) = volley(e2, old(self).bullets@);
                &&& final(self).lives == lives
                &&& if lives == 0 {
                    &&& final(self).game_state == GameState::GameOver
                    &&& final(self).enemies@ == e2
                    &&& final(self).bullets@ == old(self).bullets@
                    &&& r.0@.len() == 0
                    &&& finalized(old(self).scores, final(self).scores, r.1)
                } else {
                    &&& final(self).game_state == old(self).game_state
                    &&& final(self).enemies@ == e3
                    &&& final(self).bullets@ == b3
                    &&& r.0@ == d
                    &&& final(self).scores.score == add_points(old(self).scores.score, award(d))
                    &&& final(self).scores.high_score == old(self).scores.high_score
                    &&& r.1 is None
                }
            }),
            final(self).hero == old(self).hero,
            final(self).enemies.wf(),
            all_flying(final(self).bullets@),
    {
        if self.check_hero_collisions() {
            self.lives = self.lives.saturating_sub(1);
            if self.lives < 1 {
                let stored = self.scores.check_score_vs_high_score();
                self.game_state = GameState::GameOver;
                return (Vec::new(), stored);
            }
        }
        let booms = self.check_bullets_collisions();
        (booms, None)
    }

    /// One frame of play with `spawned` as this frame's new enemy, if any.
    pub fn playing_with(&mut self, frame: &Frame, spawned: Option<Enemy>) -> (r: Report)
        requires
            old(self).wf(),
            old(self).game_state == GameState::Playing,
            frame_ok(*frame),
            spawned is Some ==> enemy_wf(spawned->0),
        ensures
            played(*old(self), *final(self), *frame, spawned, r),
            final(self).wf(),
    {
        self.enemies.update_with(frame.delta_time, frame.height, spawned);
        self.update_bullets(frame.delta_time);
        let steering = self.check_playing_inputs(frame);
        let (explosions, stored_high_score) = self.check_collisions();
        Report { quit: false, restarted: false, steering, explosions, stored_high_score }
    }

    /// One frame of play, with the spawn chance rolled here.
    pub fn playing(&mut self, frame: &Frame) -> (r: Report)
        requires
            old(self).wf(),
            old(self).game_state == GameState::Playing,
            frame_ok(*frame),
        ensures
            exists|spawned: Option<Enemy>|
                (spawned is Some ==> spawned_shape(spawned->0.shape, frame.width)) && #[trigger] played(
                    *old(self),
                    *final(self),
                    *frame,
                    spawned,
                    r,
                ),
            final(self).wf(),
    {
        let spawned = try_spawn(frame.width);
        self.playing_with(frame, spawned)
    }

    fn quiet_report(quit: bool, restarted: bool) -> (r: Report)
        ensures
            quiet(r, quit, restarted),
    {
        Report {
            quit,
            restarted,
            steering: Steering { bank: Bank::Level, scroll: 0 },
            explosions: Vec::new(),
            stored_high_score: None,
        }
    }

    /// The main menu: cancel quits, confirm starts a game.
    pub fn main_menu(&mut self, frame: &Frame) -> (r: Report)
        requires
            frame_ok(*frame),
        ensures
            quiet(r, frame.controls.cancel_pressed, !frame.controls.cancel_pressed && frame.controls.confirm),
            r.restarted ==> restarted(*old(self), *final(self), frame.width, frame.height),
            !r.restarted ==> unchanged(*old(self), *final(self)),
    {
        if frame.controls.cancel_pressed {
            return Self::quiet_report(true, false);
        }
        if frame.controls.confirm {
            self.restart(frame.width, frame.height);
            return Self::quiet_report(false, true);
        }
        Self::quiet_report(false, false)
    }

    /// The pause screen: fire resumes play, cancel quits.
    pub fn paused(&mut self, frame: &Frame) -> (r: Report)
        ensures
            quiet(r, frame.controls.cancel_pressed, false),
            final(self).game_state == if frame.controls.fire {
                GameState::Playing
            } else {
                old(self).game_state
            },
            final(self).lives == old(self).lives,
            final(self).hero == old(self).hero,
            final(self).enemies@ == old(self).enemies@,
            final(self).bullets@ == old(self).bullets@,
            final(self).scores == old(self).scores,
    {
        if frame.controls.fire {
            self.game_state = GameState::Playing;
        }
        Self::quiet_report(frame.controls.cancel_pressed, false)
    }

    /// The game-over screen: confirm starts a new game, holding cancel quits.
    pub fn game_over(&mut self, frame: &Frame) -> (r: Report)
        requires
            frame_ok(*frame),
        ensures
            quiet(r, frame.controls.cancel_held, frame.controls.confirm),
            r.restarted ==> restarted(*old(self), *final(self), frame.width, frame.height),
            !r.restarted ==> unchanged(*old(self), *final(self)),
    {
        let restarting = frame.controls.confirm;
        if restarting {
            self.restart(frame.width, frame.height);
        }
        Self::quiet_report(frame.controls.cancel_held, restarting)
    }

    /// One frame of the session, handled by its current state. Lives never
    /// drop by more than one, and only in play; the game ends exactly when
    /// the last life is lost, and once over it stays over, with the high
    /// score left alone, until a restart.
    pub fn step(&mut self, frame: &Frame) -> (r: Report)
        requires
            old(self).wf(),
            frame_ok(*frame),
        ensures
            final(self).wf(),
            old(self).game_state == GameState::Playing ==> exists|spawned: Option<Enemy>|
                (spawned is Some ==> spawned_shape(spawned->0.shape, frame.width)) && #[trigger] played(
                    *old(self),
                    *final(self),
                    *frame,
                    spawned,
                    r,
                ),
            old(self).game_state == GameState::MainMenu ==> quiet(
                r,
                frame.controls.cancel_pressed,
                !frame.controls.cancel_pressed && frame.controls.confirm,
            ),
            old(self).game_state == GameState::Paused ==> quiet(r, frame.controls.cancel_pressed, false)
                && final(self).game_state == (if frame.controls.fire {
                GameState::Playing
            } else {
                GameState::Paused
            }),
            old(self).game_state == GameState::GameOver ==> quiet(
                r,
                frame.controls.cancel_held,
                frame.controls.confirm,
            ),
            r.restarted ==> restarted(*old(self), *final(self), frame.width, frame.height),
            !r.restarted && old(self).game_state != GameState::Playing && old(self).game_state
                != GameState::Paused ==> unchanged(*old(self), *final(self)),
            r.restarted || final(self).lives == old(self).lives || (old(self).game_state
                == GameState::Playing && final(self).lives == old(self).lives - 1),
            final(self).game_state == GameState::GameOver && old(self).game_state
                != GameState::GameOver ==> old(self).lives == 1 && final(self).lives == 0,
            old(self).game_state == GameState::GameOver && !r.restarted ==> final(self).game_state
                == GameState::GameOver && final(self).scores == old(self).scores
                && r.stored_high_score is None,
    {
        match self.game_state {
            GameState::MainMenu => self.main_menu(frame),
            GameState::Playing => self.playing(frame),
            GameState::Paused => self.paused(frame),
            GameState::GameOver => self.game_over(frame),
        }
    }
}

} // verus!
