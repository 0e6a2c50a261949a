use space_shooter::bullet::Bullet;
use space_shooter::enemy::Enemy;
use space_shooter::game::{award_points, Frame, Game, GameState, INITIAL_LIVES};
use space_shooter::geometry::{Collidable, Point2D, ShapeType};
use space_shooter::hero::{Bank, Controls, Hero};
use space_shooter::scores::Scores;
use space_shooter::shape::{explosion_particles, round_units, Color, Shape};

const W: i64 = 800_000;
const H: i64 = 600_000;

fn frame(delta_time: i64, controls: Controls) -> Frame {
    Frame { delta_time, width: W, height: H, controls }
}

fn enemy(x: i64, y: i64, size: i64) -> Enemy {
    Enemy {
        shape: Shape {
            shape_type: ShapeType::Square,
            size,
            speed: 80_000,
            position: Point2D::new(x, y),
            color: Color::Green,
            collided: false,
        },
    }
}

fn playing_game() -> Game {
    let mut g = Game::new(W, H, Scores::new(None));
    assert_eq!(g.game_state, GameState::MainMenu);
    g.restart(W, H);
    g
}

#[test]
fn hero_hit_costs_one_life() {
    let mut g = playing_game();
    assert_eq!(g.hero.position(), Point2D::new(400_000, 300_000));
    g.enemies.add(enemy(400_000, 300_000, 20_000));
    let r = g.playing_with(&frame(0, Controls::default()), None);
    assert_eq!(g.lives, INITIAL_LIVES - 1);
    assert_eq!(g.enemies.len(), 0);
    assert_eq!(g.game_state, GameState::Playing);
    assert!(r.explosions.is_empty());
}

#[test]
fn simultaneous_hits_cost_one_life() {
    let mut g = playing_game();
    g.enemies.add(enemy(400_000, 300_000, 20_000));
    g.enemies.add(enemy(390_000, 290_000, 20_000));
    g.playing_with(&frame(0, Controls::default()), None);
    assert_eq!(g.lives, INITIAL_LIVES - 1);
    assert_eq!(g.enemies.len(), 0);
}

#[test]
fn bullet_rises_from_hero() {
    let hero = Hero::new(W, H);
    let mut b = Bullet::new(&hero);
    assert_eq!(b.shape.position, Point2D::new(400_000, 276_000));
    assert_eq!(b.get_speed(), 2 * hero.get_speed());
    assert!(!b.get_collided());
    b.shape.speed = 40_000;
    b.update(100_000);
    assert_eq!(b.shape.position.y, 272_000);
    b.set_collided(true);
    assert!(b.get_collided());
}

#[test]
fn destroying_enemy_scores_rounded_size() {
    let mut g = playing_game();
    let mut shot = Bullet::new(&g.hero);
    shot.shape.position = Point2D::new(100_000, 100_000);
    shot.shape.speed = 0;
    g.bullets.push(shot);
    let mut target = enemy(100_000, 100_000, 30_400);
    target.shape.speed = 0;
    g.enemies.add(target);
    let r = g.playing_with(&frame(0, Controls::default()), None);
    assert_eq!(g.scores.score, 30);
    assert_eq!(r.explosions.len(), 1);
    assert!(r.explosions[0].shape.collided);
    assert_eq!(g.enemies.len(), 0);
    assert!(g.bullets.is_empty());
    assert_eq!(g.lives, INITIAL_LIVES);
}

#[test]
fn rounding_and_awards() {
    assert_eq!(round_units(30_400), 30);
    assert_eq!(round_units(30_500), 31);
    assert_eq!(round_units(30_499), 30);
    assert_eq!(explosion_particles(30_400), 120);
    let hits = vec![enemy(0, 0, 30_400), enemy(0, 0, 16_600)];
    assert_eq!(award_points(10, &hits), 57);
    assert_eq!(award_points(u32::MAX - 1, &hits), u32::MAX);
}

#[test]
fn one_bullet_spends_on_first_enemies_only() {
    let mut g = playing_game();
    let mut shot = Bullet::new(&g.hero);
    shot.shape.position = Point2D::new(100_000, 100_000);
    shot.shape.speed = 0;
    let mut second = shot;
    second.shape.position = Point2D::new(105_000, 100_000);
    g.bullets.push(shot);
    g.bullets.push(second);
    g.enemies.add(enemy(100_000, 100_000, 20_000));
    g.playing_with(&frame(0, Controls::default()), None);
    // The first bullet destroys the enemy; the second finds nothing.
    assert_eq!(g.scores.score, 20);
    assert_eq!(g.bullets.len(), 1);
    assert_eq!(g.bullets[0].shape.position, Point2D::new(105_000, 100_000));
}

#[test]
fn last_life_ends_game_once() {
    let mut g = Game::new(W, H, Scores::new(Some(b"10".as_slice())));
    g.restart(W, H);
    g.lives = 1;
    g.scores.score = 25;
    g.enemies.add(enemy(400_000, 300_000, 20_000));
    let r = g.step(&frame(0, Controls::default()));
    assert_eq!(g.lives, 0);
    assert_eq!(g.game_state, GameState::GameOver);
    assert_eq!(g.scores.high_score, 25);
    assert_eq!(r.stored_high_score, Some(b"25".to_vec()));
    // Staying in game over: nothing is lost or stored again.
    g.enemies.add(enemy(400_000, 300_000, 20_000));
    let again = g.step(&frame(16_000, Controls::default()));
    assert_eq!(g.lives, 0);
    assert_eq!(g.game_state, GameState::GameOver);
    assert_eq!(again.stored_high_score, None);
    assert!(!again.quit && !again.restarted);
}

#[test]
fn game_over_without_new_high_score_stores_nothing() {
    let mut g = Game::new(W, H, Scores::new(Some(b"100".as_slice())));
    g.restart(W, H);
    g.lives = 1;
    g.scores.score = 25;
    g.enemies.add(enemy(400_000, 300_000, 20_000));
    let r = g.step(&frame(0, Controls::default()));
    assert_eq!(g.game_state, GameState::GameOver);
    assert_eq!(g.scores.high_score, 100);
    assert_eq!(r.stored_high_score, None);
}

#[test]
fn confirm_restarts_after_game_over() {
    let mut g = playing_game();
    g.lives = 0;
    g.game_state = GameState::GameOver;
    g.scores.score = 40;
    g.scores.high_score = 40;
    g.enemies.add(enemy(0, 0, 20_000));
    let c = Controls { confirm: true, ..Controls::default() };
    let r = g.step(&frame(0, c));
    assert!(r.restarted);
    assert_eq!(g.game_state, GameState::Playing);
    assert_eq!(g.lives, INITIAL_LIVES);
    assert_eq!(g.scores.score, 0);
    assert_eq!(g.scores.high_score, 40);
    assert_eq!(g.enemies.len(), 0);
    let held = Controls { cancel_held: true, ..Controls::default() };
    g.game_state = GameState::GameOver;
    g.lives = 0;
    assert!(g.step(&frame(0, held)).quit);
}

#[test]
fn menu_and_pause_transitions() {
    let mut g = Game::new(W, H, Scores::new(None));
    let r = g.step(&frame(0, Controls::default()));
    assert_eq!(g.game_state, GameState::MainMenu);
    assert!(!r.quit && !r.restarted);
    let quit = Controls { cancel_pressed: true, confirm: true, ..Controls::default() };
    assert!(g.step(&frame(0, quit)).quit);
    assert_eq!(g.game_state, GameState::MainMenu);
    let go = Controls { confirm: true, ..Controls::default() };
    assert!(g.step(&frame(0, go)).restarted);
    assert_eq!(g.game_state, GameState::Playing);
    let pause = Controls { cancel_held: true, ..Controls::default() };
    g.step(&frame(0, pause));
    assert_eq!(g.game_state, GameState::Paused);
    let still = g.step(&frame(0, Controls::default()));
    assert_eq!(g.game_state, GameState::Paused);
    assert!(!still.quit);
    let resume = Controls { fire: true, ..Controls::default() };
    g.step(&frame(0, resume));
    assert_eq!(g.game_state, GameState::Playing);
    g.game_state = GameState::Paused;
    assert!(g.step(&frame(0, quit)).quit);
}

#[test]
fn firing_adds_bullet_above_moved_hero() {
    let mut g = playing_game();
    let c = Controls { fire: true, right: true, ..Controls::default() };
    let r = g.playing_with(&frame(100_000, c), None);
    // 200 px/s for 0.1 s: 20 px right.
    assert_eq!(g.hero.position(), Point2D::new(420_000, 300_000));
    assert_eq!(g.bullets.len(), 1);
    assert_eq!(g.bullets[0].shape.position, Point2D::new(420_000, 276_000));
    assert_eq!(g.bullets[0].get_speed(), 400_000);
    assert_eq!(r.steering.bank, Bank::Right);
    assert_eq!(r.steering.scroll, 1);
}

#[test]
fn bullets_leave_at_top() {
    let mut g = playing_game();
    let mut b = Bullet::new(&g.hero);
    b.shape.position = Point2D::new(100_000, -15_000);
    b.shape.speed = 0;
    g.bullets.push(b);
    let mut gone = b;
    gone.shape.position = Point2D::new(200_000, -16_000);
    g.bullets.push(gone);
    g.playing_with(&frame(0, Controls::default()), None);
    assert_eq!(g.bullets.len(), 1);
    assert_eq!(g.bullets[0].shape.position.y, -15_000);
}

#[test]
fn random_frames_keep_playing() {
    let mut g = playing_game();
    for _ in 0..500 {
        let r = g.playing(&frame(16_667, Controls::default()));
        assert!(!r.quit);
    }
    assert_eq!(g.game_state, GameState::Playing);
    assert!(g.enemies.len() < 500);
}

#[test]
fn hero_collisions_remove_every_touching_enemy() {
    let mut g = playing_game();
    let far = enemy(10_000, 10_000, 20_000);
    g.enemies.add(enemy(400_000, 300_000, 20_000));
    g.enemies.add(far);
    g.enemies.add(enemy(390_000, 290_000, 20_000));
    assert!(g.check_hero_collisions());
    assert_eq!(g.enemies.len(), 1);
    assert_eq!(g.enemies.get(0), far);
    assert_eq!(g.lives, INITIAL_LIVES);
    assert!(!g.check_hero_collisions());
}

#[test]
fn two_hits_in_one_frame_cost_one_life() {
    let mut g = playing_game();
    g.enemies.add(enemy(400_000, 300_000, 20_000));
    g.enemies.add(enemy(390_000, 290_000, 20_000));
    let (booms, stored) = g.check_collisions();
    assert_eq!(g.lives, INITIAL_LIVES - 1);
    assert_eq!(g.enemies.len(), 0);
    assert!(booms.is_empty());
    assert_eq!(stored, None);
    assert_eq!(g.game_state, GameState::Playing);
}

#[test]
fn losing_last_life_settles_high_score() {
    let mut g = playing_game();
    g.lives = 1;
    g.scores.score = 12;
    g.scores.high_score = 9;
    g.enemies.add(enemy(400_000, 300_000, 20_000));
    let (_, stored) = g.check_collisions();
    assert_eq!(g.lives, 0);
    assert_eq!(g.game_state, GameState::GameOver);
    assert_eq!(g.scores.high_score, 12);
    assert_eq!(stored, Some(b"12".to_vec()));
    let mut h = playing_game();
    h.lives = 2;
    h.enemies.add(enemy(400_000, 300_000, 20_000));
    h.check_collisions();
    assert_eq!(h.lives, 1);
    assert_eq!(h.game_state, GameState::Playing);
}
