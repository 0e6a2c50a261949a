use space_shooter::enemies::{spawn_from_roll, spawns, try_spawn, Enemies};
use space_shooter::enemy::{spawn_shape, Enemy};
use space_shooter::geometry::{collides_with, Collidable, Point2D, Rect, ShapeType};
use space_shooter::hero::Hero;
use space_shooter::shape::{Color, Shape};

fn square(x: i64, y: i64, size: i64) -> Enemy {
    Enemy {
        shape: Shape {
            shape_type: ShapeType::Square,
            size,
            speed: 100_000,
            position: Point2D::new(x, y),
            color: Color::Blue,
            collided: false,
        },
    }
}

#[test]
fn rects_touching_edges_overlap() {
    let a = Rect { x: 0, y: 0, w: 10, h: 10 };
    let b = Rect { x: 10, y: 10, w: 5, h: 5 };
    let c = Rect { x: 11, y: 0, w: 5, h: 5 };
    assert!(a.overlaps(&b));
    assert!(!a.overlaps(&c));
    assert!(!c.overlaps(&a));
}

#[test]
fn circle_anchors_at_centre_square_at_corner() {
    let hero = Hero::new(800_000, 600_000);
    let r = hero.rect();
    assert_eq!(r, Rect { x: 384_000, y: 284_000, w: 32_000, h: 32_000 });
    let e = square(400_000, 300_000, 20_000);
    assert_eq!(e.rect(), Rect { x: 400_000, y: 300_000, w: 20_000, h: 20_000 });
    // Just left of the hero's box, by a square anchored at its corner.
    let left = square(363_999, 300_000, 20_000);
    assert!(!collides_with(&left, &hero));
    let touching = square(364_000, 300_000, 20_000);
    assert!(collides_with(&touching, &hero));
}

#[test]
fn hero_meets_enemy_at_same_point() {
    let hero = Hero::new(800_000, 600_000);
    let mut enemies = Enemies::new();
    enemies.add(square(400_000, 300_000, 20_000));
    let mut hits = Vec::new();
    assert!(enemies.collides_with(&hero, &mut hits));
    assert_eq!(enemies.len(), 0);
    assert_eq!(hits.len(), 1);
    assert!(hits[0].shape.collided);
    assert_eq!(hits[0].shape.position, Point2D::new(400_000, 300_000));
}

#[test]
fn no_overlap_leaves_collection_unchanged() {
    let hero = Hero::new(800_000, 600_000);
    let mut enemies = Enemies::new();
    let a = square(10_000, -20_000, 20_000);
    let b = square(700_000, 50_000, 40_000);
    enemies.add(a);
    enemies.add(b);
    let mut hits = Vec::new();
    assert!(!enemies.collides_with(&hero, &mut hits));
    assert!(hits.is_empty());
    assert_eq!(enemies.len(), 2);
    assert_eq!(enemies.get(0), a);
    assert_eq!(enemies.get(1), b);
    // Doing it again changes nothing either.
    assert!(!enemies.collides_with(&hero, &mut hits));
    assert_eq!(enemies.len(), 2);
}

#[test]
fn resolution_removes_exactly_the_overlapping() {
    let hero = Hero::new(800_000, 600_000);
    let mut enemies = Enemies::new();
    let far = square(10_000, 10_000, 20_000);
    let near1 = square(390_000, 290_000, 20_000);
    let far2 = square(600_000, 500_000, 20_000);
    let near2 = square(410_000, 310_000, 30_000);
    enemies.add(far);
    enemies.add(near1);
    enemies.add(far2);
    enemies.add(near2);
    let mut hits = vec![square(1, 1, 1)];
    assert!(enemies.collides_with(&hero, &mut hits));
    assert_eq!(enemies.len(), 2);
    assert_eq!(enemies.get(0), far);
    assert_eq!(enemies.get(1), far2);
    assert_eq!(hits.len(), 3);
    assert_eq!(hits[1].shape.position, near1.shape.position);
    assert_eq!(hits[2].shape.position, near2.shape.position);
    assert!(hits[1].shape.collided && hits[2].shape.collided);
    // Removed enemies are gone: a second pass finds nothing.
    let mut again = Vec::new();
    assert!(!enemies.collides_with(&hero, &mut again));
    assert!(again.is_empty());
}

#[test]
fn five_rolls_of_a_hundred_spawn() {
    let hits = (0..100u32).filter(|r| spawns(*r)).count();
    assert_eq!(hits, 5);
    assert!(!spawns(94));
    assert!(spawns(95));
    assert!(spawns(99));
    assert!(!spawns(0));
}

#[test]
fn spawn_rate_is_about_one_in_twenty() {
    let frames = 20_000;
    let mut spawned = 0;
    for _ in 0..frames {
        if try_spawn(800_000).is_some() {
            spawned += 1;
        }
    }
    // Expected 1000; allow a generous margin.
    assert!(spawned > 800 && spawned < 1200, "spawned {}", spawned);
}

#[test]
fn spawned_enemies_lie_in_their_ranges() {
    let width = 800_000;
    let mut sizes_differ = false;
    let first = Enemy::new(width);
    for _ in 0..2000 {
        let e = Enemy::new(width);
        let s = e.shape;
        assert_eq!(s.shape_type, ShapeType::Square);
        assert!(s.size >= 16_000 && s.size < 64_000, "size {}", s.size);
        assert!(s.speed >= 50_000 && s.speed < 150_000, "speed {}", s.speed);
        assert!(s.position.x >= s.size / 2 && s.position.x < width - s.size / 2);
        assert_eq!(s.position.y, -s.size);
        assert!(!s.collided);
        assert_eq!(e.get_speed(), s.speed);
        if s.size != first.shape.size {
            sizes_differ = true;
        }
    }
    assert!(sizes_differ);
}

#[test]
fn narrow_arena_spawns_at_half_size() {
    let e = Enemy::new(10_000);
    assert_eq!(e.shape.position.x, e.shape.size / 2);
}

#[test]
fn enemies_fall_and_leave_at_bottom() {
    let mut enemies = Enemies::new();
    enemies.add(square(100_000, 0, 20_000));
    enemies.add(square(200_000, 570_000, 20_000));
    // 100 px/s for half a second: 50 px down.
    enemies.update_with(500_000, 600_000, None);
    assert_eq!(enemies.len(), 1);
    assert_eq!(enemies.get(0).shape.position.y, 50_000);
    enemies.update_with(0, 600_000, Some(square(300_000, -20_000, 20_000)));
    assert_eq!(enemies.len(), 2);
    assert_eq!(enemies.get(1).shape.position, Point2D::new(300_000, -20_000));
    enemies.clear();
    assert_eq!(enemies.len(), 0);
}

#[test]
fn enemy_update_moves_down() {
    let mut e = square(5, 10_000, 20_000);
    e.update(16_667);
    assert_eq!(e.shape.position.y, 10_000 + 1_666);
}

#[test]
fn spawn_shape_from_draws() {
    let s = spawn_shape(800_000, 4_000, 10_000, 524_288, 3);
    assert_eq!(s.shape_type, ShapeType::Square);
    assert_eq!(s.size, 20_000);
    assert_eq!(s.speed, 60_000);
    assert_eq!(s.position, Point2D::new(400_000, -20_000));
    assert_eq!(s.color, Color::Red);
    assert!(!s.collided);
    let low = spawn_shape(800_000, 0, 0, 0, 0);
    assert_eq!(low.position, Point2D::new(8_000, -16_000));
    assert_eq!(low.color, Color::DarkPurple);
    let high = spawn_shape(800_000, 47_999, 99_999, 1_048_575, 10);
    assert_eq!(high.size, 63_999);
    assert_eq!(high.speed, 149_999);
    assert!(high.position.x < 800_000 - 63_999 / 2);
    assert_eq!(high.color, Color::DarkGreen);
    // No free span: the enemy sits at half its size.
    let narrow = spawn_shape(10_000, 4_000, 0, 700_000, 1);
    assert_eq!(narrow.position.x, 10_000);
}

#[test]
fn spawn_follows_the_roll() {
    assert_eq!(spawn_from_roll(94, 800_000, 4_000, 10_000, 524_288, 3), None);
    assert_eq!(spawn_from_roll(0, 800_000, 4_000, 10_000, 524_288, 3), None);
    let e = spawn_from_roll(95, 800_000, 4_000, 10_000, 524_288, 3).expect("spawn");
    assert_eq!(e.shape, spawn_shape(800_000, 4_000, 10_000, 524_288, 3));
    assert!(spawn_from_roll(99, 800_000, 0, 0, 0, 0).is_some());
}
