use pong::ball::{Ball, BallAxes};
use pong::paddle::{Paddle, PaddleBuilder, PaddleMovementSpeed};
use rand::SeedableRng;

fn ball(x: i32, y: i32, dir_x: i32, dir_y: i32, counter: u32, base: u32) -> Ball {
    Ball { x, y, radius: 10, dir_x, dir_y, speed_counter: counter, base_speed: base }
}

#[test]
fn bounds_are_derived_from_center_and_radius() {
    let b = ball(240, 136, 2, 2, 0, 2);
    let bounds = b.get_bounds();
    assert_eq!(bounds.top, 126);
    assert_eq!(bounds.bottom, 146);
    assert_eq!(bounds.left, 230);
    assert_eq!(bounds.right, 250);
}

#[test]
fn bounds_follow_the_ball() {
    let mut b = ball(100, 50, 3, -3, 0, 3);
    b.move_ball(7, -9);
    let bounds = b.get_bounds();
    assert_eq!(bounds.top, 41 - 10);
    assert_eq!(bounds.bottom, 41 + 10);
    assert_eq!(bounds.left, 107 - 10);
    assert_eq!(bounds.right, 107 + 10);
}

#[test]
fn one_step_from_center() {
    // 480x272 screen, base speed 2: a ball at (240,136) heading (2,2)
    // moves to (242,138) and its top edge stays well below the top wall.
    let mut b = ball(240, 136, 2, 2, 0, 2);
    b.step_direction();
    assert_eq!(b.x, 242);
    assert_eq!(b.y, 138);
    assert_eq!(b.get_bounds().top, 128);
    assert!(b.get_bounds().top > 0);
}

#[test]
fn vertical_flip_keeps_horizontal_component() {
    // Ball that crossed above the screen: top = -1, heading (2,-2).
    let mut b = ball(100, 9, 2, -2, 0, 2);
    assert_eq!(b.get_bounds().top, -1);
    b.flip_direction(BallAxes::Vertical);
    assert_eq!(b.get_direction(), (2, 2));
}

#[test]
fn third_flip_raises_magnitude_by_one() {
    let mut b = ball(100, 100, 2, 2, 0, 2);
    b.flip_direction(BallAxes::Horizontal);
    assert_eq!(b.get_direction().0, -2);
    b.flip_direction(BallAxes::Horizontal);
    assert_eq!(b.get_direction().0, 2);
    b.flip_direction(BallAxes::Horizontal);
    // Third cumulative flip: magnitude becomes base + 1, sign preserved.
    assert_eq!(b.get_direction().0, -3);
    assert_eq!(b.speed_counter, 3);
}

#[test]
fn sixth_flip_raises_magnitude_again() {
    let mut b = ball(100, 100, 2, 2, 0, 2);
    let mut last_magnitude = 2;
    for i in 1..=6u32 {
        b.flip_direction(BallAxes::Horizontal);
        let magnitude = b.get_direction().0.abs();
        assert!(magnitude >= last_magnitude, "magnitude decreased at flip {}", i);
        last_magnitude = magnitude;
    }
    assert_eq!(b.get_direction().0.abs(), 4);
    assert_eq!(b.speed_counter, 6);
}

#[test]
fn fresh_ball_direction_is_diagonal_at_base_speed() {
    let mut seen = [false; 4];
    for seed in 0..32u64 {
        let mut rng = rand_chacha::ChaCha20Rng::seed_from_u64(seed);
        let b = Ball::new(240, 136, 10, 2, &mut rng);
        let (dx, dy) = b.get_direction();
        assert!(dx == 2 || dx == -2);
        assert!(dy == 2 || dy == -2);
        assert_eq!(b.speed_counter, 0);
        assert_eq!(b.base_speed, 2);
        seen[(if dx > 0 { 2 } else { 0 }) + (if dy > 0 { 1 } else { 0 })] = true;
    }
    // All four diagonals turn up across seeds.
    assert!(seen.iter().all(|&s| s));
}

#[test]
fn same_seed_gives_same_direction() {
    let mut rng_a = rand_chacha::ChaCha20Rng::seed_from_u64(99);
    let mut rng_b = rand_chacha::ChaCha20Rng::seed_from_u64(99);
    let a = Ball::new(240, 136, 10, 3, &mut rng_a);
    let b = Ball::new(240, 136, 10, 3, &mut rng_b);
    assert_eq!(a.get_direction(), b.get_direction());
}

#[test]
fn escalation_keeps_the_flipped_sign() {
    // Moving right with two flips banked: the third flip turns it left and
    // the magnitude bonus deepens the leftward speed.
    let mut b = ball(100, 100, 2, -2, 2, 2);
    b.flip_direction(BallAxes::Horizontal);
    assert_eq!(b.get_direction().0, -3);
    // And symmetrically from the left.
    let mut b = ball(100, 100, -3, 2, 5, 2);
    b.flip_direction(BallAxes::Horizontal);
    assert_eq!(b.get_direction().0, 4);
}

#[test]
fn builder_produces_the_configured_paddle() {
    let p = PaddleBuilder::new()
        .set_default_dimensions()
        .set_speed(PaddleMovementSpeed::Normal)
        .set_x(10)
        .set_y(136)
        .build();
    assert_eq!(p.x, 10);
    assert_eq!(p.y, 136);
    assert_eq!(p.thickness, 10);
    assert_eq!(p.height, 40);
    assert_eq!(p.speed, PaddleMovementSpeed::Normal);
}

#[test]
fn builder_explicit_dimensions_override_defaults() {
    let p = PaddleBuilder::new()
        .set_default_dimensions()
        .set_thickness(12)
        .set_height(55)
        .set_speed(PaddleMovementSpeed::Slow)
        .set_x(-3)
        .set_y(7)
        .build();
    assert_eq!(p.thickness, 12);
    assert_eq!(p.height, 55);
}

#[test]
fn paddle_moves_by_its_speed_tier() {
    let tiers = [
        (PaddleMovementSpeed::Slow, 2),
        (PaddleMovementSpeed::Normal, 4),
        (PaddleMovementSpeed::Fast, 6),
        (PaddleMovementSpeed::VeryFast, 8),
    ];
    for (tier, delta) in tiers {
        let mut p = Paddle::new(10, 100, 10, 40, tier);
        p.move_up();
        assert_eq!(p.y, 100 - delta);
        p.move_down();
        p.move_down();
        assert_eq!(p.y, 100 + delta);
    }
}

#[test]
fn paddle_bounds_track_position() {
    let mut p = Paddle::new(10, 100, 10, 40, PaddleMovementSpeed::Normal);
    let b = p.get_bounds();
    assert_eq!((b.top, b.bottom, b.left, b.right), (100, 140, 10, 20));
    p.move_up();
    let b = p.get_bounds();
    assert_eq!((b.top, b.bottom), (96, 136));
}

#[test]
fn containment_sides_differ_for_player_and_opponent() {
    let p = Paddle::new(10, 100, 10, 40, PaddleMovementSpeed::Normal);
    // Player variant: probe must be left of or at the far (right) edge.
    assert!(p.contains(5, 120, true));
    assert!(p.contains(19, 120, true));
    assert!(p.contains(20, 120, true));
    assert!(!p.contains(21, 120, true));
    // Opponent variant: probe must be right of the near (left) edge.
    assert!(!p.contains(5, 120, false));
    assert!(p.contains(15, 120, false));
    assert!(p.contains(500, 120, false));
    // Vertical extent is strict on both variants.
    assert!(!p.contains(15, 100, true));
    assert!(!p.contains(15, 140, true));
    assert!(!p.contains(15, 100, false));
    assert!(!p.contains(15, 140, false));
}
