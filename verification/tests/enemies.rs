use fluffy_fiesta::constants::{
    ENEMY_DIE_DURATION, ENEMY_HIT_DURATION, ENEMY_SPEED, SCREEN_WIDTH, UNIT,
};
use fluffy_fiesta::enemy::{Enemy, EnemyState};
use fluffy_fiesta::geom::Vec2i;

fn frames(n: usize, w_px: i64, h_px: i64) -> Vec<Vec2i> {
    let mut v = Vec::new();
    for _ in 0..n {
        v.push(Vec2i::new(w_px * 1_000_000, h_px * 1_000_000));
    }
    v
}

fn enemy() -> Enemy {
    Enemy::new(
        &frames(8, 48, 48),
        &frames(8, 48, 48),
        &frames(4, 48, 48),
        &frames(15, 48, 48),
    )
}

#[test]
fn new_enemy_flies_right_from_the_left_edge() {
    let e = enemy();
    assert_eq!(e.velocity, Vec2i::new(ENEMY_SPEED, 0));
    assert_eq!(e.rect.x, 10 * UNIT);
    assert_eq!(e.rect.y, 2 * 48 * UNIT);
    assert_eq!(e.rect.w, 48 * UNIT - 10 * UNIT);
    assert_eq!(e.rect.h, 48 * UNIT);
    assert_eq!(e.lives, 1);
    assert!(e.can_be_hit());
    assert!(!e.is_dead());
    assert_eq!(e.hit_duration, ENEMY_HIT_DURATION);
    assert_eq!(e.die_duration, ENEMY_DIE_DURATION);
}

#[test]
fn hit_with_no_lives_dies_and_is_idempotent() {
    let mut e = enemy();
    e.lives = 0;
    e.hit();
    assert!(e.is_dying());
    assert!(e.state == EnemyState::Die);
    assert_eq!(e.velocity, Vec2i::new(0, 0));
    assert_eq!(e.die_timer, 0);
    // A second hit changes nothing.
    e.hit();
    assert!(e.state == EnemyState::Die);
    assert_eq!(e.lives, 0);
    assert_eq!(e.velocity, Vec2i::new(0, 0));
    assert_eq!(e.stored_velocity, Vec2i::new(0, 0));
    assert_eq!(e.die_timer, 0);
    assert!(!e.is_dead());
}

#[test]
fn dead_exactly_when_die_duration_has_elapsed() {
    let mut e = enemy();
    e.lives = 0;
    e.hit();
    // Eight steps of 160 ms sum exactly to the 1280 ms die duration.
    for _ in 0..7 {
        e.update(160);
        assert!(!e.is_dead());
    }
    e.update(160);
    assert!(e.is_dead());
    assert_eq!(e.die_timer, ENEMY_DIE_DURATION);
}

#[test]
fn hit_with_lives_left_staggers_then_resumes() {
    let mut e = enemy();
    assert_eq!(e.lives, 1);
    e.hit();
    assert!(e.is_hit());
    assert_eq!(e.lives, 0);
    assert_eq!(e.velocity, Vec2i::new(0, 0));
    assert_eq!(e.stored_velocity, Vec2i::new(ENEMY_SPEED, 0));
    assert!(!e.can_be_hit());
    // The stagger lasts 600 ms; one step of exactly that length ends it.
    e.update(ENEMY_HIT_DURATION);
    assert!(e.can_be_hit());
    assert_eq!(e.velocity, Vec2i::new(ENEMY_SPEED, 0));
    assert_eq!(e.hit_timer, 0);
}

#[test]
fn flying_enemy_bounces_off_the_right_edge() {
    let mut e = enemy();
    e.rect.x = 760 * UNIT;
    e.update(1000);
    // 760 px plus 150 px of travel crosses the 800 px edge with a 38 px box.
    assert_eq!(e.rect.x, SCREEN_WIDTH - e.rect.w);
    assert_eq!(e.velocity.x, -ENEMY_SPEED);
    assert!(e.is_at_edge());
}

#[test]
fn flying_enemy_bounces_off_the_left_edge() {
    let mut e = enemy();
    e.velocity.x = -ENEMY_SPEED;
    e.rect.x = 100 * UNIT;
    e.update(1000);
    assert_eq!(e.rect.x, 0);
    assert_eq!(e.velocity.x, ENEMY_SPEED);
    assert!(e.is_at_edge());
}

#[test]
fn reverse_direction_flips_and_stores_velocity() {
    let mut e = enemy();
    e.reverse_direction();
    assert_eq!(e.velocity.x, -ENEMY_SPEED);
    assert_eq!(e.stored_velocity, e.velocity);
    e.reverse_direction();
    assert_eq!(e.velocity.x, ENEMY_SPEED);
}

#[test]
fn reset_position_restarts_the_patrol() {
    let mut e = enemy();
    e.lives = 0;
    e.hit();
    e.update(100);
    e.reset_position();
    assert_eq!(e.rect.x, 10 * UNIT);
    assert_eq!(e.lives, 3);
    assert!(e.can_be_hit());
    assert_eq!(e.hit_timer, 0);
    assert_eq!(e.die_timer, 0);
}

#[test]
fn animation_info_follows_the_state() {
    let e = enemy();
    let (frame, total, max) = e.get_current_animation_info();
    assert_eq!(frame, 0);
    assert_eq!(total, 8);
    assert_eq!(max, Vec2i::new(48 * UNIT, 48 * UNIT));
}

#[test]
fn collision_rect_grows_to_the_animation() {
    let mut e = enemy();
    e.update_collision_rect_to_animation();
    assert_eq!(e.rect.w, 48 * UNIT);
    assert_eq!(e.rect.h, 48 * UNIT);
    assert_eq!(e.rect.x, 10 * UNIT);
}

#[test]
fn enemy_draws_bottom_aligned_to_its_box() {
    let e = enemy();
    let (s, _) = e.draw();
    let s = s.unwrap();
    // The sprite rises from the box's bottom edge.
    assert_eq!(s.y, e.rect.y + e.rect.h - 48 * UNIT);
    assert_eq!(s.x, e.rect.x);
}

#[test]
fn custom_positioning_centers_the_staggered_state() {
    let mut e = enemy();
    e.hit();
    let (s, _) = e.draw_with_custom_positioning();
    let s = s.unwrap();
    // The hit animation draws centered in the box, not ground-aligned:
    // a 48-px frame in a 48-px max box starts at the box corner.
    assert_eq!((s.x, s.y), (e.rect.x, e.rect.y));
}

#[test]
fn debug_toggles_reach_every_animation() {
    let mut e = enemy();
    e.enable_debug();
    assert!(e.animate_fly.debug_mode && e.animate_die.debug_mode);
    e.toggle_debug();
    assert!(!e.animate_fly.debug_mode);
    e.set_debug(true);
    assert!(e.animate_hit.debug_mode);
    e.disable_debug();
    assert!(!e.animate_idle.debug_mode);
    assert_eq!(e.get_current_max_frame_size(), Vec2i::new(48 * UNIT, 48 * UNIT));
}

#[test]
fn dying_animation_freezes_after_the_die_duration() {
    let mut e = enemy();
    e.lives = 0;
    e.hit();
    // 1280 ms at 80 ms per frame steps the death animation to its end.
    for _ in 0..16 {
        e.update(80);
    }
    let (frame_at_death, _, _) = e.get_current_animation_info();
    e.update(80);
    let (frame_after, _, _) = e.get_current_animation_info();
    assert_eq!(frame_at_death, frame_after);
    assert!(e.is_dead());
}
