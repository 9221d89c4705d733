use fluffy_fiesta::animate::CharacterDirection;
use fluffy_fiesta::character::{Character, CharacterState, FrameInput, SheetId};
use fluffy_fiesta::constants::{GRAVITY, JUMP_POWER, PLAYER_SPEED, SCREEN_HEIGHT, UNIT};
use fluffy_fiesta::geom::Vec2i;

fn frames(n: usize, w_px: i64, h_px: i64) -> Vec<Vec2i> {
    let mut v = Vec::new();
    for _ in 0..n {
        v.push(Vec2i::new(w_px * 1_000_000, h_px * 1_000_000));
    }
    v
}

fn character() -> Character {
    Character::new(
        &frames(4, 42, 42),
        &frames(6, 42, 42),
        &frames(8, 42, 42),
        &frames(6, 42, 42),
        Vec2i::new(10 * UNIT, 2 * UNIT),
        &frames(6, 16, 16),
    )
}

fn idle_input() -> FrameInput {
    FrameInput { left: false, right: false, jump: false, fire: false, mouse: Vec2i::new(0, 0) }
}

#[test]
fn new_character_stands_idle_near_the_left_edge() {
    let c = character();
    assert_eq!(c.rect.x, 52 * UNIT);
    assert_eq!(c.rect.y, SCREEN_HEIGHT - 3 * 42 * UNIT);
    assert_eq!(c.rect.w, 42 * UNIT - 10 * UNIT);
    assert_eq!(c.rect.h, 42 * UNIT);
    assert!(c.on_ground && !c.is_jumping && !c.is_shooting && !c.show_bow);
    assert!(c.state == CharacterState::Idle);
    assert_eq!(c.arrows.len(), 0);
}

#[test]
fn backward_shot_while_facing_right_is_rejected() {
    let mut c = character();
    assert!(c.direction == CharacterDirection::Right);
    // The muzzle sits at the box center (68, 495) px; this mouse point lies
    // due west of it, a half turn off east.
    c.shoot(Vec2i::new(0, 495 * UNIT));
    assert_eq!(c.arrows.len(), 0);
    assert!(!c.is_shooting);
    assert!(!c.show_bow);
    assert_eq!(c.shoot_timer, 0);
    assert_eq!(c.bow_aim, Vec2i::new(0, 0));
}

#[test]
fn forward_shot_spawns_an_arrow_at_the_muzzle() {
    let mut c = character();
    // Aim due east: the muzzle is at (68, 495) px.
    c.shoot(Vec2i::new(468 * UNIT, 495 * UNIT));
    assert!(c.is_shooting && c.show_bow);
    assert_eq!(c.bow_aim, Vec2i::new(400 * UNIT, 0));
    assert_eq!(c.arrows.len(), 1);
    let a = &c.arrows[0];
    assert_eq!(a.pos, Vec2i::new(68 * UNIT, 495 * UNIT));
    // 400 pixels per second due east, in micro-pixels per millisecond.
    assert_eq!(a.velocity, Vec2i::new(400_000, 0));
    assert!(!a.stuck && !a.should_remove);
}

#[test]
fn straight_up_shot_is_inside_the_cone() {
    let mut c = character();
    c.shoot(Vec2i::new(68 * UNIT, 0));
    assert_eq!(c.arrows.len(), 1);
    assert_eq!(c.arrows[0].velocity, Vec2i::new(0, -400_000));
}

#[test]
fn camera_offset_shifts_the_mouse_into_world_space() {
    let mut c = character();
    c.set_camera_offset(Vec2i::new(100 * UNIT, 0));
    // Screen point (368, 495) plus the offset is the same due-east aim.
    c.shoot(Vec2i::new(368 * UNIT, 495 * UNIT));
    assert_eq!(c.arrows.len(), 1);
    assert_eq!(c.arrows[0].velocity, Vec2i::new(400_000, 0));
}

#[test]
fn backward_shot_while_facing_left_is_rejected() {
    let mut c = character();
    let mut input = idle_input();
    input.left = true;
    c.handle_keys(&input, 16);
    assert!(c.direction == CharacterDirection::Left);
    // Facing left, an aim east of the muzzle is refused.
    let before = c.arrows.len();
    c.shoot(Vec2i::new(700 * UNIT, 495 * UNIT));
    assert_eq!(c.arrows.len(), before);
    assert!(!c.is_shooting);
}

#[test]
fn holding_right_walks_at_player_speed() {
    let mut c = character();
    let mut input = idle_input();
    input.right = true;
    c.handle_keys(&input, 100);
    assert_eq!(c.velocity.x, PLAYER_SPEED);
    assert!(c.state == CharacterState::Walk);
    assert!(c.direction == CharacterDirection::Right);
    // 150 px/s for 100 ms is 15 px; gravity built up 98 px/s of fall.
    assert_eq!(c.rect.x, 52 * UNIT + 15 * UNIT);
    assert_eq!(c.velocity.y, GRAVITY * 100);
    assert_eq!(c.rect.y, SCREEN_HEIGHT - 3 * 42 * UNIT + GRAVITY * 100 * 100);
}

#[test]
fn releasing_keys_returns_to_idle() {
    let mut c = character();
    let mut input = idle_input();
    input.right = true;
    c.handle_keys(&input, 16);
    c.handle_keys(&idle_input(), 16);
    assert_eq!(c.velocity.x, 0);
    assert!(c.state == CharacterState::Idle);
}

#[test]
fn jump_launches_upward_from_the_ground() {
    let mut c = character();
    let mut input = idle_input();
    input.jump = true;
    c.handle_keys(&input, 100);
    assert!(c.is_jumping && !c.on_ground);
    assert!(c.state == CharacterState::Jump);
    // The jump impulse, less 100 ms of gravity.
    assert_eq!(c.velocity.y, -JUMP_POWER + GRAVITY * 100);
    assert_eq!(c.rect.y, SCREEN_HEIGHT - 3 * 42 * UNIT + (-JUMP_POWER + GRAVITY * 100) * 100);
    // Airborne now: a second press does nothing.
    let vy = c.velocity.y;
    c.handle_keys(&input, 0);
    assert_eq!(c.velocity.y, vy);
}

#[test]
fn landing_on_the_floor_grounds_and_idles() {
    let mut c = character();
    let mut input = idle_input();
    input.jump = true;
    c.handle_keys(&input, 16);
    // Fall for a long while: the floor clamp catches the box.
    c.handle_keys(&idle_input(), 2_000);
    assert!(c.on_ground && !c.is_jumping);
    assert_eq!(c.velocity.y, 0);
    assert_eq!(c.rect.y, SCREEN_HEIGHT - c.rect.h);
    assert!(c.state == CharacterState::Idle);
}

#[test]
fn firing_shows_the_attack_state_and_expires() {
    let mut c = character();
    let mut input = idle_input();
    input.fire = true;
    input.mouse = Vec2i::new(468 * UNIT, 495 * UNIT);
    c.handle_keys(&input, 16);
    assert!(c.is_shooting && c.show_bow);
    assert!(c.state == CharacterState::Attack);
    assert_eq!(c.arrows.len(), 1);
    // The 200 ms shot timer expires and the display falls back to idle.
    c.handle_keys(&idle_input(), 200);
    assert!(!c.is_shooting && !c.show_bow);
}

#[test]
fn rejected_fire_still_shows_the_attack_state() {
    let mut c = character();
    let mut input = idle_input();
    input.fire = true;
    input.mouse = Vec2i::new(0, 495 * UNIT);
    c.handle_keys(&input, 16);
    assert_eq!(c.arrows.len(), 0);
    assert!(!c.is_shooting);
    assert!(c.state == CharacterState::Attack);
}

#[test]
fn update_advances_arrows_ballistically() {
    let mut c = character();
    c.shoot(Vec2i::new(468 * UNIT, 495 * UNIT));
    c.update(100);
    let a = &c.arrows[0];
    // Gravity of 200 px/s/s for 100 ms, then integration over 100 ms.
    assert_eq!(a.velocity, Vec2i::new(400_000, 20_000));
    assert_eq!(a.pos.x, 68 * UNIT + 400_000 * 100);
    assert_eq!(a.pos.y, 495 * UNIT + 20_000 * 100);
    assert_eq!(a.rect.x, a.pos.x);
}

#[test]
fn update_advances_the_active_animation() {
    let mut c = character();
    c.update(100);
    assert_eq!(c.animate_idle.timer, 100);
    assert_eq!(c.animate_walk.timer, 0);
    c.update(100);
    // The 200 ms idle frame time expires.
    assert_eq!(c.animate_idle.get_current_frame(), 1);
    assert_eq!(c.animate_idle.timer, 0);
}

#[test]
fn draw_lists_state_sprite_bow_and_arrows() {
    let mut c = character();
    let (ops, _) = c.draw();
    assert_eq!(ops.len(), 1);
    assert!(ops[0].sheet == SheetId::CharIdle);
    assert_eq!(ops[0].sprite.x, 52 * UNIT);
    assert_eq!(ops[0].sprite.y, SCREEN_HEIGHT - 3 * 42 * UNIT);
    c.shoot(Vec2i::new(468 * UNIT, 495 * UNIT));
    let (ops2, _) = c.draw();
    assert_eq!(ops2.len(), 3);
    assert!(ops2[1].sheet == SheetId::Bow);
    assert!(ops2[1].sprite.rotated);
    assert_eq!(ops2[1].sprite.rot_dir, Vec2i::new(400 * UNIT, 0));
    assert!(ops2[2].sheet == SheetId::ArrowSprite);
    assert_eq!(ops2[2].sprite.rot_dir, Vec2i::new(400_000, 0));
}

#[test]
fn bow_visibility_toggles() {
    let mut c = character();
    c.set_bow_visibility(true);
    assert!(c.show_bow);
    c.toggle_bow();
    assert!(!c.show_bow);
    c.set_shoot_duration(500);
    assert_eq!(c.shoot_duration, 500);
}
