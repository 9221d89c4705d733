use fluffy_fiesta::arrow::Arrow;
use fluffy_fiesta::character::Character;
use fluffy_fiesta::collision::{check_tilemap_collision, resolve_character_tile};
use fluffy_fiesta::constants::{ARROW_ENEMY_STUCK_START, EMBED_DEPTH, SCREEN_HEIGHT, UNIT};
use fluffy_fiesta::enemy::Enemy;
use fluffy_fiesta::geom::{offset_along, Recti, Vec2i};
use fluffy_fiesta::map::{create_map, tile_rect};

fn frames(n: usize, w_px: i64, h_px: i64) -> Vec<Vec2i> {
    let mut v = Vec::new();
    for _ in 0..n {
        v.push(Vec2i::new(w_px * 1_000_000, h_px * 1_000_000));
    }
    v
}

fn character() -> Character {
    Character::new(
        &frames(4, 42, 42),
        &frames(6, 42, 42),
        &frames(8, 42, 42),
        &frames(6, 42, 42),
        Vec2i::new(10 * UNIT, 2 * UNIT),
        &frames(6, 16, 16),
    )
}

fn enemy() -> Enemy {
    Enemy::new(
        &frames(8, 48, 48),
        &frames(8, 48, 48),
        &frames(4, 48, 48),
        &frames(15, 48, 48),
    )
}

#[test]
fn minimum_penetration_snaps_to_the_tile_top() {
    let mut c = character();
    // A 4x4 box against a 6x6 tile with penetrations left 3, right 7,
    // top 1, bottom 9: the top is the cheapest correction.
    c.rect = Recti::new(99 * UNIT, 97 * UNIT, 4 * UNIT, 4 * UNIT);
    c.velocity = Vec2i::new(0, 123_000);
    c.on_ground = false;
    c.is_jumping = true;
    let entry = c.rect;
    let tile = Recti::new(100 * UNIT, 100 * UNIT, 6 * UNIT, 6 * UNIT);
    resolve_character_tile(&mut c, &entry, &tile);
    assert_eq!(c.rect.y, tile.y - c.rect.h);
    assert_eq!(c.velocity.y, 0);
    assert!(c.on_ground);
    assert!(!c.is_jumping);
    assert_eq!(c.rect.x, 99 * UNIT);
}

#[test]
fn minimum_penetration_snaps_left_when_cheapest() {
    let mut c = character();
    // Penetrations left 1, right 9, top 3, bottom 7.
    let tile = Recti::new(100 * UNIT, 100 * UNIT, 6 * UNIT, 6 * UNIT);
    c.rect = Recti::new(97 * UNIT, 99 * UNIT, 4 * UNIT, 4 * UNIT);
    c.velocity = Vec2i::new(0, 123_000);
    c.on_ground = false;
    let entry = c.rect;
    resolve_character_tile(&mut c, &entry, &tile);
    assert_eq!(c.rect.x, tile.x - c.rect.w);
    assert_eq!(c.rect.y, 99 * UNIT);
    // A horizontal snap leaves the fall untouched.
    assert_eq!(c.velocity.y, 123_000);
    assert!(!c.on_ground);
}

#[test]
fn non_overlapping_tile_leaves_the_character_alone() {
    let mut c = character();
    let entry = c.rect;
    let tile = Recti::new(700 * UNIT, 0, 6 * UNIT, 6 * UNIT);
    let before_rect = c.rect;
    resolve_character_tile(&mut c, &entry, &tile);
    assert_eq!(c.rect, before_rect);
}

#[test]
fn arrow_embeds_exactly_the_embed_depth_along_its_flight() {
    let mut a = Arrow::new(
        Vec2i::new(0, 0),
        Vec2i::new(400_000, 0),
        Vec2i::new(10 * UNIT, 2 * UNIT),
    );
    // Tip: center (5, 1) px pushed 8 px east = (13, 1) px.
    let tip = a.get_tip_collision_point();
    assert_eq!(tip, Vec2i::new(13 * UNIT, 1 * UNIT));
    let tile = Recti::new(10 * UNIT, 0, 10 * UNIT, 10 * UNIT);
    let hit = a.check_collision_and_embed(&tile, EMBED_DEPTH);
    assert!(hit);
    assert_eq!(a.pos, Vec2i::new(15 * UNIT, 0));
    assert_eq!(a.rect.x, 15 * UNIT);
    // The caller freezes it; from then on updates leave the position alone.
    a.stuck_dir = a.velocity;
    a.velocity = Vec2i::new(0, 0);
    a.stuck = true;
    a.stuck_timer = 0;
    a.update(100);
    assert_eq!(a.pos, Vec2i::new(15 * UNIT, 0));
    assert_eq!(a.stuck_timer, 100);
    assert!(!a.should_remove);
    a.update(2_900);
    assert_eq!(a.pos, Vec2i::new(15 * UNIT, 0));
    assert!(a.should_remove);
}

#[test]
fn arrow_misses_a_tile_away_from_its_tip() {
    let mut a = Arrow::new(
        Vec2i::new(0, 0),
        Vec2i::new(400_000, 0),
        Vec2i::new(10 * UNIT, 2 * UNIT),
    );
    let tile = Recti::new(50 * UNIT, 50 * UNIT, 10 * UNIT, 10 * UNIT);
    assert!(!a.check_collision_and_embed(&tile, EMBED_DEPTH));
    assert_eq!(a.pos, Vec2i::new(0, 0));
}

#[test]
fn offset_along_scales_by_the_floor_square_root() {
    // A 3-4-5 triangle scales exactly.
    assert_eq!(offset_along(Vec2i::new(3, 4), 100), Vec2i::new(60, 80));
    assert_eq!(offset_along(Vec2i::new(-3, 4), 100), Vec2i::new(-60, 80));
    // The zero vector points east by convention.
    assert_eq!(offset_along(Vec2i::new(0, 0), 100), Vec2i::new(100, 0));
}

#[test]
fn frame_pass_strikes_the_enemy_and_freezes_the_arrow() {
    let mut c = character();
    c.shoot(Vec2i::new(468 * UNIT, 495 * UNIT));
    let mut e = enemy();
    // Park the enemy over the arrow's spawn point.
    e.rect = Recti::new(60 * UNIT, 490 * UNIT, 38 * UNIT, 48 * UNIT);
    let mut enemies = vec![e];
    let map = create_map();
    let tile_size = 16 * UNIT;
    let y_offset = SCREEN_HEIGHT - 20 * tile_size;
    check_tilemap_collision(&mut c, &mut enemies, &map, tile_size, y_offset);
    assert_eq!(enemies.len(), 1);
    assert!(enemies[0].is_hit());
    assert_eq!(enemies[0].lives, 0);
    let a = &c.arrows[0];
    assert!(a.stuck);
    assert_eq!(a.velocity, Vec2i::new(0, 0));
    assert_eq!(a.stuck_dir, Vec2i::new(400_000, 0));
    assert_eq!(a.stuck_timer, ARROW_ENEMY_STUCK_START);
}

#[test]
fn frame_pass_purges_spent_arrows_and_dead_enemies() {
    let mut c = character();
    c.shoot(Vec2i::new(468 * UNIT, 495 * UNIT));
    c.arrows[0].should_remove = true;
    let mut e = enemy();
    e.lives = 0;
    e.hit();
    e.die_timer = e.die_duration;
    let mut enemies = vec![e];
    let map = create_map();
    let tile_size = 16 * UNIT;
    let y_offset = SCREEN_HEIGHT - 20 * tile_size;
    check_tilemap_collision(&mut c, &mut enemies, &map, tile_size, y_offset);
    assert_eq!(c.arrows.len(), 0);
    assert_eq!(enemies.len(), 0);
}

#[test]
fn frame_pass_embeds_an_arrow_into_the_border_wall() {
    let mut c = character();
    // Aim due east from the muzzle; the arrow spawns at x = 68 px.
    c.shoot(Vec2i::new(468 * UNIT, 495 * UNIT));
    // Walk the arrow to just short of the right border column at 784 px.
    let tile_size = 16 * UNIT;
    let y_offset = SCREEN_HEIGHT - 20 * tile_size;
    c.arrows[0].pos = Vec2i::new(773 * UNIT, 495 * UNIT);
    c.arrows[0].rect.x = 773 * UNIT;
    c.arrows[0].rect.y = 495 * UNIT;
    // Tip = (773 + 5 + 8, 496) px = (786, 496) px, inside the border column.
    let mut enemies: Vec<Enemy> = Vec::new();
    let map = create_map();
    check_tilemap_collision(&mut c, &mut enemies, &map, tile_size, y_offset);
    let a = &c.arrows[0];
    assert!(a.stuck);
    assert_eq!(a.stuck_timer, 0);
    assert_eq!(a.pos.x, 773 * UNIT + EMBED_DEPTH);
    assert_eq!(a.stuck_dir, Vec2i::new(400_000, 0));
}

#[test]
fn frame_pass_lands_the_character_on_the_ground_row() {
    let mut c = character();
    let tile_size = 16 * UNIT;
    let y_offset = SCREEN_HEIGHT - 20 * tile_size;
    // Drop the box so it pokes 2 px into the ground row at 584 px.
    c.rect = Recti::new(200 * UNIT, 544 * UNIT, 32 * UNIT, 42 * UNIT);
    c.velocity = Vec2i::new(0, 250_000);
    c.on_ground = false;
    c.is_jumping = true;
    let mut enemies: Vec<Enemy> = Vec::new();
    let map = create_map();
    check_tilemap_collision(&mut c, &mut enemies, &map, tile_size, y_offset);
    assert_eq!(c.rect.y, 584 * UNIT - 42 * UNIT);
    assert_eq!(c.velocity.y, 0);
    assert!(c.on_ground);
    assert!(!c.is_jumping);
}

#[test]
fn only_the_first_overlapping_enemy_takes_the_hit() {
    let mut c = character();
    c.shoot(Vec2i::new(468 * UNIT, 495 * UNIT));
    let mut e1 = enemy();
    e1.rect = Recti::new(60 * UNIT, 490 * UNIT, 38 * UNIT, 48 * UNIT);
    let mut e2 = enemy();
    e2.rect = Recti::new(60 * UNIT, 490 * UNIT, 38 * UNIT, 48 * UNIT);
    let mut enemies = vec![e1, e2];
    let map = create_map();
    let tile_size = 16 * UNIT;
    let y_offset = SCREEN_HEIGHT - 20 * tile_size;
    check_tilemap_collision(&mut c, &mut enemies, &map, tile_size, y_offset);
    // The arrow froze in the first enemy; the second was never reached.
    assert!(enemies[0].is_hit());
    assert!(enemies[1].can_be_hit());
    assert!(c.arrows[0].stuck);
}

#[test]
fn a_staggered_enemy_cannot_be_struck() {
    let mut c = character();
    c.shoot(Vec2i::new(468 * UNIT, 495 * UNIT));
    let mut e = enemy();
    e.rect = Recti::new(60 * UNIT, 490 * UNIT, 38 * UNIT, 48 * UNIT);
    e.hit();
    assert!(e.is_hit());
    let lives_before = e.lives;
    let mut enemies = vec![e];
    let map = create_map();
    let tile_size = 16 * UNIT;
    let y_offset = SCREEN_HEIGHT - 20 * tile_size;
    check_tilemap_collision(&mut c, &mut enemies, &map, tile_size, y_offset);
    // The staggered enemy was passed over and the arrow flew on.
    assert_eq!(enemies[0].lives, lives_before);
    assert!(!c.arrows[0].stuck);
}

#[test]
fn map_has_the_documented_shape() {
    let map = create_map();
    assert_eq!(map.len(), 20);
    for row in &map {
        assert_eq!(row.len(), 50);
    }
    // Border columns and the ground row.
    assert!(map[0][0] && map[0][49] && map[19][25]);
    assert!(!map[0][5]);
    // Platform runs.
    assert!(map[13][10] && map[13][12] && !map[13][13]);
    assert!(map[16][11] && !map[16][12] && map[16][13]);
    assert!(map[15][3] && !map[15][5] && map[15][31]);
    assert!(map[17][2] && map[17][17] && map[17][22] && !map[17][3]);
    assert!(map[18][20] && map[18][27] && !map[18][28]);
}

#[test]
fn tile_rects_tile_the_grid() {
    let r = tile_rect(3, 2, 16 * UNIT, 280 * UNIT);
    assert_eq!(r, Recti::new(48 * UNIT, 312 * UNIT, 16 * UNIT, 16 * UNIT));
    let first = tile_rect(0, 0, 16 * UNIT, 280 * UNIT);
    assert_eq!(first, Recti::new(0, 280 * UNIT, 16 * UNIT, 16 * UNIT));
}
