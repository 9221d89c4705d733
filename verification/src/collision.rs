//! The frame's collision resolution: expired arrows and dead enemies are
//! purged, arrows strike enemies and embed into tiles, and the character's
//! box is pushed out of overlapping tiles along the axis of minimum
//! penetration.  Enemy-hit testing runs as a pass of its own rather than
//! inside the tile loop.

use vstd::prelude::*;

use crate::arrow::Arrow;
use crate::character::Character;
use crate::constants::{ARROW_ENEMY_STUCK_START, EMBED_DEPTH, POS_LIMIT};
use crate::enemy::{Enemy, EnemyState};
use crate::geom::{Recti, Vec2i};
use crate::map::{tile_rect, tile_rect_spec};

verus! {

/// The grid as a sequence of rows of cell flags.
pub open spec fn map_view(tilemap: Vec<Vec<bool>>) -> Seq<Seq<bool>> {
    tilemap@.map_values(|row: Vec<bool>| row@)
}

pub open spec fn map_dims_ok(map: Seq<Seq<bool>>) -> bool {
    &&& map.len() <= 1000
    &&& forall|r: int| 0 <= r < map.len() ==> (#[trigger] map[r]).len() <= 1000
}

// ---------------------------------------------------------------------------
// Arrows striking enemies
// ---------------------------------------------------------------------------

/// An arrow stuck in an enemy: direction frozen, velocity zeroed, and the
/// stuck timer started near its limit so the arrow vanishes soon.
pub open spec fn freeze_on_enemy(a: Arrow) -> Arrow {
    Arrow {
        stuck_dir: a.velocity,
        velocity: Vec2i { x: 0, y: 0 },
        stuck: true,
        stuck_timer: ARROW_ENEMY_STUCK_START,
        ..a
    }
}

/// Whether a flying arrow strikes this enemy: only enemies in flight can be
/// hit, and the boxes must overlap.
pub open spec fn strikes(a: Arrow, e: Enemy) -> bool {
    e.state == EnemyState::Fly && e.rect.overlaps_spec(a.rect)
}

/// The index of the first enemy at or after `i` that the arrow strikes, or
/// the length when there is none.
pub open spec fn first_struck(a: Arrow, enemies: Seq<Enemy>, i: int) -> int
    decreases enemies.len() - i when 0 <= i <= enemies.len()
{
    if i >= enemies.len() {
        enemies.len() as int
    } else if strikes(a, enemies[i]) {
        i
    } else {
        first_struck(a, enemies, i + 1)
    }
}

/// One arrow against the enemies: a stuck arrow does nothing; otherwise the
/// first struck enemy takes the hit and the arrow freezes in it.
pub open spec fn arrow_enemy_result(a: Arrow, enemies: Seq<Enemy>) -> (Arrow, Seq<Enemy>) {
    if a.stuck {
        (a, enemies)
    } else {
        let k = first_struck(a, enemies, 0);
        if k < enemies.len() {
            (freeze_on_enemy(a), enemies.update(k, Enemy::hit_spec(enemies[k])))
        } else {
            (a, enemies)
        }
    }
}

/// All arrows against the enemies, in order.
pub open spec fn enemy_pass_all(arrows: Seq<Arrow>, enemies: Seq<Enemy>) -> (Seq<Arrow>, Seq<
    Enemy,
>)
    decreases arrows.len(),
{
    if arrows.len() == 0 {
        (arrows, enemies)
    } else {
        let head = arrow_enemy_result(arrows[0], enemies);
        let rest = enemy_pass_all(arrows.drop_first(), head.1);
        (seq![head.0] + rest.0, rest.1)
    }
}

proof fn lemma_enemy_pass_all_len(arrows: Seq<Arrow>, enemies: Seq<Enemy>)
    ensures
        enemy_pass_all(arrows, enemies).0.len() == arrows.len(),
    decreases arrows.len(),
{
    if arrows.len() > 0 {
        let head = arrow_enemy_result(arrows[0], enemies);
        lemma_enemy_pass_all_len(arrows.drop_first(), head.1);
    }
}

proof fn lemma_skip_drop_first<A>(s: Seq<A>, i: int)
    requires
        0 <= i < s.len(),
    ensures
        s.skip(i).drop_first() == s.skip(i + 1),
{
    assert forall|k: int| 0 <= k < s.skip(i).drop_first().len() implies s.skip(i).drop_first()[k]
        == s.skip(i + 1)[k] by {
        assert(s.skip(i).drop_first()[k] == s.skip(i)[k + 1]);
        assert(s.skip(i)[k + 1] == s[i + k + 1]);
        assert(s.skip(i + 1)[k] == s[i + 1 + k]);
    }
    assert(s.skip(i).drop_first() =~= s.skip(i + 1));
}

/// One arrow's pass over the enemies.
fn arrow_strike_enemies(arrow: &mut Arrow, enemies: &mut Vec<Enemy>)
    requires
        old(arrow).wf(),
        forall|j: int| 0 <= j < old(enemies)@.len() ==> (#[trigger] old(enemies)@[j]).wf(),
    ensures
        (*final(arrow), final(enemies)@) == arrow_enemy_result(*old(arrow), old(enemies)@),
        final(arrow).wf(),
        forall|j: int| 0 <= j < final(enemies)@.len() ==> (#[trigger] final(enemies)@[j]).wf(),
{
    if arrow.stuck {
        return ;
    }
    let ghost enemies0 = enemies@;
    let mut j: usize = 0;
    while j < enemies.len()
        invariant
            0 <= j <= enemies0.len(),
            enemies@ == enemies0,
            enemies0 == old(enemies)@,
            *arrow == *old(arrow),
            !arrow.stuck,
            arrow.wf(),
            forall|k: int| 0 <= k < enemies0.len() ==> (#[trigger] enemies0[k]).wf(),
            first_struck(*arrow, enemies0, j as int) == first_struck(*arrow, enemies0, 0),
        decreases enemies0.len() - j,
    {
        let e_can = enemies[j].can_be_hit();
        let e_overlaps = if e_can {
            enemies[j].rect.overlaps(&arrow.rect)
        } else {
            false
        };
        if e_can && e_overlaps {
            proof {
                assert(strikes(*arrow, enemies0[j as int]));
                assert(first_struck(*arrow, enemies0, j as int) == j as int);
            }
            let mut taken = placeholder_enemy();
            enemies.set_and_swap(j, &mut taken);
            taken.hit();
            enemies.set_and_swap(j, &mut taken);
            proof {
                assert(enemies@ =~= enemies0.update(
                    j as int,
                    Enemy::hit_spec(enemies0[j as int]),
                ));
            }
            arrow.stuck_dir = arrow.velocity;
            arrow.velocity = Vec2i { x: 0, y: 0 };
            arrow.stuck = true;
            arrow.stuck_timer = ARROW_ENEMY_STUCK_START;
            proof {
                assert(first_struck(*old(arrow), enemies0, 0) == j as int);
                assert(*arrow == freeze_on_enemy(*old(arrow)));
            }
            return ;
        }
        proof {
            assert(!strikes(*arrow, enemies0[j as int]));
            assert(first_struck(*arrow, enemies0, j as int) == first_struck(
                *arrow,
                enemies0,
                j + 1,
            ));
        }
        j = j + 1;
    }
    proof {
        assert(first_struck(*arrow, enemies0, enemies0.len() as int) == enemies0.len());
    }
}

/// A throwaway enemy to swap against when taking one out of the collection.
fn placeholder_enemy() -> (e: Enemy) {
    let empty = crate::animate::Animate::new_with_offsets(&Vec::new(), 1, Vec::new());
    let empty2 = crate::animate::Animate::new_with_offsets(&Vec::new(), 1, Vec::new());
    let empty3 = crate::animate::Animate::new_with_offsets(&Vec::new(), 1, Vec::new());
    let empty4 = crate::animate::Animate::new_with_offsets(&Vec::new(), 1, Vec::new());
    Enemy {
        animate_idle: empty,
        animate_fly: empty2,
        animate_hit: empty3,
        animate_die: empty4,
        velocity: Vec2i { x: 0, y: 0 },
        rect: Recti { x: 0, y: 0, w: 0, h: 0 },
        direction: crate::animate::CharacterDirection::Right,
        speed: 0,
        lives: 0,
        state: EnemyState::Fly,
        stored_velocity: Vec2i { x: 0, y: 0 },
        hit_timer: 0,
        die_timer: 0,
        hit_duration: 1,
        die_duration: 1,
    }
}

// ---------------------------------------------------------------------------
// Arrows embedding into tiles
// ---------------------------------------------------------------------------

/// An arrow freshly embedded in terrain: direction frozen, velocity zeroed,
/// stuck timer started from zero.
pub open spec fn freeze_on_tile(a: Arrow) -> Arrow {
    Arrow {
        stuck_dir: a.velocity,
        velocity: Vec2i { x: 0, y: 0 },
        stuck: true,
        stuck_timer: 0,
        ..a
    }
}

/// Whether the solid tile at row `r`, column `c` catches the arrow's tip.
pub open spec fn tile_catches(
    map: Seq<Seq<bool>>,
    ts: i64,
    yo: i64,
    a: Arrow,
    r: int,
    c: int,
) -> bool {
    map[r][c] && tile_rect_spec(c, r, ts, yo).contains_spec(a.tip_spec())
}

/// The first grid cell, in row-major order from (`r`, `c`), whose solid
/// tile catches the arrow's tip.
pub open spec fn first_catching_tile(
    map: Seq<Seq<bool>>,
    ts: i64,
    yo: i64,
    a: Arrow,
    r: int,
    c: int,
) -> Option<(int, int)>
    decreases map.len() - r, (if r < map.len() { map[r].len() + 1 - c } else { 0 }) when 0 <= r && 0 <= c
{
    if r >= map.len() {
        None
    } else if c >= map[r].len() {
        first_catching_tile(map, ts, yo, a, r + 1, 0)
    } else if tile_catches(map, ts, yo, a, r, c) {
        Some((r, c))
    } else {
        first_catching_tile(map, ts, yo, a, r, c + 1)
    }
}

/// One arrow against the grid: a stuck arrow is left alone; otherwise the
/// first tile that catches the tip embeds and freezes the arrow.
pub open spec fn arrow_tile_result(map: Seq<Seq<bool>>, ts: i64, yo: i64, a: Arrow) -> Arrow {
    if a.stuck {
        a
    } else if first_catching_tile(map, ts, yo, a, 0, 0) is Some {
        freeze_on_tile(Arrow::embed_spec(a, EMBED_DEPTH))
    } else {
        a
    }
}

/// One arrow's scan of the grid.
fn arrow_embed_in_tiles(arrow: &mut Arrow, tilemap: &Vec<Vec<bool>>, tile_size: i64, y_offset: i64)
    requires
        old(arrow).wf(),
        map_dims_ok(map_view(*tilemap)),
        0 <= tile_size <= 1_000_000_000,
        -500_000_000_000_000 <= y_offset <= 500_000_000_000_000,
    ensures
        *final(arrow) == arrow_tile_result(map_view(*tilemap), tile_size, y_offset, *old(arrow)),
{
    let ghost map = map_view(*tilemap);
    if arrow.stuck {
        return ;
    }
    let mut r: usize = 0;
    while r < tilemap.len()
        invariant
            0 <= r <= map.len(),
            map == map_view(*tilemap),
            map_dims_ok(map),
            0 <= tile_size <= 1_000_000_000,
            -500_000_000_000_000 <= y_offset <= 500_000_000_000_000,
            *arrow == *old(arrow),
            !arrow.stuck,
            arrow.wf(),
            first_catching_tile(map, tile_size, y_offset, *arrow, r as int, 0)
                == first_catching_tile(map, tile_size, y_offset, *arrow, 0, 0),
        decreases map.len() - r,
    {
        let row_len = tilemap[r].len();
        let mut c: usize = 0;
        while c < row_len
            invariant
                0 <= r < map.len(),
                0 <= c <= row_len,
                row_len == map[r as int].len(),
                map == map_view(*tilemap),
                map_dims_ok(map),
                0 <= tile_size <= 1_000_000_000,
                -500_000_000_000_000 <= y_offset <= 500_000_000_000_000,
                *arrow == *old(arrow),
                !arrow.stuck,
                arrow.wf(),
                first_catching_tile(map, tile_size, y_offset, *arrow, r as int, c as int)
                    == first_catching_tile(map, tile_size, y_offset, *arrow, 0, 0),
            decreases row_len - c,
        {
            if tilemap[r][c] {
                let trect = tile_rect(c, r, tile_size, y_offset);
                let hit = arrow.check_collision_and_embed(&trect, EMBED_DEPTH);
                if hit {
                    proof {
                        assert(tile_catches(
                            map,
                            tile_size,
                            y_offset,
                            *old(arrow),
                            r as int,
                            c as int,
                        ));
                    }
                    arrow.stuck_dir = arrow.velocity;
                    arrow.velocity = Vec2i { x: 0, y: 0 };
                    arrow.stuck = true;
                    arrow.stuck_timer = 0;
                    return ;
                }
            }
            proof {
                assert(!tile_catches(map, tile_size, y_offset, *arrow, r as int, c as int));
            }
            c = c + 1;
        }
        r = r + 1;
    }
}

// ---------------------------------------------------------------------------
// Character against tiles: minimum-penetration resolution
// ---------------------------------------------------------------------------

/// The parts of the character the tile resolution may move.
#[derive(Clone, Copy, PartialEq, Eq, Structural, Debug)]
pub struct BodyState {
    pub rect: Recti,
    pub velocity: Vec2i,
    pub on_ground: bool,
    pub is_jumping: bool,
}

pub open spec fn body_of(c: Character) -> BodyState {
    BodyState { rect: c.rect, velocity: c.velocity, on_ground: c.on_ground, is_jumping: c.is_jumping }
}

/// Resolution against one tile.  The overlap is judged against the box as
/// it stood when the frame's resolution began (`entry`); the correction is
/// applied to the current body along the axis of minimum penetration, ties
/// going left, right, top, then bottom.  A snap to the tile's top grounds
/// the character.
pub open spec fn resolve_tile_spec(b: BodyState, entry: Recti, tile: Recti) -> BodyState {
    if entry.overlaps_spec(tile) {
        let from_left = entry.right_spec() - tile.left_spec();
        let from_right = tile.right_spec() - entry.left_spec();
        let from_top = entry.bottom_spec() - tile.top_spec();
        let from_bottom = tile.bottom_spec() - entry.top_spec();
        let m1 = if from_left <= from_right {
            from_left
        } else {
            from_right
        };
        let m2 = if m1 <= from_top {
            m1
        } else {
            from_top
        };
        let min_value = if m2 <= from_bottom {
            m2
        } else {
            from_bottom
        };
        if min_value == from_left {
            BodyState { rect: Recti { x: (tile.left_spec() - b.rect.w) as i64, ..b.rect }, ..b }
        } else if min_value == from_right {
            BodyState { rect: Recti { x: tile.right_spec() as i64, ..b.rect }, ..b }
        } else if min_value == from_top {
            BodyState {
                rect: Recti { y: (tile.top_spec() - b.rect.h) as i64, ..b.rect },
                velocity: Vec2i { x: b.velocity.x, y: 0 },
                on_ground: true,
                is_jumping: false,
            }
        } else {
            BodyState {
                rect: Recti { y: tile.bottom_spec() as i64, ..b.rect },
                velocity: Vec2i { x: b.velocity.x, y: 0 },
                ..b
            }
        }
    } else {
        b
    }
}

/// The whole grid's resolution, row-major from (`r`, `c`): every solid
/// tile's correction is applied in turn.
pub open spec fn resolve_from(
    b: BodyState,
    entry: Recti,
    map: Seq<Seq<bool>>,
    ts: i64,
    yo: i64,
    r: int,
    c: int,
) -> BodyState
    decreases map.len() - r, (if r < map.len() { map[r].len() + 1 - c } else { 0 }) when 0 <= r && 0 <= c
{
    if r >= map.len() {
        b
    } else if c >= map[r].len() {
        resolve_from(b, entry, map, ts, yo, r + 1, 0)
    } else {
        let b1 = if map[r][c] {
            resolve_tile_spec(b, entry, tile_rect_spec(c, r, ts, yo))
        } else {
            b
        };
        resolve_from(b1, entry, map, ts, yo, r, c + 1)
    }
}

/// Applies one tile's minimum-penetration correction to the character.
pub fn resolve_character_tile(character: &mut Character, entry: &Recti, tile: &Recti)
    requires
        old(character).rect.in_range(2 * POS_LIMIT as int),
        0 <= old(character).rect.w <= POS_LIMIT,
        0 <= old(character).rect.h <= POS_LIMIT,
        entry.in_range(POS_LIMIT as int),
        tile.in_range(POS_LIMIT as int),
    ensures
        body_of(*final(character)) == resolve_tile_spec(body_of(*old(character)), *entry, *tile),
        *final(character) == (Character {
            rect: final(character).rect,
            velocity: final(character).velocity,
            on_ground: final(character).on_ground,
            is_jumping: final(character).is_jumping,
            ..*old(character)
        }),
        final(character).rect.in_range(2 * POS_LIMIT as int),
        final(character).rect.w == old(character).rect.w,
        final(character).rect.h == old(character).rect.h,
{
    if entry.overlaps(tile) {
        let from_left = (entry.x + entry.w) - tile.x;
        let from_right = (tile.x + tile.w) - entry.x;
        let from_top = (entry.y + entry.h) - tile.y;
        let from_bottom = (tile.y + tile.h) - entry.y;

        let m1 = if from_left <= from_right {
            from_left
        } else {
            from_right
        };
        let m2 = if m1 <= from_top {
            m1
        } else {
            from_top
        };
        let min_value = if m2 <= from_bottom {
            m2
        } else {
            from_bottom
        };

        if min_value == from_left {
            character.rect.x = tile.x - character.rect.w;
        } else if min_value == from_right {
            character.rect.x = tile.x + tile.w;
        } else if min_value == from_top {
            character.rect.y = tile.y - character.rect.h;
            character.velocity.y = 0;
            character.on_ground = true;
            character.is_jumping = false;
        } else {
            character.rect.y = tile.y + tile.h;
            character.velocity.y = 0;
        }
    }
}

// ---------------------------------------------------------------------------
// Purging
// ---------------------------------------------------------------------------

/// Keeps the arrows not yet flagged for removal, in order.
fn retain_live_arrows(arrows: &mut Vec<Arrow>)
    requires
        forall|j: int| 0 <= j < old(arrows)@.len() ==> (#[trigger] old(arrows)@[j]).wf(),
    ensures
        final(arrows)@ == old(arrows)@.filter(|a: Arrow| !a.should_remove),
        forall|j: int| 0 <= j < final(arrows)@.len() ==> (#[trigger] final(arrows)@[j]).wf(),
{
    let ghost arrows0 = arrows@;
    let mut kept: Vec<Arrow> = Vec::new();
    proof {
        reveal(Seq::filter);
        assert(arrows0.take(0) =~= Seq::<Arrow>::empty());
    }
    let mut i: usize = 0;
    while i < arrows.len()
        invariant
            0 <= i <= arrows0.len(),
            arrows@ == arrows0,
            forall|j: int| 0 <= j < arrows0.len() ==> (#[trigger] arrows0[j]).wf(),
            kept@ == arrows0.take(i as int).filter(|a: Arrow| !a.should_remove),
            forall|j: int| 0 <= j < kept@.len() ==> (#[trigger] kept@[j]).wf(),
        decreases arrows0.len() - i,
    {
        let a = arrows[i];
        proof {
            assert(arrows0.take(i + 1).drop_last() =~= arrows0.take(i as int));
            assert(arrows0.take(i + 1).last() == arrows0[i as int]);
            reveal(Seq::filter);
        }
        if !a.should_remove {
            kept.push(a);
        }
        i = i + 1;
    }
    proof {
        assert(arrows0.take(arrows0.len() as int) =~= arrows0);
    }
    *arrows = kept;
}

/// Keeps the enemies that have not finished dying, in order.
fn retain_live_enemies(enemies: &mut Vec<Enemy>)
    requires
        forall|j: int| 0 <= j < old(enemies)@.len() ==> (#[trigger] old(enemies)@[j]).wf(),
    ensures
        final(enemies)@ == old(enemies)@.filter(|e: Enemy| !Enemy::is_dead_spec(e)),
        forall|j: int| 0 <= j < final(enemies)@.len() ==> (#[trigger] final(enemies)@[j]).wf(),
{
    let ghost enemies0 = enemies@;
    let mut kept: Vec<Enemy> = Vec::new();
    proof {
        reveal(Seq::filter);
        assert(enemies0.take(0) =~= Seq::<Enemy>::empty());
    }
    let mut i: usize = 0;
    while i < enemies.len()
        invariant
            0 <= i <= enemies0.len(),
            enemies@.len() == enemies0.len(),
            forall|j: int| i <= j < enemies0.len() ==> enemies@[j] == #[trigger] enemies0[j],
            forall|j: int| 0 <= j < enemies0.len() ==> (#[trigger] enemies0[j]).wf(),
            kept@ == enemies0.take(i as int).filter(|e: Enemy| !Enemy::is_dead_spec(e)),
            forall|j: int| 0 <= j < kept@.len() ==> (#[trigger] kept@[j]).wf(),
        decreases enemies0.len() - i,
    {
        let mut taken = placeholder_enemy();
        enemies.set_and_swap(i, &mut taken);
        proof {
            assert(taken == enemies0[i as int]);
            assert(enemies0.take(i + 1).drop_last() =~= enemies0.take(i as int));
            assert(enemies0.take(i + 1).last() == enemies0[i as int]);
            reveal(Seq::filter);
        }
        let dead = taken.is_dead();
        if !dead {
            kept.push(taken);
        }
        i = i + 1;
    }
    proof {
        assert(enemies0.take(enemies0.len() as int) =~= enemies0);
    }
    *enemies = kept;
}

// ---------------------------------------------------------------------------
// The frame's whole resolution
// ---------------------------------------------------------------------------

/// Purges expired arrows and dead enemies, lets each arrow strike the first
/// enemy it overlaps, embeds each remaining flying arrow into the first
/// solid tile that catches its tip, and pushes the character out of every
/// overlapping tile along the axis of minimum penetration, judged against
/// the box as it stood on entry.
pub fn check_tilemap_collision(
    character: &mut Character,
    enemies: &mut Vec<Enemy>,
    tilemap: &Vec<Vec<bool>>,
    tile_size: i64,
    y_offset: i64,
)
    requires
        old(character).wf(),
        forall|j: int| 0 <= j < old(enemies)@.len() ==> (#[trigger] old(enemies)@[j]).wf(),
        map_dims_ok(map_view(*tilemap)),
        0 <= tile_size <= 1_000_000_000,
        -500_000_000_000_000 <= y_offset <= 500_000_000_000_000,
    ensures
        ({
            let map = map_view(*tilemap);
            let arrows0 = old(character).arrows@.filter(|a: Arrow| !a.should_remove);
            let enemies0 = old(enemies)@.filter(|e: Enemy| !Enemy::is_dead_spec(e));
            let pass = enemy_pass_all(arrows0, enemies0);
            let body1 = resolve_from(
                body_of(*old(character)),
                old(character).rect,
                map,
                tile_size,
                y_offset,
                0,
                0,
            );
            &&& final(enemies)@ == pass.1
            &&& forall|j: int|
                0 <= j < final(enemies)@.len() ==> (#[trigger] final(enemies)@[j]).wf()
            &&& final(character).arrows@.len() == pass.0.len()
            &&& forall|i: int|
                0 <= i < pass.0.len() ==> final(character).arrows@[i] == arrow_tile_result(
                    map,
                    tile_size,
                    y_offset,
                    #[trigger] pass.0[i],
                )
            &&& body_of(*final(character)) == body1
            &&& *final(character) == (Character {
                rect: final(character).rect,
                velocity: final(character).velocity,
                on_ground: final(character).on_ground,
                is_jumping: final(character).is_jumping,
                arrows: final(character).arrows,
                ..*old(character)
            })
        }),
{
    let ghost map = map_view(*tilemap);
    let entry = Recti {
        x: character.rect.x,
        y: character.rect.y,
        w: character.rect.w,
        h: character.rect.h,
    };

    retain_live_arrows(&mut character.arrows);
    retain_live_enemies(enemies);

    let ghost arrows1 = character.arrows@;
    let ghost enemies1 = enemies@;
    let ghost total = enemy_pass_all(arrows1, enemies1);
    proof {
        lemma_enemy_pass_all_len(arrows1, enemies1);
        assert(arrows1.skip(0) =~= arrows1);
        assert(total.0.skip(0) =~= total.0);
        assert(character.arrows@.take(0) =~= total.0.take(0));
    }

    let mut i: usize = 0;
    while i < character.arrows.len()
        invariant
            0 <= i <= arrows1.len(),
            character.arrows@.len() == arrows1.len(),
            total.0.len() == arrows1.len(),
            character.arrows@.skip(i as int) =~= arrows1.skip(i as int),
            character.arrows@.take(i as int) =~= total.0.take(i as int),
            enemy_pass_all(arrows1.skip(i as int), enemies@) == (
                total.0.skip(i as int),
                total.1,
            ),
            forall|j: int|
                0 <= j < character.arrows@.len() ==> (#[trigger] character.arrows@[j]).wf(),
            forall|j: int| 0 <= j < enemies@.len() ==> (#[trigger] enemies@[j]).wf(),
            *character == (Character { arrows: character.arrows, ..*old(character) }),
        decreases arrows1.len() - i,
    {
        let ghost arrows_pre = character.arrows@;
        let ghost enemies_pre = enemies@;
        let mut a = character.arrows[i];
        proof {
            assert(arrows1.skip(i as int)[0] == arrows1[i as int]);
            assert(a == arrows1.skip(i as int)[0]);
            lemma_skip_drop_first(arrows1, i as int);
        }
        arrow_strike_enemies(&mut a, enemies);
        character.arrows.set(i, a);
        proof {
            let head = arrow_enemy_result(arrows1.skip(i as int)[0], enemies_pre);
            assert((a, enemies@) == head);
            let rest = enemy_pass_all(arrows1.skip(i + 1), enemies@);
            assert(enemy_pass_all(arrows1.skip(i as int), enemies_pre) == (
                seq![head.0] + rest.0,
                rest.1,
            ));
            assert(seq![head.0] + rest.0 =~= total.0.skip(i as int));
            assert(rest.0 =~= (seq![head.0] + rest.0).drop_first());
            lemma_skip_drop_first(total.0, i as int);
            assert(rest.0 =~= total.0.skip(i + 1));
            assert(head.0 == total.0.skip(i as int)[0]);
            assert(total.0.skip(i as int)[0] == total.0[i as int]);
            assert(character.arrows@.take(i + 1) =~= total.0.take(i + 1));
            assert(character.arrows@.skip(i + 1) =~= arrows1.skip(i + 1));
        }
        i = i + 1;
    }
    proof {
        assert(character.arrows@ =~= total.0);
        assert(enemy_pass_all(arrows1.skip(arrows1.len() as int), enemies@) == (
            total.0.skip(arrows1.len() as int),
            total.1,
        ));
        assert(enemies@ =~= total.1);
    }

    let ghost arrows2 = character.arrows@;
    let mut i: usize = 0;
    while i < character.arrows.len()
        invariant
            0 <= i <= arrows2.len(),
            character.arrows@.len() == arrows2.len(),
            map == map_view(*tilemap),
            map_dims_ok(map),
            0 <= tile_size <= 1_000_000_000,
            -500_000_000_000_000 <= y_offset <= 500_000_000_000_000,
            forall|j: int| i <= j < arrows2.len() ==> character.arrows@[j] == #[trigger] arrows2[j],
            forall|j: int|
                0 <= j < i ==> character.arrows@[j] == arrow_tile_result(
                    map,
                    tile_size,
                    y_offset,
                    #[trigger] arrows2[j],
                ),
            forall|j: int| 0 <= j < arrows2.len() ==> (#[trigger] arrows2[j]).wf(),
            *character == (Character { arrows: character.arrows, ..*old(character) }),
        decreases arrows2.len() - i,
    {
        let mut a = character.arrows[i];
        proof {
            assert(a == arrows2[i as int]);
            assert(arrows2[i as int].wf());
        }
        arrow_embed_in_tiles(&mut a, tilemap, tile_size, y_offset);
        character.arrows.set(i, a);
        i = i + 1;
    }

    let ghost body_total = resolve_from(
        body_of(*character),
        entry,
        map,
        tile_size,
        y_offset,
        0,
        0,
    );
    let mut r: usize = 0;
    while r < tilemap.len()
        invariant
            0 <= r <= map.len(),
            map == map_view(*tilemap),
            map_dims_ok(map),
            0 <= tile_size <= 1_000_000_000,
            -500_000_000_000_000 <= y_offset <= 500_000_000_000_000,
            entry.in_range(POS_LIMIT as int),
            character.rect.in_range(2 * POS_LIMIT as int),
            character.rect.w == old(character).rect.w,
            character.rect.h == old(character).rect.h,
            0 <= character.rect.w <= POS_LIMIT,
            0 <= character.rect.h <= POS_LIMIT,
            resolve_from(body_of(*character), entry, map, tile_size, y_offset, r as int, 0)
                == body_total,
            *character == (Character {
                rect: character.rect,
                velocity: character.velocity,
                on_ground: character.on_ground,
                is_jumping: character.is_jumping,
                arrows: character.arrows,
                ..*old(character)
            }),
            character.arrows@.len() == arrows2.len(),
            forall|j: int|
                0 <= j < arrows2.len() ==> character.arrows@[j] == arrow_tile_result(
                    map,
                    tile_size,
                    y_offset,
                    #[trigger] arrows2[j],
                ),
        decreases map.len() - r,
    {
        let row_len = tilemap[r].len();
        let mut c: usize = 0;
        while c < row_len
            invariant
                0 <= r < map.len(),
                0 <= c <= row_len,
                row_len == map[r as int].len(),
                map == map_view(*tilemap),
                map_dims_ok(map),
                0 <= tile_size <= 1_000_000_000,
                -500_000_000_000_000 <= y_offset <= 500_000_000_000_000,
                entry.in_range(POS_LIMIT as int),
                character.rect.in_range(2 * POS_LIMIT as int),
                character.rect.w == old(character).rect.w,
                character.rect.h == old(character).rect.h,
                0 <= character.rect.w <= POS_LIMIT,
                0 <= character.rect.h <= POS_LIMIT,
                resolve_from(body_of(*character), entry, map, tile_size, y_offset, r as int, c as int)
                    == body_total,
                *character == (Character {
                    rect: character.rect,
                    velocity: character.velocity,
                    on_ground: character.on_ground,
                    is_jumping: character.is_jumping,
                    arrows: character.arrows,
                    ..*old(character)
                }),
                character.arrows@.len() == arrows2.len(),
                forall|j: int|
                    0 <= j < arrows2.len() ==> character.arrows@[j] == arrow_tile_result(
                        map,
                        tile_size,
                        y_offset,
                        #[trigger] arrows2[j],
                    ),
            decreases row_len - c,
        {
            if tilemap[r][c] {
                let trect = tile_rect(c, r, tile_size, y_offset);
                resolve_character_tile(character, &entry, &trect);
            }
            c = c + 1;
        }
        r = r + 1;
    }
}

} // verus!
