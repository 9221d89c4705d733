//! The flying enemy: a three-state machine (flying, staggered by a hit,
//! dying) that drives one animation per state, bounces between the screen
//! edges, and counts down fixed hit and death timers.

use vstd::prelude::*;

use crate::animate::{
    nonneg_dts, sum_dts, Animate, CharacterDirection, DebugRect, SpriteDraw,
};
use crate::constants::{
    ENEMY_DIE_DURATION, ENEMY_DIE_FRAME_DURATION, ENEMY_FLY_FRAME_DURATION, ENEMY_HIT_DURATION,
    ENEMY_HIT_FRAME_DURATION, ENEMY_SPEED, MAX_DT, POS_LIMIT, SCREEN_WIDTH, TIMER_LIMIT, UNIT,
    VEL_LIMIT,
};
use crate::geom::{scale_vel, Recti, Vec2i};

verus! {

#[derive(Clone, Copy, PartialEq, Eq, Structural, Debug)]
pub enum EnemyState {
    Fly,
    Hit,
    Die,
}

pub struct Enemy {
    pub animate_idle: Animate,
    pub animate_fly: Animate,
    pub animate_hit: Animate,
    pub animate_die: Animate,
    pub velocity: Vec2i,
    pub rect: Recti,
    pub direction: CharacterDirection,
    pub speed: i64,
    pub lives: u8,
    pub state: EnemyState,
    pub stored_velocity: Vec2i,
    pub hit_timer: i64,
    pub die_timer: i64,
    pub hit_duration: i64,
    pub die_duration: i64,
}

impl Enemy {
    pub open spec fn wf(self) -> bool {
        &&& self.animate_idle.wf()
        &&& self.animate_fly.wf()
        &&& self.animate_hit.wf()
        &&& self.animate_die.wf()
        &&& self.velocity.in_range(VEL_LIMIT as int)
        &&& self.stored_velocity.in_range(VEL_LIMIT as int)
        &&& self.rect.in_range(POS_LIMIT as int)
        &&& 0 <= self.speed <= VEL_LIMIT
        &&& 0 <= self.hit_timer <= TIMER_LIMIT
        &&& 0 <= self.die_timer <= TIMER_LIMIT
        &&& 1 <= self.hit_duration <= TIMER_LIMIT
        &&& 1 <= self.die_duration <= TIMER_LIMIT
    }

    /// A fresh enemy flying right from near the left edge.  The box takes
    /// its height from the first idle frame and trims ten pixels off for
    /// the width, so that frame must be at least ten pixels tall.
    pub fn new(
        animate_texture: &Vec<Vec2i>,
        enemy_fly_state: &Vec<Vec2i>,
        enemy_hit_state: &Vec<Vec2i>,
        enemy_die_state: &Vec<Vec2i>,
    ) -> (e: Enemy)
        requires
            animate_texture@.len() >= 1,
            Animate::frames_ok(animate_texture@),
            enemy_fly_state@.len() >= 1,
            Animate::frames_ok(enemy_fly_state@),
            enemy_hit_state@.len() >= 1,
            Animate::frames_ok(enemy_hit_state@),
            enemy_die_state@.len() >= 1,
            Animate::frames_ok(enemy_die_state@),
            10 * UNIT <= animate_texture@[0].y,
            2 * animate_texture@[0].y <= POS_LIMIT,
        ensures
            e.wf(),
            e.animate_idle.frames_seq() == animate_texture@,
            e.animate_idle.frame_time == ENEMY_FLY_FRAME_DURATION,
            e.animate_fly.frames_seq() == enemy_fly_state@,
            e.animate_fly.frame_time == ENEMY_FLY_FRAME_DURATION,
            e.animate_hit.frames_seq() == enemy_hit_state@,
            e.animate_hit.frame_time == ENEMY_HIT_FRAME_DURATION,
            e.animate_die.frames_seq() == enemy_die_state@,
            e.animate_die.frame_time == ENEMY_DIE_FRAME_DURATION,
            e.animate_idle.current_frame == 0 && e.animate_fly.current_frame == 0
                && e.animate_hit.current_frame == 0 && e.animate_die.current_frame == 0,
            e.velocity == (Vec2i { x: ENEMY_SPEED, y: 0 }),
            e.rect == (Recti {
                x: (10 * UNIT) as i64,
                y: (2 * animate_texture@[0].y) as i64,
                w: (animate_texture@[0].y - 10 * UNIT) as i64,
                h: animate_texture@[0].y,
            }),
            e.direction == CharacterDirection::Right,
            e.speed == ENEMY_SPEED,
            e.lives == 1,
            e.state == EnemyState::Fly,
            e.stored_velocity == (Vec2i { x: ENEMY_SPEED, y: 0 }),
            e.hit_timer == 0,
            e.die_timer == 0,
            e.hit_duration == ENEMY_HIT_DURATION,
            e.die_duration == ENEMY_DIE_DURATION,
    {
        let first = animate_texture[0];
        let pos_y = 2 * first.y;
        Enemy {
            animate_idle: Animate::new_normalized(animate_texture, ENEMY_FLY_FRAME_DURATION),
            animate_fly: Animate::new_normalized(enemy_fly_state, ENEMY_FLY_FRAME_DURATION),
            animate_hit: Animate::new_normalized(enemy_hit_state, ENEMY_HIT_FRAME_DURATION),
            animate_die: Animate::new_normalized(enemy_die_state, ENEMY_DIE_FRAME_DURATION),
            velocity: Vec2i { x: ENEMY_SPEED, y: 0 },
            rect: Recti { x: 10 * UNIT, y: pos_y, w: first.y - 10 * UNIT, h: first.y },
            direction: CharacterDirection::Right,
            speed: ENEMY_SPEED,
            lives: 1,
            state: EnemyState::Fly,
            stored_velocity: Vec2i { x: ENEMY_SPEED, y: 0 },
            hit_timer: 0,
            die_timer: 0,
            hit_duration: ENEMY_HIT_DURATION,
            die_duration: ENEMY_DIE_DURATION,
        }
    }

    /// One time step.  Flying: face along the velocity, advance, and bounce
    /// off either screen edge.  Hit: stand still while the stagger timer
    /// runs, then resume the stored velocity and rewind the hit animation.
    /// Dying: run the death timer, advancing the death animation only until
    /// the die duration has elapsed.
    pub open spec fn update_spec(e: Enemy, dt: i64) -> Enemy {
        match e.state {
            EnemyState::Fly => {
                let dir1 = if e.velocity.x > 0 {
                    CharacterDirection::Right
                } else if e.velocity.x < 0 {
                    CharacterDirection::Left
                } else {
                    e.direction
                };
                let x1 = (e.rect.x + e.velocity.x * dt) as i64;
                let fly1 = Animate::update_spec(e.animate_fly, dt);
                if x1 <= 0 {
                    Enemy {
                        rect: Recti { x: 0, ..e.rect },
                        velocity: Vec2i { x: e.speed, y: e.velocity.y },
                        direction: CharacterDirection::Right,
                        animate_fly: fly1,
                        ..e
                    }
                } else if x1 + e.rect.w >= SCREEN_WIDTH {
                    Enemy {
                        rect: Recti { x: (SCREEN_WIDTH - e.rect.w) as i64, ..e.rect },
                        velocity: Vec2i { x: (-e.speed) as i64, y: e.velocity.y },
                        direction: CharacterDirection::Left,
                        animate_fly: fly1,
                        ..e
                    }
                } else {
                    Enemy {
                        rect: Recti { x: x1, ..e.rect },
                        direction: dir1,
                        animate_fly: fly1,
                        ..e
                    }
                }
            },
            EnemyState::Hit => {
                let t = e.hit_timer + dt;
                let hit1 = Animate::update_spec(e.animate_hit, dt);
                if t >= e.hit_duration {
                    Enemy {
                        state: EnemyState::Fly,
                        velocity: e.stored_velocity,
                        hit_timer: 0,
                        animate_hit: Animate::reset_spec(hit1),
                        ..e
                    }
                } else {
                    Enemy { hit_timer: t as i64, animate_hit: hit1, ..e }
                }
            },
            EnemyState::Die => {
                let t = e.die_timer + dt;
                if t < e.die_duration {
                    Enemy {
                        die_timer: t as i64,
                        animate_die: Animate::update_spec(e.animate_die, dt),
                        ..e
                    }
                } else {
                    Enemy { die_timer: t as i64, ..e }
                }
            },
        }
    }

    pub fn update(&mut self, dt: i64)
        requires
            old(self).wf(),
            0 <= dt <= MAX_DT,
            old(self).hit_timer + dt <= TIMER_LIMIT,
            old(self).die_timer + dt <= TIMER_LIMIT,
        ensures
            *final(self) == Self::update_spec(*old(self), dt),
            final(self).wf(),
    {
        match self.state {
            EnemyState::Fly => {
                if self.velocity.x > 0 {
                    self.direction = CharacterDirection::Right;
                } else if self.velocity.x < 0 {
                    self.direction = CharacterDirection::Left;
                }
                self.rect.x = self.rect.x + scale_vel(self.velocity.x, dt);
                if self.rect.x <= 0 {
                    self.rect.x = 0;
                    self.velocity.x = self.speed;
                    self.direction = CharacterDirection::Right;
                } else if self.rect.x + self.rect.w >= SCREEN_WIDTH {
                    self.rect.x = SCREEN_WIDTH - self.rect.w;
                    self.velocity.x = -self.speed;
                    self.direction = CharacterDirection::Left;
                }
                self.animate_fly.update(dt);
            },
            EnemyState::Hit => {
                self.hit_timer = self.hit_timer + dt;
                self.animate_hit.update(dt);
                if self.hit_timer >= self.hit_duration {
                    self.state = EnemyState::Fly;
                    self.velocity = self.stored_velocity;
                    self.hit_timer = 0;
                    self.animate_hit.reset();
                }
            },
            EnemyState::Die => {
                self.die_timer = self.die_timer + dt;
                if self.die_timer < self.die_duration {
                    self.animate_die.update(dt);
                }
            },
        }
    }

    /// Taking a hit.  Dying enemies ignore it; with lives left it costs one
    /// life and staggers; with none left it starts the death.
    pub open spec fn hit_spec(e: Enemy) -> Enemy {
        if e.state == EnemyState::Die {
            e
        } else if e.lives == 0 {
            Enemy {
                state: EnemyState::Die,
                velocity: Vec2i { x: 0, y: 0 },
                stored_velocity: Vec2i { x: 0, y: 0 },
                die_timer: 0,
                animate_die: Animate::reset_spec(e.animate_die),
                ..e
            }
        } else {
            Enemy {
                lives: (e.lives - 1) as u8,
                state: EnemyState::Hit,
                stored_velocity: e.velocity,
                velocity: Vec2i { x: 0, y: 0 },
                hit_timer: 0,
                animate_hit: Animate::reset_spec(e.animate_hit),
                ..e
            }
        }
    }

    pub fn hit(&mut self)
        requires
            old(self).wf(),
        ensures
            *final(self) == Self::hit_spec(*old(self)),
            final(self).wf(),
    {
        if matches!(self.state, EnemyState::Die) {
            return ;
        }
        if self.lives == 0 {
            self.state = EnemyState::Die;
            self.velocity = Vec2i { x: 0, y: 0 };
            self.stored_velocity = Vec2i { x: 0, y: 0 };
            self.die_timer = 0;
            self.animate_die.reset();
        } else {
            self.lives = self.lives - 1;
            self.state = EnemyState::Hit;
            self.stored_velocity = self.velocity;
            self.velocity = Vec2i { x: 0, y: 0 };
            self.hit_timer = 0;
            self.animate_hit.reset();
        }
    }

    /// The enemy's blit: the state's animation rising from the bottom edge
    /// of the collision box.
    pub fn draw(&self) -> (r: (Option<SpriteDraw>, Vec<DebugRect>))
        requires
            self.wf(),
        ensures
            ({
                let ground = Vec2i { x: self.rect.x, y: (self.rect.y + self.rect.h) as i64 };
                let anim = self.current_animate();
                &&& r.0 == (if anim.can_draw() {
                    Some(anim.draw_bottom_aligned_spec(ground, self.direction))
                } else {
                    Option::<SpriteDraw>::None
                })
                &&& r.1@ == (if anim.can_draw() && anim.debug_mode {
                    anim.draw_debug_rectangles_bottom_aligned(
                        ground,
                        Vec2i { x: ground.x, y: (ground.y - anim.current_size_spec().y) as i64 },
                        anim.current_size_spec(),
                        self.direction,
                    )
                } else {
                    Seq::<DebugRect>::empty()
                })
            }),
    {
        let ground_pos = Vec2i { x: self.rect.x, y: self.rect.y + self.rect.h };
        match self.state {
            EnemyState::Fly => self.animate_fly.draw_bottom_aligned(ground_pos, &self.direction),
            EnemyState::Hit => self.animate_hit.draw_bottom_aligned(ground_pos, &self.direction),
            EnemyState::Die => self.animate_die.draw_bottom_aligned(ground_pos, &self.direction),
        }
    }

    /// Puts the enemy back near the left edge, flying right, with three
    /// lives.
    pub fn reset_position(&mut self)
        requires
            old(self).wf(),
        ensures
            *final(self) == (Enemy {
                rect: Recti { x: (10 * UNIT) as i64, ..old(self).rect },
                velocity: Vec2i { x: old(self).speed, y: old(self).velocity.y },
                direction: CharacterDirection::Right,
                state: EnemyState::Fly,
                lives: 3,
                hit_timer: 0,
                die_timer: 0,
                ..*old(self)
            }),
            final(self).wf(),
    {
        self.rect.x = 10 * UNIT;
        self.velocity.x = self.speed;
        self.direction = CharacterDirection::Right;
        self.state = EnemyState::Fly;
        self.lives = 3;
        self.hit_timer = 0;
        self.die_timer = 0;
    }

    /// Flips the travel direction and stores the new velocity for resuming
    /// after a stagger.
    pub fn reverse_direction(&mut self)
        requires
            old(self).wf(),
        ensures
            final(self).velocity.x == -old(self).velocity.x,
            final(self).velocity.y == old(self).velocity.y,
            final(self).direction == (if -old(self).velocity.x > 0 {
                CharacterDirection::Right
            } else {
                CharacterDirection::Left
            }),
            final(self).stored_velocity == final(self).velocity,
            *final(self) == (Enemy {
                velocity: final(self).velocity,
                direction: final(self).direction,
                stored_velocity: final(self).stored_velocity,
                ..*old(self)
            }),
            final(self).wf(),
    {
        self.velocity.x = -self.velocity.x;
        self.direction = if self.velocity.x > 0 {
            CharacterDirection::Right
        } else {
            CharacterDirection::Left
        };
        self.stored_velocity = self.velocity;
    }

    pub fn is_at_edge(&self) -> (r: bool)
        requires
            self.wf(),
        ensures
            r == (self.rect.x <= 0 || self.rect.x + self.rect.w >= SCREEN_WIDTH),
    {
        self.rect.x <= 0 || self.rect.x + self.rect.w >= SCREEN_WIDTH
    }

    pub open spec fn is_dead_spec(e: Enemy) -> bool {
        e.state == EnemyState::Die && e.die_timer >= e.die_duration
    }

    pub fn is_dead(&self) -> (r: bool)
        ensures
            r == Self::is_dead_spec(*self),
    {
        matches!(self.state, EnemyState::Die) && self.die_timer >= self.die_duration
    }

    pub fn is_dying(&self) -> (r: bool)
        ensures
            r == (self.state == EnemyState::Die),
    {
        matches!(self.state, EnemyState::Die)
    }

    pub fn is_hit(&self) -> (r: bool)
        ensures
            r == (self.state == EnemyState::Hit),
    {
        matches!(self.state, EnemyState::Hit)
    }

    pub fn can_be_hit(&self) -> (r: bool)
        ensures
            r == (self.state == EnemyState::Fly),
    {
        matches!(self.state, EnemyState::Fly)
    }

    pub fn enable_debug(&mut self)
        ensures
            *final(self) == (Enemy {
                animate_idle: Animate { debug_mode: true, ..old(self).animate_idle },
                animate_fly: Animate { debug_mode: true, ..old(self).animate_fly },
                animate_hit: Animate { debug_mode: true, ..old(self).animate_hit },
                animate_die: Animate { debug_mode: true, ..old(self).animate_die },
                ..*old(self)
            }),
    {
        self.animate_idle.enable_debug();
        self.animate_fly.enable_debug();
        self.animate_hit.enable_debug();
        self.animate_die.enable_debug();
    }

    pub fn disable_debug(&mut self)
        ensures
            *final(self) == (Enemy {
                animate_idle: Animate { debug_mode: false, ..old(self).animate_idle },
                animate_fly: Animate { debug_mode: false, ..old(self).animate_fly },
                animate_hit: Animate { debug_mode: false, ..old(self).animate_hit },
                animate_die: Animate { debug_mode: false, ..old(self).animate_die },
                ..*old(self)
            }),
    {
        self.animate_idle.disable_debug();
        self.animate_fly.disable_debug();
        self.animate_hit.disable_debug();
        self.animate_die.disable_debug();
    }

    pub fn toggle_debug(&mut self)
        ensures
            *final(self) == (Enemy {
                animate_idle: Animate {
                    debug_mode: !old(self).animate_idle.debug_mode,
                    ..old(self).animate_idle
                },
                animate_fly: Animate {
                    debug_mode: !old(self).animate_fly.debug_mode,
                    ..old(self).animate_fly
                },
                animate_hit: Animate {
                    debug_mode: !old(self).animate_hit.debug_mode,
                    ..old(self).animate_hit
                },
                animate_die: Animate {
                    debug_mode: !old(self).animate_die.debug_mode,
                    ..old(self).animate_die
                },
                ..*old(self)
            }),
    {
        self.animate_idle.toggle_debug();
        self.animate_fly.toggle_debug();
        self.animate_hit.toggle_debug();
        self.animate_die.toggle_debug();
    }

    pub fn set_debug(&mut self, enabled: bool)
        ensures
            *final(self) == (Enemy {
                animate_idle: Animate { debug_mode: enabled, ..old(self).animate_idle },
                animate_fly: Animate { debug_mode: enabled, ..old(self).animate_fly },
                animate_hit: Animate { debug_mode: enabled, ..old(self).animate_hit },
                animate_die: Animate { debug_mode: enabled, ..old(self).animate_die },
                ..*old(self)
            }),
    {
        self.animate_idle.set_debug(enabled);
        self.animate_fly.set_debug(enabled);
        self.animate_hit.set_debug(enabled);
        self.animate_die.set_debug(enabled);
    }

    /// The active state's animation for bookkeeping or display.
    pub open spec fn current_animate(self) -> Animate {
        match self.state {
            EnemyState::Fly => self.animate_fly,
            EnemyState::Hit => self.animate_hit,
            EnemyState::Die => self.animate_die,
        }
    }

    /// Current frame index, total frame count, and largest frame size of
    /// the active state's animation.
    pub fn get_current_animation_info(&self) -> (r: (u8, u8, Vec2i))
        requires
            self.wf(),
        ensures
            r.0 as int == self.current_animate().current_frame as int,
            r.1 as int == self.current_animate().frames_seq().len(),
            r.2 == self.current_animate().max_frame_size,
    {
        match self.state {
            EnemyState::Fly => (
                self.animate_fly.get_current_frame(),
                self.animate_fly.get_total_frames(),
                self.animate_fly.get_max_frame_size(),
            ),
            EnemyState::Hit => (
                self.animate_hit.get_current_frame(),
                self.animate_hit.get_total_frames(),
                self.animate_hit.get_max_frame_size(),
            ),
            EnemyState::Die => (
                self.animate_die.get_current_frame(),
                self.animate_die.get_total_frames(),
                self.animate_die.get_max_frame_size(),
            ),
        }
    }

    /// A variant blit that anchors each state differently: flying from the
    /// ground line, staggered centered in its box, dying from the top-left.
    pub fn draw_with_custom_positioning(&self) -> (r: (Option<SpriteDraw>, Vec<DebugRect>))
        requires
            self.wf(),
        ensures
            ({
                let draw_pos = Vec2i { x: self.rect.x, y: self.rect.y };
                let ground = Vec2i { x: self.rect.x, y: (self.rect.y + self.rect.h) as i64 };
                match self.state {
                    EnemyState::Fly => r.0 == (if self.animate_fly.can_draw() {
                        Some(self.animate_fly.draw_bottom_aligned_spec(ground, self.direction))
                    } else {
                        Option::<SpriteDraw>::None
                    }) && r.1@ == (if self.animate_fly.can_draw() && self.animate_fly.debug_mode {
                        self.animate_fly.draw_debug_rectangles_bottom_aligned(
                            ground,
                            Vec2i {
                                x: ground.x,
                                y: (ground.y - self.animate_fly.current_size_spec().y) as i64,
                            },
                            self.animate_fly.current_size_spec(),
                            self.direction,
                        )
                    } else {
                        Seq::<DebugRect>::empty()
                    }),
                    EnemyState::Hit => r.0 == (if self.animate_hit.can_draw() {
                        Some(self.animate_hit.draw_centered_spec(draw_pos, self.direction))
                    } else {
                        Option::<SpriteDraw>::None
                    }) && r.1@ == (if self.animate_hit.can_draw() && self.animate_hit.debug_mode {
                        self.animate_hit.draw_debug_rectangles_centered(
                            draw_pos,
                            self.animate_hit.draw_centered_draw_pos(draw_pos),
                            self.animate_hit.current_size_spec(),
                            self.direction,
                        )
                    } else {
                        Seq::<DebugRect>::empty()
                    }),
                    EnemyState::Die => r.0 == (if self.animate_die.can_draw() {
                        Some(self.animate_die.draw_spec(draw_pos, self.direction))
                    } else {
                        Option::<SpriteDraw>::None
                    }) && r.1@ == (if self.animate_die.can_draw() && self.animate_die.debug_mode {
                        self.animate_die.draw_debug_rectangles(
                            draw_pos,
                            self.direction,
                            crate::animate::Animate::flipped_x(
                                self.direction,
                                draw_pos.x as int,
                                self.animate_die.frame_size.x as int,
                            ),
                        )
                    } else {
                        Seq::<DebugRect>::empty()
                    }),
                }
            }),
    {
        let draw_pos = Vec2i { x: self.rect.x, y: self.rect.y };
        let ground_pos = Vec2i { x: self.rect.x, y: self.rect.y + self.rect.h };
        match self.state {
            EnemyState::Fly => self.animate_fly.draw_bottom_aligned(ground_pos, &self.direction),
            EnemyState::Hit => self.animate_hit.draw_centered(draw_pos, &self.direction),
            EnemyState::Die => self.animate_die.draw(draw_pos, &self.direction),
        }
    }

    pub fn get_current_max_frame_size(&self) -> (r: Vec2i)
        ensures
            r == self.current_animate().max_frame_size,
    {
        match self.state {
            EnemyState::Fly => self.animate_fly.get_max_frame_size(),
            EnemyState::Hit => self.animate_hit.get_max_frame_size(),
            EnemyState::Die => self.animate_die.get_max_frame_size(),
        }
    }

    /// Grows or shrinks the collision box to the active animation's largest
    /// frame, keeping the top-left corner in place.
    pub fn update_collision_rect_to_animation(&mut self)
        requires
            old(self).wf(),
        ensures
            *final(self) == (Enemy {
                rect: Recti {
                    w: old(self).current_animate().max_frame_size.x,
                    h: old(self).current_animate().max_frame_size.y,
                    ..old(self).rect
                },
                ..*old(self)
            }),
            final(self).wf(),
    {
        let max_size = self.get_current_max_frame_size();
        self.rect.w = max_size.x;
        self.rect.h = max_size.y;
    }
}

/// The state after applying `update` for each step of `dts` in order.
pub open spec fn run_enemy(e: Enemy, dts: Seq<i64>) -> Enemy
    decreases dts.len(),
{
    if dts.len() == 0 {
        e
    } else {
        run_enemy(Enemy::update_spec(e, dts[0]), dts.drop_first())
    }
}

/// Law: a hit taken with no lives left always lands in the dying state, and
/// the transition is idempotent: hitting an already-dying enemy changes
/// nothing, so a second hit leaves the state exactly as the first left it.
pub proof fn lemma_hit_with_no_lives_dies_once(e: Enemy)
    requires
        e.lives == 0,
    ensures
        Enemy::hit_spec(e).state == EnemyState::Die,
        Enemy::hit_spec(Enemy::hit_spec(e)) == Enemy::hit_spec(e),
{
}

proof fn lemma_die_timer_accumulates(e: Enemy, dts: Seq<i64>)
    requires
        e.state == EnemyState::Die,
        0 <= e.die_timer,
        nonneg_dts(dts),
        e.die_timer + sum_dts(dts) <= TIMER_LIMIT,
    ensures
        run_enemy(e, dts).state == EnemyState::Die,
        run_enemy(e, dts).die_timer == e.die_timer + sum_dts(dts),
        run_enemy(e, dts).die_duration == e.die_duration,
    decreases dts.len(),
{
    if dts.len() > 0 {
        assert(nonneg_dts(dts.drop_first()));
        crate::animate::lemma_sum_nonneg(dts.drop_first());
        let e1 = Enemy::update_spec(e, dts[0]);
        assert(e1.die_timer == e.die_timer + dts[0]);
        lemma_die_timer_accumulates(e1, dts.drop_first());
    }
}

proof fn lemma_sum_take(dts: Seq<i64>, i: int)
    requires
        nonneg_dts(dts),
        0 <= i <= dts.len(),
    ensures
        nonneg_dts(dts.take(i)),
        0 <= sum_dts(dts.take(i)) <= sum_dts(dts),
    decreases i,
{
    crate::animate::lemma_sum_nonneg(dts);
    if i == 0 {
        assert(dts.take(0) =~= Seq::<i64>::empty());
        crate::animate::lemma_sum_nonneg(dts.take(0));
    } else {
        assert(dts.len() > 0);
        assert(nonneg_dts(dts.drop_first()));
        lemma_sum_take(dts.drop_first(), i - 1);
        assert(dts.take(i).drop_first() =~= dts.drop_first().take(i - 1));
        assert(sum_dts(dts.take(i)) == dts[0] + sum_dts(dts.drop_first().take(i - 1)));
        assert(sum_dts(dts) == dts[0] + sum_dts(dts.drop_first()));
        assert(nonneg_dts(dts.take(i)));
    }
}

/// Law: with the death just begun (fresh timer), the enemy reads as dead
/// after exactly those step prefixes whose time sums to at least the die
/// duration; in particular it is not dead while the elapsed time is short
/// of the duration, and is dead once steps summing exactly to the duration
/// have run.
pub proof fn lemma_dead_exactly_at_die_duration(e: Enemy, dts: Seq<i64>)
    requires
        e.state == EnemyState::Die,
        e.die_timer == 0,
        1 <= e.die_duration <= TIMER_LIMIT,
        nonneg_dts(dts),
        sum_dts(dts) == e.die_duration,
    ensures
        Enemy::is_dead_spec(run_enemy(e, dts)),
        forall|i: int|
            0 <= i <= dts.len() ==> (Enemy::is_dead_spec(run_enemy(e, #[trigger] dts.take(i)))
                <==> sum_dts(dts.take(i)) >= e.die_duration),
{
    lemma_die_timer_accumulates(e, dts);
    assert forall|i: int| 0 <= i <= dts.len() implies (Enemy::is_dead_spec(
        run_enemy(e, #[trigger] dts.take(i)),
    ) <==> sum_dts(dts.take(i)) >= e.die_duration) by {
        lemma_sum_take(dts, i);
        lemma_die_timer_accumulates(e, dts.take(i));
    }
}

} // verus!
