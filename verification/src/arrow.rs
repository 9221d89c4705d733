//! The arrow projectile: ballistic flight under gravity, a tip-point
//! collision probe, embedding into terrain, and a stuck state that freezes
//! it in place until it expires.

use vstd::prelude::*;

use crate::animate::SpriteDraw;
use crate::constants::{ARROW_GRAVITY, ARROW_STUCK_LIMIT, MAX_DT, POS_LIMIT, TIMER_LIMIT, VEL_LIMIT};
use crate::geom::{offset_along, offset_along_spec, Recti, Vec2i};

verus! {

#[derive(Clone, Copy, PartialEq, Eq, Structural, Debug)]
pub struct Arrow {
    pub pos: Vec2i,
    pub velocity: Vec2i,
    pub rect: Recti,
    pub stuck: bool,
    /// The flight direction frozen at the moment the arrow stuck; stands in
    /// for the stuck angle, which is the angle of this vector.
    pub stuck_dir: Vec2i,
    pub stuck_timer: i64,
    pub should_remove: bool,
}

impl Arrow {
    pub open spec fn wf(self) -> bool {
        &&& self.pos.in_range(2 * POS_LIMIT as int)
        &&& self.velocity.in_range(VEL_LIMIT as int)
        &&& self.rect.in_range(2 * POS_LIMIT as int)
        &&& self.stuck_dir.in_range(VEL_LIMIT as int)
        &&& 0 <= self.stuck_timer <= TIMER_LIMIT
    }

    pub fn new(pos: Vec2i, velocity: Vec2i, size: Vec2i) -> (a: Arrow)
        requires
            pos.in_range(2 * POS_LIMIT as int),
            velocity.in_range(VEL_LIMIT as int),
            0 <= size.x <= POS_LIMIT,
            0 <= size.y <= POS_LIMIT,
        ensures
            a == (Arrow {
                pos,
                velocity,
                rect: Recti { x: pos.x, y: pos.y, w: size.x, h: size.y },
                stuck: false,
                stuck_dir: Vec2i { x: 0, y: 0 },
                stuck_timer: 0,
                should_remove: false,
            }),
            a.wf(),
    {
        Arrow {
            pos,
            velocity,
            rect: Recti { x: pos.x, y: pos.y, w: size.x, h: size.y },
            stuck: false,
            stuck_dir: Vec2i { x: 0, y: 0 },
            stuck_timer: 0,
            should_remove: false,
        }
    }

    /// The direction the arrow points: its frozen direction once stuck,
    /// else its live velocity.
    pub open spec fn flight_dir(self) -> Vec2i {
        if self.stuck {
            self.stuck_dir
        } else {
            self.velocity
        }
    }

    /// The collision probe: the box center pushed 4/5 of the box width
    /// along the flight direction.
    pub open spec fn tip_spec(self) -> Vec2i {
        let off = offset_along_spec(self.flight_dir(), self.rect.w * 4 / 5);
        Vec2i {
            x: (self.pos.x + self.rect.w / 2 + off.x) as i64,
            y: (self.pos.y + self.rect.h / 2 + off.y) as i64,
        }
    }

    pub fn get_tip_collision_point(&self) -> (tip: Vec2i)
        requires
            self.wf(),
        ensures
            tip == self.tip_spec(),
    {
        let dir = if self.stuck {
            self.stuck_dir
        } else {
            self.velocity
        };
        let tip_offset: i64 = (((self.rect.w as u64) * 4) / 5) as i64;
        let off = offset_along(dir, tip_offset);
        let half_w: i64 = ((self.rect.w as u64) / 2) as i64;
        let half_h: i64 = ((self.rect.h as u64) / 2) as i64;
        Vec2i { x: self.pos.x + half_w + off.x, y: self.pos.y + half_h + off.y }
    }

    /// The state after embedding: the position (and box) advanced by
    /// `embed_depth` along the live velocity direction.
    pub open spec fn embed_spec(a: Arrow, embed_depth: i64) -> Arrow {
        let off = offset_along_spec(a.velocity, embed_depth as int);
        let px = (a.pos.x + off.x) as i64;
        let py = (a.pos.y + off.y) as i64;
        Arrow { pos: Vec2i { x: px, y: py }, rect: Recti { x: px, y: py, ..a.rect }, ..a }
    }

    /// Probes the tip against a tile box; on a hit the arrow sinks
    /// `embed_depth` further along its flight angle.  The caller then
    /// freezes it (zero velocity, `stuck` set).
    pub fn check_collision_and_embed(&mut self, tile_rect: &Recti, embed_depth: i64) -> (hit: bool)
        requires
            old(self).wf(),
            tile_rect.in_range(POS_LIMIT as int),
            0 <= embed_depth <= POS_LIMIT,
        ensures
            hit == tile_rect.contains_spec(old(self).tip_spec()),
            hit ==> *final(self) == Self::embed_spec(*old(self), embed_depth),
            !hit ==> *final(self) == *old(self),
    {
        let tip = self.get_tip_collision_point();
        if tile_rect.contains(tip) {
            let off = offset_along(self.velocity, embed_depth);
            self.pos.x = self.pos.x + off.x;
            self.pos.y = self.pos.y + off.y;
            self.rect.x = self.pos.x;
            self.rect.y = self.pos.y;
            return true;
        }
        false
    }

    /// One time step: a stuck arrow only ages (and is flagged for removal
    /// at the stuck limit); a flying arrow gains gravity and advances.
    pub open spec fn update_spec(a: Arrow, dt: i64) -> Arrow {
        if a.stuck {
            let t = a.stuck_timer + dt;
            Arrow {
                stuck_timer: t as i64,
                should_remove: a.should_remove || t >= ARROW_STUCK_LIMIT,
                ..a
            }
        } else {
            let vy = (a.velocity.y + ARROW_GRAVITY * dt) as i64;
            let px = (a.pos.x + a.velocity.x * dt) as i64;
            let py = (a.pos.y + vy * dt) as i64;
            Arrow {
                velocity: Vec2i { x: a.velocity.x, y: vy },
                pos: Vec2i { x: px, y: py },
                rect: Recti { x: px, y: py, ..a.rect },
                ..a
            }
        }
    }

    pub fn update(&mut self, dt: i64)
        requires
            old(self).wf(),
            0 <= dt <= MAX_DT,
        ensures
            *final(self) == Self::update_spec(*old(self), dt),
    {
        if self.stuck {
            self.stuck_timer = self.stuck_timer + dt;
            if self.stuck_timer >= ARROW_STUCK_LIMIT {
                self.should_remove = true;
            }
            return ;
        }
        self.velocity.y = self.velocity.y + ARROW_GRAVITY * dt;
        self.pos.x = self.pos.x + crate::geom::scale_vel(self.velocity.x, dt);
        self.pos.y = self.pos.y + crate::geom::scale_vel(self.velocity.y, dt);
        self.rect.x = self.pos.x;
        self.rect.y = self.pos.y;
    }

    /// The arrow's blit: its box, rotated to its flight angle.
    pub open spec fn draw_spec(self) -> SpriteDraw {
        SpriteDraw {
            frame: 0,
            x: self.pos.x,
            y: self.pos.y,
            w: self.rect.w,
            h: self.rect.h,
            flip_y: false,
            rotated: true,
            rot_dir: self.flight_dir(),
        }
    }

    pub fn draw(&self) -> (r: SpriteDraw)
        ensures
            r == self.draw_spec(),
    {
        let dir = if self.stuck {
            self.stuck_dir
        } else {
            self.velocity
        };
        SpriteDraw {
            frame: 0,
            x: self.pos.x,
            y: self.pos.y,
            w: self.rect.w,
            h: self.rect.h,
            flip_y: false,
            rotated: true,
            rot_dir: dir,
        }
    }
}

/// Law: when an arrow's tip lies inside a tile, embedding moves its position
/// (and box) by exactly the embed offset along its flight direction; and
/// once an arrow is stuck, a time step changes only its stuck timer and
/// removal flag, never its position, box, or velocity.
pub proof fn lemma_embed_moves_and_stuck_freezes(a: Arrow, embed_depth: i64, c: Arrow, dt: i64)
    requires
        a.wf(),
        0 <= embed_depth <= POS_LIMIT,
        c.stuck,
    ensures
        Arrow::embed_spec(a, embed_depth).pos.x == a.pos.x + offset_along_spec(
            a.velocity,
            embed_depth as int,
        ).x,
        Arrow::embed_spec(a, embed_depth).pos.y == a.pos.y + offset_along_spec(
            a.velocity,
            embed_depth as int,
        ).y,
        Arrow::embed_spec(a, embed_depth).rect.x == Arrow::embed_spec(a, embed_depth).pos.x,
        Arrow::embed_spec(a, embed_depth).rect.y == Arrow::embed_spec(a, embed_depth).pos.y,
        Arrow::update_spec(c, dt).pos == c.pos,
        Arrow::update_spec(c, dt).rect == c.rect,
        Arrow::update_spec(c, dt).velocity == c.velocity,
{
    let off = offset_along_spec(a.velocity, embed_depth as int);
    assert(-embed_depth <= off.x <= embed_depth && -embed_depth <= off.y <= embed_depth) by {
        crate::geom::lemma_offset_along_bounds(a.velocity, embed_depth as int);
    }
}

} // verus!
