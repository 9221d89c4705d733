//! A camera that follows a target smoothly: each step moves a bounded
//! fraction of the way toward the desired position, which is itself clamped
//! so the viewport never shows past the map's right or bottom edges.

use vstd::prelude::*;

use crate::constants::{
    CAMERA_SMOOTHING, LERP_SCALE, MAX_DT, POS_LIMIT, SCREEN_HEIGHT, SCREEN_WIDTH,
};
use crate::geom::{Recti, Vec2i};

verus! {

pub struct WorldCamera {
    pub position: Vec2i,
    pub target_pos: Vec2i,
    /// Smoothing rate per second; a step of `dt` milliseconds covers
    /// `smoothing * dt` thousandths of the remaining distance, capped at
    /// the whole of it.
    pub smoothing: i64,
    pub bounds: Recti,
}

/// One axis of the smoothing step: from `p`, move `f` thousandths of the
/// way to `target`, rounding the distance moved toward zero.
pub open spec fn lerp_step(p: int, target: int, f: int) -> int {
    let d = target - p;
    if d >= 0 {
        p + (d * f) / (LERP_SCALE as int)
    } else {
        p - ((-d) * f) / (LERP_SCALE as int)
    }
}

impl WorldCamera {
    pub open spec fn wf(self) -> bool {
        &&& self.position.in_range(2 * POS_LIMIT as int)
        &&& self.target_pos.in_range(2 * POS_LIMIT as int)
        &&& 0 <= self.smoothing <= 1_000_000
        &&& self.bounds.in_range(POS_LIMIT as int)
    }

    pub fn new(map_width: i64, map_height: i64) -> (c: WorldCamera)
        requires
            0 <= map_width <= POS_LIMIT,
            0 <= map_height <= POS_LIMIT,
        ensures
            c == (WorldCamera {
                position: Vec2i { x: 0, y: 0 },
                target_pos: Vec2i { x: 0, y: 0 },
                smoothing: CAMERA_SMOOTHING,
                bounds: Recti { x: 0, y: 0, w: map_width, h: map_height },
            }),
            c.wf(),
    {
        WorldCamera {
            position: Vec2i { x: 0, y: 0 },
            target_pos: Vec2i { x: 0, y: 0 },
            smoothing: CAMERA_SMOOTHING,
            bounds: Recti { x: 0, y: 0, w: map_width, h: map_height },
        }
    }

    /// The top-left camera position that would center the viewport on the
    /// target.
    pub open spec fn desired_pos(target: Vec2i) -> Vec2i {
        Vec2i {
            x: (target.x - SCREEN_WIDTH / 2) as i64,
            y: (target.y - SCREEN_HEIGHT / 2) as i64,
        }
    }

    /// The desired position clamped to the map: horizontally to
    /// `[0, map_width - screen_width]`, vertically only from above, so the
    /// viewport may run past the map top but never past its bottom edge.
    pub open spec fn clamped_pos(bounds: Recti, target: Vec2i) -> Vec2i {
        let d = Self::desired_pos(target);
        let max_x = if bounds.w - SCREEN_WIDTH >= 0 {
            bounds.w - SCREEN_WIDTH
        } else {
            0
        };
        let max_y = if bounds.h - SCREEN_HEIGHT <= 0 {
            bounds.h - SCREEN_HEIGHT
        } else {
            0
        };
        let cx = if d.x < 0 {
            0
        } else if d.x > max_x {
            max_x
        } else {
            d.x as int
        };
        let cy = if d.y > max_y {
            max_y
        } else {
            d.y as int
        };
        Vec2i { x: cx as i64, y: cy as i64 }
    }

    /// The saturated smoothing factor, in thousandths.
    pub open spec fn factor_spec(self, dt: i64) -> int {
        if self.smoothing * dt >= LERP_SCALE {
            LERP_SCALE as int
        } else {
            self.smoothing * dt
        }
    }

    pub open spec fn follow_spec(c: WorldCamera, target: Vec2i, dt: i64) -> WorldCamera {
        let cl = Self::clamped_pos(c.bounds, target);
        let f = c.factor_spec(dt);
        WorldCamera {
            target_pos: target,
            position: Vec2i {
                x: lerp_step(c.position.x as int, cl.x as int, f) as i64,
                y: lerp_step(c.position.y as int, cl.y as int, f) as i64,
            },
            ..c
        }
    }

    pub fn follow_target(&mut self, target_pos: Vec2i, dt: i64)
        requires
            old(self).wf(),
            target_pos.in_range(POS_LIMIT as int),
            0 <= dt <= MAX_DT,
        ensures
            *final(self) == Self::follow_spec(*old(self), target_pos, dt),
            final(self).wf(),
    {
        self.target_pos = target_pos;
        let desired = Vec2i {
            x: target_pos.x - SCREEN_WIDTH / 2,
            y: target_pos.y - SCREEN_HEIGHT / 2,
        };
        let max_x = if self.bounds.w - SCREEN_WIDTH >= 0 {
            self.bounds.w - SCREEN_WIDTH
        } else {
            0
        };
        let max_y = if self.bounds.h - SCREEN_HEIGHT <= 0 {
            self.bounds.h - SCREEN_HEIGHT
        } else {
            0
        };
        let cx = if desired.x < 0 {
            0
        } else if desired.x > max_x {
            max_x
        } else {
            desired.x
        };
        let cy = if desired.y > max_y {
            max_y
        } else {
            desired.y
        };
        let f = crate::geom::scale_vel(self.smoothing, dt);
        let f = if f >= LERP_SCALE {
            LERP_SCALE
        } else {
            f
        };
        self.position.x = lerp_axis(self.position.x, cx, f);
        self.position.y = lerp_axis(self.position.y, cy, f);
        proof {
            lemma_lerp_step_between(old(self).position.x as int, cx as int, f as int);
            lemma_lerp_step_between(old(self).position.y as int, cy as int, f as int);
        }
    }
}

impl WorldCamera {
    /// The world point the viewport is centered on; the renderer builds its
    /// camera from this.
    pub fn camera_center(&self) -> (c: Vec2i)
        requires
            self.wf(),
        ensures
            c.x == self.position.x + SCREEN_WIDTH / 2,
            c.y == self.position.y + SCREEN_HEIGHT / 2,
    {
        Vec2i { x: self.position.x + SCREEN_WIDTH / 2, y: self.position.y + SCREEN_HEIGHT / 2 }
    }
}

/// Exec counterpart of [`lerp_step`].
fn lerp_axis(p: i64, target: i64, f: i64) -> (r: i64)
    requires
        -2 * POS_LIMIT <= p <= 2 * POS_LIMIT,
        -2 * POS_LIMIT <= target <= 2 * POS_LIMIT,
        0 <= f <= LERP_SCALE,
    ensures
        r == lerp_step(p as int, target as int, f as int),
        -2 * POS_LIMIT <= r <= 2 * POS_LIMIT,
{
    proof {
        lemma_lerp_step_between(p as int, target as int, f as int);
    }
    if target >= p {
        let d = target - p;
        let moved: i64 = (((d as u64) * (f as u64)) / (LERP_SCALE as u64)) as i64;
        proof {
            assert((d as u64) * (f as u64) == d * f) by (nonlinear_arith)
                requires
                    0 <= d,
                    0 <= f,
                    d == d as u64,
                    f == f as u64,
            ;
        }
        p + moved
    } else {
        let d = p - target;
        let moved: i64 = (((d as u64) * (f as u64)) / (LERP_SCALE as u64)) as i64;
        proof {
            assert((d as u64) * (f as u64) == d * f) by (nonlinear_arith)
                requires
                    0 <= d,
                    0 <= f,
                    d == d as u64,
                    f == f as u64,
            ;
        }
        p - moved
    }
}

/// The smoothing step stays between the old position and the target, and a
/// saturated factor lands exactly on the target.
pub proof fn lemma_lerp_step_between(p: int, target: int, f: int)
    requires
        0 <= f <= LERP_SCALE,
    ensures
        target >= p ==> p <= lerp_step(p, target, f) <= target,
        target <= p ==> target <= lerp_step(p, target, f) <= p,
        f == LERP_SCALE ==> lerp_step(p, target, f) == target,
{
    if target >= p {
        let d = target - p;
        assert(0 <= (d * f) / (LERP_SCALE as int) <= d) by (nonlinear_arith)
            requires
                0 <= d,
                0 <= f <= LERP_SCALE,
        ;
        if f == LERP_SCALE {
            assert((d * (LERP_SCALE as int)) / (LERP_SCALE as int) == d) by (nonlinear_arith)
                requires
                    0 <= d,
            ;
        }
    } else {
        let d = p - target;
        assert(0 <= (d * f) / (LERP_SCALE as int) <= d) by (nonlinear_arith)
            requires
                0 <= d,
                0 <= f <= LERP_SCALE,
        ;
        if f == LERP_SCALE {
            assert((d * (LERP_SCALE as int)) / (LERP_SCALE as int) == d) by (nonlinear_arith)
                requires
                    0 <= d,
            ;
        }
    }
}

/// Law: however large the time step, one smoothing step moves the camera
/// toward the clamped desired position and never past it; and once the
/// smoothing factor saturates, a single step lands exactly on the clamped
/// position.
pub proof fn lemma_follow_never_overshoots(c: WorldCamera, target: Vec2i, dt: i64)
    requires
        c.wf(),
        target.in_range(POS_LIMIT as int),
        0 <= dt <= MAX_DT,
    ensures
        ({
            let cl = WorldCamera::clamped_pos(c.bounds, target);
            let n = WorldCamera::follow_spec(c, target, dt).position;
            &&& (cl.x >= c.position.x ==> c.position.x <= n.x <= cl.x)
            &&& (cl.x <= c.position.x ==> cl.x <= n.x <= c.position.x)
            &&& (cl.y >= c.position.y ==> c.position.y <= n.y <= cl.y)
            &&& (cl.y <= c.position.y ==> cl.y <= n.y <= c.position.y)
            &&& (c.smoothing * dt >= LERP_SCALE ==> n == cl)
        }),
{
    let cl = WorldCamera::clamped_pos(c.bounds, target);
    let f = c.factor_spec(dt);
    lemma_lerp_step_between(c.position.x as int, cl.x as int, f);
    lemma_lerp_step_between(c.position.y as int, cl.y as int, f);
}

} // verus!
