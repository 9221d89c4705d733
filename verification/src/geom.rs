//! Integer plane geometry: points, axis-aligned boxes, and the square-root
//! based direction scaling that projectile flight uses in place of
//! floating-point trigonometry.

use vstd::prelude::*;

verus! {

/// A point or displacement in micro-pixels.
#[derive(Clone, Copy, PartialEq, Eq, Structural, Debug)]
pub struct Vec2i {
    pub x: i64,
    pub y: i64,
}

/// An axis-aligned box: top-left corner, width going right, height going down.
#[derive(Clone, Copy, PartialEq, Eq, Structural, Debug)]
pub struct Recti {
    pub x: i64,
    pub y: i64,
    pub w: i64,
    pub h: i64,
}

impl Vec2i {
    pub open spec fn in_range(self, bound: int) -> bool {
        -bound <= self.x <= bound && -bound <= self.y <= bound
    }

    pub fn new(x: i64, y: i64) -> (v: Vec2i)
        ensures
            v.x == x,
            v.y == y,
    {
        Vec2i { x, y }
    }
}

impl Recti {
    pub open spec fn left_spec(self) -> int {
        self.x as int
    }

    pub open spec fn right_spec(self) -> int {
        self.x + self.w
    }

    pub open spec fn top_spec(self) -> int {
        self.y as int
    }

    pub open spec fn bottom_spec(self) -> int {
        self.y + self.h
    }

    /// Every coordinate and extent is within `bound`, so that edge sums
    /// stay far from the integer limits.
    pub open spec fn in_range(self, bound: int) -> bool {
        &&& -bound <= self.x <= bound
        &&& -bound <= self.y <= bound
        &&& 0 <= self.w <= bound
        &&& 0 <= self.h <= bound
    }

    /// A point on the boundary counts as contained.
    pub open spec fn contains_spec(self, p: Vec2i) -> bool {
        &&& self.left_spec() <= p.x <= self.right_spec()
        &&& self.top_spec() <= p.y <= self.bottom_spec()
    }

    /// Boxes that merely touch along an edge still count as overlapping.
    pub open spec fn overlaps_spec(self, other: Recti) -> bool {
        &&& self.left_spec() <= other.right_spec()
        &&& self.right_spec() >= other.left_spec()
        &&& self.top_spec() <= other.bottom_spec()
        &&& self.bottom_spec() >= other.top_spec()
    }

    pub open spec fn center_spec(self) -> Vec2i {
        Vec2i { x: (self.x + self.w / 2) as i64, y: (self.y + self.h / 2) as i64 }
    }

    pub fn new(x: i64, y: i64, w: i64, h: i64) -> (r: Recti)
        ensures
            r == (Recti { x, y, w, h }),
    {
        Recti { x, y, w, h }
    }

    pub fn contains(&self, p: Vec2i) -> (r: bool)
        requires
            self.in_range(0x1000_0000_0000_0000),
        ensures
            r == self.contains_spec(p),
    {
        p.x >= self.x && p.x <= self.x + self.w && p.y >= self.y && p.y <= self.y + self.h
    }

    pub fn overlaps(&self, other: &Recti) -> (r: bool)
        requires
            self.in_range(0x1000_0000_0000_0000),
            other.in_range(0x1000_0000_0000_0000),
        ensures
            r == self.overlaps_spec(*other),
    {
        self.x <= other.x + other.w && self.x + self.w >= other.x && self.y <= other.y + other.h
            && self.y + self.h >= other.y
    }

    pub fn center(&self) -> (c: Vec2i)
        requires
            self.in_range(0x1000_0000_0000_0000),
        ensures
            c == self.center_spec(),
    {
        let half_w: i64 = ((self.w as u64) / 2) as i64;
        let half_h: i64 = ((self.h as u64) / 2) as i64;
        Vec2i { x: self.x + half_w, y: self.y + half_h }
    }
}

/// Largest integer whose square does not exceed `n`.
pub open spec fn sqrt_floor(n: nat) -> nat
    decreases n,
{
    if n == 0 {
        0
    } else {
        let s = sqrt_floor((n - 1) as nat);
        if (s + 1) * (s + 1) <= n {
            s + 1
        } else {
            s
        }
    }
}

pub proof fn lemma_sqrt_floor_bounds(n: nat)
    ensures
        sqrt_floor(n) * sqrt_floor(n) <= n,
        n < (sqrt_floor(n) + 1) * (sqrt_floor(n) + 1),
    decreases n,
{
    if n == 0 {
        assert(sqrt_floor(n) == 0);
        assert(sqrt_floor(n) * sqrt_floor(n) <= n);
        assert(n < (sqrt_floor(n) + 1) * (sqrt_floor(n) + 1)) by (nonlinear_arith)
            requires
                n == 0,
                sqrt_floor(n) == 0,
        ;
    } else {
        lemma_sqrt_floor_bounds((n - 1) as nat);
        let s = sqrt_floor((n - 1) as nat);
        assert(s * s <= n - 1);
        assert(n - 1 < (s + 1) * (s + 1));
        if (s + 1) * (s + 1) <= n {
            assert(sqrt_floor(n) == s + 1);
            assert(n < (s + 1 + 1) * (s + 1 + 1)) by (nonlinear_arith)
                requires
                    n <= (s + 1) * (s + 1),
                    0 <= s,
            ;
            assert(sqrt_floor(n) * sqrt_floor(n) <= n);
            assert(n < (sqrt_floor(n) + 1) * (sqrt_floor(n) + 1));
        } else {
            assert(sqrt_floor(n) == s);
            assert(sqrt_floor(n) * sqrt_floor(n) <= n);
            assert(n < (sqrt_floor(n) + 1) * (sqrt_floor(n) + 1));
        }
    }
}

pub proof fn lemma_sqrt_floor_unique(n: nat, r: nat)
    requires
        r * r <= n,
        n < (r + 1) * (r + 1),
    ensures
        sqrt_floor(n) == r,
{
    lemma_sqrt_floor_bounds(n);
    let s = sqrt_floor(n);
    if s < r {
        assert((s + 1) * (s + 1) <= r * r) by (nonlinear_arith)
            requires
                s + 1 <= r,
        ;
    }
    if r < s {
        assert((r + 1) * (r + 1) <= s * s) by (nonlinear_arith)
            requires
                r + 1 <= s,
        ;
    }
}

/// Floor square root, by binary search over the answer.
pub fn isqrt(n: u128) -> (r: u64)
    ensures
        r == sqrt_floor(n as nat),
        (r as nat) * (r as nat) <= n as nat,
        (n as nat) < ((r + 1) as nat) * ((r + 1) as nat),
{
    let mut lo: u128 = 0;
    let mut hi: u128 = 0xFFFF_FFFF_FFFF_FFFF;
    while lo < hi
        invariant
            0 <= lo <= hi <= 0xFFFF_FFFF_FFFF_FFFF,
            lo * lo <= n,
            n < (hi + 1) * (hi + 1),
        decreases hi - lo,
    {
        let mid = lo + (hi - lo + 1) / 2;
        proof {
            assert(mid * mid < 0xFFFF_FFFF_FFFF_FFFF_FFFF_FFFF_FFFF_FFFFu128) by (nonlinear_arith)
                requires
                    0 <= mid <= 0xFFFF_FFFF_FFFF_FFFFu128,
            ;
        }
        if mid * mid <= n {
            lo = mid;
        } else {
            hi = mid - 1;
        }
    }
    proof {
        lemma_sqrt_floor_unique(n as nat, lo as nat);
    }
    lo as u64
}

/// `c` scaled by `dist / len`, rounded toward zero; the sign of `c` is kept.
pub open spec fn scale_toward(c: int, dist: int, len: int) -> int {
    if c >= 0 {
        (c * dist) / len
    } else {
        -((-c * dist) / len)
    }
}

/// The displacement of length (at most) `dist` in the direction of `v`,
/// each component rounded toward zero.  The zero vector points east,
/// matching the convention that the angle of a zero vector is zero.
pub open spec fn offset_along_spec(v: Vec2i, dist: int) -> Vec2i {
    if v.x == 0 && v.y == 0 {
        Vec2i { x: dist as i64, y: 0 }
    } else {
        let len = sqrt_floor((v.x * v.x + v.y * v.y) as nat) as int;
        Vec2i { x: scale_toward(v.x as int, dist, len) as i64, y: scale_toward(v.y as int, dist, len) as i64 }
    }
}

/// Magnitude division helper: `(c_abs * dist) / len` on unsigned values.
fn mag_scaled(c_abs: u64, dist: u64, len: u64) -> (m: u64)
    requires
        len >= 1,
        c_abs <= len,
    ensures
        m == (c_abs * dist) / (len as int),
        m <= dist,
{
    proof {
        assert((c_abs as u128) * (dist as u128) < 0xFFFF_FFFF_FFFF_FFFF_FFFF_FFFF_FFFF_FFFFu128)
            by (nonlinear_arith)
            requires
                0 <= c_abs <= 0xFFFF_FFFF_FFFF_FFFFu64,
                0 <= dist <= 0xFFFF_FFFF_FFFF_FFFFu64,
        ;
    }
    let wide: u128 = (c_abs as u128) * (dist as u128) / (len as u128);
    proof {
        assert((c_abs * dist) / (len as int) <= dist) by (nonlinear_arith)
            requires
                1 <= len,
                c_abs <= len,
                0 <= dist,
        ;
    }
    wide as u64
}

/// The offset along a direction never exceeds the requested distance in
/// either component.
pub proof fn lemma_offset_along_bounds(v: Vec2i, dist: int)
    requires
        0 <= dist <= crate::constants::POS_LIMIT,
    ensures
        -dist <= offset_along_spec(v, dist).x <= dist,
        -dist <= offset_along_spec(v, dist).y <= dist,
{
    if v.x == 0 && v.y == 0 {
    } else {
        let ax: int = if v.x >= 0 {
            v.x as int
        } else {
            -(v.x as int)
        };
        let ay: int = if v.y >= 0 {
            v.y as int
        } else {
            -(v.y as int)
        };
        let n = (v.x * v.x + v.y * v.y) as nat;
        lemma_sqrt_floor_bounds(n);
        let len = sqrt_floor(n) as int;
        assert(ax * ax == v.x * v.x && ay * ay == v.y * v.y && v.x * v.x >= 0 && v.y * v.y >= 0)
            by (nonlinear_arith)
            requires
                ax == (if v.x >= 0 {
                    v.x as int
                } else {
                    -(v.x as int)
                }),
                ay == (if v.y >= 0 {
                    v.y as int
                } else {
                    -(v.y as int)
                }),
        ;
        assert(n == ax * ax + ay * ay);
        assert(len >= 1 && ax <= len && ay <= len) by (nonlinear_arith)
            requires
                len * len <= ax * ax + ay * ay,
                ax * ax + ay * ay < (len + 1) * (len + 1),
                ax > 0 || ay > 0,
                ax >= 0,
                ay >= 0,
                len >= 0,
                n == ax * ax + ay * ay,
        ;
        assert(0 <= (ax * dist) / len <= dist) by (nonlinear_arith)
            requires
                0 <= ax <= len,
                1 <= len,
                0 <= dist,
        ;
        assert(0 <= (ay * dist) / len <= dist) by (nonlinear_arith)
            requires
                0 <= ay <= len,
                1 <= len,
                0 <= dist,
        ;
    }
}

/// The exec counterpart of [`offset_along_spec`].
pub fn offset_along(v: Vec2i, dist: i64) -> (o: Vec2i)
    requires
        v.x > i64::MIN,
        v.y > i64::MIN,
        dist >= 0,
    ensures
        o == offset_along_spec(v, dist as int),
        -dist <= o.x <= dist,
        -dist <= o.y <= dist,
{
    if v.x == 0 && v.y == 0 {
        return Vec2i { x: dist, y: 0 };
    }
    let ax: u64 = (if v.x >= 0 {
        v.x
    } else {
        -v.x
    }) as u64;
    let ay: u64 = (if v.y >= 0 {
        v.y
    } else {
        -v.y
    }) as u64;
    proof {
        assert((ax as u128) * (ax as u128) + (ay as u128) * (ay as u128)
            < 0xFFFF_FFFF_FFFF_FFFF_FFFF_FFFF_FFFF_FFFFu128) by (nonlinear_arith)
            requires
                0 <= ax <= 0x8000_0000_0000_0000u128,
                0 <= ay <= 0x8000_0000_0000_0000u128,
        ;
    }
    let n: u128 = (ax as u128) * (ax as u128) + (ay as u128) * (ay as u128);
    proof {
        assert(n == v.x * v.x + v.y * v.y) by (nonlinear_arith)
            requires
                ax == (if v.x >= 0 { v.x as int } else { -(v.x as int) }),
                ay == (if v.y >= 0 { v.y as int } else { -(v.y as int) }),
                n == ax * ax + ay * ay,
        ;
    }
    let len: u64 = isqrt(n);
    proof {
        assert(len >= 1 && ax <= len && ay <= len) by (nonlinear_arith)
            requires
                (len as int) * (len as int) <= ax * ax + ay * ay,
                ax * ax + ay * ay < (len as int + 1) * (len as int + 1),
                ax > 0 || ay > 0,
                ax >= 0,
                ay >= 0,
                len >= 0,
        ;
    }
    let mx = mag_scaled(ax, dist as u64, len);
    let my = mag_scaled(ay, dist as u64, len);
    let ox: i64 = if v.x >= 0 {
        mx as i64
    } else {
        -(mx as i64)
    };
    let oy: i64 = if v.y >= 0 {
        my as i64
    } else {
        -(my as i64)
    };
    Vec2i { x: ox, y: oy }
}

/// `v * dt` for a bounded speed and a bounded time step; the product stays
/// well inside the machine integers.
pub fn scale_vel(v: i64, dt: i64) -> (r: i64)
    requires
        -2_000_000_000_000 <= v <= 2_000_000_000_000,
        0 <= dt <= 1_000_000,
    ensures
        r == v * dt,
        -2_000_000_000_000_000_000 <= r <= 2_000_000_000_000_000_000,
{
    proof {
        assert(-2_000_000_000_000_000_000 <= v * dt <= 2_000_000_000_000_000_000)
            by (nonlinear_arith)
            requires
                -2_000_000_000_000 <= v <= 2_000_000_000_000,
                0 <= dt <= 1_000_000,
        ;
    }
    v * dt
}

} // verus!
