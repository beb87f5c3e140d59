//! Integer plane geometry for the simulation.
//!
//! Positions are measured in millipixels (one thousandth of a pixel) and
//! stored as `i64`, so a speed in pixels per second multiplied by a frame
//! delta in milliseconds is exactly a displacement in millipixels.
//!
//! A direction is an offset vector; its length carries no meaning.  Movement
//! normalizes the offset with an integer square root, so `advance` displaces
//! by `speed * dt` millipixels along the offset, rounded toward zero in each
//! component, and saturates at the world limit.

use vstd::prelude::*;
use vstd::arithmetic::div_mod::lemma_div_nonincreasing;

verus! {

/// World coordinates saturate at this many millipixels from the origin.
pub const POS_LIMIT: i64 = 10_000_000;

/// Largest per-axis magnitude of a direction offset (an offset between two
/// world points, with room to spare for steering offsets).
pub const DIR_LIMIT: i64 = 20_000_000;

/// Largest speed the simulation admits, in pixels per second.
pub const SPEED_LIMIT: u32 = 1_000;

/// Largest frame delta the simulation admits, in milliseconds.
pub const DT_LIMIT: u64 = 60_000;

/// A point or offset in the plane, in millipixels.
#[derive(Clone, Copy, Debug, PartialEq, Eq, Structural)]
pub struct Vec2I {
    pub x: i64,
    pub y: i64,
}

impl Vec2I {
    /// The origin, also the "no direction" offset.
    pub open spec fn spec_zero() -> Vec2I {
        Vec2I { x: 0, y: 0 }
    }

    pub fn zero() -> (r: Vec2I)
        ensures
            r == Vec2I::spec_zero(),
    {
        Vec2I { x: 0, y: 0 }
    }

    /// The point lies within the saturating world square.
    pub open spec fn in_world(self) -> bool {
        &&& -POS_LIMIT <= self.x <= POS_LIMIT
        &&& -POS_LIMIT <= self.y <= POS_LIMIT
    }

    /// The offset is small enough to feed the movement arithmetic.
    pub open spec fn is_dir(self) -> bool {
        &&& -DIR_LIMIT <= self.x <= DIR_LIMIT
        &&& -DIR_LIMIT <= self.y <= DIR_LIMIT
    }

    pub open spec fn is_zero(self) -> bool {
        self.x == 0 && self.y == 0
    }

    /// The offset from `other` to `self`, exact in every component.
    pub fn sub(self, other: Vec2I) -> (r: Vec2I)
        requires
            self.in_world(),
            other.in_world(),
        ensures
            r.x == self.x - other.x,
            r.y == self.y - other.y,
            r.is_dir(),
    {
        Vec2I { x: self.x - other.x, y: self.y - other.y }
    }
}

/// Squared euclidean distance between two points, as a mathematical integer.
pub open spec fn spec_dist_sq(a: Vec2I, b: Vec2I) -> int {
    (a.x - b.x) * (a.x - b.x) + (a.y - b.y) * (a.y - b.y)
}

/// Squared euclidean distance, exactly `spec_dist_sq`.
pub fn dist_sq(a: Vec2I, b: Vec2I) -> (r: u64)
    requires
        a.in_world(),
        b.in_world(),
    ensures
        r == spec_dist_sq(a, b),
{
    let dx: i64 = a.x - b.x;
    let dy: i64 = a.y - b.y;
    assert(dx * dx <= 4 * POS_LIMIT * POS_LIMIT && dx * dx >= 0) by (nonlinear_arith)
        requires
            -2 * POS_LIMIT <= dx <= 2 * POS_LIMIT,
    ;
    assert(dy * dy <= 4 * POS_LIMIT * POS_LIMIT && dy * dy >= 0) by (nonlinear_arith)
        requires
            -2 * POS_LIMIT <= dy <= 2 * POS_LIMIT,
    ;
    let sx: i64 = dx * dx;
    let sy: i64 = dy * dy;
    (sx as u64) + (sy as u64)
}

/// `r` is the integer square root of `n`.
pub open spec fn is_isqrt(n: int, r: int) -> bool {
    &&& 0 <= r
    &&& r * r <= n
    &&& n < (r + 1) * (r + 1)
}

/// The integer square root, defined by counting up.
pub open spec fn spec_isqrt(n: int) -> int
    decreases n,
{
    if n <= 0 {
        0
    } else {
        let p = spec_isqrt(n - 1);
        if (p + 1) * (p + 1) <= n {
            p + 1
        } else {
            p
        }
    }
}

pub proof fn lemma_isqrt_is_isqrt(n: int)
    requires
        n >= 0,
    ensures
        is_isqrt(n, spec_isqrt(n)),
    decreases n,
{
    if n == 0 {
    } else {
        lemma_isqrt_is_isqrt(n - 1);
        let p = spec_isqrt(n - 1);
        if (p + 1) * (p + 1) <= n {
            assert((p + 2) * (p + 2) > n) by (nonlinear_arith)
                requires
                    p >= 0,
                    n - 1 < (p + 1) * (p + 1),
            ;
        }
    }
}

/// Two integer square roots of the same number are equal.
pub proof fn lemma_isqrt_unique(n: int, a: int, b: int)
    requires
        is_isqrt(n, a),
        is_isqrt(n, b),
    ensures
        a == b,
{
    assert(a == b) by (nonlinear_arith)
        requires
            0 <= a && a * a <= n < (a + 1) * (a + 1),
            0 <= b && b * b <= n < (b + 1) * (b + 1),
    ;
}

/// A positive number has a positive integer square root.
pub proof fn lemma_isqrt_pos(n: int)
    requires
        n >= 1,
    ensures
        spec_isqrt(n) >= 1,
{
    lemma_isqrt_is_isqrt(n);
}

/// Integer square root by binary search.
pub fn isqrt(n: u64) -> (r: u64)
    requires
        n <= 1_000_000_000_000_000_000,
    ensures
        r == spec_isqrt(n as int),
        r <= 1_000_000_000,
{
    proof {
        lemma_isqrt_is_isqrt(n as int);
    }
    let mut lo: u64 = 0;
    let mut hi: u64 = 1_000_000_001;
    assert(hi * hi > n) by (nonlinear_arith)
        requires
            hi == 1_000_000_001u64 && n <= 1_000_000_000_000_000_000,
    ;
    while lo + 1 < hi
        invariant
            lo < hi <= 1_000_000_001,
            lo * lo <= n,
            n < hi * hi,
        decreases hi - lo,
    {
        let mid: u64 = lo + (hi - lo) / 2;
        assert(mid * mid < 18_446_744_073_709_551_615) by (nonlinear_arith)
            requires
                mid <= 1_000_000_001u64,
        ;
        if mid * mid <= n {
            lo = mid;
        } else {
            hi = mid;
        }
    }
    proof {
        lemma_isqrt_unique(n as int, lo as int, spec_isqrt(n as int));
    }
    lo
}

/// Saturate a coordinate at the world limit.
pub open spec fn spec_clamp(c: int) -> int {
    if c > POS_LIMIT {
        POS_LIMIT as int
    } else if c < -POS_LIMIT {
        -POS_LIMIT as int
    } else {
        c
    }
}

/// One displacement component: `c * step / len` rounded toward zero,
/// stated over non-negative division only.
pub open spec fn spec_disp(c: int, step: int, len: int) -> int {
    if c >= 0 {
        c * step / len
    } else {
        -((-c) * step / len)
    }
}

/// Where one movement tick puts a point: no offset means no movement;
/// otherwise displace `speed * dt` millipixels along the offset, each
/// component rounded toward zero, saturating at the world limit.
pub open spec fn spec_advance(pos: Vec2I, dir: Vec2I, speed: int, dt: int) -> Vec2I {
    if dir.is_zero() {
        pos
    } else {
        let step = speed * dt;
        let len = spec_isqrt(dir.x * dir.x + dir.y * dir.y);
        Vec2I {
            x: spec_clamp(pos.x + spec_disp(dir.x as int, step, len)) as i64,
            y: spec_clamp(pos.y + spec_disp(dir.y as int, step, len)) as i64,
        }
    }
}

/// Clamp an in-range sum into the world square.
fn clamp_coord(c: i64) -> (r: i64)
    ensures
        r == spec_clamp(c as int),
{
    if c > POS_LIMIT {
        POS_LIMIT
    } else if c < -POS_LIMIT {
        -POS_LIMIT
    } else {
        c
    }
}

/// One movement tick: `position += direction * speed * dt`, with the
/// direction offset normalized by its integer length.
pub fn advance(pos: Vec2I, dir: Vec2I, speed: u32, dt: u64) -> (r: Vec2I)
    requires
        pos.in_world(),
        dir.is_dir(),
        speed <= SPEED_LIMIT,
        dt <= DT_LIMIT,
    ensures
        r == spec_advance(pos, dir, speed as int, dt as int),
        r.in_world(),
{
    if dir.x == 0 && dir.y == 0 {
        return pos;
    }
    assert((speed as u64) * (dt as u64) <= 60_000_000) by (nonlinear_arith)
        requires
            speed <= 1_000u32,
            dt <= 60_000u64,
    ;
    let step: u64 = (speed as u64) * (dt as u64);
    let ax: u64 = if dir.x >= 0 {
        dir.x as u64
    } else {
        (-dir.x) as u64
    };
    let ay: u64 = if dir.y >= 0 {
        dir.y as u64
    } else {
        (-dir.y) as u64
    };
    assert(ax * ax + ay * ay <= 800_000_000_000_000 && ax * ax == dir.x * dir.x && ay * ay
        == dir.y * dir.y) by (nonlinear_arith)
        requires
            ax <= 20_000_000u64,
            ay <= 20_000_000u64,
            ax == if dir.x >= 0 { dir.x as int } else { -dir.x as int },
            ay == if dir.y >= 0 { dir.y as int } else { -dir.y as int },
    ;
    let n: u64 = ax * ax + ay * ay;
    assert(n >= 1) by (nonlinear_arith)
        requires
            n == ax * ax + ay * ay,
            ax >= 1 || ay >= 1,
    ;
    let len: u64 = isqrt(n);
    proof {
        lemma_isqrt_pos(n as int);
    }
    assert(ax * step <= 1_200_000_000_000_000 && ay * step <= 1_200_000_000_000_000)
        by (nonlinear_arith)
        requires
            ax <= 20_000_000u64,
            ay <= 20_000_000u64,
            step <= 60_000_000u64,
    ;
    proof {
        lemma_div_nonincreasing((ax * step) as int, len as int);
        lemma_div_nonincreasing((ay * step) as int, len as int);
    }
    let mx: u64 = ax * step / len;
    let my: u64 = ay * step / len;
    let dx: i64 = if dir.x >= 0 {
        mx as i64
    } else {
        -(mx as i64)
    };
    let dy: i64 = if dir.y >= 0 {
        my as i64
    } else {
        -(my as i64)
    };
    Vec2I { x: clamp_coord(pos.x + dx), y: clamp_coord(pos.y + dy) }
}

/// A coordinate moved toward a target by at most `step`, never overshooting.
pub open spec fn spec_toward(c: int, t: int, step: int) -> int {
    if c < t {
        if t - c <= step {
            t
        } else {
            c + step
        }
    } else {
        if c - t <= step {
            t
        } else {
            c - step
        }
    }
}

/// Move a bounded coordinate toward a bounded target by at most `step`.
pub fn coord_toward(c: i64, t: i64, step: i64) -> (r: i64)
    requires
        -1_000_000 <= c <= 1_000_000,
        -1_000_000 <= t <= 1_000_000,
        0 <= step <= 1_000_000,
    ensures
        r == spec_toward(c as int, t as int, step as int),
{
    if c < t {
        if t - c <= step {
            t
        } else {
            c + step
        }
    } else {
        if c - t <= step {
            t
        } else {
            c - step
        }
    }
}

} // verus!
