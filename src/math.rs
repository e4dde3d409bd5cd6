//! Integer plane geometry: positions and velocities in whole world units.
use vstd::prelude::*;

verus! {

/// A point or a displacement in world units.
#[derive(Debug, Clone, Copy, PartialEq, Eq, Structural, Default)]
pub struct Vector2 {
    pub x: i32,
    pub y: i32,
}

/// Squared Euclidean distance between two points.
pub open spec fn sq_dist_spec(a: Vector2, b: Vector2) -> int {
    (a.x - b.x) * (a.x - b.x) + (a.y - b.y) * (a.y - b.y)
}

/// `r` is the integer square root of `n`.
pub open spec fn is_isqrt(n: int, r: int) -> bool {
    0 <= r && r * r <= n < (r + 1) * (r + 1)
}

pub open spec fn abs(v: int) -> int {
    if v < 0 {
        -v
    } else {
        v
    }
}

/// Component `d` of a direction of length `len`, rescaled to length
/// `speed` and truncated toward zero.
pub open spec fn scaled_component(d: int, speed: int, len: int) -> int {
    if d < 0 {
        -(abs(d) * speed / len)
    } else {
        abs(d) * speed / len
    }
}

impl Vector2 {
    pub fn new(x: i32, y: i32) -> (r: Vector2)
        ensures
            r.x == x,
            r.y == y,
    {
        Vector2 { x, y }
    }

    pub fn zero() -> (r: Vector2)
        ensures
            r.x == 0,
            r.y == 0,
    {
        Vector2 { x: 0, y: 0 }
    }
}

/// Absolute difference of two coordinates.
fn abs_diff(a: i32, b: i32) -> (r: u64)
    ensures
        r == abs(a - b),
{
    if a >= b {
        (a as i64 - b as i64) as u64
    } else {
        (b as i64 - a as i64) as u64
    }
}

pub fn sq_dist(a: Vector2, b: Vector2) -> (r: u128)
    ensures
        r == sq_dist_spec(a, b),
{
    let dx = abs_diff(a.x, b.x) as u128;
    let dy = abs_diff(a.y, b.y) as u128;
    proof {
        assert(dx * dx == (a.x - b.x) * (a.x - b.x)) by (nonlinear_arith)
            requires
                dx == abs(a.x - b.x),
        ;
        assert(dy * dy == (a.y - b.y) * (a.y - b.y)) by (nonlinear_arith)
            requires
                dy == abs(a.y - b.y),
        ;
        assert(dx * dx < 0x1_0000_0000_0000_0000) by (nonlinear_arith)
            requires
                dx < 0x1_0000_0000,
        ;
        assert(dy * dy < 0x1_0000_0000_0000_0000) by (nonlinear_arith)
            requires
                dy < 0x1_0000_0000,
        ;
    }
    dx * dx + dy * dy
}

/// Integer square root by bisection.
pub fn isqrt(n: u128) -> (r: u64)
    ensures
        is_isqrt(n as int, r as int),
{
    let mut lo: u128 = 0;
    let mut hi: u128 = 0x1_0000_0000_0000_0000;
    proof {
        assert(n < hi * hi) by (nonlinear_arith)
            requires
                hi == 0x1_0000_0000_0000_0000int,
                n <= u128::MAX,
        ;
    }
    while hi - lo > 1
        invariant
            lo < hi <= 0x1_0000_0000_0000_0000,
            lo * lo <= n,
            n < hi * hi,
        decreases hi - lo,
    {
        let mid = lo + (hi - lo) / 2;
        proof {
            assert(mid * mid < 0x1_0000_0000_0000_0000_0000_0000_0000_0000) by (nonlinear_arith)
                requires
                    mid < 0x1_0000_0000_0000_0000,
            ;
        }
        if mid * mid <= n {
            lo = mid;
        } else {
            hi = mid;
        }
    }
    proof {
        assert(hi == lo + 1);
    }
    lo as u64
}

/// The direction from `from` to `to`, rescaled to length `speed`; zero when
/// the two points coincide.
pub fn scaled_direction(from: Vector2, to: Vector2, speed: u32) -> (r: Vector2)
    requires
        speed <= i32::MAX,
    ensures
        sq_dist_spec(from, to) == 0 ==> r == (Vector2 { x: 0, y: 0 }),
        sq_dist_spec(from, to) > 0 ==> exists|len: int|
            is_isqrt(sq_dist_spec(from, to), len) && r.x == scaled_component(to.x - from.x, speed as int, len)
                && r.y == scaled_component(to.y - from.y, speed as int, len),
{
    let n = sq_dist(from, to);
    if n == 0 {
        return Vector2::zero();
    }
    let len = isqrt(n);
    proof {
        let (dx, dy) = (to.x - from.x, to.y - from.y);
        let (ax, ay) = (abs(dx), abs(dy));
        assert(ax * ax == dx * dx) by (nonlinear_arith)
            requires
                ax == dx || ax == -dx,
        ;
        assert(ay * ay == dy * dy) by (nonlinear_arith)
            requires
                ay == dy || ay == -dy,
        ;
        assert(dx * dx >= 0 && dy * dy >= 0) by (nonlinear_arith);
        let (ex, ey) = (from.x - to.x, from.y - to.y);
        assert(ex * ex == dx * dx && ey * ey == dy * dy) by (nonlinear_arith)
            requires
                ex == -dx,
                ey == -dy,
        ;
    }
    let x = scale_one(from.x, to.x, speed, len, n);
    let y = scale_one(from.y, to.y, speed, len, n);
    Vector2 { x, y }
}

fn scale_one(a: i32, b: i32, speed: u32, len: u64, n: u128) -> (r: i32)
    requires
        speed <= i32::MAX,
        n > 0,
        is_isqrt(n as int, len as int),
        abs(b - a) * abs(b - a) <= n,
    ensures
        r == scaled_component(b - a, speed as int, len as int),
{
    let d = abs_diff(a, b);
    proof {
        assert(len >= 1) by (nonlinear_arith)
            requires
                n > 0,
                n < (len + 1) * (len + 1),
                len >= 0,
        ;
        assert(d <= len) by (nonlinear_arith)
            requires
                d * d <= n,
                n < (len + 1) * (len + 1),
                d >= 0,
                len >= 0,
        ;
        let (di, si, li) = (d as int, speed as int, len as int);
        assert(di * si <= li * si) by (nonlinear_arith)
            requires
                di <= li,
                si >= 0,
        ;
        assert(di * si < 0x1_0000_0000_0000_0000) by (nonlinear_arith)
            requires
                0 <= di < 0x1_0000_0000,
                0 <= si < 0x1_0000_0000,
        ;
        assert((di * si) / li <= si) by (nonlinear_arith)
            requires
                di * si <= li * si,
                li >= 1,
        ;
    }
    let m = (d * speed as u64) / len;
    if b < a {
        -(m as i32)
    } else {
        m as i32
    }
}

} // verus!
