use crate::event::Point;
use vstd::prelude::*;

verus! {

/// Largest magnitude of a coordinate that `distance` accepts.
pub const COORD_LIMIT: i64 = 0x2000_0000_0000_0000;

/// `r` is the integer square root of `n`: the largest `r` with `r * r <= n`.
pub open spec fn is_isqrt(n: int, r: int) -> bool {
    0 <= r && r * r <= n < (r + 1) * (r + 1)
}

/// Squared Euclidean distance between two points.
pub open spec fn dist_sq(a: Point, b: Point) -> int {
    (b.x - a.x) * (b.x - a.x) + (b.y - a.y) * (b.y - a.y)
}

pub open spec fn coord_ok(p: Point) -> bool {
    -COORD_LIMIT <= p.x <= COORD_LIMIT && -COORD_LIMIT <= p.y <= COORD_LIMIT
}

/// Integer square root, rounded down, of `n < 2^126`.
pub fn isqrt(n: u128) -> (r: u64)
    requires
        n < 0x4000_0000_0000_0000_0000_0000_0000_0000,
    ensures
        is_isqrt(n as int, r as int),
{
    let mut lo: u128 = 0;
    let mut hi: u128 = 0x8000_0000_0000_0000;
    assert(n < hi * hi) by (nonlinear_arith)
        requires
            hi == 0x8000_0000_0000_0000,
            n < 0x4000_0000_0000_0000_0000_0000_0000_0000,
    ;
    while hi - lo > 1
        invariant
            lo < hi <= 0x8000_0000_0000_0000,
            lo * lo <= n < hi * hi,
        decreases hi - lo,
    {
        let mid = lo + (hi - lo) / 2;
        assert(mid * mid <= 0x8000_0000_0000_0000 * 0x8000_0000_0000_0000) by (nonlinear_arith)
            requires
                mid <= 0x8000_0000_0000_0000,
        ;
        if mid * mid <= n {
            lo = mid;
        } else {
            hi = mid;
        }
    }
    assert(hi == lo + 1);
    lo as u64
}

/// Euclidean distance between `a` and `b`, rounded down.
pub fn distance(a: Point, b: Point) -> (r: i64)
    requires
        coord_ok(a),
        coord_ok(b),
    ensures
        is_isqrt(dist_sq(a, b), r as int),
{
    let dx = b.x as i128 - a.x as i128;
    let dy = b.y as i128 - a.y as i128;
    let ux: u128 = if dx < 0 { (-dx) as u128 } else { dx as u128 };
    let uy: u128 = if dy < 0 { (-dy) as u128 } else { dy as u128 };
    assert(ux * ux <= 0x4000_0000_0000_0000 * 0x4000_0000_0000_0000) by (nonlinear_arith)
        requires
            ux <= 0x4000_0000_0000_0000,
    ;
    assert(uy * uy <= 0x4000_0000_0000_0000 * 0x4000_0000_0000_0000) by (nonlinear_arith)
        requires
            uy <= 0x4000_0000_0000_0000,
    ;
    let n = ux * ux + uy * uy;
    assert(n == dist_sq(a, b)) by (nonlinear_arith)
        requires
            ux == dx || ux == -dx,
            uy == dy || uy == -dy,
            dx == b.x - a.x,
            dy == b.y - a.y,
            n == ux * ux + uy * uy,
    ;
    let r = isqrt(n);
    assert(r < 0x8000_0000_0000_0000) by (nonlinear_arith)
        requires
            r * r <= n,
            n <= 2 * 0x4000_0000_0000_0000 * 0x4000_0000_0000_0000,
            r >= 0,
    ;
    r as i64
}

} // verus!
