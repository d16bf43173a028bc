use crate::event::Point;
use vstd::arithmetic::div_mod::{lemma_fundamental_div_mod, lemma_fundamental_div_mod_converse};
use vstd::prelude::*;

verus! {

/// Smallest zoom factor, 0.2.
pub const ZOOM_MIN: u64 = 200;

/// Largest zoom factor, 5.0.
pub const ZOOM_MAX: u64 = 5000;

/// Zoom factor 1.0.
pub const ZOOM_ONE: u64 = 1000;

/// Largest magnitude of a pan offset, in thousandths of a pixel.
pub const PAN_LIMIT: i64 = 1_000_000_000_000_000;

/// `a / b` rounded towards negative infinity (Verus's `/` on `int` is floor
/// division for a positive divisor).
pub fn floor_div(a: i128, b: u128) -> (q: i128)
    requires
        b > 0,
        a > i128::MIN,
    ensures
        q == a as int / b as int,
{
    if a >= 0 {
        let q = (a as u128) / b;
        proof {
            lemma_fundamental_div_mod(a as int, b as int);
        }
        assert(q <= a) by (nonlinear_arith)
            requires
                a == b * q + (a as u128 % b),
                b > 0,
        ;
        q as i128
    } else {
        let m: u128 = (-a) as u128;
        let q0: u128 = m / b;
        let r0: u128 = m % b;
        proof {
            lemma_fundamental_div_mod(m as int, b as int);
        }
        assert(q0 <= m) by (nonlinear_arith)
            requires
                m == b * q0 + r0,
                b > 0,
                r0 >= 0,
        ;
        if r0 == 0 {
            proof {
                assert(a as int == -(q0 as int) * b as int + 0) by (nonlinear_arith)
                    requires
                        a as int == -(m as int),
                        m == b * q0 + r0,
                        r0 == 0,
                ;
                lemma_fundamental_div_mod_converse(a as int, b as int, -(q0 as int), 0);
            }
            -(q0 as i128)
        } else {
            proof {
                assert(a as int == (-(q0 as int) - 1) * b as int + (b as int - r0 as int))
                    by (nonlinear_arith)
                    requires
                        a as int == -(m as int),
                        m == b * q0 + r0,
                ;
                lemma_fundamental_div_mod_converse(
                    a as int,
                    b as int,
                    -(q0 as int) - 1,
                    b as int - r0 as int,
                );
            }
            -(q0 as i128) - 1
        }
    }
}

} // verus!

verus! {

/// The zoom factor `z` limited to `[ZOOM_MIN, ZOOM_MAX]`.
pub open spec fn clamp_zoom(z: int) -> int {
    if z < ZOOM_MIN {
        ZOOM_MIN as int
    } else if z > ZOOM_MAX {
        ZOOM_MAX as int
    } else {
        z
    }
}

/// The pan offset `p` limited to `[-PAN_LIMIT, PAN_LIMIT]`.
pub open spec fn clamp_pan(p: int) -> int {
    if p < -PAN_LIMIT {
        -PAN_LIMIT as int
    } else if p > PAN_LIMIT {
        PAN_LIMIT as int
    } else {
        p
    }
}

/// Zoom after one wheel notch: up multiplies by 1.1, down by 1/1.1.
pub open spec fn wheel_zoom(z: int, up: bool) -> int {
    if up {
        clamp_zoom(z * 11 / 10)
    } else {
        clamp_zoom(z * 10 / 11)
    }
}

/// Zoom after a whole sequence of wheel deltas; a negative delta scrolls up.
pub open spec fn zoom_after_wheel(z: int, deltas: Seq<i32>) -> int
    decreases deltas.len(),
{
    if deltas.len() == 0 {
        z
    } else {
        zoom_after_wheel(wheel_zoom(z, deltas[0] < 0), deltas.drop_first())
    }
}

/// Canvas coordinate (thousandths) of screen pixel `s` under pan `p`
/// (thousandths of a pixel) and zoom `z` (thousandths): `(s - p) / z`,
/// rounded down.
pub open spec fn canvas_coord(s: int, p: int, z: int) -> int {
    (s * 1000 - p) * 1000 / z
}

/// Screen pixel of canvas coordinate `c`: `c * z + p`, rounded to nearest.
pub open spec fn screen_coord(c: int, p: int, z: int) -> int {
    (c * z + p * 1000 + 500_000) / 1_000_000
}

/// A client's viewport: pan offset and zoom factor.
#[derive(Clone, Copy, Debug, PartialEq, Eq, Structural)]
pub struct Transform {
    /// Horizontal pan, in thousandths of a pixel.
    pub pan_x: i64,
    /// Vertical pan, in thousandths of a pixel.
    pub pan_y: i64,
    /// Zoom factor, in thousandths.
    pub zoom: u64,
}

impl Transform {
    pub open spec fn wf(&self) -> bool {
        &&& ZOOM_MIN <= self.zoom <= ZOOM_MAX
        &&& -PAN_LIMIT <= self.pan_x <= PAN_LIMIT
        &&& -PAN_LIMIT <= self.pan_y <= PAN_LIMIT
    }

    /// The identity viewport: no pan, zoom 1.0.
    pub fn new() -> (t: Transform)
        ensures
            t.wf(),
            t.pan_x == 0,
            t.pan_y == 0,
            t.zoom == ZOOM_ONE,
    {
        Transform { pan_x: 0, pan_y: 0, zoom: ZOOM_ONE }
    }

    /// Canvas-space point under screen pixel `(sx, sy)`.
    pub fn to_canvas(&self, sx: i32, sy: i32) -> (c: Point)
        requires
            self.wf(),
        ensures
            c.x == canvas_coord(sx as int, self.pan_x as int, self.zoom as int),
            c.y == canvas_coord(sy as int, self.pan_y as int, self.zoom as int),
            canvas_bounded(c),
    {
        let x = floor_div((sx as i128 * 1000 - self.pan_x as i128) * 1000, self.zoom as u128);
        let y = floor_div((sy as i128 * 1000 - self.pan_y as i128) * 1000, self.zoom as u128);
        proof {
            lemma_canvas_coord_bounded(sx as int, self.pan_x as int, self.zoom as int);
            lemma_canvas_coord_bounded(sy as int, self.pan_y as int, self.zoom as int);
        }
        Point { x: x as i64, y: y as i64 }
    }

    /// Screen pixel at which canvas-space point `c` is shown.
    pub fn to_screen(&self, c: Point) -> (r: (i128, i128))
        requires
            self.wf(),
        ensures
            r.0 == screen_coord(c.x as int, self.pan_x as int, self.zoom as int),
            r.1 == screen_coord(c.y as int, self.pan_y as int, self.zoom as int),
    {
        let z = self.zoom as i128;
        assert(-0x8000_0000_0000_0000 * 5000 <= c.x * z <= 0x8000_0000_0000_0000 * 5000)
            by (nonlinear_arith)
            requires
                0 <= z <= 5000,
                -0x8000_0000_0000_0000 <= c.x < 0x8000_0000_0000_0000,
        ;
        assert(-0x8000_0000_0000_0000 * 5000 <= c.y * z <= 0x8000_0000_0000_0000 * 5000)
            by (nonlinear_arith)
            requires
                0 <= z <= 5000,
                -0x8000_0000_0000_0000 <= c.y < 0x8000_0000_0000_0000,
        ;
        let x = floor_div(c.x as i128 * z + self.pan_x as i128 * 1000 + 500_000, 1_000_000);
        let y = floor_div(c.y as i128 * z + self.pan_y as i128 * 1000 + 500_000, 1_000_000);
        (x, y)
    }

    /// One wheel notch: a negative `delta_y` zooms in by 1.1, any other zooms
    /// out by 1/1.1; the result is kept within `[ZOOM_MIN, ZOOM_MAX]`.
    pub fn wheel(&mut self, delta_y: i32)
        requires
            old(self).wf(),
        ensures
            final(self).wf(),
            final(self).zoom == wheel_zoom(old(self).zoom as int, delta_y < 0),
            final(self).pan_x == old(self).pan_x,
            final(self).pan_y == old(self).pan_y,
    {
        let z = if delta_y < 0 {
            self.zoom * 11 / 10
        } else {
            self.zoom * 10 / 11
        };
        self.zoom = clamp_zoom_exec(z);
    }

    /// Multiplies the zoom by `factor` (thousandths), kept within range; a
    /// factor that is not positive gives the smallest zoom.
    pub fn scale_zoom(&mut self, factor: i64)
        requires
            old(self).wf(),
        ensures
            final(self).wf(),
            final(self).zoom == clamp_zoom(old(self).zoom * factor / 1000),
            final(self).pan_x == old(self).pan_x,
            final(self).pan_y == old(self).pan_y,
    {
        if factor <= 0 {
            let z0 = self.zoom;
            assert(z0 * factor / 1000 <= 0) by (nonlinear_arith)
                requires
                    z0 >= 0,
                    factor <= 0,
            ;
            self.zoom = ZOOM_MIN;
            return;
        }
        let f = factor as u128;
        let z0 = self.zoom as u128;
        assert(z0 * f <= 5000 * 0x7fff_ffff_ffff_ffff) by (nonlinear_arith)
            requires
                z0 <= 5000,
                f <= 0x7fff_ffff_ffff_ffff,
        ;
        let z: u128 = z0 * f / 1000;
        self.zoom = if z > ZOOM_MAX as u128 {
            ZOOM_MAX
        } else {
            clamp_zoom_exec(z as u64)
        };
    }

    /// Moves the viewport by `(dx, dy)` thousandths of a pixel; each offset
    /// stops at `PAN_LIMIT` in either direction.
    pub fn pan_by(&mut self, dx: i64, dy: i64)
        requires
            old(self).wf(),
        ensures
            final(self).wf(),
            final(self).pan_x == clamp_pan(old(self).pan_x + dx),
            final(self).pan_y == clamp_pan(old(self).pan_y + dy),
            final(self).zoom == old(self).zoom,
    {
        self.pan_x = clamp_pan_exec(self.pan_x as i128 + dx as i128);
        self.pan_y = clamp_pan_exec(self.pan_y as i128 + dy as i128);
    }
}

fn clamp_zoom_exec(z: u64) -> (r: u64)
    ensures
        r == clamp_zoom(z as int),
{
    if z < ZOOM_MIN {
        ZOOM_MIN
    } else if z > ZOOM_MAX {
        ZOOM_MAX
    } else {
        z
    }
}

fn clamp_pan_exec(p: i128) -> (r: i64)
    ensures
        r == clamp_pan(p as int),
{
    if p < -(PAN_LIMIT as i128) {
        -PAN_LIMIT
    } else if p > PAN_LIMIT as i128 {
        PAN_LIMIT
    } else {
        p as i64
    }
}

/// Largest magnitude of a canvas coordinate under a well-formed transform.
pub const CANVAS_LIMIT: i64 = 0x0400_0000_0000_0000;

pub open spec fn canvas_bounded(c: Point) -> bool {
    -CANVAS_LIMIT <= c.x <= CANVAS_LIMIT && -CANVAS_LIMIT <= c.y <= CANVAS_LIMIT
}

proof fn lemma_canvas_coord_bounded(s: int, p: int, z: int)
    requires
        -0x8000_0000 <= s < 0x8000_0000,
        -PAN_LIMIT <= p <= PAN_LIMIT,
        ZOOM_MIN <= z <= ZOOM_MAX,
    ensures
        -CANVAS_LIMIT <= canvas_coord(s, p, z) <= CANVAS_LIMIT,
{
    let n = (s * 1000 - p) * 1000;
    lemma_fundamental_div_mod(n, z);
    let q = n / z;
    let r = n % z;
    assert(-CANVAS_LIMIT <= q <= CANVAS_LIMIT) by (nonlinear_arith)
        requires
            n == z * q + r,
            0 <= r < z,
            200 <= z,
            -1_003_000_000_000_000_000 <= n <= 1_003_000_000_000_000_000,
    ;
}

/// Converting a screen pixel to canvas space and back gives the same pixel,
/// for any pan offset and any zoom factor in range.
pub proof fn lemma_screen_round_trip(s: int, p: int, z: int)
    requires
        0 < z <= ZOOM_MAX,
    ensures
        screen_coord(canvas_coord(s, p, z), p, z) == s,
{
    let n = (s * 1000 - p) * 1000;
    let c = canvas_coord(s, p, z);
    lemma_fundamental_div_mod(n, z);
    let r = n % z;
    assert(c * z + p * 1000 + 500_000 == s * 1_000_000 + (500_000 - r)) by (nonlinear_arith)
        requires
            n == z * c + r,
            n == (s * 1000 - p) * 1000,
    ;
    lemma_fundamental_div_mod_converse(
        c * z + p * 1000 + 500_000,
        1_000_000,
        s,
        500_000 - r,
    );
}

/// However the wheel is turned, the zoom factor stays within
/// `[ZOOM_MIN, ZOOM_MAX]`.
pub proof fn lemma_wheel_zoom_in_range(z: int, deltas: Seq<i32>)
    requires
        ZOOM_MIN <= z <= ZOOM_MAX,
    ensures
        ZOOM_MIN <= zoom_after_wheel(z, deltas) <= ZOOM_MAX,
    decreases deltas.len(),
{
    if deltas.len() > 0 {
        lemma_wheel_zoom_in_range(wheel_zoom(z, deltas[0] < 0), deltas.drop_first());
    }
}

} // verus!
