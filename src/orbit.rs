use vstd::prelude::*;
use crate::config::RenderConfig;
use crate::geometry::{Cursor, Plottable, Point};

verus! {

/// The inverse of the guard radius around the origin of the plane: a pointer
/// that maps closer to the origin than `1 / ORBIT_EPSILON_INV` gets no trace.
pub const ORBIT_EPSILON_INV: u64 = 16;

/// The vertical coordinate `y` seen from the bottom of a screen of height
/// `height`; rows below the screen's bottom edge go to `0`.
pub open spec fn flip(y: int, height: int) -> int {
    if y <= height {
        height - y
    } else {
        0
    }
}

/// The real part of the plane point of column `x`, times the width:
/// the plane spans `[-2, 1]` across the screen, so `re = (3x - 2w) / w`.
pub open spec fn re_scaled(x: int, width: int) -> int {
    3 * x - 2 * width
}

/// The imaginary part of the plane point of row `y`, times the height:
/// the plane spans `[-1, 1]` down the screen, so `im = (2y - h) / h`.
pub open spec fn im_scaled(y: int, height: int) -> int {
    2 * y - height
}

/// `|c|^2 * (width * height)^2` for the plane point `c` of the screen
/// point `(x, y)`.
pub open spec fn norm_sq_scaled(x: int, y: int, width: int, height: int) -> int {
    let a = re_scaled(x, width) * height;
    let b = im_scaled(y, height) * width;
    a * a + b * b
}

/// The plane point of `(x, y)` lies closer to the origin than the guard
/// radius `1 / ORBIT_EPSILON_INV`.
pub open spec fn near_origin(x: int, y: int, width: int, height: int) -> bool {
    let e = ORBIT_EPSILON_INV as int;
    e * e * norm_sq_scaled(x, y, width, height) < (width * height) * (width * height)
}

/// The plane point of `(x, y)` lies at distance 2 or more from the origin.
pub open spec fn outside_radius(x: int, y: int, width: int, height: int) -> bool {
    norm_sq_scaled(x, y, width, height) >= 4 * ((width * height) * (width * height))
}

/// Whether the orbit of the plane point of `(x, y)` is worth drawing:
/// it is neither near the origin nor outside the escape radius.
pub open spec fn traceable(x: int, y: int, width: int, height: int) -> bool {
    !near_origin(x, y, width, height) && !outside_radius(x, y, width, height)
}

/// A screen point whose plane point is the origin itself is near the
/// origin, so its orbit is never traced.
pub proof fn lemma_origin_untraceable(x: int, y: int, width: int, height: int)
    requires
        width > 0,
        height > 0,
        re_scaled(x, width) == 0,
        im_scaled(y, height) == 0,
    ensures
        near_origin(x, y, width, height),
        !traceable(x, y, width, height),
{
    assert(0 < (width * height) * (width * height)) by (nonlinear_arith)
        requires
            width > 0,
            height > 0,
    ;
    let a = re_scaled(x, width) * height;
    let b = im_scaled(y, height) * width;
    assert(a == 0 && b == 0);
    assert(norm_sq_scaled(x, y, width, height) == 0);
}

/// The pointer position with its vertical coordinate counted from the
/// bottom of the screen, as the plane's imaginary axis points up.
pub fn invert_pointer(config: &RenderConfig, cursor: &Cursor) -> (r: Point)
    ensures
        r.coords() == (cursor.coords().0, flip(cursor.coords().1 as int, config.spec_height() as int) as usize),
{
    let (x, y) = cursor.coordinates();
    let h = config.height();
    let fy = if y <= h { h - y } else { 0 };
    Point::new((x, fy))
}

/// `|a - b|` for two integers below `2^64`.
fn abs_diff_u128(a: u128, b: u128) -> (r: u128)
    ensures
        r == if a >= b { a - b } else { b - a },
{
    if a >= b {
        a - b
    } else {
        b - a
    }
}

/// Decides `traceable` for a point of the screen, exactly, in integer
/// arithmetic.
pub fn is_traceable(config: &RenderConfig, point: &Point) -> (r: bool)
    requires
        point.coords().0 < config.spec_width(),
        point.coords().1 <= config.spec_height(),
    ensures
        r == traceable(
            point.coords().0 as int,
            point.coords().1 as int,
            config.spec_width() as int,
            config.spec_height() as int,
        ),
{
    let (x, y) = point.coordinates();
    let w = config.width();
    let h = config.height();
    let len = config.buffer_len();
    let ghost (xi, yi, wi, hi) = (x as int, y as int, w as int, h as int);
    proof {
        assert(w * h <= 0x3fff_ffff_ffff_ffffu128) by (nonlinear_arith)
            requires
                w * h * 4 <= usize::MAX,
                usize::MAX <= u64::MAX,
        ;
    }
    let m: u128 = (w as u128) * (h as u128);
    let ra = abs_diff_u128(3 * (x as u128), 2 * (w as u128));
    let rb = abs_diff_u128(2 * (y as u128), h as u128);
    proof {
        assert(ra * h <= 3 * m) by (nonlinear_arith)
            requires
                ra <= 3 * w,
                m == w * h,
        ;
        assert(rb * w <= m) by (nonlinear_arith)
            requires
                rb <= h,
                m == w * h,
        ;
    }
    let p = ra * (h as u128);
    let q = rb * (w as u128);
    proof {
        assert(p * p + q * q <= 10 * (m * m)) by (nonlinear_arith)
            requires
                p <= 3 * m,
                q <= m,
        ;
        assert(m * m <= 0x0fff_ffff_ffff_ffff_ffff_ffff_ffff_ffffu128) by (nonlinear_arith)
            requires
                m <= 0x3fff_ffff_ffff_ffffu128,
        ;
        let a = re_scaled(xi, wi) * hi;
        let b = im_scaled(yi, hi) * wi;
        assert(p * p == a * a) by (nonlinear_arith)
            requires
                ra == re_scaled(xi, wi) || ra == -re_scaled(xi, wi),
                p == ra * hi,
                a == re_scaled(xi, wi) * hi,
        ;
        assert(q * q == b * b) by (nonlinear_arith)
            requires
                rb == im_scaled(yi, hi) || rb == -im_scaled(yi, hi),
                q == rb * wi,
                b == im_scaled(yi, hi) * wi,
        ;
    }
    let s = p * p + q * q;
    let mm = m * m;
    if s >= 4 * mm {
        return false;
    }
    let e = ORBIT_EPSILON_INV as u128;
    let e2: u128 = e * e;
    let quot = mm / e2;
    let rem = mm % e2;
    proof {
        assert(e2 * s >= mm <==> (s > quot || (s == quot && rem == 0))) by (nonlinear_arith)
            requires
                e2 > 0,
                mm == e2 * quot + rem,
                0 <= rem < e2,
        ;
    }
    s > quot || (s == quot && rem == 0)
}

/// The overlay of an orbit: the pointer position followed by the first
/// `max_len` orbit points (screen coordinates counted from the top), each
/// with its vertical coordinate counted from the bottom.
pub open spec fn overlay_ok(
    r: Seq<Point>,
    cursor: (usize, usize),
    height: int,
    max_len: int,
    orbit: Seq<Point>,
) -> bool {
    let n = if orbit.len() < max_len { orbit.len() as int } else { max_len };
    &&& r.len() == n + 1
    &&& r[0].coords() == cursor
    &&& forall|k: int|
        0 <= k < n ==> (#[trigger] r[k + 1]).coords() == (
            orbit[k].coords().0,
            flip(orbit[k].coords().1 as int, height) as usize,
        )
}

/// The points of the orbit overlay for the pointer at `cursor`, given the
/// orbit of its plane point as screen points (counted from the top). The
/// trace is empty when the pointer's plane point (taken with its vertical
/// coordinate counted from the bottom) is near the origin or outside the
/// escape radius; otherwise it is the pointer followed by at most `max_len`
/// orbit points, each flipped back to the screen's orientation.
pub fn trace(config: &RenderConfig, cursor: &Cursor, max_len: usize, orbit: &Vec<Point>) -> (r: Vec<
    Point,
>)
    requires
        cursor.coords().0 < config.spec_width(),
        cursor.coords().1 < config.spec_height(),
    ensures
        ({
            let (x, y) = cursor.coords();
            let w = config.spec_width() as int;
            let h = config.spec_height() as int;
            &&& traceable(x as int, h - y, w, h) ==> overlay_ok(r@, cursor.coords(), h, max_len as int, orbit@)
            &&& !traceable(x as int, h - y, w, h) ==> r@.len() == 0
        }),
{
    let h = config.height();
    let inverted = invert_pointer(config, cursor);
    let mut out: Vec<Point> = Vec::new();
    if !is_traceable(config, &inverted) {
        return out;
    }
    out.push(Point::new(cursor.coordinates()));
    let n = if orbit.len() < max_len { orbit.len() } else { max_len };
    let mut k: usize = 0;
    while k < n
        invariant
            k <= n,
            n <= orbit@.len(),
            h == config.spec_height(),
            out@.len() == k + 1,
            out@[0].coords() == cursor.coords(),
            forall|j: int|
                0 <= j < k ==> (#[trigger] out@[j + 1]).coords() == (
                    orbit@[j].coords().0,
                    flip(orbit@[j].coords().1 as int, h as int) as usize,
                ),
        decreases n - k,
    {
        let (px, py) = orbit[k].coordinates();
        let fy = if py <= h { h - py } else { 0 };
        out.push(Point::new((px, fy)));
        k = k + 1;
    }
    out
}

} // verus!
