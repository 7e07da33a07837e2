use vstd::prelude::*;
use crate::point::Point;

verus! {

/// Denominator of line-line intersection in determinant form. The wall runs
/// from `ws` to `we`; the ray's line runs from `o` to `(ex, ey)`. It is zero
/// exactly when the two lines are parallel or coincident.
pub open spec fn denominator(ws: Point, we: Point, o: Point, ex: int, ey: int) -> int {
    (ws.x - we.x) * (o.y - ey) - (ws.y - we.y) * (o.x - ex)
}

/// Numerator of `t`, the position of the intersection along the wall:
/// `t = t_numerator / denominator`, 0 at `ws` and 1 at `we`.
pub open spec fn t_numerator(ws: Point, we: Point, o: Point, ex: int, ey: int) -> int {
    (ws.x - o.x) * (o.y - ey) - (ws.y - o.y) * (o.x - ex)
}

/// Numerator of `u`, the position of the intersection along the ray's line:
/// `u = u_numerator / denominator`. With the points in this order `u` is
/// negative on the forward half of the ray, and its magnitude is the
/// distance of the intersection from `o` in units of the distance from `o` to
/// `(ex, ey)`.
pub open spec fn u_numerator(ws: Point, we: Point, o: Point) -> int {
    (ws.x - we.x) * (ws.y - o.y) - (ws.y - we.y) * (ws.x - o.x)
}

/// The ray from `o` through `(ex, ey)` meets the wall: the lines are not
/// parallel, `0 < t < 1` and `u < 0`. The wall's endpoints do not count, nor
/// does anything behind `o`; how far ahead the wall stands does not matter.
pub open spec fn crosses(ws: Point, we: Point, o: Point, ex: int, ey: int) -> bool {
    let d = denominator(ws, we, o, ex, ey);
    let t = t_numerator(ws, we, o, ex, ey);
    let u = u_numerator(ws, we, o);
    ||| d > 0 && 0 < t < d && u < 0
    ||| d < 0 && d < t < 0 && u > 0
}

/// Numerator of the fraction `-u`, written with a positive denominator.
pub open spec fn hit_numerator(ws: Point, we: Point, o: Point, ex: int, ey: int) -> int {
    if denominator(ws, we, o, ex, ey) > 0 {
        -u_numerator(ws, we, o)
    } else {
        u_numerator(ws, we, o)
    }
}

/// Denominator of the fraction `-u`: the magnitude of `denominator`.
pub open spec fn hit_denominator(ws: Point, we: Point, o: Point, ex: int, ey: int) -> int {
    let d = denominator(ws, we, o, ex, ey);
    if d > 0 {
        d
    } else {
        -d
    }
}

/// The smaller of two integers.
pub open spec fn lesser(a: int, b: int) -> int {
    if a <= b {
        a
    } else {
        b
    }
}

/// The larger of two integers.
pub open spec fn greater(a: int, b: int) -> int {
    if a <= b {
        b
    } else {
        a
    }
}

/// The intersection computed along the wall and the one computed along the
/// ray are the same point: for each axis, `denominator * (ws - o)` equals
/// `t_numerator * (ws - we) + u_numerator * (o - e)`.
pub proof fn lemma_intersection_identity(ws: Point, we: Point, o: Point, ex: int, ey: int)
    ensures
        denominator(ws, we, o, ex, ey) * (ws.x - o.x) == t_numerator(ws, we, o, ex, ey) * (ws.x
            - we.x) + u_numerator(ws, we, o) * (o.x - ex),
        denominator(ws, we, o, ex, ey) * (ws.y - o.y) == t_numerator(ws, we, o, ex, ey) * (ws.y
            - we.y) + u_numerator(ws, we, o) * (o.y - ey),
{
    let ax = ws.x - we.x;
    let ay = ws.y - we.y;
    let bx = ws.x - o.x;
    let by = ws.y - o.y;
    let cx = o.x - ex;
    let cy = o.y - ey;
    assert((ax * cy - ay * cx) * bx == (bx * cy - by * cx) * ax + (ax * by - ay * bx) * cx)
        by (nonlinear_arith);
    assert((ax * cy - ay * cx) * by == (bx * cy - by * cx) * ay + (ax * by - ay * bx) * cy)
        by (nonlinear_arith);
}

/// Containment: a hit lies on the wall strictly between its endpoints, so
/// the point at the hit's fraction of the way from `o` to `(ex, ey)`, rounded
/// down to whole units, lies within the wall's bounding box.
pub proof fn lemma_hit_within_wall(ws: Point, we: Point, o: Point, ex: int, ey: int)
    requires
        crosses(ws, we, o, ex, ey),
    ensures
        ({
            let n = hit_numerator(ws, we, o, ex, ey);
            let d = hit_denominator(ws, we, o, ex, ey);
            &&& n > 0
            &&& d > 0
            &&& lesser(ws.x as int, we.x as int) <= o.x + (n * (ex - o.x)) / d <= greater(
                ws.x as int,
                we.x as int,
            )
            &&& lesser(ws.y as int, we.y as int) <= o.y + (n * (ey - o.y)) / d <= greater(
                ws.y as int,
                we.y as int,
            )
        }),
{
    let n = hit_numerator(ws, we, o, ex, ey);
    let d = hit_denominator(ws, we, o, ex, ey);
    let dd = denominator(ws, we, o, ex, ey);
    let tt = t_numerator(ws, we, o, ex, ey);
    let uu = u_numerator(ws, we, o);
    let t = if dd > 0 {
        tt
    } else {
        -tt
    };
    lemma_intersection_identity(ws, we, o, ex, ey);
    lemma_axis_within(n, d, t, ws.x - we.x, ws.x - o.x, ex - o.x);
    lemma_axis_within(n, d, t, ws.y - we.y, ws.y - o.y, ey - o.y);
    assert(d * (ws.x - o.x) == t * (ws.x - we.x) + n * (ex - o.x)) by (nonlinear_arith)
        requires
            dd * (ws.x - o.x) == tt * (ws.x - we.x) + uu * (o.x - ex),
            (d == dd && t == tt && n == -uu) || (d == -dd && t == -tt && n == uu),
    ;
    assert(d * (ws.y - o.y) == t * (ws.y - we.y) + n * (ey - o.y)) by (nonlinear_arith)
        requires
            dd * (ws.y - o.y) == tt * (ws.y - we.y) + uu * (o.y - ey),
            (d == dd && t == tt && n == -uu) || (d == -dd && t == -tt && n == uu),
    ;
}

/// The second point of the ray's line may be any point ahead of `o`: with
/// the point at `k` times the displacement `(rx, ry)`, the same walls are met,
/// and the fraction at which a wall is met is `k` times smaller, so that the
/// place where it is met stays the same.
pub proof fn lemma_probe_length_irrelevant(
    ws: Point,
    we: Point,
    o: Point,
    rx: int,
    ry: int,
    k: int,
)
    requires
        k > 0,
    ensures
        crosses(ws, we, o, o.x + k * rx, o.y + k * ry) == crosses(ws, we, o, o.x + rx, o.y + ry),
        hit_numerator(ws, we, o, o.x + k * rx, o.y + k * ry) == hit_numerator(
            ws,
            we,
            o,
            o.x + rx,
            o.y + ry,
        ),
        hit_denominator(ws, we, o, o.x + k * rx, o.y + k * ry) == k * hit_denominator(
            ws,
            we,
            o,
            o.x + rx,
            o.y + ry,
        ),
{
    let d1 = denominator(ws, we, o, o.x + rx, o.y + ry);
    let dk = denominator(ws, we, o, o.x + k * rx, o.y + k * ry);
    let t1 = t_numerator(ws, we, o, o.x + rx, o.y + ry);
    let tk = t_numerator(ws, we, o, o.x + k * rx, o.y + k * ry);
    let ax = ws.x - we.x;
    let ay = ws.y - we.y;
    let bx = ws.x - o.x;
    let by = ws.y - o.y;
    assert(dk == k * d1) by (nonlinear_arith)
        requires
            dk == ax * (o.y - (o.y + k * ry)) - ay * (o.x - (o.x + k * rx)),
            d1 == ax * (o.y - (o.y + ry)) - ay * (o.x - (o.x + rx)),
    ;
    assert(tk == k * t1) by (nonlinear_arith)
        requires
            tk == bx * (o.y - (o.y + k * ry)) - by * (o.x - (o.x + k * rx)),
            t1 == bx * (o.y - (o.y + ry)) - by * (o.x - (o.x + rx)),
    ;
    assert((dk > 0) == (d1 > 0) && (dk < 0) == (d1 < 0)) by (nonlinear_arith)
        requires
            dk == k * d1,
            k > 0,
    ;
    assert((0 < tk) == (0 < t1) && (tk < 0) == (t1 < 0)) by (nonlinear_arith)
        requires
            tk == k * t1,
            k > 0,
    ;
    assert((tk < dk) == (t1 < d1) && (dk < tk) == (d1 < t1)) by (nonlinear_arith)
        requires
            tk == k * t1,
            dk == k * d1,
            k > 0,
    ;
    assert(k * (-d1) == -(k * d1)) by (nonlinear_arith);
}

/// One axis of containment: with `d * b == t * a + n * r` and `0 < t < d`,
/// the floor of `n * r / d` lies between `b - a` and `b`.
proof fn lemma_axis_within(n: int, d: int, t: int, a: int, b: int, r: int)
    requires
        0 < t < d,
    ensures
        d * b == t * a + n * r ==> lesser(b - a, b) <= (n * r) / d <= greater(b - a, b),
{
    if d * b == t * a + n * r {
        let v = n * r;
        if a >= 0 {
            assert((b - a) * d <= v <= b * d) by (nonlinear_arith)
                requires
                    d * b == t * a + v,
                    0 < t < d,
                    a >= 0,
            ;
            crate::arith::lemma_floor_between(v, d, b - a, b);
        } else {
            assert(b * d <= v <= (b - a) * d) by (nonlinear_arith)
                requires
                    d * b == t * a + v,
                    0 < t < d,
                    a < 0,
            ;
            crate::arith::lemma_floor_between(v, d, b, b - a);
        }
    }
}

} // verus!
