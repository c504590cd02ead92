//! Planar geometry over exact integer coordinates: signed areas,
//! convexity and triangle-containment tests, and the shoelace sum of a
//! polygon, together with the algebra the triangulator's proof rests on.

use vstd::prelude::*;
use crate::units::SimPoint;

verus! {

/// Largest coordinate magnitude the geometry functions accept; keeps
/// every cross product within `i64`.
pub const GEOM_MAX: i64 = 0x2000_0000;

/// Twice the signed area of the triangle `(a, b, c)`; positive when
/// the three points turn counter-clockwise.
pub open spec fn cross2(a: SimPoint, b: SimPoint, c: SimPoint) -> int {
    (b.x - a.x) * (c.y - a.y) - (b.y - a.y) * (c.x - a.x)
}

/// The shoelace term one directed edge contributes to a polygon's
/// doubled signed area.
pub open spec fn edge_term(a: SimPoint, b: SimPoint) -> int {
    a.x * b.y - b.x * a.y
}

/// The shoelace sum over the open chain of consecutive edges of `s`.
pub open spec fn chain_sum(s: Seq<SimPoint>) -> int
    decreases s.len(),
{
    if s.len() < 2 {
        0
    } else {
        chain_sum(s.drop_last()) + edge_term(s[s.len() - 2], s[s.len() - 1])
    }
}

/// Twice the signed area of the polygon with vertex cycle `s`:
/// the shoelace sum over all edges, the closing one included.
pub open spec fn polygon_area2(s: Seq<SimPoint>) -> int {
    if s.len() < 2 {
        0
    } else {
        chain_sum(s) + edge_term(s[s.len() - 1], s[0])
    }
}

/// The sequence of points an index sequence selects from a vertex list.
pub open spec fn pts_of(r: Seq<usize>, v: Seq<SimPoint>) -> Seq<SimPoint> {
    r.map(|_i: int, j: usize| v[j as int])
}

/// Whether every coordinate of `s` is at most `GEOM_MAX` in magnitude.
pub open spec fn coords_bounded(s: Seq<SimPoint>) -> bool {
    forall|i: int| 0 <= i < s.len() ==> #[trigger] in_geom_range(s[i])
}

/// Whether one point is within the geometry range.
pub open spec fn in_geom_range(p: SimPoint) -> bool {
    -GEOM_MAX <= p.x <= GEOM_MAX && -GEOM_MAX <= p.y <= GEOM_MAX
}

/// Multiplies two differences of in-range coordinates; the factors'
/// bound keeps the product well inside `i64`.
fn mul_i64(a: i64, b: i64) -> (r: i64)
    requires
        -0x4000_0000 <= a <= 0x4000_0000,
        -0x4000_0000 <= b <= 0x4000_0000,
    ensures
        r == a * b,
        -0x1000_0000_0000_0000 <= r <= 0x1000_0000_0000_0000,
{
    proof {
        assert(-0x1000_0000_0000_0000 <= a * b <= 0x1000_0000_0000_0000) by (nonlinear_arith)
            requires
                -0x4000_0000 <= a <= 0x4000_0000 && -0x4000_0000 <= b <= 0x4000_0000,
        ;
    }
    a * b
}

/// Whether the corner at `b` of the counter-clockwise path `a, b, c`
/// turns left (is convex).
pub open spec fn is_convex_spec(a: SimPoint, b: SimPoint, c: SimPoint) -> bool {
    cross2(a, b, c) > 0
}

/// Decides convexity of the corner at `b`.
pub fn is_convex(a: SimPoint, b: SimPoint, c: SimPoint) -> (r: bool)
    requires
        in_geom_range(a),
        in_geom_range(b),
        in_geom_range(c),
    ensures
        r == is_convex_spec(a, b, c),
{
    let v1x = b.x - a.x;
    let v1y = b.y - a.y;
    let v2x = c.x - b.x;
    let v2y = c.y - b.y;
    let cross = mul_i64(v1x, v2y) - mul_i64(v1y, v2x);
    proof {
        assert((b.x - a.x) * (c.y - b.y) - (b.y - a.y) * (c.x - b.x) == cross2(a, b, c))
            by (nonlinear_arith);
    }
    cross > 0
}

/// Whether `p` lies in the closed triangle `(a, b, c)`, stated by the
/// signs of its barycentric numerators over the triangle's doubled
/// area `cross2(a, b, c)`; meaningful when that area is positive.
pub open spec fn in_triangle_spec(p: SimPoint, a: SimPoint, b: SimPoint, c: SimPoint) -> bool {
    let alpha = (b.y - c.y) * (p.x - c.x) + (c.x - b.x) * (p.y - c.y);
    let beta = (c.y - a.y) * (p.x - c.x) + (a.x - c.x) * (p.y - c.y);
    alpha >= 0 && beta >= 0 && alpha + beta <= cross2(a, b, c)
}

/// Decides closed-triangle containment by the barycentric sign test.
pub fn point_in_triangle(p: SimPoint, a: SimPoint, b: SimPoint, c: SimPoint) -> (r: bool)
    requires
        in_geom_range(p),
        in_geom_range(a),
        in_geom_range(b),
        in_geom_range(c),
        cross2(a, b, c) > 0,
    ensures
        r == in_triangle_spec(p, a, b, c),
{
    let alpha = mul_i64(b.y - c.y, p.x - c.x) + mul_i64(c.x - b.x, p.y - c.y);
    let beta = mul_i64(c.y - a.y, p.x - c.x) + mul_i64(a.x - c.x, p.y - c.y);
    let area2 = mul_i64(b.x - a.x, c.y - a.y) - mul_i64(b.y - a.y, c.x - a.x);
    alpha >= 0 && beta >= 0 && alpha + beta <= area2
}

/// Removing the middle vertex of three consecutive ones changes the
/// open-chain shoelace sum by replacing its two incident edges with
/// the shortcut edge.
proof fn lemma_chain_remove(s: Seq<SimPoint>, i: int)
    requires
        1 <= i <= s.len() - 2,
    ensures
        chain_sum(s.remove(i)) == chain_sum(s) - edge_term(s[i - 1], s[i]) - edge_term(
            s[i],
            s[i + 1],
        ) + edge_term(s[i - 1], s[i + 1]),
    decreases s.len(),
{
    let n = s.len() as int;
    if i == n - 2 {
        let r = s.remove(i);
        assert(r.drop_last() =~= s.take(n - 2));
        assert(s.drop_last().drop_last() =~= s.take(n - 2));
        assert(r[r.len() - 2] == s[n - 3]);
        assert(r[r.len() - 1] == s[n - 1]);
        assert(chain_sum(r) == chain_sum(s.take(n - 2)) + edge_term(s[n - 3], s[n - 1]));
        assert(chain_sum(s.drop_last()) == chain_sum(s.take(n - 2)) + edge_term(
            s[n - 3],
            s[n - 2],
        ));
        assert(chain_sum(s) == chain_sum(s.drop_last()) + edge_term(s[n - 2], s[n - 1]));
    } else {
        let r = s.remove(i);
        assert(r.drop_last() =~= s.drop_last().remove(i));
        assert(chain_sum(r) == chain_sum(s.drop_last().remove(i)) + edge_term(s[n - 2], s[n - 1]));
        lemma_chain_remove(s.drop_last(), i);
    }
}

/// Dropping the first vertex of a chain removes exactly its first
/// edge's shoelace term.
proof fn lemma_chain_drop_first(s: Seq<SimPoint>)
    requires
        s.len() >= 2,
    ensures
        chain_sum(s.subrange(1, s.len() as int)) == chain_sum(s) - edge_term(s[0], s[1]),
    decreases s.len(),
{
    let n = s.len() as int;
    if n == 2 {
        assert(chain_sum(s.subrange(1, 2)) == 0);
        assert(chain_sum(s.drop_last()) == 0);
    } else {
        let t = s.subrange(1, n);
        assert(t.drop_last() =~= s.drop_last().subrange(1, n - 1));
        assert(chain_sum(t) == chain_sum(s.drop_last().subrange(1, n - 1)) + edge_term(
            s[n - 2],
            s[n - 1],
        ));
        lemma_chain_drop_first(s.drop_last());
    }
}

/// The shoelace identity behind ear clipping: the two edges around a
/// corner and the shortcut edge differ by the corner triangle's
/// doubled signed area.
#[verifier::rlimit(50)]
proof fn lemma_corner_identity(p: SimPoint, c: SimPoint, n: SimPoint)
    ensures
        edge_term(p, c) + edge_term(c, n) - edge_term(p, n) == cross2(p, c, n),
{
    assert(p.x * c.y - c.x * p.y + (c.x * n.y - n.x * c.y) - (p.x * n.y - n.x * p.y) == (c.x
        - p.x) * (n.y - p.y) - (c.y - p.y) * (n.x - p.x)) by (nonlinear_arith);
}

/// Clipping one vertex out of a polygon's cycle lowers its doubled
/// signed area by exactly the doubled signed area of the triangle the
/// vertex forms with its two cyclic neighbours.
pub proof fn lemma_polygon_clip(s: Seq<SimPoint>, i: int)
    requires
        s.len() >= 3,
        0 <= i < s.len(),
    ensures
        polygon_area2(s.remove(i)) == polygon_area2(s) - cross2(
            s[(i - 1 + s.len()) % (s.len() as int)],
            s[i],
            s[(i + 1) % (s.len() as int)],
        ),
{
    let n = s.len() as int;
    if i == 0 {
        let r = s.remove(0);
        assert(r =~= s.subrange(1, n));
        lemma_chain_drop_first(s);
        assert(polygon_area2(r) == chain_sum(s) - edge_term(s[0], s[1]) + edge_term(
            s[n - 1],
            s[1],
        ));
        lemma_corner_identity(s[n - 1], s[0], s[1]);
        assert((0 - 1 + n) % n == n - 1) by (nonlinear_arith)
            requires
                n >= 3,
        ;
        assert(1int % n == 1) by (nonlinear_arith)
            requires
                n >= 3,
        ;
    } else if i == n - 1 {
        let r = s.remove(n - 1);
        assert(r =~= s.drop_last());
        if n == 3 {
            assert(chain_sum(r.drop_last()) == 0);
            assert(chain_sum(r) == edge_term(r[0], r[1]));
            assert(chain_sum(s) == edge_term(s[0], s[1]) + edge_term(s[1], s[2]));
            lemma_corner_identity(s[1], s[2], s[0]);
        } else {
            assert(chain_sum(s) == chain_sum(r) + edge_term(s[n - 2], s[n - 1]));
            lemma_corner_identity(s[n - 2], s[n - 1], s[0]);
        }
        assert((n - 1 - 1 + n) % n == n - 2) by (nonlinear_arith)
            requires
                n >= 3,
        ;
        assert((n - 1 + 1) % n == 0) by (nonlinear_arith)
            requires
                n >= 3,
        ;
    } else {
        let r = s.remove(i);
        lemma_chain_remove(s, i);
        assert(r[r.len() - 1] == s[n - 1]);
        assert(r[0] == s[0]);
        lemma_corner_identity(s[i - 1], s[i], s[i + 1]);
        assert((i - 1 + n) % n == i - 1) by (nonlinear_arith)
            requires
                n >= 3 && 1 <= i <= n - 2,
        ;
        assert((i + 1) % n == i + 1) by (nonlinear_arith)
            requires
                n >= 3 && 1 <= i <= n - 2,
        ;
    }
}

/// A two-vertex cycle encloses no area: its two directed edges cancel.
pub proof fn lemma_area2_of_two(s: Seq<SimPoint>)
    requires
        s.len() == 2,
    ensures
        polygon_area2(s) == 0,
{
    assert(chain_sum(s) == chain_sum(s.drop_last()) + edge_term(s[0], s[1]));
    assert(chain_sum(s.drop_last()) == 0);
}

} // verus!
