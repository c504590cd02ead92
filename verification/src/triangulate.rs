//! Ear-clipping triangulation of simple counter-clockwise polygons.
//!
//! The triangulator repeatedly clips an "ear": a convex corner whose
//! triangle contains no other remaining vertex.  Total work is capped
//! by the square of the vertex count, so even degenerate input
//! terminates; on such input a partial triangle list is returned
//! rather than an error.  When clipping runs to completion — which the
//! two-ears theorem guarantees for every simple counter-clockwise
//! polygon — the output holds exactly `n - 2` triangles, their doubled
//! signed areas sum to the polygon's doubled signed area, and every
//! vertex appears as a triangle corner.

use vstd::prelude::*;
use crate::units::SimPoint;
use crate::geom::coords_bounded;
use crate::geom::cross2;
use crate::geom::in_triangle_spec;
use crate::geom::is_convex;
use crate::geom::is_convex_spec;
use crate::geom::lemma_area2_of_two;
use crate::geom::lemma_polygon_clip;
use crate::geom::point_in_triangle;
use crate::geom::polygon_area2;
use crate::geom::pts_of;

verus! {

/// Largest vertex count the triangulator accepts; keeps the squared
/// scan bound within every machine word size.
pub const MAX_VERTICES: usize = 0x8000;

/// The sum of the doubled signed areas of the triangles named by
/// consecutive index triples of `ix`.
pub open spec fn tri_area2_sum(ix: Seq<u32>, v: Seq<SimPoint>) -> int
    decreases ix.len(),
{
    if ix.len() < 3 {
        0
    } else {
        tri_area2_sum(ix.take(ix.len() - 3), v) + cross2(
            v[ix[ix.len() - 3] as int],
            v[ix[ix.len() - 2] as int],
            v[ix[ix.len() - 1] as int],
        )
    }
}

/// Whether vertex `j` appears somewhere in the triangle list.
pub open spec fn uses_index(ix: Seq<u32>, j: int) -> bool {
    exists|k: int| 0 <= k < ix.len() && (#[trigger] ix[k]) as int == j
}

/// Whether index `j` still stands in the working vertex cycle.
pub open spec fn rem_contains(rem: Seq<usize>, j: int) -> bool {
    exists|k: int| 0 <= k < rem.len() && (#[trigger] rem[k]) as int == j
}

/// Whether the corner at position `curr` of the working cycle is an
/// ear: convex, with no other remaining vertex inside its triangle.
pub open spec fn is_ear_spec(
    v: Seq<SimPoint>,
    rem: Seq<usize>,
    prev: int,
    curr: int,
    next: int,
) -> bool {
    let p0 = v[rem[prev] as int];
    let p1 = v[rem[curr] as int];
    let p2 = v[rem[next] as int];
    &&& is_convex_spec(p0, p1, p2)
    &&& forall|k: int|
        0 <= k < rem.len() && (#[trigger] rem[k]) != rem[prev] && rem[k] != rem[curr] && rem[k]
            != rem[next] ==> !in_triangle_spec(v[rem[k] as int], p0, p1, p2)
}

/// Whether the corner at position `i` of the working cycle, between
/// its two cyclic neighbours, is an ear.
pub open spec fn ear_at(v: Seq<SimPoint>, rem: Seq<usize>, i: int) -> bool {
    is_ear_spec(
        v,
        rem,
        (i + rem.len() - 1) % (rem.len() as int),
        i,
        (i + 1) % (rem.len() as int),
    )
}

/// Whether some corner of the working cycle is an ear.
pub open spec fn has_ear(v: Seq<SimPoint>, rem: Seq<usize>) -> bool {
    exists|i: int| 0 <= i < rem.len() && #[trigger] ear_at(v, rem, i)
}

/// Decides whether the corner at position `curr` is an ear.
fn is_ear(
    vertices: &Vec<SimPoint>,
    remaining: &Vec<usize>,
    prev: usize,
    curr: usize,
    next: usize,
) -> (r: bool)
    requires
        coords_bounded(vertices@),
        forall|q: int|
            0 <= q < remaining@.len() ==> (#[trigger] remaining@[q]) < vertices@.len(),
        prev < remaining@.len(),
        curr < remaining@.len(),
        next < remaining@.len(),
    ensures
        r == is_ear_spec(vertices@, remaining@, prev as int, curr as int, next as int),
{
    let prev_idx = remaining[prev];
    let curr_idx = remaining[curr];
    let next_idx = remaining[next];
    let p0 = vertices[prev_idx];
    let p1 = vertices[curr_idx];
    let p2 = vertices[next_idx];
    if !is_convex(p0, p1, p2) {
        return false;
    }
    let n = remaining.len();
    let mut k: usize = 0;
    while k < n
        invariant
            coords_bounded(vertices@),
            forall|q: int|
                0 <= q < remaining@.len() ==> (#[trigger] remaining@[q]) < vertices@.len(),
            n == remaining@.len(),
            prev < n,
            curr < n,
            next < n,
            k <= n,
            prev_idx == remaining@[prev as int],
            curr_idx == remaining@[curr as int],
            next_idx == remaining@[next as int],
            p0 == vertices@[prev_idx as int],
            p1 == vertices@[curr_idx as int],
            p2 == vertices@[next_idx as int],
            is_convex_spec(p0, p1, p2),
            forall|q: int|
                0 <= q < k && (#[trigger] remaining@[q]) != prev_idx && remaining@[q] != curr_idx
                    && remaining@[q] != next_idx ==> !in_triangle_spec(
                    vertices@[remaining@[q] as int],
                    p0,
                    p1,
                    p2,
                ),
        decreases n - k,
    {
        let i = remaining[k];
        if i != prev_idx && i != curr_idx && i != next_idx {
            if point_in_triangle(vertices[i], p0, p1, p2) {
                return false;
            }
        }
        k += 1;
    }
    true
}

/// Scans the working cycle from position zero for the first ear.
fn find_ear(vertices: &Vec<SimPoint>, remaining: &Vec<usize>) -> (o: Option<usize>)
    requires
        coords_bounded(vertices@),
        3 <= remaining@.len() <= MAX_VERTICES,
        forall|q: int|
            0 <= q < remaining@.len() ==> (#[trigger] remaining@[q]) < vertices@.len(),
    ensures
        match o {
            Some(i) => {
                let n = remaining@.len() as int;
                i < remaining@.len() && is_ear_spec(
                    vertices@,
                    remaining@,
                    (i + n - 1) % n,
                    i as int,
                    (i + 1) % n,
                )
            },
            None => !has_ear(vertices@, remaining@),
        },
{
    let n = remaining.len();
    let mut i: usize = 0;
    while i < n
        invariant
            coords_bounded(vertices@),
            3 <= n <= MAX_VERTICES,
            n == remaining@.len(),
            forall|q: int|
                0 <= q < remaining@.len() ==> (#[trigger] remaining@[q]) < vertices@.len(),
            i <= n,
            forall|q: int| 0 <= q < i ==> !(#[trigger] ear_at(vertices@, remaining@, q)),
        decreases n - i,
    {
        let prev = (i + n - 1) % n;
        let next = (i + 1) % n;
        if is_ear(vertices, remaining, prev, i, next) {
            return Some(i);
        }
        i += 1;
    }
    None
}

/// Triangulates a polygon given as an ordered counter-clockwise vertex
/// list, returning a flat list of vertex-index triples.
///
/// Fewer than three vertices yield an empty list.  Scanning is capped
/// at the square of the vertex count, so malformed polygons return a
/// partial list instead of looping.  A complete result — recognisable
/// by its length — is exactly `n - 2` triangles whose doubled signed
/// areas sum to the polygon's and whose corners cover every vertex.
pub fn triangulate_polygon(vertices: &Vec<SimPoint>) -> (r: Vec<u32>)
    requires
        vertices@.len() <= MAX_VERTICES,
        coords_bounded(vertices@),
    ensures
        r@.len() % 3 == 0,
        forall|k: int| 0 <= k < r@.len() ==> (#[trigger] r@[k]) < vertices@.len(),
        vertices@.len() < 3 ==> r@.len() == 0,
        vertices@.len() >= 3 ==> r@.len() <= 3 * (vertices@.len() - 2),
        vertices@.len() >= 3 && r@.len() == 3 * (vertices@.len() - 2) ==> tri_area2_sum(
            r@,
            vertices@,
        ) == polygon_area2(vertices@),
        vertices@.len() >= 3 && r@.len() == 3 * (vertices@.len() - 2) ==> forall|j: int|
            0 <= j < vertices@.len() ==> uses_index(r@, j),
        vertices@.len() >= 3 && has_ear(
            vertices@,
            Seq::new(vertices@.len(), |q: int| q as usize),
        ) ==> r@.len() >= 3,
{
    let n_verts = vertices.len();
    if n_verts < 3 {
        return Vec::new();
    }
    let mut indices: Vec<u32> = Vec::new();
    let mut remaining: Vec<usize> = Vec::new();
    let mut fill: usize = 0;
    while fill < n_verts
        invariant
            fill <= n_verts,
            remaining@.len() == fill,
            forall|q: int| 0 <= q < fill ==> (#[trigger] remaining@[q]) == q,
        decreases n_verts - fill,
    {
        remaining.push(fill);
        fill += 1;
    }
    let ghost iota = Seq::new(vertices@.len(), |q: int| q as usize);
    proof {
        assert(remaining@ =~= iota);
        assert(pts_of(remaining@, vertices@) =~= vertices@);
        assert forall|j: int| 0 <= j < n_verts implies rem_contains(remaining@, j) by {
            assert(remaining@[j] as int == j);
        }
    }
    let mut attempts: usize = 0;
    proof {
        assert(n_verts * n_verts <= 0x4000_0000) by (nonlinear_arith)
            requires
                n_verts <= 0x8000,
        ;
    }
    let max_attempts = n_verts * n_verts;
    while remaining.len() > 2 && attempts < max_attempts
        invariant
            coords_bounded(vertices@),
            n_verts == vertices@.len(),
            3 <= n_verts <= MAX_VERTICES,
            attempts <= max_attempts,
            max_attempts == n_verts * n_verts,
            2 <= remaining@.len() <= n_verts,
            forall|q: int|
                0 <= q < remaining@.len() ==> (#[trigger] remaining@[q]) < n_verts,
            indices@.len() == 3 * (n_verts - remaining@.len()),
            forall|k: int| 0 <= k < indices@.len() ==> (#[trigger] indices@[k]) < n_verts,
            tri_area2_sum(indices@, vertices@) + polygon_area2(pts_of(remaining@, vertices@))
                == polygon_area2(vertices@),
            forall|j: int|
                0 <= j < n_verts ==> rem_contains(remaining@, j) || uses_index(indices@, j),
            remaining@.len() == 2 ==> uses_index(indices@, remaining@[0] as int) && uses_index(
                indices@,
                remaining@[1] as int,
            ),
            iota == Seq::new(vertices@.len(), |q: int| q as usize),
            attempts == 0 ==> remaining@ == iota,
            has_ear(vertices@, iota) ==> attempts == 0 || indices@.len() >= 3,
        decreases max_attempts - attempts,
    {
        let ghost rem_old = remaining@;
        let ghost ix_old = indices@;
        match find_ear(vertices, &remaining) {
            Some(curr) => {
                let n = remaining.len();
                let prev = (curr + n - 1) % n;
                let next = (curr + 1) % n;
                let prev_idx = remaining[prev];
                let curr_idx = remaining[curr];
                let next_idx = remaining[next];
                indices.push(prev_idx as u32);
                indices.push(curr_idx as u32);
                indices.push(next_idx as u32);
                remaining.remove(curr);
                proof {
                    let nn = rem_old.len() as int;
                    let ci = curr as int;
                    let pts = pts_of(rem_old, vertices@);
                    lemma_polygon_clip(pts, ci);
                    assert(pts.remove(ci) =~= pts_of(remaining@, vertices@));
                    assert(pts[(ci - 1 + nn) % nn] == vertices@[prev_idx as int]);
                    assert(pts[ci] == vertices@[curr_idx as int]);
                    assert(pts[(ci + 1) % nn] == vertices@[next_idx as int]);
                    assert(indices@.take(indices@.len() - 3) =~= ix_old);
                    assert(tri_area2_sum(indices@, vertices@) == tri_area2_sum(ix_old, vertices@)
                        + cross2(
                        vertices@[prev_idx as int],
                        vertices@[curr_idx as int],
                        vertices@[next_idx as int],
                    ));
                    assert forall|j: int|
                        0 <= j < n_verts implies rem_contains(remaining@, j) || uses_index(
                        indices@,
                        j,
                    ) by {
                        if rem_contains(rem_old, j) {
                            let k = choose|k: int|
                                0 <= k < rem_old.len() && (#[trigger] rem_old[k]) as int == j;
                            if k == ci {
                                assert(indices@[ix_old.len() as int + 1] as int == j);
                            } else if k < ci {
                                assert(remaining@[k] as int == j);
                            } else {
                                assert(remaining@[k - 1] as int == j);
                            }
                        } else {
                            assert(uses_index(ix_old, j));
                            let k = choose|k: int|
                                0 <= k < ix_old.len() && (#[trigger] ix_old[k]) as int == j;
                            assert(indices@[k] as int == j);
                        }
                    }
                    if remaining@.len() == 2 {
                        assert(nn == 3);
                        assert(indices@[ix_old.len() as int] == prev_idx as u32);
                        assert(indices@[ix_old.len() as int + 1] == curr_idx as u32);
                        assert(indices@[ix_old.len() as int + 2] == next_idx as u32);
                        assert(remaining@[0] == rem_old[if 0 < ci {
                            0
                        } else {
                            1
                        }]);
                        assert(remaining@[1] == rem_old[if 1 < ci {
                            1
                        } else {
                            2
                        }]);
                        assert((ci + 1) % 3 == if ci < 2 {
                            ci + 1
                        } else {
                            0
                        }) by (nonlinear_arith)
                            requires
                                0 <= ci < 3,
                        ;
                        assert((ci - 1 + 3) % 3 == if ci > 0 {
                            ci - 1
                        } else {
                            2
                        }) by (nonlinear_arith)
                            requires
                                0 <= ci < 3,
                        ;
                    }
                }
            },
            None => {},
        }
        attempts += 1;
    }
    proof {
        if remaining@.len() == 2 {
            lemma_area2_of_two(pts_of(remaining@, vertices@));
        }
        if has_ear(vertices@, iota) && indices@.len() < 3 {
            assert(attempts == 0);
            assert(remaining@.len() == n_verts);
            assert(max_attempts >= 9) by (nonlinear_arith)
                requires
                    max_attempts == n_verts * n_verts && n_verts >= 3,
            ;
            assert(false);
        }
    }
    indices
}

} // verus!
