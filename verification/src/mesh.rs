//! Renderable mesh generation from drag-point polygons, and the
//! polyline collider derived from a generated mesh.
//!
//! A mesh holds one vertex per drag point: the point's position in
//! simulation micrometres with the y axis flipped, a constant height,
//! and a texture coordinate.  Texture coordinates are fixed-point
//! fractions with denominator [`UV_ONE`]: a point flagged for
//! automatic texture coordinates is normalised by the table's width
//! and depth; otherwise the raw native position in VPU is passed
//! through unscaled.  The triangle list comes from the ear-clipping
//! triangulator run on the same flipped positions.
//!
//! The collider is read back from the mesh's positions — never
//! recomputed from the source points — so the rendered and the solid
//! shape cannot drift apart; the loop is re-closed by repeating the
//! first vertex at the end.

use vstd::prelude::*;
use crate::document::DragPoint;
use crate::geom::GEOM_MAX;
use crate::geom::coords_bounded;
use crate::geom::polygon_area2;
use crate::triangulate::MAX_VERTICES;
use crate::triangulate::tri_area2_sum;
use crate::triangulate::triangulate_polygon;
use crate::triangulate::uses_index;
use crate::units::SimPoint;
use crate::units::floor_div;
use crate::units::lemma_scale_shrinks;
use crate::units::mvpu_to_um;
use crate::units::mvpu_to_um_spec;

verus! {

/// Largest native drag-point coordinate magnitude accepted; keeps the
/// converted positions within the geometry range.
pub const DRAG_COORD_MAX: i64 = 900_000_000;

/// Denominator of the fixed-point texture coordinates.
pub const UV_ONE: i64 = 1_000_000;

/// One mesh vertex position, in simulation micrometres.
#[derive(Clone, Copy, PartialEq, Eq, Structural, Debug)]
pub struct MeshVertex {
    pub x: i64,
    pub y: i64,
    pub z: i64,
}

/// One texture coordinate, as fixed-point fractions of [`UV_ONE`].
#[derive(Clone, Copy, PartialEq, Eq, Structural, Debug)]
pub struct UvPoint {
    pub u: i64,
    pub v: i64,
}

/// A generated renderable mesh: positions, texture coordinates, and a
/// flat triangle index list.
#[derive(Clone, Debug)]
pub struct GeneratedMesh {
    pub positions: Vec<MeshVertex>,
    pub uvs: Vec<UvPoint>,
    pub indices: Vec<u32>,
}

/// Whether every drag point is within the accepted coordinate range.
pub open spec fn drag_points_bounded(s: Seq<DragPoint>) -> bool {
    forall|i: int|
        0 <= i < s.len() ==> -DRAG_COORD_MAX <= (#[trigger] s[i]).x <= DRAG_COORD_MAX
            && -DRAG_COORD_MAX <= s[i].y <= DRAG_COORD_MAX
}

/// Where a drag point lands in the mesh plane: scaled to micrometres
/// with the y axis flipped.
pub open spec fn mesh_point_spec(p: DragPoint) -> SimPoint {
    SimPoint { x: mvpu_to_um_spec(p.x as int) as i64, y: -mvpu_to_um_spec(p.y as int) as i64 }
}

/// The 2D plane positions of a drag-point polygon's mesh.
pub open spec fn mesh_plane_spec(points: Seq<DragPoint>) -> Seq<SimPoint> {
    points.map(|_i: int, p: DragPoint| mesh_point_spec(p))
}

/// The texture coordinate of one drag point: normalised by the table
/// extent when flagged automatic, else the raw position in VPU.
pub open spec fn uv_spec(p: DragPoint, width: int, depth: int) -> UvPoint {
    if p.has_auto_texture {
        UvPoint { u: ((p.x * UV_ONE) / width) as i64, v: ((p.y * UV_ONE) / depth) as i64 }
    } else {
        UvPoint { u: ((p.x * UV_ONE) / 1000) as i64, v: ((p.y * UV_ONE) / 1000) as i64 }
    }
}

/// Everything the mesh generator promises of its output for the given
/// polygon, height and table extent.
pub open spec fn mesh_matches(
    m: GeneratedMesh,
    points: Seq<DragPoint>,
    height: int,
    width: int,
    depth: int,
) -> bool {
    let plane = mesh_plane_spec(points);
    &&& m.positions@.len() == points.len()
    &&& forall|i: int|
        0 <= i < points.len() ==> (#[trigger] m.positions@[i]) == (MeshVertex {
            x: plane[i].x,
            y: plane[i].y,
            z: mvpu_to_um_spec(height) as i64,
        })
    &&& m.uvs@.len() == points.len()
    &&& forall|i: int| 0 <= i < points.len() ==> (#[trigger] m.uvs@[i]) == uv_spec(points[i], width, depth)
    &&& m.indices@.len() % 3 == 0
    &&& forall|k: int| 0 <= k < m.indices@.len() ==> (#[trigger] m.indices@[k]) < points.len()
    &&& points.len() < 3 ==> m.indices@.len() == 0
    &&& points.len() >= 3 ==> m.indices@.len() <= 3 * (points.len() - 2)
    &&& points.len() >= 3 && m.indices@.len() == 3 * (points.len() - 2) ==> tri_area2_sum(
        m.indices@,
        plane,
    ) == polygon_area2(plane) && (forall|j: int|
        0 <= j < points.len() ==> uses_index(m.indices@, j))
}

/// A drag-point coordinate in range converts to a mesh coordinate in
/// the geometry range.
proof fn lemma_mesh_coord_in_range(n: int)
    requires
        -DRAG_COORD_MAX <= n <= DRAG_COORD_MAX,
    ensures
        -GEOM_MAX <= mvpu_to_um_spec(n) <= GEOM_MAX,
{
    lemma_scale_shrinks(n);
    if n >= 0 {
        assert(n * 2159 <= DRAG_COORD_MAX * 2159);
        vstd::arithmetic::div_mod::lemma_div_is_ordered(n * 2159, DRAG_COORD_MAX * 2159, 4000);
    } else {
        let m = -n;
        assert(m * 2159 + 3999 <= DRAG_COORD_MAX * 2159 + 3999);
        vstd::arithmetic::div_mod::lemma_div_is_ordered(
            m * 2159 + 3999,
            DRAG_COORD_MAX * 2159 + 3999,
            4000,
        );
    }
}

/// Generates the flat renderable mesh of a drag-point polygon at the
/// given top height, for a table of the given native width and depth.
pub fn mesh_from_drag_points(
    drag_points: &Vec<DragPoint>,
    top_height: i64,
    table_width: i64,
    table_depth: i64,
) -> (m: GeneratedMesh)
    requires
        drag_points@.len() <= MAX_VERTICES,
        drag_points_bounded(drag_points@),
        -DRAG_COORD_MAX <= top_height <= DRAG_COORD_MAX,
        0 < table_width <= 0x1_0000_0000_0000,
        0 < table_depth <= 0x1_0000_0000_0000,
    ensures
        mesh_matches(m, drag_points@, top_height as int, table_width as int, table_depth as int),
{
    let n = drag_points.len();
    let height_um = mvpu_to_um(top_height);
    let mut positions: Vec<MeshVertex> = Vec::new();
    let mut uvs: Vec<UvPoint> = Vec::new();
    let mut plane: Vec<SimPoint> = Vec::new();
    let mut i: usize = 0;
    while i < n
        invariant
            n == drag_points@.len(),
            n <= MAX_VERTICES,
            drag_points_bounded(drag_points@),
            -DRAG_COORD_MAX <= top_height <= DRAG_COORD_MAX,
            0 < table_width <= 0x1_0000_0000_0000,
            0 < table_depth <= 0x1_0000_0000_0000,
            height_um == mvpu_to_um_spec(top_height as int),
            i <= n,
            positions@.len() == i,
            uvs@.len() == i,
            plane@.len() == i,
            forall|q: int| 0 <= q < i ==> (#[trigger] plane@[q]) == mesh_plane_spec(drag_points@)[q],
            forall|q: int|
                0 <= q < i ==> (#[trigger] positions@[q]) == (MeshVertex {
                    x: mesh_plane_spec(drag_points@)[q].x,
                    y: mesh_plane_spec(drag_points@)[q].y,
                    z: mvpu_to_um_spec(top_height as int) as i64,
                }),
            forall|q: int|
                0 <= q < i ==> (#[trigger] uvs@[q]) == uv_spec(
                    drag_points@[q],
                    table_width as int,
                    table_depth as int,
                ),
            coords_bounded(plane@),
        decreases n - i,
    {
        let p = drag_points[i];
        let px = mvpu_to_um(p.x);
        let py = mvpu_to_um(p.y);
        proof {
            lemma_mesh_coord_in_range(p.x as int);
            lemma_mesh_coord_in_range(p.y as int);
        }
        positions.push(MeshVertex { x: px, y: -py, z: height_um });
        plane.push(SimPoint { x: px, y: -py });
        let uv = if p.has_auto_texture {
            UvPoint {
                u: floor_div(p.x * UV_ONE, table_width),
                v: floor_div(p.y * UV_ONE, table_depth),
            }
        } else {
            UvPoint { u: floor_div(p.x * UV_ONE, 1000), v: floor_div(p.y * UV_ONE, 1000) }
        };
        uvs.push(uv);
        i += 1;
    }
    proof {
        assert(plane@ =~= mesh_plane_spec(drag_points@));
    }
    let indices = triangulate_polygon(&plane);
    GeneratedMesh { positions, uvs, indices }
}

/// Reads the 2D collision polyline back from a generated mesh: one
/// point per mesh vertex, with the first repeated at the end to close
/// the loop.
pub fn mesh_collider(mesh: &GeneratedMesh) -> (r: Vec<SimPoint>)
    requires
        mesh.positions@.len() >= 1,
    ensures
        r@.len() == mesh.positions@.len() + 1,
        forall|i: int|
            0 <= i < mesh.positions@.len() ==> (#[trigger] r@[i]) == (SimPoint {
                x: mesh.positions@[i].x,
                y: mesh.positions@[i].y,
            }),
        r@[r@.len() - 1] == r@[0],
{
    let n = mesh.positions.len();
    let mut vertices: Vec<SimPoint> = Vec::new();
    let mut i: usize = 0;
    while i < n
        invariant
            n == mesh.positions@.len(),
            i <= n,
            vertices@.len() == i,
            forall|q: int|
                0 <= q < i ==> (#[trigger] vertices@[q]) == (SimPoint {
                    x: mesh.positions@[q].x,
                    y: mesh.positions@[q].y,
                }),
        decreases n - i,
    {
        let v = mesh.positions[i];
        vertices.push(SimPoint { x: v.x, y: v.y });
        i += 1;
    }
    let first = vertices[0];
    vertices.push(first);
    vertices
}

} // verus!
