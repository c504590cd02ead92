//! Tests of the ear-clipping triangulator.

use vpinball2d::triangulate::triangulate_polygon;
use vpinball2d::units::SimPoint;

fn pt(x: i64, y: i64) -> SimPoint {
    SimPoint { x, y }
}

/// Twice the signed area of a polygon, by the shoelace formula.
fn polygon_area2(pts: &[SimPoint]) -> i64 {
    let n = pts.len();
    let mut sum: i64 = 0;
    for i in 0..n {
        let a = pts[i];
        let b = pts[(i + 1) % n];
        sum += a.x * b.y - b.x * a.y;
    }
    sum
}

/// Twice the summed signed area of the triangles of an index list.
fn triangles_area2(indices: &[u32], pts: &[SimPoint]) -> i64 {
    let mut sum: i64 = 0;
    for t in 0..indices.len() / 3 {
        let a = pts[indices[3 * t] as usize];
        let b = pts[indices[3 * t + 1] as usize];
        let c = pts[indices[3 * t + 2] as usize];
        sum += (b.x - a.x) * (c.y - a.y) - (b.y - a.y) * (c.x - a.x);
    }
    sum
}

#[test]
fn empty_and_tiny_polygons_yield_nothing() {
    assert_eq!(triangulate_polygon(&vec![]), Vec::<u32>::new());
    assert_eq!(triangulate_polygon(&vec![pt(0, 0)]), Vec::<u32>::new());
    assert_eq!(triangulate_polygon(&vec![pt(0, 0), pt(10, 0)]), Vec::<u32>::new());
}

#[test]
fn triangle_yields_itself() {
    let pts = vec![pt(0, 0), pt(10, 0), pt(0, 10)];
    let indices = triangulate_polygon(&pts);
    assert_eq!(indices.len(), 3);
    assert_eq!(triangles_area2(&indices, &pts), polygon_area2(&pts));
}

#[test]
fn square_yields_two_triangles_covering_it() {
    let pts = vec![pt(0, 0), pt(100, 0), pt(100, 100), pt(0, 100)];
    let indices = triangulate_polygon(&pts);
    assert_eq!(indices.len(), 6);
    assert_eq!(triangles_area2(&indices, &pts), polygon_area2(&pts));
    assert_eq!(polygon_area2(&pts), 2 * 100 * 100);
    for &i in &indices {
        assert!((i as usize) < pts.len());
    }
    for v in 0..pts.len() as u32 {
        assert!(indices.contains(&v));
    }
}

#[test]
fn concave_polygon_covers_its_area() {
    // An L shape: a 2x2 square with a 1x1 corner bite.
    let pts = vec![pt(0, 0), pt(200, 0), pt(200, 100), pt(100, 100), pt(100, 200), pt(0, 200)];
    let indices = triangulate_polygon(&pts);
    assert_eq!(indices.len(), 3 * (pts.len() - 2));
    assert_eq!(triangles_area2(&indices, &pts), polygon_area2(&pts));
    for v in 0..pts.len() as u32 {
        assert!(indices.contains(&v));
    }
}

#[test]
fn output_is_deterministic() {
    let pts = vec![pt(0, 0), pt(300, 0), pt(300, 300), pt(150, 400), pt(0, 300)];
    let first = triangulate_polygon(&pts);
    let second = triangulate_polygon(&pts);
    assert_eq!(first, second);
    assert_eq!(first.len(), 3 * (pts.len() - 2));
}

#[test]
fn degenerate_input_terminates_with_partial_output() {
    // All points collinear: no convex corner ever forms an ear.
    let pts = vec![pt(0, 0), pt(10, 0), pt(20, 0), pt(30, 0)];
    let indices = triangulate_polygon(&pts);
    assert_eq!(indices.len() % 3, 0);
    assert!(indices.len() <= 3 * (pts.len() - 2));
}

#[test]
fn clockwise_polygon_is_not_fully_triangulated() {
    // The triangulator expects counter-clockwise winding; a clockwise
    // square has no convex corner under that convention.
    let pts = vec![pt(0, 0), pt(0, 100), pt(100, 100), pt(100, 0)];
    let indices = triangulate_polygon(&pts);
    assert_eq!(indices.len(), 0);
}
