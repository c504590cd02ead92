//! Tests of mesh generation and the derived polyline collider.

use vpinball2d::document::DragPoint;
use vpinball2d::mesh::mesh_collider;
use vpinball2d::mesh::mesh_from_drag_points;
use vpinball2d::units::SimPoint;

fn dp(x: i64, y: i64, auto: bool) -> DragPoint {
    DragPoint { x, y, has_auto_texture: auto }
}

#[test]
fn positions_are_scaled_and_y_flipped_at_constant_height() {
    let points = vec![dp(0, 0, true), dp(1_000_000, 0, true), dp(0, 1_000_000, true)];
    let mesh = mesh_from_drag_points(&points, 4000, 2_000_000, 4_000_000);
    assert_eq!(mesh.positions.len(), 3);
    assert_eq!(mesh.positions[0].x, 0);
    assert_eq!(mesh.positions[0].y, 0);
    assert_eq!(mesh.positions[0].z, 2159);
    assert_eq!(mesh.positions[1].x, 539_750);
    assert_eq!(mesh.positions[1].y, 0);
    assert_eq!(mesh.positions[2].x, 0);
    assert_eq!(mesh.positions[2].y, -539_750);
}

#[test]
fn automatic_texture_coordinates_normalise_by_table_extent() {
    let points = vec![dp(500_000, 1_000_000, true)];
    let mesh = mesh_from_drag_points(&points, 0, 2_000_000, 4_000_000);
    // u = x / width, v = y / depth, in millionths.
    assert_eq!(mesh.uvs[0].u, 250_000);
    assert_eq!(mesh.uvs[0].v, 250_000);
}

#[test]
fn explicit_texture_coordinates_pass_through_in_vpu() {
    let points = vec![dp(500_000, 1_500_000, false)];
    let mesh = mesh_from_drag_points(&points, 0, 2_000_000, 4_000_000);
    // The raw position in VPU, in millionths: 500 and 1500 VPU.
    assert_eq!(mesh.uvs[0].u, 500_000_000);
    assert_eq!(mesh.uvs[0].v, 1_500_000_000);
}

#[test]
fn square_mesh_is_fully_triangulated() {
    let points = vec![
        dp(0, 0, true),
        dp(0, 1_000_000, true),
        dp(1_000_000, 1_000_000, true),
        dp(1_000_000, 0, true),
    ];
    // The y flip turns the native clockwise square counter-clockwise.
    let mesh = mesh_from_drag_points(&points, 0, 2_000_000, 4_000_000);
    assert_eq!(mesh.indices.len(), 6);
    for &i in &mesh.indices {
        assert!((i as usize) < points.len());
    }
}

#[test]
fn collider_closes_the_loop_over_mesh_positions() {
    let points = vec![
        dp(0, 0, true),
        dp(0, 1_000_000, true),
        dp(1_000_000, 1_000_000, true),
        dp(1_000_000, 0, true),
    ];
    let mesh = mesh_from_drag_points(&points, 8000, 2_000_000, 4_000_000);
    let polyline = mesh_collider(&mesh);
    // One point per mesh vertex plus the repeated first point.
    assert_eq!(polyline.len(), mesh.positions.len() + 1);
    for i in 0..mesh.positions.len() {
        assert_eq!(polyline[i], SimPoint { x: mesh.positions[i].x, y: mesh.positions[i].y });
    }
    assert_eq!(polyline[polyline.len() - 1], polyline[0]);
}
