//! Tests of unit conversion and the table-to-simulation transform.

use vpinball2d::units::NativePoint;
use vpinball2d::units::SimPoint;
use vpinball2d::units::TableBounds;
use vpinball2d::units::floor_div;
use vpinball2d::units::floor_half;
use vpinball2d::units::mvpu_to_um;
use vpinball2d::units::to_sim;
use vpinball2d::units::um_to_mvpu;

#[test]
fn one_thousand_vpu_is_exactly_539750_micrometres() {
    // 1000 VPU = 1 000 000 milli-VPU; 1 VPU = 0.53975 mm.
    assert_eq!(mvpu_to_um(1_000_000), 539_750);
}

#[test]
fn thousand_vpu_round_trip_is_exact() {
    let native: i64 = 1_000_000;
    let metres = mvpu_to_um(native);
    assert_eq!(um_to_mvpu(metres), native);
}

#[test]
fn negative_lengths_round_toward_negative_infinity() {
    assert_eq!(mvpu_to_um(-4000), -2159);
    assert_eq!(mvpu_to_um(-1), -1);
    assert_eq!(mvpu_to_um(1), 0);
}

#[test]
fn floor_div_rounds_down_for_both_signs() {
    assert_eq!(floor_div(7, 2), 3);
    assert_eq!(floor_div(-7, 2), -4);
    assert_eq!(floor_div(-8, 2), -4);
    assert_eq!(floor_half(-3), -2);
    assert_eq!(floor_half(3), 1);
}

#[test]
fn table_center_maps_to_simulation_origin() {
    let bounds = TableBounds { left: 0, top: 0, right: 2_000_000, bottom: 4_000_000 };
    let center = bounds.center();
    assert_eq!(center, NativePoint { x: 1_000_000, y: 2_000_000 });
    assert_eq!(to_sim(center, bounds), SimPoint { x: 0, y: 0 });
}

#[test]
fn top_left_corner_maps_up_and_left_of_origin() {
    let bounds = TableBounds { left: 0, top: 0, right: 2_000_000, bottom: 4_000_000 };
    let corner = to_sim(NativePoint { x: 0, y: 0 }, bounds);
    // Half the width to the left, half the depth above: y-down flips.
    assert_eq!(corner, SimPoint { x: -539_750, y: 1_079_500 });
    let far = to_sim(NativePoint { x: 2_000_000, y: 4_000_000 }, bounds);
    assert_eq!(far, SimPoint { x: 539_750, y: -1_079_500 });
}

#[test]
fn offset_bounds_still_center_on_origin() {
    let bounds = TableBounds { left: 500_000, top: 300_000, right: 2_500_000, bottom: 4_300_000 };
    let center = bounds.center();
    assert_eq!(to_sim(center, bounds), SimPoint { x: 0, y: 0 });
    assert_eq!(bounds.width(), 2_000_000);
    assert_eq!(bounds.depth(), 4_000_000);
}
