//! Game-item spawners: each turns one parsed game item, together with
//! the resolved asset set and the table-to-simulation transform, into
//! a spawn plan — the exact transform, visual and physics data of the
//! live entity a host engine creates from it.
//!
//! Visual material colours resolve against the named material table,
//! with magenta as a visible fallback for a missing material.  A
//! spawner that cannot resolve a required asset fails with a lookup
//! error rather than omitting the entity.

use vstd::prelude::*;
use vstd::string::StringExecFns;
use crate::assets::VpxAsset;
use crate::assets::find_entry_spec;
use crate::document::BumperItem;
use crate::document::KickerItem;
use crate::document::LightItem;
use crate::document::Material;
use crate::document::PlungerItem;
use crate::document::RubberItem;
use crate::document::TriggerItem;
use crate::document::FlipperItem;
use crate::document::WallItem;
use crate::loader::LookupError;
use crate::mesh::mesh_collider;
use crate::units::MAX_COORD;
use crate::units::MAX_MVPU;
use crate::units::NativePoint;
use crate::units::SimPoint;
use crate::units::TableBounds;
use crate::units::mvpu_to_um;
use crate::units::mvpu_to_um_spec;
use crate::units::to_sim;
use crate::units::to_sim_spec;

verus! {

/// The ball radius in native milli-VPU (25 VPU: half the standard
/// 50-VPU ball diameter).
pub const BALL_RADIUS_MVPU: i64 = 25_000;

/// The ball radius in simulation micrometres (13.5 mm).
pub const BALL_RADIUS_UM: i64 = 13_500;

/// An opaque base colour.
#[derive(Clone, Copy, PartialEq, Eq, Structural, Debug)]
pub struct Rgb {
    pub red: u8,
    pub green: u8,
    pub blue: u8,
}

/// The visible fallback colour for a missing material.
pub open spec fn magenta() -> Rgb {
    Rgb { red: 255, green: 0, blue: 255 }
}

/// The base colour of a material record.
pub open spec fn material_rgb(m: Material) -> Rgb {
    Rgb { red: m.red, green: m.green, blue: m.blue }
}

/// The colour the first material with the given name carries, or
/// magenta when no material carries it.
pub open spec fn material_color_spec(materials: Seq<Material>, name: Seq<char>) -> Rgb
    decreases materials.len(),
{
    if materials.len() == 0 {
        magenta()
    } else if materials[0].name@ == name {
        material_rgb(materials[0])
    } else {
        material_color_spec(materials.drop_first(), name)
    }
}

/// Resolves a material name to its colour, with the magenta fallback.
pub fn material_color(materials: &Vec<Material>, name: &String) -> (r: Rgb)
    ensures
        r == material_color_spec(materials@, name@),
{
    let n = materials.len();
    let mut i: usize = 0;
    proof {
        assert(materials@.skip(0) =~= materials@);
    }
    while i < n
        invariant
            n == materials@.len(),
            i <= n,
            material_color_spec(materials@, name@) == material_color_spec(
                materials@.skip(i as int),
                name@,
            ),
        decreases n - i,
    {
        proof {
            assert(materials@.skip(i as int)[0] == materials@[i as int]);
            assert(materials@.skip(i as int).drop_first() =~= materials@.skip(i as int + 1));
        }
        if materials[i].name == *name {
            let m = &materials[i];
            return Rgb { red: m.red, green: m.green, blue: m.blue };
        }
        i += 1;
    }
    Rgb { red: 255, green: 0, blue: 255 }
}

/// A static polyline collision shape with its surface response.
#[derive(Clone, Debug)]
pub struct WallCollider {
    pub polyline: Vec<SimPoint>,
    pub restitution_milli: i64,
    pub friction_milli: i64,
}

/// A live wall, named after its table item.
#[derive(Clone, Debug)]
pub struct Wall {
    pub name: String,
}

/// The spawn plan of one wall: its visual mesh and material, and its
/// collision shape when the wall is solid.
#[derive(Clone, Debug)]
pub struct WallPlan {
    pub wall: Wall,
    pub name: String,
    pub transform: SimPoint,
    pub mesh_path: String,
    pub color: Rgb,
    pub translucent: bool,
    pub texture: Option<u32>,
    pub collider: Option<WallCollider>,
}

/// Whether position `k` holds the first mesh stored under `path`.
pub open spec fn is_first_mesh(a: VpxAsset, path: Seq<char>, k: int) -> bool {
    &&& 0 <= k < a.meshes@.len()
    &&& a.meshes@[k].path@ == path
    &&& forall|q: int| 0 <= q < k ==> (#[trigger] a.meshes@[q]).path@ != path
}

/// Whether some mesh is stored under `path`.
pub open spec fn mesh_listed(a: VpxAsset, path: Seq<char>) -> bool {
    exists|q: int| 0 <= q < a.meshes@.len() && (#[trigger] a.meshes@[q]).path@ == path
}

/// Whether `poly` is the closed collision polyline read back from the
/// positions of `mesh`.
pub open spec fn collider_from_mesh(poly: Seq<SimPoint>, mesh: crate::mesh::GeneratedMesh) -> bool {
    &&& poly.len() == mesh.positions@.len() + 1
    &&& forall|i: int|
        0 <= i < mesh.positions@.len() ==> (#[trigger] poly[i]) == (SimPoint {
            x: mesh.positions@[i].x,
            y: mesh.positions@[i].y,
        })
    &&& poly[poly.len() - 1] == poly[0]
}

/// Whether a wall is solid: its collidable flag is set and its bottom
/// is low enough to intersect a ball rolling on the playfield.
pub open spec fn wall_is_solid(w: WallItem) -> bool {
    w.is_collidable && w.height_bottom < 2 * BALL_RADIUS_MVPU
}

/// What the wall spawner promises of a produced plan.
pub open spec fn wall_plan_matches(
    plan: WallPlan,
    wall: WallItem,
    assets: VpxAsset,
    materials: Seq<Material>,
    bounds: TableBounds,
) -> bool {
    &&& plan.wall.name@ == wall.name@
    &&& plan.name@ == "Wall "@ + wall.name@
    &&& plan.transform == table_transform_spec(bounds)
    &&& plan.mesh_path@ == "meshes/wall/"@ + wall.name@
    &&& plan.color == material_color_spec(materials, wall.top_material@)
    &&& plan.translucent == (!wall.is_top_bottom_visible && !wall.is_side_visible)
    &&& plan.texture == find_entry_spec(assets.images@, wall.image@)
    &&& (plan.collider is Some <==> wall_is_solid(wall))
    &&& match plan.collider {
        Some(c) => {
            &&& c.restitution_milli == wall.elasticity_milli
            &&& c.friction_milli == wall.friction_milli
            &&& exists|k: int|
                is_first_mesh(assets, "meshes/wall/"@ + wall.name@, k) && collider_from_mesh(
                    c.polyline@,
                    assets.meshes@[k].mesh,
                )
        },
        None => true,
    }
}

/// Plans the spawn of one wall.
///
/// The wall's generated mesh must already stand in the resolved set
/// under its deterministic path; a missing mesh is a lookup error.
/// The plan carries a collider exactly when the wall is solid: its
/// collidable flag is set and its bottom height is below twice the
/// ball radius.  A wall whose faces are all invisible is rendered
/// translucent.
pub fn wall_plan(
    wall: &WallItem,
    assets: &VpxAsset,
    materials: &Vec<Material>,
    bounds: &TableBounds,
) -> (r: Result<WallPlan, LookupError>)
    requires
        bounds.well_formed(),
        forall|k: int|
            0 <= k < assets.meshes@.len() && (#[trigger] assets.meshes@[k]).path@ == "meshes/wall/"@
                + wall.name@ ==> assets.meshes@[k].mesh.positions@.len() >= 1,
    ensures
        r is Ok <==> mesh_listed(*assets, "meshes/wall/"@ + wall.name@),
        match r {
            Ok(plan) => wall_plan_matches(plan, *wall, *assets, materials@, *bounds),
            Err(e) => e.name@ == "meshes/wall/"@ + wall.name@,
        },
{
    let path = VpxAsset::wall_mesh_sub_path(wall.name.as_str());
    let mesh_index = match assets.find_mesh(&path) {
        Some(i) => i,
        None => {
            return Err(LookupError { name: path });
        },
    };
    let color = material_color(materials, &wall.top_material);
    let texture = assets.find_image(&wall.image);
    let translucent = !wall.is_top_bottom_visible && !wall.is_side_visible;
    let mut name = "Wall ".to_owned();
    name.append(wall.name.as_str());
    let collider = if wall.is_collidable && wall.height_bottom < 2 * BALL_RADIUS_MVPU {
        let polyline = mesh_collider(&assets.meshes[mesh_index].mesh);
        Some(
            WallCollider {
                polyline,
                restitution_milli: wall.elasticity_milli,
                friction_milli: wall.friction_milli,
            },
        )
    } else {
        None
    };
    proof {
        assert(is_first_mesh(*assets, "meshes/wall/"@ + wall.name@, mesh_index as int));
    }
    let transform = table_transform(bounds);
    Ok(
        WallPlan {
            wall: Wall { name: wall.name.clone() },
            name,
            transform,
            mesh_path: path,
            color,
            translucent,
            texture,
            collider,
        },
    )
}


/// The translation every mesh-bearing entity carries: where the
/// table's native origin lands in simulation space.
pub open spec fn table_transform_spec(bounds: TableBounds) -> SimPoint {
    to_sim_spec(NativePoint { x: 0, y: 0 }, bounds)
}

/// Computes the table-to-simulation translation.
pub fn table_transform(bounds: &TableBounds) -> (r: SimPoint)
    requires
        bounds.well_formed(),
    ensures
        r == table_transform_spec(*bounds),
{
    to_sim(NativePoint { x: 0, y: 0 }, *bounds)
}

/// A live ball's identity: the stable small integer that diagnostic
/// naming and script logic key on.
#[derive(Clone, Copy, PartialEq, Eq, Structural, Debug)]
pub struct Ball {
    pub id: u32,
}

/// A live kicker: the sensor zone scripted behaviour reacts to.
#[derive(Clone, Debug)]
pub struct Kicker {
    pub name: String,
}

/// A live trigger sensor.
#[derive(Clone, Debug)]
pub struct Trigger {
    pub name: String,
}

/// A live rubber ring.
#[derive(Clone, Debug)]
pub struct Rubber {
    pub name: String,
}

/// A live light.
#[derive(Clone, Debug)]
pub struct Light {
    pub name: String,
}

/// A live plunger, with its rest position and stroke in simulation
/// micrometres.
#[derive(Clone, Debug)]
pub struct Plunger {
    pub name: String,
    pub start_point: SimPoint,
    pub stroke: i64,
}

/// Whether a circular item's centre and radius are within the ranges
/// the conversions accept.
pub open spec fn circle_item_ok(center: NativePoint, radius: int) -> bool {
    &&& -MAX_COORD <= center.x <= MAX_COORD
    &&& -MAX_COORD <= center.y <= MAX_COORD
    &&& 0 <= radius <= MAX_MVPU
}

/// The spawn plan of one kicker: a circular static sensor.
#[derive(Clone, Debug)]
pub struct KickerPlan {
    pub kicker: Kicker,
    pub pos: SimPoint,
    pub radius_um: i64,
}

/// What the kicker spawner promises of its plan.
pub open spec fn kicker_plan_matches(p: KickerPlan, k: KickerItem, bounds: TableBounds) -> bool {
    &&& p.kicker.name@ == k.name@
    &&& p.pos == to_sim_spec(k.center, bounds)
    &&& p.radius_um == mvpu_to_um_spec(k.radius as int)
}

/// Plans the spawn of one kicker.
pub fn kicker_plan(k: &KickerItem, bounds: &TableBounds) -> (r: KickerPlan)
    requires
        bounds.well_formed(),
        circle_item_ok(k.center, k.radius as int),
    ensures
        kicker_plan_matches(r, *k, *bounds),
{
    KickerPlan {
        kicker: Kicker { name: k.name.clone() },
        pos: to_sim(k.center, *bounds),
        radius_um: mvpu_to_um(k.radius),
    }
}

/// The spawn plan of one trigger: a circular static sensor.
#[derive(Clone, Debug)]
pub struct TriggerPlan {
    pub trigger: Trigger,
    pub pos: SimPoint,
    pub radius_um: i64,
}

/// What the trigger spawner promises of its plan.
pub open spec fn trigger_plan_matches(p: TriggerPlan, k: TriggerItem, bounds: TableBounds) -> bool {
    &&& p.trigger.name@ == k.name@
    &&& p.pos == to_sim_spec(k.center, bounds)
    &&& p.radius_um == mvpu_to_um_spec(k.radius as int)
}

/// Plans the spawn of one trigger.
pub fn trigger_plan(k: &TriggerItem, bounds: &TableBounds) -> (r: TriggerPlan)
    requires
        bounds.well_formed(),
        circle_item_ok(k.center, k.radius as int),
    ensures
        trigger_plan_matches(r, *k, *bounds),
{
    TriggerPlan {
        trigger: Trigger { name: k.name.clone() },
        pos: to_sim(k.center, *bounds),
        radius_um: mvpu_to_um(k.radius),
    }
}

/// The default light height in native milli-VPU when the record
/// declares none.
pub const DEFAULT_LIGHT_HEIGHT_MVPU: i64 = 10;

/// The spawn plan of one light: two concentric flat circles with
/// alpha blending, purely visual.
#[derive(Clone, Debug)]
pub struct LightPlan {
    pub light: Light,
    pub pos: SimPoint,
    pub z_um: i64,
    pub radius_um: i64,
    pub falloff_radius_um: i64,
    pub color: Rgb,
    pub core_alpha_milli: i64,
    pub falloff_alpha_milli: i64,
}

/// What the light spawner promises of its plan.
pub open spec fn light_plan_matches(p: LightPlan, l: LightItem, bounds: TableBounds) -> bool {
    &&& p.light.name@ == l.name@
    &&& p.pos == to_sim_spec(l.center, bounds)
    &&& p.z_um == mvpu_to_um_spec(
        match l.height {
            Some(h) => h as int,
            None => DEFAULT_LIGHT_HEIGHT_MVPU as int,
        },
    )
    &&& p.radius_um == mvpu_to_um_spec(l.mesh_radius as int)
    &&& p.falloff_radius_um == mvpu_to_um_spec(l.falloff_radius as int)
    &&& p.color == (Rgb { red: l.red, green: l.green, blue: l.blue })
    &&& p.core_alpha_milli == 500
    &&& p.falloff_alpha_milli == 100
}

/// Whether a light item's fields are within the accepted ranges.
pub open spec fn light_item_ok(l: LightItem) -> bool {
    &&& circle_item_ok(l.center, l.mesh_radius as int)
    &&& 0 <= l.falloff_radius <= MAX_MVPU
    &&& match l.height {
        Some(h) => -MAX_MVPU <= h <= MAX_MVPU,
        None => true,
    }
}

/// Plans the spawn of one light.
pub fn light_plan(l: &LightItem, bounds: &TableBounds) -> (r: LightPlan)
    requires
        bounds.well_formed(),
        light_item_ok(*l),
    ensures
        light_plan_matches(r, *l, *bounds),
{
    let h = match l.height {
        Some(h) => h,
        None => DEFAULT_LIGHT_HEIGHT_MVPU,
    };
    LightPlan {
        light: Light { name: l.name.clone() },
        pos: to_sim(l.center, *bounds),
        z_um: mvpu_to_um(h),
        radius_um: mvpu_to_um(l.mesh_radius),
        falloff_radius_um: mvpu_to_um(l.falloff_radius),
        color: Rgb { red: l.red, green: l.green, blue: l.blue },
        core_alpha_milli: 500,
        falloff_alpha_milli: 100,
    }
}

/// How much a bumper cap overhangs its base, in micrometres.
pub const BUMPER_CAP_OVERHANG_UM: i64 = 15_000;

/// The spawn plan of one bumper: a static circular body with a cap,
/// and the force its reaction applies.
#[derive(Clone, Debug)]
pub struct BumperPlan {
    pub name: String,
    pub pos: SimPoint,
    pub base_radius_um: i64,
    pub cap_radius_um: i64,
    pub force_micro: i64,
    pub base_color: Rgb,
    pub cap_color: Rgb,
    pub cap_alpha: u8,
}

/// What the bumper spawner promises of its plan.
pub open spec fn bumper_plan_matches(
    p: BumperPlan,
    b: BumperItem,
    bounds: TableBounds,
    materials: Seq<Material>,
) -> bool {
    &&& p.name@ == "Bumper"@ + b.name@
    &&& p.pos == to_sim_spec(b.center, bounds)
    &&& p.base_radius_um == mvpu_to_um_spec(b.radius as int)
    &&& p.cap_radius_um == mvpu_to_um_spec(b.radius as int) + BUMPER_CAP_OVERHANG_UM
    &&& p.force_micro == b.force_milli * 8
    &&& p.base_color == material_color_spec(materials, b.base_material@)
    &&& p.cap_color == material_color_spec(materials, b.cap_material@)
    &&& p.cap_alpha == 210u8
}

/// Whether a bumper item's fields are within the accepted ranges.
pub open spec fn bumper_item_ok(b: BumperItem) -> bool {
    &&& circle_item_ok(b.center, b.radius as int)
    &&& -0x1000_0000_0000 <= b.force_milli <= 0x1000_0000_0000
}

/// Plans the spawn of one bumper.  The force a hit applies is the
/// native force field rescaled to micronewtons.
pub fn bumper_plan(b: &BumperItem, bounds: &TableBounds, materials: &Vec<Material>) -> (r:
    BumperPlan)
    requires
        bounds.well_formed(),
        bumper_item_ok(*b),
    ensures
        bumper_plan_matches(r, *b, *bounds, materials@),
{
    let mut name = "Bumper".to_owned();
    name.append(b.name.as_str());
    let base_radius_um = mvpu_to_um(b.radius);
    BumperPlan {
        name,
        pos: to_sim(b.center, *bounds),
        base_radius_um,
        cap_radius_um: base_radius_um + BUMPER_CAP_OVERHANG_UM,
        force_micro: b.force_milli * 8,
        base_color: material_color(materials, &b.base_material),
        cap_color: material_color(materials, &b.cap_material),
        cap_alpha: 210,
    }
}

/// The spawn plan of one rubber: its mesh, a white material, and the
/// polyline collider read back from the mesh.
#[derive(Clone, Debug)]
pub struct RubberPlan {
    pub rubber: Rubber,
    pub name: String,
    pub transform: SimPoint,
    pub mesh_path: String,
    pub color: Rgb,
    pub collider: WallCollider,
}

/// What the rubber spawner promises of a produced plan.
pub open spec fn rubber_plan_matches(p: RubberPlan, rb: RubberItem, a: VpxAsset, bounds: TableBounds) -> bool {
    &&& p.rubber.name@ == rb.name@
    &&& p.name@ == "Rubber "@ + rb.name@
    &&& p.transform == table_transform_spec(bounds)
    &&& p.mesh_path@ == "meshes/rubber/"@ + rb.name@
    &&& p.color == (Rgb { red: 255, green: 255, blue: 255 })
    &&& p.collider.restitution_milli == rb.elasticity_milli
    &&& p.collider.friction_milli == rb.friction_milli
    &&& exists|k: int|
        is_first_mesh(a, "meshes/rubber/"@ + rb.name@, k) && collider_from_mesh(
            p.collider.polyline@,
            a.meshes@[k].mesh,
        )
}

/// Plans the spawn of one rubber.
///
/// A rubber with any rotation is skipped, as unsupported, without an
/// error; one whose mesh is missing from the resolved set is a lookup
/// error.
pub fn rubber_plan(rb: &RubberItem, assets: &VpxAsset, bounds: &TableBounds) -> (r: Result<
    Option<RubberPlan>,
    LookupError,
>)
    requires
        bounds.well_formed(),
        forall|k: int|
            0 <= k < assets.meshes@.len() && (#[trigger] assets.meshes@[k]).path@
                == "meshes/rubber/"@ + rb.name@ ==> assets.meshes@[k].mesh.positions@.len() >= 1,
    ensures
        match r {
            Ok(Some(plan)) => {
                &&& rb.rot_x_milli == 0 && rb.rot_y_milli == 0 && rb.rot_z_milli == 0
                &&& rubber_plan_matches(plan, *rb, *assets, *bounds)
            },
            Ok(None) => rb.rot_x_milli != 0 || rb.rot_y_milli != 0 || rb.rot_z_milli != 0,
            Err(e) => e.name@ == "meshes/rubber/"@ + rb.name@,
        },
        r is Err <==> (rb.rot_x_milli == 0 && rb.rot_y_milli == 0 && rb.rot_z_milli == 0
            && !mesh_listed(*assets, "meshes/rubber/"@ + rb.name@)),
{
    if rb.rot_x_milli != 0 || rb.rot_y_milli != 0 || rb.rot_z_milli != 0 {
        return Ok(None);
    }
    let path = VpxAsset::rubber_mesh_sub_path(rb.name.as_str());
    let mesh_index = match assets.find_mesh(&path) {
        Some(i) => i,
        None => {
            return Err(LookupError { name: path });
        },
    };
    let polyline = mesh_collider(&assets.meshes[mesh_index].mesh);
    let mut name = "Rubber ".to_owned();
    name.append(rb.name.as_str());
    proof {
        assert(is_first_mesh(*assets, "meshes/rubber/"@ + rb.name@, mesh_index as int));
    }
    Ok(
        Some(
            RubberPlan {
                rubber: Rubber { name: rb.name.clone() },
                name,
                transform: table_transform(bounds),
                mesh_path: path,
                color: Rgb { red: 255, green: 255, blue: 255 },
                collider: WallCollider {
                    polyline,
                    restitution_milli: rb.elasticity_milli,
                    friction_milli: rb.friction_milli,
                },
            },
        ),
    )
}

/// Which side of the table a flipper serves.
#[derive(Clone, Copy, PartialEq, Eq, Structural, Debug)]
pub enum FlipperSide {
    Left,
    Right,
}

/// The torque the solenoid applies while the button is held, in
/// millinewton-metres.
pub const FLIPPER_ENABLED_TORQUE_MILLI: i64 = 1_500;

/// The restoring torque of the return spring while the button is
/// released, in millinewton-metres.
pub const FLIPPER_DISABLED_TORQUE_MILLI: i64 = -500;

/// The spawn plan of one flipper: a dynamic bat joined to a static
/// anchor by a revolute joint with an angle range.
#[derive(Clone, Debug)]
pub struct FlipperPlan {
    pub name: String,
    pub side: FlipperSide,
    pub anchor: SimPoint,
    pub length_um: i64,
    pub half_height_um: i64,
    pub angle_lower_mdeg: i64,
    pub angle_upper_mdeg: i64,
    pub enabled_torque_milli: i64,
    pub disabled_torque_milli: i64,
    pub mass_milligram: i64,
    pub restitution_milli: i64,
}

/// Whether a flipper item's fields are within the accepted ranges.
pub open spec fn flipper_item_ok(f: FlipperItem) -> bool {
    &&& -MAX_COORD <= f.center.x <= MAX_COORD
    &&& -MAX_COORD <= f.center.y <= MAX_COORD
    &&& -1_000_000 <= f.start_angle_mdeg <= 1_000_000
    &&& -1_000_000 <= f.end_angle_mdeg <= 1_000_000
    &&& 0 <= f.flipper_radius_max <= MAX_MVPU / 2
    &&& 0 <= f.end_radius <= MAX_MVPU / 2
}

/// What the flipper spawner promises of a produced plan.
///
/// Angles convert from the table convention (zero pointing up,
/// clockwise positive) to the simulation convention (zero pointing
/// right, counter-clockwise positive), so the native end angle gives
/// the simulation start and the native start angle the simulation
/// end; the side follows from which is larger.
pub open spec fn flipper_plan_matches(p: FlipperPlan, f: FlipperItem, bounds: TableBounds) -> bool {
    &&& p.name@ == "Flipper "@ + f.name@
    &&& p.side == FlipperSide::Left
    &&& p.anchor == to_sim_spec(f.center, bounds)
    &&& p.length_um == mvpu_to_um_spec(f.flipper_radius_max + f.end_radius as int / 2)
    &&& p.half_height_um == 9_000
    &&& p.angle_lower_mdeg == 90_000 - f.start_angle_mdeg
    &&& p.angle_upper_mdeg == 90_000 - f.end_angle_mdeg
    &&& p.enabled_torque_milli == FLIPPER_ENABLED_TORQUE_MILLI
    &&& p.disabled_torque_milli == FLIPPER_DISABLED_TORQUE_MILLI
    &&& p.mass_milligram == 1_000_000
    &&& p.restitution_milli == 400
}

/// Plans the spawn of one flipper.  A right flipper — one whose
/// converted start angle does not exceed its converted end angle — is
/// not yet supported and yields no plan.
pub fn flipper_plan(f: &FlipperItem, bounds: &TableBounds) -> (r: Option<FlipperPlan>)
    requires
        bounds.well_formed(),
        flipper_item_ok(*f),
    ensures
        r is Some <==> f.start_angle_mdeg > f.end_angle_mdeg,
        match r {
            Some(plan) => flipper_plan_matches(plan, *f, *bounds),
            None => true,
        },
{
    let sim_start = 90_000 - f.end_angle_mdeg;
    let sim_end = 90_000 - f.start_angle_mdeg;
    if !(sim_start > sim_end) {
        return None;
    }
    let mut name = "Flipper ".to_owned();
    name.append(f.name.as_str());
    Some(
        FlipperPlan {
            name,
            side: FlipperSide::Left,
            anchor: to_sim(f.center, *bounds),
            length_um: mvpu_to_um(f.flipper_radius_max + f.end_radius / 2),
            half_height_um: 9_000,
            angle_lower_mdeg: sim_end,
            angle_upper_mdeg: sim_start,
            enabled_torque_milli: FLIPPER_ENABLED_TORQUE_MILLI,
            disabled_torque_milli: FLIPPER_DISABLED_TORQUE_MILLI,
            mass_milligram: 1_000_000,
            restitution_milli: 400,
        },
    )
}


/// The plunger's body mass in milligrams (a light mass keeps the
/// spring responsive).
pub const PLUNGER_MASS_MILLIGRAM: i64 = 200_000;

/// The spawn plan of one plunger: a dynamic body on a vertical
/// distance joint with guide walls and a hard stop.
#[derive(Clone, Debug)]
pub struct PlungerPlan {
    pub plunger: Plunger,
    pub name: String,
    pub pos: SimPoint,
    pub z_um: i64,
    pub width_um: i64,
    pub height_um: i64,
    pub stroke_um: i64,
    pub body_start: SimPoint,
    pub guide_left: SimPoint,
    pub guide_right: SimPoint,
    pub stop_y_um: i64,
    pub mass_milligram: i64,
    pub restitution_milli: i64,
}

/// Whether a plunger item's fields are within the accepted ranges.
pub open spec fn plunger_item_ok(p: PlungerItem) -> bool {
    &&& -MAX_COORD <= p.center.x <= MAX_COORD
    &&& -MAX_COORD <= p.center.y <= MAX_COORD
    &&& 0 <= p.width <= MAX_MVPU
    &&& 0 <= p.height <= MAX_MVPU
    &&& 0 <= p.stroke <= MAX_MVPU
}

/// What the plunger spawner promises of its plan.
///
/// The rest position sits one assembly height below the converted
/// centre; the body starts one stroke above it; the guide walls stand
/// half the assembly width plus a small clearance to each side, just
/// below the plunger head; the hard stop sits just above the anchor.
pub open spec fn plunger_plan_matches(p: PlungerPlan, item: PlungerItem, bounds: TableBounds) -> bool {
    let ts = to_sim_spec(item.center, bounds);
    let w = mvpu_to_um_spec(item.width as int);
    let h = mvpu_to_um_spec(item.height as int);
    let s = mvpu_to_um_spec(item.stroke as int);
    &&& p.plunger.name@ == item.name@
    &&& p.plunger.start_point == p.pos
    &&& p.plunger.stroke == s
    &&& p.name@ == "Plunger "@ + item.name@
    &&& p.pos == (SimPoint { x: ts.x, y: (ts.y - h) as i64 })
    &&& p.z_um == h
    &&& p.width_um == w
    &&& p.height_um == h
    &&& p.stroke_um == s
    &&& p.body_start == (SimPoint { x: p.pos.x, y: (p.pos.y + s) as i64 })
    &&& p.guide_left == (SimPoint { x: (p.pos.x - w / 2 - 7_000) as i64, y: (p.pos.y + s - 10_000) as i64 })
    &&& p.guide_right == (SimPoint { x: (p.pos.x + w / 2 + 7_000) as i64, y: (p.pos.y + s - 10_000) as i64 })
    &&& p.stop_y_um == p.pos.y + 4_000
    &&& p.mass_milligram == PLUNGER_MASS_MILLIGRAM
    &&& p.restitution_milli == 500
}

/// Plans the spawn of one plunger.
pub fn plunger_plan(item: &PlungerItem, bounds: &TableBounds) -> (r: PlungerPlan)
    requires
        bounds.well_formed(),
        plunger_item_ok(*item),
    ensures
        plunger_plan_matches(r, *item, *bounds),
{
    let ts = to_sim(item.center, *bounds);
    let w = mvpu_to_um(item.width);
    let h = mvpu_to_um(item.height);
    let s = mvpu_to_um(item.stroke);
    let pos = SimPoint { x: ts.x, y: ts.y - h };
    let mut name = "Plunger ".to_owned();
    name.append(item.name.as_str());
    PlungerPlan {
        plunger: Plunger { name: item.name.clone(), start_point: pos, stroke: s },
        name,
        pos,
        z_um: h,
        width_um: w,
        height_um: h,
        stroke_um: s,
        body_start: SimPoint { x: pos.x, y: pos.y + s },
        guide_left: SimPoint { x: pos.x - w / 2 - 7_000, y: pos.y + s - 10_000 },
        guide_right: SimPoint { x: pos.x + w / 2 + 7_000, y: pos.y + s - 10_000 },
        stop_y_um: pos.y + 4_000,
        mass_milligram: PLUNGER_MASS_MILLIGRAM,
        restitution_milli: 500,
    }
}

/// The pull force the plunger gains per microsecond held, in
/// micronewtons.
pub const PLUNGER_PULL_MICRO_PER_US: i64 = 20;

/// The largest pull force the plunger accumulates, in micronewtons.
pub const PLUNGER_MAX_PULL_MICRO: i64 = 50_000_000;

/// One fixed-step update of the plunger's accumulated pull force.
///
/// While the control is held the downward force grows with the step
/// time, until the body reaches full stretch or the force its cap;
/// the moment the control is released the force resets to zero.
pub fn plunger_force_step(
    pulling: bool,
    offset_um: i64,
    stroke_um: i64,
    force_micro: i64,
    dt_us: i64,
) -> (r: i64)
    requires
        0 <= dt_us <= 1_000_000,
        -0x1000_0000_0000 <= offset_um <= 0x1000_0000_0000,
        0 <= stroke_um <= 0x1000_0000_0000,
        -0x1000_0000_0000 <= force_micro <= 0x1000_0000_0000,
    ensures
        r == if pulling {
            if offset_um > -stroke_um && force_micro > -PLUNGER_MAX_PULL_MICRO {
                force_micro - PLUNGER_PULL_MICRO_PER_US * dt_us
            } else {
                force_micro as int
            }
        } else {
            0int
        },
{
    if pulling {
        if offset_um > -stroke_um && force_micro > -PLUNGER_MAX_PULL_MICRO {
            force_micro - PLUNGER_PULL_MICRO_PER_US * dt_us
        } else {
            force_micro
        }
    } else {
        0
    }
}

/// The ball's mass in milligrams (a standard 80-gram ball).
pub const BALL_MASS_MILLIGRAM: i64 = 80_000;

/// The spawn plan of one ball: a dynamic circular body with its
/// resolved skin texture and rolling-sound source.
#[derive(Clone, Debug)]
pub struct BallPlan {
    pub ball: Ball,
    pub pos: SimPoint,
    pub radius_um: i64,
    pub mass_milligram: i64,
    pub restitution_milli: i64,
    pub friction_milli: i64,
    pub texture: u32,
    pub rolling_sound: u32,
}

/// What the ball spawner promises of a produced plan.
pub open spec fn ball_plan_matches(
    p: BallPlan,
    id: u32,
    pos: SimPoint,
    ball_image: Seq<char>,
    assets: VpxAsset,
) -> bool {
    &&& p.ball.id == id
    &&& p.pos == pos
    &&& p.radius_um == BALL_RADIUS_UM
    &&& p.mass_milligram == BALL_MASS_MILLIGRAM
    &&& p.restitution_milli == 400
    &&& p.friction_milli == 200
    &&& Some(p.texture) == find_entry_spec(assets.images@, ball_image)
    &&& Some(p.rolling_sound) == find_entry_spec(assets.sounds@, "fx_ballrolling0"@)
}

/// Plans the spawn of one ball at the given position.
///
/// The table's declared ball image and the rolling sound are both
/// required: a level without its ball is broken, so either missing
/// asset fails the spawn with a lookup error naming it.
pub fn ball_plan(id: u32, pos: SimPoint, ball_image: &String, assets: &VpxAsset) -> (r: Result<
    BallPlan,
    LookupError,
>)
    ensures
        r is Ok <==> find_entry_spec(assets.images@, ball_image@) is Some && find_entry_spec(
            assets.sounds@,
            "fx_ballrolling0"@,
        ) is Some,
        match r {
            Ok(plan) => ball_plan_matches(plan, id, pos, ball_image@, *assets),
            Err(e) => e.name@ == ball_image@ || e.name@ == "fx_ballrolling0"@,
        },
{
    let texture = match assets.find_image(ball_image) {
        Some(h) => h,
        None => {
            return Err(LookupError { name: ball_image.clone() });
        },
    };
    let rolling_name = "fx_ballrolling0".to_owned();
    let rolling_sound = match assets.find_sound(&rolling_name) {
        Some(h) => h,
        None => {
            return Err(LookupError { name: rolling_name });
        },
    };
    Ok(
        BallPlan {
            ball: Ball { id },
            pos,
            radius_um: BALL_RADIUS_UM,
            mass_milligram: BALL_MASS_MILLIGRAM,
            restitution_milli: 400,
            friction_milli: 200,
            texture,
            rolling_sound,
        },
    )
}

/// The thickness of the table's frame walls in micrometres (a typical
/// three-quarter-inch rail).
pub const WALL_THICKNESS_UM: i64 = 19_050;

/// An axis-aligned rectangle by centre and extent, in micrometres.
#[derive(Clone, Copy, PartialEq, Eq, Structural, Debug)]
pub struct RectPlan {
    pub center: SimPoint,
    pub width_um: i64,
    pub height_um: i64,
}

/// The spawn plan of the table itself: the playfield and backglass
/// visuals and the four static frame walls that keep the ball on the
/// table.
#[derive(Clone, Debug)]
pub struct TablePlan {
    pub width_um: i64,
    pub depth_um: i64,
    pub playfield_texture: u32,
    pub backglass_texture: Option<u32>,
    pub bottom_wall: RectPlan,
    pub top_wall: RectPlan,
    pub left_wall: RectPlan,
    pub right_wall: RectPlan,
}

/// What the table spawner promises of a produced plan.
pub open spec fn table_plan_matches(p: TablePlan, doc: crate::document::TableDocument, assets: VpxAsset) -> bool {
    let w = mvpu_to_um_spec(doc.bounds.width_spec());
    let d = mvpu_to_um_spec(doc.bounds.depth_spec());
    let t = WALL_THICKNESS_UM as int;
    &&& p.width_um == w
    &&& p.depth_um == d
    &&& Some(p.playfield_texture) == find_entry_spec(assets.images@, doc.playfield_image@)
    &&& p.backglass_texture == (if doc.backglass_image@.len() == 0 {
        Option::<u32>::None
    } else {
        find_entry_spec(assets.images@, doc.backglass_image@)
    })
    &&& p.bottom_wall == (RectPlan {
        center: SimPoint { x: 0, y: (-(d / 2) - t / 2) as i64 },
        width_um: (w + 2 * t) as i64,
        height_um: t as i64,
    })
    &&& p.top_wall == (RectPlan {
        center: SimPoint { x: 0, y: (d / 2 + t / 2) as i64 },
        width_um: (w + 2 * t) as i64,
        height_um: t as i64,
    })
    &&& p.left_wall == (RectPlan {
        center: SimPoint { x: (-(w / 2) - t / 2) as i64, y: 0 },
        width_um: t as i64,
        height_um: (d + 2 * t) as i64,
    })
    &&& p.right_wall == (RectPlan {
        center: SimPoint { x: (w / 2 + t / 2) as i64, y: 0 },
        width_um: t as i64,
        height_um: (d + 2 * t) as i64,
    })
}

/// Whether the table's own required assets resolve: the playfield
/// image always, the backglass image when one is named.
pub open spec fn table_resolvable(doc: crate::document::TableDocument, assets: VpxAsset) -> bool {
    &&& find_entry_spec(assets.images@, doc.playfield_image@) is Some
    &&& doc.backglass_image@.len() > 0 ==> find_entry_spec(
        assets.images@,
        doc.backglass_image@,
    ) is Some
}

/// Plans the spawn of the table frame and playfield.
///
/// The playfield image is required; a named backglass image is
/// required too, while an empty name means a transparent backdrop.
pub fn table_plan(doc: &crate::document::TableDocument, assets: &VpxAsset) -> (r: Result<
    TablePlan,
    LookupError,
>)
    requires
        doc.bounds.well_formed(),
    ensures
        r is Ok <==> table_resolvable(*doc, *assets),
        match r {
            Ok(plan) => table_plan_matches(plan, *doc, *assets),
            Err(e) => e.name@ == doc.playfield_image@ || e.name@ == doc.backglass_image@,
        },
{
    let playfield_texture = match assets.find_image(&doc.playfield_image) {
        Some(h) => h,
        None => {
            return Err(LookupError { name: doc.playfield_image.clone() });
        },
    };
    let backglass_texture = if doc.backglass_image.as_str().is_empty() {
        None
    } else {
        match assets.find_image(&doc.backglass_image) {
            Some(h) => Some(h),
            None => {
                return Err(LookupError { name: doc.backglass_image.clone() });
            },
        }
    };
    let w = mvpu_to_um(doc.bounds.width());
    let d = mvpu_to_um(doc.bounds.depth());
    let t = WALL_THICKNESS_UM;
    Ok(
        TablePlan {
            width_um: w,
            depth_um: d,
            playfield_texture,
            backglass_texture,
            bottom_wall: RectPlan {
                center: SimPoint { x: 0, y: -(d / 2) - t / 2 },
                width_um: w + 2 * t,
                height_um: t,
            },
            top_wall: RectPlan {
                center: SimPoint { x: 0, y: d / 2 + t / 2 },
                width_um: w + 2 * t,
                height_um: t,
            },
            left_wall: RectPlan {
                center: SimPoint { x: -(w / 2) - t / 2, y: 0 },
                width_um: t,
                height_um: d + 2 * t,
            },
            right_wall: RectPlan {
                center: SimPoint { x: w / 2 + t / 2, y: 0 },
                width_um: t,
                height_um: d + 2 * t,
            },
        },
    )
}

} // verus!
