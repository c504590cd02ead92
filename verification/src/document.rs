//! The structured table document: the in-memory description of a
//! parsed table file, with its game items, named materials, images,
//! sounds and declared bounds.
//!
//! Lengths are native milli-VPU, angles milli-degrees, and material
//! response values (elasticity, friction, force) thousandths.

use vstd::prelude::*;
use crate::units::NativePoint;
use crate::units::TableBounds;

verus! {

/// One vertex of a game item's boundary polygon, in native milli-VPU,
/// with its texture-coordinate policy flag.
#[derive(Clone, Copy, PartialEq, Eq, Structural, Debug)]
pub struct DragPoint {
    pub x: i64,
    pub y: i64,
    pub has_auto_texture: bool,
}

/// A named material: a base colour the renderer applies.
#[derive(Clone, Debug)]
pub struct Material {
    pub name: String,
    pub red: u8,
    pub green: u8,
    pub blue: u8,
}

/// A named raw asset blob (an encoded image or sound).
#[derive(Clone, Debug)]
pub struct NamedBlob {
    pub name: String,
    pub data: Vec<u8>,
}

/// A wall: a drag-point polygon with heights and collision response.
#[derive(Clone, Debug)]
pub struct WallItem {
    pub name: String,
    pub drag_points: Vec<DragPoint>,
    pub height_top: i64,
    pub height_bottom: i64,
    pub is_collidable: bool,
    pub is_top_bottom_visible: bool,
    pub is_side_visible: bool,
    pub top_material: String,
    pub image: String,
    pub elasticity_milli: i64,
    pub friction_milli: i64,
}

/// A rubber: a drag-point ring with a thickness and collision response.
#[derive(Clone, Debug)]
pub struct RubberItem {
    pub name: String,
    pub drag_points: Vec<DragPoint>,
    pub height: i64,
    pub thickness: i64,
    pub rot_x_milli: i64,
    pub rot_y_milli: i64,
    pub rot_z_milli: i64,
    pub elasticity_milli: i64,
    pub friction_milli: i64,
}

/// A bumper: a circular kick element.
#[derive(Clone, Debug)]
pub struct BumperItem {
    pub name: String,
    pub center: NativePoint,
    pub radius: i64,
    pub force_milli: i64,
    pub cap_material: String,
    pub base_material: String,
}

/// A kicker: a circular sensor zone that scripted behaviour reacts to.
#[derive(Clone, Debug)]
pub struct KickerItem {
    pub name: String,
    pub center: NativePoint,
    pub radius: i64,
}

/// A trigger: a circular sensor zone.
#[derive(Clone, Debug)]
pub struct TriggerItem {
    pub name: String,
    pub center: NativePoint,
    pub radius: i64,
}

/// A light: two concentric visual circles, no physics.
#[derive(Clone, Debug)]
pub struct LightItem {
    pub name: String,
    pub center: NativePoint,
    pub mesh_radius: i64,
    pub falloff_radius: i64,
    pub red: u8,
    pub green: u8,
    pub blue: u8,
    pub height: Option<i64>,
}

/// A plunger: the spring-driven launcher.
#[derive(Clone, Debug)]
pub struct PlungerItem {
    pub name: String,
    pub center: NativePoint,
    pub height: i64,
    pub width: i64,
    pub stroke: i64,
}

/// A flipper: a bat on a revolute joint with an angle range.
#[derive(Clone, Debug)]
pub struct FlipperItem {
    pub name: String,
    pub center: NativePoint,
    pub start_angle_mdeg: i64,
    pub end_angle_mdeg: i64,
    pub flipper_radius_max: i64,
    pub end_radius: i64,
    pub height: i64,
}

/// One tagged game item of the table; kinds the simulation does not
/// model are carried as `Other`.
#[derive(Clone, Debug)]
pub enum GameItem {
    Wall(WallItem),
    Bumper(BumperItem),
    Kicker(KickerItem),
    Trigger(TriggerItem),
    Light(LightItem),
    Rubber(RubberItem),
    Plunger(PlungerItem),
    Flipper(FlipperItem),
    Other,
}

/// The authoritative description of a parsed table.
#[derive(Clone, Debug)]
pub struct TableDocument {
    pub game_items: Vec<GameItem>,
    pub materials: Vec<Material>,
    pub images: Vec<NamedBlob>,
    pub sounds: Vec<NamedBlob>,
    pub bounds: TableBounds,
    pub ball_image: String,
    pub playfield_image: String,
    pub backglass_image: String,
    pub gravity_milli: i64,
}

/// Whether some blob in `s` carries the name `n`.
pub open spec fn blob_name_listed(s: Seq<NamedBlob>, n: Seq<char>) -> bool {
    exists|i: int| 0 <= i < s.len() && (#[trigger] s[i]).name@ == n
}

} // verus!
