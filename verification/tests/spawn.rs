//! Tests of the game-item spawners and the level plan.

use vpinball2d::document::BumperItem;
use vpinball2d::document::DragPoint;
use vpinball2d::document::FlipperItem;
use vpinball2d::document::GameItem;
use vpinball2d::document::KickerItem;
use vpinball2d::document::Material;
use vpinball2d::document::NamedBlob;
use vpinball2d::document::PlungerItem;
use vpinball2d::document::TableDocument;
use vpinball2d::document::WallItem;
use vpinball2d::level::plan_level;
use vpinball2d::loader::VpxLoaderSettings;
use vpinball2d::loader::build_vpx_asset;
use vpinball2d::spawn::Rgb;
use vpinball2d::spawn::ball_plan;
use vpinball2d::spawn::bumper_plan;
use vpinball2d::spawn::kicker_plan;
use vpinball2d::spawn::material_color;
use vpinball2d::spawn::plunger_force_step;
use vpinball2d::spawn::plunger_plan;
use vpinball2d::spawn::table_plan;
use vpinball2d::spawn::wall_plan;
use vpinball2d::units::NativePoint;
use vpinball2d::units::SimPoint;
use vpinball2d::units::TableBounds;

fn bounds() -> TableBounds {
    TableBounds { left: 0, top: 0, right: 2_000_000, bottom: 4_000_000 }
}

fn wall(name: &str, height_bottom: i64, collidable: bool) -> WallItem {
    WallItem {
        name: name.to_string(),
        drag_points: vec![
            DragPoint { x: 0, y: 0, has_auto_texture: true },
            DragPoint { x: 0, y: 1_000_000, has_auto_texture: true },
            DragPoint { x: 1_000_000, y: 1_000_000, has_auto_texture: true },
        ],
        height_top: 80_000,
        height_bottom,
        is_collidable: collidable,
        is_top_bottom_visible: true,
        is_side_visible: false,
        top_material: "Metal".to_string(),
        image: "wood".to_string(),
        elasticity_milli: 300,
        friction_milli: 250,
    }
}

fn sample_doc() -> TableDocument {
    TableDocument {
        game_items: vec![
            GameItem::Wall(wall("Wall1", 0, true)),
            GameItem::Kicker(KickerItem {
                name: "Drain".to_string(),
                center: NativePoint { x: 1_000_000, y: 4_000_000 },
                radius: 25_000,
            }),
            GameItem::Other,
        ],
        materials: vec![Material { name: "Metal".to_string(), red: 10, green: 20, blue: 30 }],
        images: vec![NamedBlob { name: "wood".to_string(), data: vec![1] }],
        sounds: vec![NamedBlob { name: "fx_ballrolling0".to_string(), data: vec![1] }],
        bounds: bounds(),
        ball_image: "wood".to_string(),
        playfield_image: "wood".to_string(),
        backglass_image: "".to_string(),
        gravity_milli: 9_810,
    }
}

fn assets_of(doc: &TableDocument) -> vpinball2d::assets::VpxAsset {
    let image_ok = vec![true; doc.images.len()];
    let sound_ok = vec![true; doc.sounds.len()];
    build_vpx_asset(doc, &VpxLoaderSettings::default(), &image_ok, &sound_ok)
}

#[test]
fn material_lookup_falls_back_to_magenta() {
    let materials = vec![Material { name: "Metal".to_string(), red: 10, green: 20, blue: 30 }];
    assert_eq!(
        material_color(&materials, &"Metal".to_string()),
        Rgb { red: 10, green: 20, blue: 30 }
    );
    assert_eq!(
        material_color(&materials, &"Missing".to_string()),
        Rgb { red: 255, green: 0, blue: 255 }
    );
}

#[test]
fn low_wall_gets_a_closed_collider() {
    let doc = sample_doc();
    let assets = assets_of(&doc);
    let w = wall("Wall1", 10_000, true);
    let plan = wall_plan(&w, &assets, &doc.materials, &doc.bounds).unwrap();
    assert_eq!(plan.name, "Wall Wall1".to_string());
    assert_eq!(plan.color, Rgb { red: 10, green: 20, blue: 30 });
    assert!(!plan.translucent);
    assert_eq!(plan.texture, Some(0));
    let collider = plan.collider.expect("a low collidable wall must be solid");
    assert_eq!(collider.restitution_milli, 300);
    assert_eq!(collider.friction_milli, 250);
    assert_eq!(collider.polyline.len(), 4);
    assert_eq!(collider.polyline[3], collider.polyline[0]);
}

#[test]
fn high_bottomed_wall_is_rendered_but_pass_through() {
    let doc = sample_doc();
    let assets = assets_of(&doc);
    // The bottom sits above twice the ball radius of 25 VPU.
    let w = wall("Wall1", 60_000, true);
    let plan = wall_plan(&w, &assets, &doc.materials, &doc.bounds).unwrap();
    assert!(plan.collider.is_none());
    assert_eq!(plan.mesh_path, "meshes/wall/Wall1".to_string());
    let uncollidable = wall("Wall1", 0, false);
    let plan = wall_plan(&uncollidable, &assets, &doc.materials, &doc.bounds).unwrap();
    assert!(plan.collider.is_none());
}

#[test]
fn wall_without_mesh_is_a_lookup_error() {
    let doc = sample_doc();
    let assets = assets_of(&doc);
    let w = wall("Absent", 0, true);
    let err = wall_plan(&w, &assets, &doc.materials, &doc.bounds).unwrap_err();
    assert_eq!(err.name, "meshes/wall/Absent".to_string());
}

#[test]
fn kicker_plan_converts_centre_and_radius() {
    let k = KickerItem {
        name: "Drain".to_string(),
        center: NativePoint { x: 1_000_000, y: 2_000_000 },
        radius: 100_000,
    };
    let plan = kicker_plan(&k, &bounds());
    assert_eq!(plan.kicker.name, "Drain".to_string());
    // The table centre maps to the origin.
    assert_eq!(plan.pos, SimPoint { x: 0, y: 0 });
    assert_eq!(plan.radius_um, 53_975);
}

#[test]
fn bumper_plan_scales_force_and_resolves_colors() {
    let b = BumperItem {
        name: "B1".to_string(),
        center: NativePoint { x: 1_000_000, y: 2_000_000 },
        radius: 100_000,
        force_milli: 10_000,
        cap_material: "Metal".to_string(),
        base_material: "Missing".to_string(),
    };
    let doc = sample_doc();
    let plan = bumper_plan(&b, &bounds(), &doc.materials);
    assert_eq!(plan.name, "BumperB1".to_string());
    assert_eq!(plan.pos, SimPoint { x: 0, y: 0 });
    assert_eq!(plan.base_radius_um, 53_975);
    assert_eq!(plan.cap_radius_um, 53_975 + 15_000);
    assert_eq!(plan.force_micro, 80_000);
    assert_eq!(plan.cap_color, Rgb { red: 10, green: 20, blue: 30 });
    assert_eq!(plan.base_color, Rgb { red: 255, green: 0, blue: 255 });
}

#[test]
fn plunger_plan_places_guides_and_stop() {
    let p = PlungerItem {
        name: "P1".to_string(),
        center: NativePoint { x: 1_000_000, y: 2_000_000 },
        height: 40_000,
        width: 80_000,
        stroke: 160_000,
    };
    let plan = plunger_plan(&p, &bounds());
    let h = 21_590;
    let w = 43_180;
    let s = 86_360;
    assert_eq!(plan.pos, SimPoint { x: 0, y: -h });
    assert_eq!(plan.z_um, h);
    assert_eq!(plan.body_start, SimPoint { x: 0, y: -h + s });
    assert_eq!(plan.guide_left, SimPoint { x: -w / 2 - 7_000, y: -h + s - 10_000 });
    assert_eq!(plan.guide_right, SimPoint { x: w / 2 + 7_000, y: -h + s - 10_000 });
    assert_eq!(plan.stop_y_um, -h + 4_000);
    assert_eq!(plan.plunger.start_point, plan.pos);
    assert_eq!(plan.plunger.stroke, s);
}

#[test]
fn plunger_pull_accumulates_and_release_resets() {
    // Held: the downward force grows by the pull rate over the step.
    assert_eq!(plunger_force_step(true, 0, 86_360, 0, 16_000), -320_000);
    assert_eq!(plunger_force_step(true, 0, 86_360, -320_000, 16_000), -640_000);
    // At full stretch the force stops growing.
    assert_eq!(plunger_force_step(true, -86_360, 86_360, -640_000, 16_000), -640_000);
    // At the force cap it stops growing too.
    assert_eq!(plunger_force_step(true, 0, 86_360, -50_000_000, 16_000), -50_000_000);
    // Releasing resets it at once.
    assert_eq!(plunger_force_step(false, 0, 86_360, -640_000, 16_000), 0);
}

#[test]
fn flipper_plan_infers_side_from_angles() {
    let left = FlipperItem {
        name: "F1".to_string(),
        center: NativePoint { x: 500_000, y: 3_500_000 },
        start_angle_mdeg: 121_000,
        end_angle_mdeg: 70_000,
        flipper_radius_max: 100_000,
        end_radius: 20_000,
        height: 50_000,
    };
    let plan = flipper_plan_of(&left).expect("a left flipper spawns");
    assert_eq!(plan.name, "Flipper F1".to_string());
    assert_eq!(plan.angle_lower_mdeg, 90_000 - 121_000);
    assert_eq!(plan.angle_upper_mdeg, 90_000 - 70_000);
    // 100000 + 20000/2 = 110000 milli-VPU scaled to micrometres.
    assert_eq!(plan.length_um, 110_000 * 2159 / 4000);

    let right = FlipperItem { start_angle_mdeg: 70_000, end_angle_mdeg: 121_000, ..left.clone() };
    assert!(flipper_plan_of(&right).is_none());
}

fn flipper_plan_of(f: &FlipperItem) -> Option<vpinball2d::spawn::FlipperPlan> {
    vpinball2d::spawn::flipper_plan(f, &bounds())
}

#[test]
fn missing_ball_image_fails_the_ball_spawn() {
    let doc = sample_doc();
    let assets = assets_of(&doc);
    let ok = ball_plan(0, SimPoint { x: 0, y: 0 }, &"wood".to_string(), &assets).unwrap();
    assert_eq!(ok.ball.id, 0);
    assert_eq!(ok.radius_um, 13_500);
    assert_eq!(ok.mass_milligram, 80_000);
    let err = ball_plan(0, SimPoint { x: 0, y: 0 }, &"chrome".to_string(), &assets).unwrap_err();
    assert_eq!(err.name, "chrome".to_string());
}

#[test]
fn table_plan_frames_the_playfield() {
    let doc = sample_doc();
    let assets = assets_of(&doc);
    let plan = table_plan(&doc, &assets).unwrap();
    let w = 1_079_500;
    let d = 2_159_000;
    let t = 19_050;
    assert_eq!(plan.width_um, w);
    assert_eq!(plan.depth_um, d);
    assert_eq!(plan.playfield_texture, 0);
    assert!(plan.backglass_texture.is_none());
    assert_eq!(plan.bottom_wall.center, SimPoint { x: 0, y: -d / 2 - t / 2 });
    assert_eq!(plan.bottom_wall.width_um, w + 2 * t);
    assert_eq!(plan.bottom_wall.height_um, t);
    assert_eq!(plan.top_wall.center, SimPoint { x: 0, y: d / 2 + t / 2 });
    assert_eq!(plan.left_wall.center, SimPoint { x: -w / 2 - t / 2, y: 0 });
    assert_eq!(plan.right_wall.center, SimPoint { x: w / 2 + t / 2, y: 0 });
    assert_eq!(plan.left_wall.height_um, d + 2 * t);
}

#[test]
fn level_plan_covers_every_modelled_item() {
    let doc = sample_doc();
    let assets = assets_of(&doc);
    let plan = plan_level(&doc, &assets).unwrap();
    assert_eq!(plan.walls.len(), 1);
    assert_eq!(plan.kickers.len(), 1);
    assert_eq!(plan.bumpers.len(), 0);
    assert_eq!(plan.ball.ball.id, 0);
    assert_eq!(plan.kickers[0].kicker.name, "Drain".to_string());
}

#[test]
fn level_plan_fails_on_a_missing_required_asset() {
    let mut doc = sample_doc();
    doc.ball_image = "chrome".to_string();
    let assets = assets_of(&doc);
    assert!(plan_level(&doc, &assets).is_err());
}
