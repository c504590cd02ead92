//! Tests of the gameplay event reactor.

use vpinball2d::script::BallEntity;
use vpinball2d::script::CollisionStart;
use vpinball2d::script::KickerEntity;
use vpinball2d::script::Participant;
use vpinball2d::script::ReactorWorld;
use vpinball2d::script::RollingAction;
use vpinball2d::script::TableScript;
use vpinball2d::script::ball_collision_cue;
use vpinball2d::script::bumper_hit;
use vpinball2d::script::bumper_impulse;
use vpinball2d::script::collision_volume_milli;
use vpinball2d::script::flipper_torque_milli;
use vpinball2d::script::plunger_wall_name;
use vpinball2d::script::remove_plunger_wall;
use vpinball2d::script::rolling_sound_action;
use vpinball2d::script::rolling_volume_milli;
use vpinball2d::script::script_drain_step;
use vpinball2d::script::script_for_table;
use vpinball2d::script::script_on_collision;
use vpinball2d::spawn::Ball;
use vpinball2d::spawn::FlipperSide;
use vpinball2d::spawn::Kicker;
use vpinball2d::units::SimPoint;

fn kicker(name: &str, x: i64, y: i64) -> KickerEntity {
    KickerEntity { kicker: Kicker { name: name.to_string() }, pos: SimPoint { x, y } }
}

fn drain_world() -> ReactorWorld {
    ReactorWorld {
        balls: vec![BallEntity { ball: Ball { id: 0 }, pos: SimPoint { x: 50, y: 60 } }],
        kickers: vec![kicker("Drain", 0, 0), kicker("BallRelease", 1_000_000, 1_000_000)],
    }
}

#[test]
fn drain_cycle_replaces_the_ball_and_cues_two_sounds() {
    let world = drain_world();
    let (after, sounds) = script_drain_step(&TableScript::ExampleTable, world, 0, 0, 1, 1);
    // The drained ball is gone and exactly one replacement exists,
    // at the release kicker, with the reused identity.
    assert_eq!(after.balls.len(), 1);
    assert_eq!(after.balls[0].ball.id, 0);
    assert_eq!(after.balls[0].pos, SimPoint { x: 1_000_000, y: 1_000_000 });
    assert_eq!(after.kickers.len(), 2);
    // Two sound commands: the drain at its kicker, the release at its.
    assert_eq!(sounds.len(), 2);
    assert_eq!(sounds[0].name, "drain".to_string());
    assert_eq!(sounds[0].pos, SimPoint { x: 0, y: 0 });
    assert_eq!(sounds[1].name, "ballrelease".to_string());
    assert_eq!(sounds[1].pos, SimPoint { x: 1_000_000, y: 1_000_000 });
}

#[test]
fn other_kickers_do_not_drain() {
    let mut world = drain_world();
    world.kickers[0].kicker.name = "Slingshot".to_string();
    let (after, sounds) = script_drain_step(&TableScript::ExampleTable, world, 0, 0, 1, 1);
    assert_eq!(after.balls.len(), 1);
    assert_eq!(after.balls[0].pos, SimPoint { x: 50, y: 60 });
    assert_eq!(sounds.len(), 0);
}

#[test]
fn unscripted_tables_do_not_react() {
    let world = drain_world();
    let (after, sounds) = script_drain_step(&TableScript::Unscripted, world, 0, 0, 1, 1);
    assert_eq!(after.balls.len(), 1);
    assert_eq!(after.balls[0].pos, SimPoint { x: 50, y: 60 });
    assert_eq!(sounds.len(), 0);
}

#[test]
fn tna_drain_uses_its_numbered_sound_variants() {
    let world = drain_world();
    let (_, sounds) = script_drain_step(&TableScript::Tna, world, 0, 0, 3, 2);
    assert_eq!(sounds[0].name, "SY_TNA_REV02_Trough_Drain_3".to_string());
    assert_eq!(sounds[1].name, "SY_TNA_REV02_Shooter_Lane_Metal_BallDrop_2".to_string());
}

#[test]
fn collision_event_classification_drives_the_drain() {
    let world = drain_world();
    let event = CollisionStart {
        first: Participant::KickerAt(0),
        second: Participant::BallAt(0),
    };
    let (after, sounds) = script_on_collision(&TableScript::ExampleTable, world, &event);
    assert_eq!(after.balls.len(), 1);
    assert_eq!(after.balls[0].pos, SimPoint { x: 1_000_000, y: 1_000_000 });
    assert_eq!(sounds.len(), 2);
    assert_eq!(sounds[0].name, "drain".to_string());
}

#[test]
fn non_ball_kicker_events_are_ignored() {
    let world = drain_world();
    let event = CollisionStart {
        first: Participant::WallAt(3),
        second: Participant::BallAt(0),
    };
    let (after, sounds) = script_on_collision(&TableScript::ExampleTable, world, &event);
    assert_eq!(after.balls.len(), 1);
    assert_eq!(after.balls[0].pos, SimPoint { x: 50, y: 60 });
    assert_eq!(sounds.len(), 0);
    // A stale index is ignored too.
    let world = drain_world();
    let event = CollisionStart {
        first: Participant::BallAt(7),
        second: Participant::KickerAt(0),
    };
    let (after, sounds) = script_on_collision(&TableScript::ExampleTable, world, &event);
    assert_eq!(after.balls.len(), 1);
    assert_eq!(sounds.len(), 0);
}

#[test]
fn script_selection_goes_by_file_name() {
    assert_eq!(script_for_table(&"exampleTable.vpx".to_string()), TableScript::ExampleTable);
    assert_eq!(
        script_for_table(&"Total Nuclear Annihilation (Spooky 2017) VPW v2.3.vpx".to_string()),
        TableScript::Tna
    );
    assert_eq!(script_for_table(&"Unknown Table.vpx".to_string()), TableScript::Unscripted);
}

#[test]
fn plunger_wall_names_follow_the_script() {
    assert_eq!(plunger_wall_name(&TableScript::ExampleTable), Some("Wall15".to_string()));
    assert_eq!(plunger_wall_name(&TableScript::Tna), Some("Wall348".to_string()));
    assert_eq!(plunger_wall_name(&TableScript::Unscripted), None);
}

#[test]
fn bumper_hit_pushes_the_ball_radially() {
    // A ball half a metre to the right of the bumper: the impulse is
    // the full force, directed along positive x.
    let ball = SimPoint { x: 500_000, y: 0 };
    let bumper = SimPoint { x: 0, y: 0 };
    let force = 2_000_000;
    assert_eq!(bumper_impulse(ball, bumper, force), Some((2_000_000, 0)));
    // A 3-4-5 diagonal splits the force exactly.
    let ball = SimPoint { x: 300_000, y: 400_000 };
    assert_eq!(bumper_impulse(ball, bumper, 1_000_000), Some((600_000, 800_000)));
    // A ball at the exact centre gets no direction, hence no impulse.
    assert_eq!(bumper_impulse(bumper, bumper, force), None);
}

#[test]
fn bumper_hit_cues_one_of_the_four_variants() {
    let ball = SimPoint { x: 500_000, y: 0 };
    let bumper = SimPoint { x: 100, y: 200 };
    let (impulse, cue) = bumper_hit(ball, bumper, 1_000_000);
    assert!(impulse.is_some());
    assert_eq!(cue.pos, bumper);
    let variants = ["fx_bumper1", "fx_bumper2", "fx_bumper3", "fx_bumper4"];
    assert!(variants.contains(&cue.name.as_str()));
}

#[test]
fn ball_collision_sound_plays_at_the_midpoint() {
    let (cue, volume) = ball_collision_cue(
        SimPoint { x: 0, y: 0 },
        SimPoint { x: 100, y: 50 },
        300,
    );
    assert_eq!(cue.name, "fx_collide".to_string());
    assert_eq!(cue.pos, SimPoint { x: 50, y: 25 });
    assert_eq!(volume, 3_000);
    // The volume is capped at ten.
    let (_, volume) = ball_collision_cue(SimPoint { x: 0, y: 0 }, SimPoint { x: 0, y: 0 }, 5_000);
    assert_eq!(volume, 10_000);
}

#[test]
fn rolling_sound_follows_speed_and_pause() {
    assert_eq!(rolling_sound_action(0, false), RollingAction::Pause);
    assert_eq!(rolling_sound_action(5, false), RollingAction::Pause);
    assert_eq!(rolling_sound_action(100, false), RollingAction::Play(500));
    assert_eq!(rolling_sound_action(100_000, false), RollingAction::Play(40_000));
    assert_eq!(rolling_sound_action(100, true), RollingAction::Pause);
    assert_eq!(rolling_volume_milli(20), 100);
    assert_eq!(collision_volume_milli(20), 200);
}

#[test]
fn flipper_torque_switches_with_the_button() {
    assert_eq!(flipper_torque_milli(FlipperSide::Left, true), 1_500);
    assert_eq!(flipper_torque_milli(FlipperSide::Left, false), -500);
    assert_eq!(flipper_torque_milli(FlipperSide::Right, true), -1_500);
    assert_eq!(flipper_torque_milli(FlipperSide::Right, false), 500);
}

#[test]
fn plunger_wall_removal_takes_the_first_match_only() {
    let doc_bounds = vpinball2d::units::TableBounds {
        left: 0,
        top: 0,
        right: 2_000_000,
        bottom: 4_000_000,
    };
    let points = vec![
        vpinball2d::document::DragPoint { x: 0, y: 0, has_auto_texture: true },
        vpinball2d::document::DragPoint { x: 0, y: 1_000_000, has_auto_texture: true },
        vpinball2d::document::DragPoint { x: 1_000_000, y: 0, has_auto_texture: true },
    ];
    let make_wall = |name: &str| vpinball2d::document::WallItem {
        name: name.to_string(),
        drag_points: points.clone(),
        height_top: 80_000,
        height_bottom: 0,
        is_collidable: false,
        is_top_bottom_visible: true,
        is_side_visible: true,
        top_material: "".to_string(),
        image: "".to_string(),
        elasticity_milli: 0,
        friction_milli: 0,
    };
    let doc = vpinball2d::document::TableDocument {
        game_items: vec![
            vpinball2d::document::GameItem::Wall(make_wall("Wall15")),
            vpinball2d::document::GameItem::Wall(make_wall("Wall16")),
        ],
        materials: vec![],
        images: vec![vpinball2d::document::NamedBlob { name: "pf".to_string(), data: vec![1] }],
        sounds: vec![vpinball2d::document::NamedBlob {
            name: "fx_ballrolling0".to_string(),
            data: vec![1],
        }],
        bounds: doc_bounds,
        ball_image: "pf".to_string(),
        playfield_image: "pf".to_string(),
        backglass_image: "".to_string(),
        gravity_milli: 9_810,
    };
    let assets = vpinball2d::loader::build_vpx_asset(
        &doc,
        &vpinball2d::loader::VpxLoaderSettings::default(),
        &vec![true],
        &vec![true],
    );
    let plan = vpinball2d::level::plan_level(&doc, &assets).unwrap();
    let mut walls = plan.walls;
    assert_eq!(walls.len(), 2);
    assert!(remove_plunger_wall(&mut walls, &"Wall15".to_string()));
    assert_eq!(walls.len(), 1);
    assert_eq!(walls[0].wall.name, "Wall16".to_string());
    assert!(!remove_plunger_wall(&mut walls, &"Wall15".to_string()));
    assert_eq!(walls.len(), 1);
}
