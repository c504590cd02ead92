//! Tests of the header gate and the asset-resolution builder.

use vpinball2d::assets::VpxAsset;
use vpinball2d::document::DragPoint;
use vpinball2d::document::GameItem;
use vpinball2d::document::NamedBlob;
use vpinball2d::document::TableDocument;
use vpinball2d::document::WallItem;
use vpinball2d::loader::ParseError;
use vpinball2d::loader::VpxLoaderSettings;
use vpinball2d::loader::build_vpx_asset;
use vpinball2d::loader::check_table_header;
use vpinball2d::units::TableBounds;

fn blob(name: &str) -> NamedBlob {
    NamedBlob { name: name.to_string(), data: vec![1, 2, 3] }
}

fn wall(name: &str) -> WallItem {
    WallItem {
        name: name.to_string(),
        drag_points: vec![
            DragPoint { x: 0, y: 0, has_auto_texture: true },
            DragPoint { x: 0, y: 1_000_000, has_auto_texture: true },
            DragPoint { x: 1_000_000, y: 1_000_000, has_auto_texture: true },
        ],
        height_top: 80_000,
        height_bottom: 0,
        is_collidable: true,
        is_top_bottom_visible: true,
        is_side_visible: true,
        top_material: "Metal".to_string(),
        image: "wood".to_string(),
        elasticity_milli: 300,
        friction_milli: 200,
    }
}

fn sample_doc() -> TableDocument {
    TableDocument {
        game_items: vec![GameItem::Wall(wall("Wall1")), GameItem::Other],
        materials: vec![],
        images: vec![blob("wood"), blob(""), blob("sky")],
        sounds: vec![blob("fx_ballrolling0"), blob("drain")],
        bounds: TableBounds { left: 0, top: 0, right: 2_000_000, bottom: 4_000_000 },
        ball_image: "wood".to_string(),
        playfield_image: "wood".to_string(),
        backglass_image: "".to_string(),
        gravity_milli: 9_810,
    }
}

#[test]
fn valid_header_passes_the_gate() {
    let mut bytes = vec![0xd0, 0xcf, 0x11, 0xe0, 0xa1, 0xb1, 0x1a, 0xe1];
    bytes.extend_from_slice(&[0u8; 8]);
    assert!(check_table_header(&bytes).is_ok());
}

#[test]
fn truncated_header_is_a_parse_error() {
    let bytes = vec![0xd0, 0xcf, 0x11];
    assert_eq!(check_table_header(&bytes), Err(ParseError::Truncated));
    assert_eq!(check_table_header(&vec![]), Err(ParseError::Truncated));
}

#[test]
fn corrupt_header_is_a_parse_error() {
    let bytes = vec![0xd0, 0xcf, 0x11, 0xe0, 0xa1, 0xb1, 0x1a, 0x00];
    assert_eq!(check_table_header(&bytes), Err(ParseError::BadSignature));
    let text = b"not a table file".to_vec();
    assert_eq!(check_table_header(&text), Err(ParseError::BadSignature));
}

#[test]
fn successful_decodes_resolve_under_their_names() {
    let doc = sample_doc();
    let settings = VpxLoaderSettings::default();
    let image_ok = vec![true, true, true];
    let sound_ok = vec![true, true];
    let assets = build_vpx_asset(&doc, &settings, &image_ok, &sound_ok);
    // The unnamed blob yields no binding; the named ones bind to
    // their positions in the document.
    assert_eq!(assets.images.len(), 2);
    assert_eq!(assets.find_image(&"wood".to_string()), Some(0));
    assert_eq!(assets.find_image(&"sky".to_string()), Some(2));
    assert_eq!(assets.find_sound(&"fx_ballrolling0".to_string()), Some(0));
    assert_eq!(assets.find_sound(&"drain".to_string()), Some(1));
}

#[test]
fn failed_decode_is_skipped_and_lookup_reports_it_missing() {
    let doc = sample_doc();
    let settings = VpxLoaderSettings::default();
    let image_ok = vec![false, true, true];
    let sound_ok = vec![true, false];
    let assets = build_vpx_asset(&doc, &settings, &image_ok, &sound_ok);
    assert_eq!(assets.find_image(&"wood".to_string()), None);
    assert_eq!(assets.find_image(&"sky".to_string()), Some(2));
    assert_eq!(assets.find_sound(&"drain".to_string()), None);
    // The failure is isolated: the other sound still resolves.
    assert_eq!(assets.find_sound(&"fx_ballrolling0".to_string()), Some(0));
}

#[test]
fn meshes_are_keyed_by_deterministic_paths() {
    let doc = sample_doc();
    let settings = VpxLoaderSettings::default();
    let assets = build_vpx_asset(&doc, &settings, &vec![true, true, true], &vec![true, true]);
    assert_eq!(assets.meshes.len(), 1);
    assert_eq!(assets.meshes[0].path, "meshes/wall/Wall1".to_string());
    assert_eq!(assets.find_mesh(&"meshes/wall/Wall1".to_string()), Some(0));
    assert_eq!(assets.find_mesh(&"meshes/wall/Other".to_string()), None);
    assert_eq!(assets.meshes[0].mesh.positions.len(), 3);
}

#[test]
fn switched_off_kinds_stay_empty() {
    let doc = sample_doc();
    let settings = VpxLoaderSettings { load_images: false, load_sounds: false, load_meshes: false };
    let assets = build_vpx_asset(&doc, &settings, &vec![true, true, true], &vec![true, true]);
    assert_eq!(assets.images.len(), 0);
    assert_eq!(assets.sounds.len(), 0);
    assert_eq!(assets.meshes.len(), 0);
}

#[test]
fn failed_decodes_are_reported_as_diagnostics() {
    let doc = sample_doc();
    let failures = vpinball2d::loader::decode_failures(&doc.images, &vec![false, true, false]);
    assert_eq!(failures.len(), 2);
    assert_eq!(failures[0].name, "wood".to_string());
    assert_eq!(failures[1].name, "sky".to_string());
    let none = vpinball2d::loader::decode_failures(&doc.images, &vec![true, true, true]);
    assert_eq!(none.len(), 0);
}

#[test]
fn mesh_sub_paths_are_deterministic() {
    assert_eq!(VpxAsset::wall_mesh_sub_path("Apron"), "meshes/wall/Apron".to_string());
    assert_eq!(VpxAsset::rubber_mesh_sub_path("Post1"), "meshes/rubber/Post1".to_string());
}
