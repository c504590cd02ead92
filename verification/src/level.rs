//! The level plan: one pass over a table document that turns every
//! game item into its spawn plan, together with the table frame and
//! the opening ball.
//!
//! A lookup failure of any required asset fails the whole level —
//! a level with a missing physical piece would corrupt gameplay —
//! while item kinds the simulation skips (rotated rubbers, right
//! flippers, unmodelled kinds) are simply absent from the plan.

use vstd::prelude::*;
use crate::assets::VpxAsset;
use crate::assets::find_entry_spec;
use crate::document::GameItem;
use crate::document::TableDocument;
use crate::document::blob_name_listed;
use crate::loader::VpxError;
use crate::loader::lemma_mesh_items_contains;
use crate::loader::lemma_resolution_complete;
use crate::loader::mesh_entry_matches;
use crate::loader::mesh_items;
use crate::loader::resolved_entries;
use crate::spawn::BallPlan;
use crate::spawn::BumperPlan;
use crate::spawn::FlipperPlan;
use crate::spawn::KickerPlan;
use crate::spawn::LightPlan;
use crate::spawn::PlungerPlan;
use crate::spawn::RubberPlan;
use crate::spawn::TablePlan;
use crate::spawn::TriggerPlan;
use crate::spawn::WallPlan;
use crate::spawn::ball_plan;
use crate::spawn::ball_plan_matches;
use crate::spawn::bumper_item_ok;
use crate::spawn::bumper_plan;
use crate::spawn::bumper_plan_matches;
use crate::spawn::circle_item_ok;
use crate::spawn::flipper_item_ok;
use crate::spawn::flipper_plan;
use crate::spawn::flipper_plan_matches;
use crate::spawn::kicker_plan;
use crate::spawn::kicker_plan_matches;
use crate::spawn::light_item_ok;
use crate::spawn::light_plan;
use crate::spawn::light_plan_matches;
use crate::spawn::mesh_listed;
use crate::spawn::plunger_item_ok;
use crate::spawn::plunger_plan;
use crate::spawn::plunger_plan_matches;
use crate::spawn::rubber_plan;
use crate::spawn::rubber_plan_matches;
use crate::spawn::table_plan;
use crate::spawn::table_plan_matches;
use crate::spawn::table_resolvable;
use crate::spawn::trigger_plan;
use crate::spawn::trigger_plan_matches;
use crate::spawn::wall_plan;
use crate::spawn::wall_plan_matches;
use crate::units::SimPoint;

verus! {

/// The wall items of an item list, in order.
pub open spec fn walls_of(items: Seq<GameItem>) -> Seq<crate::document::WallItem>
    decreases items.len(),
{
    if items.len() == 0 {
        Seq::empty()
    } else {
        let rest = walls_of(items.drop_last());
        match items.last() {
            GameItem::Wall(w) => rest.push(w),
            _ => rest,
        }
    }
}

/// The bumper items of an item list, in order.
pub open spec fn bumpers_of(items: Seq<GameItem>) -> Seq<crate::document::BumperItem>
    decreases items.len(),
{
    if items.len() == 0 {
        Seq::empty()
    } else {
        let rest = bumpers_of(items.drop_last());
        match items.last() {
            GameItem::Bumper(b) => rest.push(b),
            _ => rest,
        }
    }
}

/// The kicker items of an item list, in order.
pub open spec fn kickers_of(items: Seq<GameItem>) -> Seq<crate::document::KickerItem>
    decreases items.len(),
{
    if items.len() == 0 {
        Seq::empty()
    } else {
        let rest = kickers_of(items.drop_last());
        match items.last() {
            GameItem::Kicker(k) => rest.push(k),
            _ => rest,
        }
    }
}

/// The trigger items of an item list, in order.
pub open spec fn triggers_of(items: Seq<GameItem>) -> Seq<crate::document::TriggerItem>
    decreases items.len(),
{
    if items.len() == 0 {
        Seq::empty()
    } else {
        let rest = triggers_of(items.drop_last());
        match items.last() {
            GameItem::Trigger(k) => rest.push(k),
            _ => rest,
        }
    }
}

/// The light items of an item list, in order.
pub open spec fn lights_of(items: Seq<GameItem>) -> Seq<crate::document::LightItem>
    decreases items.len(),
{
    if items.len() == 0 {
        Seq::empty()
    } else {
        let rest = lights_of(items.drop_last());
        match items.last() {
            GameItem::Light(l) => rest.push(l),
            _ => rest,
        }
    }
}

/// The rubber items without rotation, in order: the ones the
/// simulation spawns.
pub open spec fn straight_rubbers_of(items: Seq<GameItem>) -> Seq<crate::document::RubberItem>
    decreases items.len(),
{
    if items.len() == 0 {
        Seq::empty()
    } else {
        let rest = straight_rubbers_of(items.drop_last());
        match items.last() {
            GameItem::Rubber(rb) => if rb.rot_x_milli == 0 && rb.rot_y_milli == 0
                && rb.rot_z_milli == 0 {
                rest.push(rb)
            } else {
                rest
            },
            _ => rest,
        }
    }
}

/// The plunger items of an item list, in order.
pub open spec fn plungers_of(items: Seq<GameItem>) -> Seq<crate::document::PlungerItem>
    decreases items.len(),
{
    if items.len() == 0 {
        Seq::empty()
    } else {
        let rest = plungers_of(items.drop_last());
        match items.last() {
            GameItem::Plunger(p) => rest.push(p),
            _ => rest,
        }
    }
}

/// The flipper items with a left orientation, in order: the ones the
/// simulation spawns.
pub open spec fn left_flippers_of(items: Seq<GameItem>) -> Seq<crate::document::FlipperItem>
    decreases items.len(),
{
    if items.len() == 0 {
        Seq::empty()
    } else {
        let rest = left_flippers_of(items.drop_last());
        match items.last() {
            GameItem::Flipper(f) => if f.start_angle_mdeg > f.end_angle_mdeg {
                rest.push(f)
            } else {
                rest
            },
            _ => rest,
        }
    }
}

/// Whether every mesh-bearing item of the list has its mesh in the
/// resolved set.
pub open spec fn items_resolvable(items: Seq<GameItem>, a: VpxAsset) -> bool {
    forall|i: int|
        0 <= i < items.len() ==> match #[trigger] items[i] {
            GameItem::Wall(w) => mesh_listed(a, "meshes/wall/"@ + w.name@),
            GameItem::Rubber(rb) => rb.rot_x_milli == 0 && rb.rot_y_milli == 0 && rb.rot_z_milli
                == 0 ==> mesh_listed(a, "meshes/rubber/"@ + rb.name@),
            _ => true,
        }
}

/// Whether every asset the level needs resolves: each wall and
/// rubber mesh, the playfield and backglass images, the ball image
/// and the rolling sound.
pub open spec fn level_resolvable(doc: TableDocument, a: VpxAsset) -> bool {
    &&& items_resolvable(doc.game_items@, a)
    &&& table_resolvable(doc, a)
    &&& find_entry_spec(a.images@, doc.ball_image@) is Some
    &&& find_entry_spec(a.sounds@, "fx_ballrolling0"@) is Some
}

/// Whether one game item's fields are within the ranges its spawner
/// accepts.
pub open spec fn item_spawnable(item: GameItem) -> bool {
    match item {
        GameItem::Wall(_) => true,
        GameItem::Bumper(b) => bumper_item_ok(b),
        GameItem::Kicker(k) => circle_item_ok(k.center, k.radius as int),
        GameItem::Trigger(k) => circle_item_ok(k.center, k.radius as int),
        GameItem::Light(l) => light_item_ok(l),
        GameItem::Rubber(_) => true,
        GameItem::Plunger(p) => plunger_item_ok(p),
        GameItem::Flipper(f) => flipper_item_ok(f),
        GameItem::Other => true,
    }
}

/// Whether a document is within the ranges level planning accepts.
pub open spec fn doc_spawnable(doc: TableDocument) -> bool {
    &&& doc.bounds.well_formed()
    &&& forall|i: int| 0 <= i < doc.game_items@.len() ==> item_spawnable(#[trigger] doc.game_items@[i])
}

/// The complete spawn plan of one level.
#[derive(Clone, Debug)]
pub struct LevelPlan {
    pub table: TablePlan,
    pub ball: BallPlan,
    pub walls: Vec<WallPlan>,
    pub bumpers: Vec<BumperPlan>,
    pub kickers: Vec<KickerPlan>,
    pub triggers: Vec<TriggerPlan>,
    pub lights: Vec<LightPlan>,
    pub rubbers: Vec<RubberPlan>,
    pub plungers: Vec<PlungerPlan>,
    pub flippers: Vec<FlipperPlan>,
}

/// Plans the whole level: the table frame, the opening ball (identity
/// zero at the origin), and one plan per modelled game item, in
/// document order.  Any missing required asset fails the whole level
/// with a lookup error.
pub fn plan_level(doc: &TableDocument, assets: &VpxAsset) -> (r: Result<LevelPlan, VpxError>)
    requires
        doc_spawnable(*doc),
        forall|k: int|
            0 <= k < assets.meshes@.len() ==> (#[trigger] assets.meshes@[k]).mesh.positions@.len()
                >= 1,
    ensures
        r is Ok <==> level_resolvable(*doc, *assets),
        match r {
            Ok(plan) => {
                let items = doc.game_items@;
                &&& table_plan_matches(plan.table, *doc, *assets)
                &&& ball_plan_matches(plan.ball, 0, SimPoint { x: 0, y: 0 }, doc.ball_image@, *assets)
                &&& plan.walls@.len() == walls_of(items).len()
                &&& forall|k: int|
                    0 <= k < plan.walls@.len() ==> wall_plan_matches(
                        #[trigger] plan.walls@[k],
                        walls_of(items)[k],
                        *assets,
                        doc.materials@,
                        doc.bounds,
                    )
                &&& plan.bumpers@.len() == bumpers_of(items).len()
                &&& forall|k: int|
                    0 <= k < plan.bumpers@.len() ==> bumper_plan_matches(
                        #[trigger] plan.bumpers@[k],
                        bumpers_of(items)[k],
                        doc.bounds,
                        doc.materials@,
                    )
                &&& plan.kickers@.len() == kickers_of(items).len()
                &&& forall|k: int|
                    0 <= k < plan.kickers@.len() ==> kicker_plan_matches(
                        #[trigger] plan.kickers@[k],
                        kickers_of(items)[k],
                        doc.bounds,
                    )
                &&& plan.triggers@.len() == triggers_of(items).len()
                &&& forall|k: int|
                    0 <= k < plan.triggers@.len() ==> trigger_plan_matches(
                        #[trigger] plan.triggers@[k],
                        triggers_of(items)[k],
                        doc.bounds,
                    )
                &&& plan.lights@.len() == lights_of(items).len()
                &&& forall|k: int|
                    0 <= k < plan.lights@.len() ==> light_plan_matches(
                        #[trigger] plan.lights@[k],
                        lights_of(items)[k],
                        doc.bounds,
                    )
                &&& plan.rubbers@.len() == straight_rubbers_of(items).len()
                &&& forall|k: int|
                    0 <= k < plan.rubbers@.len() ==> rubber_plan_matches(
                        #[trigger] plan.rubbers@[k],
                        straight_rubbers_of(items)[k],
                        *assets,
                        doc.bounds,
                    )
                &&& plan.plungers@.len() == plungers_of(items).len()
                &&& forall|k: int|
                    0 <= k < plan.plungers@.len() ==> plunger_plan_matches(
                        #[trigger] plan.plungers@[k],
                        plungers_of(items)[k],
                        doc.bounds,
                    )
                &&& plan.flippers@.len() == left_flippers_of(items).len()
                &&& forall|k: int|
                    0 <= k < plan.flippers@.len() ==> flipper_plan_matches(
                        #[trigger] plan.flippers@[k],
                        left_flippers_of(items)[k],
                        doc.bounds,
                    )
            },
            Err(e) => e is Lookup,
        },
{
    let table = match table_plan(doc, assets) {
        Ok(t) => t,
        Err(e) => {
            return Err(VpxError::Lookup(e));
        },
    };
    let ball = match ball_plan(0, SimPoint { x: 0, y: 0 }, &doc.ball_image, assets) {
        Ok(b) => b,
        Err(e) => {
            return Err(VpxError::Lookup(e));
        },
    };
    let n = doc.game_items.len();
    let mut walls: Vec<WallPlan> = Vec::new();
    let mut bumpers: Vec<BumperPlan> = Vec::new();
    let mut kickers: Vec<KickerPlan> = Vec::new();
    let mut triggers: Vec<TriggerPlan> = Vec::new();
    let mut lights: Vec<LightPlan> = Vec::new();
    let mut rubbers: Vec<RubberPlan> = Vec::new();
    let mut plungers: Vec<PlungerPlan> = Vec::new();
    let mut flippers: Vec<FlipperPlan> = Vec::new();
    let mut i: usize = 0;
    while i < n
        invariant
            n == doc.game_items@.len(),
            doc_spawnable(*doc),
            forall|k: int|
                0 <= k < assets.meshes@.len() ==> (
                #[trigger] assets.meshes@[k]).mesh.positions@.len() >= 1,
            i <= n,
            items_resolvable(doc.game_items@.take(i as int), *assets),
            walls@.len() == walls_of(doc.game_items@.take(i as int)).len(),
            forall|k: int|
                0 <= k < walls@.len() ==> wall_plan_matches(
                    #[trigger] walls@[k],
                    walls_of(doc.game_items@.take(i as int))[k],
                    *assets,
                    doc.materials@,
                    doc.bounds,
                ),
            bumpers@.len() == bumpers_of(doc.game_items@.take(i as int)).len(),
            forall|k: int|
                0 <= k < bumpers@.len() ==> bumper_plan_matches(
                    #[trigger] bumpers@[k],
                    bumpers_of(doc.game_items@.take(i as int))[k],
                    doc.bounds,
                    doc.materials@,
                ),
            kickers@.len() == kickers_of(doc.game_items@.take(i as int)).len(),
            forall|k: int|
                0 <= k < kickers@.len() ==> kicker_plan_matches(
                    #[trigger] kickers@[k],
                    kickers_of(doc.game_items@.take(i as int))[k],
                    doc.bounds,
                ),
            triggers@.len() == triggers_of(doc.game_items@.take(i as int)).len(),
            forall|k: int|
                0 <= k < triggers@.len() ==> trigger_plan_matches(
                    #[trigger] triggers@[k],
                    triggers_of(doc.game_items@.take(i as int))[k],
                    doc.bounds,
                ),
            lights@.len() == lights_of(doc.game_items@.take(i as int)).len(),
            forall|k: int|
                0 <= k < lights@.len() ==> light_plan_matches(
                    #[trigger] lights@[k],
                    lights_of(doc.game_items@.take(i as int))[k],
                    doc.bounds,
                ),
            rubbers@.len() == straight_rubbers_of(doc.game_items@.take(i as int)).len(),
            forall|k: int|
                0 <= k < rubbers@.len() ==> rubber_plan_matches(
                    #[trigger] rubbers@[k],
                    straight_rubbers_of(doc.game_items@.take(i as int))[k],
                    *assets,
                    doc.bounds,
                ),
            plungers@.len() == plungers_of(doc.game_items@.take(i as int)).len(),
            forall|k: int|
                0 <= k < plungers@.len() ==> plunger_plan_matches(
                    #[trigger] plungers@[k],
                    plungers_of(doc.game_items@.take(i as int))[k],
                    doc.bounds,
                ),
            flippers@.len() == left_flippers_of(doc.game_items@.take(i as int)).len(),
            forall|k: int|
                0 <= k < flippers@.len() ==> flipper_plan_matches(
                    #[trigger] flippers@[k],
                    left_flippers_of(doc.game_items@.take(i as int))[k],
                    doc.bounds,
                ),
        decreases n - i,
    {
        let ghost items_pre = doc.game_items@.take(i as int);
        let item = &doc.game_items[i];
        proof {
            assert(item_spawnable(doc.game_items@[i as int]));
        }
        match item {
            GameItem::Wall(w) => {
                match wall_plan(w, assets, &doc.materials, &doc.bounds) {
                    Ok(p) => walls.push(p),
                    Err(e) => {
                        proof {
                            assert(!items_resolvable(doc.game_items@, *assets));
                        }
                        return Err(VpxError::Lookup(e));
                    },
                }
            },
            GameItem::Bumper(b) => {
                bumpers.push(bumper_plan(b, &doc.bounds, &doc.materials));
            },
            GameItem::Kicker(k) => {
                kickers.push(kicker_plan(k, &doc.bounds));
            },
            GameItem::Trigger(k) => {
                triggers.push(trigger_plan(k, &doc.bounds));
            },
            GameItem::Light(l) => {
                lights.push(light_plan(l, &doc.bounds));
            },
            GameItem::Rubber(rb) => {
                match rubber_plan(rb, assets, &doc.bounds) {
                    Ok(Some(p)) => rubbers.push(p),
                    Ok(None) => {},
                    Err(e) => {
                        proof {
                            assert(!items_resolvable(doc.game_items@, *assets));
                        }
                        return Err(VpxError::Lookup(e));
                    },
                }
            },
            GameItem::Plunger(p) => {
                plungers.push(plunger_plan(p, &doc.bounds));
            },
            GameItem::Flipper(f) => {
                match flipper_plan(f, &doc.bounds) {
                    Some(p) => flippers.push(p),
                    None => {},
                }
            },
            GameItem::Other => {},
        }
        proof {
            let it = doc.game_items@.take(i as int + 1);
            assert(it.drop_last() =~= items_pre);
            assert(it.last() == doc.game_items@[i as int]);
            assert forall|q: int| 0 <= q < it.len() implies match #[trigger] it[q] {
                GameItem::Wall(w) => mesh_listed(*assets, "meshes/wall/"@ + w.name@),
                GameItem::Rubber(rb) => rb.rot_x_milli == 0 && rb.rot_y_milli == 0
                    && rb.rot_z_milli == 0 ==> mesh_listed(*assets, "meshes/rubber/"@ + rb.name@),
                _ => true,
            } by {
                if q < i as int {
                    assert(items_pre[q] == it[q]);
                    assert(items_resolvable(items_pre, *assets));
                }
            }
        }
        i += 1;
    }
    proof {
        assert(doc.game_items@.take(n as int) =~= doc.game_items@);
    }
    Ok(
        LevelPlan {
            table,
            ball,
            walls,
            bumpers,
            kickers,
            triggers,
            lights,
            rubbers,
            plungers,
            flippers,
        },
    )
}


/// Asset-resolution completeness for a whole document: when every
/// image and sound blob decodes, and every name the document's own
/// fields reference is listed among its blobs, then every asset the
/// level needs — each wall and rubber mesh, the playfield and
/// backglass images, the ball image and the rolling sound — is
/// present in the resolved set, so planning the level cannot fail a
/// lookup.  The hypotheses on `a` are exactly what building the
/// resolved set from the document establishes.
pub proof fn lemma_level_resolution_complete(
    doc: TableDocument,
    a: VpxAsset,
    image_ok: Seq<bool>,
    sound_ok: Seq<bool>,
)
    requires
        image_ok.len() == doc.images@.len(),
        sound_ok.len() == doc.sounds@.len(),
        forall|i: int| 0 <= i < image_ok.len() ==> image_ok[i],
        forall|i: int| 0 <= i < sound_ok.len() ==> sound_ok[i],
        a.images@ == resolved_entries(doc.images@, image_ok),
        a.sounds@ == resolved_entries(doc.sounds@, sound_ok),
        a.meshes@.len() == mesh_items(doc.game_items@).len(),
        forall|k: int|
            0 <= k < a.meshes@.len() ==> mesh_entry_matches(
                #[trigger] a.meshes@[k],
                mesh_items(doc.game_items@)[k],
                doc.bounds,
            ),
        doc.ball_image@.len() > 0,
        blob_name_listed(doc.images@, doc.ball_image@),
        doc.playfield_image@.len() > 0,
        blob_name_listed(doc.images@, doc.playfield_image@),
        doc.backglass_image@.len() > 0 ==> blob_name_listed(doc.images@, doc.backglass_image@),
        blob_name_listed(doc.sounds@, "fx_ballrolling0"@),
    ensures
        level_resolvable(doc, a),
{
    lemma_resolution_complete(doc.images@, image_ok, doc.ball_image@);
    lemma_resolution_complete(doc.images@, image_ok, doc.playfield_image@);
    if doc.backglass_image@.len() > 0 {
        lemma_resolution_complete(doc.images@, image_ok, doc.backglass_image@);
    }
    assert("fx_ballrolling0"@.len() > 0) by {
        reveal_strlit("fx_ballrolling0");
    }
    lemma_resolution_complete(doc.sounds@, sound_ok, "fx_ballrolling0"@);
    let items = doc.game_items@;
    assert forall|i: int| 0 <= i < items.len() implies match #[trigger] items[i] {
        GameItem::Wall(w) => mesh_listed(a, "meshes/wall/"@ + w.name@),
        GameItem::Rubber(rb) => rb.rot_x_milli == 0 && rb.rot_y_milli == 0 && rb.rot_z_milli == 0
            ==> mesh_listed(a, "meshes/rubber/"@ + rb.name@),
        _ => true,
    } by {
        match items[i] {
            GameItem::Wall(w) => {
                lemma_mesh_items_contains(items, i);
                let p = choose|p: int|
                    0 <= p < mesh_items(items).len() && #[trigger] mesh_items(items)[p]
                        == items[i];
                assert(mesh_entry_matches(a.meshes@[p], mesh_items(items)[p], doc.bounds));
                assert(a.meshes@[p].path@ == "meshes/wall/"@ + w.name@);
            },
            GameItem::Rubber(rb) => {
                lemma_mesh_items_contains(items, i);
                let p = choose|p: int|
                    0 <= p < mesh_items(items).len() && #[trigger] mesh_items(items)[p]
                        == items[i];
                assert(mesh_entry_matches(a.meshes@[p], mesh_items(items)[p], doc.bounds));
                assert(a.meshes@[p].path@ == "meshes/rubber/"@ + rb.name@);
            },
            _ => {},
        }
    }
}

} // verus!
