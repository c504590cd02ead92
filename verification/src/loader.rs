//! Table loading: the error taxonomy, the binary header gate, and the
//! one-shot construction of the resolved asset set from a table
//! document.
//!
//! Decoding of raw image and sound blobs is the caller's concern (an
//! outside codec does that work); the builder takes each blob's decode
//! outcome and isolates failures per asset: a failed blob is skipped,
//! never fatal, and later lookups of its name report it missing.

use vstd::prelude::*;
use crate::assets::AssetEntry;
use crate::assets::MeshEntry;
use crate::assets::VpxAsset;
use crate::assets::entry_listed;
use crate::assets::find_entry_spec;
use crate::assets::lemma_find_entry_listed;
use crate::document::GameItem;
use crate::document::blob_name_listed;
use crate::document::NamedBlob;
use crate::document::TableDocument;
use crate::mesh::DRAG_COORD_MAX;
use crate::mesh::mesh_from_drag_points;
use crate::mesh::mesh_matches;
use crate::triangulate::MAX_VERTICES;
use crate::units::TableBounds;

verus! {

/// A structurally malformed table file: fatal to the load, and no
/// document is produced from it.
#[derive(Clone, Copy, PartialEq, Eq, Structural, Debug)]
pub enum ParseError {
    /// The file ends before the signature is complete.
    Truncated,
    /// The file does not open with the compound-document signature.
    BadSignature,
}

/// An isolated failure to decode one named asset blob.
#[derive(Clone, Debug)]
pub struct AssetDecodeError {
    pub name: String,
}

/// A request for a named asset that the resolved set does not hold.
#[derive(Clone, Debug)]
pub struct LookupError {
    pub name: String,
}

/// Any error of the loading pipeline.
#[derive(Clone, Debug)]
pub enum VpxError {
    Parse(ParseError),
    Decode(AssetDecodeError),
    Lookup(LookupError),
}

/// Which asset kinds a load should resolve.
#[derive(Clone, Copy, PartialEq, Eq, Structural, Debug)]
pub struct VpxLoaderSettings {
    pub load_images: bool,
    pub load_sounds: bool,
    pub load_meshes: bool,
}

impl Default for VpxLoaderSettings {
    /// By default every asset kind is loaded.
    fn default() -> (r: Self)
        ensures
            r.load_images && r.load_sounds && r.load_meshes,
    {
        VpxLoaderSettings { load_images: true, load_sounds: true, load_meshes: true }
    }
}

/// Whether the bytes open with the compound-document signature every
/// table file carries.
pub open spec fn has_table_signature(b: Seq<u8>) -> bool {
    &&& b.len() >= 8
    &&& b[0] == 0xd0u8
    &&& b[1] == 0xcfu8
    &&& b[2] == 0x11u8
    &&& b[3] == 0xe0u8
    &&& b[4] == 0xa1u8
    &&& b[5] == 0xb1u8
    &&& b[6] == 0x1au8
    &&& b[7] == 0xe1u8
}

/// Gates a table load on the binary header: truncated or corrupt
/// bytes are rejected before any parsing work, so no document and no
/// partial resolution ever comes from them.
pub fn check_table_header(bytes: &Vec<u8>) -> (r: Result<(), ParseError>)
    ensures
        r is Ok <==> has_table_signature(bytes@),
        bytes@.len() < 8 ==> r == Result::<(), ParseError>::Err(ParseError::Truncated),
        bytes@.len() >= 8 && !has_table_signature(bytes@) ==> r == Result::<
            (),
            ParseError,
        >::Err(ParseError::BadSignature),
{
    if bytes.len() < 8 {
        return Err(ParseError::Truncated);
    }
    if bytes[0] == 0xd0 && bytes[1] == 0xcf && bytes[2] == 0x11 && bytes[3] == 0xe0 && bytes[4]
        == 0xa1 && bytes[5] == 0xb1 && bytes[6] == 0x1a && bytes[7] == 0xe1 {
        Ok(())
    } else {
        Err(ParseError::BadSignature)
    }
}

/// The name-to-handle bindings that resolving a blob list yields: one
/// binding per blob whose decode succeeded and whose name is not
/// empty, bound to the blob's position.
pub open spec fn resolved_entries(blobs: Seq<NamedBlob>, ok: Seq<bool>) -> Seq<AssetEntry>
    decreases blobs.len(),
{
    if blobs.len() == 0 {
        Seq::empty()
    } else {
        let rest = resolved_entries(blobs.drop_last(), ok.drop_last());
        if ok[blobs.len() - 1] && blobs.last().name@.len() > 0 {
            rest.push(AssetEntry { name: blobs.last().name, handle: (blobs.len() - 1) as u32 })
        } else {
            rest
        }
    }
}

/// The wall and rubber items of an item list, in order: the items
/// that own a generated mesh.
pub open spec fn mesh_items(items: Seq<GameItem>) -> Seq<GameItem>
    decreases items.len(),
{
    if items.len() == 0 {
        Seq::empty()
    } else {
        let rest = mesh_items(items.drop_last());
        match items.last() {
            GameItem::Wall(_) => rest.push(items.last()),
            GameItem::Rubber(_) => rest.push(items.last()),
            _ => rest,
        }
    }
}

/// What the builder promises of one stored mesh entry: the
/// deterministic path of the owning item, and a mesh generated from
/// that item's polygon at its top height.
pub open spec fn mesh_entry_matches(e: MeshEntry, item: GameItem, bounds: TableBounds) -> bool {
    match item {
        GameItem::Wall(w) => {
            &&& e.path@ == "meshes/wall/"@ + w.name@
            &&& mesh_matches(
                e.mesh,
                w.drag_points@,
                w.height_top as int,
                bounds.width_spec(),
                bounds.depth_spec(),
            )
        },
        GameItem::Rubber(rb) => {
            &&& e.path@ == "meshes/rubber/"@ + rb.name@
            &&& mesh_matches(
                e.mesh,
                rb.drag_points@,
                rb.height + rb.thickness as int / 2,
                bounds.width_spec(),
                bounds.depth_spec(),
            )
        },
        _ => false,
    }
}

/// Whether one game item's geometry is within the ranges mesh
/// generation accepts.
pub open spec fn item_geometry_ok(item: GameItem) -> bool {
    match item {
        GameItem::Wall(w) => {
            &&& w.drag_points@.len() <= MAX_VERTICES
            &&& crate::mesh::drag_points_bounded(w.drag_points@)
            &&& -DRAG_COORD_MAX <= w.height_top <= DRAG_COORD_MAX
        },
        GameItem::Rubber(rb) => {
            &&& rb.drag_points@.len() <= MAX_VERTICES
            &&& crate::mesh::drag_points_bounded(rb.drag_points@)
            &&& 0 <= rb.thickness
            &&& -DRAG_COORD_MAX <= rb.height
            &&& rb.height + rb.thickness / 2 <= DRAG_COORD_MAX
        },
        _ => true,
    }
}

/// Whether a document's bounds and item geometry are within the
/// ranges the builder accepts.
pub open spec fn doc_geometry_ok(doc: TableDocument) -> bool {
    &&& doc.bounds.well_formed()
    &&& forall|i: int|
        0 <= i < doc.game_items@.len() ==> item_geometry_ok(#[trigger] doc.game_items@[i])
}

/// Builds the resolved asset set of a table document, exactly once.
///
/// `image_ok` and `sound_ok` report, blob by blob, whether the
/// outside codec decoded it; a failed or unnamed blob yields no
/// binding, and nothing else is affected by it.  Meshes are generated
/// here for every wall and rubber item, keyed by their deterministic
/// paths.
pub fn build_vpx_asset(
    doc: &TableDocument,
    settings: &VpxLoaderSettings,
    image_ok: &Vec<bool>,
    sound_ok: &Vec<bool>,
) -> (r: VpxAsset)
    requires
        image_ok@.len() == doc.images@.len(),
        sound_ok@.len() == doc.sounds@.len(),
        doc.images@.len() <= 0xFFFF_FFFF,
        doc.sounds@.len() <= 0xFFFF_FFFF,
        doc_geometry_ok(*doc),
    ensures
        settings.load_images ==> r.images@ == resolved_entries(doc.images@, image_ok@),
        !settings.load_images ==> r.images@.len() == 0,
        settings.load_sounds ==> r.sounds@ == resolved_entries(doc.sounds@, sound_ok@),
        !settings.load_sounds ==> r.sounds@.len() == 0,
        settings.load_meshes ==> r.meshes@.len() == mesh_items(doc.game_items@).len()
            && forall|k: int|
            0 <= k < r.meshes@.len() ==> mesh_entry_matches(
                #[trigger] r.meshes@[k],
                mesh_items(doc.game_items@)[k],
                doc.bounds,
            ),
        !settings.load_meshes ==> r.meshes@.len() == 0,
{
    let images = if settings.load_images {
        resolve_blobs(&doc.images, image_ok)
    } else {
        Vec::new()
    };
    let sounds = if settings.load_sounds {
        resolve_blobs(&doc.sounds, sound_ok)
    } else {
        Vec::new()
    };
    let meshes = if settings.load_meshes {
        build_meshes(doc)
    } else {
        Vec::new()
    };
    VpxAsset { images, sounds, meshes }
}

/// Builds the name-to-handle bindings of one blob list from its
/// decode outcomes.
fn resolve_blobs(blobs: &Vec<NamedBlob>, ok: &Vec<bool>) -> (r: Vec<AssetEntry>)
    requires
        ok@.len() == blobs@.len(),
        blobs@.len() <= 0xFFFF_FFFF,
    ensures
        r@ == resolved_entries(blobs@, ok@),
{
    let n = blobs.len();
    let mut entries: Vec<AssetEntry> = Vec::new();
    let mut i: usize = 0;
    while i < n
        invariant
            n == blobs@.len(),
            n == ok@.len(),
            n <= 0xFFFF_FFFF,
            i <= n,
            entries@ == resolved_entries(blobs@.take(i as int), ok@.take(i as int)),
        decreases n - i,
    {
        let ghost pre = entries@;
        if ok[i] {
            if !blobs[i].name.as_str().is_empty() {
                entries.push(AssetEntry { name: blobs[i].name.clone(), handle: i as u32 });
            }
        }
        proof {
            let bt = blobs@.take(i as int + 1);
            let ot = ok@.take(i as int + 1);
            assert(bt.drop_last() =~= blobs@.take(i as int));
            assert(ot.drop_last() =~= ok@.take(i as int));
            assert(bt.last() == blobs@[i as int]);
            assert(ot[bt.len() - 1] == ok@[i as int]);
        }
        i += 1;
    }
    proof {
        assert(blobs@.take(n as int) =~= blobs@);
        assert(ok@.take(n as int) =~= ok@);
    }
    entries
}

/// Generates and stores the mesh of every wall and rubber item.
fn build_meshes(doc: &TableDocument) -> (r: Vec<MeshEntry>)
    requires
        doc_geometry_ok(*doc),
    ensures
        r@.len() == mesh_items(doc.game_items@).len(),
        forall|k: int|
            0 <= k < r@.len() ==> mesh_entry_matches(
                #[trigger] r@[k],
                mesh_items(doc.game_items@)[k],
                doc.bounds,
            ),
{
    let n = doc.game_items.len();
    let width = doc.bounds.width();
    let depth = doc.bounds.depth();
    let mut meshes: Vec<MeshEntry> = Vec::new();
    let mut i: usize = 0;
    while i < n
        invariant
            n == doc.game_items@.len(),
            doc_geometry_ok(*doc),
            width == doc.bounds.width_spec(),
            depth == doc.bounds.depth_spec(),
            i <= n,
            meshes@.len() == mesh_items(doc.game_items@.take(i as int)).len(),
            forall|k: int|
                0 <= k < meshes@.len() ==> mesh_entry_matches(
                    #[trigger] meshes@[k],
                    mesh_items(doc.game_items@.take(i as int))[k],
                    doc.bounds,
                ),
        decreases n - i,
    {
        let item = &doc.game_items[i];
        match item {
            GameItem::Wall(w) => {
                let path = VpxAsset::wall_mesh_sub_path(w.name.as_str());
                let mesh = mesh_from_drag_points(&w.drag_points, w.height_top, width, depth);
                meshes.push(MeshEntry { path, mesh });
            },
            GameItem::Rubber(rb) => {
                let path = VpxAsset::rubber_mesh_sub_path(rb.name.as_str());
                let top = rb.height + rb.thickness / 2;
                let mesh = mesh_from_drag_points(&rb.drag_points, top, width, depth);
                meshes.push(MeshEntry { path, mesh });
            },
            _ => {},
        }
        proof {
            let it = doc.game_items@.take(i as int + 1);
            assert(it.drop_last() =~= doc.game_items@.take(i as int));
            assert(it.last() == doc.game_items@[i as int]);
        }
        i += 1;
    }
    proof {
        assert(doc.game_items@.take(n as int) =~= doc.game_items@);
    }
    meshes
}

/// Asset-resolution completeness: when every blob decodes, every
/// non-empty name the document lists is bound in the resolved set, so
/// no lookup of a listed name can fail.
pub proof fn lemma_resolution_complete(blobs: Seq<NamedBlob>, ok: Seq<bool>, name: Seq<char>)
    requires
        ok.len() == blobs.len(),
        forall|i: int| 0 <= i < ok.len() ==> ok[i],
        name.len() > 0,
        blob_name_listed(blobs, name),
    ensures
        find_entry_spec(resolved_entries(blobs, ok), name) is Some,
    decreases blobs.len(),
{
    let i = choose|i: int| 0 <= i < blobs.len() && (#[trigger] blobs[i]).name@ == name;
    let entries = resolved_entries(blobs, ok);
    if i == blobs.len() - 1 {
        assert(entries.last().name@ == name);
        assert(entry_listed(entries, name)) by {
            assert(entries[entries.len() - 1].name@ == name);
        }
    } else {
        assert(blobs.drop_last()[i].name@ == name);
        assert(forall|k: int| 0 <= k < ok.drop_last().len() ==> ok.drop_last()[k]);
        lemma_resolution_complete(blobs.drop_last(), ok.drop_last(), name);
        lemma_find_entry_listed(resolved_entries(blobs.drop_last(), ok.drop_last()), name);
        let j = choose|j: int|
            0 <= j < resolved_entries(blobs.drop_last(), ok.drop_last()).len() && (
            #[trigger] resolved_entries(blobs.drop_last(), ok.drop_last())[j]).name@ == name;
        assert(entries[j].name@ == name);
        assert(entry_listed(entries, name));
    }
    lemma_find_entry_listed(entries, name);
}


/// The names of the blobs whose decode failed, in order: the
/// diagnostic record of a load, so no skipped asset goes unreported.
pub open spec fn failed_names(blobs: Seq<NamedBlob>, ok: Seq<bool>) -> Seq<Seq<char>>
    decreases blobs.len(),
{
    if blobs.len() == 0 {
        Seq::empty()
    } else {
        let rest = failed_names(blobs.drop_last(), ok.drop_last());
        if ok[blobs.len() - 1] {
            rest
        } else {
            rest.push(blobs.last().name@)
        }
    }
}

/// Collects the per-blob decode failures of one blob list as
/// diagnostic records, one per failed blob, in order.
pub fn decode_failures(blobs: &Vec<NamedBlob>, ok: &Vec<bool>) -> (r: Vec<AssetDecodeError>)
    requires
        ok@.len() == blobs@.len(),
    ensures
        r@.map(|_i: int, e: AssetDecodeError| e.name@) == failed_names(blobs@, ok@),
{
    let n = blobs.len();
    let mut out: Vec<AssetDecodeError> = Vec::new();
    let mut i: usize = 0;
    while i < n
        invariant
            n == blobs@.len(),
            n == ok@.len(),
            i <= n,
            out@.map(|_i: int, e: AssetDecodeError| e.name@) == failed_names(
                blobs@.take(i as int),
                ok@.take(i as int),
            ),
        decreases n - i,
    {
        if !ok[i] {
            out.push(AssetDecodeError { name: blobs[i].name.clone() });
        }
        proof {
            let bt = blobs@.take(i as int + 1);
            let ot = ok@.take(i as int + 1);
            assert(bt.drop_last() =~= blobs@.take(i as int));
            assert(ot.drop_last() =~= ok@.take(i as int));
            assert(bt.last() == blobs@[i as int]);
            assert(ot[bt.len() - 1] == ok@[i as int]);
            assert(out@.map(|_i: int, e: AssetDecodeError| e.name@) =~= failed_names(bt, ot));
        }
        i += 1;
    }
    proof {
        assert(blobs@.take(n as int) =~= blobs@);
        assert(ok@.take(n as int) =~= ok@);
    }
    out
}

/// Every wall or rubber of an item list stands in its mesh-item
/// selection.
pub proof fn lemma_mesh_items_contains(items: Seq<GameItem>, i: int)
    requires
        0 <= i < items.len(),
        items[i] is Wall || items[i] is Rubber,
    ensures
        exists|p: int|
            0 <= p < mesh_items(items).len() && #[trigger] mesh_items(items)[p] == items[i],
    decreases items.len(),
{
    let n = items.len() as int;
    if i == n - 1 {
        assert(mesh_items(items)[mesh_items(items).len() - 1] == items[i]);
    } else {
        lemma_mesh_items_contains(items.drop_last(), i);
        let p = choose|p: int|
            0 <= p < mesh_items(items.drop_last()).len() && #[trigger] mesh_items(
                items.drop_last(),
            )[p] == items.drop_last()[i];
        assert(items.drop_last()[i] == items[i]);
        assert(mesh_items(items)[p] == items[i]);
    }
}

} // verus!
