//! The resolved asset set of a loaded table: name-keyed images,
//! sounds and generated meshes, built once at load time and read-only
//! afterwards.
//!
//! Images and sounds resolve to small-integer handles (the asset's
//! position in the table document); meshes are owned here, keyed by a
//! deterministic path derived from the owning item's unique name.

use vstd::prelude::*;
use vstd::string::StringExecFns;
use crate::mesh::GeneratedMesh;

verus! {

/// One name-to-handle binding in the resolved asset set.
#[derive(Clone, Debug)]
pub struct AssetEntry {
    pub name: String,
    pub handle: u32,
}

/// One generated mesh, keyed by its deterministic path.
#[derive(Clone, Debug)]
pub struct MeshEntry {
    pub path: String,
    pub mesh: GeneratedMesh,
}

/// The resolved assets of one loaded table.
#[derive(Clone, Debug)]
pub struct VpxAsset {
    pub images: Vec<AssetEntry>,
    pub sounds: Vec<AssetEntry>,
    pub meshes: Vec<MeshEntry>,
}

impl VpxAsset {
    /// The deterministic mesh key of the wall with the given name.
    pub fn wall_mesh_sub_path(name: &str) -> (r: String)
        ensures
            r@ == "meshes/wall/"@ + name@,
    {
        let mut s = "meshes/wall/".to_owned();
        s.append(name);
        s
    }

    /// The deterministic mesh key of the rubber with the given name.
    pub fn rubber_mesh_sub_path(name: &str) -> (r: String)
        ensures
            r@ == "meshes/rubber/"@ + name@,
    {
        let mut s = "meshes/rubber/".to_owned();
        s.append(name);
        s
    }

    /// Finds the handle bound to the given image name: the first
    /// binding with that name, or nothing when the name is unbound.
    pub fn find_image(&self, name: &String) -> (r: Option<u32>)
        ensures
            r == find_entry_spec(self.images@, name@),
    {
        find_entry(&self.images, name)
    }

    /// Finds the handle bound to the given sound name.
    pub fn find_sound(&self, name: &String) -> (r: Option<u32>)
        ensures
            r == find_entry_spec(self.sounds@, name@),
    {
        find_entry(&self.sounds, name)
    }

    /// Finds the generated mesh stored under the given path, as its
    /// position in the mesh list.
    pub fn find_mesh(&self, path: &String) -> (r: Option<usize>)
        ensures
            match r {
                Some(i) => {
                    &&& i < self.meshes@.len()
                    &&& self.meshes@[i as int].path@ == path@
                    &&& forall|q: int|
                        0 <= q < i ==> (#[trigger] self.meshes@[q]).path@ != path@
                },
                None => forall|q: int|
                    0 <= q < self.meshes@.len() ==> (#[trigger] self.meshes@[q]).path@ != path@,
            },
    {
        let n = self.meshes.len();
        let mut i: usize = 0;
        while i < n
            invariant
                n == self.meshes@.len(),
                i <= n,
                forall|q: int| 0 <= q < i ==> (#[trigger] self.meshes@[q]).path@ != path@,
            decreases n - i,
        {
            if self.meshes[i].path == *path {
                return Some(i);
            }
            i += 1;
        }
        None
    }
}

/// The handle the first binding with the given name carries, if any.
pub open spec fn find_entry_spec(entries: Seq<AssetEntry>, name: Seq<char>) -> Option<u32>
    decreases entries.len(),
{
    if entries.len() == 0 {
        None
    } else if entries[0].name@ == name {
        Some(entries[0].handle)
    } else {
        find_entry_spec(entries.drop_first(), name)
    }
}

/// Whether some binding in the list carries the given name.
pub open spec fn entry_listed(entries: Seq<AssetEntry>, name: Seq<char>) -> bool {
    exists|i: int| 0 <= i < entries.len() && (#[trigger] entries[i]).name@ == name
}

/// A name is bound exactly when it is listed.
pub proof fn lemma_find_entry_listed(entries: Seq<AssetEntry>, name: Seq<char>)
    ensures
        find_entry_spec(entries, name) is Some <==> entry_listed(entries, name),
    decreases entries.len(),
{
    if entries.len() > 0 {
        if entries[0].name@ == name {
        } else {
            lemma_find_entry_listed(entries.drop_first(), name);
            if entry_listed(entries.drop_first(), name) {
                let i = choose|i: int|
                    0 <= i < entries.drop_first().len() && (#[trigger] entries.drop_first()[i]).name@
                        == name;
                assert(entries[i + 1].name@ == name);
            } else if entry_listed(entries, name) {
                let i = choose|i: int|
                    0 <= i < entries.len() && (#[trigger] entries[i]).name@ == name;
                assert(i > 0);
                assert(entries.drop_first()[i - 1].name@ == name);
            }
        }
    }
}

/// Finds the first binding with the given name in an entry list.
fn find_entry(entries: &Vec<AssetEntry>, name: &String) -> (r: Option<u32>)
    ensures
        r == find_entry_spec(entries@, name@),
{
    let n = entries.len();
    let mut i: usize = 0;
    proof {
        assert(entries@.skip(0) =~= entries@);
    }
    while i < n
        invariant
            n == entries@.len(),
            i <= n,
            find_entry_spec(entries@, name@) == find_entry_spec(entries@.skip(i as int), name@),
            forall|q: int| 0 <= q < i ==> (#[trigger] entries@[q]).name@ != name@,
        decreases n - i,
    {
        if entries[i].name == *name {
            proof {
                assert(entries@.skip(i as int)[0] == entries@[i as int]);
            }
            return Some(entries[i].handle);
        }
        proof {
            assert(entries@.skip(i as int).drop_first() =~= entries@.skip(i as int + 1));
            assert(entries@.skip(i as int)[0] == entries@[i as int]);
        }
        i += 1;
    }
    proof {
        assert(entries@.skip(n as int).len() == 0);
    }
    None
}

} // verus!
