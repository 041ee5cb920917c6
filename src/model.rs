use vstd::prelude::*;

use crate::texture::{Texture, DIFFUSE_TEXTURE, SPECULAR_TEXTURE};

verus! {

/// The directory part of a path, as `std::path::Path::parent` gives it; empty
/// where the path has no parent.
pub uninterp spec fn parent_dir_of(path: Seq<char>) -> Seq<char>;

/// Relies on `std::path::Path::parent`: the path without its last component,
/// or the empty path where there is none. A path made from a `&str` is valid
/// UTF-8, so the lossy conversion back leaves it as it is.
#[verifier::external_body]
fn parent_directory(path: &str) -> (r: String)
    ensures
        r@ == parent_dir_of(path@),
{
    std::path::Path::new(path).parent().unwrap_or(std::path::Path::new("")).to_string_lossy().into_owned()
}

/// The texture files of one model, each uploaded once and then shared by every
/// mesh that uses it. Files are named relative to the model's own directory.
pub struct TextureCache {
    pub directory: String,
    pub textures_loaded: Vec<Texture>,
}

/// Whether texture `i` of `ts` is the first one read from `path`.
pub open spec fn first_with_path(ts: Seq<Texture>, path: Seq<char>, i: int) -> bool {
    &&& 0 <= i < ts.len()
    &&& ts[i].path@ == path
    &&& forall|j: int| 0 <= j < i ==> #[trigger] ts[j].path@ != path
}

impl TextureCache {
    /// No file is uploaded twice.
    pub open spec fn wf(&self) -> bool {
        forall|i: int, j: int|
            0 <= i < j < self.textures_loaded@.len() ==> #[trigger] self.textures_loaded@[i].path@
                != #[trigger] self.textures_loaded@[j].path@
    }

    /// Whether a texture read from `path` has been uploaded.
    pub open spec fn holds(&self, path: Seq<char>) -> bool {
        exists|i: int| 0 <= i < self.textures_loaded@.len() && #[trigger] self.textures_loaded@[i].path@ == path
    }

    /// An empty cache for the model read from `model_path`.
    pub fn new(model_path: &str) -> (r: TextureCache)
        ensures
            r.directory@ == parent_dir_of(model_path@),
            r.textures_loaded@.len() == 0,
            r.wf(),
    {
        TextureCache { directory: parent_directory(model_path), textures_loaded: Vec::new() }
    }

    /// The texture already uploaded from `path`, if there is one.
    pub fn find_loaded(&self, path: &str) -> (r: Option<Texture>)
        ensures
            r is Some <==> self.holds(path@),
            r matches Some(t) ==> exists|i: int|
                first_with_path(self.textures_loaded@, path@, i) && t == #[trigger] self.textures_loaded@[i],
    {
        let wanted = String::from_str(path);
        let mut i: usize = 0;
        while i < self.textures_loaded.len()
            invariant
                wanted@ == path@,
                i <= self.textures_loaded@.len(),
                forall|j: int| 0 <= j < i ==> #[trigger] self.textures_loaded@[j].path@ != path@,
            decreases self.textures_loaded@.len() - i,
        {
            let t = &self.textures_loaded[i];
            if t.path == wanted {
                let found = Texture { id: t.id, type_: t.type_.clone(), path: t.path.clone() };
                assert(first_with_path(self.textures_loaded@, path@, i as int));
                return Some(found);
            }
            i = i + 1;
        }
        None
    }

    /// The file to read the texture `path` from: `path` within the model's
    /// directory.
    pub fn texture_file_name(&self, path: &str) -> (r: String)
        ensures
            r@ == self.directory@ + seq!['/'] + path@,
    {
        proof {
            reveal_strlit("/");
        }
        let mut r = self.directory.clone();
        r.append("/");
        r.append(path);
        assert(r@ =~= self.directory@ + seq!['/'] + path@);
        r
    }

    /// Records a texture that has just been uploaded from `path` as kind
    /// `kind`, and returns it.
    pub fn record_loaded(&mut self, id: u32, kind: &str, path: &str) -> (t: Texture)
        requires
            old(self).wf(),
            !old(self).holds(path@),
        ensures
            t.id == id,
            t.type_@ == kind@,
            t.path@ == path@,
            final(self).directory == old(self).directory,
            final(self).textures_loaded@ == old(self).textures_loaded@.push(t),
            final(self).wf(),
    {
        let t = Texture { id, type_: String::from_str(kind), path: String::from_str(path) };
        let kept = Texture { id, type_: t.type_.clone(), path: t.path.clone() };
        self.textures_loaded.push(kept);
        proof {
            let ts = self.textures_loaded@;
            assert forall|i: int, j: int| 0 <= i < j < ts.len() implies #[trigger] ts[i].path@
                != #[trigger] ts[j].path@ by {
                if j == ts.len() - 1 {
                    assert(old(self).textures_loaded@[i] == ts[i]);
                }
                else {
                    assert(old(self).textures_loaded@[i] == ts[i]);
                    assert(old(self).textures_loaded@[j] == ts[j]);
                }
            }
        }
        t
    }
}

/// A texture recorded for a file that the cache did not hold is what looking
/// that file up finds from then on.
pub proof fn lemma_recorded_is_found(before: TextureCache, after: TextureCache, t: Texture)
    requires
        !before.holds(t.path@),
        after.textures_loaded@ == before.textures_loaded@.push(t),
    ensures
        after.holds(t.path@),
        forall|i: int| first_with_path(after.textures_loaded@, t.path@, i) ==> #[trigger] after.textures_loaded@[i] == t,
{
    let n = before.textures_loaded@.len() as int;
    assert(after.textures_loaded@[n] == t);
    assert forall|i: int| first_with_path(after.textures_loaded@, t.path@, i) implies #[trigger] after.textures_loaded@[i] == t by {
        if i < n {
            assert(before.textures_loaded@[i] == after.textures_loaded@[i]);
        }
    }
}

/// The texture files that a material names; an empty name stands for none.
#[derive(Clone, Debug)]
pub struct MaterialMaps {
    pub diffuse_texture: String,
    pub specular_texture: String,
}

/// A texture that a mesh needs: the file, relative to the model's directory,
/// and the kind under which the mesh samples it.
#[derive(Clone, Debug)]
pub struct TextureRequest {
    pub path: String,
    pub kind: String,
}

/// The textures of a material as (file, kind) pairs: the diffuse map first,
/// then the specular map, each only where the material names one.
pub open spec fn requests_for(m: MaterialMaps) -> Seq<(Seq<char>, Seq<char>)> {
    (if m.diffuse_texture@.len() > 0 {
        seq![(m.diffuse_texture@, DIFFUSE_TEXTURE@)]
    } else {
        Seq::empty()
    }) + (if m.specular_texture@.len() > 0 {
        seq![(m.specular_texture@, SPECULAR_TEXTURE@)]
    } else {
        Seq::empty()
    })
}

/// The (file, kind) pairs of a list of requests.
pub open spec fn request_pairs(rs: Seq<TextureRequest>) -> Seq<(Seq<char>, Seq<char>)> {
    rs.map_values(|r: TextureRequest| (r.path@, r.kind@))
}

/// The textures a mesh needs, from the material it refers to, if any.
pub fn mesh_texture_requests(material_id: Option<usize>, materials: &Vec<MaterialMaps>) -> (r: Vec<
    TextureRequest,
>)
    requires
        material_id matches Some(id) ==> id < materials@.len(),
    ensures
        request_pairs(r@) == match material_id {
            Some(id) => requests_for(materials@[id as int]),
            None => Seq::empty(),
        },
{
    let mut requests: Vec<TextureRequest> = Vec::new();
    if let Some(id) = material_id {
        let material = &materials[id];
        if !material.diffuse_texture.as_str().is_empty() {
            requests.push(
                TextureRequest {
                    path: material.diffuse_texture.clone(),
                    kind: String::from_str(DIFFUSE_TEXTURE),
                },
            );
        }
        if !material.specular_texture.as_str().is_empty() {
            requests.push(
                TextureRequest {
                    path: material.specular_texture.clone(),
                    kind: String::from_str(SPECULAR_TEXTURE),
                },
            );
        }
        assert(request_pairs(requests@) =~= requests_for(materials@[id as int]));
    } else {
        assert(request_pairs(requests@) =~= Seq::empty());
    }
    requests
}

} // verus!
