use vstd::prelude::*;

use crate::texture::{Texture, DIFFUSE_TEXTURE, SPECULAR_TEXTURE, is_known_kind, lemma_kinds_differ};
use crate::uniform::{material_uniform, material_uniform_name};

verus! {

/// One vertex of a mesh: where it is, which way its surface faces, and where
/// it samples its textures. `T` is the scalar type of the coordinates.
#[derive(Clone, Copy, Debug)]
pub struct Vertex<T> {
    pub position: [T; 3],
    pub normal: [T; 3],
    pub tex_coords: [T; 2],
}

/// How one texture of a mesh is bound for a draw: the texture unit it goes
/// to, the sampler uniform that is pointed at that unit, and the texture.
#[derive(Clone, Debug)]
pub struct TextureBinding {
    pub unit: u32,
    pub uniform: String,
    pub texture_id: u32,
}

/// Whether `v` is vertex `i` of the flat attribute arrays `p` (positions), `n`
/// (normals) and `t` (texture coordinates): three positions and three normal
/// components, and two texture coordinates, per vertex.
pub open spec fn is_vertex_of<T>(v: Vertex<T>, p: Seq<T>, n: Seq<T>, t: Seq<T>, i: int) -> bool {
    &&& v.position@ == p.subrange(3 * i, 3 * i + 3)
    &&& v.normal@ == n.subrange(3 * i, 3 * i + 3)
    &&& v.tex_coords@ == t.subrange(2 * i, 2 * i + 2)
}

/// Groups the flat attribute arrays of a loaded mesh into vertices. There is
/// one vertex for every three position components; components left over at
/// the end of `positions` are ignored.
pub fn assemble_vertices<T: Copy>(positions: &Vec<T>, normals: &Vec<T>, tex_coords: &Vec<T>) -> (r:
    Vec<Vertex<T>>)
    requires
        normals@.len() >= 3 * (positions@.len() / 3),
        tex_coords@.len() >= 2 * (positions@.len() / 3),
    ensures
        r@.len() == positions@.len() / 3,
        forall|i: int|
            0 <= i < r@.len() ==> is_vertex_of(#[trigger] r@[i], positions@, normals@, tex_coords@, i),
{
    let len = positions.len();
    let count = len / 3;
    assert(3 * count <= positions@.len()) by (nonlinear_arith)
        requires
            count == positions@.len() / 3,
    ;
    let mut vertices: Vec<Vertex<T>> = Vec::with_capacity(count);
    let mut i: usize = 0;
    while i < count
        invariant
            count == positions@.len() / 3,
            3 * count <= positions@.len() <= usize::MAX,
            normals@.len() >= 3 * count,
            tex_coords@.len() >= 2 * count,
            i <= count,
            vertices@.len() == i,
            forall|j: int|
                0 <= j < i ==> is_vertex_of(
                    #[trigger] vertices@[j],
                    positions@,
                    normals@,
                    tex_coords@,
                    j,
                ),
        decreases count - i,
    {
        assert(3 * i + 3 <= 3 * count && 2 * i + 2 <= 2 * count) by (nonlinear_arith)
            requires
                i < count,
        ;
        let a = 3 * i;
        let b = 2 * i;
        let v = Vertex {
            position: [positions[a], positions[a + 1], positions[a + 2]],
            normal: [normals[a], normals[a + 1], normals[a + 2]],
            tex_coords: [tex_coords[b], tex_coords[b + 1]],
        };
        assert(v.position@ =~= positions@.subrange(3 * i, 3 * i + 3));
        assert(v.normal@ =~= normals@.subrange(3 * i, 3 * i + 3));
        assert(v.tex_coords@ =~= tex_coords@.subrange(2 * i, 2 * i + 2));
        vertices.push(v);
        i = i + 1;
    }
    vertices
}

/// How many textures of `ts` are of the given kind.
pub open spec fn count_kind(ts: Seq<Texture>, kind: Seq<char>) -> nat
    decreases ts.len(),
{
    if ts.len() == 0 {
        0
    } else {
        count_kind(ts.drop_last(), kind) + (if ts.last().type_@ == kind {
            1nat
        } else {
            0nat
        })
    }
}

/// The sampler uniform of the `i`-th texture of a mesh: textures of each kind
/// are numbered from 1 in the order in which the mesh lists them, so that the
/// second diffuse texture is sampled through `material.texture_diffuse2`.
pub open spec fn binding_uniform(ts: Seq<Texture>, i: int) -> Seq<char> {
    material_uniform(ts[i].type_@, count_kind(ts.take(i + 1), ts[i].type_@))
}

/// Whether `bs` binds each texture of `ts` to the unit of its position, under
/// the sampler uniform that its kind and number give.
pub open spec fn binds_all(ts: Seq<Texture>, bs: Seq<TextureBinding>) -> bool {
    &&& bs.len() == ts.len()
    &&& forall|j: int|
        #![trigger bs[j]]
        0 <= j < ts.len() ==> {
            &&& bs[j].unit == j
            &&& bs[j].texture_id == ts[j].id
            &&& bs[j].uniform@ == binding_uniform(ts, j)
        }
}

proof fn lemma_count_kind_bound(ts: Seq<Texture>, kind: Seq<char>)
    ensures
        count_kind(ts, kind) <= ts.len(),
    decreases ts.len(),
{
    if ts.len() > 0 {
        lemma_count_kind_bound(ts.drop_last(), kind);
    }
}

/// Plans how the textures of a mesh are bound before it is drawn. `None` where
/// a texture is of a kind that materials do not sample.
pub fn texture_bindings(textures: &Vec<Texture>) -> (r: Option<Vec<TextureBinding>>)
    requires
        textures@.len() <= i32::MAX,
    ensures
        r is Some <==> forall|j: int| 0 <= j < textures@.len() ==> is_known_kind(
            #[trigger] textures@[j].type_@,
        ),
        r matches Some(bs) ==> binds_all(textures@, bs@),
{
    let ghost ts = textures@;
    let diffuse = String::from_str(DIFFUSE_TEXTURE);
    let specular = String::from_str(SPECULAR_TEXTURE);
    let mut diffuse_n: u32 = 0;
    let mut specular_n: u32 = 0;
    let mut bindings: Vec<TextureBinding> = Vec::new();
    let mut i: usize = 0;
    while i < textures.len()
        invariant
            ts == textures@,
            ts.len() <= i32::MAX,
            diffuse@ == DIFFUSE_TEXTURE@,
            specular@ == SPECULAR_TEXTURE@,
            i <= ts.len(),
            diffuse_n == count_kind(ts.take(i as int), DIFFUSE_TEXTURE@),
            specular_n == count_kind(ts.take(i as int), SPECULAR_TEXTURE@),
            forall|j: int| 0 <= j < i ==> is_known_kind(#[trigger] ts[j].type_@),
            bindings@.len() == i,
            forall|j: int|
                #![trigger bindings@[j]]
                0 <= j < i ==> {
                    &&& bindings@[j].unit == j
                    &&& bindings@[j].texture_id == ts[j].id
                    &&& bindings@[j].uniform@ == binding_uniform(ts, j)
                },
        decreases ts.len() - i,
    {
        let texture = &textures[i];
        proof {
            assert(ts.take(i + 1).drop_last() =~= ts.take(i as int));
            assert(ts.take(i + 1).last() == ts[i as int]);
            lemma_count_kind_bound(ts.take(i as int), DIFFUSE_TEXTURE@);
            lemma_count_kind_bound(ts.take(i as int), SPECULAR_TEXTURE@);
            lemma_kinds_differ();
        }
        let number: u32;
        if texture.type_ == diffuse {
            diffuse_n = diffuse_n + 1;
            number = diffuse_n;
        } else if texture.type_ == specular {
            specular_n = specular_n + 1;
            number = specular_n;
        } else {
            return None;
        }
        let uniform = material_uniform_name(texture.type_.as_str(), number);
        bindings.push(TextureBinding { unit: i as u32, uniform, texture_id: texture.id });
        i = i + 1;
    }
    assert(ts.take(ts.len() as int) =~= ts);
    Some(bindings)
}

} // verus!
