use slugma::mesh::{assemble_vertices, texture_bindings};
use slugma::texture::Texture;

fn texture(id: u32, kind: &str, path: &str) -> Texture {
    Texture { id, type_: kind.to_string(), path: path.to_string() }
}

#[test]
fn bindings_number_each_kind_from_one() {
    let textures = vec![
        texture(7, "texture_diffuse", "a.png"),
        texture(9, "texture_specular", "b.png"),
        texture(4, "texture_diffuse", "c.png"),
    ];
    let bindings = texture_bindings(&textures).expect("known kinds");
    assert_eq!(bindings.len(), 3);
    assert_eq!(bindings[0].unit, 0);
    assert_eq!(bindings[0].uniform, "material.texture_diffuse1");
    assert_eq!(bindings[0].texture_id, 7);
    assert_eq!(bindings[1].unit, 1);
    assert_eq!(bindings[1].uniform, "material.texture_specular1");
    assert_eq!(bindings[1].texture_id, 9);
    assert_eq!(bindings[2].unit, 2);
    assert_eq!(bindings[2].uniform, "material.texture_diffuse2");
    assert_eq!(bindings[2].texture_id, 4);
}

#[test]
fn bindings_of_no_textures() {
    let bindings = texture_bindings(&Vec::new()).expect("nothing to refuse");
    assert!(bindings.is_empty());
}

#[test]
fn bindings_refuse_unknown_kind() {
    let textures = vec![
        texture(1, "texture_diffuse", "a.png"),
        texture(2, "texture_normal", "n.png"),
    ];
    assert!(texture_bindings(&textures).is_none());
}

#[test]
fn vertices_from_flat_arrays() {
    let positions = vec![0.0f32, 1.0, 2.0, 3.0, 4.0, 5.0];
    let normals = vec![0.0f32, 0.0, 1.0, 0.0, 1.0, 0.0];
    let tex_coords = vec![0.25f32, 0.5, 0.75, 1.0];
    let vertices = assemble_vertices(&positions, &normals, &tex_coords);
    assert_eq!(vertices.len(), 2);
    assert_eq!(vertices[0].position, [0.0, 1.0, 2.0]);
    assert_eq!(vertices[0].normal, [0.0, 0.0, 1.0]);
    assert_eq!(vertices[0].tex_coords, [0.25, 0.5]);
    assert_eq!(vertices[1].position, [3.0, 4.0, 5.0]);
    assert_eq!(vertices[1].normal, [0.0, 1.0, 0.0]);
    assert_eq!(vertices[1].tex_coords, [0.75, 1.0]);
}

#[test]
fn vertices_ignore_leftover_components() {
    let positions = vec![1u32, 2, 3, 4, 5];
    let normals = vec![6u32, 7, 8];
    let tex_coords = vec![9u32, 10];
    let vertices = assemble_vertices(&positions, &normals, &tex_coords);
    assert_eq!(vertices.len(), 1);
    assert_eq!(vertices[0].position, [1, 2, 3]);
    assert_eq!(vertices[0].normal, [6, 7, 8]);
    assert_eq!(vertices[0].tex_coords, [9, 10]);
}

#[test]
fn vertices_of_empty_mesh() {
    let empty: Vec<f32> = Vec::new();
    assert!(assemble_vertices(&empty, &empty, &empty).is_empty());
}
