use slugma::model::{mesh_texture_requests, MaterialMaps, TextureCache};

fn maps(diffuse: &str, specular: &str) -> MaterialMaps {
    MaterialMaps { diffuse_texture: diffuse.to_string(), specular_texture: specular.to_string() }
}

#[test]
fn cache_directory_is_model_parent() {
    let cache = TextureCache::new("models/corona.obj");
    assert_eq!(cache.directory, "models");
    assert!(cache.textures_loaded.is_empty());
}

#[test]
fn cache_directory_of_bare_file_is_empty() {
    let cache = TextureCache::new("cube.obj");
    assert_eq!(cache.directory, "");
}

#[test]
fn cache_directory_of_nested_path() {
    let cache = TextureCache::new("assets/models/backpack/backpack.obj");
    assert_eq!(cache.directory, "assets/models/backpack");
}

#[test]
fn texture_file_is_under_model_directory() {
    let cache = TextureCache::new("models/corona.obj");
    assert_eq!(cache.texture_file_name("corona.png"), "models/corona.png");
}

#[test]
fn cache_finds_recorded_texture() {
    let mut cache = TextureCache::new("models/corona.obj");
    assert!(cache.find_loaded("corona.png").is_none());
    let t = cache.record_loaded(3, "texture_diffuse", "corona.png");
    assert_eq!(t.id, 3);
    assert_eq!(t.type_, "texture_diffuse");
    assert_eq!(t.path, "corona.png");
    assert_eq!(cache.textures_loaded.len(), 1);
    let found = cache.find_loaded("corona.png").expect("recorded");
    assert_eq!(found.id, 3);
    assert_eq!(found.type_, "texture_diffuse");
    assert_eq!(found.path, "corona.png");
}

#[test]
fn cache_keeps_kind_of_first_upload() {
    let mut cache = TextureCache::new("models/corona.obj");
    cache.record_loaded(5, "texture_diffuse", "shared.png");
    cache.record_loaded(6, "texture_specular", "spec.png");
    let found = cache.find_loaded("shared.png").expect("recorded");
    assert_eq!(found.id, 5);
    assert_eq!(found.type_, "texture_diffuse");
    assert_eq!(cache.find_loaded("spec.png").expect("recorded").id, 6);
    assert!(cache.find_loaded("other.png").is_none());
}

#[test]
fn requests_without_material() {
    let materials = vec![maps("d.png", "s.png")];
    assert!(mesh_texture_requests(None, &materials).is_empty());
}

#[test]
fn requests_diffuse_then_specular() {
    let materials = vec![maps("x.png", ""), maps("d.png", "s.png")];
    let r = mesh_texture_requests(Some(1), &materials);
    assert_eq!(r.len(), 2);
    assert_eq!(r[0].path, "d.png");
    assert_eq!(r[0].kind, "texture_diffuse");
    assert_eq!(r[1].path, "s.png");
    assert_eq!(r[1].kind, "texture_specular");
}

#[test]
fn requests_skip_empty_names() {
    let materials = vec![maps("", "s.png"), maps("", "")];
    let r = mesh_texture_requests(Some(0), &materials);
    assert_eq!(r.len(), 1);
    assert_eq!(r[0].path, "s.png");
    assert_eq!(r[0].kind, "texture_specular");
    assert!(mesh_texture_requests(Some(1), &materials).is_empty());
}
