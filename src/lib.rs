pub mod input;
pub mod mesh;
pub mod model;
pub mod scene;
pub mod texture;
pub mod uniform;
