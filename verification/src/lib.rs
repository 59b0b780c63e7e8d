mod arrays;
pub mod asset;
pub mod camera;
pub mod config;
pub mod error;
pub mod input_manager;
pub mod lighting;
pub mod tilemap;
pub mod world_material;
