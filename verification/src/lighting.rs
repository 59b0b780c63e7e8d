pub mod light_mesh;
