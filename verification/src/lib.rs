pub mod assets;
pub mod colour;
pub mod geometry;
pub mod materials;
pub mod ray;
pub mod rng;
pub mod scalar;
pub mod texture;
pub mod vector;
