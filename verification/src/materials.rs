//! Surface materials.

pub mod lambertian;

pub use lambertian::Lambertian;
