pub mod color;
pub mod material;
pub mod ppm;
pub mod trace;
