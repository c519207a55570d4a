pub mod geometry;
pub mod ppm;
