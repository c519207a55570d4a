pub mod vector;
pub mod matrix;
