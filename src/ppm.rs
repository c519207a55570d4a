pub mod format;
pub mod rgb;
