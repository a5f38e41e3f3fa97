pub mod input;
pub mod video;
