pub mod archive;
pub mod data;
pub mod font;
pub mod input;
pub mod main_loop;
pub mod meta;
pub mod network;
pub mod sound;
pub mod texture;
pub mod window;
