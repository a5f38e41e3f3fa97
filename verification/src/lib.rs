pub mod app;
pub mod engine;
pub mod engine_macro;
pub mod general;
pub mod module;
pub mod script;
pub mod system;
pub mod text;
