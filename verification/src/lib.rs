pub mod frame;
pub mod grid;
pub mod input;
pub mod render;
pub mod rules;
