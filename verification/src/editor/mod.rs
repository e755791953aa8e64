pub mod buf;
pub mod ui;
pub mod editor;
pub mod renderer;
