pub mod renderer;
pub mod editor_panel;
pub mod widget;
