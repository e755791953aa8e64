pub mod keymap;
