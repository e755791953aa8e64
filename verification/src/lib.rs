pub mod vec2;
pub mod text;
pub mod clipboard;
pub mod wide_string;
pub mod mode;
pub mod key;
pub mod action;
pub mod event;
pub mod key_config;
pub mod editor;
pub mod file_type;
pub mod language_support;
pub mod ui;
pub mod app;
pub mod api;
pub mod plugin;
pub mod component;
pub mod command;
