pub mod highlight;
pub mod langs;
pub mod language_support;
