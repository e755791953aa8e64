pub mod code_buf;
pub mod scroll;
pub mod cursor;
pub mod history;
pub mod buf;
pub mod manager;
pub mod limits;
