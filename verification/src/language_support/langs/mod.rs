pub mod css;
pub mod html;
pub mod markdown;
pub mod commit_message;
