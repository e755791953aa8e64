use vstd::prelude::*;

use crate::api::Tokenizer;
use crate::language_support::highlight::{Color, ToColor};

verus! {

/// A plugin the editor loads.
pub trait Plugin {
    /// The plugin's name.
    fn get_name(&self) -> &'static str;
}

/// The plugin for HTML.
pub struct HTMLPlugin {}

impl HTMLPlugin {
    pub fn new() -> (r: Self) {
        HTMLPlugin {}
    }
}

impl Plugin for HTMLPlugin {
    fn get_name(&self) -> (r: &'static str)
        ensures
            r@ == "HTML Plugin"@,
    {
        "HTML Plugin"
    }
}

/// An HTML token; no kinds are told apart yet. (An enum without variants, which would
/// have no value at all, is not a datatype Verus accepts.)
pub struct Token {}

impl ToColor for Token {
    open spec fn color_of(self) -> Color {
        Color::Blue
    }

    fn to_color(self) -> (r: Color) {
        Color::Blue
    }
}

/// The tokenizer of HTML; it gives no tokens yet.
pub struct HTMLTokenizer {}

impl Tokenizer<Token> for HTMLTokenizer {
    fn tokenize() -> (r: Vec<Token>)
        ensures
            r@.len() == 0,
    {
        Vec::new()
    }
}

} // verus!
