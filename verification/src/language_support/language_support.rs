use vstd::prelude::*;

use crate::file_type::{FileType, COMMIT_MESSAGE, CSS, HTML, MARKDOWN};
use crate::language_support::highlight::{tokens_view, HighlightToken};
use crate::language_support::langs::commit_message::CommitMessageLanguageSupport;
use crate::language_support::langs::css::CSSLanguageSupport;
use crate::language_support::langs::html::HTMLLanguageSupport;
use crate::language_support::langs::markdown::MarkdownLanguageSupport;
use crate::text::str_chars;
use crate::file_type::chars_eq_str;

verus! {

/// What the editor knows of a language: how to highlight, format and check its code.
/// Each method has a default that offers nothing.
pub trait LanguageSupport {
    /// The name of the file type the support is for.
    spec fn file_type_name(&self) -> Seq<char>;

    /// The file type the support is for.
    fn file_type(&self) -> (r: &'static str)
        ensures
            r@ == self.file_type_name(),
    ;

    /// What `highlight` gives for a text.
    spec fn highlight_result(&self, source_code: Seq<char>) -> Option<Seq<HighlightToken>>;

    /// The highlighted stretches of `source_code`.
    fn highlight(&self, source_code: &str) -> (r: Option<Vec<HighlightToken>>)
        ensures
            tokens_view(r) == self.highlight_result(source_code@),
    ;

    /// `source_code` formatted. The default formats nothing.
    fn format(&self, source_code: &str) -> (r: Option<String>)
        default_ensures
            r is None,
    {
        None
    }

    /// The command that starts the language server. The default names none.
    fn get_lsp_server_cmd(&self) -> (r: Option<String>)
        default_ensures
            r is None,
    {
        None
    }
}

/// Whether the editor has a language support for the file type `name`.
pub open spec fn has_language_support(name: Seq<char>) -> bool {
    name == HTML@ || name == CSS@ || name == MARKDOWN@ || name == COMMIT_MESSAGE@
}

/// The language support for a file type: HTML, CSS, Markdown and commit messages have one.
pub fn from_file_type(file_type: FileType) -> (r: Option<Box<dyn LanguageSupport>>)
    ensures
        r is Some <==> has_language_support(file_type@),
        r matches Some(l) ==> l.file_type_name() == file_type@,
{
    let name = str_chars(file_type.get().as_str());
    if chars_eq_str(&name, HTML) {
        Some(Box::new(HTMLLanguageSupport::new()))
    } else if chars_eq_str(&name, CSS) {
        Some(Box::new(CSSLanguageSupport::new()))
    } else if chars_eq_str(&name, MARKDOWN) {
        Some(Box::new(MarkdownLanguageSupport::new()))
    } else if chars_eq_str(&name, COMMIT_MESSAGE) {
        Some(Box::new(CommitMessageLanguageSupport::new()))
    } else {
        None
    }
}

} // verus!
