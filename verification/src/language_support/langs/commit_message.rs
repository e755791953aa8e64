use vstd::prelude::*;

use crate::file_type::COMMIT_MESSAGE;
use crate::language_support::highlight::{
    syntax_colors, syntax_compiles, syntax_groups, syntax_patterns, text_fits, tokenize_spec,
    line_widths_usize, try_regex_tokenize, Color, HighlightToken, ToColor,
};
use crate::language_support::language_support::LanguageSupport;

verus! {

/// The kinds of tokens highlighted in a commit message.
#[derive(Clone, Copy, Debug, PartialEq, Eq, Structural)]
pub enum TokenKind {
    Comment,
}

impl ToColor for TokenKind {
    open spec fn color_of(self) -> Color {
        match self {
            TokenKind::Comment => Color::Gray,
        }
    }

    fn to_color(self) -> (r: Color) {
        match self {
            TokenKind::Comment => Color::Gray,
        }
    }
}

/// The patterns of a commit message, each capturing in group 1 what its kind colors: the
/// lines that start with `#`, which git leaves out of the message.
pub open spec fn syntax_spec() -> Seq<(Seq<char>, TokenKind)> {
    seq![
        (r"(?m)^(#[^\n]*)"@, TokenKind::Comment),
    ]
}

/// The patterns of a commit message.
pub fn syntax() -> (r: Vec<(&'static str, TokenKind)>)
    ensures
        r@.len() == syntax_spec().len(),
        forall|i: int| 0 <= i < r@.len() ==> (#[trigger] r@[i]).0@ == syntax_spec()[i].0 && r@[i].1 == syntax_spec()[i].1,
{
    let r = vec![
        (r"(?m)^(#[^\n]*)", TokenKind::Comment),
    ];
    assert(r@.len() == syntax_spec().len());
    r
}

/// The highlighting of `source_code` by the patterns of `syntax`: `None` where a pattern
/// does not compile or the text is too long for `usize` positions.
pub open spec fn highlight_spec(source_code: Seq<char>) -> Option<Seq<HighlightToken>> {
    let pats = Seq::new(syntax_spec().len(), |i: int| syntax_spec()[i].0);
    let cols = Seq::new(syntax_spec().len(), |i: int| syntax_spec()[i].1.color_of());
    if syntax_compiles(pats, source_code) && text_fits(source_code) {
        Some(tokenize_spec(syntax_groups(pats, cols, source_code), line_widths_usize(source_code)))
    } else {
        None
    }
}

/// The support for git commit messages.
pub struct CommitMessageLanguageSupport {}

impl CommitMessageLanguageSupport {
    pub fn new() -> (r: Self) {
        CommitMessageLanguageSupport {}
    }

    /// The highlighting of `source_code` by the patterns of `syntax`: `None` only where a
    /// pattern does not compile or the text is too long for `usize` positions.
    pub fn highlight_code(&self, source_code: &str) -> (r: Option<Vec<HighlightToken>>)
        ensures
            ({
                let pats = Seq::new(syntax_spec().len(), |i: int| syntax_spec()[i].0);
                let cols = Seq::new(syntax_spec().len(), |i: int| syntax_spec()[i].1.color_of());
                &&& r is Some <==> syntax_compiles(pats, source_code@) && text_fits(source_code@)
                &&& r matches Some(v) ==> v@ == tokenize_spec(
                    syntax_groups(pats, cols, source_code@),
                    line_widths_usize(source_code@),
                )
            }),
    {
        let syn = syntax();
        assert(syntax_patterns(syn@) =~= Seq::new(syntax_spec().len(), |i: int| syntax_spec()[i].0));
        assert(syntax_colors(syn@) =~= Seq::new(syntax_spec().len(), |i: int| syntax_spec()[i].1.color_of()));
        try_regex_tokenize(source_code, syn)
    }
}

impl LanguageSupport for CommitMessageLanguageSupport {
    open spec fn file_type_name(&self) -> Seq<char> {
        COMMIT_MESSAGE@
    }

    fn file_type(&self) -> (r: &'static str) {
        COMMIT_MESSAGE
    }

    open spec fn highlight_result(&self, source_code: Seq<char>) -> Option<Seq<HighlightToken>> {
        highlight_spec(source_code)
    }

    fn highlight(&self, source_code: &str) -> (r: Option<Vec<HighlightToken>>) {
        self.highlight_code(source_code)
    }
}


/// Highlighting a commit message: for any text, the lines that start with `#`, which git
/// leaves out of the message, are gray, and nothing else is colored. The support is for
/// the file type `commit-message`.
pub proof fn law_commit_message_highlighting(l: CommitMessageLanguageSupport, source_code: Seq<char>)
    ensures
        l.file_type_name() == "commit-message"@,
        l.highlight_result(source_code) == ({
            let pats = seq![r"(?m)^(#[^\n]*)"@];
            let cols = seq![Color::Gray];
            if syntax_compiles(pats, source_code) && text_fits(source_code) {
                Some(tokenize_spec(syntax_groups(pats, cols, source_code), line_widths_usize(source_code)))
            } else {
                None
            }
        }),
{
    let pats = seq![r"(?m)^(#[^\n]*)"@];
    let cols = seq![Color::Gray];
    assert(Seq::new(syntax_spec().len(), |i: int| syntax_spec()[i].0) =~= pats);
    assert(Seq::new(syntax_spec().len(), |i: int| syntax_spec()[i].1.color_of()) =~= cols);
}
} // verus!
