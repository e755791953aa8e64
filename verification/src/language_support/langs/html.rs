use vstd::prelude::*;

use crate::file_type::HTML;
use crate::language_support::highlight::{
    regex_tokenize, syntax_colors, syntax_compiles, syntax_groups, syntax_patterns, text_fits, tokenize_spec,
    line_widths_usize, try_regex_tokenize, Color, HighlightToken, ToColor,
};
use crate::language_support::language_support::LanguageSupport;

verus! {

/// The kinds of tokens highlighted in HTML.
#[derive(Clone, Copy, Debug, PartialEq, Eq, Structural)]
pub enum TokenKind {
    Tag,
    Attribute,
    Value,
    Comment,
    Text,
}

impl ToColor for TokenKind {
    open spec fn color_of(self) -> Color {
        match self {
            TokenKind::Tag => Color::Rose,
            TokenKind::Attribute => Color::Orange,
            TokenKind::Value => Color::Lime,
            TokenKind::Comment => Color::Gray,
            TokenKind::Text => Color::White,
        }
    }

    fn to_color(self) -> (r: Color) {
        match self {
            TokenKind::Tag => Color::Rose,
            TokenKind::Attribute => Color::Orange,
            TokenKind::Value => Color::Lime,
            TokenKind::Comment => Color::Gray,
            TokenKind::Text => Color::White,
        }
    }
}

/// The patterns of HTML, each capturing in group 1 what its kind colors.
pub open spec fn syntax_spec() -> Seq<(Seq<char>, TokenKind)> {
    seq![
        (r"(<!--.*?-->)"@, TokenKind::Comment),
        (r"<!(DOCTYPE) html>"@, TokenKind::Tag),
        (r"<!DOCTYPE (html)>"@, TokenKind::Attribute),
        (r"<\s*/?([a-zA-Z]+)[^>]*>"@, TokenKind::Tag),
        (r#"([a-zA-Z\-]+)=\s*['\"].*?['\"]"#@, TokenKind::Attribute),
        (r#"[a-zA-Z\-]+=\s*(['\"].*?['\"])"#@, TokenKind::Value),
        (r"([^<]+)"@, TokenKind::Text),
    ]
}

/// The patterns of HTML, earlier ones taking precedence.
pub fn syntax() -> (r: Vec<(&'static str, TokenKind)>)
    ensures
        r@.len() == syntax_spec().len(),
        forall|i: int| 0 <= i < r@.len() ==> (#[trigger] r@[i]).0@ == syntax_spec()[i].0 && r@[i].1 == syntax_spec()[i].1,
{
    let r = vec![
        (r"(<!--.*?-->)", TokenKind::Comment),
        (r"<!(DOCTYPE) html>", TokenKind::Tag),
        (r"<!DOCTYPE (html)>", TokenKind::Attribute),
        (r"<\s*/?([a-zA-Z]+)[^>]*>", TokenKind::Tag),
        (r#"([a-zA-Z\-]+)=\s*['\"].*?['\"]"#, TokenKind::Attribute),
        (r#"[a-zA-Z\-]+=\s*(['\"].*?['\"])"#, TokenKind::Value),
        (r"([^<]+)", TokenKind::Text),
    ];
    assert(r@.len() == syntax_spec().len());
    r
}

/// The highlighting of `source_code` by the patterns of `syntax`: `None` where a pattern
/// does not compile or the text is too long for `usize` positions.
pub open spec fn highlight_spec(source_code: Seq<char>) -> Option<Seq<HighlightToken>> {
    let pats = Seq::new(syntax_spec().len(), |i: int| syntax_spec()[i].0);
    let cols = Seq::new(syntax_spec().len(), |i: int| syntax_spec()[i].1.color_of());
    if syntax_compiles(pats, source_code) && text_fits(source_code) {
        Some(tokenize_spec(syntax_groups(pats, cols, source_code), line_widths_usize(source_code)))
    } else {
        None
    }
}

/// The support for HTML.
pub struct HTMLLanguageSupport {}

impl HTMLLanguageSupport {
    pub fn new() -> (r: Self) {
        HTMLLanguageSupport {}
    }

    /// The highlighting of `source_code` by the patterns of `syntax`: `None` only where a
    /// pattern does not compile or the text is too long for `usize` positions.
    pub fn highlight_code(&self, source_code: &str) -> (r: Option<Vec<HighlightToken>>)
        ensures
            ({
                let pats = Seq::new(syntax_spec().len(), |i: int| syntax_spec()[i].0);
                let cols = Seq::new(syntax_spec().len(), |i: int| syntax_spec()[i].1.color_of());
                &&& r is Some <==> syntax_compiles(pats, source_code@) && text_fits(source_code@)
                &&& r matches Some(v) ==> v@ == tokenize_spec(
                    syntax_groups(pats, cols, source_code@),
                    line_widths_usize(source_code@),
                )
            }),
    {
        let syn = syntax();
        assert(syntax_patterns(syn@) =~= Seq::new(syntax_spec().len(), |i: int| syntax_spec()[i].0));
        assert(syntax_colors(syn@) =~= Seq::new(syntax_spec().len(), |i: int| syntax_spec()[i].1.color_of()));
        try_regex_tokenize(source_code, syn)
    }
}

impl LanguageSupport for HTMLLanguageSupport {
    open spec fn file_type_name(&self) -> Seq<char> {
        HTML@
    }

    fn file_type(&self) -> (r: &'static str) {
        HTML
    }

    open spec fn highlight_result(&self, source_code: Seq<char>) -> Option<Seq<HighlightToken>> {
        highlight_spec(source_code)
    }

    fn highlight(&self, source_code: &str) -> (r: Option<Vec<HighlightToken>>) {
        self.highlight_code(source_code)
    }
}


/// Highlighting HTML text: for any text, the tokens are those that the patterns
/// below find, earlier patterns taking precedence, in the colors listed beside them:
/// comments gray, the doctype's keyword rose and its `html` orange, tag names rose,
/// attribute names orange, attribute values lime and other text white. The support is for the file type `html`.
pub proof fn law_html_highlighting(l: HTMLLanguageSupport, source_code: Seq<char>)
    ensures
        l.file_type_name() == "html"@,
        l.highlight_result(source_code) == ({
            let pats = seq![
                r"(<!--.*?-->)"@,
                r"<!(DOCTYPE) html>"@,
                r"<!DOCTYPE (html)>"@,
                r"<\s*/?([a-zA-Z]+)[^>]*>"@,
                r#"([a-zA-Z\-]+)=\s*['\"].*?['\"]"#@,
                r#"[a-zA-Z\-]+=\s*(['\"].*?['\"])"#@,
                r"([^<]+)"@,
            ];
            let cols = seq![Color::Gray, Color::Rose, Color::Orange, Color::Rose, Color::Orange, Color::Lime, Color::White];
            if syntax_compiles(pats, source_code) && text_fits(source_code) {
                Some(tokenize_spec(syntax_groups(pats, cols, source_code), line_widths_usize(source_code)))
            } else {
                None
            }
        }),
{
    let pats = seq![
        r"(<!--.*?-->)"@,
        r"<!(DOCTYPE) html>"@,
        r"<!DOCTYPE (html)>"@,
        r"<\s*/?([a-zA-Z]+)[^>]*>"@,
        r#"([a-zA-Z\-]+)=\s*['\"].*?['\"]"#@,
        r#"[a-zA-Z\-]+=\s*(['\"].*?['\"])"#@,
        r"([^<]+)"@,
    ];
    let cols = seq![Color::Gray, Color::Rose, Color::Orange, Color::Rose, Color::Orange, Color::Lime, Color::White];
    assert(Seq::new(syntax_spec().len(), |i: int| syntax_spec()[i].0) =~= pats);
    assert(Seq::new(syntax_spec().len(), |i: int| syntax_spec()[i].1.color_of()) =~= cols);
}
} // verus!
