use vstd::prelude::*;

use crate::file_type::MARKDOWN;
use crate::language_support::highlight::{
    regex_tokenize, syntax_colors, syntax_compiles, syntax_groups, syntax_patterns, text_fits, tokenize_spec,
    line_widths_usize, try_regex_tokenize, Color, HighlightToken, ToColor,
};
use crate::language_support::language_support::LanguageSupport;

verus! {

/// The kinds of tokens highlighted in Markdown.
#[derive(Clone, Copy, Debug, PartialEq, Eq, Structural)]
pub enum TokenKind {
    CodeBlock,
    InlineCode,
    Heading,
    Bold,
    Italic,
    Link,
    List,
}

impl ToColor for TokenKind {
    open spec fn color_of(self) -> Color {
        match self {
            TokenKind::CodeBlock => Color::Gray,
            TokenKind::InlineCode => Color::Orange,
            TokenKind::Heading => Color::Rose,
            TokenKind::Bold => Color::Yellow,
            TokenKind::Italic => Color::Lime,
            TokenKind::Link => Color::Blue,
            TokenKind::List => Color::White,
        }
    }

    fn to_color(self) -> (r: Color) {
        match self {
            TokenKind::CodeBlock => Color::Gray,
            TokenKind::InlineCode => Color::Orange,
            TokenKind::Heading => Color::Rose,
            TokenKind::Bold => Color::Yellow,
            TokenKind::Italic => Color::Lime,
            TokenKind::Link => Color::Blue,
            TokenKind::List => Color::White,
        }
    }
}

/// The patterns of Markdown, each capturing in group 1 what its kind colors.
pub open spec fn syntax_spec() -> Seq<(Seq<char>, TokenKind)> {
    seq![
        (r"(```[a-zA-Z]*\n[\s\S]*?\n```)"@, TokenKind::CodeBlock),
        (r"(`[^`\n]+`)"@, TokenKind::InlineCode),
        (r"(#+\s[^\n]+)"@, TokenKind::Heading),
        (r"(\*\*[^*\n]+\*\*|__[^_\n]+__)"@, TokenKind::Bold),
        (r"(\*[^*\n]+\*|_[^_\n]+_)"@, TokenKind::Italic),
        (r"(\[.*?\]\(.*?\))"@, TokenKind::Link),
        (r"(-|\*|\+)\s[^\n]+"@, TokenKind::List),
    ]
}

/// The patterns of Markdown, earlier ones taking precedence.
pub fn syntax() -> (r: Vec<(&'static str, TokenKind)>)
    ensures
        r@.len() == syntax_spec().len(),
        forall|i: int| 0 <= i < r@.len() ==> (#[trigger] r@[i]).0@ == syntax_spec()[i].0 && r@[i].1 == syntax_spec()[i].1,
{
    let r = vec![
        (r"(```[a-zA-Z]*\n[\s\S]*?\n```)", TokenKind::CodeBlock),
        (r"(`[^`\n]+`)", TokenKind::InlineCode),
        (r"(#+\s[^\n]+)", TokenKind::Heading),
        (r"(\*\*[^*\n]+\*\*|__[^_\n]+__)", TokenKind::Bold),
        (r"(\*[^*\n]+\*|_[^_\n]+_)", TokenKind::Italic),
        (r"(\[.*?\]\(.*?\))", TokenKind::Link),
        (r"(-|\*|\+)\s[^\n]+", TokenKind::List),
    ];
    assert(r@.len() == syntax_spec().len());
    r
}

/// The highlighting of `source_code` by the patterns of `syntax`: `None` where a pattern
/// does not compile or the text is too long for `usize` positions.
pub open spec fn highlight_spec(source_code: Seq<char>) -> Option<Seq<HighlightToken>> {
    let pats = Seq::new(syntax_spec().len(), |i: int| syntax_spec()[i].0);
    let cols = Seq::new(syntax_spec().len(), |i: int| syntax_spec()[i].1.color_of());
    if syntax_compiles(pats, source_code) && text_fits(source_code) {
        Some(tokenize_spec(syntax_groups(pats, cols, source_code), line_widths_usize(source_code)))
    } else {
        None
    }
}

/// The support for Markdown.
pub struct MarkdownLanguageSupport {}

impl MarkdownLanguageSupport {
    pub fn new() -> (r: Self) {
        MarkdownLanguageSupport {}
    }

    /// The highlighting of `source_code` by the patterns of `syntax`: `None` only where a
    /// pattern does not compile or the text is too long for `usize` positions.
    pub fn highlight_code(&self, source_code: &str) -> (r: Option<Vec<HighlightToken>>)
        ensures
            ({
                let pats = Seq::new(syntax_spec().len(), |i: int| syntax_spec()[i].0);
                let cols = Seq::new(syntax_spec().len(), |i: int| syntax_spec()[i].1.color_of());
                &&& r is Some <==> syntax_compiles(pats, source_code@) && text_fits(source_code@)
                &&& r matches Some(v) ==> v@ == tokenize_spec(
                    syntax_groups(pats, cols, source_code@),
                    line_widths_usize(source_code@),
                )
            }),
    {
        let syn = syntax();
        assert(syntax_patterns(syn@) =~= Seq::new(syntax_spec().len(), |i: int| syntax_spec()[i].0));
        assert(syntax_colors(syn@) =~= Seq::new(syntax_spec().len(), |i: int| syntax_spec()[i].1.color_of()));
        try_regex_tokenize(source_code, syn)
    }
}

impl LanguageSupport for MarkdownLanguageSupport {
    open spec fn file_type_name(&self) -> Seq<char> {
        MARKDOWN@
    }

    fn file_type(&self) -> (r: &'static str) {
        MARKDOWN
    }

    open spec fn highlight_result(&self, source_code: Seq<char>) -> Option<Seq<HighlightToken>> {
        highlight_spec(source_code)
    }

    fn highlight(&self, source_code: &str) -> (r: Option<Vec<HighlightToken>>) {
        self.highlight_code(source_code)
    }
}


/// Highlighting Markdown text: for any text, the tokens are those that the patterns
/// below find, earlier patterns taking precedence, in the colors listed beside them:
/// code blocks gray, inline code orange, headings rose, bold yellow,
/// italics lime, links blue and list items white. The support is for the file type `markdown`.
pub proof fn law_markdown_highlighting(l: MarkdownLanguageSupport, source_code: Seq<char>)
    ensures
        l.file_type_name() == "markdown"@,
        l.highlight_result(source_code) == ({
            let pats = seq![
                r"(```[a-zA-Z]*\n[\s\S]*?\n```)"@,
                r"(`[^`\n]+`)"@,
                r"(#+\s[^\n]+)"@,
                r"(\*\*[^*\n]+\*\*|__[^_\n]+__)"@,
                r"(\*[^*\n]+\*|_[^_\n]+_)"@,
                r"(\[.*?\]\(.*?\))"@,
                r"(-|\*|\+)\s[^\n]+"@,
            ];
            let cols = seq![Color::Gray, Color::Orange, Color::Rose, Color::Yellow, Color::Lime, Color::Blue, Color::White];
            if syntax_compiles(pats, source_code) && text_fits(source_code) {
                Some(tokenize_spec(syntax_groups(pats, cols, source_code), line_widths_usize(source_code)))
            } else {
                None
            }
        }),
{
    let pats = seq![
        r"(```[a-zA-Z]*\n[\s\S]*?\n```)"@,
        r"(`[^`\n]+`)"@,
        r"(#+\s[^\n]+)"@,
        r"(\*\*[^*\n]+\*\*|__[^_\n]+__)"@,
        r"(\*[^*\n]+\*|_[^_\n]+_)"@,
        r"(\[.*?\]\(.*?\))"@,
        r"(-|\*|\+)\s[^\n]+"@,
    ];
    let cols = seq![Color::Gray, Color::Orange, Color::Rose, Color::Yellow, Color::Lime, Color::Blue, Color::White];
    assert(Seq::new(syntax_spec().len(), |i: int| syntax_spec()[i].0) =~= pats);
    assert(Seq::new(syntax_spec().len(), |i: int| syntax_spec()[i].1.color_of()) =~= cols);
}
} // verus!
