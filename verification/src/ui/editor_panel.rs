use vstd::prelude::*;

use crate::editor::buf::code_buf::{views, EditorCodeBuffer};
use crate::language_support::highlight::{tokens_view, HighlightToken, RGBColor};
use crate::mode::EditorMode;
use crate::event::{count_digits, decimal_chars, decimal_digits, lemma_decimal_len, number_text, padded_number};
use crate::language_support::highlight::{lemma_bytes_prefix, utf8_bytes, utf8_len, utf8_len_spec};
use crate::text::{str_chars, string_push};
use crate::ui::renderer::{
    lemma_fits_same_shape, lemma_write_concat, lemma_write_shape, same_shape, text_fits_row, write_text, ColorSpan,
    ColorToken, UIRenderer,
};
use crate::editor::buf::buf::{BufferView, EditorBuffer};
use crate::editor::buf::code_buf::cursor_pos_spec;
use crate::editor::buf::cursor::{clamp_x_spec, draw_width, min_spec};
use crate::editor::editor::{current_buffer, editor_ok, Editor, EditorView};
use crate::ui::renderer::CursorStyle;
use crate::vec2::{pos_lt, IVec2, U16Vec2, UVec2};
use crate::wide_string::WideString;

verus! {

/// Whether token `t` covers line `y`.
pub open spec fn token_applies(t: HighlightToken, y: int) -> bool {
    t.start.y <= y && t.end.y >= y
}

/// The color span of token `t` over the part of line `y` drawn from column `x` of the line,
/// `len` characters long, placed after `offset_x` columns of line numbers.
pub open spec fn token_span(t: HighlightToken, x: int, y: int, offset_x: int, len: int) -> ColorSpan {
    let s = if t.start.y == y { t.start.x - x } else { 0 };
    let e = if t.end.y == y { t.end.x - x } else { len };
    ColorSpan { y: y as u16, start: (s + offset_x) as u16, end: (e + offset_x) as u16, token: ColorToken::Fg(t.color) }
}

/// The color spans of the tokens that cover line `y`, the last token first.
pub open spec fn token_spans(ts: Seq<HighlightToken>, x: int, y: int, offset_x: int, len: int) -> Seq<ColorSpan>
    decreases ts.len(),
{
    if ts.len() == 0 {
        seq![]
    } else {
        (if token_applies(ts.last(), y) { seq![token_span(ts.last(), x, y, offset_x, len)] } else { seq![] })
            + token_spans(ts.drop_last(), x, y, offset_x, len)
    }
}

/// Whether each token that covers line `y` starts and ends at or after column `x` on that
/// line, and its span stays within the range of `usize`.
pub open spec fn tokens_ok(ts: Seq<HighlightToken>, x: int, y: int, offset_x: int, len: int) -> bool {
    forall|i: int| 0 <= i < ts.len() && token_applies(#[trigger] ts[i], y) ==> {
        &&& ts[i].start.y == y ==> ts[i].start.x >= x && ts[i].start.x - x + offset_x <= usize::MAX
        &&& ts[i].end.y == y ==> ts[i].end.x >= x && ts[i].end.x - x + offset_x <= usize::MAX
        &&& ts[i].end.y != y ==> len + offset_x <= usize::MAX
    }
}

/// The tokens after the first `n`.
pub open spec fn skip_tokens(ts: Seq<HighlightToken>, n: int) -> Seq<HighlightToken> {
    if n <= ts.len() { ts.skip(n) } else { seq![] }
}

/// The tokens a line is drawn with: none, or those after the first `scroll_y`.
pub open spec fn line_tokens(tokens: Option<Seq<HighlightToken>>, scroll_y: int) -> Seq<HighlightToken> {
    match tokens {
        Some(ts) => skip_tokens(ts, scroll_y),
        None => seq![],
    }
}

/// The columns from which line `y`, `len` characters long, is selected in visual mode, from
/// the selection's start `start` to the cursor `cursor`: `None` when the line lies outside.
pub open spec fn visual_line_bounds(len: int, y: int, cursor: UVec2, start: UVec2) -> Option<(int, int)> {
    let min_y = if start.y <= cursor.y { start.y } else { cursor.y };
    let max_y = if start.y <= cursor.y { cursor.y } else { start.y };
    if min_y <= y && max_y >= y {
        let forward = pos_lt(start, cursor) || len == 0;
        let s = if start.y == y {
            if forward { start.x as int } else { start.x + 1 }
        } else if start.y < y {
            0
        } else {
            len
        };
        let e = if cursor.y == y {
            if forward { cursor.x as int } else { cursor.x + 1 }
        } else if cursor.y < y {
            0
        } else {
            len
        };
        Some((s, e))
    } else {
        None
    }
}

/// The smaller of two integers.
pub open spec fn min_int(a: int, b: int) -> int {
    if a <= b { a } else { b }
}

/// The larger of two integers.
pub open spec fn max_int(a: int, b: int) -> int {
    if a <= b { b } else { a }
}

/// The grid after drawing the part of a line from column `x`, at column `x + offset_x` of row `draw_y`.
pub open spec fn code_string_grid(g: Seq<Seq<char>>, x: int, offset_x: int, draw_y: int, code: Seq<char>) -> Seq<Seq<char>> {
    write_text(g, ((x + offset_x) as u16) as int, (draw_y as u16) as int, code)
}

/// Whether the part of a line from column `x` fits where it is drawn.
pub open spec fn code_string_ok(g: Seq<Seq<char>>, x: int, offset_x: int, draw_y: int, code: Seq<char>) -> bool {
    &&& x + offset_x <= usize::MAX
    &&& draw_y <= usize::MAX
    &&& text_fits_row(g, ((x + offset_x) as u16) as int, (draw_y as u16) as int, code)
}

/// Draws the part `code` of line `y` that starts at column `x`, after `offset_x` columns of
/// line numbers on row `draw_y`, and colors it by the tokens after the first `scroll_y`.
pub fn render_code_string(
    renderer: &mut UIRenderer,
    x: usize,
    y: usize,
    offset_x: usize,
    draw_y: usize,
    scroll_y: usize,
    tokens: &Option<Vec<HighlightToken>>,
    code: &WideString,
)
    requires
        code_string_ok(old(renderer)@.grid, x as int, offset_x as int, draw_y as int, code@),
        tokens_ok(line_tokens(opt_view(*tokens), scroll_y as int), x as int, y as int, offset_x as int, code@.len() as int),
    ensures
        final(renderer)@.grid == code_string_grid(old(renderer)@.grid, x as int, offset_x as int, draw_y as int, code@),
        final(renderer)@.colors == old(renderer)@.colors + token_spans(
            line_tokens(opt_view(*tokens), scroll_y as int),
            x as int,
            y as int,
            offset_x as int,
            code@.len() as int,
        ),
        final(renderer)@.size == old(renderer)@.size,
        final(renderer)@.cursor_pos == old(renderer)@.cursor_pos,
        final(renderer)@.cursor_style == old(renderer)@.cursor_style,
{
    let ghost ts = line_tokens(opt_view(*tokens), scroll_y as int);
    let ghost base = renderer@.colors;
    if let Some(tokens) = tokens {
        let n = tokens.len();
        if scroll_y <= n {
            let mut i = n;
            assert(ts =~= tokens@.skip(scroll_y as int));
            assert(ts.take((i - scroll_y) as int) =~= ts);
            while i > scroll_y
                invariant
                    scroll_y <= i <= n,
                    n == tokens@.len(),
                    ts == tokens@.skip(scroll_y as int),
                    tokens_ok(ts, x as int, y as int, offset_x as int, code@.len() as int),
                    renderer@.colors + token_spans(ts.take(i - scroll_y), x as int, y as int, offset_x as int, code@.len() as int)
                        == base + token_spans(ts, x as int, y as int, offset_x as int, code@.len() as int),
                    renderer@.grid == old(renderer)@.grid,
                    renderer@.size == old(renderer)@.size,
                    renderer@.cursor_pos == old(renderer)@.cursor_pos,
                    renderer@.cursor_style == old(renderer)@.cursor_style,
                decreases i,
            {
                let t = tokens[i - 1];
                let ghost k = i - 1 - scroll_y;
                assert(ts[k] == t);
                assert(ts.take(i - scroll_y).drop_last() =~= ts.take(k));
                assert(ts.take(i - scroll_y).last() == t);
                let ghost before = renderer@.colors;
                if t.start.y <= y && t.end.y >= y {
                    assert(token_applies(ts[k], y as int));
                    let start = if t.start.y == y { t.start.x - x } else { 0 };
                    let end = if t.end.y == y { t.end.x - x } else { code.len() };
                    renderer.add_color_token(
                        y as u16,
                        (start + offset_x) as u16,
                        (end + offset_x) as u16,
                        ColorToken::Fg(t.color),
                    );
                    assert(renderer@.colors + token_spans(ts.take(k), x as int, y as int, offset_x as int, code@.len() as int)
                        =~= before + token_spans(ts.take(i - scroll_y), x as int, y as int, offset_x as int, code@.len() as int));
                } else {
                    assert(token_spans(ts.take(i - scroll_y), x as int, y as int, offset_x as int, code@.len() as int)
                        =~= token_spans(ts.take(k), x as int, y as int, offset_x as int, code@.len() as int));
                }
                i = i - 1;
            }
            assert(ts.take(0) =~= Seq::<HighlightToken>::empty());
            assert(renderer@.colors =~= base + token_spans(ts, x as int, y as int, offset_x as int, code@.len() as int));
        } else {
            assert(renderer@.colors =~= base + token_spans(ts, x as int, y as int, offset_x as int, code@.len() as int));
        }
    } else {
        assert(renderer@.colors =~= base + token_spans(ts, x as int, y as int, offset_x as int, code@.len() as int));
    }
    renderer.render_text(code.to_string(), U16Vec2::new((x + offset_x) as u16, draw_y as u16));
}

/// The highlighted tokens, if any, as a sequence.
pub open spec fn opt_view(tokens: Option<Vec<HighlightToken>>) -> Option<Seq<HighlightToken>> {
    tokens_view(tokens)
}

/// What the language support of the current buffer of `e` gives for its text.
pub open spec fn current_highlight(e: EditorView) -> Option<Seq<HighlightToken>> {
    match e.manager.current {
        Some(i) => e.manager.buffers[i as int].highlight_of(),
        None => None,
    }
}

/// The number of lines shown from line `scroll_y` on, in a window of `rows` rows, out of `n`.
pub open spec fn shown_rows(n: int, scroll_y: int, rows: int) -> int {
    if scroll_y < n { min_int(rows, n - scroll_y) } else { 0 }
}

/// The text of the line number on row `i` when the view starts at line `first`.
pub open spec fn number_row(first: int, i: int, width: nat) -> Seq<char> {
    padded_number((first + i + 1) as nat, width)
}

/// The grid after writing the numbers of `count` lines from line `first` down the left edge.
pub open spec fn numbers_grid(g: Seq<Seq<char>>, first: int, count: nat, width: nat) -> Seq<Seq<char>>
    decreases count,
{
    if count == 0 {
        g
    } else {
        write_text(numbers_grid(g, first, (count - 1) as nat, width), 0, count - 1, number_row(first, count - 1, width))
    }
}

/// Whether the numbers of `count` lines from line `first` fit their rows.
pub open spec fn numbers_fit(g: Seq<Seq<char>>, first: int, count: nat, width: nat) -> bool {
    forall|i: int| 0 <= i < count ==> text_fits_row(g, 0, i, #[trigger] number_row(first, i, width))
}

/// Writing line numbers keeps the shape of the grid.
pub proof fn lemma_numbers_shape(g: Seq<Seq<char>>, first: int, count: nat, width: nat)
    requires
        numbers_fit(g, first, count, width),
    ensures
        same_shape(numbers_grid(g, first, count, width), g),
    decreases count,
{
    if count > 0 {
        let k = (count - 1) as nat;
        assert(numbers_fit(g, first, k, width));
        lemma_numbers_shape(g, first, k, width);
        let h = numbers_grid(g, first, k, width);
        assert(text_fits_row(g, 0, k as int, number_row(first, k as int, width)));
        lemma_fits_same_shape(h, g, 0, k as int, number_row(first, k as int, width));
        lemma_write_shape(h, 0, k as int, number_row(first, k as int, width));
    }
}

/// The columns `(lo, hi)` of line `y` selected in mode `mode`; `None` outside visual mode or
/// outside the selection.
pub open spec fn visual_span(mode: EditorMode, len: int, y: int, cursor: UVec2) -> Option<(int, int)> {
    match mode {
        EditorMode::Visual { start } => match visual_line_bounds(len, y, cursor, start) {
            Some((s, e)) => Some((min_int(s, e), max_int(s, e))),
            None => None,
        },
        _ => None,
    }
}

/// The background of the selected part of a line.
pub open spec fn selection_color() -> RGBColor {
    RGBColor { r: 128, g: 128, b: 128 }
}

/// The colors laid over line `y`: in visual mode, the selection's background and then the
/// token colors of the part before, in and after the selection; else the token colors of
/// the whole line.
pub open spec fn line_colors(line: Seq<char>, y: int, offset_x: int, mode: EditorMode, cursor: UVec2, ts: Seq<HighlightToken>) -> Seq<ColorSpan> {
    match visual_span(mode, line.len() as int, y, cursor) {
        Some((lo, hi)) => seq![ColorSpan { y: y as u16, start: lo as u16, end: hi as u16, token: ColorToken::Bg(selection_color()) }]
            + token_spans(ts, 0, y, offset_x, lo) + token_spans(ts, lo, y, offset_x, hi - lo)
            + token_spans(ts, hi, y, offset_x, line.len() - hi),
        None => token_spans(ts, 0, y, offset_x, line.len() as int),
    }
}

/// Whether line `y` can be drawn on row `draw_y` after `offset_x` columns: it fits its row
/// and the selection lies within it.
pub open spec fn line_text_ok(
    g: Seq<Seq<char>>,
    line: Seq<char>,
    y: int,
    draw_y: int,
    offset_x: int,
    mode: EditorMode,
    cursor: UVec2,
) -> bool {
    &&& 0 <= draw_y <= u16::MAX
    &&& 0 <= offset_x
    &&& offset_x + line.len() <= usize::MAX
    &&& text_fits_row(g, offset_x, draw_y, line)
    &&& draw_y < g.len() ==> offset_x + line.len() <= u16::MAX
    &&& visual_span(mode, line.len() as int, y, cursor) matches Some((_, hi)) ==> hi <= line.len()
}

/// Whether each token that covers line `y` starts and ends within the part of the line
/// it colors.
pub open spec fn line_tokens_ok(line: Seq<char>, y: int, offset_x: int, mode: EditorMode, cursor: UVec2, ts: Seq<HighlightToken>) -> bool {
    match visual_span(mode, line.len() as int, y, cursor) {
        Some((lo, hi)) => {
            &&& tokens_ok(ts, 0, y, offset_x, lo)
            &&& tokens_ok(ts, lo, y, offset_x, hi - lo)
            &&& tokens_ok(ts, hi, y, offset_x, line.len() - hi)
        },
        None => tokens_ok(ts, 0, y, offset_x, line.len() as int),
    }
}

/// Whether line `y` can be drawn, with its token colors, on row `draw_y` after `offset_x` columns.
pub open spec fn line_ok(
    g: Seq<Seq<char>>,
    line: Seq<char>,
    y: int,
    draw_y: int,
    offset_x: int,
    mode: EditorMode,
    cursor: UVec2,
    ts: Seq<HighlightToken>,
) -> bool {
    &&& line_text_ok(g, line, y, draw_y, offset_x, mode, cursor)
    &&& line_tokens_ok(line, y, offset_x, mode, cursor, ts)
}

/// Whether each token of `ts` after the first `skip` that covers line `y` starts and ends
/// within the part of the line from column `x`, `len` long.
pub fn tokens_fit(
    tokens: &Option<Vec<HighlightToken>>,
    skip: usize,
    x: usize,
    y: usize,
    offset_x: usize,
    len: usize,
) -> (r: bool)
    ensures
        r == tokens_ok(line_tokens(opt_view(*tokens), skip as int), x as int, y as int, offset_x as int, len as int),
{
    let ghost ts = line_tokens(opt_view(*tokens), skip as int);
    match tokens {
        None => true,
        Some(v) => {
            if skip > v.len() {
                return true;
            }
            assert(ts =~= v@.skip(skip as int));
            let mut i = skip;
            while i < v.len()
                invariant
                    skip <= i <= v@.len(),
                    ts == v@.skip(skip as int),
                    ts == line_tokens(opt_view(*tokens), skip as int),
                    forall|k: int| 0 <= k < i - skip ==> token_applies(#[trigger] ts[k], y as int) ==> {
                        &&& ts[k].start.y == y ==> ts[k].start.x >= x && ts[k].start.x - x + offset_x <= usize::MAX
                        &&& ts[k].end.y == y ==> ts[k].end.x >= x && ts[k].end.x - x + offset_x <= usize::MAX
                        &&& ts[k].end.y != y ==> len + offset_x <= usize::MAX
                    },
                decreases v@.len() - i,
            {
                let t = v[i];
                assert(ts[i - skip] == t);
                if t.start.y <= y && t.end.y >= y {
                    assert(token_applies(ts[i - skip], y as int));
                    if t.start.y == y && (t.start.x < x || t.start.x - x > usize::MAX - offset_x) {
                        return false;
                    }
                    if t.end.y == y && (t.end.x < x || t.end.x - x > usize::MAX - offset_x) {
                        return false;
                    }
                    if t.end.y != y && len > usize::MAX - offset_x {
                        return false;
                    }
                }
                i = i + 1;
            }
            true
        },
    }
}

/// The columns `(lo, hi)` of a line `len` long, line `y`, that the selection from `start`
/// to `cursor` covers; `None` where the line lies outside the selection.
pub fn visual_bounds(len: usize, y: usize, cursor: UVec2, start: UVec2) -> (r: Option<(usize, usize)>)
    requires
        visual_span(EditorMode::Visual { start }, len as int, y as int, cursor) matches Some((_, hi)) ==> hi <= len,
    ensures
        match r {
            Some((lo, hi)) => visual_span(EditorMode::Visual { start }, len as int, y as int, cursor) == Some((lo as int, hi as int)),
            None => visual_span(EditorMode::Visual { start }, len as int, y as int, cursor) is None,
        },
{
    let min_y = if start.y <= cursor.y { start.y } else { cursor.y };
    let max_y = if start.y <= cursor.y { cursor.y } else { start.y };
    if min_y <= y && max_y >= y {
        let forward = start.lt(&cursor) || len == 0;
        let s = if start.y == y {
            if forward { start.x } else { start.x + 1 }
        } else if start.y < y {
            0
        } else {
            len
        };
        let e = if cursor.y == y {
            if forward { cursor.x } else { cursor.x + 1 }
        } else if cursor.y < y {
            0
        } else {
            len
        };
        if s <= e { Some((s, e)) } else { Some((e, s)) }
    } else {
        None
    }
}

/// Writing the parts of a line before, in and after columns `lo..hi` one after the other
/// is writing the whole line.
pub proof fn lemma_write_three(g: Seq<Seq<char>>, x: int, y: int, line: Seq<char>, lo: int, hi: int)
    requires
        0 <= x,
        0 <= lo <= hi <= line.len(),
        text_fits_row(g, x, y, line),
    ensures
        write_text(
            write_text(write_text(g, x, y, line.subrange(0, lo)), x + lo, y, line.subrange(lo, hi)),
            x + hi,
            y,
            line.subrange(hi, line.len() as int),
        ) == write_text(g, x, y, line),
{
    let a = line.subrange(0, lo);
    let b = line.subrange(lo, hi);
    let c = line.subrange(hi, line.len() as int);
    assert(a + (b + c) =~= line);
    lemma_write_concat(g, x, y, a, b + c);
    let g1 = write_text(g, x, y, a);
    assert(text_fits_row(g1, x + lo, y, b + c)) by {
        if 0 <= y < g.len() {
            assert(g1[y] =~= g[y].take(x) + a + g[y].skip(x + a.len()));
        }
    }
    lemma_write_concat(g1, x + lo, y, b, c);
}

/// Draws the selection of visual mode on line `y`, drawn on row `draw_y` after `offset_x`
/// columns: the selection's background over the columns it covers, then the part before,
/// in and after the selection, each with its token colors.
#[verifier::rlimit(40)]
pub fn render_code_visual_mode(
    renderer: &mut UIRenderer,
    y: usize,
    offset_x: usize,
    draw_y: usize,
    line: &WideString,
    cursor_pos: UVec2,
    start_pos: UVec2,
    scroll_y: usize,
    tokens: &Option<Vec<HighlightToken>>,
)
    requires
        line_ok(
            old(renderer)@.grid,
            line@,
            y as int,
            draw_y as int,
            offset_x as int,
            EditorMode::Visual { start: start_pos },
            cursor_pos,
            line_tokens(opt_view(*tokens), scroll_y as int),
        ),
    ensures
        final(renderer)@.grid == write_text(old(renderer)@.grid, offset_x as int, draw_y as int, line@),
        final(renderer)@.colors == old(renderer)@.colors + line_colors(
            line@,
            y as int,
            offset_x as int,
            EditorMode::Visual { start: start_pos },
            cursor_pos,
            line_tokens(opt_view(*tokens), scroll_y as int),
        ),
        final(renderer)@.size == old(renderer)@.size,
        final(renderer)@.cursor_pos == old(renderer)@.cursor_pos,
        final(renderer)@.cursor_style == old(renderer)@.cursor_style,
{
    let ghost g0 = renderer@.grid;
    let ghost c0 = renderer@.colors;
    let ghost ts = line_tokens(opt_view(*tokens), scroll_y as int);
    let ghost mode = EditorMode::Visual { start: start_pos };
    let len = line.len();
    match visual_bounds(len, y, cursor_pos, start_pos) {
        Some((lo, hi)) => {
            let front_text = line.get_range(0, lo);
            let select_text = line.get_range(lo, hi);
            let back_text = line.get_range(hi, len);
            renderer.add_color_token(y as u16, lo as u16, hi as u16, ColorToken::Bg(RGBColor { r: 128, g: 128, b: 128 }));
            let ghost c1 = renderer@.colors;
            proof {
                lemma_write_three(g0, offset_x as int, draw_y as int, line@, lo as int, hi as int);
                assert(front_text@ + (select_text@ + back_text@) =~= line@);
                assert(select_text@ + back_text@ =~= line@.subrange(lo as int, len as int));
                assert(text_fits_row(g0, offset_x as int, draw_y as int, front_text@)) by {
                    if 0 <= draw_y < g0.len() {}
                }
            }
            render_code_string(renderer, 0, y, offset_x, draw_y, scroll_y, tokens, &front_text);
            let ghost g2 = renderer@.grid;
            let ghost c2 = renderer@.colors;
            proof {
                lemma_write_shape(g0, offset_x as int, draw_y as int, front_text@);
                assert(text_fits_row(g0, offset_x + lo, draw_y as int, select_text@)) by {
                    if 0 <= draw_y < g0.len() {}
                }
                lemma_fits_same_shape(g2, g0, offset_x + lo, draw_y as int, select_text@);
            }
            render_code_string(renderer, lo, y, offset_x, draw_y, scroll_y, tokens, &select_text);
            let ghost g3 = renderer@.grid;
            let ghost c3 = renderer@.colors;
            proof {
                lemma_write_shape(g2, offset_x + lo, draw_y as int, select_text@);
                assert(text_fits_row(g0, offset_x + hi, draw_y as int, back_text@)) by {
                    if 0 <= draw_y < g0.len() {}
                }
                lemma_fits_same_shape(g3, g0, offset_x + hi, draw_y as int, back_text@);
            }
            render_code_string(renderer, hi, y, offset_x, draw_y, scroll_y, tokens, &back_text);
            assert(renderer@.colors =~= c0 + line_colors(line@, y as int, offset_x as int, mode, cursor_pos, ts));
        },
        None => {
            render_code_string(renderer, 0, y, offset_x, draw_y, scroll_y, tokens, line);
        },
    }
}

/// Draws line `y` on row `draw_y` after `offset_x` columns, as the mode shows it.
pub fn render_code_line(
    renderer: &mut UIRenderer,
    mode: &EditorMode,
    offset_x: usize,
    scroll_y: usize,
    cursor_pos: UVec2,
    y: usize,
    draw_y: usize,
    line: &WideString,
    tokens: &Option<Vec<HighlightToken>>,
)
    requires
        line_ok(
            old(renderer)@.grid,
            line@,
            y as int,
            draw_y as int,
            offset_x as int,
            *mode,
            cursor_pos,
            line_tokens(opt_view(*tokens), scroll_y as int),
        ),
    ensures
        final(renderer)@.grid == write_text(old(renderer)@.grid, offset_x as int, draw_y as int, line@),
        final(renderer)@.colors == old(renderer)@.colors + line_colors(
            line@,
            y as int,
            offset_x as int,
            *mode,
            cursor_pos,
            line_tokens(opt_view(*tokens), scroll_y as int),
        ),
        final(renderer)@.size == old(renderer)@.size,
        final(renderer)@.cursor_pos == old(renderer)@.cursor_pos,
        final(renderer)@.cursor_style == old(renderer)@.cursor_style,
{
    match mode {
        EditorMode::Visual { start } => {
            render_code_visual_mode(renderer, y, offset_x, draw_y, line, cursor_pos, *start, scroll_y, tokens);
        },
        _ => {
            let ghost g0 = renderer@.grid;
            render_code_string(renderer, 0, y, offset_x, draw_y, scroll_y, tokens, line);
            assert(renderer@.grid == write_text(g0, offset_x as int, draw_y as int, line@)) by {
                if 0 <= draw_y < g0.len() {}
            }
        },
    }
}

/// Whether a line's text fits depends only on the shape of the grid.
pub proof fn lemma_line_text_ok_shape(
    a: Seq<Seq<char>>,
    b: Seq<Seq<char>>,
    line: Seq<char>,
    y: int,
    draw_y: int,
    offset_x: int,
    mode: EditorMode,
    cursor: UVec2,
)
    requires
        same_shape(a, b),
    ensures
        line_text_ok(a, line, y, draw_y, offset_x, mode, cursor) == line_text_ok(b, line, y, draw_y, offset_x, mode, cursor),
{
    lemma_fits_same_shape(a, b, offset_x, draw_y, line);
}

/// The grid after writing `count` lines of `ls` from line `first`, each after `offset_x` columns.
pub open spec fn code_grid(g: Seq<Seq<char>>, ls: Seq<Seq<char>>, first: int, count: nat, offset_x: int) -> Seq<Seq<char>>
    decreases count,
{
    if count == 0 {
        g
    } else {
        write_text(code_grid(g, ls, first, (count - 1) as nat, offset_x), offset_x, count - 1, ls[first + count - 1])
    }
}

/// The colors laid over `count` lines of `ls` from line `first`.
pub open spec fn code_colors(
    ls: Seq<Seq<char>>,
    first: int,
    count: nat,
    offset_x: int,
    mode: EditorMode,
    cursor: UVec2,
    ts: Seq<HighlightToken>,
) -> Seq<ColorSpan>
    decreases count,
{
    if count == 0 {
        seq![]
    } else {
        code_colors(ls, first, (count - 1) as nat, offset_x, mode, cursor, ts) + line_colors(
            ls[first + count - 1],
            first + count - 1,
            offset_x,
            mode,
            cursor,
            ts,
        )
    }
}

/// Whether line `first + i` of `ls` fits on row `i`.
pub open spec fn code_line_text_ok(g: Seq<Seq<char>>, ls: Seq<Seq<char>>, first: int, i: int, offset_x: int, mode: EditorMode, cursor: UVec2) -> bool {
    line_text_ok(g, ls[first + i], first + i, i, offset_x, mode, cursor)
}

/// Whether the tokens fit line `first + i` of `ls`.
pub open spec fn code_line_tokens_ok(ls: Seq<Seq<char>>, first: int, i: int, offset_x: int, mode: EditorMode, cursor: UVec2, ts: Seq<HighlightToken>) -> bool {
    line_tokens_ok(ls[first + i], first + i, offset_x, mode, cursor, ts)
}

/// Whether `count` lines of `ls` from line `first` fit their rows.
pub open spec fn code_text_ok(g: Seq<Seq<char>>, ls: Seq<Seq<char>>, first: int, count: nat, offset_x: int, mode: EditorMode, cursor: UVec2) -> bool {
    &&& 0 <= first
    &&& count > 0 ==> first + count <= ls.len()
    &&& forall|i: int| 0 <= i < count ==> #[trigger] code_line_text_ok(g, ls, first, i, offset_x, mode, cursor)
}

/// Whether the tokens fit each of `count` lines of `ls` from line `first`.
pub open spec fn code_tokens_ok(ls: Seq<Seq<char>>, first: int, count: nat, offset_x: int, mode: EditorMode, cursor: UVec2, ts: Seq<HighlightToken>) -> bool {
    forall|i: int| 0 <= i < count ==> #[trigger] code_line_tokens_ok(ls, first, i, offset_x, mode, cursor, ts)
}

/// Writing lines that fit keeps the shape of the grid.
pub proof fn lemma_code_shape(g: Seq<Seq<char>>, ls: Seq<Seq<char>>, first: int, count: nat, offset_x: int, mode: EditorMode, cursor: UVec2)
    requires
        code_text_ok(g, ls, first, count, offset_x, mode, cursor),
    ensures
        same_shape(code_grid(g, ls, first, count, offset_x), g),
    decreases count,
{
    if count > 0 {
        let k = (count - 1) as nat;
        lemma_code_shape(g, ls, first, k, offset_x, mode, cursor);
        let h = code_grid(g, ls, first, k, offset_x);
        assert(code_line_text_ok(g, ls, first, k as int, offset_x, mode, cursor));
        lemma_fits_same_shape(h, g, offset_x, k as int, ls[first + k]);
        lemma_write_shape(h, offset_x, k as int, ls[first + k]);
    }
}

/// Draws `count` lines from line `scroll_y` on, in a window of `window_size`, each after
/// `offset_x` columns of line numbers.
pub fn render_code(
    renderer: &mut UIRenderer,
    window_size: U16Vec2,
    mode: &EditorMode,
    offset_x: usize,
    scroll_y: usize,
    cursor_pos: UVec2,
    lines: &Vec<WideString>,
    tokens: &Option<Vec<HighlightToken>>,
)
    requires
        code_text_ok(
            old(renderer)@.grid,
            views(lines@),
            scroll_y as int,
            shown_rows(lines@.len() as int, scroll_y as int, window_size.y as int) as nat,
            offset_x as int,
            *mode,
            cursor_pos,
        ),
        code_tokens_ok(
            views(lines@),
            scroll_y as int,
            shown_rows(lines@.len() as int, scroll_y as int, window_size.y as int) as nat,
            offset_x as int,
            *mode,
            cursor_pos,
            line_tokens(opt_view(*tokens), scroll_y as int),
        ),
    ensures
        final(renderer)@.grid == code_grid(
            old(renderer)@.grid,
            views(lines@),
            scroll_y as int,
            shown_rows(lines@.len() as int, scroll_y as int, window_size.y as int) as nat,
            offset_x as int,
        ),
        final(renderer)@.colors == old(renderer)@.colors + code_colors(
            views(lines@),
            scroll_y as int,
            shown_rows(lines@.len() as int, scroll_y as int, window_size.y as int) as nat,
            offset_x as int,
            *mode,
            cursor_pos,
            line_tokens(opt_view(*tokens), scroll_y as int),
        ),
        final(renderer)@.size == old(renderer)@.size,
        final(renderer)@.cursor_pos == old(renderer)@.cursor_pos,
        final(renderer)@.cursor_style == old(renderer)@.cursor_style,
{
    let ghost g0 = renderer@.grid;
    let ghost c0 = renderer@.colors;
    let ghost ls = views(lines@);
    let ghost ts = line_tokens(opt_view(*tokens), scroll_y as int);
    let n = lines.len();
    let rows = window_size.y as usize;
    let count: usize = if scroll_y < n {
        if rows < n - scroll_y { rows } else { n - scroll_y }
    } else {
        0
    };
    assert(count == shown_rows(n as int, scroll_y as int, window_size.y as int));
    let mut draw_y: usize = 0;
    while draw_y < count
        invariant
            draw_y <= count,
            count == shown_rows(n as int, scroll_y as int, window_size.y as int),
            n == lines@.len(),
            ls == views(lines@),
            ts == line_tokens(opt_view(*tokens), scroll_y as int),
            code_text_ok(g0, ls, scroll_y as int, count as nat, offset_x as int, *mode, cursor_pos),
            code_tokens_ok(ls, scroll_y as int, count as nat, offset_x as int, *mode, cursor_pos, ts),
            renderer@.grid == code_grid(g0, ls, scroll_y as int, draw_y as nat, offset_x as int),
            renderer@.colors == c0 + code_colors(ls, scroll_y as int, draw_y as nat, offset_x as int, *mode, cursor_pos, ts),
            renderer@.size == old(renderer)@.size,
            renderer@.cursor_pos == old(renderer)@.cursor_pos,
            renderer@.cursor_style == old(renderer)@.cursor_style,
        decreases count - draw_y,
    {
        let y = scroll_y + draw_y;
        let line = &lines[y];
        proof {
            assert(code_text_ok(g0, ls, scroll_y as int, draw_y as nat, offset_x as int, *mode, cursor_pos));
            lemma_code_shape(g0, ls, scroll_y as int, draw_y as nat, offset_x as int, *mode, cursor_pos);
            assert(code_line_text_ok(g0, ls, scroll_y as int, draw_y as int, offset_x as int, *mode, cursor_pos));
            assert(code_line_tokens_ok(ls, scroll_y as int, draw_y as int, offset_x as int, *mode, cursor_pos, ts));
            assert(ls[y as int] == line@);
            lemma_line_text_ok_shape(renderer@.grid, g0, line@, y as int, draw_y as int, offset_x as int, *mode, cursor_pos);
        }
        render_code_line(renderer, mode, offset_x, scroll_y, cursor_pos, y, draw_y, line, tokens);
        draw_y = draw_y + 1;
    }
}

/// Writes the numbers of the lines shown, from `scroll_y + 1` on, down the left edge, each
/// left-aligned in `offset_x` columns.
pub fn render_numbers(
    renderer: &mut UIRenderer,
    window_size: U16Vec2,
    lines: &Vec<WideString>,
    scroll_y: usize,
    offset_x: usize,
)
    requires
        numbers_fit(
            old(renderer)@.grid,
            scroll_y as int,
            shown_rows(lines@.len() as int, scroll_y as int, window_size.y as int) as nat,
            offset_x as nat,
        ),
    ensures
        final(renderer)@.grid == numbers_grid(
            old(renderer)@.grid,
            scroll_y as int,
            shown_rows(lines@.len() as int, scroll_y as int, window_size.y as int) as nat,
            offset_x as nat,
        ),
        final(renderer)@.colors == old(renderer)@.colors,
        final(renderer)@.size == old(renderer)@.size,
        final(renderer)@.cursor_pos == old(renderer)@.cursor_pos,
        final(renderer)@.cursor_style == old(renderer)@.cursor_style,
{
    let ghost g0 = renderer@.grid;
    let n = lines.len();
    let rows = window_size.y as usize;
    let count: usize = if scroll_y < n {
        if rows < n - scroll_y { rows } else { n - scroll_y }
    } else {
        0
    };
    let mut draw_y: usize = 0;
    while draw_y < count
        invariant
            draw_y <= count,
            count <= rows,
            rows == window_size.y,
            count > 0 ==> scroll_y + count <= n,
            numbers_fit(g0, scroll_y as int, count as nat, offset_x as nat),
            renderer@.grid == numbers_grid(g0, scroll_y as int, draw_y as nat, offset_x as nat),
            renderer@.colors == old(renderer)@.colors,
            renderer@.size == old(renderer)@.size,
            renderer@.cursor_pos == old(renderer)@.cursor_pos,
            renderer@.cursor_style == old(renderer)@.cursor_style,
        decreases count - draw_y,
    {
        let text = number_text(scroll_y + draw_y + 1, offset_x);
        proof {
            assert(numbers_fit(g0, scroll_y as int, draw_y as nat, offset_x as nat));
            lemma_numbers_shape(g0, scroll_y as int, draw_y as nat, offset_x as nat);
            assert(text_fits_row(g0, 0, draw_y as int, number_row(scroll_y as int, draw_y as int, offset_x as nat)));
            lemma_fits_same_shape(renderer@.grid, g0, 0, draw_y as int, text@);
        }
        renderer.render_text(text, U16Vec2::new(0, draw_y as u16));
        draw_y = draw_y + 1;
    }
}

/// The number of bytes of the command box's text: the colon and the command.
pub open spec fn command_box_width(cmd: Seq<char>) -> int {
    (1 + utf8_bytes(cmd)) as int
}

/// The command box: a colon, the command, and spaces up to `width` bytes.
pub open spec fn command_box_text(cmd: Seq<char>, width: int) -> Seq<char> {
    seq![':'] + cmd + Seq::new((width - command_box_width(cmd)) as nat, |i: int| ' ')
}

/// Whether the command box fits on the last row of a window of `size`.
pub open spec fn command_box_ok(g: Seq<Seq<char>>, size: U16Vec2, cmd: Seq<char>) -> bool {
    &&& size.y >= 1
    &&& command_box_width(cmd) <= size.x
    &&& text_fits_row(g, 0, size.y - 1, command_box_text(cmd, size.x as int))
}

/// Writes the command box on the last row of the window and gives where its cursor stands:
/// after the command, counted in bytes.
pub fn render_command_box(renderer: &mut UIRenderer, window_size: U16Vec2, command_input_buf: &String) -> (r: U16Vec2)
    requires
        command_box_ok(old(renderer)@.grid, window_size, command_input_buf@),
    ensures
        final(renderer)@.grid == write_text(
            old(renderer)@.grid,
            0,
            window_size.y - 1,
            command_box_text(command_input_buf@, window_size.x as int),
        ),
        r.x == command_box_width(command_input_buf@),
        r.y == window_size.y - 1,
        final(renderer)@.colors == old(renderer)@.colors,
        final(renderer)@.size == old(renderer)@.size,
        final(renderer)@.cursor_pos == old(renderer)@.cursor_pos,
        final(renderer)@.cursor_style == old(renderer)@.cursor_style,
{
    let y = window_size.y - 1;
    let mut buf = String::new();
    string_push(&mut buf, ':');
    let chars = str_chars(command_input_buf.as_str());
    let ghost cs = chars@;
    let mut len: usize = 1;
    let mut i: usize = 0;
    while i < chars.len()
        invariant
            0 <= i <= cs.len(),
            cs == chars@,
            cs == command_input_buf@,
            1 + utf8_bytes(cs) <= window_size.x,
            buf@ == seq![':'] + cs.take(i as int),
            len == 1 + utf8_bytes(cs.take(i as int)),
        decreases cs.len() - i,
    {
        let c = chars[i];
        proof {
            lemma_bytes_prefix(cs, i + 1);
            assert(cs.take(i + 1).drop_last() =~= cs.take(i as int));
            assert(cs.take(i + 1).last() == c);
            assert(utf8_bytes(cs.take(i + 1)) == utf8_bytes(cs.take(i as int)) + utf8_len_spec(c));
        }
        string_push(&mut buf, c);
        len = len + utf8_len(c);
        assert(buf@ =~= seq![':'] + cs.take(i + 1));
        i = i + 1;
    }
    assert(cs.take(cs.len() as int) =~= cs);
    let width = window_size.x as usize;
    let mut k = len;
    while k < width
        invariant
            len <= k <= width,
            width == window_size.x,
            buf@ == seq![':'] + cs + Seq::new((k - len) as nat, |j: int| ' '),
        decreases width - k,
    {
        string_push(&mut buf, ' ');
        assert(buf@ =~= seq![':'] + cs + Seq::new((k + 1 - len) as nat, |j: int| ' '));
        k = k + 1;
    }
    assert(buf@ =~= command_box_text(cs, window_size.x as int));
    renderer.render_text(buf, U16Vec2::new(0, y));
    U16Vec2::new(len as u16, y)
}

/// Whether the selection of mode `mode` on line `y`, `len` long, ends within the line.
pub fn visual_fits(len: usize, y: usize, cursor: UVec2, mode: &EditorMode) -> (r: bool)
    ensures
        r == (visual_span(*mode, len as int, y as int, cursor) matches Some((_, hi)) ==> hi <= len),
{
    match mode {
        EditorMode::Visual { start } => {
            let start = *start;
            let min_y = if start.y <= cursor.y { start.y } else { cursor.y };
            let max_y = if start.y <= cursor.y { cursor.y } else { start.y };
            if min_y <= y && max_y >= y {
                let forward = start.lt(&cursor) || len == 0;
                let s: u128 = if start.y == y {
                    if forward { start.x as u128 } else { start.x as u128 + 1 }
                } else if start.y < y {
                    0
                } else {
                    len as u128
                };
                let e: u128 = if cursor.y == y {
                    if forward { cursor.x as u128 } else { cursor.x as u128 + 1 }
                } else if cursor.y < y {
                    0
                } else {
                    len as u128
                };
                let hi = if s <= e { e } else { s };
                hi <= len as u128
            } else {
                true
            }
        },
        _ => true,
    }
}

/// Whether line `y` fits on row `draw_y` after `offset_x` columns, as `line_text_ok` says.
pub fn line_text_fits(
    renderer: &UIRenderer,
    line: &WideString,
    y: usize,
    draw_y: usize,
    offset_x: usize,
    mode: &EditorMode,
    cursor: UVec2,
) -> (r: bool)
    ensures
        r == line_text_ok(renderer@.grid, line@, y as int, draw_y as int, offset_x as int, *mode, cursor),
{
    let len = line.len();
    if draw_y > 0xffff || len > usize::MAX - offset_x {
        return false;
    }
    if !renderer.fits_row(offset_x, draw_y, len) {
        return false;
    }
    if draw_y < renderer.row_count() && offset_x + len > 0xffff {
        return false;
    }
    visual_fits(len, y, cursor, mode)
}

/// Whether the numbers of `count` lines from line `first` fit their rows, as `numbers_fit` says.
pub fn numbers_fit_check(renderer: &UIRenderer, first: usize, count: usize, width: usize) -> (r: bool)
    requires
        first + count <= usize::MAX,
    ensures
        r == numbers_fit(renderer@.grid, first as int, count as nat, width as nat),
{
    let mut i: usize = 0;
    while i < count
        invariant
            i <= count,
            first + count <= usize::MAX,
            numbers_fit(renderer@.grid, first as int, i as nat, width as nat),
        decreases count - i,
    {
        let d = count_digits(first + i + 1);
        let len = if d < width { width } else { d };
        proof {
            lemma_decimal_len((first + i + 1) as nat);
            assert(number_row(first as int, i as int, width as nat).len() == len);
        }
        if !renderer.fits_row(0, i, len) {
            assert(!text_fits_row(renderer@.grid, 0, i as int, number_row(first as int, i as int, width as nat)));
            return false;
        }
        assert(text_fits_row(renderer@.grid, 0, i as int, number_row(first as int, i as int, width as nat)));
        i = i + 1;
    }
    true
}

/// Whether `count` lines from line `first` fit their rows, as `code_text_ok` says.
pub fn code_text_fits(
    renderer: &UIRenderer,
    lines: &Vec<WideString>,
    first: usize,
    count: usize,
    offset_x: usize,
    mode: &EditorMode,
    cursor: UVec2,
) -> (r: bool)
    requires
        count > 0 ==> first + count <= lines@.len(),
    ensures
        r == code_text_ok(renderer@.grid, views(lines@), first as int, count as nat, offset_x as int, *mode, cursor),
{
    let ghost ls = views(lines@);
    let n = lines.len();
    let mut i: usize = 0;
    while i < count
        invariant
            i <= count,
            count > 0 ==> first + count <= lines@.len(),
            n == lines@.len(),
            ls == views(lines@),
            forall|k: int| 0 <= k < i ==> #[trigger] code_line_text_ok(renderer@.grid, ls, first as int, k, offset_x as int, *mode, cursor),
        decreases count - i,
    {
        if !line_text_fits(renderer, &lines[first + i], first + i, i, offset_x, mode, cursor) {
            assert(!code_line_text_ok(renderer@.grid, ls, first as int, i as int, offset_x as int, *mode, cursor));
            return false;
        }
        assert(code_line_text_ok(renderer@.grid, ls, first as int, i as int, offset_x as int, *mode, cursor));
        i = i + 1;
    }
    true
}

/// Whether the tokens fit each of `count` lines from line `first`, as `code_tokens_ok` says.
pub fn code_tokens_fit(
    renderer: &UIRenderer,
    lines: &Vec<WideString>,
    first: usize,
    count: usize,
    offset_x: usize,
    mode: &EditorMode,
    cursor: UVec2,
    tokens: &Option<Vec<HighlightToken>>,
    skip: usize,
) -> (r: bool)
    requires
        code_text_ok(renderer@.grid, views(lines@), first as int, count as nat, offset_x as int, *mode, cursor),
    ensures
        r == code_tokens_ok(
            views(lines@),
            first as int,
            count as nat,
            offset_x as int,
            *mode,
            cursor,
            line_tokens(opt_view(*tokens), skip as int),
        ),
{
    let ghost ls = views(lines@);
    let ghost ts = line_tokens(opt_view(*tokens), skip as int);
    let n = lines.len();
    let mut i: usize = 0;
    while i < count
        invariant
            i <= count,
            n == lines@.len(),
            ls == views(lines@),
            ts == line_tokens(opt_view(*tokens), skip as int),
            code_text_ok(renderer@.grid, ls, first as int, count as nat, offset_x as int, *mode, cursor),
            forall|k: int| 0 <= k < i ==> #[trigger] code_line_tokens_ok(ls, first as int, k, offset_x as int, *mode, cursor, ts),
        decreases count - i,
    {
        assert(code_line_text_ok(renderer@.grid, ls, first as int, i as int, offset_x as int, *mode, cursor));
        let y = first + i;
        let line = &lines[y];
        assert(ls[y as int] == line@);
        let len = line.len();
        let ok = match mode {
            EditorMode::Visual { start } => match visual_bounds(len, y, cursor, *start) {
                Some((lo, hi)) => {
                    tokens_fit(tokens, skip, 0, y, offset_x, lo) && tokens_fit(tokens, skip, lo, y, offset_x, hi - lo)
                        && tokens_fit(tokens, skip, hi, y, offset_x, len - hi)
                },
                None => tokens_fit(tokens, skip, 0, y, offset_x, len),
            },
            _ => tokens_fit(tokens, skip, 0, y, offset_x, len),
        };
        if !ok {
            assert(!code_line_tokens_ok(ls, first as int, i as int, offset_x as int, *mode, cursor, ts));
            return false;
        }
        assert(code_line_tokens_ok(ls, first as int, i as int, offset_x as int, *mode, cursor, ts));
        i = i + 1;
    }
    true
}

/// The columns of line numbers in front of the code of `n` lines: the digits of the last
/// line's index and a space.
pub open spec fn panel_offset(n: int) -> int {
    (decimal_digits((n - 1) as nat) + 1) as int
}

/// The number of lines of `ls` shown from line `scroll_y` in a window of `size`.
pub open spec fn buffer_rows(ls: Seq<Seq<char>>, scroll_y: int, size: U16Vec2) -> nat {
    shown_rows(ls.len() as int, scroll_y, size.y as int) as nat
}

/// Whether the lines of `ls` shown from line `scroll_y`, and their numbers, fit the grid.
pub open spec fn buffer_text_ok(g: Seq<Seq<char>>, size: U16Vec2, ls: Seq<Seq<char>>, scroll_y: int, mode: EditorMode, cursor: UVec2) -> bool {
    &&& ls.len() >= 1
    &&& 0 <= scroll_y <= isize::MAX
    &&& numbers_fit(g, scroll_y, buffer_rows(ls, scroll_y, size), panel_offset(ls.len() as int) as nat)
    &&& code_text_ok(g, ls, scroll_y, buffer_rows(ls, scroll_y, size), panel_offset(ls.len() as int), mode, cursor)
}

/// The grid with the numbers and the lines of `ls` shown from line `scroll_y`.
pub open spec fn buffer_grid(g: Seq<Seq<char>>, size: U16Vec2, ls: Seq<Seq<char>>, scroll_y: int) -> Seq<Seq<char>> {
    let count = buffer_rows(ls, scroll_y, size);
    let offset_x = panel_offset(ls.len() as int);
    code_grid(numbers_grid(g, scroll_y, count, offset_x as nat), ls, scroll_y, count, offset_x)
}

/// The tokens the shown lines are colored by: those after the first `scroll_y` where each
/// fits the part of the line it colors, else none.
pub open spec fn buffer_tokens(
    ls: Seq<Seq<char>>,
    scroll_y: int,
    size: U16Vec2,
    mode: EditorMode,
    cursor: UVec2,
    tokens: Option<Seq<HighlightToken>>,
) -> Seq<HighlightToken> {
    let ts = line_tokens(tokens, scroll_y);
    if code_tokens_ok(ls, scroll_y, buffer_rows(ls, scroll_y, size), panel_offset(ls.len() as int), mode, cursor, ts) {
        ts
    } else {
        seq![]
    }
}

/// The colors laid over the lines of `ls` shown from line `scroll_y`.
pub open spec fn buffer_colors(
    ls: Seq<Seq<char>>,
    scroll_y: int,
    size: U16Vec2,
    mode: EditorMode,
    cursor: UVec2,
    tokens: Option<Seq<HighlightToken>>,
) -> Seq<ColorSpan> {
    code_colors(
        ls,
        scroll_y,
        buffer_rows(ls, scroll_y, size),
        panel_offset(ls.len() as int),
        mode,
        cursor,
        buffer_tokens(ls, scroll_y, size, mode, cursor, tokens),
    )
}

/// Where the cursor drawn at `draw` in the text stands on screen: moved right past the line
/// numbers and up by the scroll; the origin where that leaves the range of `usize`.
pub open spec fn panel_cursor(draw: UVec2, offset_x: int, scroll_y: int) -> U16Vec2 {
    if draw.x + offset_x <= usize::MAX && draw.y >= scroll_y {
        U16Vec2 { x: (draw.x + offset_x) as u16, y: (draw.y - scroll_y) as u16 }
    } else {
        U16Vec2 { x: 0, y: 0 }
    }
}

/// Whether `count` lines that fit one grid fit another of the same shape.
pub proof fn lemma_code_text_ok_shape(
    a: Seq<Seq<char>>,
    b: Seq<Seq<char>>,
    ls: Seq<Seq<char>>,
    first: int,
    count: nat,
    offset_x: int,
    mode: EditorMode,
    cursor: UVec2,
)
    requires
        same_shape(a, b),
        code_text_ok(b, ls, first, count, offset_x, mode, cursor),
    ensures
        code_text_ok(a, ls, first, count, offset_x, mode, cursor),
{
    assert forall|i: int| 0 <= i < count implies #[trigger] code_line_text_ok(a, ls, first, i, offset_x, mode, cursor) by {
        assert(code_line_text_ok(b, ls, first, i, offset_x, mode, cursor));
        lemma_line_text_ok_shape(a, b, ls[first + i], first + i, i, offset_x, mode, cursor);
    }
}

/// Draws the numbers and the lines of a buffer shown from line `scroll_y`, colored by
/// `tokens` where each fits the part of the line it colors, and gives where the cursor,
/// drawn at `draw_pos` in the text, stands on screen. Where the text does not fit, nothing is
/// drawn and the cursor stands at the origin.
pub fn render_buffer(
    renderer: &mut UIRenderer,
    size: U16Vec2,
    mode: &EditorMode,
    lines: &Vec<WideString>,
    scroll_y: usize,
    cursor_pos: UVec2,
    draw_pos: UVec2,
    tokens: &Option<Vec<HighlightToken>>,
) -> (r: U16Vec2)
    ensures
        buffer_text_ok(old(renderer)@.grid, size, views(lines@), scroll_y as int, *mode, cursor_pos) ==> {
            &&& final(renderer)@.grid == buffer_grid(old(renderer)@.grid, size, views(lines@), scroll_y as int)
            &&& final(renderer)@.colors == old(renderer)@.colors + buffer_colors(
                views(lines@),
                scroll_y as int,
                size,
                *mode,
                cursor_pos,
                opt_view(*tokens),
            )
            &&& r == panel_cursor(draw_pos, panel_offset(lines@.len() as int), scroll_y as int)
        },
        !buffer_text_ok(old(renderer)@.grid, size, views(lines@), scroll_y as int, *mode, cursor_pos) ==> {
            &&& final(renderer)@.grid == old(renderer)@.grid
            &&& final(renderer)@.colors == old(renderer)@.colors
            &&& r == (U16Vec2 { x: 0, y: 0 })
        },
        final(renderer)@.size == old(renderer)@.size,
        final(renderer)@.cursor_pos == old(renderer)@.cursor_pos,
        final(renderer)@.cursor_style == old(renderer)@.cursor_style,
{
    let ghost g0 = renderer@.grid;
    let ghost ls = views(lines@);
    let n = lines.len();
    if n == 0 || scroll_y > isize::MAX as usize {
        return U16Vec2::zero();
    }
    let offset_x = count_digits(n - 1) + 1;
    let rows = size.y as usize;
    let count: usize = if scroll_y < n {
        if rows < n - scroll_y { rows } else { n - scroll_y }
    } else {
        0
    };
    assert(count == buffer_rows(ls, scroll_y as int, size));
    if !numbers_fit_check(renderer, scroll_y, count, offset_x) {
        return U16Vec2::zero();
    }
    if !code_text_fits(renderer, lines, scroll_y, count, offset_x, mode, cursor_pos) {
        return U16Vec2::zero();
    }
    let use_tokens = code_tokens_fit(renderer, lines, scroll_y, count, offset_x, mode, cursor_pos, tokens, scroll_y);
    let none: Option<Vec<HighlightToken>> = None;
    let tks = if use_tokens { tokens } else { &none };
    proof {
        let ts = line_tokens(opt_view(*tks), scroll_y as int);
        if !use_tokens {
            assert(ts =~= Seq::<HighlightToken>::empty());
            assert forall|i: int| 0 <= i < count implies #[trigger] code_line_tokens_ok(ls, scroll_y as int, i, offset_x as int, *mode, cursor_pos, ts) by {}
        }
        assert(ts == buffer_tokens(ls, scroll_y as int, size, *mode, cursor_pos, opt_view(*tokens)));
    }
    let r = match draw_pos.checked_add(IVec2::new(offset_x as isize, -(scroll_y as isize))) {
        Some(v) => U16Vec2::new(v.x as u16, v.y as u16),
        None => U16Vec2::zero(),
    };
    render_numbers(renderer, size, lines, scroll_y, offset_x);
    proof {
        lemma_numbers_shape(g0, scroll_y as int, count as nat, offset_x as nat);
        lemma_code_text_ok_shape(renderer@.grid, g0, ls, scroll_y as int, count as nat, offset_x as int, *mode, cursor_pos);
    }
    render_code(renderer, size, mode, offset_x, scroll_y, cursor_pos, lines, tks);
    r
}

/// The shape of the cursor in each mode: a block to act on a character, a bar to type.
pub open spec fn cursor_style_of(mode: EditorMode) -> CursorStyle {
    match mode {
        EditorMode::Normal => CursorStyle::SteadyBlock,
        EditorMode::Visual { .. } => CursorStyle::SteadyBlock,
        EditorMode::Insert { .. } => CursorStyle::SteadyBar,
        EditorMode::Command => CursorStyle::SteadyBar,
    }
}

/// Where the cursor of buffer `b` is drawn in its text.
pub open spec fn buffer_draw_pos(b: BufferView, mode: EditorMode) -> UVec2 {
    let line = b.code[b.cursor.y as int];
    UVec2 {
        x: draw_width(line.take(min_spec(clamp_x_spec(b.cursor.x as int, line.len() as int, mode), line.len() as int))) as usize,
        y: b.cursor.y,
    }
}

/// Whether the current buffer of `e` is drawn on grid `g`.
pub open spec fn panel_draws_buffer(g: Seq<Seq<char>>, size: U16Vec2, e: EditorView) -> bool {
    match current_buffer(e) {
        Some(b) => buffer_text_ok(g, size, b.code, b.scroll.y as int, e.mode, cursor_pos_spec(b.code, b.cursor, e.mode)),
        None => false,
    }
}

/// The grid after drawing the current buffer of `e`, where it is drawn.
pub open spec fn panel_buffer_grid(g: Seq<Seq<char>>, size: U16Vec2, e: EditorView) -> Seq<Seq<char>> {
    if panel_draws_buffer(g, size, e) {
        let b = current_buffer(e)->Some_0;
        buffer_grid(g, size, b.code, b.scroll.y as int)
    } else {
        g
    }
}

/// Where the cursor of the current buffer of `e` stands on screen; the origin where the
/// buffer is not drawn.
pub open spec fn panel_buffer_cursor(g: Seq<Seq<char>>, size: U16Vec2, e: EditorView) -> U16Vec2 {
    if panel_draws_buffer(g, size, e) {
        let b = current_buffer(e)->Some_0;
        panel_cursor(buffer_draw_pos(b, e.mode), panel_offset(b.code.len() as int), b.scroll.y as int)
    } else {
        U16Vec2 { x: 0, y: 0 }
    }
}

/// Whether the command box is drawn: in command mode, where it fits.
pub open spec fn panel_draws_command(g: Seq<Seq<char>>, size: U16Vec2, e: EditorView) -> bool {
    e.mode is Command && command_box_ok(panel_buffer_grid(g, size, e), size, e.command_input)
}

/// The grid after drawing the editor `e` in a window of `size`.
pub open spec fn panel_grid(g: Seq<Seq<char>>, size: U16Vec2, e: EditorView) -> Seq<Seq<char>> {
    let h = panel_buffer_grid(g, size, e);
    if panel_draws_command(g, size, e) {
        write_text(h, 0, size.y - 1, command_box_text(e.command_input, size.x as int))
    } else {
        h
    }
}

/// Where the cursor stands after drawing the editor `e`: after the command in the command
/// box, else on the buffer's cursor.
pub open spec fn panel_cursor_pos(g: Seq<Seq<char>>, size: U16Vec2, e: EditorView) -> U16Vec2 {
    if panel_draws_command(g, size, e) {
        U16Vec2 { x: command_box_width(e.command_input) as u16, y: (size.y - 1) as u16 }
    } else {
        panel_buffer_cursor(g, size, e)
    }
}

/// The panel that shows an editor: line numbers, code, selection and command box.
pub struct EditorPanel {}

impl EditorPanel {
    pub fn new() -> (r: Self) {
        EditorPanel {}
    }

    /// Draws `editor` in a window of `size`: the current buffer's line numbers and lines,
    /// colored by its highlighting; in command mode the command box on the last row; and
    /// the cursor, shaped by the mode. What does not fit the renderer is not drawn.
    pub fn render(&self, renderer: &mut UIRenderer, size: U16Vec2, editor: &Editor)
        requires
            editor_ok(editor@),
            current_buffer(editor@) matches Some(b) ==> b.code[b.cursor.y as int].len() * 255 <= usize::MAX,
        ensures
            final(renderer)@.grid == panel_grid(old(renderer)@.grid, size, editor@),
            final(renderer)@.cursor_pos == panel_cursor_pos(old(renderer)@.grid, size, editor@),
            final(renderer)@.cursor_style == Some(cursor_style_of(editor@.mode)),
            final(renderer)@.size == old(renderer)@.size,
            panel_draws_buffer(old(renderer)@.grid, size, editor@) ==> final(renderer)@.colors == old(renderer)@.colors
                + buffer_colors(
                current_buffer(editor@)->Some_0.code,
                current_buffer(editor@)->Some_0.scroll.y as int,
                size,
                editor@.mode,
                cursor_pos_spec(current_buffer(editor@)->Some_0.code, current_buffer(editor@)->Some_0.cursor, editor@.mode),
                current_highlight(editor@),
            ),
            !panel_draws_buffer(old(renderer)@.grid, size, editor@) ==> final(renderer)@.colors == old(renderer)@.colors,
    {
        let ghost g0 = renderer@.grid;
        let mode = editor.get_mode();
        let mut draw_cursor_pos = U16Vec2::zero();
        match editor.get_current_buffer() {
            Some(current) => {
                let lines = current.get_code_buf().get_lines();
                let scroll_y = current.get_scroll_position().y;
                let cursor_pos = current.get_cursor_position(&mode);
                let draw = current.get_draw_cursor_position(&mode);
                let tokens = current.highlight();
                draw_cursor_pos = render_buffer(renderer, size, &mode, &lines, scroll_y, cursor_pos, draw, &tokens);
            },
            None => {},
        }
        assert(renderer@.grid == panel_buffer_grid(g0, size, editor@));
        assert(draw_cursor_pos == panel_buffer_cursor(g0, size, editor@));
        if let EditorMode::Command = mode {
            if command_box_fits(renderer, size, editor.get_command_input_buf()) {
                draw_cursor_pos = render_command_box(renderer, size, editor.get_command_input_buf());
            }
        }
        let style = match mode {
            EditorMode::Normal => CursorStyle::SteadyBlock,
            EditorMode::Visual { .. } => CursorStyle::SteadyBlock,
            EditorMode::Insert { .. } => CursorStyle::SteadyBar,
            EditorMode::Command => CursorStyle::SteadyBar,
        };
        renderer.set_cursor(draw_cursor_pos, Some(style));
    }
}

/// Whether the command box fits, as `command_box_ok` says.
pub fn command_box_fits(renderer: &UIRenderer, size: U16Vec2, cmd: &String) -> (r: bool)
    ensures
        r == command_box_ok(renderer@.grid, size, cmd@),
{
    let chars = str_chars(cmd.as_str());
    let ghost cs = chars@;
    let width = size.x as usize;
    if size.y < 1 || width < 1 {
        return false;
    }
    let mut len: usize = 1;
    let mut i: usize = 0;
    while i < chars.len()
        invariant
            0 <= i <= cs.len(),
            cs == chars@,
            cs == cmd@,
            len == 1 + utf8_bytes(cs.take(i as int)),
            i + 1 <= len <= width,
            width == size.x,
        decreases cs.len() - i,
    {
        let c = chars[i];
        proof {
            assert(cs.take(i + 1).drop_last() =~= cs.take(i as int));
            assert(utf8_bytes(cs.take(i + 1)) == utf8_bytes(cs.take(i as int)) + utf8_len_spec(c));
        }
        len = len + utf8_len(c);
        if len > width {
            proof {
                lemma_bytes_prefix(cs, i + 1);
            }
            return false;
        }
        i = i + 1;
    }
    assert(cs.take(cs.len() as int) =~= cs);
    assert(cs == cmd@);
    let text_len = 1 + chars.len() + (width - len);
    assert(command_box_text(cs, size.x as int).len() == text_len);
    renderer.fits_row(0, (size.y - 1) as usize, text_len)
}

} // verus!
