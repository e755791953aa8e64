use vstd::prelude::*;

use crate::editor::buf::code_buf::{cursor_pos_spec, push_wide, views};
use crate::editor::editor::{current_buffer, editor_ok, Editor};
use crate::event::{count_digits, number_text};
use crate::language_support::highlight::{lemma_bytes_prefix, utf8_bytes, utf8_len, utf8_len_spec};
use crate::mode::EditorMode;
use crate::text::{str_chars, string_push};
use crate::ui::editor_panel::{
    buffer_draw_pos, command_box_text, command_box_width, number_row, panel_offset, shown_rows, visual_bounds,
    visual_fits, visual_span,
};
use crate::vec2::{IVec2, UVec2};
use crate::wide_string::WideString;

verus! {

/// The escape code that resets the colors.
pub open spec fn reset_code() -> Seq<char> {
    seq!['\x1b', '[', '0', 'm']
}

/// The escape code that sets the background: white for a selection, the terminal's own
/// otherwise.
pub open spec fn background_code(select: bool) -> Seq<char> {
    if select {
        seq!['\x1b', '[', '4', '8', ';', '5', ';', '1', '5', 'm']
    } else {
        seq!['\x1b', '[', '4', '9', 'm']
    }
}

/// The escape code of a color with colors turned off.
pub open spec fn colorless_code() -> Seq<char> {
    seq!['\x1b', '[', 'm']
}

/// crossterm's `ResetColor` as text.
/// Trusted: calls `Command::write_ansi` of crossterm's `ResetColor` on an empty `String`,
/// which writes `ESC [ 0 m`; writing to a `String` cannot fail.
#[verifier::external_body]
fn reset_color_text() -> (r: String)
    ensures
        r@ == reset_code(),
{
    let mut s = String::new();
    match crossterm::Command::write_ansi(&crossterm::style::ResetColor, &mut s) {
        Ok(()) => s,
        Err(_) => String::new(),
    }
}

/// crossterm's `SetBackgroundColor(Color::White)` as text.
/// Trusted: calls `Command::write_ansi` of the command on an empty `String`, which writes
/// `ESC [ 48;5;15 m`, or `ESC [ m` where the environment variable `NO_COLOR` is set;
/// writing to a `String` cannot fail.
#[verifier::external_body]
fn select_background_text() -> (r: String)
    ensures
        r@ == background_code(true) || r@ == colorless_code(),
{
    let mut s = String::new();
    let command = crossterm::style::SetBackgroundColor(crossterm::style::Color::White);
    match crossterm::Command::write_ansi(&command, &mut s) {
        Ok(()) => s,
        Err(_) => String::new(),
    }
}

/// crossterm's `SetBackgroundColor(Color::Reset)` as text.
/// Trusted: calls `Command::write_ansi` of the command on an empty `String`, which writes
/// `ESC [ 49 m`, or `ESC [ m` where the environment variable `NO_COLOR` is set; writing
/// to a `String` cannot fail.
#[verifier::external_body]
fn plain_background_text() -> (r: String)
    ensures
        r@ == background_code(false) || r@ == colorless_code(),
{
    let mut s = String::new();
    let command = crossterm::style::SetBackgroundColor(crossterm::style::Color::Reset);
    match crossterm::Command::write_ansi(&command, &mut s) {
        Ok(()) => s,
        Err(_) => String::new(),
    }
}

/// The escape codes a renderer writes: the color reset, and the background of selected and
/// of other text.
pub struct RendererCodes {
    pub reset: Seq<char>,
    pub select_bg: Seq<char>,
    pub plain_bg: Seq<char>,
}

/// The text of line `y` as drawn: the part before, in and after the selection, each behind
/// its background code; the whole line behind the plain background outside the selection.
pub open spec fn line_text(line: Seq<char>, y: int, mode: EditorMode, cursor: UVec2, codes: RendererCodes) -> Seq<char> {
    match visual_span(mode, line.len() as int, y, cursor) {
        Some((lo, hi)) => codes.plain_bg + line.subrange(0, lo) + codes.select_bg + line.subrange(lo, hi) + codes.plain_bg
            + line.subrange(hi, line.len() as int),
        None => codes.plain_bg + line,
    }
}

/// The screen after appending the numbers of `count` lines from line `first` to its first rows.
pub open spec fn numbers_screen(s: Seq<Seq<char>>, first: int, count: int, width: nat, codes: RendererCodes) -> Seq<Seq<char>> {
    Seq::new(s.len(), |i: int| if i < count { s[i] + codes.reset + number_row(first, i, width) } else { s[i] })
}

/// The screen after appending `count` lines of `ls` from line `first` to its first rows.
pub open spec fn code_screen(
    s: Seq<Seq<char>>,
    ls: Seq<Seq<char>>,
    first: int,
    count: int,
    mode: EditorMode,
    cursor: UVec2,
    codes: RendererCodes,
) -> Seq<Seq<char>> {
    Seq::new(s.len(), |i: int| if i < count { s[i] + line_text(ls[first + i], first + i, mode, cursor, codes) } else { s[i] })
}

/// Whether each of `count` lines of `ls` from line `first` holds its selection.
pub open spec fn selections_fit(ls: Seq<Seq<char>>, first: int, count: int, mode: EditorMode, cursor: UVec2) -> bool {
    forall|i: int| 0 <= i < count ==> (#[trigger] visual_span(mode, ls[first + i].len() as int, first + i, cursor) matches Some((
        _,
        hi,
    )) ==> hi <= ls[first + i].len())
}

/// Whether the editor's current buffer, with `screen_len` rows and in a window of `size`,
/// can be drawn: it has a line, the rows it shows exist, and each selection lies within its line.
pub open spec fn render_ok(ls: Seq<Seq<char>>, scroll_y: int, size: UVec2, mode: EditorMode, cursor: UVec2, screen_len: int) -> bool {
    let count = shown_rows(ls.len() as int, scroll_y, size.y as int);
    &&& ls.len() >= 1
    &&& scroll_y <= isize::MAX
    &&& count <= screen_len
    &&& selections_fit(ls, scroll_y, count, mode, cursor)
}

/// Whether the command box can be drawn on the last row of a window of `size`.
pub open spec fn command_ok(size: UVec2, cmd: Seq<char>, screen_len: int) -> bool {
    &&& size.y >= 1
    &&& size.y <= screen_len
    &&& command_box_width(cmd) <= size.x
}

/// Where the cursor drawn at `draw` in the text stands on screen: moved right past the line
/// numbers and up by the scroll; `None` where that leaves the range of `usize`.
pub open spec fn screen_cursor(draw: UVec2, offset_x: int, scroll_y: int) -> Option<UVec2> {
    if draw.x + offset_x <= usize::MAX && draw.y >= scroll_y {
        Some(UVec2 { x: (draw.x + offset_x) as usize, y: (draw.y - scroll_y) as usize })
    } else {
        None
    }
}

/// The rows of a screen as character sequences.
pub open spec fn screen_rows(v: Seq<String>) -> Seq<Seq<char>> {
    Seq::new(v.len(), |i: int| v[i]@)
}

/// Appends the characters of `t` to `s`.
fn append_string(s: &mut String, t: &String)
    ensures
        final(s)@ == old(s)@ + t@,
{
    let chars = str_chars(t.as_str());
    let mut i: usize = 0;
    while i < chars.len()
        invariant
            0 <= i <= chars@.len(),
            chars@ == t@,
            s@ == old(s)@ + chars@.take(i as int),
        decreases chars@.len() - i,
    {
        string_push(s, chars[i]);
        assert(s@ =~= old(s)@ + chars@.take(i + 1));
        i = i + 1;
    }
    assert(chars@.take(chars@.len() as int) =~= chars@);
}

/// Draws the editor as rows of text with escape codes for the colors.
pub struct EditorRenderer {
    reset: String,
    select_bg: String,
    plain_bg: String,
}

impl View for EditorRenderer {
    type V = RendererCodes;

    closed spec fn view(&self) -> RendererCodes {
        RendererCodes { reset: self.reset@, select_bg: self.select_bg@, plain_bg: self.plain_bg@ }
    }
}

impl EditorRenderer {
    /// A renderer with the escape codes of the terminal's crate.
    pub fn new() -> (r: Self)
        ensures
            r@.reset == reset_code(),
            r@.select_bg == background_code(true) || r@.select_bg == colorless_code(),
            r@.plain_bg == background_code(false) || r@.plain_bg == colorless_code(),
    {
        EditorRenderer { reset: reset_color_text(), select_bg: select_background_text(), plain_bg: plain_background_text() }
    }

    /// Appends `text` to row `y` of `screen`.
    fn append_row(screen: &mut Vec<String>, y: usize, text: &String)
        requires
            y < old(screen)@.len(),
        ensures
            final(screen)@.len() == old(screen)@.len(),
            final(screen)@[y as int]@ == old(screen)@[y as int]@ + text@,
            forall|i: int| 0 <= i < old(screen)@.len() && i != y ==> final(screen)@[i] == old(screen)@[i],
    {
        let mut row = screen[y].clone();
        append_string(&mut row, text);
        screen.set(y, row);
    }

    /// Appends the numbers of the lines shown, from `scroll_y + 1` on, each after the color
    /// reset and left-aligned in `offset_x` columns, to the first rows.
    pub fn render_numbers(
        &self,
        screen: &mut Vec<String>,
        window_size: UVec2,
        lines: &Vec<WideString>,
        scroll_y: usize,
        offset_x: usize,
    )
        requires
            shown_rows(lines@.len() as int, scroll_y as int, window_size.y as int) <= old(screen)@.len(),
        ensures
            screen_rows(final(screen)@) == numbers_screen(
                screen_rows(old(screen)@),
                scroll_y as int,
                shown_rows(lines@.len() as int, scroll_y as int, window_size.y as int),
                offset_x as nat,
                self@,
            ),
    {
        let ghost s0 = screen_rows(old(screen)@);
        let n = lines.len();
        let count: usize = if scroll_y < n {
            if window_size.y < n - scroll_y { window_size.y } else { n - scroll_y }
        } else {
            0
        };
        let mut draw_y: usize = 0;
        while draw_y < count
            invariant
                draw_y <= count <= screen@.len(),
                count > 0 ==> scroll_y + count <= n,
                screen@.len() == s0.len(),
                screen_rows(screen@) == numbers_screen(s0, scroll_y as int, draw_y as int, offset_x as nat, self@),
            decreases count - draw_y,
        {
            let mut text = self.reset.clone();
            let number = number_text(scroll_y + draw_y + 1, offset_x);
            append_string(&mut text, &number);
            assert(text@ == self@.reset + number_row(scroll_y as int, draw_y as int, offset_x as nat));
            let ghost prev = screen_rows(screen@);
            assert(prev[draw_y as int] == s0[draw_y as int]);
            Self::append_row(screen, draw_y, &text);
            assert forall|i: int| 0 <= i < s0.len() implies #[trigger] screen_rows(screen@)[i] == numbers_screen(
                s0,
                scroll_y as int,
                draw_y + 1,
                offset_x as nat,
                self@,
            )[i] by {
                if i != draw_y {
                    assert(prev[i] == numbers_screen(s0, scroll_y as int, draw_y as int, offset_x as nat, self@)[i]);
                }
            }
            assert(screen_rows(screen@) =~= numbers_screen(s0, scroll_y as int, draw_y + 1, offset_x as nat, self@));
            draw_y = draw_y + 1;
        }
    }

    /// Appends part `code` of line `y`, behind the background of selected text or of other
    /// text, to row `draw_y`.
    pub fn render_code_string(
        &self,
        screen: &mut Vec<String>,
        x: usize,
        y: usize,
        draw_y: usize,
        is_select: bool,
        scroll_y: usize,
        code: &WideString,
    )
        requires
            draw_y < old(screen)@.len(),
        ensures
            final(screen)@.len() == old(screen)@.len(),
            final(screen)@[draw_y as int]@ == old(screen)@[draw_y as int]@ + (if is_select { self@.select_bg } else {
                self@.plain_bg
            }) + code@,
            forall|i: int| 0 <= i < old(screen)@.len() && i != draw_y ==> final(screen)@[i] == old(screen)@[i],
    {
        let mut text = if is_select { self.select_bg.clone() } else { self.plain_bg.clone() };
        push_wide(&mut text, code);
        Self::append_row(screen, draw_y, &text);
    }

    /// Appends line `y` to row `draw_y` with the selection of visual mode from `start_pos` to
    /// `cursor_pos` on a white background.
    pub fn render_code_visual_mode(
        &self,
        screen: &mut Vec<String>,
        y: usize,
        draw_y: usize,
        line: &WideString,
        cursor_pos: UVec2,
        start_pos: UVec2,
        scroll_y: usize,
    )
        requires
            draw_y < old(screen)@.len(),
            visual_span(EditorMode::Visual { start: start_pos }, line@.len() as int, y as int, cursor_pos) matches Some((_, hi))
                ==> hi <= line@.len(),
        ensures
            final(screen)@.len() == old(screen)@.len(),
            final(screen)@[draw_y as int]@ == old(screen)@[draw_y as int]@ + line_text(
                line@,
                y as int,
                EditorMode::Visual { start: start_pos },
                cursor_pos,
                self@,
            ),
            forall|i: int| 0 <= i < old(screen)@.len() && i != draw_y ==> final(screen)@[i] == old(screen)@[i],
    {
        let ghost row0 = screen@[draw_y as int]@;
        let len = line.len();
        match visual_bounds(len, y, cursor_pos, start_pos) {
            Some((lo, hi)) => {
                let front_text = line.get_range(0, lo);
                let select_text = line.get_range(lo, hi);
                let back_text = line.get_range(hi, len);
                self.render_code_string(screen, 0, y, draw_y, false, scroll_y, &front_text);
                self.render_code_string(screen, lo, y, draw_y, true, scroll_y, &select_text);
                self.render_code_string(screen, hi, y, draw_y, false, scroll_y, &back_text);
                assert(screen@[draw_y as int]@ =~= row0 + line_text(
                    line@,
                    y as int,
                    EditorMode::Visual { start: start_pos },
                    cursor_pos,
                    self@,
                ));
            },
            None => {
                self.render_code_string(screen, 0, y, draw_y, false, scroll_y, line);
            },
        }
    }

    /// Appends line `y` to row `draw_y`, as the mode shows it.
    pub fn render_code_line(
        &self,
        screen: &mut Vec<String>,
        mode: &EditorMode,
        scroll_y: usize,
        cursor_pos: UVec2,
        y: usize,
        draw_y: usize,
        line: &WideString,
    )
        requires
            draw_y < old(screen)@.len(),
            visual_span(*mode, line@.len() as int, y as int, cursor_pos) matches Some((_, hi)) ==> hi <= line@.len(),
        ensures
            final(screen)@.len() == old(screen)@.len(),
            final(screen)@[draw_y as int]@ == old(screen)@[draw_y as int]@ + line_text(
                line@,
                y as int,
                *mode,
                cursor_pos,
                self@,
            ),
            forall|i: int| 0 <= i < old(screen)@.len() && i != draw_y ==> final(screen)@[i] == old(screen)@[i],
    {
        match mode {
            EditorMode::Visual { start } => {
                self.render_code_visual_mode(screen, y, draw_y, line, cursor_pos, *start, scroll_y);
            },
            _ => {
                self.render_code_string(screen, 0, y, draw_y, false, scroll_y, line);
            },
        }
    }

    /// Appends the lines shown, from line `scroll_y` on, to the first rows.
    pub fn render_code(
        &self,
        screen: &mut Vec<String>,
        window_size: UVec2,
        mode: &EditorMode,
        scroll_y: usize,
        cursor_pos: UVec2,
        lines: &Vec<WideString>,
    )
        requires
            shown_rows(lines@.len() as int, scroll_y as int, window_size.y as int) <= old(screen)@.len(),
            selections_fit(
                views(lines@),
                scroll_y as int,
                shown_rows(lines@.len() as int, scroll_y as int, window_size.y as int),
                *mode,
                cursor_pos,
            ),
        ensures
            screen_rows(final(screen)@) == code_screen(
                screen_rows(old(screen)@),
                views(lines@),
                scroll_y as int,
                shown_rows(lines@.len() as int, scroll_y as int, window_size.y as int),
                *mode,
                cursor_pos,
                self@,
            ),
    {
        let ghost s0 = screen_rows(old(screen)@);
        let ghost ls = views(lines@);
        let n = lines.len();
        let count: usize = if scroll_y < n {
            if window_size.y < n - scroll_y { window_size.y } else { n - scroll_y }
        } else {
            0
        };
        let mut draw_y: usize = 0;
        while draw_y < count
            invariant
                draw_y <= count <= screen@.len(),
                count == shown_rows(n as int, scroll_y as int, window_size.y as int),
                n == lines@.len(),
                count > 0 ==> scroll_y + count <= n,
                ls == views(lines@),
                screen@.len() == s0.len(),
                selections_fit(ls, scroll_y as int, count as int, *mode, cursor_pos),
                screen_rows(screen@) == code_screen(s0, ls, scroll_y as int, draw_y as int, *mode, cursor_pos, self@),
            decreases count - draw_y,
        {
            let y = scroll_y + draw_y;
            let line = &lines[y];
            assert(ls[y as int] == line@);
            assert(visual_span(*mode, ls[scroll_y + draw_y].len() as int, scroll_y + draw_y, cursor_pos) matches Some((
                _,
                hi,
            )) ==> hi <= ls[scroll_y + draw_y].len());
            let ghost prev = screen_rows(screen@);
            assert(prev[draw_y as int] == s0[draw_y as int]);
            self.render_code_line(screen, mode, scroll_y, cursor_pos, y, draw_y, line);
            assert forall|i: int| 0 <= i < s0.len() implies #[trigger] screen_rows(screen@)[i] == code_screen(
                s0,
                ls,
                scroll_y as int,
                draw_y + 1,
                *mode,
                cursor_pos,
                self@,
            )[i] by {
                if i != draw_y {
                    assert(prev[i] == code_screen(s0, ls, scroll_y as int, draw_y as int, *mode, cursor_pos, self@)[i]);
                }
            }
            assert(screen_rows(screen@) =~= code_screen(s0, ls, scroll_y as int, draw_y + 1, *mode, cursor_pos, self@));
            draw_y = draw_y + 1;
        }
    }

    /// Replaces the last row of the window with the command box: a colon, the command, and
    /// spaces up to the window's width; gives where its cursor stands, after the command
    /// counted in bytes.
    pub fn render_command_box(&self, screen: &mut Vec<String>, window_size: UVec2, command_input_buf: &String) -> (r: UVec2)
        requires
            command_ok(window_size, command_input_buf@, old(screen)@.len() as int),
        ensures
            final(screen)@.len() == old(screen)@.len(),
            final(screen)@[window_size.y - 1]@ == command_box_text(command_input_buf@, window_size.x as int),
            forall|i: int| 0 <= i < old(screen)@.len() && i != window_size.y - 1 ==> final(screen)@[i] == old(screen)@[i],
            r.x == command_box_width(command_input_buf@),
            r.y == window_size.y - 1,
    {
        let y = window_size.y - 1;
        let mut buf = String::new();
        string_push(&mut buf, ':');
        let chars = str_chars(command_input_buf.as_str());
        let ghost cs = chars@;
        let mut len: usize = 1;
        let mut i: usize = 0;
        while i < chars.len()
            invariant
                0 <= i <= cs.len(),
                cs == chars@,
                cs == command_input_buf@,
                1 + utf8_bytes(cs) <= window_size.x,
                buf@ == seq![':'] + cs.take(i as int),
                len == 1 + utf8_bytes(cs.take(i as int)),
            decreases cs.len() - i,
        {
            let c = chars[i];
            proof {
                lemma_bytes_prefix(cs, i + 1);
                assert(cs.take(i + 1).drop_last() =~= cs.take(i as int));
                assert(cs.take(i + 1).last() == c);
                assert(utf8_bytes(cs.take(i + 1)) == utf8_bytes(cs.take(i as int)) + utf8_len_spec(c));
            }
            string_push(&mut buf, c);
            len = len + utf8_len(c);
            assert(buf@ =~= seq![':'] + cs.take(i + 1));
            i = i + 1;
        }
        assert(cs.take(cs.len() as int) =~= cs);
        let mut k = len;
        while k < window_size.x
            invariant
                len <= k <= window_size.x,
                buf@ == seq![':'] + cs + Seq::new((k - len) as nat, |j: int| ' '),
            decreases window_size.x - k,
        {
            string_push(&mut buf, ' ');
            assert(buf@ =~= seq![':'] + cs + Seq::new((k + 1 - len) as nat, |j: int| ' '));
            k = k + 1;
        }
        assert(buf@ =~= command_box_text(cs, window_size.x as int));
        screen.set(y, buf);
        UVec2::new(len, y)
    }

    /// Draws `editor` on the rows of `screen` for a window of `window_size`: line numbers and
    /// lines of the current buffer, and in command mode the command box; gives where the cursor
    /// stands, `None` without a current buffer or where the cursor's place leaves the range of
    /// `usize`.
    pub fn render(&self, screen: &mut Vec<String>, window_size: UVec2, editor: &Editor, command_input_buf: &String) -> (r: Option<UVec2>)
        requires
            editor_ok(editor@),
            current_buffer(editor@) matches Some(b) ==> {
                &&& b.code[b.cursor.y as int].len() * 255 <= usize::MAX
                &&& render_ok(
                    b.code,
                    b.scroll.y as int,
                    window_size,
                    editor@.mode,
                    cursor_pos_spec(b.code, b.cursor, editor@.mode),
                    old(screen)@.len() as int,
                )
                &&& editor@.mode is Command ==> command_ok(window_size, command_input_buf@, old(screen)@.len() as int)
            },
        ensures
            match current_buffer(editor@) {
                None => r is None && final(screen)@ == old(screen)@,
                Some(b) => {
                    let first = screen_rows(old(screen)@);
                    let count = shown_rows(b.code.len() as int, b.scroll.y as int, window_size.y as int);
                    let cursor = cursor_pos_spec(b.code, b.cursor, editor@.mode);
                    let drawn = code_screen(
                        numbers_screen(first, b.scroll.y as int, count, panel_offset(b.code.len() as int) as nat, self@),
                        b.code,
                        b.scroll.y as int,
                        count,
                        editor@.mode,
                        cursor,
                        self@,
                    );
                    if editor@.mode is Command {
                        &&& screen_rows(final(screen)@) == drawn.update(
                            window_size.y - 1,
                            command_box_text(command_input_buf@, window_size.x as int),
                        )
                        &&& r == Some(UVec2 { x: command_box_width(command_input_buf@) as usize, y: (window_size.y - 1) as usize })
                    } else {
                        &&& screen_rows(final(screen)@) == drawn
                        &&& r == screen_cursor(
                            buffer_draw_pos(b, editor@.mode),
                            panel_offset(b.code.len() as int),
                            b.scroll.y as int,
                        )
                    }
                },
            },
    {
        match editor.get_current_buffer() {
            Some(current) => {
                let mode = editor.get_mode();
                let lines = current.get_code_buf().get_lines();
                let offset_x = count_digits(lines.len() - 1) + 1;
                let scroll_y = current.get_scroll_position().y;
                let cursor_pos = current.get_cursor_position(&mode);
                let draw_cursor_pos = current.get_draw_cursor_position(&mode);
                let mut draw_cursor_pos = draw_cursor_pos.checked_add(IVec2::new(offset_x as isize, -(scroll_y as isize)));
                self.render_numbers(screen, window_size, &lines, scroll_y, offset_x);
                assert(screen@.len() == screen_rows(screen@).len());
                self.render_code(screen, window_size, &mode, scroll_y, cursor_pos, &lines);
                assert(screen@.len() == screen_rows(screen@).len());
                if let EditorMode::Command = mode {
                    let ghost before = screen_rows(screen@);
                    draw_cursor_pos = Some(self.render_command_box(screen, window_size, command_input_buf));
                    assert(screen_rows(screen@) =~= before.update(
                        window_size.y - 1,
                        command_box_text(command_input_buf@, window_size.x as int),
                    ));
                }
                draw_cursor_pos
            },
            None => None,
        }
    }
}

/// Whether the selection of each line shown lies within its line, as `selections_fit` says.
pub fn selections_fit_check(lines: &Vec<WideString>, first: usize, count: usize, mode: &EditorMode, cursor: UVec2) -> (r: bool)
    requires
        count > 0 ==> first + count <= lines@.len(),
    ensures
        r == selections_fit(views(lines@), first as int, count as int, *mode, cursor),
{
    let ghost ls = views(lines@);
    let n = lines.len();
    let mut i: usize = 0;
    while i < count
        invariant
            i <= count,
            n == lines@.len(),
            count > 0 ==> first + count <= n,
            ls == views(lines@),
            forall|k: int| 0 <= k < i ==> (#[trigger] visual_span(*mode, ls[first + k].len() as int, first + k, cursor) matches Some((
                _,
                hi,
            )) ==> hi <= ls[first + k].len()),
        decreases count - i,
    {
        let line = &lines[first + i];
        assert(ls[first + i] == line@);
        if !visual_fits(line.len(), first + i, cursor, mode) {
            return false;
        }
        i = i + 1;
    }
    true
}

} // verus!
