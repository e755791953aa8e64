use vstd::prelude::*;

use crate::action::EditorCursorAction;
use crate::editor::buf::code_buf::EditorCodeBuffer;
use crate::editor::buf::scroll::{offset_spec, EditorScroll};
use crate::mode::EditorMode;
use crate::text::{char_is_whitespace, char_width, is_white_space, unicode_char_width};
use crate::vec2::{IVec2, UVec2};

verus! {

/// The column the cursor may stand on in a line of `line_len` characters: in normal and
/// visual mode on a character, in insert mode also just past the end, in command mode anywhere.
pub open spec fn clamp_x_spec(x: int, line_len: int, mode: EditorMode) -> int {
    match mode {
        EditorMode::Normal | EditorMode::Visual { .. } => {
            if line_len == 0 {
                0
            } else if x > line_len - 1 {
                line_len - 1
            } else {
                x
            }
        },
        EditorMode::Insert { .. } => {
            if x > line_len {
                line_len
            } else {
                x
            }
        },
        EditorMode::Command => x,
    }
}

/// A clamped column stands on the line: on a character in normal and visual mode, at most
/// just past the end in insert mode; and clamping it again leaves it where it is.
pub proof fn law_clamp_x_in_line(x: int, line_len: int, mode: EditorMode)
    requires
        0 <= x,
        0 <= line_len,
        !(mode is Command),
    ensures
        0 <= clamp_x_spec(x, line_len, mode) <= line_len,
        (mode is Normal || mode is Visual) && line_len > 0 ==> clamp_x_spec(x, line_len, mode) < line_len,
        clamp_x_spec(clamp_x_spec(x, line_len, mode), line_len, mode) == clamp_x_spec(x, line_len, mode),
{
}

/// The line the cursor may stand on in a buffer of `count` lines.
pub open spec fn clamp_y_spec(y: int, count: int) -> int {
    if y > count - 1 {
        count - 1
    } else {
        y
    }
}

/// The column where a backward word search from `x` stops: the first column, or one just
/// after a white space character of `line`, other than the column `start` it began at.
pub open spec fn back_word_scan(line: Seq<char>, start: int, x: int) -> int
    decreases x,
{
    if x <= 0 {
        0
    } else if x - 1 < line.len() && is_white_space(line[x - 1]) && start != x {
        x
    } else {
        back_word_scan(line, start, x - 1)
    }
}

/// The column where a forward word search from `x` stops: the end of `line`, or a white
/// space character other than the one at the column `start` it began at.
pub open spec fn next_word_scan(line: Seq<char>, start: int, x: int) -> int
    decreases line.len() - x,
{
    if x >= line.len() {
        x
    } else if is_white_space(line[x]) && x != start {
        x
    } else {
        next_word_scan(line, start, x + 1)
    }
}

/// The width of a character on screen; a control character takes no column.
pub open spec fn char_columns(c: char) -> int {
    match unicode_char_width(c) {
        Some(w) => w as int,
        None => 0,
    }
}

/// The number of columns the characters of `s` take on screen.
pub open spec fn draw_width(s: Seq<char>) -> int
    decreases s.len(),
{
    if s.len() == 0 {
        0
    } else {
        draw_width(s.drop_last()) + char_columns(s.last())
    }
}

/// The failure of a cursor action.
#[derive(Debug)]
pub enum EditorCursorError {
    IOError,
}

/// The cursor of a buffer. Its column may lie past the end of the line; it is clamped
/// to the line, as the mode allows, whenever it is read or moved.
pub struct EditorCursor {
    position: UVec2,
}

impl View for EditorCursor {
    type V = UVec2;

    closed spec fn view(&self) -> UVec2 {
        self.position
    }
}

impl Clone for EditorCursor {
    fn clone(&self) -> (r: Self)
        ensures
            r@ == self@,
    {
        EditorCursor { position: self.position }
    }
}

impl EditorCursor {
    /// A cursor at the start of the buffer.
    pub fn new() -> (r: Self)
        ensures
            r@ == (UVec2 { x: 0, y: 0 }),
    {
        EditorCursor { position: UVec2::zero() }
    }

    /// The position as it is kept, its column not clamped.
    pub fn get_raw(&self) -> (r: UVec2)
        ensures
            r == self@,
    {
        self.position
    }

    /// The column `x` clamped to the cursor's line.
    pub fn clamp_x(&self, x: usize, code: &EditorCodeBuffer, mode: &EditorMode) -> (r: usize)
        requires
            self@.y < code@.len(),
        ensures
            r == clamp_x_spec(x as int, code@[self@.y as int].len() as int, *mode),
    {
        let line_len = code.get_line_length(self.position.y);
        match mode {
            EditorMode::Normal | EditorMode::Visual { .. } => {
                if line_len == 0 {
                    0
                } else if x > line_len - 1 {
                    line_len - 1
                } else {
                    x
                }
            },
            EditorMode::Insert { .. } => {
                if x > line_len {
                    line_len
                } else {
                    x
                }
            },
            _ => x,
        }
    }

    /// The line `y` clamped to the buffer.
    pub fn clamp_y(&self, y: usize, code: &EditorCodeBuffer) -> (r: usize)
        requires
            code@.len() > 0,
        ensures
            r == clamp_y_spec(y as int, code@.len() as int),
    {
        let line_count = code.get_line_count();
        if y > line_count - 1 {
            line_count - 1
        } else {
            y
        }
    }

    /// The position of the cursor, its column clamped to its line.
    pub fn get(&self, code: &EditorCodeBuffer, mode: &EditorMode) -> (r: UVec2)
        requires
            self@.y < code@.len(),
        ensures
            r.x == clamp_x_spec(self@.x as int, code@[self@.y as int].len() as int, *mode),
            r.y == self@.y,
    {
        UVec2::new(self.clamp_x(self.position.x, code, mode), self.position.y)
    }

    /// Where the cursor stands on screen: the columns taken by the characters before it,
    /// and its line.
    pub fn get_draw_position(&self, code: &EditorCodeBuffer, mode: &EditorMode) -> (r: UVec2)
        requires
            self@.y < code@.len(),
            code@[self@.y as int].len() * 255 <= usize::MAX,
        ensures
            r.x == draw_width(code@[self@.y as int].take(
                crate::editor::buf::cursor::min_spec(
                    clamp_x_spec(self@.x as int, code@[self@.y as int].len() as int, *mode),
                    code@[self@.y as int].len() as int,
                ),
            )),
            r.y == self@.y,
    {
        let line = code.get_line(self.position.y);
        let x = self.clamp_x(self.position.x, code, mode);
        let n = if x < line.len() { x } else { line.len() };
        let mut sum: usize = 0;
        let mut i: usize = 0;
        while i < n
            invariant
                0 <= i <= n <= line@.len(),
                line@.len() * 255 <= usize::MAX,
                sum == draw_width(line@.take(i as int)),
                sum <= i * 255,
            decreases n - i,
        {
            let c = line.get_char(i);
            assert(line@.take(i + 1).drop_last() =~= line@.take(i as int));
            match char_width(c) {
                Some(w) => {
                    sum = sum + w;
                },
                None => {},
            }
            i = i + 1;
        }
        UVec2::new(sum, self.position.y)
    }

    /// Moves to column `x`, clamped to the line.
    pub fn move_to_x(&mut self, x: usize, code: &EditorCodeBuffer, mode: &EditorMode)
        requires
            old(self)@.y < code@.len(),
        ensures
            final(self)@ == (UVec2 {
                x: clamp_x_spec(x as int, code@[old(self)@.y as int].len() as int, *mode) as usize,
                y: old(self)@.y,
            }),
    {
        self.position.x = self.clamp_x(x, code, mode);
    }

    /// Moves to line `y`, clamped to the buffer.
    pub fn move_to_y(&mut self, y: usize, code: &EditorCodeBuffer)
        requires
            code@.len() > 0,
        ensures
            final(self)@ == (UVec2 { x: old(self)@.x, y: clamp_y_spec(y as int, code@.len() as int) as usize }),
    {
        self.position.y = self.clamp_y(y, code);
    }

    /// Moves to line `target.y`, then to column `target.x` of that line.
    pub fn move_to(&mut self, target: UVec2, code: &EditorCodeBuffer, mode: &EditorMode)
        requires
            code@.len() > 0,
        ensures
            final(self)@.y == clamp_y_spec(target.y as int, code@.len() as int),
            final(self)@.x == clamp_x_spec(target.x as int, code@[final(self)@.y as int].len() as int, *mode),
    {
        self.move_to_y(target.y, code);
        self.move_to_x(target.x, code, mode);
    }

    /// Clamps the column to the line.
    pub fn sync_x(&mut self, code: &EditorCodeBuffer, mode: &EditorMode)
        requires
            old(self)@.y < code@.len(),
        ensures
            final(self)@ == (UVec2 {
                x: clamp_x_spec(old(self)@.x as int, code@[old(self)@.y as int].len() as int, *mode) as usize,
                y: old(self)@.y,
            }),
    {
        self.position.x = self.clamp_x(self.position.x, code, mode);
    }

    /// Clamps the line to the buffer.
    pub fn sync_y(&mut self, code: &EditorCodeBuffer)
        requires
            code@.len() > 0,
        ensures
            final(self)@ == (UVec2 { x: old(self)@.x, y: clamp_y_spec(old(self)@.y as int, code@.len() as int) as usize }),
    {
        self.position.y = self.clamp_y(self.position.y, code);
    }

    /// Clamps the column to the line, then the line to the buffer.
    pub fn sync(&mut self, code: &EditorCodeBuffer, mode: &EditorMode)
        requires
            old(self)@.y < code@.len(),
        ensures
            final(self)@ == (UVec2 {
                x: clamp_x_spec(old(self)@.x as int, code@[old(self)@.y as int].len() as int, *mode) as usize,
                y: old(self)@.y,
            }),
    {
        self.sync_x(code, mode);
        self.sync_y(code);
    }

    /// Moves by `x` columns: right up to the end the mode allows, left down to column zero.
    /// The column is clamped to the line first.
    pub fn move_by_x(&mut self, x: isize, code: &EditorCodeBuffer, mode: &EditorMode, window_size: UVec2)
        requires
            old(self)@.y < code@.len(),
            x > isize::MIN,
            x > 0 ==> clamp_x_spec(old(self)@.x as int, code@[old(self)@.y as int].len() as int, *mode) + x <= usize::MAX,
        ensures
            final(self)@.y == old(self)@.y,
            final(self)@.x == (if x == 0 {
                old(self)@.x as int
            } else if x > 0 {
                clamp_x_spec(
                    clamp_x_spec(old(self)@.x as int, code@[old(self)@.y as int].len() as int, *mode) + x,
                    code@[old(self)@.y as int].len() as int,
                    *mode,
                )
            } else {
                offset_spec(clamp_x_spec(old(self)@.x as int, code@[old(self)@.y as int].len() as int, *mode), x as int)
            }),
    {
        if x > 0 {
            self.sync(code, mode);
            self.position.x = self.clamp_x(self.position.x + x as usize, code, mode);
        } else if x < 0 {
            self.sync(code, mode);
            let m = (-x) as usize;
            if self.position.x < m {
                self.position.x = 0;
            } else {
                self.position.x = self.position.x - m;
            }
        }
    }

    /// Moves by `y` lines: down up to the last line, up down to the first. When the cursor
    /// leaves the window of `window_size.y` rows below, the view follows it; when it is
    /// above the view, the view starts at its line.
    pub fn move_by_y(&mut self, y: isize, code: &EditorCodeBuffer, window_size: UVec2, scroll: &mut EditorScroll)
        requires
            code@.len() > 0,
            y > isize::MIN,
            y > 0 ==> old(self)@.y + y <= usize::MAX,
            y > 0 ==> window_size.y >= 1,
            y > 0 ==> old(scroll)@.y + window_size.y <= usize::MAX,
        ensures
            final(self)@.x == old(self)@.x,
            final(self)@.y == (if y > 0 {
                clamp_y_spec(old(self)@.y + y, code@.len() as int)
            } else {
                offset_spec(old(self)@.y as int, y as int)
            }),
            final(scroll)@.x == old(scroll)@.x,
            final(scroll)@.y == (if y > 0 && final(self)@.y >= old(scroll)@.y + window_size.y - 1 {
                final(self)@.y - (window_size.y - 1)
            } else if final(self)@.y < old(scroll)@.y {
                final(self)@.y as int
            } else {
                old(scroll)@.y as int
            }),
    {
        let scroll_y = scroll.get().y;
        if y > 0 {
            self.position.y = self.clamp_y(self.position.y + y as usize, code);
            if self.position.y >= scroll_y + window_size.y - 1 {
                scroll.scroll_to_y(self.position.y - (window_size.y - 1));
            }
        } else if y < 0 {
            let m = (-y) as usize;
            if self.position.y < m {
                self.position.y = 0;
            } else {
                self.position.y = self.position.y - m;
            }
        }
        if self.position.y < scroll_y {
            scroll.scroll_to_y(self.position.y);
        }
    }

    /// Moves by `offset.x` columns, then by `offset.y` lines.
    pub fn move_by(
        &mut self,
        offset: IVec2,
        code: &EditorCodeBuffer,
        mode: &EditorMode,
        window_size: UVec2,
        scroll: &mut EditorScroll,
    )
        requires
            old(self)@.y < code@.len(),
            offset.x > isize::MIN,
            offset.y > isize::MIN,
            offset.x > 0 ==> clamp_x_spec(old(self)@.x as int, code@[old(self)@.y as int].len() as int, *mode) + offset.x <= usize::MAX,
            offset.y > 0 ==> old(self)@.y + offset.y <= usize::MAX,
            offset.y > 0 ==> window_size.y >= 1,
            offset.y > 0 ==> old(scroll)@.y + window_size.y <= usize::MAX,
        ensures
            final(self)@.x == (if offset.x == 0 {
                old(self)@.x as int
            } else if offset.x > 0 {
                clamp_x_spec(
                    clamp_x_spec(old(self)@.x as int, code@[old(self)@.y as int].len() as int, *mode) + offset.x,
                    code@[old(self)@.y as int].len() as int,
                    *mode,
                )
            } else {
                offset_spec(clamp_x_spec(old(self)@.x as int, code@[old(self)@.y as int].len() as int, *mode), offset.x as int)
            }),
            final(self)@.y == (if offset.y > 0 {
                clamp_y_spec(old(self)@.y + offset.y, code@.len() as int)
            } else {
                offset_spec(old(self)@.y as int, offset.y as int)
            }),
            final(scroll)@.x == old(scroll)@.x,
            final(scroll)@.y == (if offset.y > 0 && final(self)@.y >= old(scroll)@.y + window_size.y - 1 {
                final(self)@.y - (window_size.y - 1)
            } else if final(self)@.y < old(scroll)@.y {
                final(self)@.y as int
            } else {
                old(scroll)@.y as int
            }),
    {
        self.move_by_x(offset.x, code, mode, window_size);
        self.move_by_y(offset.y, code, window_size, scroll);
    }

    /// Carries out a cursor action; `To` moves to a position.
    pub fn on_action(
        &mut self,
        action: EditorCursorAction,
        code: &EditorCodeBuffer,
        mode: &EditorMode,
        window_size: UVec2,
        scroll: &mut EditorScroll,
    ) -> (r: Result<(), EditorCursorError>)
        requires
            cursor_action_ok(action, old(self)@, code@, *mode, window_size, old(scroll)@),
        ensures
            r is Ok,
            cursor_action_effect(action, old(self)@, code@, *mode, window_size, old(scroll)@, final(self)@, final(scroll)@),
    {
        match action {
            EditorCursorAction::Left => self.move_by_x(-1, code, mode, window_size),
            EditorCursorAction::Down => {
                let _count = code.get_line_count();
                self.move_by_y(1, code, window_size, scroll);
            },
            EditorCursorAction::Up => self.move_by_y(-1, code, window_size, scroll),
            EditorCursorAction::Right => self.move_by_x(1, code, mode, window_size),
            EditorCursorAction::LineStart => self.move_to_x(0, code, mode),
            EditorCursorAction::LineEnd => {
                let line_length = code.get_line_length(self.position.y);
                self.move_to_x(line_length, code, mode);
            },
            EditorCursorAction::Top => self.move_to_y(0, code),
            EditorCursorAction::Bottom => {
                let line_count = code.get_line_count() - 1;
                self.move_to_y(line_count, code);
            },
            EditorCursorAction::NextWord => self.move_to_next_word(code),
            EditorCursorAction::BackWord => self.move_to_back_word(code),
            EditorCursorAction::To(target) => self.move_to(target, code, mode),
        };
        Ok(())
    }

    /// Moves back to the start of a word: to just after the previous white space of the
    /// line, or to column zero. At column zero it moves to the end of the line above and
    /// searches from there, reading the characters of the line it started on.
    pub fn move_to_back_word(&mut self, code: &EditorCodeBuffer)
        requires
            old(self)@.y < code@.len(),
        ensures
            ({
                let p = old(self)@;
                let line = code@[p.y as int];
                if p.x == 0 && p.y == 0 {
                    final(self)@ == p
                } else if p.x == 0 {
                    final(self)@.x == back_word_scan(line, 0, code@[p.y - 1].len() as int)
                        && final(self)@.y == p.y - 1
                } else {
                    final(self)@.x == back_word_scan(line, p.x as int, p.x as int) && final(self)@.y == p.y
                }
            }),
    {
        let line = code.get_line(self.position.y);
        let mut x = self.position.x;
        if x == 0 {
            if self.position.y == 0 {
                return;
            }
            self.position.y = self.position.y - 1;
            x = code.get_line_length(self.position.y);
        }
        let ghost x0 = x;
        let ghost pos = self.position;
        while x > 0
            invariant
                self.position == pos,
                old(self)@.y < code@.len(),
                line@ == code@[old(self)@.y as int],
                back_word_scan(line@, self.position.x as int, x as int) == back_word_scan(line@, self.position.x as int, x0 as int),
            ensures
                self.position == pos,
                x == back_word_scan(line@, self.position.x as int, x0 as int),
            decreases x,
        {
            if x - 1 >= line.len() {
                x = x - 1;
                continue;
            }
            let c = line.get_char(x - 1);
            if char_is_whitespace(c) && self.position.x != x {
                break;
            }
            x = x - 1;
        }
        self.position.x = x;
    }

    /// Moves forward to the next white space of the line, or to its end; at the end of a
    /// line it moves to the start of the next one.
    pub fn move_to_next_word(&mut self, code: &EditorCodeBuffer)
        requires
            old(self)@.y < code@.len(),
        ensures
            ({
                let p = old(self)@;
                let line = code@[p.y as int];
                if p.x == line.len() && p.y == code@.len() - 1 {
                    final(self)@ == p
                } else if p.x == line.len() {
                    final(self)@.x == 0 && final(self)@.y == p.y + 1
                } else {
                    final(self)@.x == next_word_scan(line, p.x as int, p.x as int) && final(self)@.y == p.y
                }
            }),
    {
        let line = code.get_line(self.position.y);
        let mut x = self.position.x;
        let len = code.get_line_length(self.position.y);
        if x == len {
            if self.position.y == code.get_line_count() - 1 {
                return;
            }
            self.position.y = self.position.y + 1;
            self.position.x = 0;
            return;
        }
        let ghost x0 = x;
        let ghost pos = self.position;
        while x < len
            invariant
                self.position == pos,
                pos == old(self)@,
                old(self)@.y < code@.len(),
                line@ == code@[old(self)@.y as int],
                len == line@.len(),
                next_word_scan(line@, self.position.x as int, x as int) == next_word_scan(line@, self.position.x as int, x0 as int),
            ensures
                self.position == pos,
                x == next_word_scan(line@, self.position.x as int, x0 as int),
            decreases len - x,
        {
            let c = line.get_char(x);
            if char_is_whitespace(c) && x != self.position.x {
                break;
            }
            x = x + 1;
        }
        self.position.x = x;
    }
}

/// The column after moving by `dx` from column `px` of a line of `line_len` characters.
pub open spec fn move_by_x_spec(px: int, line_len: int, mode: EditorMode, dx: int) -> int {
    if dx == 0 {
        px
    } else if dx > 0 {
        clamp_x_spec(clamp_x_spec(px, line_len, mode) + dx, line_len, mode)
    } else {
        offset_spec(clamp_x_spec(px, line_len, mode), dx)
    }
}

/// The line after moving by `dy` from line `py` in a buffer of `count` lines.
pub open spec fn move_by_y_spec(py: int, count: int, dy: int) -> int {
    if dy > 0 {
        clamp_y_spec(py + dy, count)
    } else {
        offset_spec(py, dy)
    }
}

/// The first line of the view after the cursor moved by `dy` to line `new_y`, in a window
/// of `height` rows whose view started at line `sy`.
pub open spec fn scroll_follow_spec(sy: int, new_y: int, height: int, dy: int) -> int {
    if dy > 0 && new_y >= sy + height - 1 {
        new_y - (height - 1)
    } else if new_y < sy {
        new_y
    } else {
        sy
    }
}

/// The position after a backward word movement from `p`.
pub open spec fn back_word_spec(p: UVec2, code: Seq<Seq<char>>) -> (int, int) {
    if p.x == 0 && p.y == 0 {
        (0, 0)
    } else if p.x == 0 {
        (back_word_scan(code[p.y as int], 0, code[p.y - 1].len() as int), p.y - 1)
    } else {
        (back_word_scan(code[p.y as int], p.x as int, p.x as int), p.y as int)
    }
}

/// The position after a forward word movement from `p`.
pub open spec fn next_word_spec(p: UVec2, code: Seq<Seq<char>>) -> (int, int) {
    if p.x == code[p.y as int].len() && p.y == code.len() - 1 {
        (p.x as int, p.y as int)
    } else if p.x == code[p.y as int].len() {
        (0, p.y + 1)
    } else {
        (next_word_scan(code[p.y as int], p.x as int, p.x as int), p.y as int)
    }
}

/// Whether a cursor action can be carried out from `p` without leaving the text or the
/// range of `usize`.
pub open spec fn cursor_action_ok(
    action: EditorCursorAction,
    p: UVec2,
    code: Seq<Seq<char>>,
    mode: EditorMode,
    window_size: UVec2,
    sc: UVec2,
) -> bool {
    &&& p.y < code.len()
    &&& action is Right ==> clamp_x_spec(p.x as int, code[p.y as int].len() as int, mode) + 1 <= usize::MAX
    &&& action is Down ==> window_size.y >= 1 && sc.y + window_size.y <= usize::MAX
}

/// What a cursor action does: the cursor goes from `p` to `q`, the view from `sc` to `sc2`.
pub open spec fn cursor_action_effect(
    action: EditorCursorAction,
    p: UVec2,
    code: Seq<Seq<char>>,
    mode: EditorMode,
    window_size: UVec2,
    sc: UVec2,
    q: UVec2,
    sc2: UVec2,
) -> bool {
    let len = code[p.y as int].len() as int;
    let count = code.len() as int;
        match action {
            EditorCursorAction::Left => q.x == move_by_x_spec(p.x as int, len, mode, -1) && q.y == p.y
                && sc2 == sc,
            EditorCursorAction::Right => q.x == move_by_x_spec(p.x as int, len, mode, 1) && q.y == p.y
                && sc2 == sc,
            EditorCursorAction::Up => q.x == p.x && q.y == move_by_y_spec(p.y as int, count, -1)
                && sc2.x == sc.x
                && sc2.y == scroll_follow_spec(sc.y as int, q.y as int, window_size.y as int, -1),
            EditorCursorAction::Down => q.x == p.x && q.y == move_by_y_spec(p.y as int, count, 1)
                && sc2.x == sc.x
                && sc2.y == scroll_follow_spec(sc.y as int, q.y as int, window_size.y as int, 1),
            EditorCursorAction::LineStart => q.x == clamp_x_spec(0, len, mode) && q.y == p.y
                && sc2 == sc,
            EditorCursorAction::LineEnd => q.x == clamp_x_spec(len, len, mode) && q.y == p.y
                && sc2 == sc,
            EditorCursorAction::Top => q.x == p.x && q.y == 0 && sc2 == sc,
            EditorCursorAction::Bottom => q.x == p.x && q.y == count - 1 && sc2 == sc,
            EditorCursorAction::NextWord => (q.x as int, q.y as int) == next_word_spec(p, code)
                && sc2 == sc,
            EditorCursorAction::BackWord => (q.x as int, q.y as int) == back_word_spec(p, code)
                && sc2 == sc,
            EditorCursorAction::To(target) => q.y == clamp_y_spec(target.y as int, count)
                && q.x == clamp_x_spec(target.x as int, code[q.y as int].len() as int, mode)
                && sc2 == sc,
        }
}

/// A cursor action keeps the cursor on a line of the text.
pub proof fn law_cursor_stays_in_text(
    action: EditorCursorAction,
    p: UVec2,
    code: Seq<Seq<char>>,
    mode: EditorMode,
    window_size: UVec2,
    sc: UVec2,
    q: UVec2,
    sc2: UVec2,
)
    requires
        cursor_action_ok(action, p, code, mode, window_size, sc),
        cursor_action_effect(action, p, code, mode, window_size, sc, q, sc2),
    ensures
        q.y < code.len(),
{
}

/// The smaller of two integers.
pub open spec fn min_spec(a: int, b: int) -> int {
    if a <= b { a } else { b }
}

} // verus!
