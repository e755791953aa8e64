use vstd::prelude::*;

use crate::action::{EditorCursorAction, EditorEditAction, EditorScrollAction};
use crate::editor::buf::code_buf::{
    cursor_pos_spec, delete_middle_ok, delete_selection_ok, edit_action_ok, pos_ok, sel_hi, sel_lo, selection_ok,
    EditorCodeBuffer,
};
use crate::editor::buf::cursor::{clamp_x_spec, cursor_action_ok};
use crate::editor::buf::scroll::scroll_action_ok;
use crate::mode::EditorMode;
use crate::vec2::{pos_lt, UVec2};

verus! {

/// The column `x` clamped to a line of `len` characters, as `clamp_x_spec` says, for
/// columns and lengths up to one past the range of `usize`.
pub fn clamp_x_wide(x: u128, len: u128, mode: &EditorMode) -> (r: u128)
    ensures
        r == clamp_x_spec(x as int, len as int, *mode),
{
    match mode {
        EditorMode::Normal | EditorMode::Visual { .. } => {
            if len == 0 {
                0
            } else if x > len - 1 {
                len - 1
            } else {
                x
            }
        },
        EditorMode::Insert { .. } => {
            if x > len {
                len
            } else {
                x
            }
        },
        EditorMode::Command => x,
    }
}

/// Deleting the lines from `y` up to `end` one by one, each time from a buffer one line
/// shorter, reads only lines that exist exactly when the last read, `y + 2 * (end - y - 1)`,
/// lies within the `n` lines.
pub proof fn lemma_delete_middle_ok(n: int, y: int, end: int)
    ensures
        delete_middle_ok(n, y, end) == (y >= end || (0 <= y && y + 2 * (end - y - 1) < n)),
    decreases end - y,
{
    if y < end {
        lemma_delete_middle_ok(n - 1, y + 1, end);
    }
}

/// Whether `(x, y)` is a place in the text, as `pos_ok` says.
pub fn pos_fits(code: &EditorCodeBuffer, x: usize, y: usize) -> (r: bool)
    ensures
        r == pos_ok(code@, x as int, y as int),
{
    y < code.get_line_count() && x <= code.get_line_length(y)
}

/// Whether the selection from `lo` to `(hx, hy)` lies within the text, as `selection_ok` says.
pub fn selection_fits(code: &EditorCodeBuffer, lo: UVec2, hx: u128, hy: usize) -> (r: bool)
    ensures
        r == selection_ok(code@, lo, hx as int, hy as int),
{
    if hy >= code.get_line_count() || lo.y > hy {
        return false;
    }
    if lo.y == hy {
        lo.x as u128 <= hx && hx <= code.get_line_length(hy) as u128
    } else {
        lo.x <= code.get_line_length(lo.y) && hx <= code.get_line_length(hy) as u128
    }
}

/// Whether deleting the selection from `lo` to `(hx, hy)` reads only lines that exist, as
/// `delete_selection_ok` says.
pub fn delete_selection_fits(code: &EditorCodeBuffer, lo: UVec2, hx: u128, hy: usize) -> (r: bool)
    ensures
        r == delete_selection_ok(code@, lo, hx as int, hy as int),
{
    if !selection_fits(code, lo, hx, hy) {
        return false;
    }
    if lo.y == hy {
        return true;
    }
    proof {
        lemma_delete_middle_ok(code@.len() as int, lo.y + 1, hy as int);
    }
    let n = code.get_line_count() as u128;
    let y = lo.y as u128 + 1;
    let end = hy as u128;
    y >= end || y + 2 * (end - y - 1) < n
}

/// Whether edit `action` can be carried out from cursor `c`, as `edit_action_ok` says.
pub fn edit_action_fits(
    code: &EditorCodeBuffer,
    action: &EditorEditAction,
    c: UVec2,
    mode: &EditorMode,
    window_size: UVec2,
    scroll: UVec2,
) -> (r: bool)
    requires
        c.y < code@.len(),
    ensures
        r == edit_action_ok(*action, code@, c, *mode, window_size, scroll),
{
    let len = code.get_line_length(c.y);
    let px = clamp_x_wide(c.x as u128, len as u128, mode);
    let ghost p = cursor_pos_spec(code@, c, *mode);
    assert(p.x == px);
    assert(px <= usize::MAX);
    let p = UVec2 { x: px as usize, y: c.y };
    match action {
        EditorEditAction::Append(ch) => {
            if !pos_fits(code, p.x, p.y) {
                return false;
            }
            if *ch == '\n' {
                window_size.y >= 1 && scroll.y as u128 + window_size.y as u128 <= usize::MAX as u128
            } else {
                clamp_x_wide(c.x as u128, len as u128 + 1, mode) + 1 <= usize::MAX as u128
            }
        },
        EditorEditAction::Delete => pos_fits(code, p.x, p.y),
        EditorEditAction::Backspace => pos_fits(code, p.x, p.y),
        EditorEditAction::DeleteLine => true,
        EditorEditAction::YankLine => true,
        EditorEditAction::DeleteSelection => match mode {
            EditorMode::Visual { start } => {
                let lo = if start.lt(&p) { *start } else { p };
                let m = if p.lt(start) { *start } else { p };
                assert(lo == sel_lo(p, *start));
                assert(sel_hi(p, *start) == (m.x + 1, m.y as int));
                let hx = m.x as u128 + 1;
                hx <= usize::MAX as u128 && delete_selection_fits(code, lo, hx, m.y)
            },
            _ => true,
        },
        EditorEditAction::YankSelection => match mode {
            EditorMode::Visual { start } => {
                let lo = if start.lt(&p) { *start } else { p };
                let m = if p.lt(start) { *start } else { p };
                assert(lo == sel_lo(p, *start));
                assert(sel_hi(p, *start) == (m.x + 1, m.y as int));
                let hx = m.x as u128 + 1;
                hx <= usize::MAX as u128 && selection_fits(code, lo, hx, m.y)
            },
            _ => true,
        },
        EditorEditAction::Paste => p.x <= len,
    }
}

/// Whether cursor `action` can be carried out from cursor `p`, as `cursor_action_ok` says.
pub fn cursor_action_fits(
    code: &EditorCodeBuffer,
    action: &EditorCursorAction,
    p: UVec2,
    mode: &EditorMode,
    window_size: UVec2,
    sc: UVec2,
) -> (r: bool)
    ensures
        r == cursor_action_ok(*action, p, code@, *mode, window_size, sc),
{
    if p.y >= code.get_line_count() {
        return false;
    }
    match action {
        EditorCursorAction::Right => {
            let len = code.get_line_length(p.y);
            clamp_x_wide(p.x as u128, len as u128, mode) + 1 <= usize::MAX as u128
        },
        EditorCursorAction::Down => window_size.y >= 1 && sc.y as u128 + window_size.y as u128 <= usize::MAX as u128,
        _ => true,
    }
}

/// Whether scroll `action` keeps the view within the range of `usize`, as
/// `scroll_action_ok` says.
pub fn scroll_action_fits(action: &EditorScrollAction, sc: UVec2) -> (r: bool)
    ensures
        r == scroll_action_ok(*action, sc),
{
    match action {
        EditorScrollAction::By(offset) => {
            if offset.x == isize::MIN || offset.y == isize::MIN {
                return false;
            }
            let x_ok = offset.x <= 0 || sc.x as u128 + offset.x as u128 <= usize::MAX as u128;
            let y_ok = offset.y <= 0 || sc.y as u128 + offset.y as u128 <= usize::MAX as u128;
            x_ok && y_ok
        },
    }
}

} // verus!
