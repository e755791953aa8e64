use vstd::prelude::*;

use crate::clipboard::{ClipboardView, EditorClipboard};
use crate::editor::buf::cursor::{
    clamp_x_spec, move_by_x_spec, move_by_y_spec, scroll_follow_spec, EditorCursor, EditorCursorError,
};
use crate::editor::buf::scroll::{offset_spec, EditorScroll};
use crate::action::EditorEditAction;
use crate::mode::EditorMode;
use crate::text::{join_lines_spec, lemma_join_lines_acc, lemma_split_join, lines_acc, lines_of, plain_lines, split_lines, str_chars, string_push};
use crate::vec2::{pos_lt, UVec2};
use crate::wide_string::WideString;

verus! {

/// The line `y` cut at column `x`: the part before `x` stays, the rest becomes the next line.
pub open spec fn split_spec(lines: Seq<Seq<char>>, x: int, y: int) -> Seq<Seq<char>> {
    lines.update(y, lines[y].take(x)).insert(y + 1, lines[y].skip(x))
}

/// Line `y + 1` appended to line `y`, where there is a line `y + 1`.
pub open spec fn join_spec(lines: Seq<Seq<char>>, y: int) -> Seq<Seq<char>> {
    if y + 1 < lines.len() {
        lines.update(y, lines[y] + lines[y + 1]).remove(y + 1)
    } else {
        lines
    }
}

/// Typing `c` at column `x` of line `y`: a newline splits the line.
pub open spec fn append_spec(lines: Seq<Seq<char>>, x: int, y: int, c: char) -> Seq<Seq<char>> {
    if c == '\n' {
        split_spec(lines, x, y)
    } else {
        lines.update(y, lines[y].insert(x, c))
    }
}

/// Whether column `x` of line `y` exists, or is just past the line's end.
pub open spec fn pos_ok(lines: Seq<Seq<char>>, x: int, y: int) -> bool {
    0 <= y < lines.len() && 0 <= x <= lines[y].len()
}

/// The text after typing `s[i..]`, character `k` at column `x + k` of line `y`.
pub open spec fn append_chars(lines: Seq<Seq<char>>, x: int, y: int, s: Seq<char>, i: int) -> Seq<Seq<char>>
    decreases s.len() - i,
{
    if i < 0 || i >= s.len() {
        lines
    } else {
        append_chars(append_spec(lines, x + i, y, s[i]), x, y, s, i + 1)
    }
}

/// Whether typing `s[i..]` as `append_chars` does finds each column in place.
pub open spec fn append_chars_ok(lines: Seq<Seq<char>>, x: int, y: int, s: Seq<char>, i: int) -> bool
    decreases s.len() - i,
{
    if i < 0 || i >= s.len() {
        true
    } else {
        pos_ok(lines, x + i, y) && append_chars_ok(append_spec(lines, x + i, y, s[i]), x, y, s, i + 1)
    }
}

/// The text of a code buffer as it is written out: its lines joined with `'\n'`.
pub open spec fn code_text(lines: Seq<Seq<char>>) -> Seq<char> {
    join_lines_spec(lines)
}

/// The lines of a text read into a buffer: a final `'\n'` is added where missing.
pub open spec fn code_from_text(s: Seq<char>) -> Seq<Seq<char>> {
    if s.len() > 0 && s.last() == '\n' {
        lines_of(s)
    } else {
        lines_of(s.push('\n'))
    }
}

/// The text of a file as it is handed to a buffer: a text that ends with `'\n'` gets a
/// second one, so that its last, empty line is kept.
pub open spec fn file_text_spec(s: Seq<char>) -> Seq<char> {
    if s.len() > 0 && s.last() == '\n' {
        s.push('\n')
    } else {
        s
    }
}

/// The text of a file as it is handed to a buffer, as `file_text_spec` says.
pub fn file_text(s: String) -> (r: String)
    ensures
        r@ == file_text_spec(s@),
{
    let mut s = s;
    let n = s.as_str().unicode_len();
    if n > 0 && s.as_str().get_char(n - 1) == '\n' {
        string_push(&mut s, '\n');
    }
    s
}

/// Joining the two halves of a split line gives back the text before the split.
pub proof fn law_join_undoes_split(lines: Seq<Seq<char>>, x: int, y: int)
    requires
        pos_ok(lines, x, y),
    ensures
        join_spec(split_spec(lines, x, y), y) == lines,
{
    let s = split_spec(lines, x, y);
    assert(s[y] + s[y + 1] =~= lines[y]);
    assert(s.update(y, s[y] + s[y + 1]).remove(y + 1) =~= lines);
}

/// The delete key where a character was just typed takes it out again: a typed character
/// is removed, a typed newline joins the split line back.
pub proof fn law_delete_undoes_append(lines: Seq<Seq<char>>, x: usize, y: usize, c: char)
    requires
        pos_ok(lines, x as int, y as int),
    ensures
        delete_spec(append_spec(lines, x as int, y as int, c), UVec2 { x, y }) == lines,
{
    let a = append_spec(lines, x as int, y as int, c);
    if c == '\n' {
        assert(a[y as int].len() == x);
        law_join_undoes_split(lines, x as int, y as int);
    } else {
        assert(a[y as int] == lines[y as int].insert(x as int, c));
        assert(a[y as int].remove(x as int) =~= lines[y as int]);
        assert(a.update(y as int, a[y as int].remove(x as int)) =~= lines);
    }
}

/// Writing a buffer out and reading the text back gives the same lines, where no line holds
/// a `'\n'` or ends in `'\r'`, and the last line is not empty unless it is the only one.
pub proof fn law_text_round_trip(lines: Seq<Seq<char>>)
    requires
        lines.len() >= 1,
        plain_lines(lines),
        lines.len() == 1 || lines.last().len() > 0,
    ensures
        code_from_text(code_text(lines)) == lines,
{
    let t = join_lines_spec(lines);
    assert(!lines.last().contains('\n'));
    if lines.len() == 1 {
        assert(t == lines[0]);
        if t.len() > 0 {
            assert(t.contains(t.last()));
        }
    } else {
        assert(t == join_lines_spec(lines.drop_last()) + seq!['\n'] + lines.last());
        assert(t.last() == lines.last().last());
        assert(lines.last().contains(lines.last().last()));
    }
    assert(!(t.len() > 0 && t.last() == '\n'));
    lemma_split_join(lines, Seq::<char>::empty());
    assert(t.push('\n') =~= t + seq!['\n'] + Seq::<char>::empty());
    assert(lines_acc(Seq::<char>::empty(), Seq::<char>::empty()) =~= Seq::<Seq<char>>::empty());
    assert(lines + Seq::<Seq<char>>::empty() =~= lines);
}

/// Reading a text into a buffer and writing the buffer out gives the text back, where the
/// text holds no `'\r'` and does not end with `'\n'`.
pub proof fn law_text_read_write(s: Seq<char>)
    requires
        !s.contains('\r'),
        !(s.len() > 0 && s.last() == '\n'),
    ensures
        code_text(code_from_text(s)) == s,
{
    lemma_join_lines_acc(s, seq![]);
    assert(Seq::<char>::empty() + s =~= s);
}

/// The text after the delete key at `c`: the character there is removed; at the end of a
/// line the next line is joined to it.
pub open spec fn delete_spec(lines: Seq<Seq<char>>, c: UVec2) -> Seq<Seq<char>> {
    if c.x == lines[c.y as int].len() {
        join_spec(lines, c.y as int)
    } else {
        lines.update(c.y as int, lines[c.y as int].remove(c.x as int))
    }
}

/// The earlier end of a selection between `a` and `b`.
pub open spec fn sel_lo(a: UVec2, b: UVec2) -> UVec2 {
    if pos_lt(b, a) { b } else { a }
}

/// The later end of a selection between `a` and `b`, counted up to and including it.
pub open spec fn sel_hi(a: UVec2, b: UVec2) -> (int, int) {
    let m = if pos_lt(a, b) { b } else { a };
    (m.x + 1, m.y as int)
}

/// Lines `from` up to, not including, `to`, each followed by `'\n'`.
pub open spec fn middle_lines_text(lines: Seq<Seq<char>>, from: int, to: int) -> Seq<char>
    decreases to - from,
{
    if from >= to {
        seq![]
    } else {
        lines[from] + seq!['\n'] + middle_lines_text(lines, from + 1, to)
    }
}

/// Whether the selection from `lo` to `(hx, hy)` lies within the lines.
pub open spec fn selection_ok(lines: Seq<Seq<char>>, lo: UVec2, hx: int, hy: int) -> bool {
    &&& hy < lines.len()
    &&& lo.y <= hy
    &&& lo.y == hy ==> lo.x <= hx <= lines[hy].len()
    &&& lo.y != hy ==> lo.x <= lines[lo.y as int].len() && 0 <= hx <= lines[hy].len()
}

/// The text of the selection from `lo` up to, not including, `(hx, hy)`: on one line the
/// characters between; over several lines the rest of the first line, the lines between and
/// the start of the last line, each followed by `'\n'`.
pub open spec fn selection_text(lines: Seq<Seq<char>>, lo: UVec2, hx: int, hy: int) -> Seq<char> {
    if lo.y == hy {
        lines[hy].subrange(lo.x as int, hx)
    } else {
        lines[lo.y as int].skip(lo.x as int) + seq!['\n'] + middle_lines_text(lines, lo.y + 1, hy)
            + lines[hy].take(hx) + seq!['\n']
    }
}

/// Removing line `y` for each of the lines `y` up to `end`, taking their text, while the
/// lines after a removed one move up: every other line of the range goes.
pub open spec fn delete_middle(lines: Seq<Seq<char>>, y: int, end: int) -> (Seq<Seq<char>>, Seq<char>)
    decreases end - y,
{
    if y >= end {
        (lines, seq![])
    } else {
        let r = delete_middle(lines.remove(y), y + 1, end);
        (r.0, lines[y] + seq!['\n'] + r.1)
    }
}

/// Whether `delete_middle` finds each line it reads, in a text of `n` lines.
pub open spec fn delete_middle_ok(n: int, y: int, end: int) -> bool
    decreases end - y,
{
    if y >= end {
        true
    } else {
        0 <= y < n && delete_middle_ok(n - 1, y + 1, end)
    }
}

/// Whether deleting the selection from `lo` to `(hx, hy)` reads only lines that exist.
pub open spec fn delete_selection_ok(lines: Seq<Seq<char>>, lo: UVec2, hx: int, hy: int) -> bool {
    &&& selection_ok(lines, lo, hx, hy)
    &&& lo.y != hy ==> delete_middle_ok(lines.len() as int, lo.y + 1, hy)
}

/// The lines after deleting the selection from `lo` to `(hx, hy)`, and the deleted text.
/// On one line the characters between are removed. Over several lines the first line keeps
/// its start and the last line its rest, and lines between are removed as `delete_middle` does.
pub open spec fn delete_selection_spec(lines: Seq<Seq<char>>, lo: UVec2, hx: int, hy: int) -> (Seq<Seq<char>>, Seq<char>) {
    if lo.y == hy {
        (
            lines.update(hy, lines[hy].take(lo.x as int) + lines[hy].skip(hx)),
            lines[hy].subrange(lo.x as int, hx),
        )
    } else {
        let l1 = lines.update(lo.y as int, lines[lo.y as int].take(lo.x as int)).update(hy, lines[hy].skip(hx));
        let m = delete_middle(l1, lo.y + 1, hy);
        (m.0, lines[lo.y as int].skip(lo.x as int) + seq!['\n'] + m.1 + lines[hy].take(hx) + seq!['\n'])
    }
}

/// Whether `s` holds no newline before its last character.
pub open spec fn newline_only_last(s: Seq<char>) -> bool {
    forall|k: int| 0 <= k < s.len() - 1 ==> s[k] != '\n'
}

/// The position of a cursor standing at `c`, its column clamped to the line as `mode` allows.
pub open spec fn cursor_pos_spec(lines: Seq<Seq<char>>, c: UVec2, mode: EditorMode) -> UVec2 {
    UVec2 { x: clamp_x_spec(c.x as int, lines[c.y as int].len() as int, mode) as usize, y: c.y }
}

/// Whether an edit action can be carried out from cursor `c` without leaving the text or
/// the range of `usize`.
pub open spec fn edit_action_ok(
    action: EditorEditAction,
    lines: Seq<Seq<char>>,
    c: UVec2,
    mode: EditorMode,
    window_size: UVec2,
    scroll: UVec2,
) -> bool {
    let p = cursor_pos_spec(lines, c, mode);
    match action {
        EditorEditAction::Append(ch) => {
            &&& pos_ok(lines, p.x as int, p.y as int)
            &&& ch == '\n' ==> window_size.y >= 1 && scroll.y + window_size.y <= usize::MAX
            &&& ch != '\n' ==> clamp_x_spec(c.x as int, lines[c.y as int].len() as int + 1, mode) + 1 <= usize::MAX
        },
        EditorEditAction::Delete => pos_ok(lines, p.x as int, p.y as int),
        EditorEditAction::Backspace => pos_ok(lines, p.x as int, p.y as int),
        EditorEditAction::DeleteLine => true,
        EditorEditAction::YankLine => true,
        EditorEditAction::DeleteSelection => mode matches EditorMode::Visual { start } ==> {
            &&& sel_hi(p, start).0 <= usize::MAX
            &&& delete_selection_ok(lines, sel_lo(p, start), sel_hi(p, start).0, sel_hi(p, start).1)
        },
        EditorEditAction::YankSelection => mode matches EditorMode::Visual { start } ==> {
            &&& sel_hi(p, start).0 <= usize::MAX
            &&& selection_ok(lines, sel_lo(p, start), sel_hi(p, start).0, sel_hi(p, start).1)
        },
        EditorEditAction::Paste => p.x <= lines[p.y as int].len(),
    }
}

/// What an edit action does, from lines `l`, cursor `c` and view `sc` to lines `l2`,
/// cursor `c2` and view `sc2`, with result `r`.
pub open spec fn edit_action_effect(
    action: EditorEditAction,
    l: Seq<Seq<char>>,
    c: UVec2,
    mode: EditorMode,
    window_size: UVec2,
    sc: UVec2,
    l2: Seq<Seq<char>>,
    c2: UVec2,
    sc2: UVec2,
    r: Result<(), EditorCodeBufferError>,
) -> bool {
    let p = cursor_pos_spec(l, c, mode);
        match action {
            EditorEditAction::Append(ch) => {
                &&& r is Ok
                &&& ch == '\n' ==> {
                    &&& l2 == split_spec(l, p.x as int, p.y as int)
                    &&& c2 == (UVec2 { x: 0, y: (p.y + 1) as usize })
                    &&& sc2.x == sc.x
                    &&& sc2.y == scroll_follow_spec(sc.y as int, p.y + 1, window_size.y as int, 1)
                }
                &&& ch != '\n' ==> {
                    &&& l2 == l.update(p.y as int, l[p.y as int].insert(p.x as int, ch))
                    &&& c2.y == c.y
                    &&& c2.x == move_by_x_spec(c.x as int, l[c.y as int].len() as int + 1, mode, 1)
                    &&& sc2 == sc
                }
            },
            EditorEditAction::Delete => {
                &&& r is Ok
                &&& l2 == delete_spec(l, p)
                &&& c2 == c
                &&& sc2 == sc
            },
            EditorEditAction::Backspace => {
                &&& r is Ok
                &&& sc2.x == sc.x
                &&& (p.x == 0 && p.y == 0 ==> l2 == l && c2 == c)
                &&& (p.x == 0 && p.y > 0 ==> {
                    &&& l2 == join_spec(l, p.y - 1)
                    &&& c2.y == p.y - 1
                    &&& c2.x == clamp_x_spec(l[p.y - 1].len() as int, l[p.y - 1].len() as int, mode)
                })
                &&& (p.x > 0 ==> {
                    &&& l2 == l.update(p.y as int, l[p.y as int].remove(p.x - 1))
                    &&& c2.y == c.y
                    &&& c2.x == move_by_x_spec(c.x as int, l[c.y as int].len() as int, mode, -1)
                })
            },
            EditorEditAction::DeleteLine => {
                &&& r is Ok ==> l2 == l.remove(p.y as int)
                &&& r is Err ==> l2 == l && clipboard_failed(r->Err_0)
                &&& c2 == c
                &&& sc2 == sc
            },
            EditorEditAction::YankLine => {
                &&& r is Err ==> clipboard_failed(r->Err_0)
                &&& l2 == l
                &&& c2 == c
                &&& sc2 == sc
            },
            EditorEditAction::DeleteSelection => {
                &&& !(mode is Visual) <==> r == Err::<(), EditorCodeBufferError>(EditorCodeBufferError::NoSelection)
                &&& !(mode is Visual) ==> l2 == l
                &&& (mode matches EditorMode::Visual { start } ==> {
                    &&& l2 == delete_selection_spec(l, sel_lo(p, start), sel_hi(p, start).0, sel_hi(p, start).1).0
                    &&& r is Err ==> clipboard_failed(r->Err_0)
                })
                &&& c2 == c
                &&& sc2 == sc
            },
            EditorEditAction::YankSelection => {
                &&& !(mode is Visual) <==> r == Err::<(), EditorCodeBufferError>(EditorCodeBufferError::NoSelection)
                &&& mode is Visual && r is Err ==> clipboard_failed(r->Err_0)
                &&& l2 == l
                &&& c2 == c
                &&& sc2 == sc
            },
            EditorEditAction::Paste => {
                &&& r matches Err(e) ==> clipboard_failed(e) || e is PasteSplitsLine
                &&& r is Err ==> l2 == l && c2 == c
                &&& c2.y == c.y
                &&& sc2 == sc
            },
        }
}

/// Pasting text `t` at cursor `c` in mode `mode` turns lines `l` into `l2` and moves the
/// cursor to `c2` past the text: `t` fits, and is typed at the cursor's clamped column.
pub open spec fn pasted(l: Seq<Seq<char>>, c: UVec2, mode: EditorMode, t: Seq<char>, l2: Seq<Seq<char>>, c2: UVec2) -> bool {
    let x = clamp_x_spec(c.x as int, l[c.y as int].len() as int, mode);
    let after = append_chars(l, x, c.y as int, t, 0);
    &&& paste_fits(l[c.y as int].len() as int, t)
    &&& l2 == after
    &&& c2.y == c.y
    &&& c2.x == move_by_x_spec(c.x as int, after[c.y as int].len() as int, mode, t.len() as int)
}

/// What an edit action does to clipboard `cb`, giving `cb2`, with result `r`: the line
/// and selection actions place the line or selected text, pasting leaves it as it is and
/// fails with `NoClipboard` exactly where there is none, and the other actions leave it.
pub open spec fn edit_clipboard_effect(
    action: EditorEditAction,
    l: Seq<Seq<char>>,
    c: UVec2,
    mode: EditorMode,
    cb: ClipboardView,
    cb2: ClipboardView,
    r: Result<(), EditorCodeBufferError>,
) -> bool {
    let p = cursor_pos_spec(l, c, mode);
    match action {
        EditorEditAction::DeleteLine => placed(cb, cb2, l[p.y as int], r),
        EditorEditAction::YankLine => placed(cb, cb2, l[p.y as int], r),
        EditorEditAction::DeleteSelection => match mode {
            EditorMode::Visual { start } => placed(
                cb,
                cb2,
                delete_selection_spec(l, sel_lo(p, start), sel_hi(p, start).0, sel_hi(p, start).1).1,
                r,
            ),
            _ => cb2 == cb,
        },
        EditorEditAction::YankSelection => match mode {
            EditorMode::Visual { start } => placed(
                cb,
                cb2,
                selection_text(l, sel_lo(p, start), sel_hi(p, start).0, sel_hi(p, start).1),
                r,
            ),
            _ => cb2 == cb,
        },
        EditorEditAction::Paste => {
            &&& cb2 == cb
            &&& !cb.present <==> r == Err::<(), EditorCodeBufferError>(EditorCodeBufferError::NoClipboard)
        },
        _ => cb2 == cb,
    }
}

/// Whether a text fits where it is pasted into a line of `len` characters: no newline before
/// its end, and the line with it, and the cursor moved past it, within the range of `usize`.
pub open spec fn paste_fits(len: int, text: Seq<char>) -> bool {
    &&& newline_only_last(text)
    &&& text.len() <= isize::MAX
    &&& len + 2 * text.len() <= usize::MAX
}

/// Typing a text with no newline before its end into line `y` keeps the lines up to `y` and
/// makes line `y` at most as many characters longer as were typed.
pub proof fn lemma_append_len(lines: Seq<Seq<char>>, x: int, y: int, s: Seq<char>, i: int)
    requires
        0 <= i <= s.len(),
        0 <= y < lines.len(),
        0 <= x,
        x + i <= lines[y].len(),
        forall|k: int| i <= k < s.len() - 1 ==> s[k] != '\n',
    ensures
        append_chars(lines, x, y, s, i).len() > y,
        append_chars(lines, x, y, s, i)[y].len() <= lines[y].len() + s.len() - i,
    decreases s.len() - i,
{
    if i < s.len() {
        let l2 = append_spec(lines, x + i, y, s[i]);
        if s[i] != '\n' {
            lemma_append_len(l2, x, y, s, i + 1);
        } else {
            assert(append_chars(l2, x, y, s, i + 1) == l2);
        }
    }
}

/// Typing a text that holds no newline before its end never leaves the line.
pub proof fn lemma_append_fits(lines: Seq<Seq<char>>, x: int, y: int, s: Seq<char>, i: int)
    requires
        0 <= i <= s.len(),
        0 <= y < lines.len(),
        0 <= x,
        x + i <= lines[y].len(),
        forall|k: int| i <= k < s.len() - 1 ==> s[k] != '\n',
    ensures
        append_chars_ok(lines, x, y, s, i),
    decreases s.len() - i,
{
    if i < s.len() {
        let l2 = append_spec(lines, x + i, y, s[i]);
        if s[i] != '\n' {
            lemma_append_fits(l2, x, y, s, i + 1);
        } else {
            assert(append_chars_ok(l2, x, y, s, i + 1));
        }
    }
}

/// The character sequences of a sequence of wide strings.
pub open spec fn views(v: Seq<WideString>) -> Seq<Seq<char>> {
    Seq::new(v.len(), |i: int| v[i]@)
}

pub proof fn lemma_views_push(v: Seq<WideString>, x: WideString)
    ensures
        views(v.push(x)) == views(v).push(x@),
{
    assert(views(v.push(x)) =~= views(v).push(x@));
}

/// The failure of an edit.
#[derive(Debug)]
pub enum EditorCodeBufferError {
    /// The system clipboard refused.
    ClipboardError(arboard::Error),
    /// There is no system clipboard to use.
    NoClipboard,
    /// A selection was asked for outside visual mode.
    NoSelection,
    /// Pasted text holds a newline before its end, so that its rest would fall outside the line.
    PasteSplitsLine,
    EditorCursorError(EditorCursorError),
}

/// Whether an edit failed for want of the clipboard.
pub open spec fn clipboard_failed(e: EditorCodeBufferError) -> bool {
    e is ClipboardError || e is NoClipboard
}

/// What placing `text` on clipboard `cb` does, giving `cb2` and result `r`: with no
/// clipboard the result is `NoClipboard` and nothing changes; otherwise either the system
/// took the text, which is then recorded, or it refused and the result is a
/// `ClipboardError`.
pub open spec fn placed(cb: ClipboardView, cb2: ClipboardView, text: Seq<char>, r: Result<(), EditorCodeBufferError>) -> bool {
    &&& cb2.present == cb.present
    &&& !cb.present ==> r == Err::<(), EditorCodeBufferError>(EditorCodeBufferError::NoClipboard) && cb2 == cb
    &&& cb.present ==> {
        ||| r is Ok && cb2.sent == cb.sent.push(text)
        ||| r matches Err(e) && e is ClipboardError && cb2.sent == cb.sent
    }
}

/// Places `text` on the clipboard, if there is one.
pub fn put_on_clipboard(clipboard: &mut EditorClipboard, text: String) -> (r: Result<(), EditorCodeBufferError>)
    ensures
        placed(old(clipboard)@, final(clipboard)@, text@, r),
{
    match clipboard.set_text(text) {
        Some(Ok(())) => Ok(()),
        Some(Err(e)) => Err(EditorCodeBufferError::ClipboardError(e)),
        None => Err(EditorCodeBufferError::NoClipboard),
    }
}

/// Appends the characters of `w` to `s`.
pub fn push_wide(s: &mut String, w: &WideString)
    ensures
        final(s)@ == old(s)@ + w@,
{
    let mut j: usize = 0;
    while j < w.len()
        invariant
            0 <= j <= w@.len(),
            s@ == old(s)@ + w@.take(j as int),
        decreases w@.len() - j,
    {
        string_push(s, w.get_char(j));
        assert(s@ =~= old(s)@ + w@.take(j + 1));
        j = j + 1;
    }
    assert(w@.take(w@.len() as int) =~= w@);
}

/// The lines of source code, each a sequence of characters.
pub struct EditorCodeBuffer {
    lines: Vec<WideString>,
}

impl View for EditorCodeBuffer {
    type V = Seq<Seq<char>>;

    closed spec fn view(&self) -> Seq<Seq<char>> {
        views(self.lines@)
    }
}

impl Clone for EditorCodeBuffer {
    fn clone(&self) -> (r: Self)
        ensures
            r@ == self@,
    {
        let mut lines: Vec<WideString> = Vec::new();
        let mut i: usize = 0;
        while i < self.lines.len()
            invariant
                0 <= i <= self.lines@.len(),
                views(lines@) == self@.take(i as int),
            decreases self.lines@.len() - i,
        {
            let ghost prev = lines@;
            let l = self.lines[i].clone();
            lines.push(l);
            proof { lemma_views_push(prev, l); }
            assert(self@.take(i + 1) =~= self@.take(i as int).push(self@[i as int]));
            i = i + 1;
        }
        let r = EditorCodeBuffer { lines };
        assert(r@ =~= self@);
        r
    }
}

impl EditorCodeBuffer {
    fn from_lines(lines: Vec<Vec<char>>) -> (r: Self)
        ensures
            r@ == lines@.map_values(|l: Vec<char>| l@),
    {
        let mut out: Vec<WideString> = Vec::new();
        let mut i: usize = 0;
        while i < lines.len()
            invariant
                0 <= i <= lines@.len(),
                views(out@) =~= lines@.map_values(|l: Vec<char>| l@).take(i as int),
            decreases lines@.len() - i,
        {
            let ghost prev = out@;
            let l = WideString::from_chars(lines[i].clone());
            out.push(l);
            proof { lemma_views_push(prev, l); }
            assert(lines@.map_values(|l: Vec<char>| l@).take(i + 1) =~= lines@.map_values(|l: Vec<char>| l@).take(i as int).push(lines@[i as int]@));
            i = i + 1;
        }
        let r = EditorCodeBuffer { lines: out };
        assert(r@ =~= lines@.map_values(|l: Vec<char>| l@));
        r
    }

    /// A buffer of one empty line.
    pub fn new() -> (r: Self)
        ensures
            r@ == seq![Seq::<char>::empty()],
    {
        let mut lines: Vec<WideString> = Vec::new();
        lines.push(WideString::new());
        let r = EditorCodeBuffer { lines };
        assert(r@ =~= seq![Seq::<char>::empty()]);
        r
    }

    /// A buffer holding the lines of `code`, read as a file: a last line without `'\n'`
    /// counts as a line, and an empty text gives one empty line.
    pub fn from_string(code: String) -> (r: Self)
        ensures
            r@ == code_from_text(code@),
    {
        let mut code = code;
        let n = code.as_str().unicode_len();
        let ends_with_newline = n > 0 && code.as_str().get_char(n - 1) == '\n';
        if !ends_with_newline {
            string_push(&mut code, '\n');
        }
        Self::from_lines(split_lines(code.as_str()))
    }

    /// Replaces the text by the lines of `code`.
    pub fn set_code(&mut self, code: String)
        ensures
            final(self)@ == lines_of(code@),
    {
        *self = Self::from_lines(split_lines(code.as_str()));
    }

    /// A copy of all lines.
    pub fn get_lines(&self) -> (r: Vec<WideString>)
        ensures
            views(r@) == self@,
    {
        let mut out: Vec<WideString> = Vec::new();
        let mut i: usize = 0;
        while i < self.lines.len()
            invariant
                0 <= i <= self.lines@.len(),
                views(out@) == self@.take(i as int),
            decreases self.lines@.len() - i,
        {
            let ghost prev = out@;
            let l = self.lines[i].clone();
            out.push(l);
            proof { lemma_views_push(prev, l); }
            assert(self@.take(i + 1) =~= self@.take(i as int).push(self@[i as int]));
            i = i + 1;
        }
        assert(self@.take(self@.len() as int) =~= self@);
        out
    }

    /// A copy of line `y`.
    pub fn get_line(&self, y: usize) -> (r: WideString)
        requires
            y < self@.len(),
        ensures
            r@ == self@[y as int],
    {
        self.lines[y].clone()
    }

    /// The number of lines.
    pub fn get_line_count(&self) -> (r: usize)
        ensures
            r == self@.len(),
    {
        self.lines.len()
    }

    /// The number of characters of line `y`.
    pub fn get_line_length(&self, y: usize) -> (r: usize)
        requires
            y < self@.len(),
        ensures
            r == self@[y as int].len(),
    {
        self.lines[y].len()
    }

    /// Cuts line `y` at column `x`; the rest of the line becomes line `y + 1`.
    pub fn split_line(&mut self, x: usize, y: usize)
        requires
            pos_ok(old(self)@, x as int, y as int),
        ensures
            final(self)@ == split_spec(old(self)@, x as int, y as int),
    {
        let n = self.lines.len();
        let (p0, p1) = self.lines[y].split_at(x);
        self.lines.set(y, p0);
        self.lines.insert(y + 1, p1);
        assert(self@ =~= split_spec(old(self)@, x as int, y as int));
    }

    /// Appends line `y + 1` to line `y` and removes it; nothing happens on the last line.
    pub fn join_lines(&mut self, y: usize)
        requires
            y < old(self)@.len(),
        ensures
            final(self)@ == join_spec(old(self)@, y as int),
    {
        let n = self.lines.len();
        if y + 1 < n {
            let combined = self.lines[y].concat(&self.lines[y + 1]);
            self.lines.set(y, combined);
            self.lines.remove(y + 1);
            assert(self@ =~= join_spec(old(self)@, y as int));
        }
    }

    /// Types `c` at column `x` of line `y`; a newline splits the line there.
    pub fn append(&mut self, x: usize, y: usize, c: char)
        requires
            pos_ok(old(self)@, x as int, y as int),
        ensures
            final(self)@ == append_spec(old(self)@, x as int, y as int, c),
    {
        if c == '\n' {
            self.split_line(x, y);
        } else {
            let mut line = self.lines[y].clone();
            line.insert(x, c);
            self.lines.set(y, line);
            assert(self@ =~= append_spec(old(self)@, x as int, y as int, c));
        }
    }

    /// Types the characters of `s`, the `k`-th at column `x + k` of line `y`.
    pub fn append_str(&mut self, x: usize, y: usize, s: &str)
        requires
            append_chars_ok(old(self)@, x as int, y as int, s@, 0),
        ensures
            final(self)@ == append_chars(old(self)@, x as int, y as int, s@, 0),
    {
        let chars = crate::text::str_chars(s);
        let mut i: usize = 0;
        while i < chars.len()
            invariant
                0 <= i <= chars@.len(),
                chars@ == s@,
                append_chars_ok(self@, x as int, y as int, s@, i as int),
                append_chars(self@, x as int, y as int, s@, i as int)
                    == append_chars(old(self)@, x as int, y as int, s@, 0),
            decreases chars@.len() - i,
        {
            let n = self.get_line_length(y);
            let xi = x + i;
            self.append(xi, y, chars[i]);
            i = i + 1;
        }
    }

    /// The text with lines joined by `'\n'`.
    pub fn to_string(&self) -> (r: String)
        ensures
            r@ == code_text(self@),
    {
        let mut s = String::new();
        let mut i: usize = 0;
        while i < self.lines.len()
            invariant
                0 <= i <= self.lines@.len(),
                s@ == join_lines_spec(self@.take(i as int)),
            decreases self.lines@.len() - i,
        {
            if i > 0 {
                string_push(&mut s, '\n');
            }
            let line = &self.lines[i];
            let mut j: usize = 0;
            let ghost base = s@;
            while j < line.len()
                invariant
                    0 <= j <= line@.len(),
                    s@ == base + line@.take(j as int),
                decreases line@.len() - j,
            {
                string_push(&mut s, line.get_char(j));
                assert(s@ =~= base + line@.take(j + 1));
                j = j + 1;
            }
            assert(line@.take(line@.len() as int) =~= line@);
            assert(self@.take(i + 1).drop_last() =~= self@.take(i as int));
            if i == 0 {
                assert(s@ =~= join_lines_spec(self@.take(1)));
            }
            i = i + 1;
        }
        assert(self@.take(self@.len() as int) =~= self@);
        s
    }

    /// The delete key at `cursor`: removes the character there; at the end of the line the
    /// next line is joined to it.
    pub fn delete(&mut self, cursor: UVec2)
        requires
            pos_ok(old(self)@, cursor.x as int, cursor.y as int),
        ensures
            final(self)@ == delete_spec(old(self)@, cursor),
    {
        if cursor.x == self.get_line_length(cursor.y) {
            self.join_lines(cursor.y);
        } else {
            let mut line = self.lines[cursor.y].clone();
            line.remove(cursor.x);
            self.lines.set(cursor.y, line);
            assert(self@ =~= delete_spec(old(self)@, cursor));
        }
    }

    /// Puts line `cursor.y` on the clipboard and removes it. Where the clipboard refuses,
    /// the lines stay as they were.
    pub fn delete_line(&mut self, cursor: UVec2, clipboard: &mut EditorClipboard) -> (r: Result<(), EditorCodeBufferError>)
        requires
            cursor.y < old(self)@.len(),
        ensures
            r is Ok ==> final(self)@ == old(self)@.remove(cursor.y as int),
            r is Err ==> final(self)@ == old(self)@ && clipboard_failed(r->Err_0),
            placed(old(clipboard)@, final(clipboard)@, old(self)@[cursor.y as int], r),
    {
        let text = self.lines[cursor.y].to_string();
        match put_on_clipboard(clipboard, text) {
            Ok(()) => {},
            Err(e) => return Err(e),
        }
        self.lines.remove(cursor.y);
        assert(self@ =~= old(self)@.remove(cursor.y as int));
        Ok(())
    }

    /// Puts the cursor's line on the clipboard.
    pub fn yank_line(&self, cursor: &mut EditorCursor, mode: &EditorMode, clipboard: &mut EditorClipboard) -> (r: Result<(), EditorCodeBufferError>)
        requires
            old(cursor)@.y < self@.len(),
        ensures
            final(cursor)@ == old(cursor)@,
            r is Err ==> clipboard_failed(r->Err_0),
            placed(old(clipboard)@, final(clipboard)@, self@[old(cursor)@.y as int], r),
    {
        let y = cursor.get(self, mode).y;
        put_on_clipboard(clipboard, self.lines[y].to_string())
    }

    /// The text of the selection from `lo` up to, not including, `(hx, hy)`.
    pub fn selection_text(&self, lo: UVec2, hx: usize, hy: usize) -> (r: String)
        requires
            selection_ok(self@, lo, hx as int, hy as int),
        ensures
            r@ == selection_text(self@, lo, hx as int, hy as int),
    {
        if lo.y == hy {
            let (_, p1) = self.lines[lo.y].split_at(lo.x);
            let (text, _) = p1.split_at(hx - lo.x);
            assert(text@ =~= self@[hy as int].subrange(lo.x as int, hx as int));
            text.to_string()
        } else {
            let (_, top_line) = self.lines[lo.y].split_at(lo.x);
            let mut text = top_line.to_string();
            string_push(&mut text, '\n');
            let (bottom_line, _) = self.lines[hy].split_at(hx);
            let ghost head = text@;
            let mut y = lo.y + 1;
            while y < hy
                invariant
                    lo.y + 1 <= y <= hy,
                    hy < self@.len(),
                    head + middle_lines_text(self@, lo.y + 1, hy as int) == text@ + middle_lines_text(self@, y as int, hy as int),
                decreases hy - y,
            {
                let ghost before = text@;
                push_wide(&mut text, &self.lines[y]);
                string_push(&mut text, '\n');
                assert(before + middle_lines_text(self@, y as int, hy as int)
                    =~= text@ + middle_lines_text(self@, y + 1, hy as int));
                y = y + 1;
            }
            push_wide(&mut text, &bottom_line);
            string_push(&mut text, '\n');
            assert(text@ =~= selection_text(self@, lo, hx as int, hy as int));
            text
        }
    }

    /// Puts the selection between the cursor and the start of the visual selection on the
    /// clipboard, up to and including the later end. Outside visual mode there is no selection.
    pub fn yank_selection(&self, cursor: &mut EditorCursor, mode: &EditorMode, clipboard: &mut EditorClipboard) -> (r: Result<(), EditorCodeBufferError>)
        requires
            old(cursor)@.y < self@.len(),
            (*mode matches EditorMode::Visual { start } ==> {
                let c = UVec2 {
                    x: clamp_x_spec(old(cursor)@.x as int, self@[old(cursor)@.y as int].len() as int, *mode) as usize,
                    y: old(cursor)@.y,
                };
                &&& sel_hi(c, start).0 <= usize::MAX
                &&& selection_ok(self@, sel_lo(c, start), sel_hi(c, start).0, sel_hi(c, start).1)
            }),
        ensures
            final(cursor)@ == old(cursor)@,
            !(mode is Visual) <==> r == Err::<(), EditorCodeBufferError>(EditorCodeBufferError::NoSelection),
            mode is Visual && r is Err ==> clipboard_failed(r->Err_0),
            !(mode is Visual) ==> final(clipboard)@ == old(clipboard)@,
            (*mode matches EditorMode::Visual { start } ==> {
                let c = cursor_pos_spec(self@, old(cursor)@, *mode);
                placed(old(clipboard)@, final(clipboard)@, selection_text(self@, sel_lo(c, start), sel_hi(c, start).0, sel_hi(c, start).1), r)
            }),
    {
        let start = cursor.get(self, mode);
        let end = match mode {
            EditorMode::Visual { start } => *start,
            _ => return Err(EditorCodeBufferError::NoSelection),
        };
        let lo = start.min(end);
        let hi = start.max(end);
        let text = self.selection_text(lo, hi.x + 1, hi.y);
        put_on_clipboard(clipboard, text)
    }

    /// Deletes the selection from `lo` up to, not including, `(hx, hy)`, and returns its text.
    pub fn take_selection(&mut self, lo: UVec2, hx: usize, hy: usize) -> (r: String)
        requires
            delete_selection_ok(old(self)@, lo, hx as int, hy as int),
        ensures
            final(self)@ == delete_selection_spec(old(self)@, lo, hx as int, hy as int).0,
            r@ == delete_selection_spec(old(self)@, lo, hx as int, hy as int).1,
    {
        if lo.y == hy {
            let line = self.lines[lo.y].clone();
            let (p0, p1) = line.split_at(lo.x);
            let (text, p2) = p1.split_at(hx - lo.x);
            assert(p2@ =~= line@.skip(hx as int));
            assert(p0@ =~= line@.take(lo.x as int));
            self.lines.set(lo.y, p0.concat(&p2));
            assert(self@ =~= delete_selection_spec(old(self)@, lo, hx as int, hy as int).0);
            assert(text@ =~= old(self)@[hy as int].subrange(lo.x as int, hx as int));
            text.to_string()
        } else {
            let line = self.lines[lo.y].clone();
            let (p1, top_line) = line.split_at(lo.x);
            self.lines.set(lo.y, p1);
            let mut text = top_line.to_string();
            string_push(&mut text, '\n');
            let line = self.lines[hy].clone();
            let (bottom_line, p1) = line.split_at(hx);
            self.lines.set(hy, p1);
            let ghost l1 = self@;
            assert(l1 =~= old(self)@.update(lo.y as int, old(self)@[lo.y as int].take(lo.x as int)).update(
                hy as int,
                old(self)@[hy as int].skip(hx as int),
            ));
            let ghost head = text@;
            let mut y = lo.y + 1;
            while y < hy
                invariant
                    lo.y + 1 <= y <= hy,
                    delete_middle_ok(self@.len() as int, y as int, hy as int),
                    delete_middle(self@, y as int, hy as int).0 == delete_middle(l1, lo.y + 1, hy as int).0,
                    text@ + delete_middle(self@, y as int, hy as int).1 == head + delete_middle(l1, lo.y + 1, hy as int).1,
                decreases hy - y,
            {
                let ghost before = text@;
                let ghost lines_before = self@;
                let line = self.get_line(y);
                push_wide(&mut text, &line);
                string_push(&mut text, '\n');
                self.lines.remove(y);
                assert(self@ =~= lines_before.remove(y as int));
                assert(before + delete_middle(lines_before, y as int, hy as int).1
                    =~= text@ + delete_middle(self@, y + 1, hy as int).1);
                y = y + 1;
            }
            push_wide(&mut text, &bottom_line);
            string_push(&mut text, '\n');
            assert(text@ =~= delete_selection_spec(old(self)@, lo, hx as int, hy as int).1);
            text
        }
    }

    /// Deletes the selection between the cursor position `cursor` and the start of the
    /// visual selection, up to and including the later end, and puts its text on the
    /// clipboard. Outside visual mode there is no selection and nothing changes.
    pub fn delete_selection(&mut self, cursor: UVec2, mode: &EditorMode, clipboard: &mut EditorClipboard) -> (r: Result<(), EditorCodeBufferError>)
        requires
            (*mode matches EditorMode::Visual { start } ==> {
                &&& sel_hi(cursor, start).0 <= usize::MAX
                &&& delete_selection_ok(old(self)@, sel_lo(cursor, start), sel_hi(cursor, start).0, sel_hi(cursor, start).1)
            }),
        ensures
            !(mode is Visual) <==> r == Err::<(), EditorCodeBufferError>(EditorCodeBufferError::NoSelection),
            !(mode is Visual) ==> final(self)@ == old(self)@,
            (*mode matches EditorMode::Visual { start } ==> {
                let d = delete_selection_spec(old(self)@, sel_lo(cursor, start), sel_hi(cursor, start).0, sel_hi(cursor, start).1);
                &&& final(self)@ == d.0
                &&& r is Err ==> clipboard_failed(r->Err_0)
                &&& placed(old(clipboard)@, final(clipboard)@, d.1, r)
            }),
            !(mode is Visual) ==> final(clipboard)@ == old(clipboard)@,
    {
        let end = match mode {
            EditorMode::Visual { start } => *start,
            _ => return Err(EditorCodeBufferError::NoSelection),
        };
        let lo = cursor.min(end);
        let hi = cursor.max(end);
        let text = self.take_selection(lo, hi.x + 1, hi.y);
        put_on_clipboard(clipboard, text)
    }

    /// Types `text` at the cursor and moves the cursor past it. A text with a newline
    /// before its end is refused, for its rest would fall outside the shortened line.
    pub fn paste_text(&mut self, cursor: &mut EditorCursor, mode: &EditorMode, text: &str) -> (r: Result<(), EditorCodeBufferError>)
        requires
            old(cursor)@.y < old(self)@.len(),
            clamp_x_spec(old(cursor)@.x as int, old(self)@[old(cursor)@.y as int].len() as int, *mode)
                <= old(self)@[old(cursor)@.y as int].len(),
        ensures
            ({
                let p = old(cursor)@;
                let x = clamp_x_spec(p.x as int, old(self)@[p.y as int].len() as int, *mode);
                let after = append_chars(old(self)@, x, p.y as int, text@, 0);
                if paste_fits(old(self)@[p.y as int].len() as int, text@) {
                    &&& r is Ok
                    &&& final(self)@ == after
                    &&& final(cursor)@.y == p.y
                    &&& final(cursor)@.x == move_by_x_spec(p.x as int, after[p.y as int].len() as int, *mode, text@.len() as int)
                } else {
                    &&& r == Err::<(), EditorCodeBufferError>(EditorCodeBufferError::PasteSplitsLine)
                    &&& final(self)@ == old(self)@
                    &&& final(cursor)@ == old(cursor)@
                }
            }),
    {
        let pos = cursor.get(self, mode);
        let chars = str_chars(text);
        let n = chars.len();
        let mut k: usize = 0;
        let mut fits = true;
        while k < n
            invariant
                k <= n,
                n == chars@.len(),
                chars@ == text@,
                fits <==> (forall|j: int| 0 <= j < k && j < n - 1 ==> chars@[j] != '\n'),
            decreases n - k,
        {
            if k + 1 < n && chars[k] == '\n' {
                fits = false;
            }
            k = k + 1;
        }
        let len = self.get_line_length(pos.y);
        if !fits || n > isize::MAX as usize || n > (usize::MAX - len) / 2 {
            return Err(EditorCodeBufferError::PasteSplitsLine);
        }
        proof {
            lemma_append_fits(self@, pos.x as int, pos.y as int, text@, 0);
        }
        self.append_str(pos.x, pos.y, text);
        proof {
            lemma_append_len(old(self)@, pos.x as int, pos.y as int, text@, 0);
        }
        cursor.move_by_x(n as isize, self, mode, UVec2::zero());
        Ok(())
    }

    /// Types the text on the clipboard at the cursor, as `paste_text` does.
    pub fn paste(&mut self, cursor: &mut EditorCursor, mode: &EditorMode, clipboard: &mut EditorClipboard) -> (r: Result<(), EditorCodeBufferError>)
        requires
            old(cursor)@.y < old(self)@.len(),
            clamp_x_spec(old(cursor)@.x as int, old(self)@[old(cursor)@.y as int].len() as int, *mode)
                <= old(self)@[old(cursor)@.y as int].len(),
        ensures
            r matches Err(e) && clipboard_failed(e) ==> final(self)@ == old(self)@ && final(cursor)@ == old(cursor)@,
            r matches Err(e) ==> clipboard_failed(e) || e is PasteSplitsLine,
            r matches Err(EditorCodeBufferError::PasteSplitsLine) ==> final(self)@ == old(self)@ && final(cursor)@ == old(cursor)@,
            final(cursor)@.y == old(cursor)@.y,
            final(clipboard)@ == old(clipboard)@,
            !old(clipboard)@.present <==> r == Err::<(), EditorCodeBufferError>(EditorCodeBufferError::NoClipboard),
            !old(clipboard)@.present ==> final(self)@ == old(self)@ && final(cursor)@ == old(cursor)@,
            r is Ok ==> exists|t: Seq<char>| pasted(old(self)@, old(cursor)@, *mode, t, final(self)@, final(cursor)@),
            r == Err::<(), EditorCodeBufferError>(EditorCodeBufferError::PasteSplitsLine)
                ==> exists|t: Seq<char>| !paste_fits(old(self)@[old(cursor)@.y as int].len() as int, t),
    {
        let text = match clipboard.get_text() {
            Some(Ok(text)) => text,
            Some(Err(e)) => return Err(EditorCodeBufferError::ClipboardError(e)),
            None => return Err(EditorCodeBufferError::NoClipboard),
        };
        let r = self.paste_text(cursor, mode, text.as_str());
        proof {
            if r is Ok {
                assert(pasted(old(self)@, old(cursor)@, *mode, text@, self@, cursor@));
            }
            if r == Err::<(), EditorCodeBufferError>(EditorCodeBufferError::PasteSplitsLine) {
                assert(!paste_fits(old(self)@[old(cursor)@.y as int].len() as int, text@));
            }
        }
        r
    }

    /// The backspace key at `cursor`, the position of `mut_cursor`: removes the character
    /// before it and moves left; at the start of a line joins it to the line above and moves
    /// to the join.
    pub fn backspace(
        &mut self,
        cursor: UVec2,
        mut_cursor: &mut EditorCursor,
        mode: &EditorMode,
        window_size: UVec2,
        scroll: &mut EditorScroll,
    ) -> (r: Result<(), EditorCodeBufferError>)
        requires
            pos_ok(old(self)@, cursor.x as int, cursor.y as int),
            old(mut_cursor)@.y < old(self)@.len(),
        ensures
            r is Ok,
            ({
                let l = old(self)@;
                let c = old(mut_cursor)@;
                if cursor.x == 0 && cursor.y == 0 {
                    &&& final(self)@ == l
                    &&& final(mut_cursor)@ == c
                    &&& final(scroll)@ == old(scroll)@
                } else if cursor.x == 0 {
                    let ny = offset_spec(c.y as int, -1);
                    &&& final(self)@ == join_spec(l, cursor.y - 1)
                    &&& final(mut_cursor)@.y == ny
                    &&& final(mut_cursor)@.x == clamp_x_spec(l[cursor.y - 1].len() as int, l[ny].len() as int, *mode)
                    &&& final(scroll)@.x == old(scroll)@.x
                    &&& final(scroll)@.y == scroll_follow_spec(old(scroll)@.y as int, ny, window_size.y as int, -1)
                } else {
                    &&& final(self)@ == l.update(cursor.y as int, l[cursor.y as int].remove(cursor.x - 1))
                    &&& final(mut_cursor)@.y == c.y
                    &&& final(mut_cursor)@.x == move_by_x_spec(c.x as int, l[c.y as int].len() as int, *mode, -1)
                    &&& final(scroll)@ == old(scroll)@
                }
            }),
    {
        if cursor.x == 0 {
            if cursor.y == 0 {
                return Ok(());
            }
            let line_length = self.get_line_length(cursor.y - 1);
            mut_cursor.move_by_y(-1, self, window_size, scroll);
            mut_cursor.move_to_x(line_length, self, mode);
            self.join_lines(cursor.y - 1);
        } else {
            let remove_x = cursor.x - 1;
            mut_cursor.move_by_x(-1, self, mode, window_size);
            let mut line = self.lines[cursor.y].clone();
            line.remove(remove_x);
            self.lines.set(cursor.y, line);
            assert(self@ =~= old(self)@.update(cursor.y as int, old(self)@[cursor.y as int].remove(cursor.x - 1)));
        }
        Ok(())
    }

    /// Carries out an edit at the cursor: typing, deleting, and the clipboard actions.
    pub fn on_action(
        &mut self,
        action: EditorEditAction,
        mut_cursor: &mut EditorCursor,
        mode: &EditorMode,
        clipboard: &mut EditorClipboard,
        window_size: UVec2,
        scroll: &mut EditorScroll,
    ) -> (r: Result<(), EditorCodeBufferError>)
        requires
            old(mut_cursor)@.y < old(self)@.len(),
            edit_action_ok(action, old(self)@, old(mut_cursor)@, *mode, window_size, old(scroll)@),
        ensures
            edit_action_effect(
                action,
                old(self)@,
                old(mut_cursor)@,
                *mode,
                window_size,
                old(scroll)@,
                final(self)@,
                final(mut_cursor)@,
                final(scroll)@,
                r,
            ),
            edit_clipboard_effect(action, old(self)@, old(mut_cursor)@, *mode, old(clipboard)@, final(clipboard)@, r),
    {
        let cursor = mut_cursor.get(self, mode);
        match action {
            EditorEditAction::Append(ch) => {
                let x = cursor.x;
                let y = cursor.y;
                if ch == '\n' {
                    self.append(x, y, '\n');
                    let _count = self.get_line_count();
                    mut_cursor.move_by_y(1, self, window_size, scroll);
                    mut_cursor.move_to_x(0, self, mode);
                } else {
                    self.append(x, y, ch);
                    mut_cursor.move_by_x(1, self, mode, window_size);
                }
                Ok(())
            },
            EditorEditAction::Delete => {
                self.delete(cursor);
                Ok(())
            },
            EditorEditAction::Backspace => self.backspace(cursor, mut_cursor, mode, window_size, scroll),
            EditorEditAction::DeleteLine => self.delete_line(cursor, clipboard),
            EditorEditAction::DeleteSelection => self.delete_selection(cursor, mode, clipboard),
            EditorEditAction::YankLine => self.yank_line(mut_cursor, mode, clipboard),
            EditorEditAction::YankSelection => self.yank_selection(mut_cursor, mode, clipboard),
            EditorEditAction::Paste => self.paste(mut_cursor, mode, clipboard),
        }
    }
}

} // verus!
