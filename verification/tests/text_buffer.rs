use tui_studio::clipboard::EditorClipboard;
use tui_studio::editor::buf::code_buf::{EditorCodeBuffer, EditorCodeBufferError};
use tui_studio::editor::buf::cursor::EditorCursor;
use tui_studio::editor::buf::history::{EditorHistory, EditorState};
use tui_studio::editor::buf::scroll::EditorScroll;
use tui_studio::mode::EditorMode;
use tui_studio::vec2::UVec2;
use tui_studio::wide_string::WideString;

fn lines_of(buf: &EditorCodeBuffer) -> Vec<String> {
    buf.get_lines().iter().map(|l| l.to_string()).collect()
}

#[test]
fn wide_string_insert_and_remove() {
    let mut s = WideString::from_str("héllo");
    assert_eq!(s.len(), 5);
    s.insert(1, 'x');
    assert_eq!(s.to_string(), "hxéllo");
    let c = s.remove(1);
    assert_eq!(c, 'x');
    assert_eq!(s.to_string(), "héllo");
}

#[test]
fn wide_string_insert_str_and_range() {
    let mut s = WideString::from_str("ad");
    s.insert_str(1, "bc".to_string());
    assert_eq!(s.to_string(), "abcd");
    assert_eq!(s.get_range(1, 3).to_string(), "bc");
    assert_eq!(s.get_range(2, 2).to_string(), "");
}

#[test]
fn wide_string_split_and_concat() {
    let s = WideString::from_string("日本語テキスト".to_string());
    let (a, b) = s.split_at(3);
    assert_eq!(a.to_string(), "日本語");
    assert_eq!(b.to_string(), "テキスト");
    assert_eq!(a.concat(&b).to_string(), "日本語テキスト");
    assert_eq!(WideString::new().len(), 0);
}

#[test]
fn code_buffer_reads_lines_like_a_file() {
    let buf = EditorCodeBuffer::from_string("one\ntwo\r\nthree".to_string());
    assert_eq!(lines_of(&buf), vec!["one", "two", "three"]);
    assert_eq!(buf.get_line_count(), 3);
    assert_eq!(buf.get_line_length(2), 5);
    assert_eq!(buf.get_line(1).to_string(), "two");
}

#[test]
fn code_buffer_empty_text_is_one_empty_line() {
    let buf = EditorCodeBuffer::from_string(String::new());
    assert_eq!(lines_of(&buf), vec![""]);
    let buf = EditorCodeBuffer::new();
    assert_eq!(buf.get_line_count(), 1);
    assert_eq!(buf.to_string(), "");
}

#[test]
fn code_buffer_text_round_trip() {
    let text = "fn main() {\n    let x = 1;\n}";
    let buf = EditorCodeBuffer::from_string(text.to_string());
    let written = buf.to_string();
    assert_eq!(written, text);
    let again = EditorCodeBuffer::from_string(written);
    assert_eq!(lines_of(&again), lines_of(&buf));
}

#[test]
fn code_buffer_set_code_splits_lines() {
    let mut buf = EditorCodeBuffer::new();
    buf.set_code("a\nb\n".to_string());
    assert_eq!(lines_of(&buf), vec!["a", "b"]);
}

#[test]
fn code_buffer_append_and_newline() {
    let mut buf = EditorCodeBuffer::from_string("hello".to_string());
    buf.append(5, 0, '!');
    assert_eq!(lines_of(&buf), vec!["hello!"]);
    buf.append(2, 0, '\n');
    assert_eq!(lines_of(&buf), vec!["he", "llo!"]);
    buf.append_str(0, 1, "ab");
    assert_eq!(lines_of(&buf), vec!["he", "abllo!"]);
}

#[test]
fn code_buffer_split_then_join_restores() {
    let mut buf = EditorCodeBuffer::from_string("abcdef\nxyz".to_string());
    buf.split_line(3, 0);
    assert_eq!(lines_of(&buf), vec!["abc", "def", "xyz"]);
    buf.join_lines(0);
    assert_eq!(lines_of(&buf), vec!["abcdef", "xyz"]);
    buf.join_lines(1);
    assert_eq!(lines_of(&buf), vec!["abcdef", "xyz"]);
}

#[test]
fn code_buffer_delete_undoes_append() {
    let mut buf = EditorCodeBuffer::from_string("abc\nd".to_string());
    buf.append(1, 0, 'X');
    buf.delete(UVec2::new(1, 0));
    assert_eq!(lines_of(&buf), vec!["abc", "d"]);
    buf.append(1, 0, '\n');
    assert_eq!(lines_of(&buf), vec!["a", "bc", "d"]);
    buf.delete(UVec2::new(1, 0));
    assert_eq!(lines_of(&buf), vec!["abc", "d"]);
}

#[test]
fn code_buffer_delete_at_line_end_joins() {
    let mut buf = EditorCodeBuffer::from_string("ab\ncd".to_string());
    buf.delete(UVec2::new(2, 0));
    assert_eq!(lines_of(&buf), vec!["abcd"]);
}

#[test]
fn code_buffer_selection_text_and_take() {
    let mut buf = EditorCodeBuffer::from_string("hello\nbig\nworld".to_string());
    assert_eq!(buf.selection_text(UVec2::new(1, 0), 4, 0), "ell");
    assert_eq!(buf.selection_text(UVec2::new(3, 0), 2, 2), "lo\nbig\nwo\n");
    let taken = buf.take_selection(UVec2::new(3, 0), 2, 2);
    assert_eq!(taken, "lo\nbig\nwo\n");
    assert_eq!(lines_of(&buf), vec!["hel", "rld"]);
}

#[test]
fn code_buffer_paste_text_inserts_at_cursor() {
    let mut buf = EditorCodeBuffer::from_string("abc".to_string());
    let mut cursor = EditorCursor::new();
    let r = buf.paste_text(&mut cursor, &EditorMode::Normal, "XY");
    assert!(r.is_ok());
    assert_eq!(lines_of(&buf), vec!["XYabc"]);
}

#[test]
fn code_buffer_delete_line_keeps_text_without_clipboard() {
    let mut buf = EditorCodeBuffer::from_string("one\ntwo".to_string());
    let mut clipboard = EditorClipboard::none();
    let r = buf.delete_line(UVec2::new(0, 0), &mut clipboard);
    assert!(matches!(r, Err(EditorCodeBufferError::NoClipboard)));
    assert_eq!(lines_of(&buf), vec!["one", "two"]);
}

#[test]
fn code_buffer_paste_without_clipboard_changes_nothing() {
    let mut buf = EditorCodeBuffer::from_string("abc".to_string());
    let mut cursor = EditorCursor::new();
    let mut clipboard = EditorClipboard::none();
    let r = buf.paste(&mut cursor, &EditorMode::Normal, &mut clipboard);
    assert!(matches!(r, Err(EditorCodeBufferError::NoClipboard)));
    assert_eq!(lines_of(&buf), vec!["abc"]);
    assert_eq!(cursor.get_raw(), UVec2::new(0, 0));
}

#[test]
fn code_buffer_yank_line_without_clipboard() {
    let buf = EditorCodeBuffer::from_string("abc".to_string());
    let mut cursor = EditorCursor::new();
    let mut clipboard = EditorClipboard::none();
    let r = buf.yank_line(&mut cursor, &EditorMode::Normal, &mut clipboard);
    assert!(matches!(r, Err(EditorCodeBufferError::NoClipboard)));
    assert_eq!(cursor.get_raw(), UVec2::new(0, 0));
}

#[test]
fn code_buffer_backspace_joins_lines() {
    let mut buf = EditorCodeBuffer::from_string("ab\ncd".to_string());
    let mut cursor = EditorCursor::new();
    let mut scroll = EditorScroll::new();
    let mode = EditorMode::Insert { append: false };
    cursor.move_to(UVec2::new(0, 1), &buf, &mode);
    let r = buf.backspace(UVec2::new(0, 1), &mut cursor, &mode, UVec2::new(80, 24), &mut scroll);
    assert!(r.is_ok());
    assert_eq!(lines_of(&buf), vec!["abcd"]);
    assert_eq!(cursor.get(&buf, &mode), UVec2::new(2, 0));
}

#[test]
fn code_buffer_backspace_removes_character() {
    let mut buf = EditorCodeBuffer::from_string("abc".to_string());
    let mut cursor = EditorCursor::new();
    let mut scroll = EditorScroll::new();
    let mode = EditorMode::Insert { append: false };
    cursor.move_to(UVec2::new(2, 0), &buf, &mode);
    let r = buf.backspace(UVec2::new(2, 0), &mut cursor, &mode, UVec2::new(80, 24), &mut scroll);
    assert!(r.is_ok());
    assert_eq!(lines_of(&buf), vec!["ac"]);
    assert_eq!(cursor.get(&buf, &mode), UVec2::new(1, 0));
}

fn state(code: &str, x: usize, y: usize) -> EditorState {
    EditorState { code: code.to_string(), cursor: UVec2::new(x, y) }
}

#[test]
fn history_undo_then_redo() {
    let mut h = EditorHistory::new();
    assert!(h.undo().is_none());
    h.action(state("a", 0, 0));
    h.action(state("ab", 1, 0));
    let u = h.undo().unwrap();
    assert_eq!(u.code, "ab");
    let r = h.redo().unwrap();
    assert_eq!(r.code, "ab");
    assert_eq!(r.cursor, UVec2::new(1, 0));
    assert!(h.redo().is_none());
}

#[test]
fn history_record_clears_redo() {
    let mut h = EditorHistory::new();
    h.action(state("a", 0, 0));
    let _ = h.undo();
    h.action(state("b", 0, 0));
    assert!(h.redo().is_none());
    assert_eq!(h.undo().unwrap().code, "b");
    assert!(h.undo().is_none());
}

#[test]
fn code_buffer_delete_selection_needs_visual_mode() {
    let mut buf = EditorCodeBuffer::from_string("abc".to_string());
    let mut clipboard = EditorClipboard::none();
    let r = buf.delete_selection(UVec2::new(1, 0), &EditorMode::Normal, &mut clipboard);
    assert!(matches!(r, Err(EditorCodeBufferError::NoSelection)));
    assert_eq!(lines_of(&buf), vec!["abc"]);
    let r = buf.delete_selection(UVec2::new(1, 0), &EditorMode::Visual { start: UVec2::new(0, 0) }, &mut clipboard);
    assert!(matches!(r, Err(EditorCodeBufferError::NoClipboard)));
    assert_eq!(lines_of(&buf), vec!["c"]);
}

#[test]
fn code_buffer_paste_text_with_newline_inside_is_refused() {
    let mut buf = EditorCodeBuffer::from_string("abc".to_string());
    let mut cursor = EditorCursor::new();
    let r = buf.paste_text(&mut cursor, &EditorMode::Normal, "x\ny");
    assert!(matches!(r, Err(EditorCodeBufferError::PasteSplitsLine)));
    assert_eq!(lines_of(&buf), vec!["abc"]);
}

#[test]
fn text_read_and_written_back_is_the_same() {
    for s in ["a\n\nb", "", "one", "x\ny\nz"] {
        assert_eq!(EditorCodeBuffer::from_string(s.to_string()).to_string(), s);
    }
    assert_eq!(EditorCodeBuffer::from_string("a\n".to_string()).to_string(), "a");
}

#[test]
fn no_clipboard_takes_nothing() {
    let mut clipboard = EditorClipboard::none();
    assert!(clipboard.set_text("x".to_string()).is_none());
    assert!(clipboard.get_text().is_none());
}

#[test]
fn code_buffer_yank_selection_without_clipboard() {
    let buf = EditorCodeBuffer::from_string("hello world".to_string());
    let mut cursor = EditorCursor::new();
    let mut clipboard = EditorClipboard::none();
    let r = buf.yank_selection(&mut cursor, &EditorMode::Visual { start: UVec2::new(4, 0) }, &mut clipboard);
    assert!(matches!(r, Err(EditorCodeBufferError::NoClipboard)));
    let r = buf.yank_selection(&mut cursor, &EditorMode::Normal, &mut clipboard);
    assert!(matches!(r, Err(EditorCodeBufferError::NoSelection)));
    assert_eq!(lines_of(&buf), vec!["hello world"]);
}
