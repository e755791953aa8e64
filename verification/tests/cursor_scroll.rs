use tui_studio::action::EditorScrollAction;
use tui_studio::editor::buf::code_buf::EditorCodeBuffer;
use tui_studio::editor::buf::cursor::EditorCursor;
use tui_studio::editor::buf::scroll::EditorScroll;
use tui_studio::mode::EditorMode;
use tui_studio::vec2::{IVec2, UVec2};

#[test]
fn cursor_clamps_to_line_by_mode() {
    let code = EditorCodeBuffer::from_string("abc\n".to_string());
    let cursor = EditorCursor::new();
    assert_eq!(cursor.clamp_x(10, &code, &EditorMode::Normal), 2);
    assert_eq!(cursor.clamp_x(10, &code, &EditorMode::Insert { append: false }), 3);
    assert_eq!(cursor.clamp_x(10, &code, &EditorMode::Command), 10);
    assert_eq!(cursor.clamp_y(7, &code), 0);
}

#[test]
fn cursor_clamps_on_empty_line() {
    let code = EditorCodeBuffer::new();
    let cursor = EditorCursor::new();
    assert_eq!(cursor.clamp_x(4, &code, &EditorMode::Normal), 0);
}

#[test]
fn cursor_move_to_clamps() {
    let code = EditorCodeBuffer::from_string("hello\nhi".to_string());
    let mut cursor = EditorCursor::new();
    cursor.move_to(UVec2::new(4, 1), &code, &EditorMode::Normal);
    assert_eq!(cursor.get(&code, &EditorMode::Normal), UVec2::new(1, 1));
    cursor.move_to_y(0, &code);
    assert_eq!(cursor.get(&code, &EditorMode::Normal).y, 0);
}

#[test]
fn cursor_keeps_column_across_short_lines() {
    let code = EditorCodeBuffer::from_string("hello\nhi\nworld".to_string());
    let mut cursor = EditorCursor::new();
    let mut scroll = EditorScroll::new();
    let window = UVec2::new(80, 24);
    cursor.move_to_x(4, &code, &EditorMode::Normal);
    cursor.move_by_y(1, &code, window, &mut scroll);
    assert_eq!(cursor.get(&code, &EditorMode::Normal), UVec2::new(1, 1));
    cursor.move_by_y(1, &code, window, &mut scroll);
    assert_eq!(cursor.get(&code, &EditorMode::Normal), UVec2::new(4, 2));
}

#[test]
fn cursor_move_by_x_stays_in_line() {
    let code = EditorCodeBuffer::from_string("abc".to_string());
    let mut cursor = EditorCursor::new();
    let window = UVec2::new(80, 24);
    cursor.move_by_x(-1, &code, &EditorMode::Normal, window);
    assert_eq!(cursor.get_raw(), UVec2::new(0, 0));
    cursor.move_by_x(5, &code, &EditorMode::Normal, window);
    assert_eq!(cursor.get(&code, &EditorMode::Normal), UVec2::new(2, 0));
}

#[test]
fn cursor_moves_by_words() {
    let code = EditorCodeBuffer::from_string("hello world".to_string());
    let mut cursor = EditorCursor::new();
    cursor.move_to_next_word(&code);
    assert_eq!(cursor.get_raw(), UVec2::new(5, 0));
    cursor.move_to_next_word(&code);
    assert_eq!(cursor.get_raw(), UVec2::new(11, 0));
    cursor.move_to_back_word(&code);
    assert_eq!(cursor.get_raw(), UVec2::new(6, 0));
    cursor.move_to_back_word(&code);
    assert_eq!(cursor.get_raw(), UVec2::new(0, 0));
}

#[test]
fn cursor_next_word_at_line_end_goes_down() {
    let code = EditorCodeBuffer::from_string("ab\ncd".to_string());
    let mut cursor = EditorCursor::new();
    cursor.move_to(UVec2::new(2, 0), &code, &EditorMode::Insert { append: false });
    cursor.move_to_next_word(&code);
    assert_eq!(cursor.get_raw(), UVec2::new(0, 1));
    cursor.move_to(UVec2::new(2, 1), &code, &EditorMode::Insert { append: false });
    cursor.move_to_next_word(&code);
    assert_eq!(cursor.get_raw(), UVec2::new(2, 1));
}

#[test]
fn cursor_draw_position_counts_wide_characters() {
    let code = EditorCodeBuffer::from_string("日本a".to_string());
    let mut cursor = EditorCursor::new();
    cursor.move_to_x(2, &code, &EditorMode::Normal);
    assert_eq!(cursor.get_draw_position(&code, &EditorMode::Normal), UVec2::new(4, 0));
}

#[test]
fn scroll_moves_and_stops_at_zero() {
    let mut scroll = EditorScroll::new();
    assert_eq!(scroll.get(), UVec2::new(0, 0));
    scroll.scroll_by(IVec2::new(2, 3));
    assert_eq!(scroll.get(), UVec2::new(2, 3));
    scroll.on_action(EditorScrollAction::By(IVec2::new(-5, -1)));
    assert_eq!(scroll.get(), UVec2::new(0, 2));
    scroll.scroll_to_x(7);
    scroll.scroll_to_y(1);
    assert_eq!(scroll.get(), UVec2::new(7, 1));
}

#[test]
fn cursor_down_scrolls_the_view() {
    let code = EditorCodeBuffer::from_string("a\nb\nc\nd".to_string());
    let mut cursor = EditorCursor::new();
    let mut scroll = EditorScroll::new();
    let window = UVec2::new(10, 2);
    cursor.move_by_y(1, &code, window, &mut scroll);
    cursor.move_by_y(1, &code, window, &mut scroll);
    assert_eq!(cursor.get_raw().y, 2);
    assert_eq!(scroll.get().y, 1);
}
