use tui_studio::editor::buf::buf::EditorBuffer;
use tui_studio::editor::editor::Editor;
use tui_studio::editor::renderer::EditorRenderer;
use tui_studio::language_support::highlight::{Color, HighlightToken};
use tui_studio::mode::EditorMode;
use tui_studio::ui::editor_panel::{render_command_box, render_numbers, tokens_fit, visual_bounds, EditorPanel};
use tui_studio::ui::renderer::{ColorSpan, ColorToken, CursorStyle, UIRenderer};
use tui_studio::ui::widget::{InfoBar, TabPanel, Widget};
use tui_studio::vec2::{Rect, U16Vec2, UVec2};
use tui_studio::wide_string::WideString;

fn editor_with(name: &str, text: &str, size: UVec2) -> Editor {
    let buf = EditorBuffer::open(name.to_string(), text.to_string()).unwrap();
    Editor::new(buf, Rect::new(UVec2::new(0, 0), size))
}

#[test]
fn renderer_starts_blank() {
    let r = UIRenderer::new(U16Vec2::new(3, 2));
    assert_eq!(r.lines(), vec!["   ".to_string(), "   ".to_string()]);
    assert_eq!(r.get_cursor_pos(), U16Vec2::new(0, 0));
    assert!(r.get_cursor_style().is_none());
    assert!(r.get_colors().is_empty());
}

#[test]
fn renderer_writes_text_in_place() {
    let mut r = UIRenderer::new(U16Vec2::new(6, 2));
    r.render_text("ab".to_string(), U16Vec2::new(2, 1));
    assert_eq!(r.lines(), vec!["      ".to_string(), "  ab  ".to_string()]);
    r.render_text("zz".to_string(), U16Vec2::new(0, 5));
    assert_eq!(r.lines()[1], "  ab  ");
    assert!(r.fits_row(4, 1, 2));
    assert!(!r.fits_row(5, 1, 2));
    assert_eq!(r.row_count(), 2);
}

#[test]
fn renderer_pastes_child() {
    let mut parent = UIRenderer::new(U16Vec2::new(5, 3));
    let mut child = UIRenderer::new(U16Vec2::new(2, 2));
    child.render_text("xy".to_string(), U16Vec2::new(0, 0));
    child.set_cursor(U16Vec2::new(1, 1), Some(CursorStyle::SteadyBar));
    parent.render_child(child, U16Vec2::new(1, 2));
    assert_eq!(parent.lines(), vec!["     ", "     ", " xy  "]);
    assert_eq!(parent.get_cursor_pos(), U16Vec2::new(1, 1));
    assert_eq!(parent.get_cursor_style(), Some(CursorStyle::SteadyBar));
}

#[test]
fn panel_draws_numbers_and_lines() {
    let editor = editor_with("notes.txt", "ab\ncd", UVec2::new(8, 3));
    let mut r = UIRenderer::new(U16Vec2::new(8, 3));
    EditorPanel::new().render(&mut r, U16Vec2::new(8, 3), &editor);
    assert_eq!(r.lines(), vec!["1 ab    ", "2 cd    ", "        "]);
    assert_eq!(r.get_cursor_pos(), U16Vec2::new(2, 0));
    assert_eq!(r.get_cursor_style(), Some(CursorStyle::SteadyBlock));
    assert!(r.get_colors().is_empty());
}

#[test]
fn panel_leaves_lines_that_do_not_fit() {
    let editor = editor_with("notes.txt", "a very long line", UVec2::new(6, 2));
    let mut r = UIRenderer::new(U16Vec2::new(6, 2));
    EditorPanel::new().render(&mut r, U16Vec2::new(6, 2), &editor);
    assert_eq!(r.lines(), vec!["      ", "      "]);
    assert_eq!(r.get_cursor_pos(), U16Vec2::new(0, 0));
}

#[test]
fn panel_shows_command_box() {
    let mut editor = editor_with("notes.txt", "x", UVec2::new(6, 2));
    editor.set_command_mode();
    let mut r = UIRenderer::new(U16Vec2::new(6, 2));
    EditorPanel::new().render(&mut r, U16Vec2::new(6, 2), &editor);
    assert_eq!(r.lines(), vec!["1 x   ", ":     "]);
    assert_eq!(r.get_cursor_pos(), U16Vec2::new(1, 1));
    assert_eq!(r.get_cursor_style(), Some(CursorStyle::SteadyBar));
}

#[test]
fn command_box_counts_bytes() {
    let mut r = UIRenderer::new(U16Vec2::new(6, 2));
    let pos = render_command_box(&mut r, U16Vec2::new(6, 2), &"é".to_string());
    assert_eq!(pos, U16Vec2::new(3, 1));
    assert_eq!(r.lines()[1], ":é    ");
}

#[test]
fn numbers_are_left_aligned() {
    let mut r = UIRenderer::new(U16Vec2::new(4, 2));
    let lines = vec![WideString::new(), WideString::new(), WideString::new()];
    render_numbers(&mut r, U16Vec2::new(4, 2), &lines, 1, 3);
    assert_eq!(r.lines(), vec!["2   ", "3   "]);
}

#[test]
fn visual_bounds_of_a_selection() {
    let start = UVec2::new(1, 0);
    assert_eq!(visual_bounds(5, 0, UVec2::new(3, 0), start), Some((1, 3)));
    assert_eq!(visual_bounds(5, 0, UVec2::new(0, 0), start), Some((1, 2)));
    assert_eq!(visual_bounds(5, 1, UVec2::new(2, 2), start), Some((0, 5)));
    assert_eq!(visual_bounds(5, 3, UVec2::new(2, 2), start), None);
}

#[test]
fn tokens_fit_the_parts_they_color() {
    let t = HighlightToken { start: UVec2::new(2, 0), end: UVec2::new(4, 0), color: Color::Rose };
    let tokens = Some(vec![t]);
    assert!(tokens_fit(&tokens, 0, 0, 0, 2, 6));
    assert!(!tokens_fit(&tokens, 0, 3, 0, 2, 6));
    assert!(tokens_fit(&tokens, 1, 3, 0, 2, 6));
    assert!(tokens_fit(&None, 0, 3, 0, 2, 6));
}

#[test]
fn panel_colors_visual_selection() {
    let mut editor = editor_with("notes.txt", "abcd", UVec2::new(8, 2));
    editor.set_visual_mode().unwrap();
    let mut r = UIRenderer::new(U16Vec2::new(8, 2));
    EditorPanel::new().render(&mut r, U16Vec2::new(8, 2), &editor);
    assert_eq!(r.lines()[0], "1 abcd  ");
    let colors = r.get_colors();
    assert_eq!(colors.len(), 1);
    assert_eq!(
        colors[0],
        ColorSpan { y: 0, start: 1, end: 1, token: ColorToken::Bg(tui_studio::language_support::highlight::RGBColor { r: 128, g: 128, b: 128 }) }
    );
}

#[test]
fn panel_colors_html_tokens() {
    let editor = editor_with("page.html", "<p>hi</p>", UVec2::new(12, 1));
    let mut r = UIRenderer::new(U16Vec2::new(12, 1));
    EditorPanel::new().render(&mut r, U16Vec2::new(12, 1), &editor);
    assert_eq!(r.lines()[0], "1 <p>hi</p> ");
    let colors = r.get_colors();
    assert_eq!(colors.len(), 2);
    assert_eq!(colors[0], ColorSpan { y: 0, start: 9, end: 10, token: ColorToken::Fg(Color::Rose) });
    assert_eq!(colors[1], ColorSpan { y: 0, start: 3, end: 4, token: ColorToken::Fg(Color::Rose) });
}

#[test]
fn editor_renderer_writes_rows() {
    let editor = editor_with("notes.txt", "ab\ncd", UVec2::new(20, 3));
    let renderer = EditorRenderer::new();
    let mut screen = vec![String::new(); 3];
    let cursor = renderer.render(&mut screen, UVec2::new(20, 3), &editor, &String::new());
    assert_eq!(cursor, Some(UVec2::new(2, 0)));
    assert!(screen[0].starts_with("\u{1b}[0m"));
    assert!(screen[0].contains("1 "));
    assert!(screen[0].ends_with("ab"));
    assert!(screen[1].ends_with("cd"));
    assert_eq!(screen[2], "");
}

#[test]
fn editor_renderer_command_box() {
    let mut editor = editor_with("notes.txt", "ab", UVec2::new(6, 2));
    editor.set_command_mode();
    let renderer = EditorRenderer::new();
    let mut screen = vec![String::new(); 2];
    let cursor = renderer.render(&mut screen, UVec2::new(6, 2), &editor, &"wq".to_string());
    assert_eq!(cursor, Some(UVec2::new(3, 1)));
    assert_eq!(screen[1], ":wq   ");
}

#[test]
fn editor_renderer_visual_parts() {
    let renderer = EditorRenderer::new();
    let mut screen = vec![String::new()];
    let line = WideString::from_str("abcd");
    renderer.render_code_visual_mode(&mut screen, 0, 0, &line, UVec2::new(2, 0), UVec2::new(1, 0), 0);
    let plain = "\u{1b}[49m";
    let select = "\u{1b}[48;5;15m";
    if screen[0].contains("48;5;15") {
        assert_eq!(screen[0], format!("{plain}a{select}b{plain}cd"));
    }
    assert!(screen[0].ends_with("cd"));
    assert!(screen[0].contains('a') && screen[0].contains('b'));
}

#[test]
fn widgets_leave_screen_alone() {
    let mut r = UIRenderer::new(U16Vec2::new(3, 1));
    TabPanel::new(vec![Box::new(InfoBar::new()) as Box<dyn Widget>]).render(&mut r, U16Vec2::new(3, 1));
    InfoBar::new().render(&mut r, U16Vec2::new(3, 1));
    assert_eq!(r.lines(), vec!["   "]);
    let _ = EditorMode::Normal;
}
