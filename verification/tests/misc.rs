use tui_studio::api::{EditorApi, EditorApiError, Message, PluginClient, PluginInfo, Tokenizer};
use tui_studio::editor::buf::buf::{file_name_of_path, EditorBuffer, EditorBufferError};
use tui_studio::editor::buf::code_buf::file_text;
use tui_studio::editor::editor::Editor;
use tui_studio::event::{count_digits, number_text};
use tui_studio::file_type::FileType;
use tui_studio::key::{map_key_with_modifiers, Key, KeyCode};
use tui_studio::language_support::highlight::{get_line_widths, index_to_vec2, keep_present, Color, HighlightToken};
use tui_studio::text::char_is_whitespace;
use tui_studio::language_support::langs::commit_message::CommitMessageLanguageSupport;
use tui_studio::language_support::langs::css::CSSLanguageSupport;
use tui_studio::language_support::langs::html::HTMLLanguageSupport;
use tui_studio::language_support::langs::markdown::MarkdownLanguageSupport;
use tui_studio::language_support::language_support::{from_file_type, LanguageSupport};
use tui_studio::mode::EditorMode;
use tui_studio::plugin::{HTMLPlugin, HTMLTokenizer, Plugin};
use tui_studio::vec2::{Rect, UVec2};

#[test]
fn file_types_by_extension_and_name() {
    assert_eq!(FileType::file_name_to_type("main.rs".to_string()).get(), "rust");
    assert_eq!(FileType::file_name_to_type("page.html".to_string()).get(), "html");
    assert_eq!(FileType::file_name_to_type("Makefile".to_string()).get(), "makefile");
    assert_eq!(FileType::file_name_to_type("Dockerfile".to_string()).get(), "dockerfile");
    assert_eq!(FileType::file_name_to_type("COMMIT_EDITMSG".to_string()).get(), "commit-message");
    assert_eq!(FileType::file_name_to_type("notes".to_string()).get(), "planetext");
    assert_eq!(FileType::file_name_to_type("archive.unknown".to_string()).get(), "planetext");
    assert_eq!(FileType::plain().get(), "planetext");
    assert_eq!(FileType::new("css").get(), "css");
}

#[test]
fn language_support_by_file_type() {
    assert!(from_file_type(FileType::new("html")).is_some());
    assert!(from_file_type(FileType::new("css")).is_some());
    assert!(from_file_type(FileType::new("markdown")).is_some());
    assert!(from_file_type(FileType::new("commit-message")).is_some());
    assert!(from_file_type(FileType::file_name_to_type("COMMIT_EDITMSG".to_string())).is_some());
    assert!(from_file_type(FileType::file_name_to_type("main.rs".to_string())).is_none());
    assert!(from_file_type(FileType::new("rust")).is_none());
    assert_eq!(HTMLLanguageSupport::new().file_type(), "html");
    assert_eq!(CSSLanguageSupport::new().file_type(), "css");
    assert_eq!(MarkdownLanguageSupport::new().file_type(), "markdown");
    assert!(HTMLLanguageSupport::new().format("x").is_none());
    assert!(HTMLLanguageSupport::new().get_lsp_server_cmd().is_none());
}

#[test]
fn html_highlight_tags() {
    let tokens = HTMLLanguageSupport::new().highlight_code("<p>hi</p>").unwrap();
    assert_eq!(
        tokens,
        vec![
            HighlightToken { start: UVec2::new(1, 0), end: UVec2::new(2, 0), color: Color::Rose },
            HighlightToken { start: UVec2::new(7, 0), end: UVec2::new(8, 0), color: Color::Rose },
        ]
    );
}

#[test]
fn html_highlight_over_lines() {
    let tokens = HTMLLanguageSupport::new().highlight("<b>\nx\n</b>").unwrap();
    assert_eq!(tokens.len(), 2);
    assert_eq!(tokens[0].start, UVec2::new(1, 0));
    assert_eq!(tokens[1].start, UVec2::new(2, 2));
    assert_eq!(tokens[1].end, UVec2::new(3, 2));
    assert_eq!(tokens[1].color, Color::Rose);
}

#[test]
fn line_widths_and_positions() {
    let widths = get_line_widths("ab\nécd\n");
    assert_eq!(widths, vec![2, 4]);
    assert_eq!(index_to_vec2(0, &widths), UVec2::new(0, 0));
    assert_eq!(index_to_vec2(2, &widths), UVec2::new(2, 0));
    assert_eq!(index_to_vec2(3, &widths), UVec2::new(0, 1));
    assert_eq!(index_to_vec2(7, &widths), UVec2::new(4, 1));
    assert_eq!(index_to_vec2(8, &widths), UVec2::new(0, 2));
}

#[test]
fn keys_from_key_codes() {
    assert_eq!(Key::from_key_code(KeyCode::Char('a'), false), Key::Char('a'));
    assert_eq!(Key::from_key_code(KeyCode::Char('c'), true), Key::Ctrl('c'));
    assert_eq!(Key::from_key_code(KeyCode::Enter, false), Key::Char('\n'));
    assert_eq!(Key::from_key_code(KeyCode::Tab, true), Key::Ctrl('\t'));
    assert_eq!(Key::from_key_code(KeyCode::Backspace, true), Key::Backspace);
    assert_eq!(Key::from_key_code(KeyCode::Esc, false), Key::Esc);
    assert_eq!(Key::from_key_code(KeyCode::Other, false), Key::InvalidKey);
    assert_eq!(map_key_with_modifiers(true, 'x'), Key::Ctrl('x'));
}

#[test]
fn numbers_as_text() {
    assert_eq!(number_text(7, 3), "7  ");
    assert_eq!(number_text(1234, 2), "1234");
    assert_eq!(number_text(0, 0), "0");
    assert_eq!(count_digits(0), 1);
    assert_eq!(count_digits(99), 2);
    assert_eq!(count_digits(100), 3);
}

#[test]
fn mode_labels() {
    assert_eq!(EditorMode::Normal.label(), "NORMAL");
    assert_eq!(EditorMode::Insert { append: true }.label(), "INSERT (APPEND)");
    assert_eq!(EditorMode::Insert { append: false }.label(), "INSERT");
    assert_eq!(EditorMode::Command.label(), "COMMAND");
    assert_eq!(EditorMode::default_mode(), EditorMode::Normal);
}

#[test]
fn plugin_client_messages() {
    let mut client = PluginClient::new();
    let info = PluginInfo { name: "html".to_string(), version: "0.1.0".to_string() };
    match client.initialize(info) {
        Message::Initialize(i) => {
            assert_eq!(i.name, "html");
            assert_eq!(i.version, "0.1.0");
        },
        _ => panic!("wrong message"),
    }
    let m = client.set_language_support(Box::new(HTMLLanguageSupport::new()));
    assert!(matches!(m, Message::SetLanguageSupport("html")));
    client.on_event("ignored".to_string());
}

#[test]
fn html_plugin_name_and_tokenizer() {
    assert_eq!(HTMLPlugin::new().get_name(), "HTML Plugin");
    assert!(HTMLTokenizer::tokenize().is_empty());
}

fn api_with(text: &str) -> EditorApi {
    let buf = EditorBuffer::open("a.txt".to_string(), text.to_string()).unwrap();
    EditorApi::new(Editor::new(buf, Rect::new(UVec2::new(0, 0), UVec2::new(80, 24))))
}

#[test]
fn editor_api_modes() {
    let mut api = api_with("abc");
    assert_eq!(api.get_mode().unwrap(), EditorMode::Normal);
    assert!(api.set_mode(EditorMode::Insert { append: true }).is_ok());
    assert_eq!(api.get_mode().unwrap(), EditorMode::Insert { append: true });
    assert!(api.set_mode(EditorMode::Command).is_ok());
    assert_eq!(api.get_mode().unwrap(), EditorMode::Command);
}

#[test]
fn editor_api_mode_without_buffer_fails() {
    let mut api = api_with("abc");
    assert!(api.close_current().is_ok());
    let r = api.set_mode(EditorMode::Visual { start: UVec2::new(0, 0) });
    assert!(matches!(r, Err(EditorApiError::SetEditorModeFailed)));
    assert!(api.close(5).is_ok());
}

#[test]
fn css_highlight_selector_and_property() {
    let tokens = CSSLanguageSupport::new().highlight_code("p { color: red; }").unwrap();
    assert_eq!(
        tokens,
        vec![
            HighlightToken { start: UVec2::new(0, 0), end: UVec2::new(1, 0), color: Color::Rose },
            HighlightToken { start: UVec2::new(4, 0), end: UVec2::new(9, 0), color: Color::White },
        ]
    );
}

#[test]
fn markdown_highlight_heading_and_italic() {
    let heading = MarkdownLanguageSupport::new().highlight_code("# Title").unwrap();
    assert_eq!(heading, vec![HighlightToken { start: UVec2::new(0, 0), end: UVec2::new(7, 0), color: Color::Rose }]);
    let italic = MarkdownLanguageSupport::new().highlight_code("a *i* b").unwrap();
    assert_eq!(italic, vec![HighlightToken { start: UVec2::new(2, 0), end: UVec2::new(5, 0), color: Color::Lime }]);
}

#[test]
fn editor_api_opens_buffers() {
    let mut api = api_with("abc");
    assert!(api.open_file(None).is_ok());
    assert!(api.open_file(Some(EditorBuffer::open("b.txt".to_string(), "xyz".to_string()).unwrap())).is_ok());
    assert!(api.set_mode(EditorMode::Insert { append: false }).is_ok());
    assert!(api.close(0).is_ok());
    let r = api.set_mode(EditorMode::Normal);
    assert!(matches!(r, Err(EditorApiError::SetEditorModeFailed)));
}

#[test]
fn position_past_trailing_newline_starts_next_line() {
    let widths = get_line_widths("abc\n");
    assert_eq!(widths, vec![3]);
    assert_eq!(index_to_vec2(3, &widths), UVec2::new(3, 0));
    assert_eq!(index_to_vec2(4, &widths), UVec2::new(0, 1));
}

#[test]
fn commit_message_highlights_comment_lines() {
    let support = CommitMessageLanguageSupport::new();
    assert_eq!(support.file_type(), "commit-message");
    let tokens = support.highlight("Fix it\n# Please enter\nbody # not").unwrap();
    assert_eq!(
        tokens,
        vec![HighlightToken { start: UVec2::new(0, 1), end: UVec2::new(14, 1), color: Color::Gray }]
    );
    assert!(support.format("x").is_none());
}

#[test]
fn spans_of_matches_without_group_are_dropped() {
    let spans = vec![Some((0, 2)), None, Some((5, 7))];
    assert_eq!(keep_present(&spans), vec![(0, 2), (5, 7)]);
    assert_eq!(keep_present(&Vec::new()), Vec::<(usize, usize)>::new());
}

#[test]
fn white_space_as_std_has_it() {
    for u in 0..=0x10FFFFu32 {
        if let Some(c) = char::from_u32(u) {
            assert_eq!(char_is_whitespace(c), c.is_whitespace(), "{:x}", u);
        }
    }
}

#[test]
fn file_names_of_paths() {
    assert_eq!(file_name_of_path("dir/index.html").unwrap(), "index.html");
    assert_eq!(file_name_of_path("notes.txt").unwrap(), "notes.txt");
    assert!(matches!(file_name_of_path("dir/.."), Err(EditorBufferError::FileNameRetrievalFailed)));
    assert!(matches!(file_name_of_path("/"), Err(EditorBufferError::FileNameRetrievalFailed)));
    assert!(matches!(EditorBuffer::open("/".to_string(), String::new()), Err(EditorBufferError::FileNameRetrievalFailed)));
    assert!(matches!(EditorBuffer::open("..".to_string(), "x".to_string()), Err(EditorBufferError::FileNameRetrievalFailed)));
    let buf = EditorBuffer::open("site.d/page.html".to_string(), "<p>".to_string()).unwrap();
    assert!(buf.highlight().is_some());
}

#[test]
fn command_runs_its_callback() {
    let ok = tui_studio::command::Command::new(|| Ok::<(), String>(()));
    assert_eq!(ok.run(), Ok(()));
    let failing = tui_studio::command::Command::new(|| Err::<(), String>("no".to_string()));
    assert_eq!(failing.run(), Err("no".to_string()));
}

#[test]
fn positions_over_two_lines_and_past_the_end() {
    let widths = get_line_widths("abc\nde");
    assert_eq!(widths, vec![3, 2]);
    assert_eq!(index_to_vec2(3, &widths), UVec2::new(3, 0));
    assert_eq!(index_to_vec2(4, &widths), UVec2::new(0, 1));
    assert_eq!(index_to_vec2(6, &widths), UVec2::new(2, 1));
    assert_eq!(index_to_vec2(7, &widths), UVec2::new(0, 2));
    assert_eq!(index_to_vec2(9, &widths), UVec2::new(0, 0));
}

#[test]
fn file_text_keeps_a_final_empty_line() {
    assert_eq!(file_text("a\n".to_string()), "a\n\n");
    assert_eq!(file_text("a".to_string()), "a");
    assert_eq!(file_text(String::new()), "");
}
