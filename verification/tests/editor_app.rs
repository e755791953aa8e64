use tui_studio::action::{AppAction, EditorAction, EditorBufferAction, EditorCursorAction, EditorEditAction};
use tui_studio::app::{App, AppError, TermEvent};
use tui_studio::editor::buf::buf::EditorBuffer;
use tui_studio::editor::buf::manager::{EditorBufferManager, EditorBufferManagerAction};
use tui_studio::editor::editor::Editor;
use tui_studio::editor::ui::keymap::Keymap;
use tui_studio::event::Event;
use tui_studio::key::Key;
use tui_studio::key_config::{CommandManager, KeyConfig, KeyConfigType};
use tui_studio::mode::EditorMode;
use tui_studio::vec2::{IVec2, Rect, UVec2};

const SIZE: UVec2 = UVec2 { x: 80, y: 24 };

fn app_with(text: &str) -> App {
    let buf = EditorBuffer::open("notes.txt".to_string(), text.to_string()).unwrap();
    let editor = Editor::new(buf, Rect::new(UVec2::new(0, 0), SIZE));
    let mut app = App::new(editor);
    app.init();
    app
}

fn press(app: &mut App, key: Key, now: i128) -> Result<bool, AppError> {
    let evt = app.key_input(key, now);
    app.on_event(evt, SIZE)
}

fn text_of(app: &App) -> String {
    app.get_editor().get_current_buffer().unwrap().get_code_buf().to_string()
}

fn cursor_of(app: &App) -> UVec2 {
    let editor = app.get_editor();
    editor.get_current_buffer().unwrap().get_cursor_position(&editor.get_mode())
}

#[test]
fn key_moves_cursor() {
    let mut app = app_with("hello\nworld");
    assert_eq!(press(&mut app, Key::Char('l'), 0).unwrap(), false);
    assert_eq!(cursor_of(&app), UVec2::new(1, 0));
    assert_eq!(press(&mut app, Key::Char('j'), 1_000_000_000).unwrap(), false);
    assert_eq!(cursor_of(&app), UVec2::new(1, 1));
    assert_eq!(press(&mut app, Key::Char('$'), 2_000_000_000).unwrap(), false);
    assert_eq!(cursor_of(&app), UVec2::new(4, 1));
}

#[test]
fn insert_typing_and_escape() {
    let mut app = app_with("hello");
    press(&mut app, Key::Char('i'), 0).unwrap();
    assert_eq!(app.get_editor().get_mode(), EditorMode::Insert { append: false });
    press(&mut app, Key::Char('X'), 1_000_000_000).unwrap();
    assert_eq!(text_of(&app), "Xhello");
    press(&mut app, Key::Esc, 3_000_000_000).unwrap();
    assert_eq!(app.get_editor().get_mode(), EditorMode::Normal);
}

#[test]
fn write_command_saves_the_text() {
    let mut app = app_with("hello");
    press(&mut app, Key::Char(':'), 0).unwrap();
    assert_eq!(app.get_editor().get_mode(), EditorMode::Command);
    press(&mut app, Key::Char('w'), 1_000_000_000).unwrap();
    assert_eq!(app.get_editor().get_command_input_buf(), "w");
    let quit = press(&mut app, Key::Char('\n'), 2_000_000_000).unwrap();
    assert!(!quit);
    assert_eq!(app.get_editor().get_mode(), EditorMode::Normal);
    let saves = app.take_saves();
    assert_eq!(saves, vec![(0usize, "hello".to_string())]);
    assert!(app.take_saves().is_empty());
}

#[test]
fn quit_command_quits() {
    let mut app = app_with("hello");
    press(&mut app, Key::Char(':'), 0).unwrap();
    press(&mut app, Key::Char('q'), 1_000_000_000).unwrap();
    let quit = press(&mut app, Key::Char('\n'), 2_000_000_000).unwrap();
    assert!(quit);
}

#[test]
fn unknown_command_does_nothing() {
    let mut app = app_with("hello");
    let quit = app.on_event(Event::Command("nope".to_string()), SIZE).unwrap();
    assert!(!quit);
    assert_eq!(text_of(&app), "hello");
    assert!(app.run_command("nope").unwrap() == false);
}

#[test]
fn quit_event_and_action_quit() {
    let mut app = app_with("x");
    assert!(app.on_event(Event::Quit, SIZE).unwrap());
    assert!(app.on_action(AppAction::Quit).unwrap());
}

#[test]
fn two_key_binding_deletes_line() {
    let mut app = app_with("one\ntwo");
    let first = app.key_input(Key::Char('d'), 0);
    assert!(matches!(first, Event::Input(Key::Char('d'))));
    let second = app.key_input(Key::Char('d'), 100_000_000);
    assert!(matches!(
        second,
        Event::Action(AppAction::EditorAction(EditorAction::Buffer(EditorBufferAction::Edit(EditorEditAction::DeleteLine))))
    ));
    match app.on_event(second, SIZE) {
        Ok(_) => assert_eq!(text_of(&app), "two"),
        Err(AppError::EditorError(_)) => assert_eq!(text_of(&app), "one\ntwo"),
        Err(AppError::Refused) => panic!("refused"),
        Err(AppError::ClockBeforeEpoch) => panic!("clock"),
    }
}

#[test]
fn slow_keys_do_not_combine() {
    let mut app = app_with("one\ntwo");
    let first = app.key_input(Key::Char('d'), 0);
    assert!(matches!(first, Event::Input(Key::Char('d'))));
    let second = app.key_input(Key::Char('d'), 600_000_000);
    assert!(matches!(second, Event::Input(Key::Char('d'))));
    assert_eq!(text_of(&app), "one\ntwo");
}

#[test]
fn scroll_beyond_limits_is_refused() {
    let mut app = app_with("a");
    let r = app.on_event(Event::Scroll(IVec2::new(isize::MIN, 0)), SIZE);
    assert!(matches!(r, Err(AppError::Refused)));
}

#[test]
fn terminal_events_become_editor_events() {
    let mut app = app_with("a");
    let up = app.crossterm_event_to_editor_event(TermEvent::ScrollUp).unwrap();
    assert!(matches!(up, Some(Event::Scroll(IVec2 { x: 0, y: -1 }))));
    let right = app.crossterm_event_to_editor_event(TermEvent::ScrollRight).unwrap();
    assert!(matches!(right, Some(Event::Scroll(IVec2 { x: 1, y: 0 }))));
    let click = app.crossterm_event_to_editor_event(TermEvent::MouseDown { left: true, column: 4, row: 2 }).unwrap();
    assert!(matches!(click, Some(Event::Click(UVec2 { x: 4, y: 2 }))));
    let right_click = app.crossterm_event_to_editor_event(TermEvent::MouseDown { left: false, column: 4, row: 2 }).unwrap();
    assert!(right_click.is_none());
    assert!(app.crossterm_event_to_editor_event(TermEvent::Other).unwrap().is_none());
    let key = app.crossterm_event_to_editor_event(TermEvent::Key(Key::Char('l'))).unwrap();
    assert!(matches!(key, Some(Event::Action(_))));
}

#[test]
fn click_moves_cursor_past_line_numbers() {
    let mut app = app_with("hello\nworld");
    let quit = app.on_event(Event::Click(UVec2::new(4, 1)), SIZE).unwrap();
    assert!(!quit);
    assert_eq!(cursor_of(&app), UVec2::new(2, 1));
}

#[test]
fn visual_delete_selection() {
    let mut app = app_with("hello world");
    press(&mut app, Key::Char('l'), 0).unwrap();
    press(&mut app, Key::Char('v'), 1_000_000_000).unwrap();
    assert!(matches!(app.get_editor().get_mode(), EditorMode::Visual { .. }));
    press(&mut app, Key::Char('l'), 2_000_000_000).unwrap();
    press(&mut app, Key::Char('l'), 3_000_000_000).unwrap();
    let _ = press(&mut app, Key::Char('d'), 4_000_000_000);
    assert_eq!(text_of(&app), "ho world");
}

#[test]
fn undo_restores_text_and_redo_returns_the_recorded_state() {
    let mut app = app_with("abc");
    press(&mut app, Key::Char('i'), 0).unwrap();
    press(&mut app, Key::Char('Z'), 1_000_000_000).unwrap();
    assert_eq!(text_of(&app), "Zabc");
    let undo = AppAction::EditorAction(EditorAction::Buffer(EditorBufferAction::History(
        tui_studio::action::EditorHistoryAction::Undo,
    )));
    app.on_action(undo).unwrap();
    assert_eq!(text_of(&app), "abc");
    let redo = AppAction::EditorAction(EditorAction::Buffer(EditorBufferAction::History(
        tui_studio::action::EditorHistoryAction::Redo,
    )));
    app.on_action(redo).unwrap();
    assert_eq!(text_of(&app), "abc");
}

#[test]
fn key_config_last_binding_wins() {
    let mut config = KeyConfig::new();
    let left = AppAction::EditorAction(EditorAction::Buffer(EditorBufferAction::Cursor(EditorCursorAction::Left)));
    let right = AppAction::EditorAction(EditorAction::Buffer(EditorBufferAction::Cursor(EditorCursorAction::Right)));
    config.register(KeyConfigType::Normal, vec![Key::Char('x')], left);
    config.register(KeyConfigType::Normal, vec![Key::Char('x')], right);
    assert_eq!(config.get_action(&EditorMode::Normal, &vec![Key::Char('x')]), Some(right));
    assert_eq!(config.get_action(&EditorMode::Insert { append: false }, &vec![Key::Char('x')]), None);
    assert_eq!(config.get_action(&EditorMode::Normal, &vec![Key::Char('y')]), None);
}

#[test]
fn command_manager_last_registration_wins() {
    let mut cmds = CommandManager::new();
    cmds.register("w", vec![AppAction::Quit]);
    cmds.register("w", vec![]);
    assert_eq!(cmds.get_action("w").unwrap().len(), 0);
    assert!(cmds.get_action("q").is_none());
}

#[test]
fn keymap_default_bindings() {
    let mut keymap = Keymap::new();
    assert!(keymap.get(EditorMode::Normal, Key::Char('h')).is_none());
    keymap.set_default_keymap();
    assert_eq!(keymap.get(EditorMode::Normal, Key::Char('h')).unwrap(), "cursor.left");
    assert_eq!(keymap.get(EditorMode::Normal, Key::Char('l')).unwrap(), "cursor.right");
    keymap.nmap(Key::Char('h'), "other");
    assert_eq!(keymap.get(EditorMode::Normal, Key::Char('h')).unwrap(), "other");
    assert!(keymap.get(EditorMode::Command, Key::Char('h')).is_none());
}

#[test]
fn manager_opens_and_closes() {
    let mut m = EditorBufferManager::new(vec![None, Some(EditorBuffer::new()), None]);
    assert_eq!(m.get_all().len(), 1);
    assert_eq!(m.get_current_index(), Some(0));
    m.open(EditorBuffer::open("b.md".to_string(), "# t".to_string()).unwrap());
    assert_eq!(m.get_current_index(), Some(1));
    assert_eq!(m.get_current().unwrap().get_code_buf().to_string(), "# t");
    let path = m.on_action(EditorBufferManagerAction::Open("c.txt".to_string()));
    assert_eq!(path, Some("c.txt".to_string()));
    let none = m.on_action(EditorBufferManagerAction::Close(0));
    assert!(none.is_none());
    assert_eq!(m.get_all().len(), 1);
}

#[test]
fn manager_without_buffers_has_no_current() {
    let m = EditorBufferManager::new(vec![None]);
    assert!(m.get_current().is_none());
    assert_eq!(m.get_current_index(), None);
}
