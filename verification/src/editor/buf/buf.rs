use vstd::prelude::*;

use crate::clipboard::EditorClipboard;

use crate::action::{
    AppAction, EditorBufferAction, EditorCursorAction, EditorEditAction, EditorHistoryAction, EditorScrollAction,
};
use crate::editor::buf::code_buf::{
    code_from_text, code_text, cursor_pos_spec, edit_action_effect, edit_clipboard_effect, edit_action_ok, EditorCodeBuffer,
    EditorCodeBufferError,
};
use crate::editor::buf::cursor::{
    clamp_x_spec, clamp_y_spec, cursor_action_effect, cursor_action_ok, draw_width, min_spec, move_by_x_spec,
    move_by_y_spec, scroll_follow_spec, EditorCursor, EditorCursorError,
};
use crate::editor::buf::limits::{cursor_action_fits, edit_action_fits, scroll_action_fits};
use crate::editor::buf::history::{redo_spec, undo_spec, EditorHistory, EditorState, HistoryStacks};
use crate::editor::buf::scroll::{scroll_action_ok, scroll_action_spec, EditorScroll};
use crate::event::{count_digits, decimal_digits, Event};
use crate::file_type::{file_type_of, FileType};
use crate::key::Key;
use crate::language_support::highlight::{tokens_view, HighlightToken};
use crate::language_support::language_support::{from_file_type, has_language_support, LanguageSupport};
use crate::mode::EditorMode;
use crate::text::lines_of;
use crate::vec2::{IVec2, UVec2};

verus! {

/// The failure of an action on a buffer.
#[derive(Debug)]
pub enum EditorBufferError {
    /// The path names no file.
    FileNameRetrievalFailed,
    EditorCursorError(EditorCursorError),
    EditorCodeBufferError(EditorCodeBufferError),
}

/// Whether path `p` names no file on any platform: the root `/`, or a path that ends in
/// `..`.
pub open spec fn names_no_file(p: Seq<char>) -> bool {
    ||| p == seq!['/']
    ||| p == seq!['.', '.']
    ||| p.len() >= 3 && p.subrange(p.len() - 3, p.len() as int) == seq!['/', '.', '.']
}

/// Whether path `p` is a bare file name on every platform: not empty, no separator (`/` or
/// `\\`), no drive prefix (`:`), and neither `.` nor `..`.
pub open spec fn plain_file_name(p: Seq<char>) -> bool {
    &&& p.len() > 0
    &&& !p.contains('/')
    &&& !p.contains('\\')
    &&& !p.contains(':')
    &&& p != seq!['.']
    &&& p != seq!['.', '.']
}

/// The file name of `path`, its final component.
/// Trusted: calls `std::path::Path::file_name` and reads the name as text, which cannot fail
/// for a name taken from a `&str`. Its documentation says it returns `None` for a path that
/// ends in `..` and for the root `/`, and that a path of one normal component is its own
/// file name. Beyond that the final component depends on the platform's separators and
/// prefixes, which is left unsaid.
#[verifier::external_body]
fn path_file_name(path: &str) -> (r: Option<String>)
    ensures
        names_no_file(path@) ==> r is None,
        plain_file_name(path@) ==> r is Some && r->Some_0@ == path@,
{
    std::path::Path::new(path).file_name().and_then(|n| n.to_str()).map(|n| n.to_string())
}

/// The file name of `path`, or `FileNameRetrievalFailed` where the path names no file, such
/// as `/` or one that ends in `..`. A bare file name is its own.
pub fn file_name_of_path(path: &str) -> (r: Result<String, EditorBufferError>)
    ensures
        r matches Err(e) ==> e is FileNameRetrievalFailed,
        names_no_file(path@) ==> r is Err,
        plain_file_name(path@) ==> (r matches Ok(n) && n@ == path@),
{
    match path_file_name(path) {
        Some(name) => Ok(name),
        None => Err(EditorBufferError::FileNameRetrievalFailed),
    }
}

/// What a buffer holds: its lines, cursor, view and edit history.
pub struct BufferView {
    pub code: Seq<Seq<char>>,
    pub cursor: UVec2,
    pub scroll: UVec2,
    pub history: HistoryStacks,
}

/// The result of an edit as the code buffer gave it, read back from the buffer's result.
pub open spec fn edit_result(r: Result<Option<String>, EditorBufferError>) -> Result<(), EditorCodeBufferError> {
    match r {
        Ok(_) => Ok(()),
        Err(EditorBufferError::EditorCodeBufferError(e)) => Err(e),
        Err(_) => Err(EditorCodeBufferError::NoSelection),
    }
}

/// Whether a buffer action can be carried out on `b` without leaving the text or the
/// range of `usize`.
pub open spec fn buffer_action_ok(action: EditorBufferAction, b: BufferView, mode: EditorMode, window_size: UVec2) -> bool {
    match action {
        EditorBufferAction::Save => true,
        EditorBufferAction::Cursor(a) => cursor_action_ok(a, b.cursor, b.code, mode, window_size, b.scroll),
        EditorBufferAction::Scroll(a) => scroll_action_ok(a, b.scroll),
        EditorBufferAction::Edit(a) => b.cursor.y < b.code.len()
            && edit_action_ok(a, b.code, b.cursor, mode, window_size, b.scroll),
        EditorBufferAction::History(_) => b.code.len() > 0,
    }
}

/// What a buffer action does, from buffer `b` to buffer `a`, with result `r`.
pub open spec fn buffer_action_effect(
    action: EditorBufferAction,
    b: BufferView,
    mode: EditorMode,
    window_size: UVec2,
    a: BufferView,
    r: Result<Option<String>, EditorBufferError>,
) -> bool {
    match action {
        EditorBufferAction::Save => {
            &&& r matches Ok(Some(text)) && text@ == code_text(b.code)
            &&& a == b
        },
        EditorBufferAction::Cursor(c) => {
            &&& r matches Ok(None)
            &&& cursor_action_effect(c, b.cursor, b.code, mode, window_size, b.scroll, a.cursor, a.scroll)
            &&& a.code == b.code
            &&& a.history == b.history
        },
        EditorBufferAction::Scroll(s) => {
            &&& r matches Ok(None)
            &&& a.scroll == scroll_action_spec(s, b.scroll)
            &&& a.code == b.code
            &&& a.cursor == b.cursor
            &&& a.history == b.history
        },
        EditorBufferAction::Edit(e) => {
            &&& r matches Ok(v) ==> v is None
            &&& r matches Err(err) ==> err is EditorCodeBufferError
            &&& edit_action_effect(e, b.code, b.cursor, mode, window_size, b.scroll, a.code, a.cursor, a.scroll, edit_result(r))
            &&& a.history.redo.len() == 0
            &&& a.history.undo.len() == b.history.undo.len() + 1
            &&& a.history.undo.drop_last() == b.history.undo
            &&& a.history.undo.last().code@ == code_text(b.code)
            &&& a.history.undo.last().cursor == cursor_pos_spec(b.code, b.cursor, mode)
        },
        EditorBufferAction::History(h) => {
            let step = match h {
                EditorHistoryAction::Undo => undo_spec(b.history),
                EditorHistoryAction::Redo => redo_spec(b.history),
            };
            &&& r matches Ok(None)
            &&& a.history == step.1
            &&& a.scroll == b.scroll
            &&& match step.0 {
                None => a.code == b.code && a.cursor == b.cursor,
                Some(state) => {
                    &&& a.code == lines_of(state.code@)
                    &&& a.cursor.y == clamp_y_spec(state.cursor.y as int, b.code.len() as int)
                    &&& a.cursor.x == clamp_x_spec(state.cursor.x as int, b.code[a.cursor.y as int].len() as int, mode)
                },
            }
        },
    }
}

/// A buffer being edited: the code, the cursor, the view, the language support for
/// highlighting, and the history of edits.
pub struct EditorBuffer {
    code: EditorCodeBuffer,
    cursor: EditorCursor,
    scroll: EditorScroll,
    language_support: Option<Box<dyn LanguageSupport>>,
    history: EditorHistory,
}

impl View for EditorBuffer {
    type V = BufferView;

    closed spec fn view(&self) -> BufferView {
        BufferView { code: self.code@, cursor: self.cursor@, scroll: self.scroll@, history: self.history@ }
    }
}

impl EditorBuffer {
    /// Whether the buffer has a language support.
    pub closed spec fn has_language(&self) -> bool {
        self.language_support is Some
    }

    /// An empty buffer of one empty line.
    pub fn new() -> (r: Self)
        ensures
            r@.code == seq![Seq::<char>::empty()],
            r@.cursor == (UVec2 { x: 0, y: 0 }),
            r@.scroll == (UVec2 { x: 0, y: 0 }),
            r@.history.undo.len() == 0,
            r@.history.redo.len() == 0,
            !r.has_language(),
    {
        EditorBuffer {
            code: EditorCodeBuffer::new(),
            cursor: EditorCursor::new(),
            scroll: EditorScroll::new(),
            language_support: None,
            history: EditorHistory::new(),
        }
    }

    /// A buffer for the file at `path` holding `content`, as `from_file_name` makes it for
    /// the path's file name; `FileNameRetrievalFailed` where the path names no file.
    pub fn open(path: String, content: String) -> (r: Result<Self, EditorBufferError>)
        ensures
            r matches Err(e) ==> e is FileNameRetrievalFailed,
            names_no_file(path@) ==> r is Err,
            plain_file_name(path@) ==> (r matches Ok(b) && (b.has_language() <==> has_language_support(
                file_type_of(path@),
            ))),
            r matches Ok(b) ==> {
                &&& b@.code == code_from_text(content@)
                &&& b@.cursor == (UVec2 { x: 0, y: 0 })
                &&& b@.scroll == (UVec2 { x: 0, y: 0 })
                &&& b@.history.undo.len() == 0
                &&& b@.history.redo.len() == 0
            },
    {
        let name = match file_name_of_path(path.as_str()) {
            Ok(name) => name,
            Err(e) => return Err(e),
        };
        Ok(Self::from_file_name(name, content))
    }

    /// A buffer for the file `file_name` holding `content`: the lines of the content, the
    /// cursor and view at the start, and the language support of the file's type.
    pub fn from_file_name(file_name: String, content: String) -> (r: Self)
        ensures
            r@.code == code_from_text(content@),
            r@.cursor == (UVec2 { x: 0, y: 0 }),
            r@.scroll == (UVec2 { x: 0, y: 0 }),
            r@.history.undo.len() == 0,
            r@.history.redo.len() == 0,
            r.has_language() <==> has_language_support(file_type_of(file_name@)),
    {
        let file_type = FileType::file_name_to_type(file_name);
        EditorBuffer {
            code: EditorCodeBuffer::from_string(content),
            cursor: EditorCursor::new(),
            scroll: EditorScroll::new(),
            language_support: from_file_type(file_type),
            history: EditorHistory::new(),
        }
    }

    /// The cursor position, its column clamped to its line.
    pub fn get_cursor_position(&self, mode: &EditorMode) -> (r: UVec2)
        requires
            self@.cursor.y < self@.code.len(),
        ensures
            r == cursor_pos_spec(self@.code, self@.cursor, *mode),
    {
        self.cursor.get(&self.code, mode)
    }

    /// The cursor as it is kept, its column not clamped to its line.
    pub fn get_raw_cursor(&self) -> (r: UVec2)
        ensures
            r == self@.cursor,
    {
        self.cursor.get_raw()
    }

    /// Whether `action` can be carried out within the text and the range of `usize`, as
    /// `buffer_action_ok` says.
    pub fn action_ok(&self, action: &EditorBufferAction, mode: &EditorMode, window_size: UVec2) -> (r: bool)
        ensures
            r == buffer_action_ok(*action, self@, *mode, window_size),
    {
        let c = self.cursor.get_raw();
        let sc = self.scroll.get();
        match action {
            EditorBufferAction::Save => true,
            EditorBufferAction::Cursor(a) => cursor_action_fits(&self.code, a, c, mode, window_size, sc),
            EditorBufferAction::Scroll(a) => scroll_action_fits(a, sc),
            EditorBufferAction::Edit(a) => c.y < self.code.get_line_count()
                && edit_action_fits(&self.code, a, c, mode, window_size, sc),
            EditorBufferAction::History(_) => self.code.get_line_count() > 0,
        }
    }

    /// The top-left position of the view.
    pub fn get_scroll_position(&self) -> (r: UVec2)
        ensures
            r == self@.scroll,
    {
        self.scroll.get()
    }

    /// Where the cursor stands on screen, as `EditorCursor::get_draw_position` gives it.
    pub fn get_draw_cursor_position(&self, mode: &EditorMode) -> (r: UVec2)
        requires
            self@.cursor.y < self@.code.len(),
            self@.code[self@.cursor.y as int].len() * 255 <= usize::MAX,
        ensures
            r.y == self@.cursor.y,
            r.x == draw_width(self@.code[self@.cursor.y as int].take(
                min_spec(
                    clamp_x_spec(self@.cursor.x as int, self@.code[self@.cursor.y as int].len() as int, *mode),
                    self@.code[self@.cursor.y as int].len() as int,
                ),
            )),
    {
        self.cursor.get_draw_position(&self.code, mode)
    }

    /// What the buffer's language support gives for the text of the code; none without one.
    pub closed spec fn highlight_of(&self) -> Option<Seq<HighlightToken>> {
        match self.language_support {
            Some(l) => l.highlight_result(code_text(self.code@)),
            None => None,
        }
    }

    /// The highlighting of the code by the buffer's language support; none without one.
    pub fn highlight(&self) -> (r: Option<Vec<HighlightToken>>)
        ensures
            tokens_view(r) == self.highlight_of(),
            !self.has_language() ==> r is None,
    {
        match &self.language_support {
            Some(language_support) => language_support.highlight(self.code.to_string().as_str()),
            None => None,
        }
    }

    /// Moves the cursor by `offset`, as `EditorCursor::move_by` does.
    pub fn cursor_move_by(&mut self, offset: IVec2, window_size: UVec2, mode: &EditorMode) -> (r: Result<(), EditorBufferError>)
        requires
            old(self)@.cursor.y < old(self)@.code.len(),
            offset.x > isize::MIN,
            offset.y > isize::MIN,
            offset.x > 0 ==> clamp_x_spec(old(self)@.cursor.x as int, old(self)@.code[old(self)@.cursor.y as int].len() as int, *mode) + offset.x <= usize::MAX,
            offset.y > 0 ==> old(self)@.cursor.y + offset.y <= usize::MAX,
            offset.y > 0 ==> window_size.y >= 1,
            offset.y > 0 ==> old(self)@.scroll.y + window_size.y <= usize::MAX,
        ensures
            r is Ok,
            final(self)@.code == old(self)@.code,
            final(self)@.history == old(self)@.history,
            final(self)@.cursor.x == move_by_x_spec(
                old(self)@.cursor.x as int,
                old(self)@.code[old(self)@.cursor.y as int].len() as int,
                *mode,
                offset.x as int,
            ),
            final(self)@.cursor.y == move_by_y_spec(old(self)@.cursor.y as int, old(self)@.code.len() as int, offset.y as int),
            final(self)@.scroll.x == old(self)@.scroll.x,
            final(self)@.scroll.y == scroll_follow_spec(
                old(self)@.scroll.y as int,
                final(self)@.cursor.y as int,
                window_size.y as int,
                offset.y as int,
            ),
    {
        self.cursor.move_by(offset, &self.code, mode, window_size, &mut self.scroll);
        Ok(())
    }

    /// Clamps the cursor to its line.
    pub fn cursor_sync(&mut self, mode: &EditorMode)
        requires
            old(self)@.cursor.y < old(self)@.code.len(),
        ensures
            final(self)@.code == old(self)@.code,
            final(self)@.scroll == old(self)@.scroll,
            final(self)@.history == old(self)@.history,
            final(self)@.cursor == cursor_pos_spec(old(self)@.code, old(self)@.cursor, *mode),
    {
        self.cursor.sync(&self.code, mode);
    }

    /// The code of the buffer.
    pub fn get_code_buf(&self) -> (r: &EditorCodeBuffer)
        ensures
            r@ == self@.code,
    {
        &self.code
    }

    /// Carries out an action on the buffer. Saving changes nothing here and returns the
    /// text to write, the lines joined with `'\n'`. An edit first records the text and
    /// cursor position in the history.
    pub fn on_action(
        &mut self,
        action: EditorBufferAction,
        mode: &EditorMode,
        clipboard: &mut EditorClipboard,
        window_size: UVec2,
    ) -> (r: Result<Option<String>, EditorBufferError>)
        requires
            buffer_action_ok(action, old(self)@, *mode, window_size),
        ensures
            buffer_action_effect(action, old(self)@, *mode, window_size, final(self)@, r),
            (action matches EditorBufferAction::Edit(e) ==> edit_clipboard_effect(
                e,
                old(self)@.code,
                old(self)@.cursor,
                *mode,
                old(clipboard)@,
                final(clipboard)@,
                edit_result(r),
            )),
            !(action is Edit) ==> final(clipboard)@ == old(clipboard)@,
    {
        match action {
            EditorBufferAction::Save => Ok(Some(self.code.to_string())),
            EditorBufferAction::Cursor(action) => {
                match self.cursor.on_action(action, &self.code, mode, window_size, &mut self.scroll) {
                    Ok(()) => Ok(None),
                    Err(e) => Err(EditorBufferError::EditorCursorError(e)),
                }
            },
            EditorBufferAction::Scroll(action) => {
                self.scroll.on_action(action);
                Ok(None)
            },
            EditorBufferAction::Edit(action) => {
                let state = EditorState { code: self.code.to_string(), cursor: self.cursor.get(&self.code, mode) };
                self.history.action(state);
                assert(self@.history.undo.drop_last() =~= old(self)@.history.undo);
                match self.code.on_action(action, &mut self.cursor, mode, clipboard, window_size, &mut self.scroll) {
                    Ok(()) => Ok(None),
                    Err(e) => Err(EditorBufferError::EditorCodeBufferError(e)),
                }
            },
            EditorBufferAction::History(action) => {
                self.history.on_action(action, &mut self.cursor, &mut self.code, mode);
                Ok(None)
            },
        }
    }

    /// The events that an input event gives rise to. In normal mode a click asks to move
    /// the cursor to the clicked place, past the line numbers and down by the view, and a
    /// scroll asks to move the view. In insert mode the delete and backspace keys and
    /// characters become edits. Nothing else gives rise to an event.
    pub fn on_event(&self, evt: Event, mode: &EditorMode) -> (r: Result<Vec<Event>, EditorBufferError>)
        requires
            (*mode == EditorMode::Normal && evt is Click) ==> self@.code.len() > 0,
            (*mode == EditorMode::Normal && evt is Click) ==> evt->Click_0.y + self@.scroll.y <= usize::MAX,
        ensures
            r matches Ok(events) && events@ == buffer_events(evt, *mode, self@),
    {
        match mode {
            EditorMode::Normal => match evt {
                Event::Click(pos) => {
                    let num_len = count_digits(self.code.get_line_count() - 1);
                    let offset_x = num_len + 1;
                    let scroll_y = self.scroll.get().y;
                    let x = if pos.x >= offset_x { pos.x - offset_x } else { 0 };
                    let mut v = Vec::new();
                    v.push(Event::Action(EditorCursorAction::To(UVec2::new(x, pos.y + scroll_y)).into_app()));
                    return Ok(v);
                },
                Event::Scroll(scroll) => {
                    let mut v = Vec::new();
                    v.push(Event::Action(EditorScrollAction::By(IVec2::new(scroll.x, scroll.y)).into_app()));
                    return Ok(v);
                },
                _ => {},
            },
            EditorMode::Insert { .. } => match evt {
                Event::Input(key) => match key {
                    Key::Delete => {
                        let mut v = Vec::new();
                        v.push(Event::Action(EditorEditAction::Delete.into_app()));
                        return Ok(v);
                    },
                    Key::Backspace => {
                        let mut v = Vec::new();
                        v.push(Event::Action(EditorEditAction::Backspace.into_app()));
                        return Ok(v);
                    },
                    Key::Char(c) => {
                        let mut v = Vec::new();
                        v.push(Event::Action(EditorEditAction::Append(c).into_app()));
                        return Ok(v);
                    },
                    _ => {},
                },
                _ => {},
            },
            _ => {},
        }
        Ok(Vec::new())
    }
}

/// The events an input event gives rise to in a buffer, as `EditorBuffer::on_event` says.
pub open spec fn buffer_events(evt: Event, mode: EditorMode, b: BufferView) -> Seq<Event> {
    match mode {
        EditorMode::Normal => match evt {
            Event::Click(pos) => {
                let offset_x = decimal_digits((b.code.len() - 1) as nat) + 1;
                let x = if pos.x >= offset_x { pos.x - offset_x } else { 0 };
                seq![Event::Action(AppAction::EditorAction(crate::action::EditorAction::Buffer(
                    EditorBufferAction::Cursor(EditorCursorAction::To(UVec2 { x: x as usize, y: (pos.y + b.scroll.y) as usize })),
                )))]
            },
            Event::Scroll(s) => seq![Event::Action(AppAction::EditorAction(crate::action::EditorAction::Buffer(
                EditorBufferAction::Scroll(EditorScrollAction::By(s)),
            )))],
            _ => seq![],
        },
        EditorMode::Insert { .. } => match evt {
            Event::Input(Key::Delete) => seq![Event::Action(EditorEditAction::Delete.into_app_spec())],
            Event::Input(Key::Backspace) => seq![Event::Action(EditorEditAction::Backspace.into_app_spec())],
            Event::Input(Key::Char(c)) => seq![Event::Action(EditorEditAction::Append(c).into_app_spec())],
            _ => seq![],
        },
        _ => seq![],
    }
}

} // verus!
