use vstd::prelude::*;

use crate::action::{EditorAction, EditorBufferAction};
use crate::clipboard::{ClipboardView, EditorClipboard};
use crate::editor::buf::buf::{buffer_action_effect, buffer_action_ok, buffer_events, edit_result, BufferView, EditorBuffer, EditorBufferError};
use crate::editor::buf::code_buf::edit_clipboard_effect;
use crate::editor::buf::code_buf::cursor_pos_spec;
use crate::editor::buf::cursor::{clamp_x_spec, move_by_x_spec, scroll_follow_spec};
use crate::editor::buf::manager::{current_ok, EditorBufferManager, ManagerView};
use crate::event::Event;
use crate::key::Key;
use crate::mode::EditorMode;
use crate::text::string_push;
use crate::vec2::{IVec2, Rect, UVec2};

verus! {

/// The failure of an editor action.
#[derive(Debug)]
pub enum EditorError {
    /// The action needs a buffer and none is open.
    NoBufferOpen,
    EditorBufferError(EditorBufferError),
}

/// Removes the last character of a `String`.
/// Trusted: `String::pop` removes and returns the last character, `None` on an empty
/// string, as its documentation states.
#[verifier::external_body]
pub(crate) fn string_pop(s: &mut String) -> (r: Option<char>)
    ensures
        old(s)@.len() == 0 ==> r is None && final(s)@ == old(s)@,
        old(s)@.len() > 0 ==> r == Some(old(s)@.last()) && final(s)@ == old(s)@.drop_last(),
{
    s.pop()
}

/// What the editor holds.
pub struct EditorView {
    pub rect: Rect,
    pub manager: ManagerView,
    pub mode: EditorMode,
    pub command_input: Seq<char>,
    pub clipboard: ClipboardView,
}

/// The current buffer of an editor, where its index names one.
pub open spec fn current_buffer(e: EditorView) -> Option<BufferView> {
    match e.manager.current {
        Some(i) => if i < e.manager.buffers.len() { Some(e.manager.buffers[i as int]@) } else { None },
        None => None,
    }
}

/// The events the editor gives back are actions and commands.
pub proof fn lemma_editor_events_kinds(o: EditorView, evt: Event, term_size: UVec2, n: EditorView, events: Seq<Event>)
    requires
        editor_event_effect(o, evt, term_size, n, events),
    ensures
        forall|k: int| 0 <= k < events.len() ==> (#[trigger] events[k] is Action || events[k] is Command),
{
    let cmd_step = match evt {
        Event::Input(key) => command_key_spec(o.command_input, key),
        _ => (false, o.command_input, None),
    };
    let in_command = o.mode == EditorMode::Command;
    let mode = if in_command && cmd_step.0 { EditorMode::Normal } else { o.mode };
    let cmd_events = if in_command && cmd_step.2 is Some { 1int } else { 0int };
    assert forall|k: int| 0 <= k < events.len() implies (#[trigger] events[k] is Action || events[k] is Command) by {
        if k >= cmd_events {
            match current_buffer(o) {
                Some(b) => {
                    let be = buffer_events(evt, mode, b);
                    assert(events.skip(cmd_events)[k - cmd_events] == events[k]);
                    assert(be[k - cmd_events] is Action);
                },
                None => {},
            }
        }
    }
}

/// Whether the editor can handle `evt`: its state is sound and a click in normal mode lands
/// on a line within the range of `usize`.
pub open spec fn editor_event_ok(e: EditorView, evt: Event) -> bool {
    &&& current_ok(e.manager)
    &&& (e.mode == EditorMode::Normal && evt is Click && current_buffer(e) is Some) ==> {
        &&& current_buffer(e)->Some_0.code.len() > 0
        &&& evt->Click_0.y + current_buffer(e)->Some_0.scroll.y <= usize::MAX
    }
}

/// What handling `evt` in a window of `term_size` does, from editor `o` to editor `n`, giving
/// `events`. In command mode keys edit the command, Enter runs it as a `Command` event and
/// leaves command mode, as does backspace on an empty command. Then the current buffer turns
/// the event into the events it gives rise to.
pub open spec fn editor_event_effect(o: EditorView, evt: Event, term_size: UVec2, n: EditorView, events: Seq<Event>) -> bool {
    let cmd_step = match evt {
        Event::Input(key) => command_key_spec(o.command_input, key),
        _ => (false, o.command_input, None),
    };
    let in_command = o.mode == EditorMode::Command;
    let mode = if in_command && cmd_step.0 { EditorMode::Normal } else { o.mode };
    let cmd_events = if in_command && cmd_step.2 is Some { 1int } else { 0int };
    &&& n.rect.size == term_size
    &&& n.rect.pos == o.rect.pos
    &&& n.manager == o.manager
    &&& n.clipboard == o.clipboard
    &&& n.mode == mode
    &&& n.command_input == (if in_command { cmd_step.1 } else { o.command_input })
    &&& events.len() == cmd_events + (match current_buffer(o) {
        Some(b) => buffer_events(evt, mode, b).len() as int,
        None => 0int,
    })
    &&& cmd_events == 1 ==> (events[0] matches Event::Command(c) && c@ == cmd_step.2->Some_0)
    &&& current_buffer(o) matches Some(b) ==> events.skip(cmd_events) == buffer_events(evt, mode, b)
}

/// Whether `evt` would leave command mode in editor `e` while no buffer is open: entering
/// normal mode needs a buffer, so the event fails.
pub open spec fn leaves_command_without_buffer(e: EditorView, evt: Event) -> bool {
    &&& e.mode == EditorMode::Command
    &&& (evt matches Event::Input(key) && command_key_spec(e.command_input, key).0)
    &&& e.manager.current is None
}

/// Editor `e` in a window of `size`.
pub open spec fn with_size(e: EditorView, size: UVec2) -> EditorView {
    EditorView { rect: Rect { pos: e.rect.pos, size }, ..e }
}

/// Whether the current buffer, if any, is there and has its cursor on a line.
pub open spec fn editor_ok(e: EditorView) -> bool {
    &&& current_ok(e.manager)
    &&& current_buffer(e) matches Some(b) ==> b.cursor.y < b.code.len()
}

/// What entering the mode does, from editor `o` to editor `n` with result `r`.
pub open spec fn normal_mode_effect(o: EditorView, n: EditorView, r: Result<(), EditorError>) -> bool {
    &&& o.manager.current is None <==> r is Err
    &&& r is Err ==> n == o
    &&& r is Ok ==> ({
            let i = o.manager.current->Some_0 as int;
            let b = o.manager.buffers[i]@;
            let a = n.manager.buffers[i]@;
            &&& n.mode == EditorMode::Normal
            &&& n.rect == o.rect
            &&& n.command_input == o.command_input
            &&& n.clipboard == o.clipboard
            &&& n.manager.current == o.manager.current
            &&& n.manager.buffers.len() == o.manager.buffers.len()
            &&& forall|k: int| 0 <= k < o.manager.buffers.len() && k != i
                ==> n.manager.buffers[k] == o.manager.buffers[k]
            &&& a.code == b.code
            &&& a.history == b.history
            &&& a.scroll.x == b.scroll.x
            &&& a.scroll.y == (if o.mode == (EditorMode::Insert { append: true }) {
                scroll_follow_spec(b.scroll.y as int, b.cursor.y as int, o.rect.size.y as int, 0)
            } else {
                b.scroll.y as int
            })
            &&& a.cursor.y == b.cursor.y
            &&& a.cursor.x == (if o.mode == (EditorMode::Insert { append: true }) {
                move_by_x_spec(b.cursor.x as int, b.code[b.cursor.y as int].len() as int, o.mode, -1)
            } else {
                b.cursor.x as int
            })
    })
}

/// What entering the mode does, from editor `o` to editor `n` with result `r`.
pub open spec fn visual_mode_effect(o: EditorView, n: EditorView, r: Result<(), EditorError>) -> bool {
    &&& o.manager.current is None <==> r is Err
    &&& r is Err ==> n == o
    &&& r is Ok ==> ({
            let b = current_buffer(o)->Some_0;
            &&& n.mode == (EditorMode::Visual { start: cursor_pos_spec(b.code, b.cursor, o.mode) })
            &&& n.manager == o.manager
            &&& n.rect == o.rect
            &&& n.command_input == o.command_input
            &&& n.clipboard == o.clipboard
    })
}

/// What entering the mode does, from editor `o` to editor `n` with result `r`.
pub open spec fn insert_mode_effect(o: EditorView, n: EditorView, append: bool, r: Result<(), EditorError>) -> bool {
    &&& o.manager.current is None <==> r is Err
    &&& r is Err ==> n == o
    &&& r is Ok ==> ({
            let i = o.manager.current->Some_0 as int;
            let b = o.manager.buffers[i]@;
            let a = n.manager.buffers[i]@;
            let m = o.mode;
            let len = b.code[b.cursor.y as int].len() as int;
            let x = clamp_x_spec(b.cursor.x as int, len, m);
            &&& n.mode == (EditorMode::Insert { append })
            &&& n.rect == o.rect
            &&& n.command_input == o.command_input
            &&& n.clipboard == o.clipboard
            &&& n.manager.current == o.manager.current
            &&& n.manager.buffers.len() == o.manager.buffers.len()
            &&& forall|k: int| 0 <= k < o.manager.buffers.len() && k != i
                ==> n.manager.buffers[k] == o.manager.buffers[k]
            &&& a.code == b.code
            &&& a.history == b.history
            &&& a.scroll.x == b.scroll.x
            &&& a.scroll.y == (if append {
                scroll_follow_spec(b.scroll.y as int, b.cursor.y as int, o.rect.size.y as int, 0)
            } else {
                b.scroll.y as int
            })
            &&& a.cursor.y == b.cursor.y
            &&& a.cursor.x == (if append { clamp_x_spec(move_by_x_spec(x, len, m, 1), len, m) } else { x })
    })
}

/// The editor's result read back as the buffer's.
pub open spec fn buffer_result(r: Result<Option<String>, EditorError>) -> Result<Option<String>, EditorBufferError> {
    match r {
        Ok(v) => Ok(v),
        Err(EditorError::EditorBufferError(e)) => Err(e),
        Err(EditorError::NoBufferOpen) => Ok(None),
    }
}

/// Whether entering `mode` can be carried out on editor `e`.
pub open spec fn set_mode_ok(e: EditorView, mode: EditorMode) -> bool {
    &&& editor_ok(e)
    &&& mode == (EditorMode::Insert { append: true }) && current_buffer(e) is Some ==> ({
        let b = current_buffer(e)->Some_0;
        clamp_x_spec(b.cursor.x as int, b.code[b.cursor.y as int].len() as int, e.mode) + 1 <= usize::MAX
    })
}

/// What entering `mode` does, from editor `o` to editor `n` with result `r`.
pub open spec fn set_mode_effect(o: EditorView, n: EditorView, mode: EditorMode, r: Result<(), EditorError>) -> bool {
    match mode {
        EditorMode::Normal => normal_mode_effect(o, n, r),
        EditorMode::Command => {
            &&& r is Ok
            &&& n.mode == EditorMode::Command
            &&& n.command_input == Seq::<char>::empty()
            &&& n.manager == o.manager
            &&& n.rect == o.rect
            &&& n.clipboard == o.clipboard
        },
        EditorMode::Insert { append } => insert_mode_effect(o, n, append, r),
        EditorMode::Visual { .. } => visual_mode_effect(o, n, r),
    }
}

/// Whether an editor action can be carried out on editor `e`.
pub open spec fn editor_action_ok(e: EditorView, action: EditorAction) -> bool {
    &&& editor_ok(e)
    &&& match action {
        EditorAction::SetMode(mode) => set_mode_ok(e, mode),
        EditorAction::Buffer(a) => current_buffer(e) matches Some(b) ==> buffer_action_ok(a, b, e.mode, e.rect.size),
    }
}

/// What an editor action does, from editor `o` to editor `n` with result `r`: a mode is
/// entered, or the current buffer carries out the action; without a buffer nothing happens.
pub open spec fn editor_action_effect(o: EditorView, n: EditorView, action: EditorAction, r: Result<Option<String>, EditorError>) -> bool {
    match action {
        EditorAction::SetMode(mode) => {
            &&& r matches Ok(v) ==> v is None
            &&& set_mode_effect(o, n, mode, match r { Ok(_) => Ok(()), Err(e) => Err(e) })
        },
        EditorAction::Buffer(a) => match o.manager.current {
            None => r matches Ok(None) && n == o,
            Some(i) => {
                &&& r matches Err(e) ==> e is EditorBufferError
                &&& buffer_action_effect(a, o.manager.buffers[i as int]@, o.mode, o.rect.size, n.manager.buffers[i as int]@, buffer_result(r))
                &&& (a matches EditorBufferAction::Edit(ea) ==> edit_clipboard_effect(
                    ea,
                    o.manager.buffers[i as int]@.code,
                    o.manager.buffers[i as int]@.cursor,
                    o.mode,
                    o.clipboard,
                    n.clipboard,
                    edit_result(buffer_result(r)),
                ))
                &&& !(a is Edit) ==> n.clipboard == o.clipboard
                &&& n.manager.buffers.len() == o.manager.buffers.len()
                &&& forall|k: int| 0 <= k < o.manager.buffers.len() && k != i ==> n.manager.buffers[k] == o.manager.buffers[k]
                &&& n.manager.current == o.manager.current
                &&& n.mode == o.mode
                &&& n.rect == o.rect
                &&& n.command_input == o.command_input
            },
        },
    }
}

/// How a key typed in command mode changes the command: backspace removes the last
/// character, or leaves command mode when there is none; Enter leaves command mode and runs
/// the command; a character is added. It returns whether command mode is left, the new
/// command, and the command to run, if any.
pub open spec fn command_key_spec(cmd: Seq<char>, key: Key) -> (bool, Seq<char>, Option<Seq<char>>) {
    match key {
        Key::Backspace => if cmd.len() == 0 { (true, cmd, None) } else { (false, cmd.drop_last(), None) },
        Key::Char(c) => if c == '\n' { (true, cmd, Some(cmd)) } else { (false, cmd.push(c), None) },
        _ => (false, cmd, None),
    }
}

/// The editor: its place on screen, its buffers, its mode, the clipboard and the command
/// being typed.
pub struct Editor {
    rect: Rect,
    buffer_manager: EditorBufferManager,
    mode: EditorMode,
    clipboard: EditorClipboard,
    command_input_buf: String,
}

impl View for Editor {
    type V = EditorView;

    closed spec fn view(&self) -> EditorView {
        EditorView {
            rect: self.rect,
            manager: self.buffer_manager@,
            mode: self.mode,
            command_input: self.command_input_buf@,
            clipboard: self.clipboard@,
        }
    }
}

impl Editor {
    /// An editor in normal mode on `rect`, with `buffer` as its one and current buffer.
    pub fn new(buffer: EditorBuffer, rect: Rect) -> (r: Self)
        ensures
            r@.rect == rect,
            r@.manager.buffers == seq![buffer],
            r@.manager.current == Some(0usize),
            r@.mode == EditorMode::Normal,
            r@.command_input == Seq::<char>::empty(),
    {
        let mut buffer_manager = EditorBufferManager::new(Vec::new());
        proof {
            assert(crate::editor::buf::manager::opened_buffers(Seq::<Option<EditorBuffer>>::empty()) == Seq::<EditorBuffer>::empty());
        }
        buffer_manager.open(buffer);
        assert(buffer_manager@.buffers =~= seq![buffer]);
        let clipboard = EditorClipboard::open();
        Editor { rect, buffer_manager, mode: EditorMode::Normal, clipboard, command_input_buf: String::new() }
    }

    /// The mode.
    pub fn get_mode(&self) -> (r: EditorMode)
        ensures
            r == self@.mode,
    {
        self.mode
    }

    /// The buffers.
    pub fn get_buffer_manager(&self) -> (r: &EditorBufferManager)
        ensures
            r@ == self@.manager,
    {
        &self.buffer_manager
    }

    /// The command typed so far.
    pub fn get_command_input_buf(&self) -> (r: &String)
        ensures
            r@ == self@.command_input,
    {
        &self.command_input_buf
    }

    /// The current buffer, if any.
    pub fn get_current_buffer(&self) -> (r: Option<&EditorBuffer>)
        requires
            current_ok(self@.manager),
        ensures
            match self@.manager.current {
                Some(i) => r == Some(&self@.manager.buffers[i as int]),
                None => r is None,
            },
    {
        self.buffer_manager.get_current()
    }

    /// Enters normal mode. Leaving insert mode that appended moves the cursor back one column.
    pub fn set_normal_mode(&mut self) -> (r: Result<(), EditorError>)
        requires
            editor_ok(old(self)@),
        ensures
            normal_mode_effect(old(self)@, final(self)@, r),
    {
        let index = match self.buffer_manager.get_current_index() {
            Some(i) => i,
            None => return Err(EditorError::NoBufferOpen),
        };
        let window_size = self.rect.size;
        if self.mode == (EditorMode::Insert { append: true }) {
            let mode = self.mode;
            let buf = self.buffer_manager.get_mut(index);
            let _ = buf.cursor_move_by(IVec2::left(), window_size, &mode);
        }
        self.mode = EditorMode::Normal;
        Ok(())
    }

    /// Enters visual mode; the selection starts at the cursor.
    pub fn set_visual_mode(&mut self) -> (r: Result<(), EditorError>)
        requires
            editor_ok(old(self)@),
        ensures
            visual_mode_effect(old(self)@, final(self)@, r),
    {
        match self.buffer_manager.get_current() {
            Some(current) => {
                let start = current.get_cursor_position(&self.mode);
                self.mode = EditorMode::Visual { start };
                Ok(())
            },
            None => Err(EditorError::NoBufferOpen),
        }
    }

    /// Enters insert mode. The cursor is clamped to its line first, and when appending it
    /// moves right one column.
    pub fn set_insert_mode(&mut self, append: bool) -> (r: Result<(), EditorError>)
        requires
            editor_ok(old(self)@),
            append && current_buffer(old(self)@) is Some ==> ({
                let b = current_buffer(old(self)@)->Some_0;
                clamp_x_spec(b.cursor.x as int, b.code[b.cursor.y as int].len() as int, old(self)@.mode) + 1 <= usize::MAX
            }),
        ensures
            insert_mode_effect(old(self)@, final(self)@, append, r),
    {
        let mode = self.mode;
        let index = match self.buffer_manager.get_current_index() {
            Some(i) => i,
            None => return Err(EditorError::NoBufferOpen),
        };
        let window_size = self.rect.size;
        self.mode = EditorMode::Insert { append };
        let current = self.buffer_manager.get_mut(index);
        current.cursor_sync(&mode);
        if append {
            let _ = current.cursor_move_by(IVec2::right(), window_size, &mode);
        }
        current.cursor_sync(&mode);
        Ok(())
    }

    /// Enters command mode with an empty command.
    pub fn set_command_mode(&mut self)
        ensures
            final(self)@.mode == EditorMode::Command,
            final(self)@.command_input == Seq::<char>::empty(),
            final(self)@.manager == old(self)@.manager,
            final(self)@.rect == old(self)@.rect,
            final(self)@.clipboard == old(self)@.clipboard,
    {
        self.mode = EditorMode::Command;
        self.command_input_buf = String::new();
    }

    /// Enters `mode`.
    pub fn set_mode(&mut self, mode: EditorMode) -> (r: Result<(), EditorError>)
        requires
            set_mode_ok(old(self)@, mode),
        ensures
            set_mode_effect(old(self)@, final(self)@, mode, r),
    {
        match mode {
            EditorMode::Normal => self.set_normal_mode(),
            EditorMode::Command => {
                self.set_command_mode();
                Ok(())
            },
            EditorMode::Insert { append } => self.set_insert_mode(append),
            EditorMode::Visual { .. } => self.set_visual_mode(),
        }
    }

    /// Opens `buffer` beside the others and makes it current.
    pub fn open_buffer(&mut self, buffer: EditorBuffer)
        ensures
            final(self)@ == (EditorView {
                manager: ManagerView {
                    buffers: old(self)@.manager.buffers.push(buffer),
                    current: Some(old(self)@.manager.buffers.len() as usize),
                },
                ..old(self)@
            }),
    {
        self.buffer_manager.open(buffer);
    }

    /// Closes buffer `index`; the current index stays as it is.
    pub fn close_buffer(&mut self, index: usize)
        requires
            index < old(self)@.manager.buffers.len(),
        ensures
            final(self)@ == (EditorView {
                manager: ManagerView { buffers: old(self)@.manager.buffers.remove(index as int), ..old(self)@.manager },
                ..old(self)@
            }),
    {
        self.buffer_manager.close(index);
    }

    /// Closes the current buffer, if there is one; the current index stays as it is.
    pub fn close_current_buffer(&mut self)
        requires
            current_ok(old(self)@.manager),
        ensures
            final(self)@ == (EditorView {
                manager: ManagerView {
                    buffers: match old(self)@.manager.current {
                        Some(i) => old(self)@.manager.buffers.remove(i as int),
                        None => old(self)@.manager.buffers,
                    },
                    ..old(self)@.manager
                },
                ..old(self)@
            }),
    {
        self.buffer_manager.close_current();
    }

    /// The number of open buffers.
    pub fn buffer_count(&self) -> (r: usize)
        ensures
            r == self@.manager.buffers.len(),
    {
        self.buffer_manager.get_all().len()
    }

    /// Whether the editor can be drawn: its state is sound and the width of the cursor's
    /// line, counted in terminal columns, stays within the range of `usize`.
    pub fn draw_ok(&self) -> (r: bool)
        ensures
            r == (editor_ok(self@) && (current_buffer(self@) matches Some(b) ==> b.code[b.cursor.y as int].len() * 255
                <= usize::MAX)),
    {
        let buffers = self.buffer_manager.get_all();
        match self.buffer_manager.get_current_index() {
            Some(i) => {
                if i >= buffers.len() {
                    return false;
                }
                let b = &buffers[i];
                let c = b.get_raw_cursor();
                if c.y >= b.get_code_buf().get_line_count() {
                    return false;
                }
                b.get_code_buf().get_line_length(c.y) as u128 * 255 <= usize::MAX as u128
            },
            None => true,
        }
    }

    /// Whether the editor can handle `evt`, as `editor_event_ok` says.
    pub fn event_ok(&self, evt: &Event) -> (r: bool)
        ensures
            r == editor_event_ok(self@, *evt),
    {
        let buffers = self.buffer_manager.get_all();
        match self.buffer_manager.get_current_index() {
            Some(i) => {
                if i >= buffers.len() {
                    return false;
                }
                let b = &buffers[i];
                match evt {
                    Event::Click(pos) => {
                        self.mode != EditorMode::Normal || (b.get_code_buf().get_line_count() > 0
                            && pos.y as u128 + b.get_scroll_position().y as u128 <= usize::MAX as u128)
                    },
                    _ => true,
                }
            },
            None => true,
        }
    }

    /// Whether `action` can be carried out within the text and the range of `usize`, as
    /// `editor_action_ok` says.
    pub fn action_ok(&self, action: &EditorAction) -> (r: bool)
        ensures
            r == editor_action_ok(self@, *action),
    {
        let buffers = self.buffer_manager.get_all();
        let current = match self.buffer_manager.get_current_index() {
            Some(i) => {
                if i >= buffers.len() {
                    return false;
                }
                let b = &buffers[i];
                if b.get_raw_cursor().y >= b.get_code_buf().get_line_count() {
                    return false;
                }
                Some(b)
            },
            None => None,
        };
        assert(editor_ok(self@));
        match action {
            EditorAction::SetMode(mode) => match (mode, current) {
                (EditorMode::Insert { append: true }, Some(b)) => {
                    let c = b.get_raw_cursor();
                    let len = b.get_code_buf().get_line_length(c.y);
                    crate::editor::buf::limits::clamp_x_wide(c.x as u128, len as u128, &self.mode) + 1 <= usize::MAX as u128
                },
                _ => true,
            },
            EditorAction::Buffer(a) => match current {
                Some(b) => b.action_ok(a, &self.mode, self.rect.size),
                None => true,
            },
        }
    }

    /// Carries out an editor action. A buffer action returns the text to write where it saves.
    pub fn on_action(&mut self, action: EditorAction) -> (r: Result<Option<String>, EditorError>)
        requires
            editor_action_ok(old(self)@, action),
        ensures
            editor_action_effect(old(self)@, final(self)@, action, r),
    {
        match action {
            EditorAction::SetMode(mode) => match self.set_mode(mode) {
                Ok(()) => Ok(None),
                Err(e) => Err(e),
            },
            EditorAction::Buffer(action) => {
                let index = match self.buffer_manager.get_current_index() {
                    Some(i) => i,
                    None => return Ok(None),
                };
                let window_size = self.rect.size;
                let mode = self.mode;
                let current = self.buffer_manager.get_mut(index);
                match current.on_action(action, &mode, &mut self.clipboard, window_size) {
                    Ok(v) => Ok(v),
                    Err(e) => Err(EditorError::EditorBufferError(e)),
                }
            },
        }
    }

    /// Handles an input event in a window of `term_size`. In command mode keys edit the
    /// command, Enter runs it as a `Command` event and leaves command mode, as does
    /// backspace on an empty command; leaving it fails where no buffer is open. Then the
    /// current buffer turns the event into the events it gives rise to.
    pub fn on_event(&mut self, evt: Event, term_size: UVec2) -> (r: Result<Vec<Event>, EditorError>)
        requires
            editor_event_ok(old(self)@, evt),
        ensures
            leaves_command_without_buffer(old(self)@, evt) ==> {
                &&& r matches Err(EditorError::NoBufferOpen)
                &&& final(self)@ == with_size(old(self)@, term_size)
            },
            !leaves_command_without_buffer(old(self)@, evt) ==> (r matches Ok(events) && editor_event_effect(
                old(self)@,
                evt,
                term_size,
                final(self)@,
                events@,
            )),
    {
        let mut events: Vec<Event> = Vec::new();
        self.rect.size = term_size;
        if self.mode == EditorMode::Command {
            if let Event::Input(key) = &evt {
                match key {
                    Key::Backspace => {
                        if self.command_input_buf.as_str().unicode_len() == 0 {
                            if self.buffer_manager.get_current_index().is_none() {
                                return Err(EditorError::NoBufferOpen);
                            }
                            self.mode = EditorMode::Normal;
                        } else {
                            string_pop(&mut self.command_input_buf);
                        }
                    },
                    Key::Char(c) => {
                        if *c == '\n' {
                            if self.buffer_manager.get_current_index().is_none() {
                                return Err(EditorError::NoBufferOpen);
                            }
                            self.mode = EditorMode::Normal;
                            events.push(Event::Command(self.command_input_buf.clone()));
                        } else {
                            string_push(&mut self.command_input_buf, *c);
                        }
                    },
                    _ => {},
                }
            }
        }
        let ghost before = events@;
        match self.buffer_manager.get_current() {
            Some(current) => match current.on_event(evt, &self.mode) {
                Ok(more) => {
                    let mut more = more;
                    let ghost m = more@;
                    events.append(&mut more);
                    assert(events@.skip(before.len() as int) =~= m);
                },
                Err(e) => return Err(EditorError::EditorBufferError(e)),
            },
            None => {},
        }
        Ok(events)
    }

    /// Registers the editor's key bindings, as `crate::key_config::default_keybindings` lists them.
    pub fn register_keybindings(&self, key_config: &mut crate::key_config::KeyConfig)
        ensures
            final(key_config)@ == old(key_config)@ + crate::key_config::default_keybindings(),
    {
        crate::key_config::register_keybindings(key_config)
    }

    /// Registers the editor's commands, as `crate::key_config::default_commands` lists them.
    pub fn register_commands(&self, cmd_manager: &mut crate::key_config::CommandManager)
        ensures
            final(cmd_manager)@ == old(cmd_manager)@ + crate::key_config::default_commands(),
    {
        crate::key_config::register_commands(cmd_manager)
    }
}

} // verus!
