use vstd::prelude::*;

use crate::action::AppAction;
use crate::editor::buf::manager::ManagerView;
use crate::editor::editor::{
    editor_action_effect, editor_action_ok, editor_event_effect, editor_event_ok, leaves_command_without_buffer, with_size, lemma_editor_events_kinds, Editor,
    EditorError, EditorView,
};
use crate::event::Event;
use crate::key::Key;
use crate::key_config::{
    binding_lookup, command_lookup, default_commands, default_keybindings, CommandManager, KeyConfig, KeyConfigType,
};
use crate::mode::EditorMode;
use crate::editor::buf::code_buf::cursor_pos_spec;
use crate::editor::editor::current_buffer;
use crate::ui::editor_panel::{
    buffer_colors, current_highlight, cursor_style_of, panel_cursor_pos, panel_draws_buffer, panel_grid, EditorPanel,
};
use crate::ui::renderer::UIRenderer;
use crate::vec2::{IVec2, U16Vec2, UVec2};

verus! {

/// The failure of the application.
#[derive(Debug)]
pub enum AppError {
    EditorError(EditorError),
    /// The editor cannot carry out the action, or handle the event, within its text and the
    /// range of `usize`.
    Refused,
    /// The system clock reads a time before the Unix epoch, so a key cannot be timed.
    ClockBeforeEpoch,
}

/// The failure of running the application, as its users see it.
#[derive(Debug)]
pub enum PublicAppError {
    AppError(AppError),
    /// An input or output failure, with its message.
    IOError(String),
}

/// An input event of the terminal, as far as the application reads it.
#[derive(Clone, Copy, Debug)]
pub enum TermEvent {
    Key(Key),
    ScrollUp,
    ScrollDown,
    ScrollLeft,
    ScrollRight,
    /// A mouse button went down at `column`, `row`; `left` for the left button.
    MouseDown { left: bool, column: u16, row: u16 },
    Other,
}

#[verifier::external_type_specification]
#[verifier::external_body]
pub struct ExSystemTime(std::time::SystemTime);

/// The time by the system clock.
/// Trusted: calls `std::time::SystemTime::now`; nothing is claimed of its value.
#[verifier::external_body]
fn system_time_now() -> (r: std::time::SystemTime) {
    std::time::SystemTime::now()
}

/// The time `t` as whole seconds since the Unix epoch and the nanoseconds past them; `None`
/// where `t` is before the epoch.
/// Trusted: calls `SystemTime::duration_since` with `UNIX_EPOCH`, which returns an error for
/// a time before it, and reads the `Duration` with `as_secs` and `subsec_nanos`, whose
/// documentation says the nanoseconds are under one billion.
#[verifier::external_body]
fn since_unix_epoch(t: &std::time::SystemTime) -> (r: Option<(u64, u32)>)
    ensures
        r matches Some(p) ==> p.1 < 1_000_000_000,
{
    match t.duration_since(std::time::UNIX_EPOCH) {
        Ok(d) => Some((d.as_secs(), d.subsec_nanos())),
        Err(_) => None,
    }
}

/// The nanoseconds since the Unix epoch, by the system clock; `None` where the clock reads a
/// time before the epoch.
fn now_nanos() -> (r: Option<i128>)
    ensures
        r matches Some(t) ==> t >= 0,
{
    let now = system_time_now();
    match since_unix_epoch(&now) {
        Some((secs, nanos)) => Some(secs as i128 * 1_000_000_000 + nanos as i128),
        None => None,
    }
}

/// The nanoseconds within which the keys of one binding must follow the first.
pub const KEY_TIMEOUT_NS: i128 = 500_000_000;

/// What an application holds: the editor, its key bindings and commands, the keys typed
/// towards a binding and when the first came, and the texts of saves to write out, each with
/// the index of its buffer.
pub struct AppView {
    pub editor: EditorView,
    pub key_config: Seq<(KeyConfigType, Seq<Key>, AppAction)>,
    pub commands: Seq<(Seq<char>, Seq<AppAction>)>,
    pub first_key_time: Option<i128>,
    pub key_buf: Seq<Key>,
    pub saves: Seq<(usize, Seq<char>)>,
}

/// Typing `key` at time `now`: keys typed more than the timeout after the first of the
/// buffer are dropped, and the key joins the buffer; keys bound to an action give the
/// action and empty the buffer, else the key is input. The result is the new buffer, the
/// time of its first key and the event.
pub open spec fn key_step(
    buf: Seq<Key>,
    first: Option<i128>,
    key: Key,
    now: i128,
    config: Seq<(KeyConfigType, Seq<Key>, AppAction)>,
    mode: EditorMode,
) -> (Seq<Key>, Option<i128>, Event) {
    let (buf1, first1) = if buf.len() == 0 {
        (buf, Some(now))
    } else {
        match first {
            Some(t) => if now - t >= KEY_TIMEOUT_NS { (Seq::<Key>::empty(), first) } else { (buf, first) },
            None => (buf, first),
        }
    };
    let buf2 = buf1.push(key);
    match binding_lookup(config, mode, buf2) {
        Some(action) => (Seq::<Key>::empty(), first1, Event::Action(action)),
        None => (buf2, first1, Event::Input(key)),
    }
}

/// A key bound on its own fires its action at once when no keys wait, and empties the
/// buffer; the first key's time is the time it was typed.
pub proof fn law_single_key_fires(
    first: Option<i128>,
    key: Key,
    now: i128,
    config: Seq<(KeyConfigType, Seq<Key>, AppAction)>,
    mode: EditorMode,
    action: AppAction,
)
    requires
        binding_lookup(config, mode, seq![key]) == Some(action),
    ensures
        key_step(Seq::empty(), first, key, now, config, mode) == (Seq::<Key>::empty(), Some(now), Event::Action(action)),
{
    assert(Seq::<Key>::empty().push(key) =~= seq![key]);
}

/// Keys that bind nothing are input, and wait in the buffer for the keys that follow.
pub proof fn law_unbound_key_is_input(
    buf: Seq<Key>,
    first: Option<i128>,
    key: Key,
    now: i128,
    config: Seq<(KeyConfigType, Seq<Key>, AppAction)>,
    mode: EditorMode,
)
    requires
        first is Some,
        buf.len() > 0,
        now - first->Some_0 < KEY_TIMEOUT_NS,
        binding_lookup(config, mode, buf.push(key)) is None,
    ensures
        key_step(buf, first, key, now, config, mode) == (buf.push(key), first, Event::Input(key)),
{
}

/// The event a terminal event gives, if any: keys as `key_step` says at some time, scrolling
/// by one step, and a left click where it was.
pub open spec fn term_event_spec(evt: TermEvent, a0: AppView, a1: AppView, r: Option<Event>) -> bool {
    match evt {
        TermEvent::Key(key) => exists|now: i128| {
            let step = #[trigger] key_step(a0.key_buf, a0.first_key_time, key, now, a0.key_config, a0.editor.mode);
            &&& a1 == AppView { key_buf: step.0, first_key_time: step.1, ..a0 }
            &&& r == Some(step.2)
        },
        _ => a1 == a0 && r == match evt {
            TermEvent::ScrollUp => Some(Event::Scroll(IVec2 { x: 0, y: -1isize })),
            TermEvent::ScrollDown => Some(Event::Scroll(IVec2 { x: 0, y: 1 })),
            TermEvent::ScrollLeft => Some(Event::Scroll(IVec2 { x: -1isize, y: 0 })),
            TermEvent::ScrollRight => Some(Event::Scroll(IVec2 { x: 1, y: 0 })),
            TermEvent::MouseDown { left, column, row } => if left {
                Some(Event::Click(UVec2 { x: column as usize, y: row as usize }))
            } else {
                None
            },
            _ => None,
        },
    }
}

/// The mouse wheel scrolls the way it turns, one step at a time: turned down it moves the
/// view down a line, up it moves it up a line, and left and right it moves it a column
/// that way; a left click is a click where it happened, and other buttons give nothing.
/// None of these changes the application.
pub proof fn law_mouse_events(evt: TermEvent, a0: AppView, a1: AppView, r: Option<Event>)
    requires
        term_event_spec(evt, a0, a1, r),
    ensures
        !(evt is Key) ==> a1 == a0,
        evt is ScrollDown ==> (r matches Some(Event::Scroll(v)) && v.x == 0 && v.y == 1),
        evt is ScrollUp ==> (r matches Some(Event::Scroll(v)) && v.x == 0 && v.y == -1),
        evt is ScrollRight ==> (r matches Some(Event::Scroll(v)) && v.x == 1 && v.y == 0),
        evt is ScrollLeft ==> (r matches Some(Event::Scroll(v)) && v.x == -1 && v.y == 0),
        evt matches TermEvent::MouseDown { left, column, row } ==> if left {
            r matches Some(Event::Click(p)) && p.x == column && p.y == row
        } else {
            r is None
        },
{
}

/// The application after the editor went to `e` with result `er`: the text of a save joins
/// the saves, with the index of the current buffer.
pub open spec fn after_editor(a0: AppView, e: EditorView, er: Result<Option<String>, EditorError>) -> AppView {
    let saves = match er {
        Ok(Some(text)) => a0.saves.push((a0.editor.manager.current->Some_0, text@)),
        _ => a0.saves,
    };
    AppView { editor: e, saves, ..a0 }
}

/// The result of the application for the editor's result `er`.
pub open spec fn editor_result(er: Result<Option<String>, EditorError>) -> Result<bool, AppError> {
    match er {
        Ok(_) => Ok(false),
        Err(e) => Err(AppError::EditorError(e)),
    }
}

/// What carrying out `action` does, from application `a0` to `a1` with result `r`: quitting
/// gives `true`; an editor action the editor cannot carry out is refused, else the editor
/// carries it out.
pub open spec fn action_step(a0: AppView, action: AppAction, a1: AppView, r: Result<bool, AppError>) -> bool {
    match action {
        AppAction::Quit => r == Ok::<bool, AppError>(true) && a1 == a0,
        AppAction::EditorAction(ea) => if !editor_action_ok(a0.editor, ea) {
            r == Err::<bool, AppError>(AppError::Refused) && a1 == a0
        } else {
            exists|e: EditorView, er: Result<Option<String>, EditorError>|
                #[trigger] editor_action_effect(a0.editor, e, ea, er) && a1 == after_editor(a0, e, er) && r == editor_result(er)
        },
    }
}

/// Step `j` of a trace of actions: action `j` takes the state after step `j - 1` to the
/// state and result after step `j`.
pub open spec fn action_step_at(acts: Seq<AppAction>, tr: Seq<(AppView, Result<bool, AppError>)>, j: int) -> bool {
    &&& tr[j].1 == Ok::<bool, AppError>(false)
    &&& action_step(tr[j].0, acts[j], tr[j + 1].0, tr[j + 1].1)
}

/// Whether `tr` traces carrying out `acts` from `a0`: it starts at `a0`, each step carries
/// out the next action after a step that neither quit nor failed, and it stops at the end of
/// the actions or at the first step that quits or fails.
pub open spec fn action_trace_ok(a0: AppView, acts: Seq<AppAction>, tr: Seq<(AppView, Result<bool, AppError>)>) -> bool {
    &&& 1 <= tr.len() <= acts.len() + 1
    &&& tr[0] == (a0, Ok::<bool, AppError>(false))
    &&& forall|j: int| 0 <= j < tr.len() - 1 ==> #[trigger] action_step_at(acts, tr, j)
    &&& tr.len() - 1 < acts.len() ==> tr.last().1 != Ok::<bool, AppError>(false)
}

/// Carrying out `acts` in order, up to the first that quits or fails, from `a0` to `a1`
/// with result `r`.
pub open spec fn actions_run(a0: AppView, acts: Seq<AppAction>, a1: AppView, r: Result<bool, AppError>) -> bool {
    exists|tr: Seq<(AppView, Result<bool, AppError>)>| #[trigger] action_trace_ok(a0, acts, tr) && tr.last() == (a1, r)
}

/// Running the command `name`: its actions, or nothing for a command that is not known.
pub open spec fn command_step(a0: AppView, name: Seq<char>, a1: AppView, r: Result<bool, AppError>) -> bool {
    match command_lookup(a0.commands, name) {
        Some(acts) => actions_run(a0, acts, a1, r),
        None => a1 == a0 && r == Ok::<bool, AppError>(false),
    }
}

/// Handling an event that the editor gives back: quitting, an action or a command.
pub open spec fn inner_step(a0: AppView, evt: Event, a1: AppView, r: Result<bool, AppError>) -> bool {
    match evt {
        Event::Quit => r == Ok::<bool, AppError>(true) && a1 == a0,
        Event::Action(action) => action_step(a0, action, a1, r),
        Event::Command(name) => command_step(a0, name@, a1, r),
        _ => false,
    }
}

/// Step `j` of a trace of events: event `j` takes the state after step `j - 1` to the
/// state and result after step `j`.
pub open spec fn event_step_at(evts: Seq<Event>, tr: Seq<(AppView, Result<bool, AppError>)>, j: int) -> bool {
    &&& tr[j].1 == Ok::<bool, AppError>(false)
    &&& inner_step(tr[j].0, evts[j], tr[j + 1].0, tr[j + 1].1)
}

/// Whether `tr` traces handling `evts` from `a0`, as `action_trace_ok` says of actions.
pub open spec fn event_trace_ok(a0: AppView, evts: Seq<Event>, tr: Seq<(AppView, Result<bool, AppError>)>) -> bool {
    &&& 1 <= tr.len() <= evts.len() + 1
    &&& tr[0] == (a0, Ok::<bool, AppError>(false))
    &&& forall|j: int| 0 <= j < tr.len() - 1 ==> #[trigger] event_step_at(evts, tr, j)
    &&& tr.len() - 1 < evts.len() ==> tr.last().1 != Ok::<bool, AppError>(false)
}

/// Handling `evts` in order, up to the first that quits or fails, from `a0` to `a1` with
/// result `r`.
pub open spec fn events_run(a0: AppView, evts: Seq<Event>, a1: AppView, r: Result<bool, AppError>) -> bool {
    exists|tr: Seq<(AppView, Result<bool, AppError>)>| #[trigger] event_trace_ok(a0, evts, tr) && tr.last() == (a1, r)
}

/// What handling `evt` in a window of `term_size` does: quitting, actions and commands as
/// above; any other event goes to the editor, which must be able to handle it, and the
/// events it gives back are handled in turn.
pub open spec fn event_step(a0: AppView, evt: Event, term_size: UVec2, a1: AppView, r: Result<bool, AppError>) -> bool {
    match evt {
        Event::Quit | Event::Action(_) | Event::Command(_) => inner_step(a0, evt, a1, r),
        _ => if !editor_event_ok(a0.editor, evt) {
            r == Err::<bool, AppError>(AppError::Refused) && a1 == a0
        } else if leaves_command_without_buffer(a0.editor, evt) {
            &&& r matches Err(AppError::EditorError(EditorError::NoBufferOpen))
            &&& a1 == AppView { editor: with_size(a0.editor, term_size), ..a0 }
        } else {
            exists|e: EditorView, evts: Seq<Event>|
                #[trigger] editor_event_effect(a0.editor, evt, term_size, e, evts) && events_run(
                    AppView { editor: e, ..a0 },
                    evts,
                    a1,
                    r,
                )
        },
    }
}

/// The application: the editor, its key bindings and commands, the keys typed towards a
/// binding, and the saves waiting to be written out.
pub struct App {
    editor: Editor,
    key_config: KeyConfig,
    cmd_mgr: CommandManager,
    editor_panel: EditorPanel,
    first_key_time: Option<i128>,
    key_buf: Vec<Key>,
    saves: Vec<(usize, String)>,
}

/// The saves as sequences.
pub open spec fn saves_view(s: Seq<(usize, String)>) -> Seq<(usize, Seq<char>)> {
    Seq::new(s.len(), |i: int| (s[i].0, s[i].1@))
}

impl View for App {
    type V = AppView;

    closed spec fn view(&self) -> AppView {
        AppView {
            editor: self.editor@,
            key_config: self.key_config@,
            commands: self.cmd_mgr@,
            first_key_time: self.first_key_time,
            key_buf: self.key_buf@,
            saves: saves_view(self.saves@),
        }
    }
}

impl App {
    /// An application around `editor`, with no key bindings or commands yet.
    pub fn new(editor: Editor) -> (r: Self)
        ensures
            r@.editor == editor@,
            r@.key_config.len() == 0,
            r@.commands.len() == 0,
            r@.first_key_time is None,
            r@.key_buf.len() == 0,
            r@.saves.len() == 0,
    {
        let r = App {
            editor,
            key_config: KeyConfig::new(),
            cmd_mgr: CommandManager::new(),
            editor_panel: EditorPanel::new(),
            first_key_time: None,
            key_buf: Vec::new(),
            saves: Vec::new(),
        };
        assert(saves_view(r.saves@) =~= Seq::<(usize, Seq<char>)>::empty());
        r
    }

    /// Registers the editor's key bindings and commands.
    pub fn init(&mut self)
        ensures
            final(self)@ == (AppView {
                key_config: old(self)@.key_config + default_keybindings(),
                commands: old(self)@.commands + default_commands(),
                ..old(self)@
            }),
    {
        self.editor.register_keybindings(&mut self.key_config);
        self.editor.register_commands(&mut self.cmd_mgr);
    }

    /// The editor.
    pub fn get_editor(&self) -> (r: &Editor)
        ensures
            r@ == self@.editor,
    {
        &self.editor
    }

    /// Draws the editor on `renderer` for a window of `size`, as `EditorPanel::render` does;
    /// `false`, with nothing drawn, where the editor cannot be drawn.
    pub fn draw(&self, renderer: &mut UIRenderer, size: U16Vec2) -> (r: bool)
        ensures
            r == (crate::editor::editor::editor_ok(self@.editor) && (current_buffer(self@.editor) matches Some(b)
                ==> b.code[b.cursor.y as int].len() * 255 <= usize::MAX)),
            r ==> final(renderer)@.grid == panel_grid(old(renderer)@.grid, size, self@.editor),
            r ==> final(renderer)@.cursor_pos == panel_cursor_pos(old(renderer)@.grid, size, self@.editor),
            r ==> final(renderer)@.cursor_style == Some(cursor_style_of(self@.editor.mode)),
            r && panel_draws_buffer(old(renderer)@.grid, size, self@.editor) ==> final(renderer)@.colors
                == old(renderer)@.colors + buffer_colors(
                current_buffer(self@.editor)->Some_0.code,
                current_buffer(self@.editor)->Some_0.scroll.y as int,
                size,
                self@.editor.mode,
                cursor_pos_spec(current_buffer(self@.editor)->Some_0.code, current_buffer(self@.editor)->Some_0.cursor, self@.editor.mode),
                current_highlight(self@.editor),
            ),
            r && !panel_draws_buffer(old(renderer)@.grid, size, self@.editor) ==> final(renderer)@.colors == old(renderer)@.colors,
            !r ==> final(renderer)@ == old(renderer)@,
    {
        if !self.editor.draw_ok() {
            return false;
        }
        self.editor_panel.render(renderer, size, &self.editor);
        true
    }

    /// Takes the saves waiting to be written out, oldest first: the index of each buffer and
    /// its text.
    pub fn take_saves(&mut self) -> (r: Vec<(usize, String)>)
        ensures
            saves_view(r@) == old(self)@.saves,
            final(self)@ == (AppView { saves: Seq::empty(), ..old(self)@ }),
    {
        let mut out: Vec<(usize, String)> = Vec::new();
        std::mem::swap(&mut out, &mut self.saves);
        assert(saves_view(self.saves@) =~= Seq::<(usize, Seq<char>)>::empty());
        out
    }

    /// Handles the key `key` typed at time `now`, as `key_step` says.
    pub fn key_input(&mut self, key: Key, now: i128) -> (r: Event)
        ensures
            ({
                let step = key_step(old(self)@.key_buf, old(self)@.first_key_time, key, now, old(self)@.key_config, old(self)@.editor.mode);
                &&& final(self)@ == (AppView { key_buf: step.0, first_key_time: step.1, ..old(self)@ })
                &&& r == step.2
            }),
    {
        if self.key_buf.len() == 0 {
            self.first_key_time = Some(now);
        } else if let Some(first_key_time) = self.first_key_time {
            if first_key_time <= i128::MAX - KEY_TIMEOUT_NS && now >= first_key_time + KEY_TIMEOUT_NS {
                self.key_buf = Vec::new();
            }
        }
        self.key_buf.push(key);
        let mode = self.editor.get_mode();
        match self.key_config.get_action(&mode, &self.key_buf) {
            Some(action) => {
                self.key_buf = Vec::new();
                proof {
                    assert(self.key_buf@ =~= Seq::<Key>::empty());
                }
                Event::Action(action)
            },
            None => Event::Input(key),
        }
    }

    /// The event a terminal event gives, if any: a key as `key_input` handles it at the
    /// time of the system clock, scrolling by one step, and a left click where it was. A key
    /// fails with `ClockBeforeEpoch`, and changes nothing, where the clock reads a time
    /// before the Unix epoch.
    pub fn crossterm_event_to_editor_event(&mut self, evt: TermEvent) -> (r: Result<Option<Event>, AppError>)
        ensures
            r matches Ok(e) ==> term_event_spec(evt, old(self)@, final(self)@, e),
            r is Err ==> evt is Key && final(self)@ == old(self)@,
            r matches Err(e) ==> e is ClockBeforeEpoch,
            !(evt is Key) ==> r is Ok,
    {
        match evt {
            TermEvent::Key(key) => {
                let now = match now_nanos() {
                    Some(t) => t,
                    None => return Err(AppError::ClockBeforeEpoch),
                };
                let e = self.key_input(key, now);
                assert(term_event_spec(evt, old(self)@, self@, Some(e))) by {
                    let step = key_step(old(self)@.key_buf, old(self)@.first_key_time, key, now, old(self)@.key_config, old(self)@.editor.mode);
                    assert(self@ == AppView { key_buf: step.0, first_key_time: step.1, ..old(self)@ });
                }
                Ok(Some(e))
            },
            TermEvent::ScrollUp => Ok(Some(Event::Scroll(IVec2::new(0, -1)))),
            TermEvent::ScrollDown => Ok(Some(Event::Scroll(IVec2::new(0, 1)))),
            TermEvent::ScrollLeft => Ok(Some(Event::Scroll(IVec2::new(-1, 0)))),
            TermEvent::ScrollRight => Ok(Some(Event::Scroll(IVec2::new(1, 0)))),
            TermEvent::MouseDown { left, column, row } => {
                if left {
                    Ok(Some(Event::Click(UVec2::new(column as usize, row as usize))))
                } else {
                    Ok(None)
                }
            },
            TermEvent::Other => Ok(None),
        }
    }

    /// Carries out `action`, as `action_step` says; `true` when the application is to quit.
    pub fn on_action(&mut self, action: AppAction) -> (r: Result<bool, AppError>)
        ensures
            action_step(old(self)@, action, final(self)@, r),
    {
        match action {
            AppAction::Quit => Ok(true),
            AppAction::EditorAction(ea) => {
                if !self.editor.action_ok(&ea) {
                    return Err(AppError::Refused);
                }
                let ghost a0 = self@;
                let index = self.editor.get_buffer_manager().get_current_index();
                let res = self.editor.on_action(ea);
                let ghost er = res;
                let ghost e = self.editor@;
                assert(editor_action_effect(a0.editor, e, ea, er));
                match res {
                    Ok(Some(text)) => {
                        match index {
                            Some(i) => {
                                self.saves.push((i, text));
                                assert(saves_view(self.saves@) =~= a0.saves.push((i, er->Ok_0->Some_0@)));
                            },
                            None => {
                                assert(false);
                            },
                        }
                        assert(self@ == after_editor(a0, e, er));
                        Ok(false)
                    },
                    Ok(None) => {
                        assert(self@ == after_editor(a0, e, er));
                        Ok(false)
                    },
                    Err(err) => {
                        assert(self@ == after_editor(a0, e, er));
                        Err(AppError::EditorError(err))
                    },
                }
            },
        }
    }

    /// Carries out `acts` in order, up to the first that quits or fails, as `actions_run` says.
    pub fn run_actions(&mut self, acts: &Vec<AppAction>) -> (r: Result<bool, AppError>)
        ensures
            actions_run(old(self)@, acts@, final(self)@, r),
    {
        let ghost a0 = self@;
        let ghost mut tr: Seq<(AppView, Result<bool, AppError>)> = seq![(a0, Ok::<bool, AppError>(false))];
        let mut i: usize = 0;
        while i < acts.len()
            invariant
                0 <= i <= acts@.len(),
                a0 == old(self)@,
                tr.len() == i + 1,
                tr[0] == (a0, Ok::<bool, AppError>(false)),
                tr.last() == (self@, Ok::<bool, AppError>(false)),
                forall|j: int| 0 <= j < tr.len() - 1 ==> #[trigger] action_step_at(acts@, tr, j),
            decreases acts@.len() - i,
        {
            let action = acts[i];
            let ghost mid = self@;
            let res = self.on_action(action);
            let ghost prev = tr;
            assert(prev[i as int] == (mid, Ok::<bool, AppError>(false)));
            proof {
                tr = tr.push((self@, res));
            }
            assert forall|j: int| 0 <= j < tr.len() - 1 implies #[trigger] action_step_at(acts@, tr, j) by {
                assert(tr[j] == prev[j]);
                if j < prev.len() - 1 {
                    assert(action_step_at(acts@, prev, j));
                    assert(tr[j + 1] == prev[j + 1]);
                } else {
                    assert(j == i);
                    assert(tr[j + 1] == (self@, res));
                    assert(acts@[j] == action);
                    assert(action_step(mid, action, self@, res));
                }
            }
            match res {
                Ok(false) => {},
                _ => {
                    assert(action_trace_ok(a0, acts@, tr));
                    return res;
                },
            }
            i = i + 1;
        }
        assert(action_trace_ok(a0, acts@, tr));
        Ok(false)
    }

    /// Runs the command `name`, as `command_step` says.
    pub fn run_command(&mut self, name: &str) -> (r: Result<bool, AppError>)
        ensures
            command_step(old(self)@, name@, final(self)@, r),
    {
        let acts = match self.cmd_mgr.get_action(name) {
            Some(actions) => copy_actions(actions),
            None => return Ok(false),
        };
        self.run_actions(&acts)
    }

    /// Handles an event the editor gave back: quitting, an action or a command.
    fn on_inner_event(&mut self, evt: &Event) -> (r: Result<bool, AppError>)
        requires
            evt is Quit || evt is Action || evt is Command,
        ensures
            inner_step(old(self)@, *evt, final(self)@, r),
    {
        match evt {
            Event::Quit => Ok(true),
            Event::Action(action) => self.on_action(*action),
            Event::Command(name) => self.run_command(name.as_str()),
            _ => Ok(false),
        }
    }

    /// Handles `evt` in a window of `term_size`, as `event_step` says; `true` when the
    /// application is to quit.
    pub fn on_event(&mut self, evt: Event, term_size: UVec2) -> (r: Result<bool, AppError>)
        ensures
            event_step(old(self)@, evt, term_size, final(self)@, r),
    {
        let inner = match &evt {
            Event::Quit | Event::Action(_) | Event::Command(_) => true,
            _ => false,
        };
        if inner {
            return self.on_inner_event(&evt);
        }
        assert(!(evt is Quit || evt is Action || evt is Command));
        if !self.editor.event_ok(&evt) {
            return Err(AppError::Refused);
        }
        let ghost a0 = self@;
        let events = match self.editor.on_event(evt, term_size) {
            Ok(events) => events,
            Err(e) => {
                assert(self@ == AppView { editor: self.editor@, ..a0 });
                return Err(AppError::EditorError(e));
            },
        };
        let ghost a1 = self@;
        let ghost e1 = self.editor@;
        assert(a1 == AppView { editor: e1, ..a0 });
        assert(editor_event_effect(a0.editor, evt, term_size, e1, events@));
        let ghost evs = events@;
        proof {
            lemma_editor_events_kinds(a0.editor, evt, term_size, self.editor@, evs);
        }
        let ghost mut tr: Seq<(AppView, Result<bool, AppError>)> = seq![(a1, Ok::<bool, AppError>(false))];
        let mut i: usize = 0;
        while i < events.len()
            invariant
                0 <= i <= evs.len(),
                evs == events@,
                a0 == old(self)@,
                a1 == (AppView { editor: e1, ..a0 }),
                !(evt is Quit || evt is Action || evt is Command),
                editor_event_ok(a0.editor, evt),
                !leaves_command_without_buffer(a0.editor, evt),
                editor_event_effect(a0.editor, evt, term_size, e1, evs),
                forall|k: int| 0 <= k < evs.len() ==> (#[trigger] evs[k] is Action || evs[k] is Command),
                tr.len() == i + 1,
                tr[0] == (a1, Ok::<bool, AppError>(false)),
                tr.last() == (self@, Ok::<bool, AppError>(false)),
                forall|j: int| 0 <= j < tr.len() - 1 ==> #[trigger] event_step_at(evs, tr, j),
            decreases evs.len() - i,
        {
            let ghost mid = self@;
            let res = self.on_inner_event(&events[i]);
            let ghost prev = tr;
            assert(prev[i as int] == (mid, Ok::<bool, AppError>(false)));
            proof {
                tr = tr.push((self@, res));
            }
            assert forall|j: int| 0 <= j < tr.len() - 1 implies #[trigger] event_step_at(evs, tr, j) by {
                assert(tr[j] == prev[j]);
                if j < prev.len() - 1 {
                    assert(event_step_at(evs, prev, j));
                    assert(tr[j + 1] == prev[j + 1]);
                } else {
                    assert(j == i);
                    assert(tr[j + 1] == (self@, res));
                    assert(inner_step(mid, evs[j], self@, res));
                }
            }
            match res {
                Ok(false) => {},
                _ => {
                    assert(event_trace_ok(a1, evs, tr));
                    assert(events_run(AppView { editor: e1, ..a0 }, evs, self@, res));
                    assert(editor_event_effect(a0.editor, evt, term_size, e1, evs));
                    return res;
                },
            }
            i = i + 1;
        }
        assert(event_trace_ok(a1, evs, tr));
        Ok(false)
    }
}

/// A copy of the actions.
fn copy_actions(v: &Vec<AppAction>) -> (r: Vec<AppAction>)
    ensures
        r@ == v@,
{
    let mut out: Vec<AppAction> = Vec::new();
    let mut i: usize = 0;
    while i < v.len()
        invariant
            0 <= i <= v@.len(),
            out@ == v@.take(i as int),
        decreases v@.len() - i,
    {
        out.push(v[i]);
        assert(out@ =~= v@.take(i + 1));
        i = i + 1;
    }
    assert(v@.take(v@.len() as int) =~= v@);
    out
}

} // verus!
