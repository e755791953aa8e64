use vstd::prelude::*;

use crate::action::EditorAction;
use crate::editor::buf::manager::ManagerView;
use crate::editor::buf::buf::EditorBuffer;
use crate::editor::buf::manager::current_ok;
use crate::editor::editor::{set_mode_effect, set_mode_ok, Editor, EditorView};
use crate::language_support::highlight::{HighlightToken, ToColor};
use crate::language_support::language_support::LanguageSupport;
use crate::mode::EditorMode;
use crate::vec2::UVec2;

verus! {

/// The name and version of a plugin.
#[derive(Debug)]
pub struct PluginInfo {
    pub name: String,
    pub version: String,
}

/// A message between the editor and a plugin.
#[derive(Debug)]
pub enum Message {
    /// The plugin introduces itself.
    Initialize(PluginInfo),
    /// The plugin supports the language of a file type.
    SetLanguageSupport(&'static str),
    HighlightRequest,
    HighlightResponse(Vec<HighlightToken>),
}

/// A request: a command with its content.
pub struct Request<T> {
    pub command: String,
    pub content: T,
}

/// A producer of tokens of a kind that has a color.
pub trait Tokenizer<T: ToColor> {
    fn tokenize() -> Vec<T>;
}

/// The side of a plugin that talks to the editor: it introduces the plugin and the language
/// support it offers. The messages it gives are for the caller to send.
pub struct PluginClient {
    lang_support: Option<Box<dyn LanguageSupport>>,
}

impl PluginClient {
    /// A client with no language support yet.
    pub fn new() -> (r: Self)
        ensures
            !r.has_language(),
    {
        PluginClient { lang_support: None }
    }

    /// Whether the client has a language support.
    pub closed spec fn has_language(&self) -> bool {
        self.lang_support is Some
    }

    /// The message that introduces the plugin of `info`.
    pub fn initialize(&self, info: PluginInfo) -> (r: Message)
        ensures
            r == Message::Initialize(info),
    {
        Message::Initialize(info)
    }

    /// Handles a line the editor sent; the client reacts to none yet.
    pub fn on_event(&self, buf: String) {
    }

    /// Takes `lang_support` as the client's language support, and gives the message that
    /// announces the file type it is for.
    pub fn set_language_support(&mut self, lang_support: Box<dyn LanguageSupport>) -> (r: Message)
        ensures
            r matches Message::SetLanguageSupport(t) && t@ == lang_support.file_type_name(),
            final(self).has_language(),
    {
        let file_type = lang_support.file_type();
        self.lang_support = Some(lang_support);
        Message::SetLanguageSupport(file_type)
    }
}

/// The failure of a request to the editor.
#[derive(Debug)]
pub enum EditorApiError {
    LockError,
    SetEditorModeFailed,
    OpenBufferFailed,
}

/// The editor as plugins reach it.
pub struct EditorApi {
    editor: Editor,
}

impl View for EditorApi {
    type V = EditorView;

    closed spec fn view(&self) -> EditorView {
        self.editor@
    }
}

impl EditorApi {
    pub fn new(editor: Editor) -> (r: Self)
        ensures
            r@ == editor@,
    {
        EditorApi { editor }
    }

    /// The editor's mode.
    pub fn get_mode(&self) -> (r: Result<EditorMode, EditorApiError>)
        ensures
            r == Ok::<EditorMode, EditorApiError>(self@.mode),
    {
        Ok(self.editor.get_mode())
    }

    /// Enters `mode`: the editor is left as it is, and the request fails, where it cannot
    /// enter the mode.
    pub fn set_mode(&mut self, mode: EditorMode) -> (r: Result<(), EditorApiError>)
        ensures
            !set_mode_ok(old(self)@, mode) ==> (r matches Err(EditorApiError::SetEditorModeFailed) && final(self)@ == old(self)@),
            set_mode_ok(old(self)@, mode) ==> exists|er: Result<(), crate::editor::editor::EditorError>| {
                &&& #[trigger] set_mode_effect(old(self)@, final(self)@, mode, er)
                &&& er is Ok <==> r is Ok
                &&& r matches Err(e) ==> e is SetEditorModeFailed
            },
    {
        if !self.editor.action_ok(&EditorAction::SetMode(mode)) {
            return Err(EditorApiError::SetEditorModeFailed);
        }
        let res = match mode {
            EditorMode::Normal => self.editor.set_normal_mode(),
            EditorMode::Command => {
                self.editor.set_command_mode();
                Ok(())
            },
            EditorMode::Insert { append } => self.editor.set_insert_mode(append),
            EditorMode::Visual { .. } => self.editor.set_visual_mode(),
        };
        let ghost er = res;
        assert(set_mode_effect(old(self)@, self@, mode, er));
        match res {
            Ok(()) => Ok(()),
            Err(_) => Err(EditorApiError::SetEditorModeFailed),
        }
    }

    /// Opens a buffer and makes it current: `buffer`, read from its file by the caller, or
    /// an empty one where there is no file.
    pub fn open_file(&mut self, buffer: Option<EditorBuffer>) -> (r: Result<(), EditorApiError>)
        ensures
            r is Ok,
            final(self)@.manager.buffers.len() == old(self)@.manager.buffers.len() + 1,
            final(self)@.manager.buffers.drop_last() == old(self)@.manager.buffers,
            buffer matches Some(b) ==> final(self)@.manager.buffers.last() == b,
            buffer is None ==> final(self)@.manager.buffers.last()@.code == seq![Seq::<char>::empty()]
                && final(self)@.manager.buffers.last()@.cursor == (UVec2 { x: 0, y: 0 }),
            final(self)@.manager.current == Some(old(self)@.manager.buffers.len() as usize),
            final(self)@.mode == old(self)@.mode,
            final(self)@.rect == old(self)@.rect,
            final(self)@.command_input == old(self)@.command_input,
    {
        let b = match buffer {
            Some(b) => b,
            None => EditorBuffer::new(),
        };
        self.editor.open_buffer(b);
        assert(self@.manager.buffers.drop_last() =~= old(self)@.manager.buffers);
        Ok(())
    }

    /// Closes buffer `index`; nothing where there is no such buffer.
    pub fn close(&mut self, index: usize) -> (r: Result<(), EditorApiError>)
        ensures
            r is Ok,
            index < old(self)@.manager.buffers.len() ==> final(self)@ == (EditorView {
                manager: ManagerView { buffers: old(self)@.manager.buffers.remove(index as int), ..old(self)@.manager },
                ..old(self)@
            }),
            index >= old(self)@.manager.buffers.len() ==> final(self)@ == old(self)@,
    {
        if index < self.editor.buffer_count() {
            self.editor.close_buffer(index);
        }
        Ok(())
    }

    /// Closes the current buffer, if there is one; nothing where the current index names no
    /// buffer.
    pub fn close_current(&mut self) -> (r: Result<(), EditorApiError>)
        ensures
            r is Ok,
            !current_ok(old(self)@.manager) ==> final(self)@ == old(self)@,
            current_ok(old(self)@.manager) ==> final(self)@ == (EditorView {
                manager: ManagerView {
                    buffers: match old(self)@.manager.current {
                        Some(i) => old(self)@.manager.buffers.remove(i as int),
                        None => old(self)@.manager.buffers,
                    },
                    ..old(self)@.manager
                },
                ..old(self)@
            }),
    {
        let ok = match self.editor.get_buffer_manager().get_current_index() {
            Some(i) => i < self.editor.buffer_count(),
            None => true,
        };
        if ok {
            self.editor.close_current_buffer();
        }
        Ok(())
    }
}

} // verus!
