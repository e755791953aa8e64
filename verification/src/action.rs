use vstd::prelude::*;

use crate::mode::EditorMode;
use crate::vec2::{IVec2, UVec2};

verus! {

/// A movement of the cursor.
#[derive(Clone, Copy, Debug, PartialEq, Eq, Structural, Hash)]
pub enum EditorCursorAction {
    Left,
    Right,
    Up,
    Down,
    LineStart,
    LineEnd,
    Top,
    Bottom,
    BackWord,
    NextWord,
    To(UVec2),
}

/// An edit of the text.
#[derive(Clone, Copy, Debug, PartialEq, Eq, Structural, Hash)]
pub enum EditorEditAction {
    Append(char),
    Delete,
    Backspace,
    DeleteLine,
    YankLine,
    DeleteSelection,
    YankSelection,
    Paste,
}

/// A movement of the view.
#[derive(Clone, Copy, Debug, PartialEq, Eq, Structural, Hash)]
pub enum EditorScrollAction {
    By(IVec2),
}

/// A step back or forth in the edit history.
#[derive(Clone, Copy, Debug, PartialEq, Eq, Structural, Hash)]
pub enum EditorHistoryAction {
    Undo,
    Redo,
}

/// An action on the current buffer.
#[derive(Clone, Copy, Debug, PartialEq, Eq, Structural, Hash)]
pub enum EditorBufferAction {
    Save,
    Cursor(EditorCursorAction),
    Scroll(EditorScrollAction),
    Edit(EditorEditAction),
    History(EditorHistoryAction),
}

/// An action of the editor.
#[derive(Clone, Copy, Debug, PartialEq, Eq, Structural, Hash)]
pub enum EditorAction {
    SetMode(EditorMode),
    Buffer(EditorBufferAction),
}

/// An action of the application.
#[derive(Clone, Copy, Debug, PartialEq, Eq, Structural, Hash)]
pub enum AppAction {
    Quit,
    EditorAction(EditorAction),
}

impl EditorCursorAction {
    pub fn into_app(self) -> (r: AppAction)
        ensures
            r == AppAction::EditorAction(EditorAction::Buffer(EditorBufferAction::Cursor(self))),
    {
        EditorBufferAction::Cursor(self).into_app()
    }
}

impl EditorEditAction {
    /// The application action that carries this edit.
    pub open spec fn into_app_spec(self) -> AppAction {
        AppAction::EditorAction(EditorAction::Buffer(EditorBufferAction::Edit(self)))
    }

    pub fn into_app(self) -> (r: AppAction)
        ensures
            r == AppAction::EditorAction(EditorAction::Buffer(EditorBufferAction::Edit(self))),
    {
        EditorBufferAction::Edit(self).into_app()
    }
}

impl EditorScrollAction {
    pub fn into_app(self) -> (r: AppAction)
        ensures
            r == AppAction::EditorAction(EditorAction::Buffer(EditorBufferAction::Scroll(self))),
    {
        EditorBufferAction::Scroll(self).into_app()
    }
}

impl EditorBufferAction {
    pub fn into_app(self) -> (r: AppAction)
        ensures
            r == AppAction::EditorAction(EditorAction::Buffer(self)),
    {
        EditorAction::Buffer(self).into_app()
    }
}

impl EditorAction {
    pub fn into_app(self) -> (r: AppAction)
        ensures
            r == AppAction::EditorAction(self),
    {
        AppAction::EditorAction(self)
    }
}

} // verus!
