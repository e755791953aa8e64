use vstd::prelude::*;

use crate::editor::buf::code_buf::EditorCodeBuffer;
use crate::editor::buf::cursor::{clamp_x_spec, clamp_y_spec, EditorCursor};
use crate::mode::EditorMode;
use crate::text::lines_of;
use crate::vec2::UVec2;

verus! {

/// A snapshot of a buffer: its text and the cursor position.
pub struct EditorState {
    pub code: String,
    pub cursor: UVec2,
}

impl Clone for EditorState {
    fn clone(&self) -> (r: Self)
        ensures
            r == *self,
    {
        EditorState { code: self.code.clone(), cursor: self.cursor }
    }
}

/// The two stacks of the history: the states to undo to, and those to redo.
pub struct HistoryStacks {
    pub undo: Seq<EditorState>,
    pub redo: Seq<EditorState>,
}

/// Recording a state: it goes on the undo stack, and the redo stack is emptied.
pub open spec fn record_spec(h: HistoryStacks, state: EditorState) -> HistoryStacks {
    HistoryStacks { undo: h.undo.push(state), redo: seq![] }
}

/// Undoing: the last state of the undo stack moves to the redo stack and is returned.
pub open spec fn undo_spec(h: HistoryStacks) -> (Option<EditorState>, HistoryStacks) {
    if h.undo.len() == 0 {
        (None, h)
    } else {
        (Some(h.undo.last()), HistoryStacks { undo: h.undo.drop_last(), redo: h.redo.push(h.undo.last()) })
    }
}

/// Redoing: the last state of the redo stack moves to the undo stack and is returned.
pub open spec fn redo_spec(h: HistoryStacks) -> (Option<EditorState>, HistoryStacks) {
    if h.redo.len() == 0 {
        (None, h)
    } else {
        (Some(h.redo.last()), HistoryStacks { undo: h.undo.push(h.redo.last()), redo: h.redo.drop_last() })
    }
}

/// The undo and redo stacks of a buffer.
pub struct EditorHistory {
    undo_stack: Vec<EditorState>,
    redo_stack: Vec<EditorState>,
}

impl View for EditorHistory {
    type V = HistoryStacks;

    closed spec fn view(&self) -> HistoryStacks {
        HistoryStacks { undo: self.undo_stack@, redo: self.redo_stack@ }
    }
}

impl EditorHistory {
    /// An empty history.
    pub fn new() -> (r: Self)
        ensures
            r@.undo == Seq::<EditorState>::empty(),
            r@.redo == Seq::<EditorState>::empty(),
    {
        EditorHistory { undo_stack: Vec::new(), redo_stack: Vec::new() }
    }

    /// Records `state` as the one to go back to; what could be redone is forgotten.
    pub fn action(&mut self, state: EditorState)
        ensures
            final(self)@ == record_spec(old(self)@, state),
    {
        self.undo_stack.push(state);
        self.redo_stack.clear();
        assert(self@.redo =~= Seq::<EditorState>::empty());
    }

    /// Takes the last recorded state, keeping it to redo.
    pub fn undo(&mut self) -> (r: Option<EditorState>)
        ensures
            (r, final(self)@) == undo_spec(old(self)@),
    {
        if let Some(state) = self.undo_stack.pop() {
            self.redo_stack.push(state.clone());
            Some(state)
        } else {
            None
        }
    }

    /// Takes the last undone state, keeping it to undo again.
    pub fn redo(&mut self) -> (r: Option<EditorState>)
        ensures
            (r, final(self)@) == redo_spec(old(self)@),
    {
        if let Some(state) = self.redo_stack.pop() {
            self.undo_stack.push(state.clone());
            Some(state)
        } else {
            None
        }
    }

    /// Undoes or redoes: the cursor moves to the state's position, clamped to the text as it
    /// stands, and the text becomes the state's.
    pub fn on_action(
        &mut self,
        action: crate::action::EditorHistoryAction,
        cursor: &mut EditorCursor,
        code: &mut EditorCodeBuffer,
        mode: &EditorMode,
    )
        requires
            old(code)@.len() > 0,
        ensures
            ({
                let step = match action {
                    crate::action::EditorHistoryAction::Undo => undo_spec(old(self)@),
                    crate::action::EditorHistoryAction::Redo => redo_spec(old(self)@),
                };
                &&& final(self)@ == step.1
                &&& match step.0 {
                    None => final(code)@ == old(code)@ && final(cursor)@ == old(cursor)@,
                    Some(state) => {
                        &&& final(code)@ == lines_of(state.code@)
                        &&& final(cursor)@.y == clamp_y_spec(state.cursor.y as int, old(code)@.len() as int)
                        &&& final(cursor)@.x == clamp_x_spec(state.cursor.x as int, old(code)@[final(cursor)@.y as int].len() as int, *mode)
                    },
                }
            }),
    {
        let state = match action {
            crate::action::EditorHistoryAction::Undo => self.undo(),
            crate::action::EditorHistoryAction::Redo => self.redo(),
        };
        if let Some(state) = state {
            cursor.move_to(state.cursor, code, mode);
            code.set_code(state.code);
        }
    }
}

/// Undoing right after recording a state gives that state back.
pub proof fn law_undo_returns_recorded(h: HistoryStacks, state: EditorState)
    ensures
        undo_spec(record_spec(h, state)).0 == Some(state),
{
}

/// Redoing right after an undo gives the undone state back and restores both stacks.
pub proof fn law_redo_reverts_undo(h: HistoryStacks)
    requires
        h.undo.len() > 0,
    ensures
        redo_spec(undo_spec(h).1) == (undo_spec(h).0, h),
{
    assert(h.undo.drop_last().push(h.undo.last()) =~= h.undo);
    assert(h.redo.push(h.undo.last()).drop_last() =~= h.redo);
}

/// Undoing right after a redo gives the redone state back and restores both stacks.
pub proof fn law_undo_reverts_redo(h: HistoryStacks)
    requires
        h.redo.len() > 0,
    ensures
        undo_spec(redo_spec(h).1) == (redo_spec(h).0, h),
{
    assert(h.redo.drop_last().push(h.redo.last()) =~= h.redo);
    assert(h.undo.push(h.redo.last()).drop_last() =~= h.undo);
}

/// Nothing can be redone right after a state is recorded.
pub proof fn law_record_clears_redo(h: HistoryStacks, state: EditorState)
    ensures
        redo_spec(record_spec(h, state)).0 is None,
{
}

} // verus!
