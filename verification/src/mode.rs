use vstd::prelude::*;

use crate::vec2::UVec2;

verus! {

/// The mode of the editor. In visual mode `start` is where the selection began.
#[derive(Clone, Copy, Debug, PartialEq, Eq, Structural, Hash)]
pub enum EditorMode {
    Normal,
    Visual { start: UVec2 },
    Command,
    Insert { append: bool },
}

impl EditorMode {
    /// The mode an editor starts in.
    pub fn default_mode() -> (r: Self)
        ensures
            r == EditorMode::Normal,
    {
        EditorMode::Normal
    }

    /// The name of the mode as the status line shows it.
    pub fn label(&self) -> (r: &'static str)
        ensures
            r@ == mode_label(*self),
    {
        match self {
            EditorMode::Normal => "NORMAL",
            EditorMode::Visual { .. } => "VISUAL",
            EditorMode::Command => "COMMAND",
            EditorMode::Insert { append } => if *append {
                "INSERT (APPEND)"
            } else {
                "INSERT"
            },
        }
    }
}

/// The name of each mode.
pub open spec fn mode_label(mode: EditorMode) -> Seq<char> {
    match mode {
        EditorMode::Normal => "NORMAL"@,
        EditorMode::Visual { .. } => "VISUAL"@,
        EditorMode::Command => "COMMAND"@,
        EditorMode::Insert { append } => if append {
            "INSERT (APPEND)"@
        } else {
            "INSERT"@
        },
    }
}

} // verus!
