use vstd::prelude::*;

verus! {

/// A movement of the cursor.
#[derive(Debug, Clone, Copy, PartialEq, Eq, Structural)]
pub enum Motion {
    Left,
    Right,
    Up,
    Down,
    WordLeft,
    WordRight,
    Home,
    End,
    PageUp,
    PageDown,
    DocumentStart,
    DocumentEnd,
}

/// A change to the text of the document.
#[derive(Debug, PartialEq, Eq)]
pub enum Edit {
    /// Type one character.
    Insert(char),
    /// Insert a text at once.
    Paste(String),
    /// Break the line at the cursor.
    Enter,
    /// Delete the character before the cursor.
    Backspace,
    /// Delete the character after the cursor.
    Delete,
}

/// Something the user does to the document.
#[derive(Debug, PartialEq, Eq)]
pub enum Action {
    /// Move the cursor and drop the selection.
    Move(Motion),
    /// Move the cursor and select what it passes.
    Select(Motion),
    /// Select the word at the cursor.
    SelectWord,
    /// Select the line at the cursor.
    SelectLine,
    /// Change the text.
    Edit(Edit),
    /// Put the cursor where the pointer was pressed, in whole pixels.
    Click { x: i32, y: i32 },
    /// Select up to where the pointer was dragged, in whole pixels.
    Drag { x: i32, y: i32 },
    /// Scroll the text by a number of lines.
    Scroll { lines: i32 },
}

impl Action {
    /// Whether the action changes the text. All the others leave it as it is.
    pub open spec fn spec_is_edit(&self) -> bool {
        self is Edit
    }

    #[verifier::when_used_as_spec(spec_is_edit)]
    pub fn is_edit(&self) -> (edit: bool)
        ensures
            edit == self.spec_is_edit(),
    {
        match self {
            Action::Edit(_) => true,
            _ => false,
        }
    }
}

/// The two actions that select the whole document: a move to its start, then
/// a selection from there to its end.
pub open spec fn select_all() -> Seq<Action> {
    seq![Action::Move(Motion::DocumentStart), Action::Select(Motion::DocumentEnd)]
}

} // verus!
