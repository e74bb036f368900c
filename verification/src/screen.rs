use crate::decimal::{decimal, to_decimal};
use crate::editor::{Editor, EditorView};
use vstd::prelude::*;
use vstd::string::StringExecFns;

verus! {

/// The radius of the mark that tells of edits not yet saved.
pub const UNSAVED_MARK_RADIUS: u16 = 10;

/// The room left between that mark and the path beside it.
pub const UNSAVED_MARK_GAP: u16 = 6;

/// What the window shows around the text.
#[derive(Debug, PartialEq, Eq)]
pub struct Screen {
    /// The radius of the mark in the status line: nothing is drawn where
    /// it is 0.
    pub mark_radius: u16,
    /// The room to the right of the mark.
    pub mark_gap: u16,
    /// The path in the status line.
    pub path: String,
    /// The place of the cursor in the status line.
    pub cursor: String,
    /// Whether the control palette lies over the text.
    pub show_control_pallet: bool,
}

/// A [`Screen`] with its texts as sequences of characters.
pub struct ScreenView {
    pub mark_radius: u16,
    pub mark_gap: u16,
    pub path: Seq<char>,
    pub cursor: Seq<char>,
    pub show_control_pallet: bool,
}

impl View for Screen {
    type V = ScreenView;

    open spec fn view(&self) -> ScreenView {
        ScreenView {
            mark_radius: self.mark_radius,
            mark_gap: self.mark_gap,
            path: self.path@,
            cursor: self.cursor@,
            show_control_pallet: self.show_control_pallet,
        }
    }
}

/// The place of the cursor as the status line shows it: line and column,
/// both counted from 1, with a colon between them.
pub open spec fn cursor_label(line: nat, column: nat) -> Seq<char> {
    decimal(line + 1) + seq![':'] + decimal(column + 1)
}

impl EditorView {
    /// What the window shows around the text while the cursor stands at
    /// `line` and `column`, both counted from 0.
    pub open spec fn screen(self, line: nat, column: nat) -> ScreenView {
        ScreenView {
            mark_radius: if self.saved {
                0
            } else {
                UNSAVED_MARK_RADIUS
            },
            mark_gap: if self.saved {
                0
            } else {
                UNSAVED_MARK_GAP
            },
            path: match self.path {
                Some(path) => path,
                None => Seq::empty(),
            },
            cursor: cursor_label(line, column),
            show_control_pallet: self.show_control_pallet,
        }
    }
}

/// Writes the place of the cursor for the status line.
pub fn cursor_text(line: usize, column: usize) -> (text: String)
    ensures
        text@ == cursor_label(line as nat, column as nat),
{
    proof {
        reveal_strlit(":");
    }
    let mut text = to_decimal(line as u128 + 1);
    text.append(":");
    let column_text = to_decimal(column as u128 + 1);
    text.append(column_text.as_str());
    assert(text@ =~= cursor_label(line as nat, column as nat));
    text
}

impl Editor {
    /// What the window shows around the text while the cursor stands at
    /// the line and column of `cursor`, both counted from 0.
    pub fn screen(&self, cursor: (usize, usize)) -> (screen: Screen)
        ensures
            screen@ == self@.screen(cursor.0 as nat, cursor.1 as nat),
    {
        let saved = self.is_saved();
        Screen {
            mark_radius: if saved {
                0
            } else {
                UNSAVED_MARK_RADIUS
            },
            mark_gap: if saved {
                0
            } else {
                UNSAVED_MARK_GAP
            },
            path: match self.path() {
                Some(path) => path.clone(),
                None => String::new(),
            },
            cursor: cursor_text(cursor.0, cursor.1),
            show_control_pallet: self.shows_control_pallet(),
        }
    }
}

} // verus!
