use crate::editor::{Editor, Message};
use vstd::prelude::*;
use vstd::string::StrSliceExecFns;

verus! {

/// A key of the keyboard, as far as the editor tells keys apart.
#[derive(Debug, PartialEq, Eq)]
pub enum Key {
    /// A key that types this text.
    Character(String),
    /// The Control key.
    Control,
    /// Any other key.
    Other,
}

/// A key going down or coming up.
#[derive(Debug, PartialEq, Eq)]
pub enum KeyEvent {
    Pressed(Key),
    Released(Key),
}

/// What the key that types `text` asks for while the control palette is shown.
pub open spec fn shortcut(text: Seq<char>) -> Option<Message> {
    if text == seq!['o'] {
        Some(Message::Open)
    } else if text == seq!['s'] {
        Some(Message::Save)
    } else if text == seq!['a'] {
        Some(Message::SelectAll)
    } else {
        None
    }
}

/// The message that a key event stands for, if any. While the control
/// palette is hidden, Control going down shows it. While it is shown, the
/// editor listens to keys coming up: the shortcuts, and Control, which hides
/// the palette again.
pub open spec fn key_message(palette_shown: bool, event: KeyEvent) -> Option<Message> {
    if palette_shown {
        match event {
            KeyEvent::Released(Key::Character(text)) => shortcut(text@),
            KeyEvent::Released(Key::Control) => Some(Message::ToggleModal(false)),
            _ => None,
        }
    } else {
        match event {
            KeyEvent::Pressed(Key::Control) => Some(Message::ToggleModal(true)),
            _ => None,
        }
    }
}

/// Whether `text` is the one character `letter`.
fn is_letter(text: &str, letter: char) -> (same: bool)
    ensures
        same == (text@ == seq![letter]),
{
    if text.unicode_len() == 1 {
        let same = text.get_char(0) == letter;
        assert(same == (text@ =~= seq![letter]));
        same
    } else {
        false
    }
}

/// The message that a key event stands for, if any, with the control
/// palette shown or hidden.
pub fn message_for(palette_shown: bool, event: &KeyEvent) -> (message: Option<Message>)
    ensures
        message == key_message(palette_shown, *event),
{
    if palette_shown {
        match event {
            KeyEvent::Released(Key::Character(text)) => {
                if is_letter(text.as_str(), 'o') {
                    Some(Message::Open)
                } else if is_letter(text.as_str(), 's') {
                    Some(Message::Save)
                } else if is_letter(text.as_str(), 'a') {
                    Some(Message::SelectAll)
                } else {
                    None
                }
            },
            KeyEvent::Released(Key::Control) => Some(Message::ToggleModal(false)),
            _ => None,
        }
    } else {
        match event {
            KeyEvent::Pressed(Key::Control) => Some(Message::ToggleModal(true)),
            _ => None,
        }
    }
}

impl Editor {
    /// The message that a key event stands for, if any, in the state the
    /// editor is in.
    pub fn subscription(&self, event: &KeyEvent) -> (message: Option<Message>)
        ensures
            message == key_message(self@.show_control_pallet, *event),
    {
        message_for(self.shows_control_pallet(), event)
    }
}

} // verus!
