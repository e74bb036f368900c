//! The state of a small desktop text editor, apart from its window.
//!
//! The editor keeps the path of the file its document is bound to, a flag
//! that tells whether the document was edited since the file was last read
//! or written, the visibility of the control palette and the most recent
//! file error. [`editor::Editor::update`] takes one message at a time and
//! answers with what the window has to do next: change the document, or
//! carry out a file request whose outcome comes back as another message.
//!
//! [`signup::App`] is the state of a sign-up form shown in a modal overlay.

pub mod action;
pub mod decimal;
pub mod editor;
pub mod error;
pub mod files;
pub mod keys;
pub mod screen;
pub mod signup;
pub mod style;
pub mod title;
