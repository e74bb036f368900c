use crate::error::{GFEError, IoErrorKind};
use vstd::prelude::*;

verus! {

/// What reading the file at `path` came to: the path and the text, or the
/// reason why the file could not be read.
pub open spec fn loaded(path: Seq<char>, read: Result<String, IoErrorKind>) -> Result<
    (Seq<char>, Seq<char>),
    GFEError,
> {
    match read {
        Ok(text) => Ok((path, text@)),
        Err(kind) => Err(GFEError::IO(kind)),
    }
}

/// What asking the user for a file came to. `choice` is `None` where the
/// user closed the dialog; else it holds the chosen path and what reading
/// that file gave.
pub open spec fn picked(choice: Option<(String, Result<String, IoErrorKind>)>) -> Result<
    (Seq<char>, Seq<char>),
    GFEError,
> {
    match choice {
        None => Err(GFEError::DialogClosed),
        Some((path, read)) => loaded(path@, read),
    }
}

/// A path and a text as sequences of characters.
pub open spec fn opened_view(opened: Result<(String, String), GFEError>) -> Result<
    (Seq<char>, Seq<char>),
    GFEError,
> {
    match opened {
        Ok((path, text)) => Ok((path@, text@)),
        Err(error) => Err(error),
    }
}

/// The outcome of the file dialog and of reading the chosen file, as the
/// editor takes it.
pub fn pick_file(choice: Option<(String, Result<String, IoErrorKind>)>) -> (opened: Result<
    (String, String),
    GFEError,
>)
    ensures
        opened_view(opened) == picked(choice),
{
    match choice {
        None => Err(GFEError::DialogClosed),
        Some((path, read)) => load_file(path, read),
    }
}

/// The outcome of reading the file at `path`, as the editor takes it.
pub fn load_file(path: String, read: Result<String, IoErrorKind>) -> (opened: Result<
    (String, String),
    GFEError,
>)
    ensures
        opened_view(opened) == loaded(path@, read),
{
    match read {
        Ok(text) => Ok((path, text)),
        Err(kind) => Err(GFEError::IO(kind)),
    }
}

/// The outcome of writing a file, as the editor takes it.
pub fn save_file(written: Result<(), IoErrorKind>) -> (saved: Result<(), GFEError>)
    ensures
        saved == match written {
            Ok(()) => Ok::<(), GFEError>(()),
            Err(kind) => Err(GFEError::IO(kind)),
        },
{
    match written {
        Ok(()) => Ok(()),
        Err(kind) => Err(GFEError::IO(kind)),
    }
}

} // verus!
