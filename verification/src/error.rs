use vstd::prelude::*;

verus! {

/// Why reading or writing a file failed.
#[derive(Debug, Clone, Copy, PartialEq, Eq, Structural)]
pub enum IoErrorKind {
    NotFound,
    PermissionDenied,
    AlreadyExists,
    InvalidData,
    Other,
}

/// What can go wrong between the editor and the file system.
#[derive(Debug, Clone, Copy, PartialEq, Eq, Structural)]
pub enum GFEError {
    /// The user closed the file dialog without choosing a file.
    DialogClosed,
    /// The file could not be read or written.
    IO(IoErrorKind),
}

} // verus!
