use crate::editor::{Editor, EditorView, Message};
use vstd::prelude::*;
use vstd::string::StringExecFns;

verus! {

/// The last component of a path, as `std::path::Path::file_name` gives it
/// for the platform the program is built for; `None` where the path has none,
/// as one that ends in `..` or is empty.
pub uninterp spec fn path_file_name(path: Seq<char>) -> Option<Seq<char>>;

/// `std::path::Path::file_name`, on a path that is text and as text. All
/// that is claimed of the result is that it is [`path_file_name`] of the path.
#[verifier::external_body]
fn file_name(path: &str) -> (name: Option<String>)
    ensures
        match name {
            Some(name) => path_file_name(path@) == Some(name@),
            None => path_file_name(path@) is None,
        },
{
    let name = std::path::Path::new(path).file_name()?;
    Some(name.to_str()?.to_string())
}

/// The title of the window for a document bound to a file of this name, or
/// to no file.
pub open spec fn title_of(name: Option<Seq<char>>) -> Seq<char> {
    match name {
        Some(name) => "GFE - "@ + name,
        None => "GFE"@,
    }
}

/// Whether `needle` occurs in `text` as a run of characters.
pub open spec fn occurs_in(needle: Seq<char>, text: Seq<char>) -> bool {
    exists|start: int|
        0 <= start && start + needle.len() <= text.len() && #[trigger] text.subrange(
            start,
            start + needle.len(),
        ) == needle
}

impl EditorView {
    /// Whether the window has a title: the document is bound to no file, or
    /// to one whose path has a file name.
    pub open spec fn has_title(self) -> bool {
        self.path matches Some(path) ==> path_file_name(path) is Some
    }

    /// The title of the window: the program's name and, where the document
    /// is bound to a file, that file's name.
    pub open spec fn title(self) -> Seq<char> {
        match self.path {
            Some(path) => title_of(path_file_name(path)),
            None => title_of(None),
        }
    }
}

/// The title of the window for a document bound to a file of this name, or
/// to no file.
pub fn window_title(name: Option<&str>) -> (title: String)
    ensures
        title@ == title_of(
            match name {
                Some(name) => Some(name@),
                None => None,
            },
        ),
{
    match name {
        Some(name) => {
            let mut title = String::from_str("GFE - ");
            title.append(name);
            title
        },
        None => String::from_str("GFE"),
    }
}

impl Editor {
    /// The title of the window.
    pub fn title(&self) -> (title: String)
        requires
            self@.has_title(),
        ensures
            title@ == self@.title(),
    {
        let name = match self.path() {
            Some(path) => file_name(path.as_str()),
            None => None,
        };
        match &name {
            Some(name) => window_title(Some(name.as_str())),
            None => window_title(None),
        }
    }

    /// The title of the window, or `None` where the document is bound to a
    /// path that has no file name.
    pub fn checked_title(&self) -> (title: Option<String>)
        ensures
            match title {
                Some(title) => self@.has_title() && title@ == self@.title(),
                None => !self@.has_title(),
            },
    {
        let titled = match self.path() {
            Some(path) => file_name(path.as_str()).is_some(),
            None => true,
        };
        if titled {
            Some(self.title())
        } else {
            None
        }
    }
}

/// The title of a document bound to a file shows the name of that file.
pub proof fn lemma_title_shows_file_name(name: Seq<char>)
    ensures
        occurs_in(name, title_of(Some(name))),
{
    let title = title_of(Some(name));
    let start = "GFE - "@.len() as int;
    assert(title.subrange(start, start + name.len()) == name);
}

/// Once a file is opened, the title of the window shows the name of that
/// file.
pub proof fn lemma_title_shows_opened_file(editor: EditorView, path: String, text: String)
    ensures
        path_file_name(path@) matches Some(name) ==> {
            &&& editor.after(Message::FileOpened(Ok((path, text)))).has_title()
            &&& occurs_in(name, editor.after(Message::FileOpened(Ok((path, text)))).title())
        },
{
    if let Some(name) = path_file_name(path@) {
        lemma_title_shows_file_name(name);
    }
}

} // verus!
