use crate::action::{select_all, Action, Motion};
use crate::error::GFEError;
use crate::files::opened_view;
use vstd::prelude::*;

verus! {

/// What happened: something the user did, or the outcome of a file request.
#[derive(Debug, PartialEq, Eq)]
pub enum Message {
    /// The user asks for a file to open.
    Open,
    /// A file was read, or could not be: its path and text, or the reason.
    FileOpened(Result<(String, String), GFEError>),
    /// The document was written to its file, or could not be.
    FileSaved(Result<(), GFEError>),
    /// The control palette is to be shown or hidden.
    ToggleModal(bool),
    /// The user asks for the document to be written to its file.
    Save,
    /// The user did something to the document.
    Edit(Action),
    /// The user asks for the whole document to be selected.
    SelectAll,
}

/// What the window has to do after a message.
#[derive(Debug, PartialEq, Eq)]
pub enum Command {
    /// Apply the actions to the document, in this order.
    Perform(Vec<Action>),
    /// Replace the document by one that holds this text.
    SetText(String),
    /// Ask the user for a file and read it; answer with
    /// [`Message::FileOpened`].
    PickFile,
    /// Create an empty file at this path unless there is one, then read it;
    /// answer with [`Message::FileOpened`].
    OpenFile(String),
    /// Write the text of the document to this path; answer with
    /// [`Message::FileSaved`].
    SaveFile(String),
}

/// A [`Command`] with its texts as sequences of characters.
pub enum CommandView {
    Perform(Seq<Action>),
    SetText(Seq<char>),
    PickFile,
    OpenFile(Seq<char>),
    SaveFile(Seq<char>),
}

impl View for Command {
    type V = CommandView;

    open spec fn view(&self) -> CommandView {
        match self {
            Command::Perform(actions) => CommandView::Perform(actions@),
            Command::SetText(text) => CommandView::SetText(text@),
            Command::PickFile => CommandView::PickFile,
            Command::OpenFile(path) => CommandView::OpenFile(path@),
            Command::SaveFile(path) => CommandView::SaveFile(path@),
        }
    }
}

/// The command, if there is one, with its texts as sequences of characters.
pub open spec fn command_view(command: Option<Command>) -> Option<CommandView> {
    match command {
        Some(command) => Some(command@),
        None => None,
    }
}

/// The text that a new document holds before any file is opened.
pub const GREETING: &'static str = "Hewwo, type your text here or open a file. :)";

/// The state of the editor, apart from the document itself.
#[derive(Debug, PartialEq, Eq)]
pub struct Editor {
    path: Option<String>,
    saved: bool,
    show_control_pallet: bool,
    error: Option<GFEError>,
}

/// What an [`Editor`] holds.
pub struct EditorView {
    /// The file that the document is bound to, if any.
    pub path: Option<Seq<char>>,
    /// Whether nothing was edited since the file was last read or written.
    pub saved: bool,
    /// Whether the control palette is shown.
    pub show_control_pallet: bool,
    /// The most recent file error.
    pub error: Option<GFEError>,
}

impl View for Editor {
    type V = EditorView;

    closed spec fn view(&self) -> EditorView {
        EditorView {
            path: match self.path {
                Some(path) => Some(path@),
                None => None,
            },
            saved: self.saved,
            show_control_pallet: self.show_control_pallet,
            error: self.error,
        }
    }
}

impl Message {
    /// Whether the message reports that the document and its file agree
    /// again: a file was read into the document, or the document was written.
    pub open spec fn stores(self) -> bool {
        self matches Message::FileOpened(Ok(_)) || self matches Message::FileSaved(Ok(_))
    }

    /// Whether the message changes the text of the document under the
    /// user's hands.
    pub open spec fn edits(self) -> bool {
        self matches Message::Edit(action) && action.is_edit()
    }
}

impl EditorView {
    /// The editor as it starts: bound to no file, not saved, the control
    /// palette hidden, no error.
    pub open spec fn initial() -> EditorView {
        EditorView { path: None, saved: false, show_control_pallet: false, error: None }
    }

    /// The editor after one message.
    pub open spec fn after(self, message: Message) -> EditorView {
        match message {
            Message::Open => self,
            Message::FileOpened(opened) => match opened_view(opened) {
                Ok((path, _)) => EditorView { path: Some(path), saved: true, error: None, ..self },
                Err(error) => EditorView { error: Some(error), ..self },
            },
            Message::FileSaved(Ok(_)) => EditorView { saved: true, error: None, ..self },
            Message::FileSaved(Err(error)) => EditorView { error: Some(error), ..self },
            Message::ToggleModal(shown) => EditorView { show_control_pallet: shown, ..self },
            Message::Save => self,
            Message::Edit(action) => EditorView { saved: self.saved && !action.is_edit(), ..self },
            Message::SelectAll => self,
        }
    }

    /// What the window has to do after one message, if anything.
    pub open spec fn command_for(self, message: Message) -> Option<CommandView> {
        match message {
            Message::Open => Some(CommandView::PickFile),
            Message::FileOpened(opened) => match opened_view(opened) {
                Ok((_, text)) => Some(CommandView::SetText(text)),
                Err(_) => None,
            },
            Message::FileSaved(_) => None,
            Message::ToggleModal(_) => None,
            Message::Save => match self.path {
                Some(path) => Some(CommandView::SaveFile(path)),
                None => None,
            },
            Message::Edit(action) => Some(CommandView::Perform(seq![action])),
            Message::SelectAll => Some(CommandView::Perform(select_all())),
        }
    }

    /// The editor after a run of messages, first to last.
    pub open spec fn after_all(self, messages: Seq<Message>) -> EditorView
        decreases messages.len(),
    {
        if messages.len() == 0 {
            self
        } else {
            self.after_all(messages.drop_last()).after(messages.last())
        }
    }
}

/// The path named on the command line: the argument behind the program's name.
pub open spec fn named_path(args: Seq<String>) -> Option<Seq<char>> {
    if args.len() > 1 {
        Some(args[1]@)
    } else {
        None
    }
}

impl Editor {
    /// The editor as it starts, and the request that opens the file named on
    /// the command line, if one is named there.
    pub fn new(args: &Vec<String>) -> (start: (Editor, Option<Command>))
        ensures
            start.0@ == EditorView::initial(),
            command_view(start.1) == match named_path(args@) {
                Some(path) => Some(CommandView::OpenFile(path)),
                None => None,
            },
    {
        let command = if args.len() > 1 {
            Some(Command::OpenFile(args[1].clone()))
        } else {
            None
        };
        (Editor { path: None, saved: false, show_control_pallet: false, error: None }, command)
    }

    /// Takes one message in and says what the window has to do next.
    pub fn update(&mut self, message: Message) -> (command: Option<Command>)
        ensures
            final(self)@ == old(self)@.after(message),
            command_view(command) == old(self)@.command_for(message),
    {
        match message {
            Message::Edit(action) => {
                if action.is_edit() {
                    self.saved = false;
                }
                let actions = vec![action];
                assert(actions@ =~= seq![action]);
                Some(Command::Perform(actions))
            },
            Message::Open => Some(Command::PickFile),
            Message::Save => match &self.path {
                Some(path) => Some(Command::SaveFile(path.clone())),
                None => None,
            },
            Message::FileSaved(result) => {
                match result {
                    Ok(_) => {
                        self.saved = true;
                        self.error = None;
                    },
                    Err(error) => {
                        self.error = Some(error);
                    },
                }
                None
            },
            Message::FileOpened(result) => match result {
                Ok((path, text)) => {
                    self.saved = true;
                    self.path = Some(path);
                    self.error = None;
                    Some(Command::SetText(text))
                },
                Err(error) => {
                    self.error = Some(error);
                    None
                },
            },
            Message::SelectAll => {
                let actions = vec![
                    Action::Move(Motion::DocumentStart),
                    Action::Select(Motion::DocumentEnd),
                ];
                assert(actions@ =~= select_all());
                Some(Command::Perform(actions))
            },
            Message::ToggleModal(shown) => {
                self.show_control_pallet = shown;
                None
            },
        }
    }

    /// The file that the document is bound to, if any.
    pub fn path(&self) -> (path: Option<&String>)
        ensures
            match path {
                Some(path) => self@.path == Some(path@),
                None => self@.path is None,
            },
    {
        self.path.as_ref()
    }

    /// Whether nothing was edited since the file was last read or written.
    pub fn is_saved(&self) -> (saved: bool)
        ensures
            saved == self@.saved,
    {
        self.saved
    }

    /// Whether the control palette is shown.
    pub fn shows_control_pallet(&self) -> (shown: bool)
        ensures
            shown == self@.show_control_pallet,
    {
        self.show_control_pallet
    }

    /// The most recent file error.
    pub fn error(&self) -> (error: Option<GFEError>)
        ensures
            error == self@.error,
    {
        self.error
    }
}

/// An edit of the text leaves the document unsaved.
pub proof fn lemma_edit_leaves_unsaved(editor: EditorView, message: Message)
    requires
        message.edits(),
    ensures
        !editor.after(message).saved,
{
}

/// Only the news that a file was read or written makes an unsaved document
/// a saved one.
pub proof fn lemma_saved_only_by_storing(editor: EditorView, message: Message)
    requires
        !editor.saved,
        editor.after(message).saved,
    ensures
        message.stores(),
{
}

/// An unsaved document stays unsaved as long as no message tells that a
/// file was read or written.
pub proof fn lemma_unsaved_without_storing(editor: EditorView, messages: Seq<Message>)
    requires
        !editor.saved,
        forall|i: int| 0 <= i < messages.len() ==> !(#[trigger] messages[i]).stores(),
    ensures
        !editor.after_all(messages).saved,
    decreases messages.len(),
{
    if messages.len() > 0 {
        let earlier = messages.drop_last();
        assert forall|i: int| 0 <= i < earlier.len() implies !(#[trigger] earlier[i]).stores() by {
            assert(earlier[i] == messages[i]);
        }
        lemma_unsaved_without_storing(editor, earlier);
    }
}

/// After an edit of the text the document is unsaved, and it stays so
/// through every run of messages that follows until one of them tells that
/// a file was read or written.
pub proof fn lemma_unsaved_until_stored(
    editor: EditorView,
    edit: Message,
    messages: Seq<Message>,
)
    requires
        edit.edits(),
        forall|i: int| 0 <= i < messages.len() ==> !(#[trigger] messages[i]).stores(),
    ensures
        !editor.after(edit).after_all(messages).saved,
{
    lemma_unsaved_without_storing(editor.after(edit), messages);
}

/// The news that a file was read or written makes the document a saved one.
pub proof fn lemma_storing_saves(editor: EditorView, message: Message)
    requires
        message.stores(),
    ensures
        editor.after(message).saved,
        editor.after(message).error is None,
{
}

/// Asked to save while the document is bound to no file, the editor does
/// nothing: it stays as it is and has nothing done, however often it is asked.
pub proof fn lemma_save_without_path_does_nothing(editor: EditorView)
    requires
        editor.path is None,
    ensures
        editor.after(Message::Save) == editor,
        editor.command_for(Message::Save) is None,
        editor.after(Message::Save).after(Message::Save) == editor,
{
}

/// A file that could not be opened, or a dialog that the user closed, leaves
/// the editor as it was but for the error, which it keeps.
pub proof fn lemma_failed_open_keeps_all_but_error(editor: EditorView, error: GFEError)
    ensures
        editor.after(Message::FileOpened(Err(error))) == (EditorView {
            error: Some(error),
            ..editor
        }),
        editor.command_for(Message::FileOpened(Err(error))) is None,
{
}

/// A file that could not be written leaves the document as unsaved as it was.
pub proof fn lemma_failed_save_keeps_all_but_error(editor: EditorView, error: GFEError)
    ensures
        editor.after(Message::FileSaved(Err(error))) == (EditorView {
            error: Some(error),
            ..editor
        }),
        editor.command_for(Message::FileSaved(Err(error))) is None,
{
}

/// A file that was opened binds the document to its path, and its text
/// becomes the document.
pub proof fn lemma_opened_file_is_bound(editor: EditorView, path: String, text: String)
    ensures
        editor.after(Message::FileOpened(Ok((path, text)))) == (EditorView {
            path: Some(path@),
            saved: true,
            error: None,
            ..editor
        }),
        editor.command_for(Message::FileOpened(Ok((path, text)))) == Some(
            CommandView::SetText(text@),
        ),
{
}

/// Only the news that a file was read binds the document to a file.
pub proof fn lemma_bound_only_by_opening(editor: EditorView, message: Message)
    requires
        editor.path is None,
        editor.after(message).path is Some,
    ensures
        message matches Message::FileOpened(Ok(_)),
{
}

/// A document that is bound to a file stays bound to one, whatever happens.
pub proof fn lemma_bound_stays_bound(editor: EditorView, messages: Seq<Message>)
    requires
        editor.path is Some,
    ensures
        editor.after_all(messages).path is Some,
    decreases messages.len(),
{
    if messages.len() > 0 {
        lemma_bound_stays_bound(editor, messages.drop_last());
    }
}

} // verus!
