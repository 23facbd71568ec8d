use vstd::prelude::*;

verus! {

/// The extension of the file name of `path`, as std's `Path::extension` gives it.
pub uninterp spec fn extension_of(path: Seq<char>) -> Option<Seq<char>>;

/// Relies on std's `Path::extension`: the part of the file name after its last
/// dot, if there is one; a path read from a `str` gives an extension in UTF-8.
#[verifier::external_body]
fn path_extension(path: &str) -> (r: Option<String>)
    ensures
        opt_view(r) == extension_of(path@),
{
    match std::path::Path::new(path).extension() {
        Some(e) => Some(e.to_string_lossy().into_owned()),
        None => None,
    }
}

/// The highlighting mode for a document at `path`: its extension, else plain text.
pub open spec fn highlight_mode(path: Option<Seq<char>>) -> Seq<char> {
    match path {
        Some(p) => match extension_of(p) {
            Some(e) => e,
            None => "txt"@,
        },
        None => "txt"@,
    }
}

/// The highlighting mode for a document at `path`: its extension, else "txt".
pub fn highlight_extension(path: &Option<String>) -> (r: String)
    ensures
        r@ == highlight_mode(opt_view(*path)),
{
    let ext = match path {
        Some(p) => path_extension(p.as_str()),
        None => None,
    };
    match ext {
        Some(e) => e,
        None => "txt".to_owned(),
    }
}

/// What kind of action the text editor performed.
#[derive(Debug, Clone, Copy, PartialEq, Eq, Structural)]
pub enum ActionKind {
    /// The cursor moved.
    Move,
    /// The selection was extended by a motion.
    Select,
    /// The word at the cursor was selected.
    SelectWord,
    /// The line at the cursor was selected.
    SelectLine,
    /// Text was inserted, pasted or deleted, or a line was broken.
    Edit,
    /// The editor was clicked.
    Click,
    /// The mouse was dragged over the editor.
    Drag,
    /// The editor was scrolled.
    Scroll,
}

impl ActionKind {
    /// Whether the action changes the text rather than the cursor, the selection
    /// or the view.
    pub fn is_edit(&self) -> (r: bool)
        ensures
            r == (*self is Edit),
    {
        match self {
            ActionKind::Edit => true,
            _ => false,
        }
    }
}

/// The category of an operating-system I/O failure.
#[derive(Debug, Clone, Copy, PartialEq, Eq, Structural)]
pub enum IoErrorKind {
    NotFound,
    PermissionDenied,
    ConnectionRefused,
    ConnectionReset,
    HostUnreachable,
    NetworkUnreachable,
    ConnectionAborted,
    NotConnected,
    AddrInUse,
    AddrNotAvailable,
    NetworkDown,
    BrokenPipe,
    AlreadyExists,
    WouldBlock,
    NotADirectory,
    IsADirectory,
    DirectoryNotEmpty,
    ReadOnlyFilesystem,
    StaleNetworkFileHandle,
    InvalidInput,
    InvalidData,
    TimedOut,
    WriteZero,
    StorageFull,
    NotSeekable,
    QuotaExceeded,
    FileTooLarge,
    ResourceBusy,
    ExecutableFileBusy,
    Deadlock,
    CrossesDevices,
    TooManyLinks,
    InvalidFilename,
    ArgumentListTooLong,
    Interrupted,
    Unsupported,
    UnexpectedEof,
    OutOfMemory,
    Other,
    /// A category that this list does not name.
    Uncategorized,
}

/// Why a file operation did not complete.
#[derive(Debug, Clone, Copy, PartialEq, Eq, Structural)]
pub enum DocError {
    /// The file dialog was dismissed without a selection.
    DialogClosed,
    /// Reading or writing the file failed.
    IoFailed(IoErrorKind),
}

/// The colour scheme used to highlight the buffer; it has no effect on the text.
#[derive(Debug, Clone, Copy, PartialEq, Eq, Structural)]
pub enum HighlightTheme {
    SolarizedDark,
    Base16Mocha,
    Base16Ocean,
    Base16Eighties,
    InspiredGitHub,
}

/// The mathematical state of a document.
pub struct DocView {
    pub path: Option<Seq<char>>,
    pub content: Seq<char>,
    pub is_dirty: bool,
    pub theme: HighlightTheme,
    pub error: Option<DocError>,
}

impl DocView {
    /// A fresh document: empty buffer, no path; the dirty flag and the rest are kept.
    pub open spec fn cleared(self) -> DocView {
        DocView { path: None, content: Seq::empty(), ..self }
    }

    /// The buffer now reads `text`; a change of content marks the document dirty.
    pub open spec fn edited(self, changes_content: bool, text: Seq<char>) -> DocView {
        DocView { content: text, is_dirty: self.is_dirty || changes_content, ..self }
    }

    /// The file at `path` was read and holds `text`.
    pub open spec fn opened(self, path: Seq<char>, text: Seq<char>) -> DocView {
        DocView { path: Some(path), content: text, is_dirty: false, ..self }
    }

    /// The buffer was written to `path`.
    pub open spec fn saved(self, path: Seq<char>) -> DocView {
        DocView { path: Some(path), is_dirty: false, ..self }
    }

    /// An operation failed with `e`; only the error is recorded.
    pub open spec fn failed(self, e: DocError) -> DocView {
        DocView { error: Some(e), ..self }
    }

    /// The highlighting theme is now `theme`.
    pub open spec fn themed(self, theme: HighlightTheme) -> DocView {
        DocView { theme, ..self }
    }
}

/// What the event loop must do next on behalf of the document.
pub enum Command {
    /// Nothing.
    Idle,
    /// Ask the user for a file, read it, and report `Message::DocOpened`.
    PickAndLoad,
    /// Ask the user for a destination, and report `Message::SaveDestination` with `text`.
    PromptSavePath { text: String },
    /// Write `text` verbatim to `path`, and report `Message::DocSaved`.
    WriteFile { path: String, text: String },
}

/// An event handed to the document.
pub enum Message {
    ThemeSelected(HighlightTheme),
    NewDoc,
    /// The editor performed an action; `text` is the buffer afterwards.
    DocEdit { action: ActionKind, text: String },
    OpenDoc,
    /// The outcome of a pick-and-load: the chosen path and the file's text.
    DocOpened(Result<(String, String), DocError>),
    SaveDoc,
    /// The outcome of a save dialog for the buffer `text` captured at the request.
    SaveDestination { choice: Option<String>, text: String },
    /// The outcome of a write: the path written to.
    DocSaved(Result<String, DocError>),
}

/// A single open document.
pub struct Document {
    pub theme: HighlightTheme,
    pub path: Option<String>,
    pub content: String,
    pub is_dirty: bool,
    pub error: Option<DocError>,
}

pub open spec fn opt_view(p: Option<String>) -> Option<Seq<char>> {
    match p {
        Some(s) => Some(s@),
        None => None,
    }
}

/// Whether `c` is exactly the first step of a save of `text` to `path`.
pub open spec fn is_save_start(c: Command, path: Option<Seq<char>>, text: Seq<char>) -> bool {
    match path {
        Some(p) => match c {
            Command::WriteFile { path: w, text: t } => w@ == p && t@ == text,
            _ => false,
        },
        None => match c {
            Command::PromptSavePath { text: t } => t@ == text,
            _ => false,
        },
    }
}

/// Whether `c` is exactly what follows a save dialog that returned `choice` for `text`.
pub open spec fn is_after_prompt(c: Command, choice: Option<Seq<char>>, text: Seq<char>) -> bool {
    match choice {
        Some(p) => match c {
            Command::WriteFile { path: w, text: t } => w@ == p && t@ == text,
            _ => false,
        },
        None => c is Idle,
    }
}

impl Document {
    pub open spec fn view(&self) -> DocView {
        DocView {
            path: opt_view(self.path),
            content: self.content@,
            is_dirty: self.is_dirty,
            theme: self.theme,
            error: self.error,
        }
    }

    /// The document the editor starts with.
    pub fn new() -> (r: Document)
        ensures
            r.view().path is None,
            r.view().content.len() == 0,
            r.view().is_dirty,
            r.view().theme == HighlightTheme::SolarizedDark,
            r.view().error is None,
    {
        Document {
            theme: HighlightTheme::SolarizedDark,
            path: None,
            content: String::new(),
            is_dirty: true,
            error: None,
        }
    }

    pub fn title(&self) -> (r: &'static str)
        ensures
            r@ == "CryptoDoc Document Viewer"@,
    {
        "CryptoDoc Document Viewer"
    }

    /// Clears the path and the buffer, whatever they held.
    pub fn new_doc(&mut self)
        ensures
            final(self).view() == old(self).view().cleared(),
    {
        self.path = None;
        self.content = String::new();
    }

    /// Records an editor action whose result is `text`.
    pub fn apply_edit(&mut self, changes_content: bool, text: String)
        ensures
            final(self).view() == old(self).view().edited(changes_content, text@),
    {
        self.is_dirty = self.is_dirty || changes_content;
        self.content = text;
    }

    /// Records the editor's `action`, after which the buffer reads `text`; says
    /// whether the action changed the content.
    pub fn edit(&mut self, action: &ActionKind, text: String) -> (changed: bool)
        ensures
            changed == (*action is Edit),
            final(self).view() == old(self).view().edited(*action is Edit, text@),
    {
        let changed = action.is_edit();
        self.apply_edit(changed, text);
        changed
    }

    /// The highlighting mode for the current path.
    pub fn highlight_mode(&self) -> (r: String)
        ensures
            r@ == highlight_mode(self.view().path),
    {
        highlight_extension(&self.path)
    }

    /// Records the outcome of a pick-and-load.
    pub fn finish_open(&mut self, outcome: Result<(String, String), DocError>)
        ensures
            match outcome {
                Ok((p, t)) => final(self).view() == old(self).view().opened(p@, t@),
                Err(e) => final(self).view() == old(self).view().failed(e),
            },
    {
        match outcome {
            Ok((p, t)) => {
                self.path = Some(p);
                self.content = t;
                self.is_dirty = false;
            },
            Err(e) => {
                self.error = Some(e);
            },
        }
    }

    /// The first step of saving: write to the known path, or ask for one first.
    pub fn begin_save(&self) -> (r: Command)
        ensures
            is_save_start(r, self.view().path, self.view().content),
    {
        let text = self.content.clone();
        match &self.path {
            Some(p) => Command::WriteFile { path: p.clone(), text },
            None => Command::PromptSavePath { text },
        }
    }

    /// What follows a save dialog: a write to the chosen path, or, when the dialog
    /// was dismissed, no write and a recorded error.
    pub fn finish_prompt(&mut self, choice: Option<String>, text: String) -> (r: Command)
        ensures
            is_after_prompt(r, opt_view(choice), text@),
            choice is None ==> final(self).view() == old(self).view().failed(DocError::DialogClosed),
            choice is Some ==> final(self).view() == old(self).view(),
    {
        match choice {
            Some(p) => Command::WriteFile { path: p, text },
            None => {
                self.error = Some(DocError::DialogClosed);
                Command::Idle
            },
        }
    }

    /// Records the outcome of a write.
    pub fn finish_save(&mut self, outcome: Result<String, DocError>)
        ensures
            match outcome {
                Ok(p) => final(self).view() == old(self).view().saved(p@),
                Err(e) => final(self).view() == old(self).view().failed(e),
            },
    {
        match outcome {
            Ok(p) => {
                self.path = Some(p);
                self.is_dirty = false;
            },
            Err(e) => {
                self.error = Some(e);
            },
        }
    }

    pub fn select_theme(&mut self, theme: HighlightTheme)
        ensures
            final(self).view() == old(self).view().themed(theme),
    {
        self.theme = theme;
    }

    /// Handles one event and says what the event loop must do next.
    pub fn update(&mut self, message: Message) -> (r: Command)
        ensures
            match message {
                Message::ThemeSelected(t) => final(self).view() == old(self).view().themed(t)
                    && r is Idle,
                Message::NewDoc => final(self).view() == old(self).view().cleared() && r is Idle,
                Message::DocEdit { action, text } => final(self).view() == old(
                    self,
                ).view().edited(action is Edit, text@) && r is Idle,
                Message::OpenDoc => final(self).view() == old(self).view() && r is PickAndLoad,
                Message::DocOpened(Ok((p, t))) => final(self).view() == old(self).view().opened(
                    p@,
                    t@,
                ) && r is Idle,
                Message::DocOpened(Err(e)) => final(self).view() == old(self).view().failed(e)
                    && r is Idle,
                Message::SaveDoc => final(self).view() == old(self).view() && is_save_start(
                    r,
                    old(self).view().path,
                    old(self).view().content,
                ),
                Message::SaveDestination { choice, text } => is_after_prompt(
                    r,
                    opt_view(choice),
                    text@,
                ) && (choice is None ==> final(self).view() == old(self).view().failed(
                    DocError::DialogClosed,
                )) && (choice is Some ==> final(self).view() == old(self).view()),
                Message::DocSaved(Ok(p)) => final(self).view() == old(self).view().saved(p@)
                    && r is Idle,
                Message::DocSaved(Err(e)) => final(self).view() == old(self).view().failed(e)
                    && r is Idle,
            },
    {
        match message {
            Message::ThemeSelected(t) => {
                self.select_theme(t);
                Command::Idle
            },
            Message::NewDoc => {
                self.new_doc();
                Command::Idle
            },
            Message::DocEdit { action, text } => {
                self.edit(&action, text);
                Command::Idle
            },
            Message::OpenDoc => Command::PickAndLoad,
            Message::DocOpened(outcome) => {
                self.finish_open(outcome);
                Command::Idle
            },
            Message::SaveDoc => self.begin_save(),
            Message::SaveDestination { choice, text } => self.finish_prompt(choice, text),
            Message::DocSaved(outcome) => {
                self.finish_save(outcome);
                Command::Idle
            },
        }
    }
}

/// Starting a new document gives an empty buffer and no path, from any state.
pub proof fn lemma_new_doc_is_empty(s: DocView)
    ensures
        s.cleared().content.len() == 0,
        s.cleared().path is None,
{
}

/// After a successful open of a file at `path` holding `text`, the buffer is `text`,
/// the path is `path` and the document is clean.
pub proof fn lemma_open_loads(s: DocView, path: Seq<char>, text: Seq<char>)
    ensures
        s.opened(path, text).content == text,
        s.opened(path, text).path == Some(path),
        !s.opened(path, text).is_dirty,
{
}

/// An edit that changes the content makes the document dirty, and every event but a
/// successful open or save keeps a dirty document dirty.
pub proof fn lemma_dirty_until_written(
    s: DocView,
    text: Seq<char>,
    changes_content: bool,
    e: DocError,
    theme: HighlightTheme,
)
    ensures
        s.edited(true, text).is_dirty,
        s.is_dirty ==> s.edited(changes_content, text).is_dirty,
        s.is_dirty ==> s.cleared().is_dirty,
        s.is_dirty ==> s.failed(e).is_dirty,
        s.is_dirty ==> s.themed(theme).is_dirty,
{
}

/// After a successful save to `path`, the document is clean and its path is `path`.
pub proof fn lemma_save_cleans(s: DocView, path: Seq<char>)
    ensures
        !s.saved(path).is_dirty,
        s.saved(path).path == Some(path),
{
}

/// Saving a document without a path asks for a destination before anything is
/// written; when that dialog is dismissed nothing is written and the path, the
/// buffer and the dirty flag stay as they were.
pub proof fn lemma_save_prompts_first(s: DocView, first: Command, after: Command, text: Seq<char>)
    requires
        s.path is None,
        is_save_start(first, s.path, s.content),
        is_after_prompt(after, None, text),
    ensures
        first is PromptSavePath,
        !(first is WriteFile),
        !(after is WriteFile),
        s.failed(DocError::DialogClosed).path == s.path,
        s.failed(DocError::DialogClosed).content == s.content,
        s.failed(DocError::DialogClosed).is_dirty == s.is_dirty,
{
}

} // verus!
