//! The editor model and the message reducer: the Model-View-Update state
//! machine at the heart of the editor.

use vstd::prelude::*;

use crate::buffer::{
    spec_apply, spec_is_content_edit, ActionV, BufferV, EditAction, TextBuffer,
};
use crate::error::EditorError;
use crate::strutil::opt_str_view;
use crate::theme::HighlightTheme;

verus! {

/// The editor state: current path (absent for an unsaved document), the
/// editable text buffer, the last user-visible error, the selected
/// highlighter theme, and the dirty flag.
#[derive(Debug)]
pub struct EditorModel {
    pub path: Option<String>,
    pub content: TextBuffer,
    pub error: Option<EditorError>,
    pub theme: HighlightTheme,
    pub is_dirty: bool,
}

/// Mathematical model of an `EditorModel`.
#[verifier::ext_equal]
pub struct ModelV {
    pub path: Option<Seq<char>>,
    pub buffer: BufferV,
    pub error: Option<EditorError>,
    pub theme: HighlightTheme,
    pub dirty: bool,
}

impl ModelV {
    pub open spec fn wf(self) -> bool {
        self.buffer.wf()
    }
}

impl View for EditorModel {
    type V = ModelV;

    open spec fn view(&self) -> ModelV {
        ModelV {
            path: opt_str_view(self.path),
            buffer: self.content@,
            error: self.error,
            theme: self.theme,
            dirty: self.is_dirty,
        }
    }
}

/// A message: one user input or one completion of an asynchronous command,
/// applied to the model by the reducer.
#[derive(Debug)]
pub enum Message {
    /// One action of the text-editor widget.
    Edit(EditAction),
    /// Start an empty, unsaved document.
    New,
    /// Ask for a file to open.
    Open,
    /// Persist the buffer.
    Save,
    /// A load finished: the path and the text read, or the error.
    FileOpened(Result<(String, String), EditorError>),
    /// A save finished: the path written to, or the error.
    FileSaved(Result<String, EditorError>),
    /// The user picked a highlighter theme.
    ThemeSelected(HighlightTheme),
}

/// Mathematical model of a `Message`.
pub enum MsgV {
    Edit(ActionV),
    New,
    Open,
    Save,
    FileOpened(Result<(Seq<char>, Seq<char>), EditorError>),
    FileSaved(Result<Seq<char>, EditorError>),
    ThemeSelected(HighlightTheme),
}

impl View for Message {
    type V = MsgV;

    open spec fn view(&self) -> MsgV {
        match self {
            Message::Edit(a) => MsgV::Edit(a@),
            Message::New => MsgV::New,
            Message::Open => MsgV::Open,
            Message::Save => MsgV::Save,
            Message::FileOpened(Result::Ok((p, s))) => MsgV::FileOpened(
                Result::Ok((p@, s@)),
            ),
            Message::FileOpened(Result::Err(e)) => MsgV::FileOpened(Result::Err(*e)),
            Message::FileSaved(Result::Ok(p)) => MsgV::FileSaved(Result::Ok(p@)),
            Message::FileSaved(Result::Err(e)) => MsgV::FileSaved(Result::Err(*e)),
            Message::ThemeSelected(t) => MsgV::ThemeSelected(*t),
        }
    }
}

/// A descriptor of an asynchronous side effect. The shell runs it off the
/// update loop and enqueues its completion as a `FileOpened` or `FileSaved`
/// message.
#[derive(Debug, PartialEq, Eq)]
pub enum Command {
    /// Read the file at `path`.
    Load { path: String },
    /// Prompt for a file, then read it; a dismissed dialog completes as
    /// `FileOpened(Err(DialogClosed))`.
    PickOpen,
    /// Write `text` to `path`.
    Write { path: String, text: String },
    /// Prompt for a destination, then write `text` to it; a dismissed dialog
    /// completes as `FileSaved(Err(DialogClosed))`.
    PickSaveThenWrite { text: String },
}

/// Mathematical model of a `Command`.
pub enum CmdV {
    Load { path: Seq<char> },
    PickOpen,
    Write { path: Seq<char>, text: Seq<char> },
    PickSaveThenWrite { text: Seq<char> },
}

impl View for Command {
    type V = CmdV;

    open spec fn view(&self) -> CmdV {
        match self {
            Command::Load { path } => CmdV::Load { path: path@ },
            Command::PickOpen => CmdV::PickOpen,
            Command::Write { path, text } => CmdV::Write { path: path@, text: text@ },
            Command::PickSaveThenWrite { text } => CmdV::PickSaveThenWrite { text: text@ },
        }
    }
}

/// The model after one message.
///
/// Every clause of the reducer in one place: edits go to the buffer and a
/// content edit dirties and clears the error; `New` unbinds the path,
/// empties the buffer and dirties; a successful load or save binds the
/// path, marks the model clean and clears the error; a dismissed dialog
/// changes nothing; a failed load or save stores the error; selecting a
/// theme stores it. A `FileSaved(Ok)` arriving after later edits still
/// marks the model clean: dirty is read relative to the snapshot captured
/// when the save was issued.
pub open spec fn spec_step(m: ModelV, g: MsgV) -> ModelV {
    match g {
        MsgV::Edit(a) => ModelV {
            path: m.path,
            buffer: spec_apply(m.buffer, a),
            error: Option::None,
            theme: m.theme,
            dirty: m.dirty || spec_is_content_edit(a),
        },
        MsgV::New => ModelV {
            path: Option::None,
            buffer: BufferV { text: Seq::empty(), cursor: 0 },
            error: m.error,
            theme: m.theme,
            dirty: true,
        },
        MsgV::Open => m,
        MsgV::Save => m,
        MsgV::FileOpened(Result::Ok((p, s))) => ModelV {
            path: Option::Some(p),
            buffer: BufferV { text: s, cursor: 0 },
            error: Option::None,
            theme: m.theme,
            dirty: false,
        },
        MsgV::FileOpened(Result::Err(EditorError::DialogClosed)) => m,
        MsgV::FileOpened(Result::Err(EditorError::IoFailed(k))) => ModelV {
            path: m.path,
            buffer: m.buffer,
            error: Option::Some(EditorError::IoFailed(k)),
            theme: m.theme,
            dirty: m.dirty,
        },
        MsgV::FileSaved(Result::Ok(p)) => ModelV {
            path: Option::Some(p),
            buffer: m.buffer,
            error: Option::None,
            theme: m.theme,
            dirty: false,
        },
        MsgV::FileSaved(Result::Err(EditorError::DialogClosed)) => m,
        MsgV::FileSaved(Result::Err(EditorError::IoFailed(k))) => ModelV {
            path: m.path,
            buffer: m.buffer,
            error: Option::Some(EditorError::IoFailed(k)),
            theme: m.theme,
            dirty: m.dirty,
        },
        MsgV::ThemeSelected(t) => ModelV {
            path: m.path,
            buffer: m.buffer,
            error: m.error,
            theme: t,
            dirty: m.dirty,
        },
    }
}

/// The command one message gives rise to. Only `Open` and `Save` start
/// asynchronous work: `Open` prompts for a file and loads it; `Save` writes
/// straight to the bound path, or prompts for a destination first when none
/// is bound.
pub open spec fn spec_command(m: ModelV, g: MsgV) -> Option<CmdV> {
    match g {
        MsgV::Open => Option::Some(CmdV::PickOpen),
        MsgV::Save => match m.path {
            Option::Some(p) => Option::Some(CmdV::Write { path: p, text: m.buffer.text }),
            Option::None => Option::Some(CmdV::PickSaveThenWrite { text: m.buffer.text }),
        },
        _ => Option::None,
    }
}

/// Whether the command the reducer returned is the one `spec_command` asks
/// for.
pub open spec fn cmd_matches(c: Option<Command>, v: Option<CmdV>) -> bool {
    match c {
        Option::Some(c0) => v == Option::Some(c0@),
        Option::None => v is None,
    }
}

/// The developer-provided default path whose load is dispatched at startup.
pub fn default_file() -> (r: String)
    ensures
        r@ == "src/main.rs"@,
{
    "src/main.rs".to_owned()
}

/// The window title.
pub fn window_title() -> (r: String)
    ensures
        r@ == "Editor"@,
{
    "Editor".to_owned()
}

/// The model at startup.
pub open spec fn spec_init() -> ModelV {
    ModelV {
        path: Option::None,
        buffer: BufferV { text: Seq::empty(), cursor: 0 },
        error: Option::None,
        theme: HighlightTheme::SolarizedDark,
        dirty: false,
    }
}

impl EditorModel {
    /// The model at startup — no path, empty content, no error, the default
    /// dark theme, clean — with the command that loads the default file.
    pub fn new() -> (r: (EditorModel, Command))
        ensures
            r.0@.wf(),
            r.0@ =~= spec_init(),
            r.1@ == (CmdV::Load { path: "src/main.rs"@ }),
    {
        let model = EditorModel {
            path: Option::None,
            content: TextBuffer::new(),
            error: Option::None,
            theme: HighlightTheme::default_theme(),
            is_dirty: false,
        };
        let cmd = Command::Load { path: default_file() };
        (model, cmd)
    }

    /// Applies one message to the model and returns the asynchronous command
    /// it gives rise to, if any. The whole transition is pinned to
    /// `spec_step` and `spec_command`.
    pub fn update(&mut self, msg: Message) -> (cmd: Option<Command>)
        requires
            old(self)@.wf(),
        ensures
            final(self)@.wf(),
            final(self)@ =~= spec_step(old(self)@, msg@),
            cmd_matches(cmd, spec_command(old(self)@, msg@)),
    {
        match msg {
            Message::Edit(a) => {
                self.content.apply(&a);
                if a.is_content_edit() {
                    self.is_dirty = true;
                }
                self.error = Option::None;
                Option::None
            },
            Message::New => {
                self.path = Option::None;
                self.content = TextBuffer::new();
                self.is_dirty = true;
                Option::None
            },
            Message::Open => Option::Some(Command::PickOpen),
            Message::Save => {
                let text = self.content.text();
                match &self.path {
                    Option::Some(p) => Option::Some(
                        Command::Write { path: p.clone(), text },
                    ),
                    Option::None => Option::Some(Command::PickSaveThenWrite { text }),
                }
            },
            Message::FileOpened(Result::Ok((p, s))) => {
                self.content = TextBuffer::from_text(s.as_str());
                self.path = Option::Some(p);
                self.error = Option::None;
                self.is_dirty = false;
                Option::None
            },
            Message::FileOpened(Result::Err(e)) => {
                match e {
                    EditorError::DialogClosed => {},
                    EditorError::IoFailed(k) => {
                        self.error = Option::Some(EditorError::IoFailed(k));
                    },
                }
                Option::None
            },
            Message::FileSaved(Result::Ok(p)) => {
                self.path = Option::Some(p);
                self.error = Option::None;
                self.is_dirty = false;
                Option::None
            },
            Message::FileSaved(Result::Err(e)) => {
                match e {
                    EditorError::DialogClosed => {},
                    EditorError::IoFailed(k) => {
                        self.error = Option::Some(EditorError::IoFailed(k));
                    },
                }
                Option::None
            },
            Message::ThemeSelected(t) => {
                self.theme = t;
                Option::None
            },
        }
    }
}

} // verus!
