//! What the pipeline asks of its host, and what the host answers.
//!
//! The pipeline touches no file and starts no program. It names an `Action`;
//! the host carries it out and reports an `Event`; the pipeline decides what
//! comes next.

use vstd::prelude::*;

verus! {

/// Something for the host to do.
#[derive(Debug, PartialEq, Eq)]
pub enum Action {
    /// Read the file at `path` as text. Answer: `Text`.
    ReadFile { path: String },
    /// Create the directory at `path` and every missing directory above it.
    /// Answer: `Done`.
    CreateDirAll { path: String },
    /// Write `content` to the file at `path`, replacing what it held.
    /// Answer: `Done`.
    WriteFile { path: String, content: String },
    /// Tell whether anything exists at `path`. Answer: `Exists`.
    PathExists { path: String },
    /// Remove the file or link at `path`. Answer: `Done`.
    RemoveFile { path: String },
    /// List the regular files directly in `dir`, by their paths.
    /// Answer: `Files`.
    ListFiles { dir: String },
    /// Run `program` with `args` until it ends and capture its standard
    /// output. Answer: `Text`, whatever the program's exit status.
    Run { program: String, args: Vec<String> },
    /// Start `program` with `args` and leave it running, its output
    /// discarded; `detached_input` says whether its input is closed too.
    /// Answer: `Done`.
    Spawn { program: String, args: Vec<String>, detached_input: bool },
    /// Wait for `seconds` seconds. Answer: `Done`.
    Sleep { seconds: u64 },
}

/// An `Action` over sequences of characters.
pub enum ActionView {
    ReadFile { path: Seq<char> },
    CreateDirAll { path: Seq<char> },
    WriteFile { path: Seq<char>, content: Seq<char> },
    PathExists { path: Seq<char> },
    RemoveFile { path: Seq<char> },
    ListFiles { dir: Seq<char> },
    Run { program: Seq<char>, args: Seq<Seq<char>> },
    Spawn { program: Seq<char>, args: Seq<Seq<char>>, detached_input: bool },
    Sleep { seconds: u64 },
}

impl DeepView for Action {
    type V = ActionView;

    open spec fn deep_view(&self) -> ActionView {
        match *self {
            Action::ReadFile { path } => ActionView::ReadFile { path: path@ },
            Action::CreateDirAll { path } => ActionView::CreateDirAll { path: path@ },
            Action::WriteFile { path, content } => ActionView::WriteFile {
                path: path@,
                content: content@,
            },
            Action::PathExists { path } => ActionView::PathExists { path: path@ },
            Action::RemoveFile { path } => ActionView::RemoveFile { path: path@ },
            Action::ListFiles { dir } => ActionView::ListFiles { dir: dir@ },
            Action::Run { program, args } => ActionView::Run {
                program: program@,
                args: args.deep_view(),
            },
            Action::Spawn { program, args, detached_input } => ActionView::Spawn {
                program: program@,
                args: args.deep_view(),
                detached_input,
            },
            Action::Sleep { seconds } => ActionView::Sleep { seconds },
        }
    }
}

/// What the host reports of the action it was asked for.
#[derive(Debug, PartialEq, Eq)]
pub enum Event {
    /// The action was carried out and hands nothing back.
    Done,
    /// The text that was read, or the standard output that was captured.
    Text(String),
    /// Whether the path exists.
    Exists(bool),
    /// The files that were listed.
    Files(Vec<String>),
    /// The action could not be carried out; the cause, as the host words it.
    Failed(String),
}

/// An `Event` over sequences of characters.
pub enum EventView {
    Done,
    Text(Seq<char>),
    Exists(bool),
    Files(Seq<Seq<char>>),
    Failed(Seq<char>),
}

impl DeepView for Event {
    type V = EventView;

    open spec fn deep_view(&self) -> EventView {
        match *self {
            Event::Done => EventView::Done,
            Event::Text(text) => EventView::Text(text@),
            Event::Exists(b) => EventView::Exists(b),
            Event::Files(files) => EventView::Files(files.deep_view()),
            Event::Failed(cause) => EventView::Failed(cause@),
        }
    }
}

} // verus!
