//! What passes between the library and the code that performs its requests:
//! the library asks for one [`Action`] at a time, and the caller answers with
//! the [`Event`] that tells how it went.

use crate::manifest::InstallStatus;
use crate::text::{optional_text, texts};
use vstd::prelude::*;

verus! {

/// How the installation of one tool ended.
#[derive(Debug)]
pub enum InstallOutcome {
    AlreadyInstalled,
    Installed,
    Failed(String),
}

/// What an [`InstallOutcome`] stands for.
pub ghost enum Outcome {
    AlreadyInstalled,
    Installed,
    Failed(Seq<char>),
}

impl View for InstallOutcome {
    type V = Outcome;

    open spec fn view(&self) -> Outcome {
        match self {
            InstallOutcome::AlreadyInstalled => Outcome::AlreadyInstalled,
            InstallOutcome::Installed => Outcome::Installed,
            InstallOutcome::Failed(reason) => Outcome::Failed(reason@),
        }
    }
}

/// The outcome that a result stands for: a status on success, the reason on
/// failure.
pub open spec fn outcome_of(result: Result<InstallStatus, String>) -> Outcome {
    match result {
        Ok(InstallStatus::AlreadyInstalled) => Outcome::AlreadyInstalled,
        Ok(InstallStatus::Installed) => Outcome::Installed,
        Err(reason) => Outcome::Failed(reason@),
    }
}

impl InstallOutcome {
    /// The outcome that a result stands for.
    pub fn from_result(result: Result<InstallStatus, String>) -> (outcome: InstallOutcome)
        ensures
            outcome@ == outcome_of(result),
    {
        match result {
            Ok(InstallStatus::AlreadyInstalled) => InstallOutcome::AlreadyInstalled,
            Ok(InstallStatus::Installed) => InstallOutcome::Installed,
            Err(reason) => InstallOutcome::Failed(reason),
        }
    }

    /// A copy of this outcome.
    pub fn copy(&self) -> (same: InstallOutcome)
        ensures
            same@ == self@,
    {
        match self {
            InstallOutcome::AlreadyInstalled => InstallOutcome::AlreadyInstalled,
            InstallOutcome::Installed => InstallOutcome::Installed,
            InstallOutcome::Failed(reason) => InstallOutcome::Failed(reason.clone()),
        }
    }
}

/// A program to start, with its arguments.
#[derive(Debug)]
pub struct Invocation {
    pub program: String,
    pub args: Vec<String>,
}

/// What an [`Invocation`] stands for.
pub ghost struct InvocationView {
    pub program: Seq<char>,
    pub args: Seq<Seq<char>>,
}

impl View for Invocation {
    type V = InvocationView;

    open spec fn view(&self) -> InvocationView {
        InvocationView { program: self.program@, args: texts(self.args@) }
    }
}

/// How a finished subprocess went: whether it exited with status zero, and
/// what it wrote to its error stream.
#[derive(Debug)]
pub struct CommandOutput {
    pub success: bool,
    pub stderr: String,
}

/// What a [`CommandOutput`] stands for.
pub ghost struct CommandOutputView {
    pub success: bool,
    pub stderr: Seq<char>,
}

impl View for CommandOutput {
    type V = CommandOutputView;

    open spec fn view(&self) -> CommandOutputView {
        CommandOutputView { success: self.success, stderr: self.stderr@ }
    }
}

/// One entry met while searching a directory tree: its last component, its
/// whole path, and the directory that holds it.
#[derive(Debug)]
pub struct VolumeEntry {
    pub file_name: String,
    pub path: String,
    pub parent: Option<String>,
}

/// What a [`VolumeEntry`] stands for.
pub ghost struct VolumeEntryView {
    pub file_name: Seq<char>,
    pub path: Seq<char>,
    pub parent: Option<Seq<char>>,
}

impl View for VolumeEntry {
    type V = VolumeEntryView;

    open spec fn view(&self) -> VolumeEntryView {
        VolumeEntryView {
            file_name: self.file_name@,
            path: self.path@,
            parent: optional_text(self.parent),
        }
    }
}

/// What each entry of a listing stands for.
pub open spec fn entry_views(entries: Seq<VolumeEntry>) -> Seq<VolumeEntryView> {
    entries.map_values(|e: VolumeEntry| e@)
}

/// What the library asks its caller to do next.
#[derive(Debug)]
pub enum Action {
    /// Tell whether anything exists at this path. Answer: [`Event::Probed`].
    PathExists(String),
    /// Run the program to its end and collect its output. Answer:
    /// [`Event::CommandDone`].
    Run(Invocation),
    /// Run the program to its end, showing each line it prints as progress.
    /// Answer: [`Event::CommandDone`].
    Stream(Invocation),
    /// Fetch this URL into a temporary file. Answer: [`Event::Downloaded`]
    /// with the file's path.
    Download(String),
    /// List what lies below `root`, from `min_depth` to `max_depth` levels
    /// down, in the order of the walk. Answer: [`Event::Listing`].
    Search { root: String, min_depth: usize, max_depth: usize },
    /// Delete this file. Answer: [`Event::Removed`].
    Remove(String),
    /// Nothing more: the installation has ended with this outcome.
    Finish(InstallOutcome),
}

/// What an [`Action`] stands for.
pub ghost enum ActionView {
    PathExists(Seq<char>),
    Run(InvocationView),
    Stream(InvocationView),
    Download(Seq<char>),
    Search { root: Seq<char>, min_depth: usize, max_depth: usize },
    Remove(Seq<char>),
    Finish(Outcome),
}

impl View for Action {
    type V = ActionView;

    open spec fn view(&self) -> ActionView {
        match self {
            Action::PathExists(path) => ActionView::PathExists(path@),
            Action::Run(invocation) => ActionView::Run(invocation@),
            Action::Stream(invocation) => ActionView::Stream(invocation@),
            Action::Download(url) => ActionView::Download(url@),
            Action::Search { root, min_depth, max_depth } => ActionView::Search {
                root: root@,
                min_depth: *min_depth,
                max_depth: *max_depth,
            },
            Action::Remove(path) => ActionView::Remove(path@),
            Action::Finish(outcome) => ActionView::Finish(outcome@),
        }
    }
}

/// How the action that was asked for went.
#[derive(Debug)]
pub enum Event {
    /// The installation has been scheduled: the first event of every tool.
    Started,
    /// The answer to [`Action::PathExists`].
    Probed(bool),
    /// The download is complete and lies at this path.
    Downloaded(String),
    /// The subprocess has ended.
    CommandDone(CommandOutput),
    /// The entries found by [`Action::Search`], in the order of the walk.
    Listing(Vec<VolumeEntry>),
    /// The file is gone.
    Removed,
    /// The action could not be carried out, for this reason.
    Failed(String),
    /// The code that performs the actions of this tool broke off, for this
    /// reason: nothing more will be done for the tool.
    Crashed(String),
}

/// What an [`Event`] stands for.
pub ghost enum EventView {
    Started,
    Probed(bool),
    Downloaded(Seq<char>),
    CommandDone(CommandOutputView),
    Listing(Seq<VolumeEntryView>),
    Removed,
    Failed(Seq<char>),
    Crashed(Seq<char>),
}

impl View for Event {
    type V = EventView;

    open spec fn view(&self) -> EventView {
        match self {
            Event::Started => EventView::Started,
            Event::Probed(found) => EventView::Probed(*found),
            Event::Downloaded(path) => EventView::Downloaded(path@),
            Event::CommandDone(output) => EventView::CommandDone(output@),
            Event::Listing(entries) => EventView::Listing(entry_views(entries@)),
            Event::Removed => EventView::Removed,
            Event::Failed(reason) => EventView::Failed(reason@),
            Event::Crashed(reason) => EventView::Crashed(reason@),
        }
    }
}

/// One turn of an installation: progress messages to show, in order, and then
/// the action to perform.
#[derive(Debug)]
pub struct Step {
    pub messages: Vec<String>,
    pub action: Action,
}

/// What a [`Step`] stands for.
pub ghost struct StepView {
    pub messages: Seq<Seq<char>>,
    pub action: ActionView,
}

impl View for Step {
    type V = StepView;

    open spec fn view(&self) -> StepView {
        StepView { messages: texts(self.messages@), action: self.action@ }
    }
}

} // verus!
