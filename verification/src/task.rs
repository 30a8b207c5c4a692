//! The installation of one tool, as a state machine: each answer of the host
//! moves it one step on, until it ends with an outcome.

use crate::command::{Shell, ShellView};
use crate::manifest::{InstallationDetailItem, ResolvedInstallation, Type, OS};
use crate::protocol::{
    Action, ActionView, CommandOutput, CommandOutputView, Event, EventView, InstallOutcome,
    Outcome, Step, StepView,
};
use crate::text::{optional_text, texts};
use vstd::prelude::*;

verus! {

/// The way in which a tool is installed.
#[derive(Debug, PartialEq, Eq, Structural, Copy, Clone)]
pub enum Strategy {
    /// Download an archive and unpack it into the application directory.
    Archive,
    /// Download a disk image, mount it and copy the application out of it.
    DiskImage,
    /// Run a shell command.
    Shell,
    /// Download an installer and run it.
    NativeInstaller,
}

/// Where an installation stands.
#[derive(Debug, PartialEq, Eq, Structural, Copy, Clone)]
pub enum Stage {
    /// Not scheduled yet.
    Pending,
    /// Asking whether the application is already in place.
    CheckInstalled,
    /// Asking whether the command can already be run.
    CheckCommand,
    /// Fetching the artifact.
    Download,
    /// Unpacking the archive.
    Extract,
    /// Mounting the disk image.
    Mount,
    /// Looking for the application in the mounted volume.
    Locate,
    /// Copying the application out of the volume.
    Copy,
    /// Unmounting the volume.
    Unmount,
    /// Running the record's post-install command.
    PostInstall,
    /// Running the record's source command.
    RunSource,
    /// Running the downloaded installer.
    RunInstaller,
    /// Asking whether the artifact is still there.
    CleanupProbe,
    /// Deleting the artifact.
    CleanupRemove,
}

/// What the library knows of the machine it installs on.
#[derive(Debug)]
pub struct Host {
    /// The running operating system.
    pub os: OS,
    /// The shell that runs commands.
    pub shell: Shell,
    /// The display names of the applications that Windows lists as installed.
    pub installed_apps: Vec<String>,
}

/// What a [`Host`] stands for.
pub ghost struct HostView {
    pub os: OS,
    pub shell: ShellView,
    pub installed_apps: Seq<Seq<char>>,
}

impl View for Host {
    type V = HostView;

    open spec fn view(&self) -> HostView {
        HostView { os: self.os, shell: self.shell@, installed_apps: texts(self.installed_apps@) }
    }
}

/// The state of one tool's installation.
#[derive(Debug)]
pub struct Task {
    /// Where the installation stands. It stays where it was once the
    /// installation has ended.
    pub stage: Stage,
    /// Whether the answer awaited is the one to the question if the shell's
    /// startup file exists, asked before a command is run.
    pub awaiting_config: bool,
    /// The path of the downloaded file; empty until there is one.
    pub artifact: String,
    /// The path of the application found in the mounted volume.
    pub bundle: String,
    /// The mount point of that volume.
    pub volume: String,
    /// The outcome, once the installation has ended.
    pub outcome: Option<InstallOutcome>,
}

/// What a [`Task`] stands for.
pub ghost struct TaskView {
    pub stage: Stage,
    pub awaiting_config: bool,
    pub artifact: Seq<char>,
    pub bundle: Seq<char>,
    pub volume: Seq<char>,
    pub outcome: Option<Outcome>,
}

/// What an optional outcome stands for.
pub open spec fn optional_outcome(outcome: Option<InstallOutcome>) -> Option<Outcome> {
    match outcome {
        Some(o) => Some(o@),
        None => None,
    }
}

impl View for Task {
    type V = TaskView;

    open spec fn view(&self) -> TaskView {
        TaskView {
            stage: self.stage,
            awaiting_config: self.awaiting_config,
            artifact: self.artifact@,
            bundle: self.bundle@,
            volume: self.volume@,
            outcome: optional_outcome(self.outcome),
        }
    }
}

/// The strategy that installs a tool of this kind on this operating system,
/// if there is one. Archives and disk images are installed on macOS, shell
/// commands on macOS and Linux, and installers on Windows.
pub open spec fn strategy_for(os: OS, kind: Type) -> Option<Strategy> {
    match (os, kind) {
        (OS::MacOS, Type::Zip) => Some(Strategy::Archive),
        (OS::MacOS, Type::Dmg) => Some(Strategy::DiskImage),
        (OS::MacOS, Type::Shell) => Some(Strategy::Shell),
        (OS::Linux, Type::Shell) => Some(Strategy::Shell),
        (OS::Windows, Type::Exe) => Some(Strategy::NativeInstaller),
        (OS::Windows, Type::Deb) => Some(Strategy::NativeInstaller),
        _ => None,
    }
}

/// The state of a tool that has not been scheduled yet.
pub open spec fn pending() -> TaskView {
    TaskView {
        stage: Stage::Pending,
        awaiting_config: false,
        artifact: Seq::empty(),
        bundle: Seq::empty(),
        volume: Seq::empty(),
        outcome: None,
    }
}

/// The reason given when the host's answer does not fit the question.
pub open spec fn unexpected_answer() -> Seq<char> {
    "Unexpected answer from the host"@
}

/// The reason given when a command whose output was collected did not exit
/// with status zero.
pub open spec fn captured_failure(stderr: Seq<char>) -> Seq<char> {
    "Command failed with output: "@ + stderr
}

/// A command whose lines were shown as progress has failed when it did not
/// exit with status zero or wrote anything to its error stream.
pub open spec fn streamed_failed(output: CommandOutputView) -> bool {
    !output.success || output.stderr.len() > 0
}

/// The message that announces a post-install command.
pub open spec fn post_install_message() -> Seq<char> {
    "Running post-install script..."@
}

/// The message that announces a download.
pub open spec fn downloading_message() -> Seq<char> {
    "Downloading..."@
}

/// A step with these messages and this action.
pub open spec fn step_of(messages: Seq<Seq<char>>, action: ActionView) -> StepView {
    StepView { messages, action }
}

/// The installation ends with `outcome`, after `messages` are shown.
pub open spec fn ended(task: TaskView, outcome: Outcome, messages: Seq<Seq<char>>) -> (
    TaskView,
    StepView,
) {
    (
        TaskView { awaiting_config: false, outcome: Some(outcome), ..task },
        step_of(messages, ActionView::Finish(outcome)),
    )
}

/// The installation fails for `reason`.
pub open spec fn failed(task: TaskView, reason: Seq<char>) -> (TaskView, StepView) {
    ended(task, Outcome::Failed(reason), Seq::empty())
}

/// The installation fails because the host's answer does not fit.
pub open spec fn confused(task: TaskView) -> (TaskView, StepView) {
    failed(task, unexpected_answer())
}

/// The installation enters `stage`, in which a command is run by the shell:
/// the first thing to ask is whether the shell's startup file exists.
pub open spec fn command_asked(
    task: TaskView,
    host: HostView,
    stage: Stage,
    messages: Seq<Seq<char>>,
) -> (TaskView, StepView) {
    (
        TaskView { stage, awaiting_config: true, ..task },
        step_of(messages, ActionView::PathExists(host.shell.config)),
    )
}

/// What an answer means to a stage in which the shell runs a command.
pub ghost enum Turn {
    /// It is known whether the startup file exists: the command is to be run.
    Config(bool),
    /// The command has ended with this output.
    Done(CommandOutputView),
    /// The answer does not fit.
    Unexpected,
}

/// What `event` means to a stage in which the shell runs a command.
pub open spec fn command_turn(task: TaskView, event: EventView) -> Turn {
    match event {
        EventView::Probed(exists) => if task.awaiting_config {
            Turn::Config(exists)
        } else {
            Turn::Unexpected
        },
        EventView::CommandDone(output) => if task.awaiting_config {
            Turn::Unexpected
        } else {
            Turn::Done(output)
        },
        _ => Turn::Unexpected,
    }
}

/// The command of the current stage is asked for.
pub open spec fn command_run(task: TaskView, action: ActionView) -> (TaskView, StepView) {
    (TaskView { awaiting_config: false, ..task }, step_of(Seq::empty(), action))
}

/// What an answer means to a stage in which the shell runs a command.
pub(crate) enum CommandTurn {
    /// It is known whether the startup file exists: the command is to be run.
    Config(bool),
    /// The command has ended with this output.
    Done(CommandOutput),
    /// The answer does not fit.
    Unexpected,
}

impl Task {
    /// The state of a tool that has not been scheduled yet.
    pub fn new() -> (task: Task)
        ensures
            task@ == pending(),
    {
        Task {
            stage: Stage::Pending,
            awaiting_config: false,
            artifact: String::new(),
            bundle: String::new(),
            volume: String::new(),
            outcome: None,
        }
    }

    /// Whether the installation has ended.
    pub fn is_done(&self) -> (done: bool)
        ensures
            done == (self@.outcome is Some),
    {
        self.outcome.is_some()
    }
}

/// No messages.
pub(crate) fn silent() -> (messages: Vec<String>)
    ensures
        texts(messages@) == Seq::<Seq<char>>::empty(),
{
    let messages: Vec<String> = Vec::new();
    assert(texts(messages@) =~= Seq::<Seq<char>>::empty());
    messages
}

/// One message.
pub(crate) fn saying(message: &str) -> (messages: Vec<String>)
    ensures
        texts(messages@) == seq![message@],
{
    let mut messages: Vec<String> = Vec::new();
    messages.push(String::from_str(message));
    assert(texts(messages@) =~= seq![message@]);
    messages
}

/// One more message after `messages`.
pub(crate) fn also_saying(messages: Vec<String>, message: &str) -> (longer: Vec<String>)
    ensures
        texts(longer@) == texts(messages@).push(message@),
{
    let mut longer = messages;
    longer.push(String::from_str(message));
    assert(texts(longer@) =~= texts(messages@).push(message@));
    longer
}

/// Ends the installation with `outcome`, after `messages` are shown.
pub(crate) fn finish(task: &mut Task, outcome: InstallOutcome, messages: Vec<String>) -> (step:
    Step)
    ensures
        (final(task)@, step@) == ended(old(task)@, outcome@, texts(messages@)),
{
    let kept = outcome.copy();
    task.awaiting_config = false;
    task.outcome = Some(kept);
    Step { messages, action: Action::Finish(outcome) }
}

/// Ends the installation as failed for `reason`.
pub(crate) fn fail(task: &mut Task, reason: String) -> (step: Step)
    ensures
        (final(task)@, step@) == failed(old(task)@, reason@),
{
    finish(task, InstallOutcome::Failed(reason), silent())
}

/// Ends the installation as failed because the host's answer does not fit.
pub(crate) fn confuse(task: &mut Task) -> (step: Step)
    ensures
        (final(task)@, step@) == confused(old(task)@),
{
    fail(task, String::from_str("Unexpected answer from the host"))
}

/// Enters `stage`, in which a command is run by the shell, and asks whether
/// the shell's startup file exists.
pub(crate) fn ask_command(
    task: &mut Task,
    host: &Host,
    stage: Stage,
    messages: Vec<String>,
) -> (step: Step)
    ensures
        (final(task)@, step@) == command_asked(old(task)@, host@, stage, texts(messages@)),
{
    task.stage = stage;
    task.awaiting_config = true;
    Step { messages, action: Action::PathExists(host.shell.config.clone()) }
}

/// Reads `event` as an answer to a stage in which the shell runs a command.
pub(crate) fn take_command_turn(task: &Task, event: Event) -> (turn: CommandTurn)
    ensures
        match command_turn(task@, event@) {
            Turn::Config(exists) => turn matches CommandTurn::Config(e) && e == exists,
            Turn::Done(output) => turn matches CommandTurn::Done(o) && o@ == output,
            Turn::Unexpected => turn is Unexpected,
        },
{
    match event {
        Event::Probed(exists) => {
            if task.awaiting_config {
                CommandTurn::Config(exists)
            } else {
                CommandTurn::Unexpected
            }
        },
        Event::CommandDone(output) => {
            if task.awaiting_config {
                CommandTurn::Unexpected
            } else {
                CommandTurn::Done(output)
            }
        },
        _ => CommandTurn::Unexpected,
    }
}

/// Asks for the command of the current stage.
pub(crate) fn run_command(task: &mut Task, action: Action) -> (step: Step)
    ensures
        (final(task)@, step@) == command_run(old(task)@, action@),
{
    task.awaiting_config = false;
    Step { messages: silent(), action }
}

/// The post-install command of a tool; empty where it has none.
pub open spec fn post_install_of(tool: ResolvedInstallation) -> Seq<char> {
    match tool.post_install {
        Some(command) => command,
        None => Seq::empty(),
    }
}

/// The download of the tool's source is asked for.
pub open spec fn download_asked(task: TaskView, tool: ResolvedInstallation) -> (
    TaskView,
    StepView,
) {
    (
        TaskView { stage: Stage::Download, ..task },
        step_of(seq![downloading_message()], ActionView::Download(tool.source)),
    )
}

/// Asks for the download of the tool's source.
pub(crate) fn ask_download(task: &mut Task, tool: &InstallationDetailItem) -> (step: Step)
    ensures
        (final(task)@, step@) == download_asked(old(task)@, tool@),
{
    task.stage = Stage::Download;
    Step { messages: saying("Downloading..."), action: Action::Download(tool.source.clone()) }
}

/// The post-install command of a tool; empty where it has none.
pub(crate) fn post_install_text(tool: &InstallationDetailItem) -> (command: &str)
    ensures
        command@ == post_install_of(tool@),
{
    match &tool.post_install {
        Some(command) => command.as_str(),
        None => {
            proof {
                reveal_strlit("");
            }
            assert(""@ =~= Seq::<char>::empty());
            ""
        },
    }
}

/// The reason given when a command whose output was collected has failed.
pub(crate) fn captured_reason(stderr: &str) -> (reason: String)
    ensures
        reason@ == captured_failure(stderr@),
{
    let mut reason = String::from_str("Command failed with output: ");
    reason.append(stderr);
    reason
}

} // verus!
