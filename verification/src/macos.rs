//! Installation on macOS and other Unix hosts: archives, disk images and
//! shell commands.

use crate::command::{
    extract_zip, is_cmd_exists, lookup_invocation, run_command_on_unix, run_command_pipe_on_unix,
    shell_invocation, unzip_command,
};
use crate::manifest::{InstallationDetailItem, ResolvedInstallation};
use crate::protocol::{
    entry_views, Action, ActionView, Event, EventView, InstallOutcome, Outcome, Step, StepView,
    VolumeEntry, VolumeEntryView,
};
use crate::task::{
    also_saying, ask_command, ask_download, captured_failure, captured_reason, command_asked,
    command_run, command_turn, confuse, confused, download_asked, ended, fail, failed, finish,
    post_install_message, post_install_of, post_install_text, run_command, saying, silent,
    step_of, streamed_failed, take_command_turn, CommandTurn, Host, HostView, Stage, Task,
    TaskView, Turn,
};
use crate::text::{text_eq, texts};
use vstd::prelude::*;

verus! {

/// The directory that holds the installed applications.
pub open spec fn applications_dir() -> Seq<char> {
    "/Applications"@
}

/// Where the application `id` lies once it is installed.
pub open spec fn application_path(id: Seq<char>) -> Seq<char> {
    "/Applications/"@ + id
}

/// The directory below which disk images are mounted.
pub open spec fn volumes_dir() -> Seq<char> {
    "/Volumes"@
}

/// The command that mounts the disk image at `dmg_path`.
pub open spec fn attach_command(dmg_path: Seq<char>) -> Seq<char> {
    "hdiutil attach "@ + dmg_path
}

/// The command that copies the application at `bundle` into the application
/// directory.
pub open spec fn copy_command(bundle: Seq<char>) -> Seq<char> {
    "cp -R \""@ + bundle + "\" /Applications"@
}

/// The command that unmounts `volume`.
pub open spec fn detach_command(volume: Seq<char>) -> Seq<char> {
    "hdiutil detach \""@ + volume + "\""@
}

/// The message that tells of an unmount that failed for `reason`.
pub open spec fn unmount_failed_message(reason: Seq<char>) -> Seq<char> {
    "Failed to unmount: "@ + reason
}

/// Entry `i` is the first of `entries` that is called `name`.
pub open spec fn is_first_named(entries: Seq<VolumeEntryView>, name: Seq<char>, i: int) -> bool {
    &&& 0 <= i < entries.len()
    &&& entries[i].file_name == name
    &&& forall|j: int| 0 <= j < i ==> (#[trigger] entries[j]).file_name != name
}

/// No entry is called `name`.
pub open spec fn none_named(entries: Seq<VolumeEntryView>, name: Seq<char>) -> bool {
    forall|j: int| 0 <= j < entries.len() ==> (#[trigger] entries[j]).file_name != name
}

/// The position of the first entry called `name`, if there is one.
pub open spec fn first_named(entries: Seq<VolumeEntryView>, name: Seq<char>) -> Option<int> {
    if none_named(entries, name) {
        None
    } else {
        Some(choose|i: int| is_first_named(entries, name, i))
    }
}

/// The first entry called `name` is unique.
pub proof fn lemma_first_named(entries: Seq<VolumeEntryView>, name: Seq<char>, i: int)
    requires
        is_first_named(entries, name, i),
    ensures
        first_named(entries, name) == Some(i),
{
    assert(entries[i].file_name == name);
    let k = choose|k: int| is_first_named(entries, name, k);
    assert(is_first_named(entries, name, k));
    if k < i {
        assert(entries[k].file_name != name);
    }
    if i < k {
        assert(entries[i].file_name != name);
    }
}

/// Finds the application called `app_file_name` among the entries of a
/// search: the first match wins.
pub fn find_app(entries: &Vec<VolumeEntry>, app_file_name: &str) -> (found: Option<usize>)
    ensures
        found matches Some(i) ==> is_first_named(entry_views(entries@), app_file_name@, i as int),
        found is None ==> none_named(entry_views(entries@), app_file_name@),
        match found {
            Some(i) => first_named(entry_views(entries@), app_file_name@) == Some(i as int),
            None => first_named(entry_views(entries@), app_file_name@) is None,
        },
{
    let mut i: usize = 0;
    while i < entries.len()
        invariant
            i <= entries.len(),
            forall|j: int|
                0 <= j < i ==> (#[trigger] entry_views(entries@)[j]).file_name != app_file_name@,
        decreases entries.len() - i,
    {
        if text_eq(entries[i].file_name.as_str(), app_file_name) {
            proof {
                assert(entry_views(entries@)[i as int] == entries[i as int]@);
                lemma_first_named(entry_views(entries@), app_file_name@, i as int);
            }
            return Some(i);
        }
        assert(entry_views(entries@)[i as int] == entries[i as int]@);
        i += 1;
    }
    None
}

/// Asks whether the application `id` is already in the application directory.
pub fn is_app_installed(id: &str) -> (action: Action)
    ensures
        action@ == ActionView::PathExists(application_path(id@)),
{
    let mut path = String::from_str("/Applications/");
    path.append(id);
    Action::PathExists(path)
}

/// The first step of an archive or a disk image: ask whether the application
/// is already in place.
pub open spec fn application_probed(task: TaskView, tool: ResolvedInstallation) -> (
    TaskView,
    StepView,
) {
    (
        TaskView { stage: Stage::CheckInstalled, ..task },
        step_of(Seq::empty(), ActionView::PathExists(application_path(tool.id))),
    )
}

/// What the answer to the question if the application is in place leads to:
/// nothing more if it is, the download if it is not.
pub open spec fn application_checked(task: TaskView, tool: ResolvedInstallation, found: bool) -> (
    TaskView,
    StepView,
) {
    if found {
        ended(task, Outcome::AlreadyInstalled, Seq::empty())
    } else {
        download_asked(task, tool)
    }
}

fn probe_application(task: &mut Task, tool: &InstallationDetailItem) -> (step: Step)
    ensures
        (final(task)@, step@) == application_probed(old(task)@, tool@),
{
    task.stage = Stage::CheckInstalled;
    Step { messages: silent(), action: is_app_installed(tool.id.as_str()) }
}

fn check_application(task: &mut Task, tool: &InstallationDetailItem, found: bool) -> (step: Step)
    ensures
        (final(task)@, step@) == application_checked(old(task)@, tool@, found),
{
    if found {
        finish(task, InstallOutcome::AlreadyInstalled, silent())
    } else {
        ask_download(task, tool)
    }
}

/// The message that announces the unpacking of an archive.
pub open spec fn extracting_message() -> Seq<char> {
    "Extracting zip to `/Applications` directory..."@
}

/// The artifact of an archive is cleaned up: first ask whether it is still
/// there.
pub open spec fn archive_cleanup(task: TaskView) -> (TaskView, StepView) {
    (
        TaskView { stage: Stage::CleanupProbe, ..task },
        step_of(Seq::empty(), ActionView::PathExists(task.artifact)),
    )
}

/// An archive has been unpacked: the post-install command is next where the
/// tool has one, the cleanup where it has none.
pub open spec fn archive_applied(task: TaskView, tool: ResolvedInstallation, host: HostView) -> (
    TaskView,
    StepView,
) {
    if tool.post_install is Some {
        command_asked(task, host, Stage::PostInstall, seq![post_install_message()])
    } else {
        archive_cleanup(task)
    }
}

/// One step of the installation of an archive: ask whether the application
/// is in place; if not, download the archive, unpack it into the application
/// directory, run the post-install command, and delete the archive if it is
/// still there.
pub open spec fn archive_next(
    task: TaskView,
    tool: ResolvedInstallation,
    host: HostView,
    event: EventView,
) -> (TaskView, StepView) {
    if let EventView::Failed(reason) = event {
        failed(task, reason)
    } else {
        match task.stage {
            Stage::Pending => if event is Started {
                application_probed(task, tool)
            } else {
                confused(task)
            },
            Stage::CheckInstalled => match event {
                EventView::Probed(found) => application_checked(task, tool, found),
                _ => confused(task),
            },
            Stage::Download => match event {
                EventView::Downloaded(path) => command_asked(
                    TaskView { artifact: path, ..task },
                    host,
                    Stage::Extract,
                    seq![extracting_message()],
                ),
                _ => confused(task),
            },
            Stage::Extract => match command_turn(task, event) {
                Turn::Config(exists) => command_run(
                    task,
                    ActionView::Run(
                        shell_invocation(
                            host.shell,
                            exists,
                            unzip_command(task.artifact, applications_dir()),
                        ),
                    ),
                ),
                Turn::Done(output) => if output.success {
                    archive_applied(task, tool, host)
                } else {
                    failed(task, captured_failure(output.stderr))
                },
                Turn::Unexpected => confused(task),
            },
            Stage::PostInstall => match command_turn(task, event) {
                Turn::Config(exists) => command_run(
                    task,
                    ActionView::Run(shell_invocation(host.shell, exists, post_install_of(tool))),
                ),
                Turn::Done(output) => if output.success {
                    archive_cleanup(task)
                } else {
                    failed(task, captured_failure(output.stderr))
                },
                Turn::Unexpected => confused(task),
            },
            Stage::CleanupProbe => match event {
                EventView::Probed(found) => if found {
                    (
                        TaskView { stage: Stage::CleanupRemove, ..task },
                        step_of(Seq::empty(), ActionView::Remove(task.artifact)),
                    )
                } else {
                    ended(task, Outcome::Installed, Seq::empty())
                },
                _ => confused(task),
            },
            Stage::CleanupRemove => match event {
                EventView::Removed => ended(task, Outcome::Installed, Seq::empty()),
                _ => confused(task),
            },
            _ => confused(task),
        }
    }
}

fn clean_archive(task: &mut Task) -> (step: Step)
    ensures
        (final(task)@, step@) == archive_cleanup(old(task)@),
{
    task.stage = Stage::CleanupProbe;
    Step { messages: silent(), action: Action::PathExists(task.artifact.clone()) }
}

/// Moves the installation of an archive one step on.
pub fn install_tool_by_zip(
    task: &mut Task,
    tool: &InstallationDetailItem,
    host: &Host,
    event: Event,
) -> (step: Step)
    ensures
        (final(task)@, step@) == archive_next(old(task)@, tool@, host@, event@),
{
    let event = match event {
        Event::Failed(reason) => {
            return fail(task, reason);
        },
        other => other,
    };
    match task.stage {
        Stage::Pending => match event {
            Event::Started => probe_application(task, tool),
            _ => confuse(task),
        },
        Stage::CheckInstalled => match event {
            Event::Probed(found) => check_application(task, tool, found),
            _ => confuse(task),
        },
        Stage::Download => match event {
            Event::Downloaded(path) => {
                task.artifact = path;
                ask_command(
                    task,
                    host,
                    Stage::Extract,
                    saying("Extracting zip to `/Applications` directory..."),
                )
            },
            _ => confuse(task),
        },
        Stage::Extract => {
            match take_command_turn(task, event) {
                CommandTurn::Config(exists) => {
                    let action = extract_zip(
                        task.artifact.as_str(),
                        "/Applications",
                        &host.shell,
                        exists,
                    );
                    run_command(task, action)
                },
                CommandTurn::Done(output) => {
                    if output.success {
                        if tool.post_install.is_some() {
                            ask_command(
                                task,
                                host,
                                Stage::PostInstall,
                                saying("Running post-install script..."),
                            )
                        } else {
                            clean_archive(task)
                        }
                    } else {
                        fail(task, captured_reason(output.stderr.as_str()))
                    }
                },
                CommandTurn::Unexpected => confuse(task),
            }
        },
        Stage::PostInstall => {
            match take_command_turn(task, event) {
                CommandTurn::Config(exists) => {
                    let action = run_command_on_unix(post_install_text(tool), &host.shell, exists);
                    run_command(task, action)
                },
                CommandTurn::Done(output) => {
                    if output.success {
                        clean_archive(task)
                    } else {
                        fail(task, captured_reason(output.stderr.as_str()))
                    }
                },
                CommandTurn::Unexpected => confuse(task),
            }
        },
        Stage::CleanupProbe => match event {
            Event::Probed(found) => {
                if found {
                    task.stage = Stage::CleanupRemove;
                    Step { messages: silent(), action: Action::Remove(task.artifact.clone()) }
                } else {
                    finish(task, InstallOutcome::Installed, silent())
                }
            },
            _ => confuse(task),
        },
        Stage::CleanupRemove => match event {
            Event::Removed => finish(task, InstallOutcome::Installed, silent()),
            _ => confuse(task),
        },
        _ => confuse(task),
    }
}

/// The message that announces the mounting of a disk image.
pub open spec fn mounting_message() -> Seq<char> {
    "Mounting..."@
}

/// The message that tells that the disk image is mounted.
pub open spec fn mounted_message() -> Seq<char> {
    "Mounted successfully!"@
}

/// The message that announces the copy of the application.
pub open spec fn copying_message() -> Seq<char> {
    "Copying to `/Applications` directory..."@
}

/// The message that tells that the application is copied.
pub open spec fn copied_message() -> Seq<char> {
    "Copied successfully!"@
}

/// The message that announces the unmounting of the volume.
pub open spec fn unmounting_message() -> Seq<char> {
    "Unmounting..."@
}

/// The message that tells that the volume is unmounted.
pub open spec fn unmounted_message() -> Seq<char> {
    "Unmounted successfully!"@
}

/// The reason given when the mounted volume does not hold the application.
pub open spec fn app_not_found() -> Seq<char> {
    "app not found in mounted volume"@
}

/// The reason given when the application found has no directory above it.
pub open spec fn volume_not_found() -> Seq<char> {
    "failed to get volumes app's parent path"@
}

/// Whether a stage belongs to the copy of an application out of a disk image.
pub open spec fn is_image_stage(stage: Stage) -> bool {
    stage == Stage::Mount || stage == Stage::Locate || stage == Stage::Copy || stage
        == Stage::Unmount
}

/// What one answer leads to while an application is copied out of a disk
/// image.
pub ghost enum ImageTurn {
    /// The copy goes on, or has failed, with this step.
    Step(TaskView, StepView),
    /// The application is in place and the volume has been dealt with; these
    /// messages are still to be shown.
    Copied(Seq<Seq<char>>),
}

/// What the entries found below the volumes directory lead to: the copy of
/// the first entry called `id`, if there is one and it lies in a directory.
pub open spec fn image_located(
    task: TaskView,
    id: Seq<char>,
    host: HostView,
    entries: Seq<VolumeEntryView>,
) -> (TaskView, StepView) {
    match first_named(entries, id) {
        None => failed(task, app_not_found()),
        Some(i) => match entries[i].parent {
            None => failed(task, volume_not_found()),
            Some(parent) => command_asked(
                TaskView { bundle: entries[i].path, volume: parent, ..task },
                host,
                Stage::Copy,
                seq![copying_message()],
            ),
        },
    }
}

/// One step of the copy of the application `id` out of the downloaded disk
/// image: mount the image, look for the application in the mounted volumes,
/// copy it into the application directory, unmount the volume. An unmount
/// that fails is told in a message and changes nothing else.
pub open spec fn image_next(
    task: TaskView,
    id: Seq<char>,
    host: HostView,
    event: EventView,
) -> ImageTurn {
    match task.stage {
        Stage::Mount => if let EventView::Failed(reason) = event {
            ImageTurn::Step(failed(task, reason).0, failed(task, reason).1)
        } else {
            match command_turn(task, event) {
                Turn::Config(exists) => {
                    let next = command_run(
                        task,
                        ActionView::Stream(
                            shell_invocation(host.shell, exists, attach_command(task.artifact)),
                        ),
                    );
                    ImageTurn::Step(next.0, next.1)
                },
                Turn::Done(output) => if streamed_failed(output) {
                    ImageTurn::Step(
                        failed(task, output.stderr).0,
                        failed(task, output.stderr).1,
                    )
                } else {
                    ImageTurn::Step(
                        TaskView { stage: Stage::Locate, ..task },
                        step_of(
                            seq![mounted_message()],
                            ActionView::Search { root: volumes_dir(), min_depth: 1, max_depth: 3 },
                        ),
                    )
                },
                Turn::Unexpected => ImageTurn::Step(confused(task).0, confused(task).1),
            }
        },
        Stage::Locate => match event {
            EventView::Failed(reason) => ImageTurn::Step(
                failed(task, reason).0,
                failed(task, reason).1,
            ),
            EventView::Listing(entries) => ImageTurn::Step(
                image_located(task, id, host, entries).0,
                image_located(task, id, host, entries).1,
            ),
            _ => ImageTurn::Step(confused(task).0, confused(task).1),
        },
        Stage::Copy => if let EventView::Failed(reason) = event {
            ImageTurn::Step(failed(task, reason).0, failed(task, reason).1)
        } else {
            match command_turn(task, event) {
                Turn::Config(exists) => {
                    let next = command_run(
                        task,
                        ActionView::Stream(
                            shell_invocation(host.shell, exists, copy_command(task.bundle)),
                        ),
                    );
                    ImageTurn::Step(next.0, next.1)
                },
                Turn::Done(output) => if streamed_failed(output) {
                    ImageTurn::Step(
                        failed(task, output.stderr).0,
                        failed(task, output.stderr).1,
                    )
                } else {
                    let next = command_asked(
                        task,
                        host,
                        Stage::Unmount,
                        seq![copied_message(), unmounting_message()],
                    );
                    ImageTurn::Step(next.0, next.1)
                },
                Turn::Unexpected => ImageTurn::Step(confused(task).0, confused(task).1),
            }
        },
        Stage::Unmount => if let EventView::Failed(reason) = event {
            ImageTurn::Copied(seq![unmount_failed_message(reason)])
        } else {
            match command_turn(task, event) {
                Turn::Config(exists) => {
                    let next = command_run(
                        task,
                        ActionView::Stream(
                            shell_invocation(host.shell, exists, detach_command(task.volume)),
                        ),
                    );
                    ImageTurn::Step(next.0, next.1)
                },
                Turn::Done(output) => if streamed_failed(output) {
                    ImageTurn::Copied(seq![unmount_failed_message(output.stderr)])
                } else {
                    ImageTurn::Copied(seq![unmounted_message()])
                },
                Turn::Unexpected => ImageTurn::Step(confused(task).0, confused(task).1),
            }
        },
        _ => ImageTurn::Step(confused(task).0, confused(task).1),
    }
}

/// What one answer leads to while an application is copied out of a disk
/// image.
pub enum ImageProgress {
    /// The copy goes on, or has failed, with this step.
    Step(Step),
    /// The application is in place and the volume has been dealt with; these
    /// messages are still to be shown.
    Copied(Vec<String>),
}

/// Whether `progress` is what `turn` asks for, with the task left as `after`.
pub open spec fn progress_is(
    progress: ImageProgress,
    after: TaskView,
    turn: ImageTurn,
    before: TaskView,
) -> bool {
    match turn {
        ImageTurn::Step(t, s) => (progress matches ImageProgress::Step(step) && step@ == s)
            && after == t,
        ImageTurn::Copied(messages) => (progress matches ImageProgress::Copied(m) && texts(m@)
            == messages) && after == before,
    }
}

fn unmount_failed(reason: &str) -> (messages: Vec<String>)
    ensures
        texts(messages@) == seq![unmount_failed_message(reason@)],
{
    let mut message = String::from_str("Failed to unmount: ");
    message.append(reason);
    let mut messages: Vec<String> = Vec::new();
    messages.push(message);
    assert(texts(messages@) =~= seq![unmount_failed_message(reason@)]);
    messages
}

fn locate(task: &mut Task, id: &str, host: &Host, entries: Vec<VolumeEntry>) -> (step: Step)
    ensures
        (final(task)@, step@) == image_located(old(task)@, id@, host@, entry_views(entries@)),
{
    match find_app(&entries, id) {
        None => fail(task, String::from_str("app not found in mounted volume")),
        Some(i) => {
            let entry = &entries[i];
            assert(entry_views(entries@)[i as int] == entry@);
            match &entry.parent {
                None => fail(task, String::from_str("failed to get volumes app's parent path")),
                Some(parent) => {
                    task.bundle = entry.path.clone();
                    task.volume = parent.clone();
                    ask_command(
                        task,
                        host,
                        Stage::Copy,
                        saying("Copying to `/Applications` directory..."),
                    )
                },
            }
        },
    }
}

/// Moves the copy of the application `id` out of the downloaded disk image
/// one step on.
pub fn install_dmg(task: &mut Task, id: &str, host: &Host, event: Event) -> (progress:
    ImageProgress)
    ensures
        progress_is(progress, final(task)@, image_next(old(task)@, id@, host@, event@), old(task)@),
{
    match task.stage {
        Stage::Mount => match event {
            Event::Failed(reason) => ImageProgress::Step(fail(task, reason)),
            other => match take_command_turn(task, other) {
                CommandTurn::Config(exists) => {
                    let mut command = String::from_str("hdiutil attach ");
                    command.append(task.artifact.as_str());
                    let action = run_command_pipe_on_unix(command.as_str(), &host.shell, exists);
                    ImageProgress::Step(run_command(task, action))
                },
                CommandTurn::Done(output) => {
                    if !output.success || !output.stderr.as_str().is_empty() {
                        ImageProgress::Step(fail(task, output.stderr))
                    } else {
                        task.stage = Stage::Locate;
                        ImageProgress::Step(
                            Step {
                                messages: saying("Mounted successfully!"),
                                action: Action::Search {
                                    root: String::from_str("/Volumes"),
                                    min_depth: 1,
                                    max_depth: 3,
                                },
                            },
                        )
                    }
                },
                CommandTurn::Unexpected => ImageProgress::Step(confuse(task)),
            },
        },
        Stage::Locate => match event {
            Event::Failed(reason) => ImageProgress::Step(fail(task, reason)),
            Event::Listing(entries) => ImageProgress::Step(locate(task, id, host, entries)),
            _ => ImageProgress::Step(confuse(task)),
        },
        Stage::Copy => match event {
            Event::Failed(reason) => ImageProgress::Step(fail(task, reason)),
            other => match take_command_turn(task, other) {
                CommandTurn::Config(exists) => {
                    let mut command = String::from_str("cp -R \"");
                    command.append(task.bundle.as_str());
                    command.append("\" /Applications");
                    let action = run_command_pipe_on_unix(command.as_str(), &host.shell, exists);
                    ImageProgress::Step(run_command(task, action))
                },
                CommandTurn::Done(output) => {
                    if !output.success || !output.stderr.as_str().is_empty() {
                        ImageProgress::Step(fail(task, output.stderr))
                    } else {
                        let messages = also_saying(saying("Copied successfully!"), "Unmounting...");
                        assert(texts(messages@) =~= seq![copied_message(), unmounting_message()]);
                        ImageProgress::Step(ask_command(task, host, Stage::Unmount, messages))
                    }
                },
                CommandTurn::Unexpected => ImageProgress::Step(confuse(task)),
            },
        },
        Stage::Unmount => match event {
            Event::Failed(reason) => ImageProgress::Copied(unmount_failed(reason.as_str())),
            other => match take_command_turn(task, other) {
                CommandTurn::Config(exists) => {
                    let mut command = String::from_str("hdiutil detach \"");
                    command.append(task.volume.as_str());
                    command.append("\"");
                    let action = run_command_pipe_on_unix(command.as_str(), &host.shell, exists);
                    ImageProgress::Step(run_command(task, action))
                },
                CommandTurn::Done(output) => {
                    if !output.success || !output.stderr.as_str().is_empty() {
                        ImageProgress::Copied(unmount_failed(output.stderr.as_str()))
                    } else {
                        ImageProgress::Copied(saying("Unmounted successfully!"))
                    }
                },
                CommandTurn::Unexpected => ImageProgress::Step(confuse(task)),
            },
        },
        _ => ImageProgress::Step(confuse(task)),
    }
}

/// The downloaded disk image is deleted, after `messages` are shown.
pub open spec fn image_cleanup(task: TaskView, messages: Seq<Seq<char>>) -> (TaskView, StepView) {
    (
        TaskView { stage: Stage::CleanupRemove, ..task },
        step_of(messages, ActionView::Remove(task.artifact)),
    )
}

/// The application has been copied out of the disk image: the post-install
/// command is next where the tool has one, the cleanup where it has none.
pub open spec fn image_applied(
    task: TaskView,
    tool: ResolvedInstallation,
    host: HostView,
    messages: Seq<Seq<char>>,
) -> (TaskView, StepView) {
    if tool.post_install is Some {
        command_asked(task, host, Stage::PostInstall, messages.push(post_install_message()))
    } else {
        image_cleanup(task, messages)
    }
}

/// One step of the installation of a disk image: ask whether the application
/// is in place; if not, download the image, copy the application out of it,
/// run the post-install command, and delete the image.
pub open spec fn disk_image_next(
    task: TaskView,
    tool: ResolvedInstallation,
    host: HostView,
    event: EventView,
) -> (TaskView, StepView) {
    if is_image_stage(task.stage) {
        match image_next(task, tool.id, host, event) {
            ImageTurn::Step(t, s) => (t, s),
            ImageTurn::Copied(messages) => image_applied(task, tool, host, messages),
        }
    } else if let EventView::Failed(reason) = event {
        failed(task, reason)
    } else {
        match task.stage {
            Stage::Pending => if event is Started {
                application_probed(task, tool)
            } else {
                confused(task)
            },
            Stage::CheckInstalled => match event {
                EventView::Probed(found) => application_checked(task, tool, found),
                _ => confused(task),
            },
            Stage::Download => match event {
                EventView::Downloaded(path) => command_asked(
                    TaskView { artifact: path, ..task },
                    host,
                    Stage::Mount,
                    seq![mounting_message()],
                ),
                _ => confused(task),
            },
            Stage::PostInstall => match command_turn(task, event) {
                Turn::Config(exists) => command_run(
                    task,
                    ActionView::Run(shell_invocation(host.shell, exists, post_install_of(tool))),
                ),
                Turn::Done(output) => if output.success {
                    image_cleanup(task, Seq::empty())
                } else {
                    failed(task, captured_failure(output.stderr))
                },
                Turn::Unexpected => confused(task),
            },
            Stage::CleanupRemove => match event {
                EventView::Removed => ended(task, Outcome::Installed, Seq::empty()),
                _ => confused(task),
            },
            _ => confused(task),
        }
    }
}

fn clean_image(task: &mut Task, messages: Vec<String>) -> (step: Step)
    ensures
        (final(task)@, step@) == image_cleanup(old(task)@, texts(messages@)),
{
    task.stage = Stage::CleanupRemove;
    Step { messages, action: Action::Remove(task.artifact.clone()) }
}

/// Moves the installation of a disk image one step on.
pub fn install_tool_by_dmg(
    task: &mut Task,
    tool: &InstallationDetailItem,
    host: &Host,
    event: Event,
) -> (step: Step)
    ensures
        (final(task)@, step@) == disk_image_next(old(task)@, tool@, host@, event@),
{
    match task.stage {
        Stage::Mount | Stage::Locate | Stage::Copy | Stage::Unmount => {
            match install_dmg(task, tool.id.as_str(), host, event) {
                ImageProgress::Step(step) => step,
                ImageProgress::Copied(messages) => {
                    if tool.post_install.is_some() {
                        let messages = also_saying(messages, "Running post-install script...");
                        ask_command(task, host, Stage::PostInstall, messages)
                    } else {
                        clean_image(task, messages)
                    }
                },
            }
        },
        _ => {
            let event = match event {
                Event::Failed(reason) => {
                    return fail(task, reason);
                },
                other => other,
            };
            match task.stage {
                Stage::Pending => match event {
                    Event::Started => probe_application(task, tool),
                    _ => confuse(task),
                },
                Stage::CheckInstalled => match event {
                    Event::Probed(found) => check_application(task, tool, found),
                    _ => confuse(task),
                },
                Stage::Download => match event {
                    Event::Downloaded(path) => {
                        task.artifact = path;
                        ask_command(task, host, Stage::Mount, saying("Mounting..."))
                    },
                    _ => confuse(task),
                },
                Stage::PostInstall => match take_command_turn(task, event) {
                    CommandTurn::Config(exists) => {
                        let action = run_command_on_unix(
                            post_install_text(tool),
                            &host.shell,
                            exists,
                        );
                        run_command(task, action)
                    },
                    CommandTurn::Done(output) => {
                        if output.success {
                            clean_image(task, silent())
                        } else {
                            fail(task, captured_reason(output.stderr.as_str()))
                        }
                    },
                    CommandTurn::Unexpected => confuse(task),
                },
                Stage::CleanupRemove => match event {
                    Event::Removed => finish(task, InstallOutcome::Installed, silent()),
                    _ => confuse(task),
                },
                _ => confuse(task),
            }
        },
    }
}

/// The command is not there yet: the post-install command is run first where
/// the tool has one, and then the source command.
pub open spec fn command_missing(task: TaskView, tool: ResolvedInstallation, host: HostView) -> (
    TaskView,
    StepView,
) {
    if tool.post_install is Some {
        command_asked(task, host, Stage::PostInstall, seq![post_install_message()])
    } else {
        command_asked(task, host, Stage::RunSource, Seq::empty())
    }
}

/// One step of an installation by shell command: ask whether the command
/// `id` can already be run; if not, run the post-install command and then the
/// source command, its lines shown as progress.
pub open spec fn shell_next(
    task: TaskView,
    tool: ResolvedInstallation,
    host: HostView,
    event: EventView,
) -> (TaskView, StepView) {
    if let EventView::Failed(reason) = event {
        failed(task, reason)
    } else {
        match task.stage {
            Stage::Pending => if event is Started {
                command_asked(task, host, Stage::CheckCommand, Seq::empty())
            } else {
                confused(task)
            },
            Stage::CheckCommand => match command_turn(task, event) {
                Turn::Config(exists) => command_run(
                    task,
                    ActionView::Run(lookup_invocation(host.os, host.shell, exists, tool.id)),
                ),
                Turn::Done(output) => if output.success {
                    ended(task, Outcome::AlreadyInstalled, Seq::empty())
                } else {
                    command_missing(task, tool, host)
                },
                Turn::Unexpected => confused(task),
            },
            Stage::PostInstall => match command_turn(task, event) {
                Turn::Config(exists) => command_run(
                    task,
                    ActionView::Run(shell_invocation(host.shell, exists, post_install_of(tool))),
                ),
                Turn::Done(output) => if output.success {
                    command_asked(task, host, Stage::RunSource, Seq::empty())
                } else {
                    failed(task, captured_failure(output.stderr))
                },
                Turn::Unexpected => confused(task),
            },
            Stage::RunSource => match command_turn(task, event) {
                Turn::Config(exists) => command_run(
                    task,
                    ActionView::Stream(shell_invocation(host.shell, exists, tool.source)),
                ),
                Turn::Done(output) => if streamed_failed(output) {
                    failed(task, output.stderr)
                } else {
                    ended(task, Outcome::Installed, Seq::empty())
                },
                Turn::Unexpected => confused(task),
            },
            _ => confused(task),
        }
    }
}

/// Moves an installation by shell command one step on.
pub fn install_tool_by_shell(
    task: &mut Task,
    tool: &InstallationDetailItem,
    host: &Host,
    event: Event,
) -> (step: Step)
    ensures
        (final(task)@, step@) == shell_next(old(task)@, tool@, host@, event@),
{
    let event = match event {
        Event::Failed(reason) => {
            return fail(task, reason);
        },
        other => other,
    };
    match task.stage {
        Stage::Pending => match event {
            Event::Started => ask_command(task, host, Stage::CheckCommand, silent()),
            _ => confuse(task),
        },
        Stage::CheckCommand => match take_command_turn(task, event) {
            CommandTurn::Config(exists) => {
                let action = is_cmd_exists(tool.id.as_str(), host.os, &host.shell, exists);
                run_command(task, action)
            },
            CommandTurn::Done(output) => {
                if output.success {
                    finish(task, InstallOutcome::AlreadyInstalled, silent())
                } else if tool.post_install.is_some() {
                    ask_command(
                        task,
                        host,
                        Stage::PostInstall,
                        saying("Running post-install script..."),
                    )
                } else {
                    ask_command(task, host, Stage::RunSource, silent())
                }
            },
            CommandTurn::Unexpected => confuse(task),
        },
        Stage::PostInstall => match take_command_turn(task, event) {
            CommandTurn::Config(exists) => {
                let action = run_command_on_unix(post_install_text(tool), &host.shell, exists);
                run_command(task, action)
            },
            CommandTurn::Done(output) => {
                if output.success {
                    ask_command(task, host, Stage::RunSource, silent())
                } else {
                    fail(task, captured_reason(output.stderr.as_str()))
                }
            },
            CommandTurn::Unexpected => confuse(task),
        },
        Stage::RunSource => match take_command_turn(task, event) {
            CommandTurn::Config(exists) => {
                let action = run_command_pipe_on_unix(tool.source.as_str(), &host.shell, exists);
                run_command(task, action)
            },
            CommandTurn::Done(output) => {
                if !output.success || !output.stderr.as_str().is_empty() {
                    fail(task, output.stderr)
                } else {
                    finish(task, InstallOutcome::Installed, silent())
                }
            },
            CommandTurn::Unexpected => confuse(task),
        },
        _ => confuse(task),
    }
}

} // verus!
