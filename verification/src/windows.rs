//! Installation on Windows: the applications that the system lists as
//! installed, and installers.

use crate::command::{run_command_on_windows, windows_invocation};
use crate::manifest::{InstallationDetailItem, ResolvedInstallation};
use crate::protocol::{ActionView, Event, EventView, InstallOutcome, Outcome, Step, StepView};
use crate::task::{
    ask_download, captured_failure, captured_reason, confuse, confused, download_asked, ended,
    fail, failed, finish, post_install_message, post_install_of, post_install_text, saying,
    silent, step_of, Host, HostView, Stage, Task, TaskView,
};
use crate::text::{text_eq, texts};
use vstd::prelude::*;

verus! {

/// A root of the registry.
#[derive(Debug, PartialEq, Eq, Structural, Copy, Clone)]
pub enum Hive {
    CurrentUser,
    LocalMachine,
}

/// A registry key that lists installed applications, one subkey each.
#[derive(Debug)]
pub struct UninstallKey {
    pub hive: Hive,
    pub path: String,
}

/// Where Windows lists the applications of the current user and of the
/// machine.
pub open spec fn uninstall_path() -> Seq<char> {
    "Software\\Microsoft\\Windows\\CurrentVersion\\Uninstall"@
}

/// Where a 64-bit Windows lists the 32-bit applications of the machine.
pub open spec fn uninstall_path_32() -> Seq<char> {
    "Software\\Wow6432Node\\Microsoft\\Windows\\CurrentVersion\\Uninstall"@
}

/// The registry keys to read the installed applications from: the current
/// user's, the machine's, and the machine's 32-bit applications.
pub fn uninstall_keys() -> (keys: Vec<UninstallKey>)
    ensures
        keys.len() == 3,
        keys[0].hive == Hive::CurrentUser && keys[0].path@ == uninstall_path(),
        keys[1].hive == Hive::LocalMachine && keys[1].path@ == uninstall_path(),
        keys[2].hive == Hive::LocalMachine && keys[2].path@ == uninstall_path_32(),
{
    let mut keys: Vec<UninstallKey> = Vec::new();
    keys.push(
        UninstallKey {
            hive: Hive::CurrentUser,
            path: String::from_str("Software\\Microsoft\\Windows\\CurrentVersion\\Uninstall"),
        },
    );
    keys.push(
        UninstallKey {
            hive: Hive::LocalMachine,
            path: String::from_str("Software\\Microsoft\\Windows\\CurrentVersion\\Uninstall"),
        },
    );
    keys.push(
        UninstallKey {
            hive: Hive::LocalMachine,
            path: String::from_str(
                "Software\\Wow6432Node\\Microsoft\\Windows\\CurrentVersion\\Uninstall",
            ),
        },
    );
    keys
}

/// The display names that are there, in their order.
pub open spec fn present(names: Seq<Option<String>>) -> Seq<Seq<char>>
    decreases names.len(),
{
    if names.len() == 0 {
        Seq::empty()
    } else {
        match names.last() {
            Some(name) => present(names.drop_last()).push(name@),
            None => present(names.drop_last()),
        }
    }
}

/// The display names of the applications listed below one registry key,
/// given the display name of each subkey where it has one that can be read:
/// the others are skipped.
pub fn get_app_display_names(entries: &Vec<Option<String>>) -> (display_names: Vec<String>)
    ensures
        texts(display_names@) == present(entries@),
{
    let mut display_names: Vec<String> = Vec::new();
    let mut i: usize = 0;
    assert(texts(display_names@) =~= present(entries@.take(0)));
    while i < entries.len()
        invariant
            i <= entries.len(),
            texts(display_names@) == present(entries@.take(i as int)),
        decreases entries.len() - i,
    {
        proof {
            assert(entries@.take(i + 1).drop_last() == entries@.take(i as int));
            assert(entries@.take(i + 1).last() == entries@[i as int]);
        }
        match &entries[i] {
            Some(name) => {
                let ghost before = texts(display_names@);
                display_names.push(name.clone());
                assert(texts(display_names@) =~= before.push(name@));
            },
            None => {},
        }
        i += 1;
    }
    assert(entries@.take(i as int) == entries@);
    display_names
}

/// The names of each list.
pub open spec fn name_lists(lists: Seq<Vec<String>>) -> Seq<Seq<Seq<char>>> {
    lists.map_values(|list: Vec<String>| texts(list@))
}

/// Whether `name` stands in one of the first `count` lists.
pub open spec fn listed(lists: Seq<Seq<Seq<char>>>, count: int, name: Seq<char>) -> bool {
    exists|k: int| 0 <= k < count && (#[trigger] lists[k]).contains(name)
}

/// Whether `display_name` is one of the installed applications' display
/// names.
pub fn is_app_installed(display_name: &str, installed_app_display_names: &Vec<String>) -> (found:
    bool)
    ensures
        found == texts(installed_app_display_names@).contains(display_name@),
{
    let ghost names = texts(installed_app_display_names@);
    let mut i: usize = 0;
    while i < installed_app_display_names.len()
        invariant
            i <= installed_app_display_names.len(),
            names == texts(installed_app_display_names@),
            forall|j: int| 0 <= j < i ==> names[j] != display_name@,
        decreases installed_app_display_names.len() - i,
    {
        if text_eq(installed_app_display_names[i].as_str(), display_name) {
            assert(names[i as int] == display_name@);
            return true;
        }
        i += 1;
    }
    false
}

fn add_display_names(display_names_set: &mut Vec<String>, display_names: &Vec<String>)
    requires
        texts(old(display_names_set)@).no_duplicates(),
    ensures
        texts(final(display_names_set)@).no_duplicates(),
        forall|name: Seq<char>|
            #![trigger texts(final(display_names_set)@).contains(name)]
            texts(final(display_names_set)@).contains(name) <==> (texts(
                old(display_names_set)@,
            ).contains(name) || texts(display_names@).contains(name)),
{
    let ghost start = texts(display_names_set@);
    let ghost added = texts(display_names@);
    let mut i: usize = 0;
    while i < display_names.len()
        invariant
            i <= display_names.len(),
            added == texts(display_names@),
            texts(display_names_set@).no_duplicates(),
            forall|name: Seq<char>|
                #![trigger texts(display_names_set@).contains(name)]
                texts(display_names_set@).contains(name) <==> (start.contains(name) || added.take(
                    i as int,
                ).contains(name)),
        decreases display_names.len() - i,
    {
        let name = &display_names[i];
        let ghost before = texts(display_names_set@);
        let known = is_app_installed(name.as_str(), display_names_set);
        if !known {
            display_names_set.push(name.clone());
            assert(texts(display_names_set@) =~= before.push(name@));
        }
        proof {
            let after = texts(display_names_set@);
            let seen = added.take(i as int);
            assert(added.take(i + 1) =~= seen.push(name@));
            assert forall|n: Seq<char>| #![trigger after.contains(n)] after.contains(n) <==> (
            start.contains(n) || seen.push(name@).contains(n)) by {
                vstd::seq_lib::lemma_seq_contains_after_push(seen, name@, n);
                if !known {
                    vstd::seq_lib::lemma_seq_contains_after_push(before, name@, n);
                }
            }
        }
        i += 1;
    }
    assert(added.take(i as int) == added);
}

/// The display names of every installed application, each once, given the
/// names found below each registry key.
pub fn get_installed_app_display_names(found: &Vec<Vec<String>>) -> (display_names_set: Vec<
    String,
>)
    ensures
        texts(display_names_set@).no_duplicates(),
        forall|name: Seq<char>|
            #![trigger texts(display_names_set@).contains(name)]
            texts(display_names_set@).contains(name) <==> listed(
                name_lists(found@),
                found.len() as int,
                name,
            ),
{
    let mut display_names_set: Vec<String> = Vec::new();
    let ghost lists = name_lists(found@);
    let mut i: usize = 0;
    assert(texts(display_names_set@) =~= Seq::<Seq<char>>::empty());
    while i < found.len()
        invariant
            i <= found.len(),
            lists == name_lists(found@),
            texts(display_names_set@).no_duplicates(),
            forall|name: Seq<char>|
                #![trigger texts(display_names_set@).contains(name)]
                texts(display_names_set@).contains(name) <==> listed(lists, i as int, name),
        decreases found.len() - i,
    {
        let ghost before = texts(display_names_set@);
        add_display_names(&mut display_names_set, &found[i]);
        proof {
            let after = texts(display_names_set@);
            assert(lists[i as int] == texts(found[i as int]@));
            assert forall|name: Seq<char>| #![trigger after.contains(name)] after.contains(name)
                <==> listed(lists, i + 1, name) by {
                if listed(lists, i + 1, name) {
                    let k = choose|k: int| 0 <= k < i + 1 && (#[trigger] lists[k]).contains(name);
                    if k < i {
                        assert(listed(lists, i as int, name));
                        assert(before.contains(name));
                    }
                }
                if before.contains(name) {
                    assert(listed(lists, i as int, name));
                    let k = choose|k: int| 0 <= k < i && (#[trigger] lists[k]).contains(name);
                    assert(lists[k].contains(name));
                }
                if lists[i as int].contains(name) {
                    assert(listed(lists, i + 1, name));
                }
            }
        }
        i += 1;
    }
    display_names_set
}

/// The message that announces the run of an installer.
pub open spec fn installing_message() -> Seq<char> {
    "Installing..."@
}

/// The reason given when an installer did not exit with status zero.
pub open spec fn installer_failure(stderr: Seq<char>) -> Seq<char> {
    "Installation failed with output: "@ + stderr
}

/// One step of the installation by an installer: nothing is done when the
/// tool's `id` is among the installed applications' display names; else the
/// installer is downloaded and run, and then the post-install command.
pub open spec fn installer_next(
    task: TaskView,
    tool: ResolvedInstallation,
    host: HostView,
    event: EventView,
) -> (TaskView, StepView) {
    if let EventView::Failed(reason) = event {
        failed(task, reason)
    } else {
        match task.stage {
            Stage::Pending => if event is Started {
                if host.installed_apps.contains(tool.id) {
                    ended(task, Outcome::AlreadyInstalled, Seq::empty())
                } else {
                    download_asked(task, tool)
                }
            } else {
                confused(task)
            },
            Stage::Download => match event {
                EventView::Downloaded(path) => (
                    TaskView { stage: Stage::RunInstaller, artifact: path, ..task },
                    step_of(
                        seq![installing_message()],
                        ActionView::Run(windows_invocation(path)),
                    ),
                ),
                _ => confused(task),
            },
            Stage::RunInstaller => match event {
                EventView::CommandDone(output) => if !output.success {
                    failed(task, installer_failure(output.stderr))
                } else if tool.post_install is Some {
                    (
                        TaskView { stage: Stage::PostInstall, ..task },
                        step_of(
                            seq![post_install_message()],
                            ActionView::Run(windows_invocation(post_install_of(tool))),
                        ),
                    )
                } else {
                    ended(task, Outcome::Installed, Seq::empty())
                },
                _ => confused(task),
            },
            Stage::PostInstall => match event {
                EventView::CommandDone(output) => if output.success {
                    ended(task, Outcome::Installed, Seq::empty())
                } else {
                    failed(task, captured_failure(output.stderr))
                },
                _ => confused(task),
            },
            _ => confused(task),
        }
    }
}

/// Moves the installation by an installer one step on.
pub fn install_tool_by_exe(
    task: &mut Task,
    tool: &InstallationDetailItem,
    host: &Host,
    event: Event,
) -> (step: Step)
    ensures
        (final(task)@, step@) == installer_next(old(task)@, tool@, host@, event@),
{
    let event = match event {
        Event::Failed(reason) => {
            return fail(task, reason);
        },
        other => other,
    };
    match task.stage {
        Stage::Pending => match event {
            Event::Started => {
                if is_app_installed(tool.id.as_str(), &host.installed_apps) {
                    finish(task, InstallOutcome::AlreadyInstalled, silent())
                } else {
                    ask_download(task, tool)
                }
            },
            _ => confuse(task),
        },
        Stage::Download => match event {
            Event::Downloaded(path) => {
                let action = run_command_on_windows(path.as_str());
                task.stage = Stage::RunInstaller;
                task.artifact = path;
                Step { messages: saying("Installing..."), action }
            },
            _ => confuse(task),
        },
        Stage::RunInstaller => match event {
            Event::CommandDone(output) => {
                if !output.success {
                    let mut reason = String::from_str("Installation failed with output: ");
                    reason.append(output.stderr.as_str());
                    fail(task, reason)
                } else if tool.post_install.is_some() {
                    task.stage = Stage::PostInstall;
                    Step {
                        messages: saying("Running post-install script..."),
                        action: run_command_on_windows(post_install_text(tool)),
                    }
                } else {
                    finish(task, InstallOutcome::Installed, silent())
                }
            },
            _ => confuse(task),
        },
        Stage::PostInstall => match event {
            Event::CommandDone(output) => {
                if output.success {
                    finish(task, InstallOutcome::Installed, silent())
                } else {
                    fail(task, captured_reason(output.stderr.as_str()))
                }
            },
            _ => confuse(task),
        },
        _ => confuse(task),
    }
}

} // verus!
