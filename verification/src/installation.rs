//! The installation of one tool, whatever its kind: the strategy is chosen by
//! the host's operating system and the record's kind of delivery.

use crate::macos::{
    application_path, archive_next, disk_image_next, install_tool_by_dmg, install_tool_by_shell,
    install_tool_by_zip, shell_next,
};
use crate::manifest::{kind_name, InstallationDetailItem, ResolvedInstallation, Type, OS};
use crate::command::lookup_invocation;
use crate::protocol::{
    Action, ActionView, CommandOutputView, Event, EventView, Outcome, Step, StepView,
};
use crate::task::{
    fail, failed, pending, silent, step_of, strategy_for, Host, HostView, Stage, Strategy, Task,
    TaskView,
};
use crate::windows::{install_tool_by_exe, installer_next};
use vstd::prelude::*;

verus! {

/// The reason given when the host cannot install tools of this kind.
pub open spec fn unsupported(kind: Type) -> Seq<char> {
    "Unsupported installation type: "@ + kind_name(kind)
}

/// One step of the installation of `tool` on `host`: the state after
/// `event`, and what is to be done next.
///
/// An installation that has ended stays as it is and names its outcome
/// again. One whose performer has broken off fails for the reason given,
/// wherever it stood. A tool of a kind that the host cannot install fails at
/// once.
pub open spec fn next(
    task: TaskView,
    tool: ResolvedInstallation,
    host: HostView,
    event: EventView,
) -> (TaskView, StepView) {
    match task.outcome {
        Some(outcome) => (task, step_of(Seq::empty(), ActionView::Finish(outcome))),
        None => if let EventView::Crashed(reason) = event {
            failed(task, reason)
        } else {
            match strategy_for(host.os, tool.kind) {
                None => failed(task, unsupported(tool.kind)),
                Some(Strategy::Archive) => archive_next(task, tool, host, event),
                Some(Strategy::DiskImage) => disk_image_next(task, tool, host, event),
                Some(Strategy::Shell) => shell_next(task, tool, host, event),
                Some(Strategy::NativeInstaller) => installer_next(task, tool, host, event),
            }
        },
    }
}

/// The strategy that installs a tool of this kind on this operating system,
/// if there is one.
pub fn choose_strategy(os: OS, kind: Type) -> (strategy: Option<Strategy>)
    ensures
        strategy == strategy_for(os, kind),
{
    match os {
        OS::MacOS => match kind {
            Type::Zip => Some(Strategy::Archive),
            Type::Dmg => Some(Strategy::DiskImage),
            Type::Shell => Some(Strategy::Shell),
            _ => None,
        },
        OS::Linux => match kind {
            Type::Shell => Some(Strategy::Shell),
            _ => None,
        },
        OS::Windows => match kind {
            Type::Exe => Some(Strategy::NativeInstaller),
            Type::Deb => Some(Strategy::NativeInstaller),
            _ => None,
        },
    }
}

impl Task {
    /// Moves the installation of `tool` on `host` one step on: `event` tells
    /// how the action asked for last went, and the step returned says what to
    /// do next.
    pub fn step(&mut self, tool: &InstallationDetailItem, host: &Host, event: Event) -> (step: Step)
        ensures
            (final(self)@, step@) == next(old(self)@, tool@, host@, event@),
    {
        match &self.outcome {
            Some(outcome) => {
                return Step { messages: silent(), action: Action::Finish(outcome.copy()) };
            },
            None => {},
        }
        let event = match event {
            Event::Crashed(reason) => {
                return fail(self, reason);
            },
            other => other,
        };
        match choose_strategy(host.os, tool.kind) {
            None => {
                let mut reason = String::from_str("Unsupported installation type: ");
                reason.append(tool.kind.name());
                fail(self, reason)
            },
            Some(Strategy::Archive) => install_tool_by_zip(self, tool, host, event),
            Some(Strategy::DiskImage) => install_tool_by_dmg(self, tool, host, event),
            Some(Strategy::Shell) => install_tool_by_shell(self, tool, host, event),
            Some(Strategy::NativeInstaller) => install_tool_by_exe(self, tool, host, event),
        }
    }
}

/// An application that is found in place is left alone: the installation of
/// an archive or a disk image asks whether the application's path exists,
/// and on the answer that it does, ends as already installed. Nothing is
/// downloaded, run or deleted.
pub proof fn lemma_application_in_place_is_left_alone(tool: ResolvedInstallation, host: HostView)
    requires
        strategy_for(host.os, tool.kind) == Some(Strategy::Archive) || strategy_for(
            host.os,
            tool.kind,
        ) == Some(Strategy::DiskImage),
    ensures
        ({
            let asked = next(pending(), tool, host, EventView::Started);
            let answered = next(asked.0, tool, host, EventView::Probed(true));
            &&& asked.1 == step_of(
                Seq::empty(),
                ActionView::PathExists(application_path(tool.id)),
            )
            &&& answered.1 == step_of(
                Seq::empty(),
                ActionView::Finish(Outcome::AlreadyInstalled),
            )
            &&& answered.0.outcome == Some(Outcome::AlreadyInstalled)
        }),
{
}

/// A command that can already be run is left alone: the installation by
/// shell command asks whether the shell's startup file exists, then has the
/// shell look the command up, and when that exits with status zero, ends as
/// already installed. Neither the post-install nor the source command is run.
pub proof fn lemma_command_in_place_is_left_alone(
    tool: ResolvedInstallation,
    host: HostView,
    config_exists: bool,
    stderr: Seq<char>,
)
    requires
        strategy_for(host.os, tool.kind) == Some(Strategy::Shell),
    ensures
        ({
            let asked = next(pending(), tool, host, EventView::Started);
            let looked = next(asked.0, tool, host, EventView::Probed(config_exists));
            let answered = next(
                looked.0,
                tool,
                host,
                EventView::CommandDone(CommandOutputView { success: true, stderr }),
            );
            &&& asked.1 == step_of(Seq::empty(), ActionView::PathExists(host.shell.config))
            &&& looked.1 == step_of(
                Seq::empty(),
                ActionView::Run(lookup_invocation(host.os, host.shell, config_exists, tool.id)),
            )
            &&& answered.1 == step_of(
                Seq::empty(),
                ActionView::Finish(Outcome::AlreadyInstalled),
            )
            &&& answered.0.outcome == Some(Outcome::AlreadyInstalled)
        }),
{
}

/// An application that Windows lists as installed is left alone: the
/// installation by installer ends as already installed at once. Nothing is
/// downloaded or run.
pub proof fn lemma_listed_application_is_left_alone(tool: ResolvedInstallation, host: HostView)
    requires
        strategy_for(host.os, tool.kind) == Some(Strategy::NativeInstaller),
        host.installed_apps.contains(tool.id),
    ensures
        ({
            let answered = next(pending(), tool, host, EventView::Started);
            &&& answered.1 == step_of(
                Seq::empty(),
                ActionView::Finish(Outcome::AlreadyInstalled),
            )
            &&& answered.0.outcome == Some(Outcome::AlreadyInstalled)
        }),
{
}

/// An installation that has ended keeps its outcome, whatever it is told:
/// no tool has a second attempt, and none a second outcome.
pub proof fn lemma_outcome_is_final(
    task: TaskView,
    tool: ResolvedInstallation,
    host: HostView,
    event: EventView,
)
    requires
        task.outcome is Some,
    ensures
        next(task, tool, host, event).0 == task,
        next(task, tool, host, event).1 == step_of(
            Seq::empty(),
            ActionView::Finish(task.outcome.unwrap()),
        ),
{
}

/// A host that cannot install tools of some kind fails them at the first
/// event, and names the kind.
pub proof fn lemma_unsupported_kind_fails(
    tool: ResolvedInstallation,
    host: HostView,
    event: EventView,
)
    requires
        strategy_for(host.os, tool.kind) is None,
        !(event is Crashed),
    ensures
        next(pending(), tool, host, event).0.outcome == Some(
            Outcome::Failed(unsupported(tool.kind)),
        ),
{
}

/// An installation whose performer breaks off ends as failed for the reason
/// given, wherever it stood.
pub proof fn lemma_crash_fails_the_tool(
    task: TaskView,
    tool: ResolvedInstallation,
    host: HostView,
    reason: Seq<char>,
)
    requires
        task.outcome is None,
    ensures
        next(task, tool, host, EventView::Crashed(reason)).0.outcome == Some(
            Outcome::Failed(reason),
        ),
{
}

/// The step that says that nothing is left to do is the step by which the
/// outcome is recorded, and it names that outcome.
pub proof fn lemma_finish_records_the_outcome(
    task: TaskView,
    tool: ResolvedInstallation,
    host: HostView,
    event: EventView,
)
    ensures
        next(task, tool, host, event).1.action is Finish <==> next(
            task,
            tool,
            host,
            event,
        ).0.outcome is Some,
        next(task, tool, host, event).1.action matches ActionView::Finish(outcome) ==> next(
            task,
            tool,
            host,
            event,
        ).0.outcome == Some(outcome),
{
}

/// How far a stage is from the end of an installation by `strategy`: the
/// number of stages that can still follow it, itself included. A stage that
/// the strategy never enters counts as none.
pub open spec fn stages_left(strategy: Strategy, stage: Stage) -> nat {
    match strategy {
        Strategy::Archive => match stage {
            Stage::Pending => 7,
            Stage::CheckInstalled => 6,
            Stage::Download => 5,
            Stage::Extract => 4,
            Stage::PostInstall => 3,
            Stage::CleanupProbe => 2,
            Stage::CleanupRemove => 1,
            _ => 0,
        },
        Strategy::DiskImage => match stage {
            Stage::Pending => 9,
            Stage::CheckInstalled => 8,
            Stage::Download => 7,
            Stage::Mount => 6,
            Stage::Locate => 5,
            Stage::Copy => 4,
            Stage::Unmount => 3,
            Stage::PostInstall => 2,
            Stage::CleanupRemove => 1,
            _ => 0,
        },
        Strategy::Shell => match stage {
            Stage::Pending => 4,
            Stage::CheckCommand => 3,
            Stage::PostInstall => 2,
            Stage::RunSource => 1,
            _ => 0,
        },
        Strategy::NativeInstaller => match stage {
            Stage::Pending => 4,
            Stage::Download => 3,
            Stage::RunInstaller => 2,
            Stage::PostInstall => 1,
            _ => 0,
        },
    }
}

/// A bound on the number of events that an installation can still take
/// before it ends: two for each stage left, and one more while the question
/// about the shell's startup file is open.
pub open spec fn events_left(task: TaskView, tool: ResolvedInstallation, host: HostView) -> nat {
    if task.outcome is Some {
        0
    } else {
        match strategy_for(host.os, tool.kind) {
            None => 1,
            Some(strategy) => 2 * stages_left(strategy, task.stage) + if task.awaiting_config {
                2nat
            } else {
                1nat
            },
        }
    }
}

/// Every event brings an installation nearer to its end: whatever the host
/// answers, the installation ends or has fewer events left.
pub proof fn lemma_every_event_counts(
    task: TaskView,
    tool: ResolvedInstallation,
    host: HostView,
    event: EventView,
)
    requires
        task.outcome is None,
    ensures
        events_left(next(task, tool, host, event).0, tool, host) < events_left(task, tool, host),
{
}

/// The state of an installation after a sequence of events.
pub open spec fn after(
    task: TaskView,
    tool: ResolvedInstallation,
    host: HostView,
    events: Seq<EventView>,
) -> TaskView
    decreases events.len(),
{
    if events.len() == 0 {
        task
    } else {
        after(next(task, tool, host, events.first()).0, tool, host, events.drop_first())
    }
}

/// No installation has more than twenty-one events left.
pub proof fn lemma_events_left_bounded(task: TaskView, tool: ResolvedInstallation, host: HostView)
    ensures
        events_left(task, tool, host) <= 21,
{
}

/// No installation goes on for ever: once it has been told of as many events
/// as it had left, whatever they were, it has ended.
pub proof fn lemma_installation_ends(
    task: TaskView,
    tool: ResolvedInstallation,
    host: HostView,
    events: Seq<EventView>,
)
    requires
        events.len() >= events_left(task, tool, host),
    ensures
        after(task, tool, host, events).outcome is Some,
    decreases events.len(),
{
    if events.len() > 0 {
        let then = next(task, tool, host, events.first()).0;
        if task.outcome is None {
            lemma_every_event_counts(task, tool, host, events.first());
        }
        lemma_installation_ends(then, tool, host, events.drop_first());
    }
}

} // verus!
