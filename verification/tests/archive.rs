use toolkit::{
    Action, CommandOutput, Event, Host, InstallOutcome, InstallationDetailItem, Shell, Stage,
    Step, Task, Type, OS,
};

fn mac() -> Host {
    Host {
        os: OS::MacOS,
        shell: Shell { program: "/bin/zsh".to_string(), config: "/Users/me/.zshrc".to_string() },
        installed_apps: Vec::new(),
    }
}

fn editor(post_install: Option<&str>) -> InstallationDetailItem {
    InstallationDetailItem {
        name: "Editor".to_string(),
        description: "An editor".to_string(),
        os: OS::MacOS,
        arch: None,
        id: "Editor.app".to_string(),
        kind: Type::Zip,
        source: "https://example.com/editor.zip".to_string(),
        post_install: post_install.map(|s| s.to_string()),
    }
}

fn ok() -> Event {
    Event::CommandDone(CommandOutput { success: true, stderr: String::new() })
}

fn expect_path(step: &Step, path: &str) {
    match &step.action {
        Action::PathExists(p) => assert_eq!(p, path),
        other => panic!("unexpected {:?}", other),
    }
}

fn expect_run(step: &Step, line: &str) {
    match &step.action {
        Action::Run(invocation) => {
            assert_eq!(invocation.program, "/bin/zsh");
            assert_eq!(invocation.args, vec!["-c".to_string(), line.to_string()]);
        }
        other => panic!("unexpected {:?}", other),
    }
}

#[test]
fn archive_already_in_place_is_left_alone() {
    let (tool, host) = (editor(Some("echo done")), mac());
    let mut task = Task::new();
    let step = task.step(&tool, &host, Event::Started);
    assert!(step.messages.is_empty());
    expect_path(&step, "/Applications/Editor.app");
    assert_eq!(task.stage, Stage::CheckInstalled);
    assert!(!task.is_done());
    let step = task.step(&tool, &host, Event::Probed(true));
    assert!(step.messages.is_empty());
    assert!(matches!(step.action, Action::Finish(InstallOutcome::AlreadyInstalled)));
    assert!(task.is_done());
    assert!(matches!(task.outcome, Some(InstallOutcome::AlreadyInstalled)));
}

#[test]
fn archive_is_downloaded_unpacked_and_cleaned_up() {
    let (tool, host) = (editor(None), mac());
    let mut task = Task::new();
    task.step(&tool, &host, Event::Started);
    let step = task.step(&tool, &host, Event::Probed(false));
    assert_eq!(step.messages, vec!["Downloading...".to_string()]);
    match &step.action {
        Action::Download(url) => assert_eq!(url, "https://example.com/editor.zip"),
        other => panic!("unexpected {:?}", other),
    }
    let step = task.step(&tool, &host, Event::Downloaded("/tmp/editor.zip".to_string()));
    assert_eq!(step.messages, vec!["Extracting zip to `/Applications` directory...".to_string()]);
    expect_path(&step, "/Users/me/.zshrc");
    assert_eq!(task.artifact, "/tmp/editor.zip");
    let step = task.step(&tool, &host, Event::Probed(true));
    assert!(step.messages.is_empty());
    expect_run(&step, "source /Users/me/.zshrc && unzip -o /tmp/editor.zip -d /Applications");
    let step = task.step(&tool, &host, ok());
    expect_path(&step, "/tmp/editor.zip");
    assert_eq!(task.stage, Stage::CleanupProbe);
    let step = task.step(&tool, &host, Event::Probed(true));
    match &step.action {
        Action::Remove(path) => assert_eq!(path, "/tmp/editor.zip"),
        other => panic!("unexpected {:?}", other),
    }
    let step = task.step(&tool, &host, Event::Removed);
    assert!(matches!(step.action, Action::Finish(InstallOutcome::Installed)));
    assert!(matches!(task.outcome, Some(InstallOutcome::Installed)));
}

#[test]
fn archive_runs_post_install_before_cleanup() {
    let (tool, host) = (editor(Some("xattr -cr /Applications/Editor.app")), mac());
    let mut task = Task::new();
    task.step(&tool, &host, Event::Started);
    task.step(&tool, &host, Event::Probed(false));
    task.step(&tool, &host, Event::Downloaded("/tmp/editor.zip".to_string()));
    task.step(&tool, &host, Event::Probed(false));
    let step = task.step(&tool, &host, ok());
    assert_eq!(step.messages, vec!["Running post-install script...".to_string()]);
    expect_path(&step, "/Users/me/.zshrc");
    assert_eq!(task.stage, Stage::PostInstall);
    let step = task.step(&tool, &host, Event::Probed(false));
    expect_run(&step, "xattr -cr /Applications/Editor.app");
    let step = task.step(&tool, &host, ok());
    expect_path(&step, "/tmp/editor.zip");
    let step = task.step(&tool, &host, Event::Probed(false));
    assert!(matches!(step.action, Action::Finish(InstallOutcome::Installed)));
}

#[test]
fn archive_download_failure_fails_the_tool() {
    let (tool, host) = (editor(None), mac());
    let mut task = Task::new();
    task.step(&tool, &host, Event::Started);
    task.step(&tool, &host, Event::Probed(false));
    let step = task.step(
        &tool,
        &host,
        Event::Failed("Failed to GET from 'https://example.com/editor.zip'. Error: timeout".to_string()),
    );
    match step.action {
        Action::Finish(InstallOutcome::Failed(reason)) => assert_eq!(
            reason,
            "Failed to GET from 'https://example.com/editor.zip'. Error: timeout"
        ),
        other => panic!("unexpected {:?}", other),
    }
    assert!(task.is_done());
}

#[test]
fn archive_extraction_failure_fails_the_tool() {
    let (tool, host) = (editor(None), mac());
    let mut task = Task::new();
    task.step(&tool, &host, Event::Started);
    task.step(&tool, &host, Event::Probed(false));
    task.step(&tool, &host, Event::Downloaded("/tmp/editor.zip".to_string()));
    task.step(&tool, &host, Event::Probed(false));
    let step = task.step(
        &tool,
        &host,
        Event::CommandDone(CommandOutput { success: false, stderr: "bad zip".to_string() }),
    );
    match step.action {
        Action::Finish(InstallOutcome::Failed(reason)) => {
            assert_eq!(reason, "Command failed with output: bad zip")
        }
        other => panic!("unexpected {:?}", other),
    }
}

#[test]
fn answer_that_does_not_fit_fails_the_tool() {
    let (tool, host) = (editor(None), mac());
    let mut task = Task::new();
    task.step(&tool, &host, Event::Started);
    let step = task.step(&tool, &host, Event::Removed);
    match step.action {
        Action::Finish(InstallOutcome::Failed(reason)) => {
            assert_eq!(reason, "Unexpected answer from the host")
        }
        other => panic!("unexpected {:?}", other),
    }
    let mut task = Task::new();
    let step = task.step(&tool, &host, Event::Probed(true));
    assert!(matches!(step.action, Action::Finish(InstallOutcome::Failed(_))));
}

#[test]
fn ended_installation_keeps_its_outcome() {
    let (tool, host) = (editor(None), mac());
    let mut task = Task::new();
    task.step(&tool, &host, Event::Started);
    task.step(&tool, &host, Event::Probed(true));
    let step = task.step(&tool, &host, Event::Failed("late".to_string()));
    assert!(step.messages.is_empty());
    assert!(matches!(step.action, Action::Finish(InstallOutcome::AlreadyInstalled)));
    let step = task.step(&tool, &host, Event::Started);
    assert!(matches!(step.action, Action::Finish(InstallOutcome::AlreadyInstalled)));
    assert!(matches!(task.outcome, Some(InstallOutcome::AlreadyInstalled)));
}

#[test]
fn kind_that_the_host_cannot_install_fails_at_once() {
    let host = mac();
    let mut tool = editor(None);
    tool.kind = Type::Exe;
    let mut task = Task::new();
    let step = task.step(&tool, &host, Event::Started);
    match step.action {
        Action::Finish(InstallOutcome::Failed(reason)) => {
            assert_eq!(reason, "Unsupported installation type: exe")
        }
        other => panic!("unexpected {:?}", other),
    }
    let linux = Host { os: OS::Linux, ..mac() };
    tool.kind = Type::Zip;
    let mut task = Task::new();
    let step = task.step(&tool, &linux, Event::Started);
    match step.action {
        Action::Finish(InstallOutcome::Failed(reason)) => {
            assert_eq!(reason, "Unsupported installation type: zip")
        }
        other => panic!("unexpected {:?}", other),
    }
}
