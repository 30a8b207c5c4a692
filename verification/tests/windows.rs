use toolkit::windows::{
    get_app_display_names, get_installed_app_display_names, is_app_installed, uninstall_keys, Hive,
};
use toolkit::{
    Action, CommandOutput, Event, Host, InstallOutcome, InstallationDetailItem, Shell, Stage,
    Task, Type, OS,
};

fn names(list: &[&str]) -> Vec<String> {
    list.iter().map(|s| s.to_string()).collect()
}

fn windows_host(installed: &[&str]) -> Host {
    Host {
        os: OS::Windows,
        shell: Shell { program: String::new(), config: String::new() },
        installed_apps: names(installed),
    }
}

fn code(kind: Type, post_install: Option<&str>) -> InstallationDetailItem {
    InstallationDetailItem {
        name: "VS Code".to_string(),
        description: "An editor".to_string(),
        os: OS::Windows,
        arch: Some(toolkit::Arch::X86_64),
        id: "Microsoft Visual Studio Code".to_string(),
        kind,
        source: "https://example.com/VSCodeSetup.exe".to_string(),
        post_install: post_install.map(|s| s.to_string()),
    }
}

fn ended(success: bool, stderr: &str) -> Event {
    Event::CommandDone(CommandOutput { success, stderr: stderr.to_string() })
}

#[test]
fn registry_keys_cover_user_machine_and_32_bit() {
    let keys = uninstall_keys();
    assert_eq!(keys.len(), 3);
    assert_eq!(keys[0].hive, Hive::CurrentUser);
    assert_eq!(keys[0].path, "Software\\Microsoft\\Windows\\CurrentVersion\\Uninstall");
    assert_eq!(keys[1].hive, Hive::LocalMachine);
    assert_eq!(keys[1].path, "Software\\Microsoft\\Windows\\CurrentVersion\\Uninstall");
    assert_eq!(keys[2].hive, Hive::LocalMachine);
    assert_eq!(
        keys[2].path,
        "Software\\Wow6432Node\\Microsoft\\Windows\\CurrentVersion\\Uninstall"
    );
}

#[test]
fn entries_without_display_name_are_skipped() {
    let entries = vec![Some("Git".to_string()), None, Some("7-Zip".to_string()), None];
    assert_eq!(get_app_display_names(&entries), names(&["Git", "7-Zip"]));
    assert!(get_app_display_names(&vec![None, None]).is_empty());
    assert!(get_app_display_names(&Vec::new()).is_empty());
}

#[test]
fn display_names_are_collected_once_each() {
    let found = vec![names(&["Git", "Node.js", "Git"]), names(&[]), names(&["7-Zip", "Node.js"])];
    assert_eq!(get_installed_app_display_names(&found), names(&["Git", "Node.js", "7-Zip"]));
    assert!(get_installed_app_display_names(&Vec::new()).is_empty());
}

#[test]
fn installed_application_is_found_by_its_exact_name() {
    let installed = names(&["Git", "Microsoft Visual Studio Code"]);
    assert!(is_app_installed("Git", &installed));
    assert!(is_app_installed("Microsoft Visual Studio Code", &installed));
    assert!(!is_app_installed("git", &installed));
    assert!(!is_app_installed("Git ", &installed));
    assert!(!is_app_installed("Git", &Vec::new()));
}

#[test]
fn listed_application_is_left_alone() {
    let (tool, host) = (code(Type::Exe, Some("echo never")), windows_host(&["Microsoft Visual Studio Code"]));
    let mut task = Task::new();
    let step = task.step(&tool, &host, Event::Started);
    assert!(step.messages.is_empty());
    assert!(matches!(step.action, Action::Finish(InstallOutcome::AlreadyInstalled)));
}

#[test]
fn installer_is_downloaded_and_run() {
    let (tool, host) = (code(Type::Exe, None), windows_host(&["Git"]));
    let mut task = Task::new();
    let step = task.step(&tool, &host, Event::Started);
    assert_eq!(step.messages, vec!["Downloading...".to_string()]);
    assert!(matches!(&step.action, Action::Download(u) if u == "https://example.com/VSCodeSetup.exe"));
    let step = task.step(&tool, &host, Event::Downloaded("C:\\Temp\\VSCodeSetup.exe".to_string()));
    assert_eq!(step.messages, vec!["Installing...".to_string()]);
    match &step.action {
        Action::Run(invocation) => {
            assert_eq!(invocation.program, "cmd");
            assert_eq!(
                invocation.args,
                vec!["/C".to_string(), "C:\\Temp\\VSCodeSetup.exe".to_string()]
            );
        }
        other => panic!("unexpected {:?}", other),
    }
    assert_eq!(task.stage, Stage::RunInstaller);
    let step = task.step(&tool, &host, ended(true, ""));
    assert!(matches!(step.action, Action::Finish(InstallOutcome::Installed)));
}

#[test]
fn installer_that_exits_nonzero_fails_the_tool() {
    let (tool, host) = (code(Type::Exe, Some("echo never")), windows_host(&[]));
    let mut task = Task::new();
    task.step(&tool, &host, Event::Started);
    task.step(&tool, &host, Event::Downloaded("C:\\Temp\\s.exe".to_string()));
    let step = task.step(&tool, &host, ended(false, "access denied"));
    match step.action {
        Action::Finish(InstallOutcome::Failed(reason)) => {
            assert_eq!(reason, "Installation failed with output: access denied")
        }
        other => panic!("unexpected {:?}", other),
    }
}

#[test]
fn installer_runs_post_install_afterwards() {
    let (tool, host) = (code(Type::Deb, Some("setx EDITOR code")), windows_host(&[]));
    let mut task = Task::new();
    task.step(&tool, &host, Event::Started);
    task.step(&tool, &host, Event::Downloaded("C:\\Temp\\s.exe".to_string()));
    let step = task.step(&tool, &host, ended(true, "a warning"));
    assert_eq!(step.messages, vec!["Running post-install script...".to_string()]);
    match &step.action {
        Action::Run(invocation) => {
            assert_eq!(invocation.program, "cmd");
            assert_eq!(invocation.args, vec!["/C".to_string(), "setx EDITOR code".to_string()]);
        }
        other => panic!("unexpected {:?}", other),
    }
    let step = task.step(&tool, &host, ended(true, ""));
    assert!(matches!(step.action, Action::Finish(InstallOutcome::Installed)));
}

#[test]
fn shell_record_cannot_be_installed_on_windows() {
    let (tool, host) = (code(Type::Shell, None), windows_host(&[]));
    let mut task = Task::new();
    let step = task.step(&tool, &host, Event::Started);
    match step.action {
        Action::Finish(InstallOutcome::Failed(reason)) => {
            assert_eq!(reason, "Unsupported installation type: shell")
        }
        other => panic!("unexpected {:?}", other),
    }
}
