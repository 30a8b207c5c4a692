use toolkit::{
    final_report, install, Action, Batch, CommandOutput, Event, HostError, InstallOutcome,
    RawInstallationDetailItem, Shell, ToolInstallationManifest, ToolkitsManifest, Type, OS,
};

/// A machine that exists only in memory: what lies on its disk, which
/// commands it knows, and which downloads fail.
struct World {
    paths: Vec<String>,
    commands: Vec<String>,
    unreachable: Vec<String>,
    log: Vec<String>,
}

impl World {
    fn new() -> World {
        World { paths: Vec::new(), commands: Vec::new(), unreachable: Vec::new(), log: Vec::new() }
    }

    fn run(&mut self, line: &str) -> Event {
        self.log.push(format!("run {}", line));
        let done = |success: bool| {
            Event::CommandDone(CommandOutput { success, stderr: String::new() })
        };
        if let Some(name) = line.strip_prefix("command -v ") {
            return done(self.commands.iter().any(|c| c == name));
        }
        if let Some(rest) = line.strip_prefix("unzip -o ") {
            let zip = rest.split(" -d ").next().unwrap();
            let app = zip.trim_start_matches("/tmp/").trim_end_matches(".zip");
            self.paths.push(format!("/Applications/{}.app", app));
            return done(true);
        }
        if let Some(name) = line.strip_prefix("install ") {
            self.commands.push(name.to_string());
            return done(true);
        }
        done(true)
    }

    fn perform(&mut self, action: &Action) -> Event {
        match action {
            Action::PathExists(path) => Event::Probed(self.paths.iter().any(|p| p == path)),
            Action::Run(invocation) | Action::Stream(invocation) => {
                let line = invocation.args[1].clone();
                self.run(&line)
            }
            Action::Download(url) => {
                self.log.push(format!("download {}", url));
                if self.unreachable.iter().any(|u| u == url) {
                    Event::Failed(format!("Failed to GET from '{}'. Error: connection refused", url))
                } else {
                    let file = url.rsplit('/').next().unwrap();
                    let path = format!("/tmp/{}", file);
                    self.paths.push(path.clone());
                    Event::Downloaded(path)
                }
            }
            Action::Search { .. } => Event::Listing(Vec::new()),
            Action::Remove(path) => {
                self.log.push(format!("remove {}", path));
                self.paths.retain(|p| p != path);
                Event::Removed
            }
            Action::Finish(_) => panic!("nothing to perform"),
        }
    }
}

/// Runs every task of the batch to its end, one step of each in turn.
fn run_all(batch: &mut Batch, world: &mut World) {
    let count = batch.len();
    let mut pending: Vec<Option<Event>> = (0..count).map(|_| Some(Event::Started)).collect();
    let mut turns = 0;
    while pending.iter().any(|e| e.is_some()) {
        for index in 0..count {
            if let Some(event) = pending[index].take() {
                let step = batch.advance(index, event).unwrap();
                pending[index] = match step.action {
                    Action::Finish(_) => None,
                    action => Some(world.perform(&action)),
                };
            }
        }
        turns += 1;
        assert!(turns < 100);
    }
}

fn zip_tool(name: &str) -> ToolInstallationManifest {
    ToolInstallationManifest {
        name: name.to_string(),
        description: String::new(),
        installations: vec![
            RawInstallationDetailItem {
                os: OS::MacOS,
                arch: None,
                id: format!("{}.app", name),
                kind: Type::Zip,
                source: format!("https://example.com/{}.zip", name),
                post_install: None,
            },
            RawInstallationDetailItem {
                os: OS::Windows,
                arch: None,
                id: name.to_string(),
                kind: Type::Exe,
                source: format!("https://example.com/{}.exe", name),
                post_install: None,
            },
        ],
    }
}

fn shell_tool(name: &str) -> ToolInstallationManifest {
    ToolInstallationManifest {
        name: name.to_string(),
        description: String::new(),
        installations: vec![RawInstallationDetailItem {
            os: OS::MacOS,
            arch: None,
            id: name.to_string(),
            kind: Type::Shell,
            source: format!("install {}", name),
            post_install: None,
        }],
    }
}

fn manifest(tools: Vec<ToolInstallationManifest>) -> ToolkitsManifest {
    ToolkitsManifest {
        author: "someone".to_string(),
        version: "1.0.0".to_string(),
        description: "tools".to_string(),
        tools,
    }
}

fn shell() -> Shell {
    Shell { program: "/bin/zsh".to_string(), config: "/Users/me/.zshrc".to_string() }
}

fn begin(tools: Vec<ToolInstallationManifest>) -> Batch {
    install(&manifest(tools), "macos", "aarch64", shell(), Vec::new()).unwrap()
}

fn outcomes(batch: &Batch) -> Vec<(String, String)> {
    batch
        .results()
        .iter()
        .map(|e| {
            let outcome = match &e.outcome {
                InstallOutcome::AlreadyInstalled => "already".to_string(),
                InstallOutcome::Installed => "installed".to_string(),
                InstallOutcome::Failed(reason) => format!("failed: {}", reason),
            };
            (e.name.clone(), outcome)
        })
        .collect()
}

#[test]
fn three_tools_one_in_place_one_failing_one_clean() {
    let mut world = World::new();
    world.paths.push("/Applications/Alpha.app".to_string());
    world.unreachable.push("https://example.com/Beta.zip".to_string());
    let mut batch = begin(vec![zip_tool("Alpha"), zip_tool("Beta"), zip_tool("Gamma")]);
    assert_eq!(batch.len(), 3);
    assert!(!batch.is_complete());
    assert!(final_report(&batch).is_none());
    run_all(&mut batch, &mut world);
    assert!(batch.is_complete());
    let all = outcomes(&batch);
    assert_eq!(all.len(), 3);
    assert_eq!(all.iter().filter(|(_, o)| o == "already").count(), 1);
    assert_eq!(all.iter().filter(|(_, o)| o == "installed").count(), 1);
    assert!(all.contains(&("Alpha".to_string(), "already".to_string())));
    assert!(all.contains(&(
        "Beta".to_string(),
        "failed: Failed to GET from 'https://example.com/Beta.zip'. Error: connection refused"
            .to_string()
    )));
    assert!(all.contains(&("Gamma".to_string(), "installed".to_string())));
    let report = final_report(&batch).unwrap();
    assert_eq!(report.len(), 3);
}

#[test]
fn outcomes_are_listed_in_the_order_of_completion() {
    let mut world = World::new();
    world.paths.push("/Applications/Gamma.app".to_string());
    world.unreachable.push("https://example.com/Beta.zip".to_string());
    let mut batch = begin(vec![zip_tool("Alpha"), zip_tool("Beta"), zip_tool("Gamma")]);
    run_all(&mut batch, &mut world);
    let order: Vec<usize> = batch.results().iter().map(|e| e.index).collect();
    assert_eq!(order, vec![2, 1, 0]);
}

#[test]
fn manifest_without_a_record_for_this_os_gives_an_empty_run() {
    let tools = vec![ToolInstallationManifest {
        name: "Only Windows".to_string(),
        description: String::new(),
        installations: vec![RawInstallationDetailItem {
            os: OS::Windows,
            arch: None,
            id: "x".to_string(),
            kind: Type::Exe,
            source: "https://example.com/x.exe".to_string(),
            post_install: None,
        }],
    }];
    let batch = install(&manifest(tools), "linux", "x86_64", shell(), Vec::new()).unwrap();
    assert_eq!(batch.len(), 0);
    assert!(batch.is_complete());
    assert!(batch.results().is_empty());
    assert_eq!(final_report(&batch), Some(Vec::new()));
}

#[test]
fn unknown_host_stops_the_run_before_it_starts() {
    let tools = vec![zip_tool("Alpha")];
    match install(&manifest(tools), "plan9", "aarch64", shell(), Vec::new()) {
        Err(HostError::UnsupportedOs(name)) => assert_eq!(name, "plan9"),
        other => panic!("unexpected {:?}", other.map(|b| b.len())),
    }
    let tools = vec![zip_tool("Alpha")];
    match install(&manifest(tools), "macos", "mips", shell(), Vec::new()) {
        Err(HostError::UnsupportedArch(name)) => assert_eq!(name, "mips"),
        other => panic!("unexpected {:?}", other.map(|b| b.len())),
    }
}

#[test]
fn second_run_finds_everything_in_place() {
    let mut world = World::new();
    let tools = || vec![zip_tool("Alpha"), shell_tool("beta"), zip_tool("Gamma")];
    let mut first = begin(tools());
    run_all(&mut first, &mut world);
    assert!(outcomes(&first).iter().all(|(_, o)| o == "installed"));
    world.log.clear();
    let mut second = begin(tools());
    run_all(&mut second, &mut world);
    assert_eq!(second.results().len(), 3);
    assert!(outcomes(&second).iter().all(|(_, o)| o == "already"));
    assert!(world.log.iter().all(|entry| entry.starts_with("run command -v ")));
}

#[test]
fn tool_in_place_causes_no_download_and_no_deletion() {
    let mut world = World::new();
    world.paths.push("/Applications/Alpha.app".to_string());
    let mut batch = begin(vec![zip_tool("Alpha")]);
    run_all(&mut batch, &mut world);
    assert_eq!(outcomes(&batch), vec![("Alpha".to_string(), "already".to_string())]);
    assert!(world.log.is_empty());
    assert_eq!(world.paths, vec!["/Applications/Alpha.app".to_string()]);
}

#[test]
fn failure_of_one_tool_leaves_the_others_as_they_would_be() {
    let tools = || vec![zip_tool("Alpha"), zip_tool("Beta"), shell_tool("gamma")];
    let mut calm = World::new();
    let mut without_failure = begin(tools());
    run_all(&mut without_failure, &mut calm);
    let mut rough = World::new();
    rough.unreachable.push("https://example.com/Beta.zip".to_string());
    let mut with_failure = begin(tools());
    run_all(&mut with_failure, &mut rough);
    let before = outcomes(&without_failure);
    let after = outcomes(&with_failure);
    for name in ["Alpha", "gamma"] {
        let was = before.iter().find(|(n, _)| n == name).unwrap();
        let is = after.iter().find(|(n, _)| n == name).unwrap();
        assert_eq!(was, is);
        assert_eq!(is.1, "installed");
    }
    assert!(after.iter().any(|(n, o)| n == "Beta" && o.starts_with("failed: ")));
}

#[test]
fn step_of_one_task_touches_no_other() {
    let mut batch = begin(vec![zip_tool("Alpha"), zip_tool("Beta")]);
    batch.advance(0, Event::Started).unwrap();
    let step = batch.advance(0, Event::Failed("forced".to_string())).unwrap();
    assert!(matches!(step.action, Action::Finish(InstallOutcome::Failed(_))));
    assert_eq!(batch.results().len(), 1);
    assert!(!batch.is_complete());
    let step = batch.advance(1, Event::Started).unwrap();
    assert!(matches!(&step.action, Action::PathExists(p) if p == "/Applications/Beta.app"));
    let step = batch.advance(1, Event::Probed(true)).unwrap();
    assert!(matches!(step.action, Action::Finish(InstallOutcome::AlreadyInstalled)));
    assert_eq!(
        outcomes(&batch),
        vec![
            ("Alpha".to_string(), "failed: forced".to_string()),
            ("Beta".to_string(), "already".to_string())
        ]
    );
    assert!(batch.is_complete());
}

#[test]
fn ended_task_gets_no_second_outcome() {
    let mut batch = begin(vec![zip_tool("Alpha")]);
    batch.advance(0, Event::Started).unwrap();
    batch.advance(0, Event::Probed(true)).unwrap();
    let step = batch.advance(0, Event::Failed("late".to_string())).unwrap();
    assert!(matches!(step.action, Action::Finish(InstallOutcome::AlreadyInstalled)));
    batch.advance(0, Event::Started).unwrap();
    assert_eq!(outcomes(&batch), vec![("Alpha".to_string(), "already".to_string())]);
}

#[test]
fn index_without_a_task_changes_nothing() {
    let mut batch = begin(vec![zip_tool("Alpha")]);
    assert!(batch.advance(1, Event::Started).is_none());
    assert!(batch.advance(usize::MAX, Event::Started).is_none());
    assert!(batch.results().is_empty());
    assert_eq!(batch.tools().len(), 1);
    assert_eq!(batch.tools()[0].name, "Alpha");
}

#[test]
fn every_fitting_record_of_a_tool_is_installed_on_its_own() {
    let mut tool = zip_tool("Alpha");
    tool.installations.push(RawInstallationDetailItem {
        os: OS::MacOS,
        arch: Some(toolkit::Arch::Aarch64),
        id: "alpha".to_string(),
        kind: Type::Shell,
        source: "install alpha".to_string(),
        post_install: None,
    });
    let mut world = World::new();
    let mut batch = begin(vec![tool]);
    assert_eq!(batch.len(), 2);
    run_all(&mut batch, &mut world);
    assert_eq!(batch.results().len(), 2);
    assert!(outcomes(&batch).iter().all(|(n, o)| n == "Alpha" && o == "installed"));
}
