use toolkit::command::{
    config_path_in, is_unix_cmd_exists, is_windows_cmd_exists, run_command_on_windows,
    shell_config_path,
};
use toolkit::{
    extract_zip, get_default_shell, get_unix_shell_config_path, is_cmd_exists,
    run_command_on_unix, run_command_pipe_on_unix, Action, Shell, OS,
};

fn zsh() -> Shell {
    Shell { program: "/bin/zsh".to_string(), config: "/Users/me/.zshrc".to_string() }
}

fn run_parts(action: Action) -> (String, Vec<String>) {
    match action {
        Action::Run(invocation) => (invocation.program, invocation.args),
        other => panic!("unexpected {:?}", other),
    }
}

#[test]
fn default_shell_is_the_named_one_or_sh() {
    assert_eq!(get_default_shell(Some("/bin/fish".to_string())), "/bin/fish");
    assert_eq!(get_default_shell(None), "/bin/sh");
}

#[test]
fn config_file_depends_on_the_shell() {
    assert_eq!(shell_config_path("/Users/me", "/bin/zsh"), "/Users/me/.zshrc");
    assert_eq!(shell_config_path("/Users/me", "/bin/bash"), "/Users/me/.bashrc");
    assert_eq!(shell_config_path("/Users/me", "/bin/fish"), "/Users/me/.config/fish/config.fish");
    assert_eq!(shell_config_path("/Users/me", "/bin/sh"), "/Users/me/.bashrc");
    assert_eq!(shell_config_path("/home/me", "/usr/bin/zsh"), "/home/me/.bashrc");
}

#[test]
fn unknown_or_empty_home_gives_no_config_file() {
    assert_eq!(config_path_in(None, "/bin/zsh"), None);
    assert_eq!(config_path_in(Some(String::new()), "/bin/zsh"), None);
    assert_eq!(
        config_path_in(Some("/Users/me".to_string()), "/bin/zsh"),
        Some("/Users/me/.zshrc".to_string())
    );
    assert_eq!(
        config_path_in(Some("/".to_string()), "/bin/fish"),
        Some("//.config/fish/config.fish".to_string())
    );
}

#[test]
fn config_file_lies_in_the_home_directory() {
    let home = home::home_dir().and_then(|p| p.to_str().map(|s| s.to_string()));
    let path = get_unix_shell_config_path("/bin/zsh");
    match home {
        Some(home) if !home.is_empty() => assert_eq!(path, Some(format!("{}/.zshrc", home))),
        _ => assert_eq!(path, None),
    }
}

#[test]
fn command_sources_the_config_when_it_exists() {
    let (program, args) = run_parts(run_command_on_unix("echo hi", &zsh(), true));
    assert_eq!(program, "/bin/zsh");
    assert_eq!(args, vec!["-c".to_string(), "source /Users/me/.zshrc && echo hi".to_string()]);
}

#[test]
fn command_runs_alone_when_there_is_no_config() {
    let (program, args) = run_parts(run_command_on_unix("echo hi", &zsh(), false));
    assert_eq!(program, "/bin/zsh");
    assert_eq!(args, vec!["-c".to_string(), "echo hi".to_string()]);
}

#[test]
fn piped_command_is_streamed() {
    match run_command_pipe_on_unix("brew install jq", &zsh(), true) {
        Action::Stream(invocation) => {
            assert_eq!(invocation.program, "/bin/zsh");
            assert_eq!(
                invocation.args,
                vec!["-c".to_string(), "source /Users/me/.zshrc && brew install jq".to_string()]
            );
        }
        other => panic!("unexpected {:?}", other),
    }
}

#[test]
fn command_lookup_on_unix_uses_the_shell() {
    let (program, args) = run_parts(is_cmd_exists("node", OS::MacOS, &zsh(), true));
    assert_eq!(program, "/bin/zsh");
    assert_eq!(
        args,
        vec!["-c".to_string(), "source /Users/me/.zshrc && command -v node".to_string()]
    );
    let (_, args) = run_parts(is_cmd_exists("node", OS::Linux, &zsh(), false));
    assert_eq!(args, vec!["-c".to_string(), "command -v node".to_string()]);
    let (_, args) = run_parts(is_unix_cmd_exists("git", &zsh(), false));
    assert_eq!(args, vec!["-c".to_string(), "command -v git".to_string()]);
}

#[test]
fn command_lookup_on_windows_uses_where() {
    let (program, args) = run_parts(is_cmd_exists("node", OS::Windows, &zsh(), true));
    assert_eq!(program, "where");
    assert_eq!(args, vec!["node".to_string()]);
    let (program, args) = run_parts(is_windows_cmd_exists("git"));
    assert_eq!(program, "where");
    assert_eq!(args, vec!["git".to_string()]);
}

#[test]
fn windows_command_goes_through_the_interpreter() {
    let (program, args) = run_parts(run_command_on_windows("setup.exe /S"));
    assert_eq!(program, "cmd");
    assert_eq!(args, vec!["/C".to_string(), "setup.exe /S".to_string()]);
}

#[test]
fn extract_zip_unpacks_over_what_is_there() {
    let (program, args) =
        run_parts(extract_zip("/tmp/VSCode-darwin-arm64.zip", "/Applications", &zsh(), false));
    assert_eq!(program, "/bin/zsh");
    assert_eq!(
        args,
        vec!["-c".to_string(), "unzip -o /tmp/VSCode-darwin-arm64.zip -d /Applications".to_string()]
    );
    let (_, args) = run_parts(extract_zip("a.zip", "tmp/extract_zip_test", &zsh(), true));
    assert_eq!(
        args[1],
        "source /Users/me/.zshrc && unzip -o a.zip -d tmp/extract_zip_test"
    );
}
