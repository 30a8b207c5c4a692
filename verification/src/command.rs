//! Shell commands: which shell runs them, which startup file it reads first,
//! and the invocations that the installation steps ask for.

use crate::manifest::OS;
use crate::protocol::{Action, ActionView, Invocation, InvocationView};
use crate::text::text_eq;
use vstd::prelude::*;

verus! {

/// The shell that runs commands, and the startup file that it reads first
/// when that file exists.
#[derive(Debug)]
pub struct Shell {
    pub program: String,
    pub config: String,
}

/// What a [`Shell`] stands for.
pub ghost struct ShellView {
    pub program: Seq<char>,
    pub config: Seq<char>,
}

impl View for Shell {
    type V = ShellView;

    open spec fn view(&self) -> ShellView {
        ShellView { program: self.program@, config: self.config@ }
    }
}

/// The shell to use: the one that the environment names, else `/bin/sh`.
pub open spec fn default_shell(named: Option<Seq<char>>) -> Seq<char> {
    match named {
        Some(shell) => shell,
        None => "/bin/sh"@,
    }
}

/// The startup file of `shell`, below the home directory `home`. A shell that
/// is not known is taken to read what bash reads.
pub open spec fn config_file(home: Seq<char>, shell: Seq<char>) -> Seq<char> {
    if shell == "/bin/zsh"@ {
        home + "/.zshrc"@
    } else if shell == "/bin/bash"@ {
        home + "/.bashrc"@
    } else if shell == "/bin/fish"@ {
        home + "/.config/fish/config.fish"@
    } else {
        home + "/.bashrc"@
    }
}

/// The text handed to the shell for `program`: the startup file is sourced
/// first when it exists.
pub open spec fn command_line(config: Seq<char>, config_exists: bool, program: Seq<char>) -> Seq<
    char,
> {
    if config_exists {
        "source "@ + config + " && "@ + program
    } else {
        program
    }
}

/// The invocation that has `shell` run `program`.
pub open spec fn shell_invocation(
    shell: ShellView,
    config_exists: bool,
    program: Seq<char>,
) -> InvocationView {
    InvocationView {
        program: shell.program,
        args: seq!["-c"@, command_line(shell.config, config_exists, program)],
    }
}

/// The command that tells whether `program` is on the search path.
pub open spec fn lookup_command(program: Seq<char>) -> Seq<char> {
    "command -v "@ + program
}

/// The command that unpacks `zip_path` into `extract_path`, replacing what is
/// there.
pub open spec fn unzip_command(zip_path: Seq<char>, extract_path: Seq<char>) -> Seq<char> {
    "unzip -o "@ + zip_path + " -d "@ + extract_path
}

/// The invocation that asks Windows where `program` lies.
pub open spec fn where_invocation(program: Seq<char>) -> InvocationView {
    InvocationView { program: "where"@, args: seq![program] }
}

/// The invocation that has the Windows command interpreter run `program`.
pub open spec fn windows_invocation(program: Seq<char>) -> InvocationView {
    InvocationView { program: "cmd"@, args: seq!["/C"@, program] }
}

/// The invocation whose exit status tells whether `program` can be run by
/// name: status zero means that it can.
pub open spec fn lookup_invocation(
    os: OS,
    shell: ShellView,
    config_exists: bool,
    program: Seq<char>,
) -> InvocationView {
    if os == OS::Windows {
        where_invocation(program)
    } else {
        shell_invocation(shell, config_exists, lookup_command(program))
    }
}

/// The shell to use, given what the environment names as the user's shell.
pub fn get_default_shell(named: Option<String>) -> (shell: String)
    ensures
        shell@ == default_shell(crate::text::optional_text(named)),
{
    match named {
        Some(shell) => shell,
        None => String::from_str("/bin/sh"),
    }
}

/// The startup file of `shell` below the home directory `home`.
pub fn shell_config_path(home: &str, shell: &str) -> (path: String)
    ensures
        path@ == config_file(home@, shell@),
{
    let mut path = String::from_str(home);
    if text_eq(shell, "/bin/zsh") {
        path.append("/.zshrc");
    } else if text_eq(shell, "/bin/bash") {
        path.append("/.bashrc");
    } else if text_eq(shell, "/bin/fish") {
        path.append("/.config/fish/config.fish");
    } else {
        path.append("/.bashrc");
    }
    path
}

/// Asks `home::home_dir` for the current user's home directory. The answer
/// depends on the environment, so nothing is claimed of it. A path that is not
/// valid Unicode is reported as unknown.
#[verifier::external_body]
fn home_dir() -> (home: Option<String>) {
    home::home_dir().and_then(|path| path.to_str().map(|text| text.to_string()))
}

/// The startup file of `shell` for a user whose home directory is `home`,
/// where `home` is what was found out about that directory: there is no
/// startup file when the directory is unknown or its path is empty.
pub fn config_path_in(home: Option<String>, shell: &str) -> (path: Option<String>)
    ensures
        path is Some <==> (home matches Some(h) && h@.len() > 0),
        path matches Some(p) ==> p@ == config_file(home.unwrap()@, shell@),
{
    match home {
        Some(home) => {
            if home.as_str().is_empty() {
                None
            } else {
                Some(shell_config_path(home.as_str(), shell))
            }
        },
        None => None,
    }
}

/// The startup file of `shell` in the current user's home directory, or
/// nothing when the home directory is unknown or empty.
pub fn get_unix_shell_config_path(shell: &str) -> (path: Option<String>)
    ensures
        path matches Some(p) ==> exists|home: Seq<char>|
            home.len() > 0 && p@ == #[trigger] config_file(home, shell@),
{
    config_path_in(home_dir(), shell)
}

fn shell_command(program: &str, shell: &Shell, config_exists: bool) -> (invocation: Invocation)
    ensures
        invocation@ == shell_invocation(shell@, config_exists, program@),
{
    let mut line = String::new();
    if config_exists {
        line.append("source ");
        line.append(shell.config.as_str());
        line.append(" && ");
    }
    line.append(program);
    let ghost text = line@;
    let mut args: Vec<String> = Vec::new();
    args.push(String::from_str("-c"));
    args.push(line);
    let invocation = Invocation { program: shell.program.clone(), args };
    proof {
        assert(text =~= command_line(shell@.config, config_exists, program@));
        assert(invocation@.args =~= seq!["-c"@, text]);
    }
    invocation
}

/// Asks for `program` to be run by the shell, its output collected.
pub fn run_command_on_unix(program: &str, shell: &Shell, config_exists: bool) -> (action: Action)
    ensures
        action@ == ActionView::Run(shell_invocation(shell@, config_exists, program@)),
{
    Action::Run(shell_command(program, shell, config_exists))
}

/// Asks for `program` to be run by the shell, each line that it prints shown
/// as progress.
pub fn run_command_pipe_on_unix(program: &str, shell: &Shell, config_exists: bool) -> (action:
    Action)
    ensures
        action@ == ActionView::Stream(shell_invocation(shell@, config_exists, program@)),
{
    Action::Stream(shell_command(program, shell, config_exists))
}

/// Asks for `program` to be run by the Windows command interpreter, its
/// output collected.
pub fn run_command_on_windows(program: &str) -> (action: Action)
    ensures
        action@ == ActionView::Run(windows_invocation(program@)),
{
    let mut args: Vec<String> = Vec::new();
    args.push(String::from_str("/C"));
    args.push(String::from_str(program));
    let invocation = Invocation { program: String::from_str("cmd"), args };
    proof {
        assert(invocation@.args =~= seq!["/C"@, program@]);
    }
    Action::Run(invocation)
}

/// Asks Windows where `program` lies.
pub fn is_windows_cmd_exists(program: &str) -> (action: Action)
    ensures
        action@ == ActionView::Run(where_invocation(program@)),
{
    let mut args: Vec<String> = Vec::new();
    args.push(String::from_str(program));
    let invocation = Invocation { program: String::from_str("where"), args };
    proof {
        assert(invocation@.args =~= seq![program@]);
    }
    Action::Run(invocation)
}

/// Asks the shell whether it can find `program`.
pub fn is_unix_cmd_exists(program: &str, shell: &Shell, config_exists: bool) -> (action: Action)
    ensures
        action@ == ActionView::Run(
            shell_invocation(shell@, config_exists, lookup_command(program@)),
        ),
{
    let mut lookup = String::from_str("command -v ");
    lookup.append(program);
    run_command_on_unix(lookup.as_str(), shell, config_exists)
}

/// Asks whether `program` can be run by name on `os`: the command that is
/// asked for exits with status zero exactly when it can.
pub fn is_cmd_exists(program: &str, os: OS, shell: &Shell, config_exists: bool) -> (action:
    Action)
    ensures
        action@ == ActionView::Run(lookup_invocation(os, shell@, config_exists, program@)),
{
    if os == OS::Windows {
        is_windows_cmd_exists(program)
    } else {
        is_unix_cmd_exists(program, shell, config_exists)
    }
}

/// Asks for the archive at `zip_path` to be unpacked into `extract_path`,
/// replacing what is there.
pub fn extract_zip(
    zip_path: &str,
    extract_path: &str,
    shell: &Shell,
    config_exists: bool,
) -> (action: Action)
    ensures
        action@ == ActionView::Run(
            shell_invocation(shell@, config_exists, unzip_command(zip_path@, extract_path@)),
        ),
{
    let mut unzip = String::from_str("unzip -o ");
    unzip.append(zip_path);
    unzip.append(" -d ");
    unzip.append(extract_path);
    run_command_on_unix(unzip.as_str(), shell, config_exists)
}

} // verus!
