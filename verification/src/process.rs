//! The operating-system commands by which the daemon is started and stopped.

use vstd::prelude::*;

verus! {

/// A program and its arguments, as mathematical values.
pub struct CommandLineView {
    pub program: Seq<char>,
    pub args: Seq<Seq<char>>,
}

/// A program and its arguments, ready to be handed to the operating system.
#[derive(Clone, Debug, PartialEq, Eq)]
pub struct CommandLine {
    pub program: String,
    pub args: Vec<String>,
}

impl View for CommandLine {
    type V = CommandLineView;

    open spec fn view(&self) -> CommandLineView {
        CommandLineView { program: self.program@, args: self.args.deep_view() }
    }
}

/// The line that the daemon's console runs: it enters the daemon's directory,
/// puts the passphrase into the environment and starts the daemon.
pub open spec fn daemon_script(passphrase: Seq<char>) -> Seq<char> {
    "cd /d \"C:\\Code\\Promethian  Light\" && set MYDATA_PASSPHRASE="@ + passphrase
        + " && python -m mydata daemon"@
}

/// The command that starts the daemon in a console window of its own.
pub open spec fn daemon_command_spec(passphrase: Seq<char>) -> CommandLineView {
    CommandLineView {
        program: "cmd"@,
        args: seq![
            "/C"@,
            "start"@,
            "\"Promethean Light Daemon\""@,
            "cmd"@,
            "/K"@,
            daemon_script(passphrase),
        ],
    }
}

/// The command that ends every process of the daemon's interpreter.
pub open spec fn kill_command_spec() -> CommandLineView {
    CommandLineView { program: "taskkill"@, args: seq!["/F"@, "/IM"@, "python.exe"@] }
}

/// What the user is told after the daemon has been asked to stop.
pub open spec fn stopped_message() -> Seq<char> {
    "Daemon stopped"@
}

/// The command that starts the daemon with the given passphrase in its
/// environment. The passphrase is taken as it is.
pub fn daemon_command(passphrase: &str) -> (command: CommandLine)
    ensures
        command@ == daemon_command_spec(passphrase@),
{
    let script = String::from_str(
        "cd /d \"C:\\Code\\Promethian  Light\" && set MYDATA_PASSPHRASE=",
    ).concat(passphrase).concat(" && python -m mydata daemon");
    let mut args: Vec<String> = Vec::new();
    args.push(String::from_str("/C"));
    args.push(String::from_str("start"));
    args.push(String::from_str("\"Promethean Light Daemon\""));
    args.push(String::from_str("cmd"));
    args.push(String::from_str("/K"));
    args.push(script);
    let command = CommandLine { program: String::from_str("cmd"), args };
    assert(command@.args =~= daemon_command_spec(passphrase@).args);
    command
}

/// The command that stops the daemon.
pub fn kill_command() -> (command: CommandLine)
    ensures
        command@ == kill_command_spec(),
{
    let mut args: Vec<String> = Vec::new();
    args.push(String::from_str("/F"));
    args.push(String::from_str("/IM"));
    args.push(String::from_str("python.exe"));
    let command = CommandLine { program: String::from_str("taskkill"), args };
    assert(command@.args =~= kill_command_spec().args);
    command
}

/// What stopping the daemon reports. Stopping is best effort: the report is
/// the same confirmation whether or not the kill command found a process, and
/// whether or not it could be run at all.
pub fn stop_report(kill_succeeded: bool) -> (result: Result<String, String>)
    ensures
        result matches Ok(text) && text@ == stopped_message(),
{
    Ok(String::from_str("Daemon stopped"))
}

} // verus!
