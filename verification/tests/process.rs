use promethean_light_ui::process::{daemon_command, kill_command, stop_report, CommandLine};

#[test]
fn daemon_command_opens_a_console_with_the_passphrase() {
    let command = daemon_command("opensesame");
    assert_eq!(
        command,
        CommandLine {
            program: "cmd".to_string(),
            args: vec![
                "/C".to_string(),
                "start".to_string(),
                "\"Promethean Light Daemon\"".to_string(),
                "cmd".to_string(),
                "/K".to_string(),
                "cd /d \"C:\\Code\\Promethian  Light\" && set MYDATA_PASSPHRASE=opensesame && python -m mydata daemon"
                    .to_string(),
            ],
        }
    );
}

#[test]
fn daemon_command_takes_an_empty_passphrase_as_it_is() {
    let command = daemon_command("");
    assert_eq!(command.args.len(), 6);
    assert_eq!(
        command.args[5],
        "cd /d \"C:\\Code\\Promethian  Light\" && set MYDATA_PASSPHRASE= && python -m mydata daemon"
    );
}

#[test]
fn daemon_command_keeps_spaces_and_symbols_of_the_passphrase() {
    let command = daemon_command("a b&c\"d");
    assert!(command.args[5].contains("MYDATA_PASSPHRASE=a b&c\"d && python"));
}

#[test]
fn kill_command_ends_the_interpreter_by_name() {
    assert_eq!(
        kill_command(),
        CommandLine {
            program: "taskkill".to_string(),
            args: vec!["/F".to_string(), "/IM".to_string(), "python.exe".to_string()],
        }
    );
}

#[test]
fn stop_reports_the_same_whether_or_not_anything_was_killed() {
    assert_eq!(stop_report(true), Ok("Daemon stopped".to_string()));
    assert_eq!(stop_report(false), Ok("Daemon stopped".to_string()));
}
