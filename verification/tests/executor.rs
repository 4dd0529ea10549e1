use rshell::executor::{exec_command, split_arguments, SpawnOutcome};
use rshell::session::{Config, Flow};

#[test]
fn test_exec_command_found() {
    let printed = [
        "Program was passed 2 args (including program name).\n",
        "Arg #0 (program name): custom_exe\n",
        "Arg #1: alice\n",
    ]
    .join("");
    assert_eq!(split_arguments(Some("alice")), vec!["alice".to_string()]);
    let mut config = Config::new(None, None);
    let outcome =
        SpawnOutcome::Finished { stdout: printed.clone().into_bytes(), stderr: Vec::new() };
    let flow = exec_command("./test/custom_exe", outcome, &mut config);
    assert_eq!(flow, Flow::Continue);

    let out = String::from_utf8(config.stdout).unwrap();
    assert_eq!(
        out,
        [
            "Program was passed 2 args (including program name).\n",
            "Arg #0 (program name): custom_exe\n",
            "Arg #1: alice\n"
        ]
        .join("")
    )
}

#[test]
fn test_exec_command_not_found() {
    assert_eq!(split_arguments(Some("alice")), vec!["alice".to_string()]);
    let mut config = Config::new(None, None);
    let flow = exec_command("./test/missing", SpawnOutcome::NotFound, &mut config);
    assert_eq!(flow, Flow::Continue);

    let out = String::from_utf8(config.stdout).unwrap();
    assert_eq!(out, "./test/missing: command not found\n",)
}

#[test]
fn exec_reports_a_missing_program() {
    let mut config = Config::new(None, None);
    let flow = exec_command("foo", SpawnOutcome::NotFound, &mut config);
    assert_eq!(flow, Flow::Continue);
    assert_eq!(config.stdout, b"foo: command not found\n".to_vec());
    assert!(config.stderr.is_empty());
}

#[test]
fn exec_forwards_both_streams_byte_for_byte() {
    let mut config = Config::new(None, None);
    config.println("before");
    let outcome = SpawnOutcome::Finished {
        stdout: vec![0, 159, 255, b'\n', b'x'],
        stderr: vec![b'e', b'r', b'r', 0xC3],
    };
    let flow = exec_command("prog", outcome, &mut config);
    assert_eq!(flow, Flow::Continue);
    assert_eq!(config.stdout, b"before\n\x00\x9f\xff\nx".to_vec());
    assert_eq!(config.stderr, vec![b'e', b'r', b'r', 0xC3]);
}

#[test]
fn exec_appends_to_what_the_sinks_hold() {
    let mut config = Config::new(None, None);
    let first = SpawnOutcome::Finished { stdout: b"a".to_vec(), stderr: b"1".to_vec() };
    let second = SpawnOutcome::Finished { stdout: b"b".to_vec(), stderr: b"2".to_vec() };
    assert_eq!(exec_command("p", first, &mut config), Flow::Continue);
    assert_eq!(exec_command("p", second, &mut config), Flow::Continue);
    assert_eq!(config.stdout, b"ab".to_vec());
    assert_eq!(config.stderr, b"12".to_vec());
}

#[test]
fn exec_stops_on_any_other_failure() {
    let mut config = Config::new(None, None);
    let flow =
        exec_command("prog", SpawnOutcome::Failed("PermissionDenied".to_string()), &mut config);
    assert_eq!(flow, Flow::Abort("PermissionDenied error when executing command".to_string()));
    assert!(config.stdout.is_empty());
    assert!(config.stderr.is_empty());
}

#[test]
fn split_arguments_of_no_remainder_is_empty() {
    assert_eq!(split_arguments(None), Vec::<String>::new());
    assert_eq!(split_arguments(Some("")), Vec::<String>::new());
    assert_eq!(split_arguments(Some("   ")), Vec::<String>::new());
}

#[test]
fn split_arguments_splits_on_whitespace() {
    assert_eq!(
        split_arguments(Some("alice  bob\tcarol ")),
        vec!["alice".to_string(), "bob".to_string(), "carol".to_string()]
    );
    assert_eq!(split_arguments(Some("-l")), vec!["-l".to_string()]);
}
