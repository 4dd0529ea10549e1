use rshell::builtins::ChangeOutcome;
use rshell::builtins::{cd_command, pwd_command, type_command};
use rshell::dispatch::{handle_command, Request};
use rshell::executor::{exec_command, SpawnOutcome};
use rshell::resolver::{Entry, Listing};
use rshell::session::{Config, Flow};

fn session() -> Config {
    Config::new(Some("/usr/bin:/bin".to_string()), Some("/home/alice".to_string()))
}

fn text(config: &Config) -> String {
    String::from_utf8(config.stdout.clone()).unwrap()
}

#[test]
fn blank_line_is_not_a_command() {
    for line in ["", "\n", "   \n", "\t\n", " \r\n"] {
        let mut config = session();
        assert_eq!(handle_command(line.to_string(), &mut config), Request::Done);
        assert_eq!(text(&config), "command not found\n");
        assert!(config.stderr.is_empty());
    }
}

#[test]
fn echo_line_prints_the_remainder() {
    let mut config = session();
    assert_eq!(handle_command("echo hello   world\n".to_string(), &mut config), Request::Done);
    assert_eq!(text(&config), "hello   world\n");
}

#[test]
fn echo_line_with_quotes() {
    let mut config = session();
    assert_eq!(handle_command("echo 'a  b'\n".to_string(), &mut config), Request::Done);
    assert_eq!(text(&config), "'a  b'\n");
}

#[test]
fn echo_without_argument_is_external() {
    let mut config = session();
    assert_eq!(
        handle_command("echo\n".to_string(), &mut config),
        Request::Spawn { program: "echo".to_string(), arguments: Vec::new() }
    );
    assert!(config.stdout.is_empty());
}

#[test]
fn type_of_a_builtin_is_answered_at_once() {
    for name in ["echo", "type", "exit", "pwd", "cd"] {
        let mut config = session();
        let line = format!("type {}\n", name);
        assert_eq!(handle_command(line, &mut config), Request::Done);
        assert_eq!(text(&config), format!("{} is a shell builtin\n", name));
    }
}

#[test]
fn type_of_another_name_asks_for_listings() {
    let mut config = session();
    let request = handle_command("type ls\n".to_string(), &mut config);
    assert_eq!(
        request,
        Request::Locate {
            name: "ls".to_string(),
            directories: vec!["/usr/bin".to_string(), "/bin".to_string()],
        }
    );
    assert!(config.stdout.is_empty());
    let listings = vec![
        Listing {
            directory: "/bin".to_string(),
            entries: vec![Entry { name: "ls".to_string(), regular: true }],
        },
        Listing {
            directory: "/usr/bin".to_string(),
            entries: vec![Entry { name: "ls".to_string(), regular: true }],
        },
    ];
    type_command("ls", &listings, &mut config);
    assert_eq!(text(&config), "ls is /usr/bin/ls\n");
}

#[test]
fn type_without_search_path_asks_for_nothing_to_list() {
    let mut config = Config::new(None, None);
    let request = handle_command("type ls\n".to_string(), &mut config);
    assert_eq!(request, Request::Locate { name: "ls".to_string(), directories: Vec::new() });
    type_command("ls", &Vec::new(), &mut config);
    assert_eq!(text(&config), "ls: not found\n");
}

#[test]
fn cd_line_asks_for_the_change() {
    let mut config = session();
    assert_eq!(
        handle_command("cd /tmp\n".to_string(), &mut config),
        Request::ChangeDirectory { path: "/tmp".to_string(), target: "/tmp".to_string() }
    );
    assert!(config.stdout.is_empty());
}

#[test]
fn cd_home_goes_to_the_home_directory() {
    let mut config = session();
    let request = handle_command("cd ~\n".to_string(), &mut config);
    assert_eq!(
        request,
        Request::ChangeDirectory { path: "~".to_string(), target: "/home/alice".to_string() }
    );
    assert_eq!(cd_command("~", ChangeOutcome::Changed, &mut config), Flow::Continue);
    assert_eq!(handle_command("pwd\n".to_string(), &mut config), Request::ReportDirectory);
    assert_eq!(pwd_command(Some("/home/alice"), &mut config), Flow::Continue);
    assert_eq!(text(&config), "/home/alice\n");
}

#[test]
fn cd_home_without_home_goes_nowhere() {
    let mut config = Config::new(None, None);
    let request = handle_command("cd ~\n".to_string(), &mut config);
    assert_eq!(request, Request::ChangeDirectory { path: "~".to_string(), target: String::new() });
    assert_eq!(cd_command("~", ChangeOutcome::NotFound, &mut config), Flow::Continue);
    assert_eq!(text(&config), "cd: ~: No such file or directory\n");
}

#[test]
fn cd_to_a_missing_directory_is_reported() {
    let mut config = session();
    let request = handle_command("cd /no/such\n".to_string(), &mut config);
    assert_eq!(
        request,
        Request::ChangeDirectory { path: "/no/such".to_string(), target: "/no/such".to_string() }
    );
    assert_eq!(cd_command("/no/such", ChangeOutcome::NotFound, &mut config), Flow::Continue);
    assert_eq!(text(&config), "cd: /no/such: No such file or directory\n");
}

#[test]
fn cd_without_argument_is_external() {
    let mut config = session();
    assert_eq!(
        handle_command("cd\n".to_string(), &mut config),
        Request::Spawn { program: "cd".to_string(), arguments: Vec::new() }
    );
}

#[test]
fn pwd_line_asks_for_the_working_directory() {
    let mut config = session();
    assert_eq!(handle_command("pwd\n".to_string(), &mut config), Request::ReportDirectory);
    assert!(config.stdout.is_empty());
}

#[test]
fn pwd_with_argument_is_external() {
    let mut config = session();
    assert_eq!(
        handle_command("pwd -P\n".to_string(), &mut config),
        Request::Spawn { program: "pwd".to_string(), arguments: vec!["-P".to_string()] }
    );
    assert_eq!(
        handle_command("pwd \n".to_string(), &mut config),
        Request::Spawn { program: "pwd".to_string(), arguments: Vec::new() }
    );
}

#[test]
fn exit_line_carries_the_code() {
    let mut config = session();
    assert_eq!(handle_command("exit 0\n".to_string(), &mut config), Request::Exit { code: 0 });
    assert_eq!(handle_command("exit 3\n".to_string(), &mut config), Request::Exit { code: 3 });
    assert_eq!(handle_command("exit abc\n".to_string(), &mut config), Request::Exit { code: 0 });
    assert_eq!(handle_command("exit 1 2\n".to_string(), &mut config), Request::Exit { code: 0 });
    assert!(config.stdout.is_empty());
}

#[test]
fn exit_without_argument_is_external() {
    let mut config = session();
    assert_eq!(
        handle_command("exit\n".to_string(), &mut config),
        Request::Spawn { program: "exit".to_string(), arguments: Vec::new() }
    );
}

#[test]
fn unknown_command_is_spawned_with_its_arguments() {
    let mut config = session();
    assert_eq!(
        handle_command("./test/custom_exe alice  bob\n".to_string(), &mut config),
        Request::Spawn {
            program: "./test/custom_exe".to_string(),
            arguments: vec!["alice".to_string(), "bob".to_string()],
        }
    );
    assert!(config.stdout.is_empty());
}

#[test]
fn nonexistent_command_is_reported_and_the_next_line_accepted() {
    let mut config = session();
    let request = handle_command("foo\n".to_string(), &mut config);
    assert_eq!(request, Request::Spawn { program: "foo".to_string(), arguments: Vec::new() });
    assert_eq!(exec_command("foo", SpawnOutcome::NotFound, &mut config), Flow::Continue);
    assert_eq!(text(&config), "foo: command not found\n");
    assert_eq!(handle_command("echo next\n".to_string(), &mut config), Request::Done);
    assert_eq!(text(&config), "foo: command not found\nnext\n");
}

#[test]
fn builtin_names_are_case_sensitive() {
    let mut config = session();
    assert_eq!(
        handle_command("ECHO hi\n".to_string(), &mut config),
        Request::Spawn { program: "ECHO".to_string(), arguments: vec!["hi".to_string()] }
    );
}

#[test]
fn handling_leaves_the_environment_alone() {
    let mut config = session();
    handle_command("echo x\n".to_string(), &mut config);
    handle_command("cd ~\n".to_string(), &mut config);
    assert_eq!(config.path, Some("/usr/bin:/bin".to_string()));
    assert_eq!(config.home, Some("/home/alice".to_string()));
}
