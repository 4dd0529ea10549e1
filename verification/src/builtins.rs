//! The commands the interpreter implements itself, and what each prints.
use vstd::prelude::*;
use crate::resolver::{
    absent_name_does_not_resolve, first_listed_directory_wins, join_path, offers, path_directories,
    resolution, resolve, Listing,
};
use crate::session::{printed, Config, Flow};
use crate::text::{chars_of, same_text};

verus! {

/// The fixed set of builtin commands.
#[derive(Debug, Clone, Copy, PartialEq, Eq, Structural)]
pub enum Builtin {
    Echo,
    Type,
    Exit,
    Pwd,
    Cd,
}

/// The builtin that `name` names, if any. Names are case-sensitive.
pub open spec fn builtin_of(name: Seq<char>) -> Option<Builtin> {
    if name == "echo"@ {
        Some(Builtin::Echo)
    } else if name == "type"@ {
        Some(Builtin::Type)
    } else if name == "exit"@ {
        Some(Builtin::Exit)
    } else if name == "pwd"@ {
        Some(Builtin::Pwd)
    } else if name == "cd"@ {
        Some(Builtin::Cd)
    } else {
        None
    }
}

/// Looks `name` up in the table of builtins.
pub fn lookup_builtin(name: &str) -> (found: Option<Builtin>)
    ensures
        found == builtin_of(name@),
{
    if same_text(name, "echo") {
        Some(Builtin::Echo)
    } else if same_text(name, "type") {
        Some(Builtin::Type)
    } else if same_text(name, "exit") {
        Some(Builtin::Exit)
    } else if same_text(name, "pwd") {
        Some(Builtin::Pwd)
    } else if same_text(name, "cd") {
        Some(Builtin::Cd)
    } else {
        None
    }
}

/// `echo`: prints the remainder of the line as it stands, with no
/// expansion, substitution or reading of quotes.
pub fn echo_command(echo_input: &str, config: &mut Config)
    ensures
        printed(*old(config), *final(config), echo_input@),
{
    config.println(echo_input);
}

/// What `type` prints for `name`: that it is a builtin, or else where it
/// resolves to on the search path, or that it does not.
pub open spec fn type_report(name: Seq<char>, path: Option<Seq<char>>, listings: Seq<Listing>)
    -> Seq<char> {
    if builtin_of(name) is Some {
        name + " is a shell builtin"@
    } else {
        match resolution(name, path, listings) {
            Some(full) => name + " is "@ + full,
            None => name + ": not found"@,
        }
    }
}

/// `type`: prints how `command` would be interpreted, without running it.
///
/// `listings` holds what the host found in the directories of the search
/// path; for a builtin it is not consulted.
pub fn type_command(command: &str, listings: &Vec<Listing>, config: &mut Config)
    ensures
        printed(
            *old(config),
            *final(config),
            type_report(command@, old(config).path.deep_view(), listings@),
        ),
{
    let mut output = String::from_str(command);
    if lookup_builtin(command).is_some() {
        output.append(" is a shell builtin");
    } else {
        match resolve(command, &config.path, listings) {
            Some(full) => {
                output.append(" is ");
                output.append(full.as_str());
            },
            None => {
                output.append(": not found");
            },
        }
    }
    config.println(output.as_str());
}

/// The builtins are `echo`, `type`, `exit`, `pwd` and `cd`, each under its
/// own name.
pub proof fn builtin_names()
    ensures
        builtin_of("echo"@) == Some(Builtin::Echo),
        builtin_of("type"@) == Some(Builtin::Type),
        builtin_of("exit"@) == Some(Builtin::Exit),
        builtin_of("pwd"@) == Some(Builtin::Pwd),
        builtin_of("cd"@) == Some(Builtin::Cd),
{
    reveal_strlit("echo");
    reveal_strlit("type");
    reveal_strlit("exit");
    reveal_strlit("pwd");
    reveal_strlit("cd");
    assert("type"@[0] != "echo"@[0]);
    assert("exit"@[1] != "echo"@[1]);
    assert("exit"@[0] != "type"@[0]);
    assert("echo"@.len() == 4 && "type"@.len() == 4 && "exit"@.len() == 4);
    assert("pwd"@.len() == 3 && "cd"@.len() == 2);
}

/// For a builtin, `type` says so whatever the search path and the
/// directories hold.
pub proof fn type_of_builtin(name: Seq<char>, path: Option<Seq<char>>, listings: Seq<Listing>)
    requires
        builtin_of(name) is Some,
    ensures
        type_report(name, path, listings) == name + " is a shell builtin"@,
{
}

/// For a name that is no builtin and that no directory of the search path
/// offers, `type` says that it was not found.
pub proof fn type_of_absent_name(name: Seq<char>, path: Option<Seq<char>>, listings: Seq<Listing>)
    requires
        builtin_of(name) is None,
        forall|k: int|
            0 <= k < path_directories(path).len() ==> !offers(
                listings,
                #[trigger] path_directories(path)[k],
                name,
            ),
    ensures
        type_report(name, path, listings) == name + ": not found"@,
{
    absent_name_does_not_resolve(name, path, listings);
}

/// Where both directories of a search path hold a regular file called
/// `name`, `type` names the one in the directory listed first.
pub proof fn type_of_name_found_twice(
    first: Seq<char>,
    second: Seq<char>,
    name: Seq<char>,
    listings: Seq<Listing>,
)
    requires
        builtin_of(name) is None,
        !first.contains(':'),
        !second.contains(':'),
        offers(listings, first, name),
        offers(listings, second, name),
    ensures
        type_report(name, Some(first + seq![':'] + second), listings) == name + " is "@
            + join_path(first, name),
{
    first_listed_directory_wins(first, second, name, listings);
}

/// Whether `c` is a decimal digit.
pub open spec fn is_digit(c: char) -> bool {
    '0' <= c <= '9'
}

/// The number that the decimal digits `s` write.
pub open spec fn decimal(s: Seq<char>) -> int
    decreases s.len(),
{
    if s.len() == 0 {
        0
    } else {
        decimal(s.drop_last()) * 10 + (s.last() as int - '0' as int)
    }
}

/// Whether `arg` is a well-formed exit code: one or more decimal digits that
/// write a number no greater than `i32::MAX`.
pub open spec fn well_formed_code(arg: Seq<char>) -> bool {
    &&& arg.len() > 0
    &&& forall|i: int| 0 <= i < arg.len() ==> is_digit(#[trigger] arg[i])
    &&& decimal(arg) <= i32::MAX
}

/// The status `exit` ends the interpreter with: the number `arg` writes, or
/// 0 where `arg` is not a well-formed code.
pub open spec fn exit_status(arg: Seq<char>) -> int {
    if well_formed_code(arg) {
        decimal(arg)
    } else {
        0
    }
}

/// `exit`: the status to end the interpreter with.
pub fn exit_code(arg: &str) -> (code: i32)
    ensures
        code == exit_status(arg@),
{
    let v = chars_of(arg);
    if v.len() == 0 {
        return 0;
    }
    let limit: u64 = 2147483648;
    let mut value: u64 = 0;
    let mut i: usize = 0;
    assert(v@.take(0) =~= Seq::<char>::empty());
    while i < v.len()
        invariant
            i <= v.len(),
            v@ == arg@,
            limit == 2147483648,
            forall|j: int| 0 <= j < i ==> is_digit(#[trigger] v@[j]),
            value <= limit,
            value == if decimal(v@.take(i as int)) >= limit {
                limit as int
            } else {
                decimal(v@.take(i as int))
            },
        decreases v.len() - i,
    {
        let c = v[i];
        if c < '0' || c > '9' {
            return 0;
        }
        let digit: u64 = (c as u64) - ('0' as u64);
        assert(v@.take(i + 1).drop_last() =~= v@.take(i as int));
        assert(v@.take(i + 1).last() == c);
        let next: u64 = value * 10 + digit;
        value = if next >= limit { limit } else { next };
        i = i + 1;
    }
    assert(v@.take(v.len() as int) =~= v@);
    if value >= limit {
        0
    } else {
        value as i32
    }
}

/// Where `cd` goes for the argument `path`: to the home directory for `~`
/// (to the empty path where no home directory is known), else to `path`.
pub open spec fn cd_destination(path: Seq<char>, home: Option<Seq<char>>) -> Seq<char> {
    if path == "~"@ {
        match home {
            Some(h) => h,
            None => Seq::empty(),
        }
    } else {
        path
    }
}

/// `cd`, first half: the directory the host is to change to.
pub fn cd_target(path: &str, config: &Config) -> (target: String)
    ensures
        target@ == cd_destination(path@, config.home.deep_view()),
{
    if same_text(path, "~") {
        match &config.home {
            Some(home) => home.clone(),
            None => String::new(),
        }
    } else {
        String::from_str(path)
    }
}

/// How the host's attempt to change the working directory ended.
#[derive(Debug, PartialEq, Eq)]
pub enum ChangeOutcome {
    /// The working directory is now the target.
    Changed,
    /// The target does not exist; the working directory is as it was.
    NotFound,
    /// Any other failure, with the host's description of it.
    Failed(String),
}

/// `cd`, second half: reports how the change of directory ended.
///
/// A missing target is reported on the output sink and the interpreter goes
/// on. Any other failure is a fault that stops it.
pub fn cd_command(path: &str, outcome: ChangeOutcome, config: &mut Config) -> (flow: Flow)
    ensures
        match outcome {
            ChangeOutcome::Changed => *final(config) == *old(config) && flow == Flow::Continue,
            ChangeOutcome::NotFound => printed(
                *old(config),
                *final(config),
                "cd: "@ + path@ + ": No such file or directory"@,
            ) && flow == Flow::Continue,
            ChangeOutcome::Failed(error) => *final(config) == *old(config) && (flow matches Flow::Abort(
                reason,
            ) && reason@ == "unexpected error: "@ + error@),
        },
{
    match outcome {
        ChangeOutcome::Changed => Flow::Continue,
        ChangeOutcome::NotFound => {
            let mut output = String::from_str("cd: ");
            output.append(path);
            output.append(": No such file or directory");
            config.println(output.as_str());
            Flow::Continue
        },
        ChangeOutcome::Failed(error) => {
            let mut reason = String::from_str("unexpected error: ");
            reason.append(error.as_str());
            Flow::Abort(reason)
        },
    }
}

/// `pwd`: prints the working directory the host reports. That the host
/// cannot report one is a fault that stops the interpreter.
pub fn pwd_command(working_directory: Option<&str>, config: &mut Config) -> (flow: Flow)
    ensures
        match working_directory {
            Some(directory) => printed(*old(config), *final(config), directory@) && flow
                == Flow::Continue,
            None => *final(config) == *old(config) && (flow matches Flow::Abort(reason) && reason@
                == "invalid current_dir"@),
        },
{
    match working_directory {
        Some(directory) => {
            config.println(directory);
            Flow::Continue
        },
        None => Flow::Abort(String::from_str("invalid current_dir")),
    }
}

} // verus!
