//! Telling the commands apart and routing each line.
//!
//! [`handle_command`] interprets one line as far as the interpreter can on
//! its own and returns what is left for the host to do. The host performs
//! that and hands the outcome to the command that asked for it.
use vstd::prelude::*;
use crate::builtins::{
    builtin_names, builtin_of, cd_destination, cd_target, echo_command, exit_code, exit_status,
    lookup_builtin, type_command, Builtin,
};
use crate::executor::{argument_list, split_arguments};
use crate::resolver::{path_directories, search_directories, Listing};
use crate::session::{printed, Config};
use crate::text::{is_space, is_word};
use crate::tokenizer::{
    parse, parse_input, parse_name_is_a_word, parse_of_bare_name, parse_of_name_and_text,
    strip_terminator, ParsedCommand, ParsedLine,
};

verus! {

/// What a tokenized line asks for.
pub enum Command {
    /// `cd` with an argument: change to that directory.
    Cd(Seq<char>),
    /// `pwd` with no argument.
    Pwd,
    /// `type` with an argument: say what that name is.
    Type(Seq<char>),
    /// `echo` with an argument: print it.
    Echo(Seq<char>),
    /// `exit` with an argument: end the interpreter.
    Exit(Seq<char>),
    /// Anything else: an external program and the remainder of its line.
    External(Seq<char>, Option<Seq<char>>),
}

/// Classifies a tokenized line. A builtin name counts only in the form its
/// builtin takes, with or without an argument; every other line names an
/// external program.
pub open spec fn classify(line: ParsedLine) -> Command {
    match (builtin_of(line.name), line.remainder) {
        (Some(Builtin::Cd), Some(path)) => Command::Cd(path),
        (Some(Builtin::Pwd), None) => Command::Pwd,
        (Some(Builtin::Type), Some(name)) => Command::Type(name),
        (Some(Builtin::Echo), Some(text)) => Command::Echo(text),
        (Some(Builtin::Exit), Some(code)) => Command::Exit(code),
        _ => Command::External(line.name, line.remainder),
    }
}

/// What the interpreter needs from its host to finish a line.
#[derive(Debug, PartialEq, Eq)]
pub enum Request {
    /// Nothing: the line is dealt with.
    Done,
    /// Change the working directory to `target`, then report the outcome to
    /// `cd_command` together with `path`, the directory as it was typed.
    ChangeDirectory { path: String, target: String },
    /// Find out the working directory and hand it to `pwd_command`.
    ReportDirectory,
    /// List `directories` and hand the listings to `type_command` together
    /// with `name`.
    Locate { name: String, directories: Vec<String> },
    /// Run `program` with `arguments`, wait for it, and hand the outcome to
    /// `exec_command`.
    Spawn { program: String, arguments: Vec<String> },
    /// End the interpreter with the status `code`.
    Exit { code: i32 },
}

/// The mathematical value of a [`Request`].
pub enum Demand {
    Done,
    ChangeDirectory { path: Seq<char>, target: Seq<char> },
    ReportDirectory,
    Locate { name: Seq<char>, directories: Seq<Seq<char>> },
    Spawn { program: Seq<char>, arguments: Seq<Seq<char>> },
    Exit { code: int },
}

impl View for Request {
    type V = Demand;

    open spec fn view(&self) -> Demand {
        match self {
            Request::Done => Demand::Done,
            Request::ChangeDirectory { path, target } => Demand::ChangeDirectory {
                path: path@,
                target: target@,
            },
            Request::ReportDirectory => Demand::ReportDirectory,
            Request::Locate { name, directories } => Demand::Locate {
                name: name@,
                directories: directories.deep_view(),
            },
            Request::Spawn { program, arguments } => Demand::Spawn {
                program: program@,
                arguments: arguments.deep_view(),
            },
            Request::Exit { code } => Demand::Exit { code: *code as int },
        }
    }
}

/// What handling `line` leaves for the host to do, in a session with the
/// search path `path` and the home directory `home`.
pub open spec fn demand(line: Seq<char>, path: Option<Seq<char>>, home: Option<Seq<char>>)
    -> Demand {
    match parse(line) {
        None => Demand::Done,
        Some(parsed) => match classify(parsed) {
            Command::Cd(to) => Demand::ChangeDirectory {
                path: to,
                target: cd_destination(to, home),
            },
            Command::Pwd => Demand::ReportDirectory,
            Command::Type(name) => if builtin_of(name) is Some {
                Demand::Done
            } else {
                Demand::Locate { name, directories: path_directories(path) }
            },
            Command::Echo(_) => Demand::Done,
            Command::Exit(code) => Demand::Exit { code: exit_status(code) },
            Command::External(program, remainder) => Demand::Spawn {
                program,
                arguments: argument_list(remainder),
            },
        },
    }
}

/// The line that handling `line` prints at once, if it prints one: the
/// complaint about a blank line, the answer of `type` for a builtin, or the
/// text of `echo`.
pub open spec fn immediate_output(line: Seq<char>) -> Option<Seq<char>> {
    match parse(line) {
        None => Some("command not found"@),
        Some(parsed) => match classify(parsed) {
            Command::Type(name) => if builtin_of(name) is Some {
                Some(name + " is a shell builtin"@)
            } else {
                None
            },
            Command::Echo(text) => Some(text),
            _ => None,
        },
    }
}

/// A line that, its terminator aside, holds nothing but whitespace is
/// answered with `command not found`, and nothing is asked of the host: no
/// program is run.
pub proof fn blank_line_is_refused(
    line: Seq<char>,
    path: Option<Seq<char>>,
    home: Option<Seq<char>>,
)
    requires
        forall|i: int|
            0 <= i < strip_terminator(line).len() ==> is_space(
                #[trigger] strip_terminator(line)[i],
            ),
    ensures
        demand(line, path, home) == Demand::Done,
        immediate_output(line) == Some("command not found"@),
{
    parse_name_is_a_word(line);
}

/// `echo`, a space and a text that does not start with whitespace print
/// exactly that text and one newline, quotes and inner spacing included.
pub proof fn echo_line_prints_its_text(
    text: Seq<char>,
    path: Option<Seq<char>>,
    home: Option<Seq<char>>,
)
    requires
        text.len() > 0 ==> !is_space(text[0]),
    ensures
        demand("echo"@ + seq![' '] + text + seq!['\n'], path, home) == Demand::Done,
        immediate_output("echo"@ + seq![' '] + text + seq!['\n']) == Some(text),
{
    reveal_strlit("echo");
    assert(seq![' '][0] == ' ');
    parse_of_name_and_text("echo"@, seq![' '], text);
}

/// `type` of a builtin is answered at once, whatever the search path holds:
/// nothing is asked of the host, so no directory is ever listed for it.
pub proof fn type_line_of_builtin(
    name: Seq<char>,
    path: Option<Seq<char>>,
    home: Option<Seq<char>>,
)
    requires
        builtin_of(name) is Some,
    ensures
        demand("type"@ + seq![' '] + name + seq!['\n'], path, home) == Demand::Done,
        immediate_output("type"@ + seq![' '] + name + seq!['\n']) == Some(
            name + " is a shell builtin"@,
        ),
{
    builtin_names();
    reveal_strlit("echo");
    reveal_strlit("type");
    reveal_strlit("exit");
    reveal_strlit("pwd");
    reveal_strlit("cd");
    assert(name.len() > 0 && !is_space(name[0]));
    assert(seq![' '][0] == ' ');
    parse_of_name_and_text("type"@, seq![' '], name);
}

/// `cd`, a space and a directory ask the host for a change to that
/// directory, and `cd ~` for a change to the home directory, where one is
/// known; nothing is printed until the outcome is known.
pub proof fn cd_line_asks_for_the_change(
    to: Seq<char>,
    path: Option<Seq<char>>,
    home: Option<Seq<char>>,
)
    requires
        to.len() > 0 ==> !is_space(to[0]),
    ensures
        demand("cd"@ + seq![' '] + to + seq!['\n'], path, home) == (Demand::ChangeDirectory {
            path: to,
            target: cd_destination(to, home),
        }),
        immediate_output("cd"@ + seq![' '] + to + seq!['\n']) is None,
        home matches Some(h) ==> cd_destination("~"@, home) == h,
{
    builtin_names();
    reveal_strlit("cd");
    assert(seq![' '][0] == ' ');
    parse_of_name_and_text("cd"@, seq![' '], to);
}

/// A word that is no builtin, alone on its line, is run as an external
/// program without arguments; nothing is printed until its outcome is known.
pub proof fn unknown_word_is_spawned(
    name: Seq<char>,
    path: Option<Seq<char>>,
    home: Option<Seq<char>>,
)
    requires
        is_word(name),
        builtin_of(name) is None,
    ensures
        demand(name + seq!['\n'], path, home) == (Demand::Spawn {
            program: name,
            arguments: Seq::empty(),
        }),
        immediate_output(name + seq!['\n']) is None,
{
    parse_of_bare_name(name);
}

/// Interprets one input line.
///
/// Blank lines, `echo`, and `type` of a builtin are dealt with here and now.
/// For every other line the result says what the host is to do next; nothing
/// is written then.
pub fn handle_command(input: String, config: &mut Config) -> (request: Request)
    ensures
        request@ == demand(input@, old(config).path.deep_view(), old(config).home.deep_view()),
        match immediate_output(input@) {
            Some(text) => printed(*old(config), *final(config), text),
            None => *final(config) == *old(config),
        },
{
    let parsed = match parse_input(&input) {
        Some(parsed) => parsed,
        None => {
            config.println("command not found");
            return Request::Done;
        },
    };
    let ParsedCommand { name, remainder } = parsed;
    match (lookup_builtin(name.as_str()), remainder) {
        (Some(Builtin::Cd), Some(path)) => {
            let target = cd_target(path.as_str(), config);
            Request::ChangeDirectory { path, target }
        },
        (Some(Builtin::Pwd), None) => Request::ReportDirectory,
        (Some(Builtin::Type), Some(wanted)) => {
            if lookup_builtin(wanted.as_str()).is_some() {
                let nothing: Vec<Listing> = Vec::new();
                type_command(wanted.as_str(), &nothing, config);
                Request::Done
            } else {
                let directories = search_directories(&config.path);
                Request::Locate { name: wanted, directories }
            }
        },
        (Some(Builtin::Echo), Some(text)) => {
            echo_command(text.as_str(), config);
            Request::Done
        },
        (Some(Builtin::Exit), Some(code)) => Request::Exit { code: exit_code(code.as_str()) },
        (_, remainder) => {
            let arguments = match &remainder {
                Some(r) => split_arguments(Some(r.as_str())),
                None => split_arguments(None),
            };
            Request::Spawn { program: name, arguments }
        },
    }
}

} // verus!
