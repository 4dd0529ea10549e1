//! Running external programs: the argument vector handed to the host, and
//! what the interpreter does with the outcome of the spawn.
use vstd::prelude::*;
use crate::session::{printed, Config, Flow};
use crate::text::{split_words, words};

verus! {

/// The argument vector for a remainder: its words, or nothing where the
/// remainder is absent.
pub open spec fn argument_list(remainder: Option<Seq<char>>) -> Seq<Seq<char>> {
    match remainder {
        Some(r) => words(r),
        None => Seq::empty(),
    }
}

/// Splits the remainder of a line into the arguments of an external program.
pub fn split_arguments(args: Option<&str>) -> (arguments: Vec<String>)
    ensures
        arguments.deep_view() == argument_list(args.deep_view()),
{
    match args {
        Some(remainder) => split_words(remainder),
        None => {
            let arguments: Vec<String> = Vec::new();
            assert(arguments.deep_view() =~= Seq::<Seq<char>>::empty());
            arguments
        },
    }
}

/// How the host's attempt to run an external program ended.
#[derive(Debug, PartialEq, Eq)]
pub enum SpawnOutcome {
    /// The program ran to its end; these are the bytes it wrote.
    Finished { stdout: Vec<u8>, stderr: Vec<u8> },
    /// No such program could be found or executed.
    NotFound,
    /// The spawn failed for any other reason, with the host's description.
    Failed(String),
}

/// Deals with the outcome of running the external program `command`.
///
/// What the program wrote goes to the sinks unchanged, byte for byte. A
/// program that was not found is reported on the output sink and the
/// interpreter goes on. Any other failure is a fault that stops it.
pub fn exec_command(command: &str, outcome: SpawnOutcome, config: &mut Config) -> (flow: Flow)
    ensures
        final(config).path == old(config).path,
        final(config).home == old(config).home,
        match outcome {
            SpawnOutcome::Finished { stdout, stderr } => {
                &&& final(config).stdout@ == old(config).stdout@ + stdout@
                &&& final(config).stderr@ == old(config).stderr@ + stderr@
                &&& flow == Flow::Continue
            },
            SpawnOutcome::NotFound => printed(
                *old(config),
                *final(config),
                command@ + ": command not found"@,
            ) && flow == Flow::Continue,
            SpawnOutcome::Failed(error) => *final(config) == *old(config) && (flow matches Flow::Abort(
                reason,
            ) && reason@ == error@ + " error when executing command"@),
        },
{
    match outcome {
        SpawnOutcome::Finished { stdout, stderr } => {
            config.stdout.extend_from_slice(stdout.as_slice());
            config.stderr.extend_from_slice(stderr.as_slice());
            assert(final(config).stdout@ =~= old(config).stdout@ + stdout@);
            assert(final(config).stderr@ =~= old(config).stderr@ + stderr@);
            Flow::Continue
        },
        SpawnOutcome::NotFound => {
            let mut output = String::from_str(command);
            output.append(": command not found");
            config.println(output.as_str());
            Flow::Continue
        },
        SpawnOutcome::Failed(error) => {
            let mut reason = error;
            reason.append(" error when executing command");
            Flow::Abort(reason)
        },
    }
}

} // verus!
