//! The state a line is interpreted against: the two environment values the
//! shell depends on, and the sinks its output goes to.
use vstd::prelude::*;
use vstd::string::StringSliceAdditionalSpecFns;
use vstd::utf8::encode_utf8;

verus! {

/// The bytes of `text` as one output line: its UTF-8 encoding and a newline.
pub open spec fn line_bytes(text: Seq<char>) -> Seq<u8> {
    encode_utf8(text) + seq![10u8]
}

/// What the interpreter knows of its environment, and what it has written.
///
/// `stdout` and `stderr` are append-only: the host drains them to the real
/// streams after each step.
pub struct Config {
    /// The search path: directories separated by `:`. Absent when unset.
    pub path: Option<String>,
    /// The home directory. Absent when unset.
    pub home: Option<String>,
    /// Everything written to the output sink so far.
    pub stdout: Vec<u8>,
    /// Everything written to the error sink so far.
    pub stderr: Vec<u8>,
}

/// `after` is `before` with the line `text` appended to the output sink and
/// nothing else changed.
pub open spec fn printed(before: Config, after: Config, text: Seq<char>) -> bool {
    &&& after.stdout@ == before.stdout@ + line_bytes(text)
    &&& after.stderr == before.stderr
    &&& after.path == before.path
    &&& after.home == before.home
}

/// Whether the interpreter goes on to the next line once a step is done.
#[derive(Debug, PartialEq, Eq)]
pub enum Flow {
    /// The line is dealt with; the interpreter accepts the next one.
    Continue,
    /// A fault no line can recover from: the host stops, giving this reason.
    Abort(String),
}

impl Config {
    /// A session with the given environment values and empty sinks.
    pub fn new(path: Option<String>, home: Option<String>) -> (config: Config)
        ensures
            config.path == path,
            config.home == home,
            config.stdout@ == Seq::<u8>::empty(),
            config.stderr@ == Seq::<u8>::empty(),
    {
        Config { path, home, stdout: Vec::new(), stderr: Vec::new() }
    }

    /// Writes `value` and a newline to the output sink.
    pub fn println(&mut self, value: &str)
        ensures
            printed(*old(self), *final(self), value@),
    {
        self.stdout.extend_from_slice(value.as_bytes());
        self.stdout.push(10u8);
        assert(final(self).stdout@ =~= old(self).stdout@ + line_bytes(value@));
    }
}

} // verus!
