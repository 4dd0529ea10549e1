//! Splitting an input line into a command name and its unsplit remainder.
use vstd::prelude::*;
use crate::text::{
    after_first_word, chars_of, first_word, is_space, is_word, run_end, run_len, run_len_bounds,
    run_len_unique, skip_spaces,
};

verus! {

/// A tokenized line: the command name and, where whitespace followed the
/// name, everything after that whitespace, unsplit.
#[derive(Debug, PartialEq, Eq)]
pub struct ParsedCommand {
    pub name: String,
    pub remainder: Option<String>,
}

/// The mathematical value of a [`ParsedCommand`].
pub struct ParsedLine {
    pub name: Seq<char>,
    pub remainder: Option<Seq<char>>,
}

impl View for ParsedCommand {
    type V = ParsedLine;

    open spec fn view(&self) -> ParsedLine {
        ParsedLine {
            name: self.name@,
            remainder: match self.remainder {
                Some(r) => Some(r@),
                None => None,
            },
        }
    }
}

/// `line` without one trailing newline, if it ends in one.
pub open spec fn strip_terminator(line: Seq<char>) -> Seq<char> {
    if line.len() > 0 && line.last() == '\n' {
        line.drop_last()
    } else {
        line
    }
}

/// What a line means to the tokenizer.
///
/// One trailing newline is dropped, then leading whitespace. If nothing is
/// left the line is blank and there is no command. Otherwise the name is the
/// first word; the remainder is absent if the line ends with the name, and
/// else it is what follows the whitespace after the name (possibly empty).
pub open spec fn parse(line: Seq<char>) -> Option<ParsedLine> {
    let body = skip_spaces(strip_terminator(line));
    if body.len() == 0 {
        None
    } else {
        let rest = after_first_word(body);
        Some(
            ParsedLine {
                name: first_word(body),
                remainder: if rest.len() == 0 {
                    None
                } else {
                    Some(skip_spaces(rest))
                },
            },
        )
    }
}

/// A line is blank exactly when, its terminator aside, it holds nothing but
/// whitespace; the name of any other line is a non-empty word.
pub proof fn parse_name_is_a_word(line: Seq<char>)
    ensures
        parse(line) is None <==> forall|i: int|
            0 <= i < strip_terminator(line).len() ==> is_space(
                #[trigger] strip_terminator(line)[i],
            ),
        parse(line) matches Some(p) ==> is_word(p.name),
{
    let t = strip_terminator(line);
    let body = skip_spaces(t);
    run_len_bounds(t, true);
    run_len_bounds(body, false);
    if body.len() > 0 {
        assert(body[0] == t[run_len(t, true) as int]);
        assert(!is_space(t[run_len(t, true) as int]));
        assert(run_len(body, false) > 0);
        let name = first_word(body);
        assert forall|i: int| 0 <= i < name.len() implies !is_space(#[trigger] name[i]) by {
            assert(name[i] == body[i]);
        }
    }
}

/// A line made of a word and a newline is that word, with no remainder.
pub proof fn parse_of_bare_name(name: Seq<char>)
    requires
        is_word(name),
    ensures
        parse(name + seq!['\n']) == Some(ParsedLine { name, remainder: None }),
{
    let line = name + seq!['\n'];
    assert(strip_terminator(line) =~= name);
    run_len_unique(name, true, 0);
    assert(name.skip(0) =~= name);
    run_len_unique(name, false, name.len() as int);
    assert(first_word(name) =~= name);
}

/// A line made of a word, whitespace, a text that does not start with
/// whitespace, and a newline is that word with that text as its remainder.
pub proof fn parse_of_name_and_text(name: Seq<char>, gap: Seq<char>, text: Seq<char>)
    requires
        is_word(name),
        gap.len() > 0,
        forall|i: int| 0 <= i < gap.len() ==> is_space(#[trigger] gap[i]),
        text.len() > 0 ==> !is_space(text[0]),
    ensures
        parse(name + gap + text + seq!['\n']) == Some(
            ParsedLine { name, remainder: Some(text) },
        ),
{
    let t = name + gap + text;
    assert(strip_terminator(t + seq!['\n']) =~= t);
    assert(t[0] == name[0]);
    run_len_unique(t, true, 0);
    assert(t.skip(0) =~= t);
    assert forall|i: int| 0 <= i < name.len() implies !is_space(#[trigger] t[i]) by {
        assert(t[i] == name[i]);
    }
    assert(t[name.len() as int] == gap[0]);
    run_len_unique(t, false, name.len() as int);
    assert(first_word(t) =~= name);
    let rest = after_first_word(t);
    assert(rest =~= gap + text);
    assert forall|i: int| 0 <= i < gap.len() implies is_space(#[trigger] rest[i]) by {
        assert(rest[i] == gap[i]);
    }
    if text.len() > 0 {
        assert(rest[gap.len() as int] == text[0]);
    }
    run_len_unique(rest, true, gap.len() as int);
    assert(skip_spaces(rest) =~= text);
}

/// Where the cuts fall: with the leading whitespace ending at `start`, the
/// name at `stop` and the whitespace after it at `next`, the pieces of `t`
/// are the sub-ranges between those cuts.
proof fn pieces_between_cuts(t: Seq<char>, start: int, stop: int, next: int)
    requires
        0 <= start <= stop <= next <= t.len(),
        start == run_len(t, true),
        stop == start + run_len(t.skip(start), false),
        next == stop + run_len(t.skip(stop), true),
    ensures
        skip_spaces(t) == t.skip(start),
        first_word(skip_spaces(t)) == t.subrange(start, stop),
        after_first_word(skip_spaces(t)) == t.skip(stop),
        skip_spaces(t.skip(stop)) == t.subrange(next, t.len() as int),
{
    assert(t.skip(start).take(stop - start) =~= t.subrange(start, stop));
    assert(t.skip(start).skip(stop - start) =~= t.skip(stop));
    assert(t.skip(stop).skip(next - stop) =~= t.subrange(next, t.len() as int));
}

/// Tokenizes one input line: `None` for a blank line, else the command name
/// and the remainder as [`parse`] defines them.
pub fn parse_input(input: &String) -> (parsed: Option<ParsedCommand>)
    ensures
        match parsed {
            Some(p) => parse(input@) == Some(p@),
            None => parse(input@) is None,
        },
{
    let line = input.as_str();
    let mut v = chars_of(line);
    if v.len() > 0 && v[v.len() - 1] == '\n' {
        v.pop();
    }
    let ghost t = v@;
    assert(t =~= strip_terminator(input@));
    assert(t.skip(0) =~= t);
    let start = run_end(&v, 0, true);
    if start == v.len() {
        return None;
    }
    let stop = run_end(&v, start, false);
    let next = run_end(&v, stop, true);
    proof {
        pieces_between_cuts(t, start as int, stop as int, next as int);
    }
    let name = String::from_str(line.substring_char(start, stop));
    assert(name@ =~= t.subrange(start as int, stop as int));
    if stop == v.len() {
        return Some(ParsedCommand { name, remainder: None });
    }
    let remainder = String::from_str(line.substring_char(next, v.len()));
    assert(remainder@ =~= t.subrange(next as int, t.len() as int));
    Some(ParsedCommand { name, remainder: Some(remainder) })
}

} // verus!
