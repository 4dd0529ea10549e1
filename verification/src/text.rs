//! Character-level helpers shared by the tokenizer, the resolver and the
//! builtins: whitespace, runs of characters, and comparison of texts.
use vstd::prelude::*;

verus! {

/// The characters that separate words: the ASCII whitespace characters.
pub open spec fn is_space(c: char) -> bool {
    c == ' ' || c == '\t' || c == '\n' || c == '\r' || c == '\x0C'
}

/// Executable form of [`is_space`].
pub fn is_space_char(c: char) -> (r: bool)
    ensures
        r == is_space(c),
{
    c == ' ' || c == '\t' || c == '\n' || c == '\r' || c == '\x0C'
}

/// Length of the longest prefix of `s` whose characters are all whitespace
/// (`space` is true) or all non-whitespace (`space` is false).
pub open spec fn run_len(s: Seq<char>, space: bool) -> nat
    decreases s.len(),
{
    if s.len() == 0 || is_space(s[0]) != space {
        0
    } else {
        1 + run_len(s.skip(1), space)
    }
}

/// Length of the longest prefix of `s` that does not hold `sep`.
pub open spec fn piece_len(s: Seq<char>, sep: char) -> nat
    decreases s.len(),
{
    if s.len() == 0 || s[0] == sep {
        0
    } else {
        1 + piece_len(s.skip(1), sep)
    }
}

/// `s` without its leading whitespace.
pub open spec fn skip_spaces(s: Seq<char>) -> Seq<char> {
    s.skip(run_len(s, true) as int)
}

/// The first word of `s`: its longest prefix without whitespace.
pub open spec fn first_word(s: Seq<char>) -> Seq<char> {
    s.take(run_len(s, false) as int)
}

/// What follows the first word of `s`.
pub open spec fn after_first_word(s: Seq<char>) -> Seq<char> {
    s.skip(run_len(s, false) as int)
}

/// The words of `s`: its maximal runs of non-whitespace characters, in
/// order. No word is empty.
pub open spec fn words(s: Seq<char>) -> Seq<Seq<char>>
    decreases s.len(),
{
    let body = skip_spaces(s);
    if body.len() == 0 {
        Seq::empty()
    } else {
        proof {
            word_is_not_empty(s);
        }
        seq![first_word(body)] + words(after_first_word(body))
    }
}

/// After its leading whitespace `s` is at its end or at a word of at least
/// one character; the whitespace, the word and what follows make up `s`.
pub proof fn word_is_not_empty(s: Seq<char>)
    ensures
        skip_spaces(s).len() > 0 ==> run_len(skip_spaces(s), false) > 0,
        after_first_word(skip_spaces(s)).len() + run_len(skip_spaces(s), false) + run_len(s, true)
            == s.len(),
{
    run_len_bounds(s, true);
    let body = skip_spaces(s);
    run_len_bounds(body, false);
    if body.len() > 0 {
        assert(body[0] == s[run_len(s, true) as int]);
    }
}

/// A run never leaves the sequence, holds only characters of its class, and
/// stops at the first character of the other class.
pub proof fn run_len_bounds(s: Seq<char>, space: bool)
    ensures
        run_len(s, space) <= s.len(),
        forall|i: int| 0 <= i < run_len(s, space) ==> is_space(#[trigger] s[i]) == space,
        run_len(s, space) < s.len() ==> is_space(s[run_len(s, space) as int]) != space,
    decreases s.len(),
{
    if s.len() == 0 || is_space(s[0]) != space {
    } else {
        let t = s.skip(1);
        run_len_bounds(t, space);
        assert forall|i: int| 0 <= i < run_len(s, space) implies is_space(#[trigger] s[i])
            == space by {
            if i > 0 {
                assert(s[i] == t[i - 1]);
            }
        }
        if run_len(s, space) < s.len() {
            assert(s[run_len(s, space) as int] == t[run_len(t, space) as int]);
        }
    }
}

/// The run is the only length with the properties of [`run_len_bounds`].
pub proof fn run_len_unique(s: Seq<char>, space: bool, k: int)
    requires
        0 <= k <= s.len(),
        forall|i: int| 0 <= i < k ==> is_space(#[trigger] s[i]) == space,
        k < s.len() ==> is_space(s[k]) != space,
    ensures
        run_len(s, space) == k,
    decreases s.len(),
{
    if k == 0 {
    } else {
        let t = s.skip(1);
        assert(is_space(s[0]) == space);
        assert forall|i: int| 0 <= i < k - 1 implies is_space(#[trigger] t[i]) == space by {
            assert(t[i] == s[i + 1]);
        }
        if k - 1 < t.len() {
            assert(t[k - 1] == s[k]);
        }
        run_len_unique(t, space, k - 1);
    }
}

/// A length within `s` before which no `sep` stands, and which is the end
/// of `s` or the place of a `sep`, is the length of the first piece.
pub proof fn piece_len_unique(s: Seq<char>, sep: char, k: int)
    requires
        0 <= k <= s.len(),
        forall|i: int| 0 <= i < k ==> #[trigger] s[i] != sep,
        k < s.len() ==> s[k] == sep,
    ensures
        piece_len(s, sep) == k,
    decreases s.len(),
{
    if k == 0 {
    } else {
        let t = s.skip(1);
        assert(s[0] != sep);
        assert forall|i: int| 0 <= i < k - 1 implies #[trigger] t[i] != sep by {
            assert(t[i] == s[i + 1]);
        }
        if k - 1 < t.len() {
            assert(t[k - 1] == s[k]);
        }
        piece_len_unique(t, sep, k - 1);
    }
}

/// The characters of `s`, in order.
pub fn chars_of(s: &str) -> (v: Vec<char>)
    ensures
        v@ == s@,
{
    let mut v: Vec<char> = Vec::new();
    for c in it: s.chars()
        invariant
            it.seq() == s@,
            v@ == it.seq().take(it.index() as int),
    {
        v.push(c);
    }
    v
}

/// Where the run of one class that starts at `from` ends.
pub fn run_end(v: &Vec<char>, from: usize, space: bool) -> (to: usize)
    requires
        from <= v.len(),
    ensures
        from <= to <= v.len(),
        to == from + run_len(v@.skip(from as int), space),
{
    let mut i: usize = from;
    while i < v.len() && is_space_char(v[i]) == space
        invariant
            from <= i <= v.len(),
            forall|j: int| from <= j < i ==> is_space(#[trigger] v@[j]) == space,
        decreases v.len() - i,
    {
        i = i + 1;
    }
    proof {
        let t = v@.skip(from as int);
        assert forall|j: int| 0 <= j < i - from implies is_space(#[trigger] t[j]) == space by {
            assert(t[j] == v@[from + j]);
        }
        run_len_unique(t, space, i - from);
    }
    i
}

/// Where the piece that starts at `from` ends: at the next `sep`, or at the
/// end of `v`.
pub fn piece_end(v: &Vec<char>, from: usize, sep: char) -> (to: usize)
    requires
        from <= v.len(),
    ensures
        from <= to <= v.len(),
        to == from + piece_len(v@.skip(from as int), sep),
{
    let mut i: usize = from;
    while i < v.len() && v[i] != sep
        invariant
            from <= i <= v.len(),
            forall|j: int| from <= j < i ==> #[trigger] v@[j] != sep,
        decreases v.len() - i,
    {
        i = i + 1;
    }
    proof {
        let t = v@.skip(from as int);
        assert forall|j: int| 0 <= j < i - from implies #[trigger] t[j] != sep by {
            assert(t[j] == v@[from + j]);
        }
        piece_len_unique(t, sep, i - from);
    }
    i
}

/// Whether two character vectors hold the same text.
pub fn same_chars(a: &Vec<char>, b: &Vec<char>) -> (r: bool)
    ensures
        r == (a@ == b@),
{
    if a.len() != b.len() {
        return false;
    }
    let mut i: usize = 0;
    while i < a.len()
        invariant
            a.len() == b.len(),
            i <= a.len(),
            forall|j: int| 0 <= j < i ==> a@[j] == b@[j],
        decreases a.len() - i,
    {
        if a[i] != b[i] {
            return false;
        }
        i = i + 1;
    }
    assert(a@ =~= b@);
    true
}

/// Whether two texts are equal, character by character.
pub fn same_text(a: &str, b: &str) -> (r: bool)
    ensures
        r == (a@ == b@),
{
    let x = chars_of(a);
    let y = chars_of(b);
    same_chars(&x, &y)
}

/// Whether `w` is a word: at least one character, none of them whitespace.
pub open spec fn is_word(w: Seq<char>) -> bool {
    w.len() > 0 && forall|i: int| 0 <= i < w.len() ==> !is_space(#[trigger] w[i])
}

/// Each of the words of a text is a word.
pub proof fn words_are_words(s: Seq<char>)
    ensures
        forall|k: int| 0 <= k < words(s).len() ==> is_word(#[trigger] words(s)[k]),
    decreases s.len(),
{
    let body = skip_spaces(s);
    if body.len() > 0 {
        word_is_not_empty(s);
        run_len_bounds(body, false);
        let first = first_word(body);
        let rest = words(after_first_word(body));
        words_are_words(after_first_word(body));
        assert forall|i: int| 0 <= i < first.len() implies !is_space(#[trigger] first[i]) by {
            assert(first[i] == body[i]);
        }
        assert forall|k: int| 0 <= k < words(s).len() implies is_word(#[trigger] words(s)[k]) by {
            if k == 0 {
                assert(words(s)[0] == first);
            } else {
                assert(words(s)[k] == rest[k - 1]);
            }
        }
    }
}

/// One step of [`words`]: with the whitespace after `from` ending at
/// `start` and the word there ending at `stop`.
proof fn words_step(s: Seq<char>, from: int, start: int, stop: int)
    requires
        0 <= from <= start <= stop <= s.len(),
        start == from + run_len(s.skip(from), true),
        stop == start + run_len(s.skip(start), false),
    ensures
        start == s.len() ==> words(s.skip(from)) == Seq::<Seq<char>>::empty(),
        start < s.len() ==> start < stop && words(s.skip(from)) == seq![s.subrange(start, stop)]
            + words(s.skip(stop)),
{
    let t = s.skip(from);
    assert(skip_spaces(t) =~= s.skip(start));
    if start < s.len() {
        word_is_not_empty(t);
        assert(first_word(s.skip(start)) =~= s.subrange(start, stop));
        assert(after_first_word(s.skip(start)) =~= s.skip(stop));
    }
}

/// The words of `s`, in order.
pub fn split_words(s: &str) -> (out: Vec<String>)
    ensures
        out.deep_view() == words(s@),
{
    let v = chars_of(s);
    let mut out: Vec<String> = Vec::new();
    let mut from: usize = 0;
    let mut done = false;
    assert(v@.skip(0) =~= v@);
    assert(out.deep_view() + words(v@.skip(0)) =~= words(v@));
    while !done
        invariant
            v@ == s@,
            from <= v.len(),
            !done ==> words(v@) == out.deep_view() + words(v@.skip(from as int)),
            done ==> words(v@) == out.deep_view(),
        decreases v.len() - from + if done { 0int } else { 1int },
    {
        let start = run_end(&v, from, true);
        let stop = run_end(&v, start, false);
        proof {
            words_step(v@, from as int, start as int, stop as int);
        }
        if start == v.len() {
            assert(out.deep_view() + Seq::<Seq<char>>::empty() =~= out.deep_view());
            done = true;
        } else {
            let word = String::from_str(s.substring_char(start, stop));
            let ghost before = out.deep_view();
            out.push(word);
            assert(out.deep_view() =~= before + seq![word@]);
            assert(before + (seq![word@] + words(v@.skip(stop as int))) =~= out.deep_view()
                + words(v@.skip(stop as int)));
            from = stop;
        }
    }
    out
}

} // verus!
