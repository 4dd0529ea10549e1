//! Finding a program on the search path.
//!
//! The resolver never touches the disk. The host lists the directories that
//! [`search_directories`] names and hands the listings over; a directory that
//! could not be listed is simply not among them.
use vstd::prelude::*;
use crate::text::{chars_of, piece_end, piece_len, piece_len_unique, same_chars};

verus! {

/// One entry of a directory.
#[derive(Debug, PartialEq, Eq)]
pub struct Entry {
    /// The entry's file name, without its directory.
    pub name: String,
    /// Whether the entry is a regular file.
    pub regular: bool,
}

/// What one directory holds.
#[derive(Debug, PartialEq, Eq)]
pub struct Listing {
    /// The directory, written as it stands on the search path.
    pub directory: String,
    /// Its entries.
    pub entries: Vec<Entry>,
}

/// The pieces of `s` between occurrences of `sep`, in order. There is always
/// at least one piece; pieces may be empty.
pub open spec fn split_on(s: Seq<char>, sep: char) -> Seq<Seq<char>>
    decreases s.len(),
{
    let n = piece_len(s, sep) as int;
    if n >= s.len() {
        seq![s]
    } else {
        seq![s.take(n)] + split_on(s.skip(n + 1), sep)
    }
}

/// The directories of a search path, in search order: none when the path is
/// absent.
pub open spec fn path_directories(path: Option<Seq<char>>) -> Seq<Seq<char>> {
    match path {
        Some(p) => split_on(p, ':'),
        None => Seq::empty(),
    }
}

/// Whether `entries` holds a regular file called exactly `name`.
pub open spec fn holds_file(entries: Seq<Entry>, name: Seq<char>) -> bool {
    exists|j: int| 0 <= j < entries.len() && #[trigger] entries[j].name@ == name && entries[j].regular
}

/// Whether a listing of the directory `dir` holds a regular file called
/// exactly `name`.
pub open spec fn offers(listings: Seq<Listing>, dir: Seq<char>, name: Seq<char>) -> bool {
    exists|i: int|
        0 <= i < listings.len() && #[trigger] listings[i].directory@ == dir && holds_file(
            listings[i].entries@,
            name,
        )
}

/// The path of the file `name` in the directory `dir`.
pub open spec fn join_path(dir: Seq<char>, name: Seq<char>) -> Seq<char> {
    if dir.len() == 0 || dir.last() == '/' {
        dir + name
    } else {
        dir + seq!['/'] + name
    }
}

/// The file `name` in the first of `dirs` that offers it.
pub open spec fn first_offer(dirs: Seq<Seq<char>>, listings: Seq<Listing>, name: Seq<char>)
    -> Option<Seq<char>>
    decreases dirs.len(),
{
    if dirs.len() == 0 {
        None
    } else if offers(listings, dirs[0], name) {
        Some(join_path(dirs[0], name))
    } else {
        first_offer(dirs.skip(1), listings, name)
    }
}

/// Where `name` resolves to on the search path `path`, given `listings`.
pub open spec fn resolution(name: Seq<char>, path: Option<Seq<char>>, listings: Seq<Listing>)
    -> Option<Seq<char>> {
    first_offer(path_directories(path), listings, name)
}

/// Nothing resolves exactly when none of the directories offers the name.
pub proof fn no_offer_means_none(dirs: Seq<Seq<char>>, listings: Seq<Listing>, name: Seq<char>)
    ensures
        first_offer(dirs, listings, name) is None <==> forall|k: int|
            0 <= k < dirs.len() ==> !offers(listings, #[trigger] dirs[k], name),
    decreases dirs.len(),
{
    if dirs.len() > 0 {
        let rest = dirs.skip(1);
        no_offer_means_none(rest, listings, name);
        if first_offer(dirs, listings, name) is None {
            assert forall|k: int| 0 <= k < dirs.len() implies !offers(
                listings,
                #[trigger] dirs[k],
                name,
            ) by {
                if k > 0 {
                    assert(dirs[k] == rest[k - 1]);
                }
            }
        } else if !offers(listings, dirs[0], name) {
            let k = choose|k: int| 0 <= k < rest.len() && offers(listings, #[trigger] rest[k], name);
            assert(dirs[k + 1] == rest[k]);
        }
    }
}

/// The first directory in search order that offers the name wins, whatever
/// the directories after it hold.
pub proof fn first_offer_wins(
    dirs: Seq<Seq<char>>,
    listings: Seq<Listing>,
    name: Seq<char>,
    k: int,
)
    requires
        0 <= k < dirs.len(),
        offers(listings, dirs[k], name),
        forall|j: int| 0 <= j < k ==> !offers(listings, #[trigger] dirs[j], name),
    ensures
        first_offer(dirs, listings, name) == Some(join_path(dirs[k], name)),
    decreases dirs.len(),
{
    if k > 0 {
        let rest = dirs.skip(1);
        assert(!offers(listings, dirs[0], name));
        assert(rest[k - 1] == dirs[k]);
        assert forall|j: int| 0 <= j < k - 1 implies !offers(listings, #[trigger] rest[j], name) by {
            assert(rest[j] == dirs[j + 1]);
        }
        first_offer_wins(rest, listings, name, k - 1);
    }
}

/// A name that no directory of the search path offers does not resolve; nor
/// does any name when there is no search path.
pub proof fn absent_name_does_not_resolve(
    name: Seq<char>,
    path: Option<Seq<char>>,
    listings: Seq<Listing>,
)
    requires
        forall|k: int|
            0 <= k < path_directories(path).len() ==> !offers(
                listings,
                #[trigger] path_directories(path)[k],
                name,
            ),
    ensures
        resolution(name, path, listings) is None,
{
    no_offer_means_none(path_directories(path), listings, name);
}

/// A search path of two directories names exactly those two, in order.
pub proof fn two_directories(first: Seq<char>, second: Seq<char>)
    requires
        !first.contains(':'),
        !second.contains(':'),
    ensures
        path_directories(Some(first + seq![':'] + second)) == seq![first, second],
{
    let s = first + seq![':'] + second;
    assert forall|i: int| 0 <= i < first.len() implies #[trigger] s[i] != ':' by {
        assert(first.contains(s[i]));
    }
    piece_len_unique(s, ':', first.len() as int);
    assert(s.take(first.len() as int) =~= first);
    assert(s.skip(first.len() as int + 1) =~= second);
    assert forall|i: int| 0 <= i < second.len() implies #[trigger] second[i] != ':' by {
        assert(second.contains(second[i]));
    }
    piece_len_unique(second, ':', second.len() as int);
    assert(split_on(second, ':') == seq![second]);
    assert(seq![first] + seq![second] =~= seq![first, second]);
}

/// Where both directories of a search path hold a regular file of the same
/// name, the name resolves to the file in the directory listed first.
pub proof fn first_listed_directory_wins(
    first: Seq<char>,
    second: Seq<char>,
    name: Seq<char>,
    listings: Seq<Listing>,
)
    requires
        !first.contains(':'),
        !second.contains(':'),
        offers(listings, first, name),
        offers(listings, second, name),
    ensures
        resolution(name, Some(first + seq![':'] + second), listings) == Some(
            join_path(first, name),
        ),
{
    two_directories(first, second);
    first_offer_wins(seq![first, second], listings, name, 0);
}

/// The directories of the search path `path`, in search order.
pub fn search_directories(path: &Option<String>) -> (dirs: Vec<String>)
    ensures
        dirs.deep_view() == path_directories(path.deep_view()),
{
    let mut dirs: Vec<String> = Vec::new();
    match path {
        None => {
            assert(dirs.deep_view() =~= Seq::<Seq<char>>::empty());
        },
        Some(p) => {
            let text = p.as_str();
            let v = chars_of(text);
            let mut from: usize = 0;
            let mut done = false;
            assert(v@.skip(0) =~= v@);
            assert(dirs.deep_view() + split_on(v@.skip(0), ':') =~= split_on(v@, ':'));
            while !done
                invariant
                    v@ == text@,
                    from <= v.len(),
                    !done ==> split_on(v@, ':') == dirs.deep_view() + split_on(
                        v@.skip(from as int),
                        ':',
                    ),
                    done ==> split_on(v@, ':') == dirs.deep_view(),
                decreases v.len() - from + if done { 0int } else { 1int },
            {
                let end = piece_end(&v, from, ':');
                let piece = String::from_str(text.substring_char(from, end));
                let ghost before = dirs.deep_view();
                let ghost tail = v@.skip(from as int);
                dirs.push(piece);
                assert(dirs.deep_view() =~= before + seq![piece@]);
                assert(piece@ =~= tail.take(end - from));
                if end == v.len() {
                    assert(tail.take(end - from) =~= tail);
                    assert(before + seq![tail] =~= dirs.deep_view());
                    done = true;
                } else {
                    assert(tail.skip(end - from + 1) =~= v@.skip(end + 1));
                    assert(before + (seq![piece@] + split_on(v@.skip(end + 1), ':'))
                        =~= dirs.deep_view() + split_on(v@.skip(end + 1), ':'));
                    from = end + 1;
                }
            }
        },
    }
    dirs
}

/// Whether `entries` holds a regular file whose name is `name`.
fn holds_entry(entries: &Vec<Entry>, name: &Vec<char>) -> (found: bool)
    ensures
        found == holds_file(entries@, name@),
{
    let mut j: usize = 0;
    while j < entries.len()
        invariant
            j <= entries.len(),
            forall|k: int| 0 <= k < j ==> !(#[trigger] entries@[k].name@ == name@ && entries@[k].regular),
        decreases entries.len() - j,
    {
        if entries[j].regular {
            let candidate = chars_of(entries[j].name.as_str());
            if same_chars(&candidate, name) {
                return true;
            }
        }
        j = j + 1;
    }
    false
}

/// Whether a listing of `dir` among `listings` holds a regular file `name`.
fn directory_offers(listings: &Vec<Listing>, dir: &Vec<char>, name: &Vec<char>) -> (found: bool)
    ensures
        found == offers(listings@, dir@, name@),
{
    let mut i: usize = 0;
    while i < listings.len()
        invariant
            i <= listings.len(),
            forall|k: int| 0 <= k < i ==> !(#[trigger] listings@[k].directory@ == dir@ && holds_file(
                listings@[k].entries@,
                name@,
            )),
        decreases listings.len() - i,
    {
        let listed = chars_of(listings[i].directory.as_str());
        if same_chars(&listed, dir) && holds_entry(&listings[i].entries, name) {
            return true;
        }
        i = i + 1;
    }
    false
}

/// The path of the file `name` in the directory `dir`: the two joined by one
/// `/`, unless `dir` is empty or already ends in one.
pub fn join(dir: &str, name: &str) -> (full: String)
    ensures
        full@ == join_path(dir@, name@),
{
    let d = chars_of(dir);
    let mut full = String::from_str(dir);
    if d.len() > 0 && d[d.len() - 1] != '/' {
        proof {
            reveal_strlit("/");
        }
        full.append("/");
        assert("/"@ =~= seq!['/']);
    }
    full.append(name);
    full
}

/// Resolves the program `name` against the search path `path`.
///
/// The directories are tried in the order in which the path names them, and
/// the first that offers a regular file called exactly `name` wins. Without a
/// search path nothing resolves.
pub fn resolve(name: &str, path: &Option<String>, listings: &Vec<Listing>) -> (found: Option<
    String,
>)
    ensures
        found.deep_view() == resolution(name@, path.deep_view(), listings@),
{
    let dirs = search_directories(path);
    let wanted = chars_of(name);
    let ghost all = dirs.deep_view();
    let mut k: usize = 0;
    assert(all.skip(0) =~= all);
    while k < dirs.len()
        invariant
            k <= dirs.len(),
            all == dirs.deep_view(),
            all == path_directories(path.deep_view()),
            wanted@ == name@,
            first_offer(all, listings@, name@) == first_offer(all.skip(k as int), listings@, name@),
        decreases dirs.len() - k,
    {
        let dir = dirs[k].as_str();
        let d = chars_of(dir);
        assert(all.skip(k as int)[0] == dir@);
        if directory_offers(listings, &d, &wanted) {
            return Some(join(dir, name));
        }
        assert(all.skip(k as int).skip(1) =~= all.skip(k + 1));
        k = k + 1;
    }
    None
}

} // verus!
