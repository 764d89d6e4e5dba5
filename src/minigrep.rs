use vstd::prelude::*;
use vstd::string::*;

verus! {

/// The index of the first `'\n'` of `s` at or after `i`, or `s.len()` if none.
pub open spec fn line_end(s: Seq<char>, i: int) -> int
    decreases s.len() - i,
{
    if i >= s.len() {
        s.len() as int
    } else if s[i] == '\n' {
        i
    } else {
        line_end(s, i + 1)
    }
}

/// The line that runs from `start` to the line end `e`: a `'\r'` just before
/// a `'\n'` belongs to the line ending, not to the line.
pub open spec fn line_at(s: Seq<char>, start: int, e: int) -> Seq<char> {
    if e < s.len() && e > start && s[e - 1] == '\r' {
        s.subrange(start, e - 1)
    } else {
        s.subrange(start, e)
    }
}

/// The lines of `s` from index `start` on. A final line ending does not
/// start another, empty, line.
pub open spec fn lines_from(s: Seq<char>, start: int) -> Seq<Seq<char>>
    decreases s.len() - start,
    via lines_from_decreases
{
    if start < 0 || start >= s.len() {
        Seq::empty()
    } else {
        let e = line_end(s, start);
        if e >= s.len() {
            seq![line_at(s, start, e)]
        } else {
            seq![line_at(s, start, e)] + lines_from(s, e + 1)
        }
    }
}

#[via_fn]
proof fn lines_from_decreases(s: Seq<char>, start: int) {
    if 0 <= start < s.len() {
        lemma_line_end_bounds(s, start);
    }
}

/// The lines of `s`, as `str::lines` splits them.
pub open spec fn lines_of(s: Seq<char>) -> Seq<Seq<char>> {
    lines_from(s, 0)
}

/// A line end found from `i` lies between `i` and `s.len()`, and no `'\n'`
/// comes before it.
pub proof fn lemma_line_end_bounds(s: Seq<char>, i: int)
    requires
        0 <= i <= s.len(),
    ensures
        i <= line_end(s, i) <= s.len(),
        line_end(s, i) < s.len() ==> s[line_end(s, i)] == '\n',
    decreases s.len() - i,
{
    if i < s.len() && s[i] != '\n' {
        lemma_line_end_bounds(s, i + 1);
    }
}

/// Whether `needle` occurs in `hay` as a contiguous run; the empty needle
/// occurs everywhere.
pub open spec fn occurs_in(needle: Seq<char>, hay: Seq<char>) -> bool {
    exists|i: int|
        0 <= i && i + needle.len() <= hay.len() && #[trigger] hay.subrange(i, i + needle.len())
            == needle
}

/// The lines of `ls` that contain `query`, in order.
pub open spec fn matching(ls: Seq<Seq<char>>, query: Seq<char>) -> Seq<Seq<char>>
    decreases ls.len(),
{
    if ls.len() == 0 {
        Seq::empty()
    } else {
        let rest = matching(ls.drop_last(), query);
        if occurs_in(query, ls.last()) {
            rest.push(ls.last())
        } else {
            rest
        }
    }
}

/// Lower-case form of a text, as `str::to_lowercase` gives it.
pub uninterp spec fn lower_of(s: Seq<char>) -> Seq<char>;

/// The lines of `ls` whose lower-case form contains `folded_query`, in order.
pub open spec fn matching_folded(ls: Seq<Seq<char>>, folded_query: Seq<char>) -> Seq<Seq<char>>
    decreases ls.len(),
{
    if ls.len() == 0 {
        Seq::empty()
    } else {
        let rest = matching_folded(ls.drop_last(), folded_query);
        if occurs_in(folded_query, lower_of(ls.last())) {
            rest.push(ls.last())
        } else {
            rest
        }
    }
}

/// The texts held by a sequence of strings.
pub open spec fn texts(v: Seq<String>) -> Seq<Seq<char>> {
    Seq::new(v.len(), |i: int| v[i]@)
}

/// Relies on `str::to_lowercase`: the lower-case form depends on the text
/// alone.
#[verifier::external_body]
fn lowercase(s: &str) -> (r: String)
    ensures
        r@ == lower_of(s@),
{
    s.to_lowercase()
}

/// The characters of `s`, in order.
pub(crate) fn chars_of(s: &str) -> (r: Vec<char>)
    ensures
        r@ == s@,
{
    let n = s.unicode_len();
    let mut r: Vec<char> = Vec::new();
    let mut i: usize = 0;
    while i < n
        invariant
            n == s@.len(),
            i <= n,
            r@ == s@.subrange(0, i as int),
        decreases n - i,
    {
        r.push(s.get_char(i));
        i = i + 1;
    }
    r
}

/// Whether `needle` occurs in `hay` starting at index `at`.
fn occurs_at(needle: &Vec<char>, hay: &Vec<char>, at: usize) -> (r: bool)
    requires
        at + needle@.len() <= hay@.len(),
    ensures
        r == (hay@.subrange(at as int, at + needle@.len()) == needle@),
{
    let hl = hay.len();
    let mut j: usize = 0;
    while j < needle.len()
        invariant
            hl == hay@.len(),
            at + needle@.len() <= hay@.len(),
            j <= needle@.len(),
            forall|k: int| 0 <= k < j ==> hay@[at + k] == needle@[k],
        decreases needle@.len() - j,
    {
        if hay[at + j] != needle[j] {
            assert(hay@.subrange(at as int, at + needle@.len())[j as int] != needle@[j as int]);
            return false;
        }
        j = j + 1;
    }
    assert(hay@.subrange(at as int, at + needle@.len()) =~= needle@);
    true
}

/// Whether `needle` occurs anywhere in `hay`.
fn occurs(needle: &Vec<char>, hay: &Vec<char>) -> (r: bool)
    ensures
        r == occurs_in(needle@, hay@),
{
    if needle.len() > hay.len() {
        return false;
    }
    let last = hay.len() - needle.len();
    let mut i: usize = 0;
    loop
        invariant
            i <= last,
            last + needle@.len() == hay@.len(),
            forall|k: int| 0 <= k < i ==> #[trigger] hay@.subrange(k, k + needle@.len()) != needle@,
        decreases last - i,
    {
        if occurs_at(needle, hay, i) {
            return true;
        }
        if i == last {
            return false;
        }
        i = i + 1;
    }
}

/// Whether `query` occurs in `line`.
pub fn contains(line: &str, query: &str) -> (r: bool)
    ensures
        r == occurs_in(query@, line@),
{
    occurs(&chars_of(query), &chars_of(line))
}

/// The lines of `contents`: split at each `'\n'`, with the `'\r'` of a
/// `"\r\n"` ending dropped and no empty line after a final line ending.
pub fn lines(contents: &str) -> (r: Vec<String>)
    ensures
        texts(r@) == lines_of(contents@),
{
    let cs = chars_of(contents);
    let n = cs.len();
    let mut r: Vec<String> = Vec::new();
    let mut start: usize = 0;
    while start < n
        invariant
            cs@ == contents@,
            n == cs@.len(),
            start <= n,
            lines_of(cs@) == texts(r@) + lines_from(cs@, start as int),
        decreases n - start,
    {
        let mut e = start;
        while e < n && cs[e] != '\n'
            invariant
                cs@ == contents@,
                n == cs@.len(),
                start <= e <= n,
                line_end(cs@, start as int) == line_end(cs@, e as int),
            decreases n - e,
        {
            e = e + 1;
        }
        let stop = if e < n && e > start && cs[e - 1] == '\r' {
            e - 1
        } else {
            e
        };
        let line = contents.substring_char(start, stop).to_owned();
        let next = if e == n {
            n
        } else {
            e + 1
        };
        proof {
            lemma_line_end_bounds(cs@, start as int);
            assert(line_end(cs@, e as int) == e);
            assert(line@ == line_at(cs@, start as int, e as int));
            assert(lines_from(cs@, start as int) == seq![line@] + lines_from(cs@, next as int));
            assert(texts(r@.push(line)) =~= texts(r@).push(line@));
            assert(texts(r@) + (seq![line@] + lines_from(cs@, next as int)) =~= texts(r@).push(line@)
                + lines_from(cs@, next as int));
        }
        r.push(line);
        start = next;
    }
    assert(texts(r@) + lines_from(cs@, start as int) =~= texts(r@));
    r
}

/// The lines of `contents` that contain `query`, in order.
pub fn search(query: &str, contents: &str) -> (r: Vec<String>)
    ensures
        texts(r@) == matching(lines_of(contents@), query@),
{
    let all = lines(contents);
    let mut r: Vec<String> = Vec::new();
    let mut i: usize = 0;
    while i < all.len()
        invariant
            i <= all@.len(),
            texts(all@) == lines_of(contents@),
            texts(r@) == matching(texts(all@).subrange(0, i as int), query@),
        decreases all@.len() - i,
    {
        let found = contains(all[i].as_str(), query);
        proof {
            let pre = texts(all@).subrange(0, i + 1);
            assert(pre.drop_last() =~= texts(all@).subrange(0, i as int));
            assert(pre.last() == all@[i as int]@);
        }
        if found {
            let line = all[i].clone();
            proof {
                assert(texts(r@.push(line)) =~= texts(r@).push(line@));
            }
            r.push(line);
        }
        i = i + 1;
    }
    assert(texts(all@).subrange(0, all@.len() as int) =~= texts(all@));
    r
}

/// The lines of `contents` whose lower-case form contains `folded_query`,
/// a query already in lower case.
pub fn search_folded(folded_query: &str, contents: &str) -> (r: Vec<String>)
    ensures
        texts(r@) == matching_folded(lines_of(contents@), folded_query@),
{
    let all = lines(contents);
    let mut r: Vec<String> = Vec::new();
    let mut i: usize = 0;
    while i < all.len()
        invariant
            i <= all@.len(),
            texts(all@) == lines_of(contents@),
            texts(r@) == matching_folded(texts(all@).subrange(0, i as int), folded_query@),
        decreases all@.len() - i,
    {
        let folded = lowercase(all[i].as_str());
        let found = contains(folded.as_str(), folded_query);
        proof {
            let pre = texts(all@).subrange(0, i + 1);
            assert(pre.drop_last() =~= texts(all@).subrange(0, i as int));
            assert(pre.last() == all@[i as int]@);
        }
        if found {
            let line = all[i].clone();
            proof {
                assert(texts(r@.push(line)) =~= texts(r@).push(line@));
            }
            r.push(line);
        }
        i = i + 1;
    }
    assert(texts(all@).subrange(0, all@.len() as int) =~= texts(all@));
    r
}

/// The lines of `contents` that contain `query`, ignoring case.
pub fn search_case_insensitive(query: &str, contents: &str) -> (r: Vec<String>)
    ensures
        texts(r@) == matching_folded(lines_of(contents@), lower_of(query@)),
{
    let folded = lowercase(query);
    search_folded(folded.as_str(), contents)
}

/// What to search for, where, and whether case matters.
pub struct Config {
    pub query: String,
    pub file_path: String,
    pub ignore_case: bool,
}

impl Config {
    /// Reads the query and the file path from command-line arguments, the
    /// first of which names the program; `ignore_case` comes from the
    /// environment.
    pub fn build(args: &Vec<String>, ignore_case: bool) -> (r: Result<Config, &'static str>)
        ensures
            args@.len() < 2 ==> (r matches Err(m) && m@ == "Query not found!"@),
            args@.len() == 2 ==> (r matches Err(m) && m@ == "File path not found!"@),
            args@.len() > 2 ==> (r matches Ok(c) && c.query@ == args@[1]@ && c.file_path@
                == args@[2]@ && c.ignore_case == ignore_case),
    {
        if args.len() < 2 {
            return Err("Query not found!");
        }
        if args.len() < 3 {
            return Err("File path not found!");
        }
        Ok(Config { query: args[1].clone(), file_path: args[2].clone(), ignore_case })
    }
}

/// The lines of `contents` that match the configured query, ignoring case
/// when the configuration says so.
pub fn find_matches(config: &Config, contents: &str) -> (r: Vec<String>)
    ensures
        config.ignore_case ==> texts(r@) == matching_folded(
            lines_of(contents@),
            lower_of(config.query@),
        ),
        !config.ignore_case ==> texts(r@) == matching(lines_of(contents@), config.query@),
{
    if config.ignore_case {
        search_case_insensitive(config.query.as_str(), contents)
    } else {
        search(config.query.as_str(), contents)
    }
}

} // verus!
