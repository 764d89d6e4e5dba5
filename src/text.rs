use crate::minigrep::chars_of;
use vstd::prelude::*;
use vstd::string::*;

verus! {

/// Unicode's `White_Space` characters, the ones `char::is_whitespace`
/// accepts.
pub open spec fn is_white(c: char) -> bool {
    let u = c as u32;
    (0x09 <= u <= 0x0d) || u == 0x20 || u == 0x85 || u == 0xa0 || u == 0x1680 || (0x2000 <= u
        <= 0x200a) || u == 0x2028 || u == 0x2029 || u == 0x202f || u == 0x205f || u == 0x3000
}

/// Whether `c` is white space.
pub fn is_whitespace(c: char) -> (r: bool)
    ensures
        r == is_white(c),
{
    let u = c as u32;
    (0x09 <= u && u <= 0x0d) || u == 0x20 || u == 0x85 || u == 0xa0 || u == 0x1680 || (0x2000
        <= u && u <= 0x200a) || u == 0x2028 || u == 0x2029 || u == 0x202f || u == 0x205f || u
        == 0x3000
}

/// The first index at or after `i` whose character is (when `white`) or is
/// not (when `!white`) white space; `s.len()` if there is none.
pub open spec fn scan(s: Seq<char>, i: int, white: bool) -> int
    decreases s.len() - i,
{
    if i < 0 || i >= s.len() {
        s.len() as int
    } else if is_white(s[i]) == white {
        i
    } else {
        scan(s, i + 1, white)
    }
}

/// A scan from `i` stops between `i` and `s.len()`, passing over only
/// characters of the other kind, and stops on its own kind unless at the end.
pub proof fn lemma_scan(s: Seq<char>, i: int, white: bool)
    requires
        0 <= i <= s.len(),
    ensures
        i <= scan(s, i, white) <= s.len(),
        forall|k: int| i <= k < scan(s, i, white) ==> is_white(#[trigger] s[k]) != white,
        scan(s, i, white) < s.len() ==> is_white(s[scan(s, i, white)]) == white,
    decreases s.len() - i,
{
    if i < s.len() && is_white(s[i]) != white {
        lemma_scan(s, i + 1, white);
    }
}

/// The words of `s` from index `start` on: maximal runs without white space.
pub open spec fn words_from(s: Seq<char>, start: int) -> Seq<Seq<char>>
    decreases s.len() - start,
    via words_from_decreases
{
    let b = scan(s, start, false);
    if start < 0 || b >= s.len() {
        Seq::empty()
    } else {
        let e = scan(s, b, true);
        seq![s.subrange(b, e)] + words_from(s, e)
    }
}

#[via_fn]
proof fn words_from_decreases(s: Seq<char>, start: int) {
    if 0 <= start <= s.len() {
        lemma_scan(s, start, false);
        let b = scan(s, start, false);
        if b < s.len() {
            lemma_scan(s, b, true);
        }
    }
}

/// The words of `s`, as `str::split_whitespace` yields them.
pub open spec fn words_of(s: Seq<char>) -> Seq<Seq<char>> {
    words_from(s, 0)
}

/// Whether `c` is a lower-case vowel.
pub open spec fn is_vowel(c: char) -> bool {
    c == 'a' || c == 'e' || c == 'i' || c == 'o' || c == 'u'
}

/// One word in pig latin, followed by a space: a word that starts with a
/// vowel gets `-hay`; otherwise its first letter moves to the end, before
/// `ay`.
pub open spec fn pig_word(w: Seq<char>) -> Seq<char> {
    if is_vowel(w[0]) {
        w + "-hay "@
    } else {
        w.drop_first() + "-"@ + seq![w[0]] + "ay "@
    }
}

/// The pig latin of a sequence of words, one after another.
pub open spec fn pig_words(ws: Seq<Seq<char>>) -> Seq<char>
    decreases ws.len(),
{
    if ws.len() == 0 {
        Seq::empty()
    } else {
        pig_words(ws.drop_last()) + pig_word(ws.last())
    }
}

/// `words_from` unfolds one word at a time: the word that starts after the
/// white space at `start`, then the words after it.
proof fn lemma_words_step(s: Seq<char>, start: int)
    requires
        0 <= start <= s.len(),
        scan(s, start, false) < s.len(),
    ensures
        words_from(s, start) == seq![
            s.subrange(scan(s, start, false), scan(s, scan(s, start, false), true)),
        ] + words_from(s, scan(s, scan(s, start, false), true)),
{
}

/// Each word of `s` in pig latin, each followed by a space.
pub fn pig_latin(s: &str) -> (r: String)
    ensures
        r@ == pig_words(words_of(s@)),
{
    let cs = chars_of(s);
    let n = cs.len();
    let mut result = String::new();
    let mut i: usize = 0;
    let ghost done: Seq<Seq<char>> = Seq::empty();
    while i < n
        invariant
            cs@ == s@,
            n == cs@.len(),
            i <= n,
            words_of(s@) == done + words_from(s@, i as int),
            result@ == pig_words(done),
        decreases n - i,
    {
        proof {
            lemma_scan(s@, i as int, false);
        }
        let mut b = i;
        while b < n && is_whitespace(cs[b])
            invariant
                cs@ == s@,
                n == cs@.len(),
                i <= b <= n,
                scan(s@, i as int, false) == scan(s@, b as int, false),
            decreases n - b,
        {
            b = b + 1;
        }
        if b == n {
            assert(words_from(s@, i as int) =~= Seq::<Seq<char>>::empty());
            assert(done + words_from(s@, i as int) =~= done);
            i = n;
        } else {
            proof {
                lemma_scan(s@, b as int, true);
            }
            let mut e = b;
            while e < n && !is_whitespace(cs[e])
                invariant
                    cs@ == s@,
                    n == cs@.len(),
                    b <= e <= n,
                    scan(s@, b as int, true) == scan(s@, e as int, true),
                decreases n - e,
            {
                e = e + 1;
            }
            let ghost w = s@.subrange(b as int, e as int);
            proof {
                lemma_words_step(s@, i as int);
                assert(done + words_from(s@, i as int) =~= done.push(w) + words_from(
                    s@,
                    e as int,
                ));
                assert(done.push(w).drop_last() =~= done);
            }
            let first = cs[b];
            if first == 'a' || first == 'e' || first == 'i' || first == 'o' || first == 'u' {
                result.append(s.substring_char(b, e));
                result.append("-hay ");
                proof {
                    reveal_strlit("-hay ");
                }
            } else {
                result.append(s.substring_char(b + 1, e));
                result.append("-");
                result.append(s.substring_char(b, b + 1));
                result.append("ay ");
                proof {
                    reveal_strlit("-");
                    reveal_strlit("ay ");
                    assert(s@.subrange(b as int, b + 1) =~= seq![w[0]]);
                    assert(s@.subrange(b + 1, e as int) =~= w.drop_first());
                }
            }
            proof {
                assert(result@ =~= pig_words(done) + pig_word(w));
                done = done.push(w);
            }
            i = e;
        }
    }
    assert(done + words_from(s@, i as int) =~= done);
    result
}

/// The words of `s`, as `str::split_whitespace` yields them.
pub fn words(s: &str) -> (r: Vec<String>)
    ensures
        crate::minigrep::texts(r@) == words_of(s@),
{
    let cs = chars_of(s);
    let n = cs.len();
    let mut r: Vec<String> = Vec::new();
    let mut i: usize = 0;
    while i < n
        invariant
            cs@ == s@,
            n == cs@.len(),
            i <= n,
            words_of(s@) == crate::minigrep::texts(r@) + words_from(s@, i as int),
        decreases n - i,
    {
        proof {
            lemma_scan(s@, i as int, false);
        }
        let mut b = i;
        while b < n && is_whitespace(cs[b])
            invariant
                cs@ == s@,
                n == cs@.len(),
                i <= b <= n,
                scan(s@, i as int, false) == scan(s@, b as int, false),
            decreases n - b,
        {
            b = b + 1;
        }
        if b == n {
            assert(words_from(s@, i as int) =~= Seq::<Seq<char>>::empty());
            i = n;
        } else {
            proof {
                lemma_scan(s@, b as int, true);
            }
            let mut e = b;
            while e < n && !is_whitespace(cs[e])
                invariant
                    cs@ == s@,
                    n == cs@.len(),
                    b <= e <= n,
                    scan(s@, b as int, true) == scan(s@, e as int, true),
                decreases n - e,
            {
                e = e + 1;
            }
            let w = s.substring_char(b, e).to_owned();
            proof {
                lemma_words_step(s@, i as int);
                assert(crate::minigrep::texts(r@.push(w)) =~= crate::minigrep::texts(r@).push(w@));
                assert(crate::minigrep::texts(r@) + words_from(s@, i as int)
                    =~= crate::minigrep::texts(r@).push(w@) + words_from(s@, e as int));
            }
            r.push(w);
            i = e;
        }
    }
    assert(crate::minigrep::texts(r@) + words_from(s@, i as int) =~= crate::minigrep::texts(r@));
    r
}

/// Reads a command of the form `Add <name> to <department>`: the second and
/// fourth words, if there are at least four. The first and third words are
/// not checked.
pub fn employee_and_department(command: &str) -> (r: Option<(String, String)>)
    ensures
        words_of(command@).len() < 4 <==> r is None,
        r matches Some(p) ==> p.0@ == words_of(command@)[1] && p.1@ == words_of(command@)[3],
{
    let ws = words(command);
    if ws.len() < 4 {
        return None;
    }
    proof {
        assert(crate::minigrep::texts(ws@)[1] == ws@[1]@);
        assert(crate::minigrep::texts(ws@)[3] == ws@[3]@);
    }
    Some((ws[1].clone(), ws[3].clone()))
}

} // verus!
