use vstd::prelude::*;
use vstd::string::*;

verus! {

/// Splits `values` into the parts before and from `mid`, each borrowed
/// mutably; writes through the parts land in `values`.
pub fn split_at_mut(values: &mut [i32], mid: usize) -> (r: (&mut [i32], &mut [i32]))
    requires
        mid <= old(values)@.len(),
    ensures
        r.0@ == old(values)@.subrange(0, mid as int),
        r.1@ == old(values)@.subrange(mid as int, old(values)@.len() as int),
        final(values)@ == final(r.0)@ + final(r.1)@,
{
    values.split_at_mut(mid)
}

/// `n` copies of `c`.
pub open spec fn run_of(c: char, n: nat) -> Seq<char> {
    Seq::new(n, |i: int| c)
}

/// The five lines that frame `text` in a box of stars, `width` being the
/// text's width:
/// a row of stars, a starred blank line, the text between stars, the blank
/// line again and the row of stars again.
pub open spec fn outline_of(text: Seq<char>, width: nat) -> Seq<Seq<char>> {
    let stars = run_of('*', width + 4);
    let blank = seq!['*'] + run_of(' ', width + 2) + seq!['*'];
    seq![stars, blank, seq!['*', ' '] + text + seq![' ', '*'], blank, stars]
}

/// `s` followed by `n` copies of `c`.
fn push_run(s: &mut String, c: &str, n: usize)
    requires
        c@.len() == 1,
    ensures
        final(s)@ == old(s)@ + run_of(c@[0], n as nat),
{
    let mut i: usize = 0;
    while i < n
        invariant
            c@.len() == 1,
            i <= n,
            s@ == old(s)@ + run_of(c@[0], i as nat),
        decreases n - i,
    {
        s.append(c);
        proof {
            assert(old(s)@ + run_of(c@[0], i as nat) + c@ =~= old(s)@ + run_of(c@[0], (i + 1) as nat));
        }
        i = i + 1;
    }
}

/// Frames `text` in a box of stars sized to its length in bytes.
pub fn outline(text: &str) -> (r: Vec<String>)
    requires
        text.len() + 4 <= usize::MAX,
    ensures
        r@.len() == 5,
        forall|i: int| 0 <= i < 5 ==> #[trigger] r@[i]@ == outline_of(text@, text.len() as nat)[i],
{
    let width = text.len();
    proof {
        reveal_strlit("*");
        reveal_strlit(" ");
        reveal_strlit("* ");
        reveal_strlit(" *");
    }
    let mut stars = String::new();
    push_run(&mut stars, "*", width + 4);
    let mut blank = String::from_str("*");
    push_run(&mut blank, " ", width + 2);
    blank.append("*");
    let mut middle = String::from_str("* ");
    middle.append(text);
    middle.append(" *");
    let mut r: Vec<String> = Vec::new();
    r.push(stars.clone());
    r.push(blank.clone());
    r.push(middle);
    r.push(blank);
    r.push(stars);
    proof {
        let o = outline_of(text@, width as nat);
        assert(r@[0]@ =~= o[0]);
        assert(r@[1]@ =~= o[1]);
        assert(r@[2]@ =~= o[2]);
        assert(r@[3]@ =~= o[3]);
        assert(r@[4]@ =~= o[4]);
    }
    r
}

} // verus!
