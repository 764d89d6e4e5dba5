use vstd::prelude::*;
use vstd::string::*;

verus! {

/// The Fibonacci numbers: 0, 1, 1, 2, 3, 5, ...
pub open spec fn fib(n: nat) -> nat
    decreases n,
{
    if n == 0 {
        0
    } else if n == 1 {
        1
    } else {
        fib((n - 1) as nat) + fib((n - 2) as nat)
    }
}

/// Fibonacci numbers never decrease.
pub proof fn lemma_fib_monotonic(i: nat, j: nat)
    requires
        i <= j,
    ensures
        fib(i) <= fib(j),
    decreases j,
{
    if i < j {
        lemma_fib_monotonic(i, (j - 1) as nat);
        if j >= 2 {
            assert(fib(j) == fib((j - 1) as nat) + fib((j - 2) as nat));
        }
    }
}

/// The `n`th Fibonacci number. The loop also computes the next one, which
/// must fit in a `u32` as well.
pub fn nth_fibonacci(n: u32) -> (r: u32)
    requires
        fib(n as nat + 1) <= u32::MAX,
    ensures
        r == fib(n as nat),
{
    let mut a: u32 = 0;
    let mut b: u32 = 1;
    let mut i: u32 = 0;
    while i < n
        invariant
            i <= n,
            a == fib(i as nat),
            b == fib(i as nat + 1),
            fib(n as nat + 1) <= u32::MAX,
        decreases n - i,
    {
        proof {
            lemma_fib_monotonic(i as nat + 2, n as nat + 1);
        }
        let c = a + b;
        a = b;
        b = c;
        i = i + 1;
    }
    a
}

/// The index of the first space in `s`, or its length if there is none.
pub open spec fn first_space(s: Seq<char>) -> int
    decreases s.len(),
{
    if s.len() == 0 {
        0
    } else if first_space(s.drop_last()) < s.len() - 1 {
        first_space(s.drop_last())
    } else if s.last() == ' ' {
        s.len() - 1
    } else {
        s.len() as int
    }
}

/// `first_space` is a position in `s`; no space comes before it, and a space
/// stands at it unless it is the end.
pub proof fn lemma_first_space(s: Seq<char>)
    ensures
        0 <= first_space(s) <= s.len(),
        forall|k: int| 0 <= k < first_space(s) ==> s[k] != ' ',
        first_space(s) < s.len() ==> s[first_space(s)] == ' ',
    decreases s.len(),
{
    if s.len() > 0 {
        let p = s.drop_last();
        lemma_first_space(p);
        assert forall|k: int| 0 <= k < first_space(s) implies s[k] != ' ' by {
            if k < p.len() {
                assert(p[k] == s[k]);
            }
        }
        if first_space(p) < p.len() {
            assert(s[first_space(p)] == p[first_space(p)]);
        }
    }
}

/// The text of `s` before its first space: the whole of `s` if it has none.
pub fn first_word(s: &String) -> (r: &str)
    ensures
        r@ == s@.subrange(0, first_space(s@)),
{
    let t = s.as_str();
    let n = t.unicode_len();
    let mut i: usize = 0;
    proof {
        lemma_first_space(s@);
    }
    while i < n
        invariant
            t@ == s@,
            n == s@.len(),
            i <= first_space(s@),
            0 <= first_space(s@) <= s@.len(),
            forall|k: int| 0 <= k < first_space(s@) ==> s@[k] != ' ',
            first_space(s@) < s@.len() ==> s@[first_space(s@)] == ' ',
        decreases n - i,
    {
        if t.get_char(i) == ' ' {
            return t.substring_char(0, i);
        }
        i = i + 1;
    }
    t.substring_char(0, n)
}

/// The largest number of a non-empty list.
pub fn largest(list: &[i32]) -> (r: i32)
    requires
        list@.len() > 0,
    ensures
        exists|i: int| 0 <= i < list@.len() && r == list@[i],
        forall|i: int| 0 <= i < list@.len() ==> list@[i] <= r,
{
    let mut largest = list[0];
    let mut i: usize = 1;
    while i < list.len()
        invariant
            1 <= i <= list@.len(),
            exists|k: int| 0 <= k < i && largest == list@[k],
            forall|k: int| 0 <= k < i ==> list@[k] <= largest,
        decreases list@.len() - i,
    {
        if list[i] > largest {
            largest = list[i];
        }
        i = i + 1;
    }
    largest
}

/// The longer of two texts by length in bytes; `y` on a tie.
pub fn longest<'a>(x: &'a str, y: &'a str) -> (r: &'a str)
    ensures
        r == (if x.len() > y.len() {
            x
        } else {
            y
        }),
{
    if x.len() > y.len() {
        x
    } else {
        y
    }
}

/// A pair of coordinates of any two types.
pub struct Point<T, U> {
    pub x: T,
    pub y: U,
}

impl<T, U> Point<T, U> {
    /// Takes `x` from `self` and `y` from `other`.
    pub fn mixup<V, W>(self, other: Point<V, W>) -> (r: Point<T, W>)
        ensures
            r.x == self.x,
            r.y == other.y,
    {
        Point { x: self.x, y: other.y }
    }
}

/// The outcome of a request.
#[derive(Debug, PartialEq, Eq, Structural, Clone, Copy)]
pub enum Status {
    Success,
    Error(u32),
}

impl Status {
    /// 200 for success, else the error's own code.
    pub fn code(&self) -> (r: u32)
        ensures
            r == (match *self {
                Status::Success => 200,
                Status::Error(c) => c,
            }),
    {
        match self {
            Status::Success => 200,
            Status::Error(code) => *code,
        }
    }
}

/// States a quarter may come from.
#[derive(Debug, PartialEq, Eq, Structural, Clone, Copy)]
pub enum UsState {
    NewYork,
    NewJersey,
}

/// US coins.
#[derive(Debug, PartialEq, Eq, Structural, Clone, Copy)]
pub enum Coin {
    Penny,
    Nickel,
    Dime,
    Quarter(UsState),
}

/// What a coin is worth in cents.
pub open spec fn cents(coin: Coin) -> u8 {
    match coin {
        Coin::Penny => 1,
        Coin::Nickel => 5,
        Coin::Dime => 10,
        Coin::Quarter(_) => 25,
    }
}

/// What a coin is worth in cents.
pub fn value_in_cents(coin: Coin) -> (r: u8)
    ensures
        r == cents(coin),
{
    match coin {
        Coin::Penny => 1,
        Coin::Nickel => 5,
        Coin::Dime => 10,
        Coin::Quarter(_) => 25,
    }
}

/// One more than the number held, if any; the number must not be `i32::MAX`.
pub fn plus_one(x: Option<i32>) -> (r: Option<i32>)
    requires
        x != Some(i32::MAX),
    ensures
        r == (match x {
            Some(v) => Some((v + 1) as i32),
            None => None,
        }),
{
    match x {
        None => None,
        Some(v) => Some(v + 1),
    }
}

/// Two values of one type.
pub struct Pair<T> {
    pub x: T,
    pub y: T,
}

impl<T> Pair<T> {
    /// The pair `(x, y)`.
    pub fn new(x: T, y: T) -> (r: Pair<T>)
        ensures
            r.x == x,
            r.y == y,
    {
        Pair { x, y }
    }
}

} // verus!
