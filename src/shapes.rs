use vstd::prelude::*;

verus! {

/// An axis-aligned rectangle.
#[derive(Debug, PartialEq, Eq, Structural, Clone, Copy)]
pub struct Rectangle {
    pub width: u32,
    pub height: u32,
}

impl Rectangle {
    /// Whether `other` fits strictly inside `self`, side by side.
    pub open spec fn spec_can_hold(&self, other: &Rectangle) -> bool {
        self.width > other.width && self.height > other.height
    }

    /// Width times height; the product must fit in a `u32`.
    pub fn area(&self) -> (r: u32)
        requires
            self.width * self.height <= u32::MAX,
        ensures
            r == self.width * self.height,
    {
        self.width * self.height
    }

    /// Whether `other` fits strictly inside `self`.
    pub fn can_hold(&self, other: &Rectangle) -> (r: bool)
        ensures
            r == self.spec_can_hold(other),
    {
        self.width > other.width && self.height > other.height
    }

    /// A square with the given side.
    pub fn square(size: u32) -> (r: Rectangle)
        ensures
            r.width == size,
            r.height == size,
    {
        Rectangle { width: size, height: size }
    }
}

/// A guess between 1 and 100 inclusive.
#[derive(Debug, PartialEq, Eq, Structural, Clone, Copy)]
pub struct Guess {
    value: i32,
}

impl Guess {
    /// The guessed number.
    pub closed spec fn spec_value(&self) -> i32 {
        self.value
    }

    /// Holds the value if it lies in 1..=100.
    pub open spec fn wf(&self) -> bool {
        1 <= self.spec_value() <= 100
    }

    /// A guess of `value`, which must lie in 1..=100.
    pub fn new(value: i32) -> (r: Guess)
        requires
            1 <= value <= 100,
        ensures
            r.wf(),
            r.spec_value() == value,
    {
        Guess { value }
    }

    /// The guessed number.
    pub fn value(&self) -> (r: i32)
        ensures
            r == self.spec_value(),
    {
        self.value
    }
}

/// Integer division rounding toward zero, as Rust's `/` does.
pub open spec fn quotient_toward_zero(a: int, b: int) -> int {
    let q = (if a < 0 { -a } else { a }) / (if b < 0 { -b } else { b });
    if (a < 0) != (b < 0) {
        -q
    } else {
        q
    }
}

/// `a / b`, or an error naming the cause when `b` is zero. The one quotient
/// that does not fit, `i32::MIN / -1`, is left out.
pub fn divide(a: i32, b: i32) -> (r: Result<i32, &'static str>)
    requires
        !(a == i32::MIN && b == -1),
    ensures
        b == 0 ==> (r matches Err(m) && m@ == "Division by zero"@),
        b != 0 ==> (r matches Ok(q) && q == quotient_toward_zero(a as int, b as int)),
{
    if b != 0 {
        proof {
            let p: int = if a < 0 { -a } else { a as int };
            let d: int = if b < 0 { -b } else { b as int };
            assert(0 <= p / d <= p) by (nonlinear_arith)
                requires
                    p >= 0,
                    d >= 1,
            ;
            assert(0int / d == 0) by (nonlinear_arith)
                requires
                    d >= 1,
            ;
            if p > 0 && d > 1 {
                vstd::arithmetic::div_mod::lemma_div_decreases(p, d);
            }
        }
    }
    match a.checked_div(b) {
        Some(q) => Ok(q),
        None => Err("Division by zero"),
    }
}

} // verus!
