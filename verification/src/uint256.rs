//! Unsigned 256-bit integers, as block headers and account balances carry them.

use vstd::prelude::*;

verus! {

/// Two to the power 64: the weight of one word above the word below it.
pub open spec fn word_base() -> nat {
    0x1_0000_0000_0000_0000
}

/// An unsigned 256-bit integer held as four 64-bit words, `w0` the least
/// significant.
#[derive(Clone, Copy, Debug, PartialEq, Eq, Structural)]
pub struct U256 {
    pub w0: u64,
    pub w1: u64,
    pub w2: u64,
    pub w3: u64,
}

impl U256 {
    /// The number that the four words stand for.
    pub open spec fn value(&self) -> nat {
        self.w0 as nat + word_base() * (self.w1 as nat + word_base() * (self.w2 as nat
            + word_base() * (self.w3 as nat)))
    }

    /// The number zero.
    pub fn zero() -> (r: U256)
        ensures
            r.value() == 0,
            r == (U256 { w0: 0, w1: 0, w2: 0, w3: 0 }),
    {
        U256 { w0: 0, w1: 0, w2: 0, w3: 0 }
    }

    /// Widens a 64-bit number.
    pub fn from_u64(v: u64) -> (r: U256)
        ensures
            r.value() == v as nat,
            r == (U256 { w0: v, w1: 0, w2: 0, w3: 0 }),
    {
        U256 { w0: v, w1: 0, w2: 0, w3: 0 }
    }

    /// Whether `self` is strictly greater than `other`, as numbers.
    pub fn gt(&self, other: &U256) -> (r: bool)
        ensures
            r == (self.value() > other.value()),
    {
        proof {
            lemma_order_by_words(*self, *other);
            lemma_order_by_words(*other, *self);
        }
        if self.w3 != other.w3 {
            self.w3 > other.w3
        } else if self.w2 != other.w2 {
            self.w2 > other.w2
        } else if self.w1 != other.w1 {
            self.w1 > other.w1
        } else {
            self.w0 > other.w0
        }
    }

    /// Whether a 64-bit amount is strictly greater than `self`.
    pub fn below_u64(&self, amount: u64) -> (r: bool)
        ensures
            r == (amount as nat > self.value()),
    {
        let wide = U256::from_u64(amount);
        wide.gt(self)
    }
}

/// The comparison word by word, from the most significant down.
pub open spec fn words_greater(a: U256, b: U256) -> bool {
    if a.w3 != b.w3 {
        a.w3 > b.w3
    } else if a.w2 != b.w2 {
        a.w2 > b.w2
    } else if a.w1 != b.w1 {
        a.w1 > b.w1
    } else {
        a.w0 > b.w0
    }
}

/// Comparing two numbers word by word, most significant first, orders them
/// as their values do.
pub proof fn lemma_order_by_words(a: U256, b: U256)
    ensures
        words_greater(a, b) ==> a.value() > b.value(),
        a == b ==> a.value() == b.value(),
{
    let base = word_base() as int;
    let a2 = a.w2 as int + base * (a.w3 as int);
    let b2 = b.w2 as int + base * (b.w3 as int);
    let a1 = a.w1 as int + base * a2;
    let b1 = b.w1 as int + base * b2;
    if a.w3 > b.w3 {
        assert(base * (a.w3 as int) >= base * (b.w3 as int) + base) by (nonlinear_arith)
            requires
                a.w3 > b.w3,
                base > 0,
        ;
    }
    if a2 > b2 {
        assert(base * a2 >= base * b2 + base) by (nonlinear_arith)
            requires
                a2 > b2,
                base > 0,
        ;
    }
    if a1 > b1 {
        assert(base * a1 >= base * b1 + base) by (nonlinear_arith)
            requires
                a1 > b1,
                base > 0,
        ;
    }
}

/// Two numbers with the same value have the same words.
pub proof fn lemma_value_injective(a: U256, b: U256)
    requires
        a.value() == b.value(),
    ensures
        a == b,
{
    lemma_order_by_words(a, b);
    lemma_order_by_words(b, a);
}

} // verus!
