//! 256-bit EVM words split into two 128-bit halves.
use vstd::prelude::*;

verus! {

/// An EVM word held as its low and high 128-bit halves.
#[derive(Clone, Copy, Debug, PartialEq, Eq, Structural)]
pub struct Word {
    pub lo: u128,
    pub hi: u128,
}

pub open spec fn pow128() -> nat {
    0x1_0000_0000_0000_0000_0000_0000_0000_0000nat
}

impl Word {
    /// The integer the word stands for.
    pub open spec fn value(self) -> nat {
        (self.hi as nat) * pow128() + (self.lo as nat)
    }

    /// The word holding a 64-bit value.
    pub fn from_u64(v: u64) -> (w: Word)
        ensures
            w.value() == v as nat,
            w.hi == 0,
    {
        Word { lo: v as u128, hi: 0 }
    }

    /// Whether the word's value fits in 64 bits.
    pub fn fits_u64(&self) -> (r: bool)
        ensures
            r == (self.value() <= u64::MAX as nat),
    {
        self.hi == 0 && self.lo <= u64::MAX as u128
    }

    /// The word's value as a `u64`; the value must fit.
    pub fn as_u64(&self) -> (r: u64)
        requires
            self.value() <= u64::MAX as nat,
        ensures
            r as nat == self.value(),
    {
        assert(self.hi == 0) by (nonlinear_arith)
            requires
                self.value() <= u64::MAX as nat,
                self.value() == (self.hi as nat) * pow128() + (self.lo as nat),
                pow128() > u64::MAX as nat,
        ;
        self.lo as u64
    }
}

} // verus!

verus! {

pub proof fn lemma_value_zero_hi(w: Word)
    ensures
        (w.hi == 0) ==> w.value() == w.lo as nat,
        w.value() < pow128() ==> w.hi == 0,
{
    if w.hi != 0 {
        assert((w.hi as nat) * pow128() >= pow128()) by (nonlinear_arith)
            requires w.hi != 0;
    }
}

} // verus!
