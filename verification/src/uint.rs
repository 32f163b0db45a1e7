//! Unsigned 256-bit integers.
//!
//! On-chain amounts, reserves and gas prices are 256-bit words.  [`U256`]
//! stores such a word as four 64-bit limbs and views it as a natural number;
//! every contract in this crate that mentions an amount speaks of that view.
//! Multi-limb arithmetic itself is done by `ethers::types::U256`, reached
//! through the functions at the end of the `impl` whose bodies are not verified.

use vstd::prelude::*;
use std::cmp::Ordering;

verus! {

/// Two to the power 256: the first natural number a [`U256`] cannot hold.
pub open spec fn u256_limit() -> nat {
    0x1_0000_0000_0000_0000_0000_0000_0000_0000_0000_0000_0000_0000_0000_0000_0000_0000nat
}

/// The natural number denoted by four little-endian 64-bit limbs.
pub open spec fn limbs_value(w0: u64, w1: u64, w2: u64, w3: u64) -> nat {
    (w0 as nat) + (w1 as nat) * 0x1_0000_0000_0000_0000nat
        + (w2 as nat) * 0x1_0000_0000_0000_0000_0000_0000_0000_0000nat
        + (w3 as nat) * 0x1_0000_0000_0000_0000_0000_0000_0000_0000_0000_0000_0000_0000nat
}

/// An unsigned 256-bit integer, least significant limb first.
#[derive(Clone, Copy, Debug, PartialEq, Eq, Hash, Structural)]
pub struct U256 {
    pub w0: u64,
    pub w1: u64,
    pub w2: u64,
    pub w3: u64,
}

impl View for U256 {
    type V = nat;

    open spec fn view(&self) -> nat {
        limbs_value(self.w0, self.w1, self.w2, self.w3)
    }
}

/// Every [`U256`] denotes a number below two to the 256, and two of them
/// denote the same number only if they are the same limbs.
pub proof fn lemma_view_bounded_injective(a: U256, b: U256)
    ensures
        a@ < u256_limit(),
        a@ == b@ <==> a == b,
{
    if a@ == b@ {
        let base = 0x1_0000_0000_0000_0000int;
        let ha = a.w1 as int + base * (a.w2 as int + base * (a.w3 as int));
        let hb = b.w1 as int + base * (b.w2 as int + base * (b.w3 as int));
        assert(a@ == a.w0 as int + base * ha);
        assert(b@ == b.w0 as int + base * hb);
        assert(ha == hb);
        let ga = a.w2 as int + base * (a.w3 as int);
        let gb = b.w2 as int + base * (b.w3 as int);
        assert(ga == gb);
    }
}

impl U256 {
    /// The number zero.
    pub fn zero() -> (r: U256)
        ensures
            r@ == 0,
    {
        U256 { w0: 0, w1: 0, w2: 0, w3: 0 }
    }

    /// The largest representable number, two to the 256 minus one.
    pub fn max_value() -> (r: U256)
        ensures
            r@ == u256_limit() - 1,
    {
        U256 { w0: u64::MAX, w1: u64::MAX, w2: u64::MAX, w3: u64::MAX }
    }

    /// The 256-bit number equal to `v`.
    pub fn from_u64(v: u64) -> (r: U256)
        ensures
            r@ == v,
    {
        U256 { w0: v, w1: 0, w2: 0, w3: 0 }
    }

    /// Whether this is the number zero.
    pub fn is_zero(&self) -> (r: bool)
        ensures
            r == (self@ == 0),
    {
        self.w0 == 0 && self.w1 == 0 && self.w2 == 0 && self.w3 == 0
    }

    /// Whether `self` is strictly smaller than `other`.
    pub fn lt(&self, other: &U256) -> (r: bool)
        ensures
            r == (self@ < other@),
    {
        if self.w3 != other.w3 {
            self.w3 < other.w3
        } else if self.w2 != other.w2 {
            self.w2 < other.w2
        } else if self.w1 != other.w1 {
            self.w1 < other.w1
        } else {
            self.w0 < other.w0
        }
    }

    /// Whether `self` is smaller than or equal to `other`.
    pub fn le(&self, other: &U256) -> (r: bool)
        ensures
            r == (self@ <= other@),
    {
        !other.lt(self)
    }

    /// The value as a `u128`, if it fits.
    pub fn to_u128(&self) -> (r: Option<u128>)
        ensures
            r matches Some(v) ==> v == self@,
            r is Some <==> self@ <= u128::MAX,
    {
        if self.w2 != 0 || self.w3 != 0 {
            None
        } else {
            let hi: u128 = self.w1 as u128;
            let lo: u128 = self.w0 as u128;
            Some(hi * 0x1_0000_0000_0000_0000u128 + lo)
        }
    }

    /// The difference, or zero when `other` is the larger.
    pub fn saturating_sub(self, other: U256) -> (r: U256)
        ensures
            r@ == if other@ <= self@ { self@ - other@ } else { 0 },
    {
        match self.checked_sub(other) {
            Some(d) => d,
            None => U256::zero(),
        }
    }

    /// Calls `U256::checked_add` of `ethers::types`: the exact sum of the two
    /// numbers, absent exactly when the sum needs more than 256 bits.  The limbs
    /// are handed over and taken back in the crate's own little-endian order.
    #[verifier::external_body]
    pub(crate) fn checked_add(self, b: U256) -> (r: Option<U256>)
        ensures
            r matches Some(s) ==> s@ == self@ + b@,
            r is Some <==> self@ + b@ < u256_limit(),
    {
        let x = ethers::types::U256([self.w0, self.w1, self.w2, self.w3]);
        let y = ethers::types::U256([b.w0, b.w1, b.w2, b.w3]);
        x.checked_add(y).map(|v| U256 { w0: v.0[0], w1: v.0[1], w2: v.0[2], w3: v.0[3] })
    }

    /// Calls `U256::checked_sub` of `ethers::types`: the exact difference,
    /// absent exactly when the second number is larger than the first.
    #[verifier::external_body]
    pub(crate) fn checked_sub(self, b: U256) -> (r: Option<U256>)
        ensures
            r matches Some(d) ==> d@ == self@ - b@,
            r is Some <==> b@ <= self@,
    {
        let x = ethers::types::U256([self.w0, self.w1, self.w2, self.w3]);
        let y = ethers::types::U256([b.w0, b.w1, b.w2, b.w3]);
        x.checked_sub(y).map(|v| U256 { w0: v.0[0], w1: v.0[1], w2: v.0[2], w3: v.0[3] })
    }

    /// Calls `U256::checked_mul` of `ethers::types`: the exact product, absent
    /// exactly when the product needs more than 256 bits.
    #[verifier::external_body]
    pub(crate) fn checked_mul(self, b: U256) -> (r: Option<U256>)
        ensures
            r matches Some(p) ==> p@ == self@ * b@,
            r is Some <==> self@ * b@ < u256_limit(),
    {
        let x = ethers::types::U256([self.w0, self.w1, self.w2, self.w3]);
        let y = ethers::types::U256([b.w0, b.w1, b.w2, b.w3]);
        x.checked_mul(y).map(|v| U256 { w0: v.0[0], w1: v.0[1], w2: v.0[2], w3: v.0[3] })
    }

    /// Calls `U256::checked_div` of `ethers::types`: the quotient rounded
    /// towards zero, absent exactly when the divisor is zero.
    #[verifier::external_body]
    pub(crate) fn checked_div(self, b: U256) -> (r: Option<U256>)
        ensures
            r matches Some(q) ==> b@ > 0 && q@ == self@ / b@,
            r is Some <==> b@ != 0,
    {
        let x = ethers::types::U256([self.w0, self.w1, self.w2, self.w3]);
        let y = ethers::types::U256([b.w0, b.w1, b.w2, b.w3]);
        x.checked_div(y).map(|v| U256 { w0: v.0[0], w1: v.0[1], w2: v.0[2], w3: v.0[3] })
    }
}


impl From<u64> for U256 {
    fn from(v: u64) -> (r: U256) {
        U256::from_u64(v)
    }
}

impl vstd::std_specs::convert::FromSpecImpl<u64> for U256 {
    open spec fn obeys_from_spec() -> bool {
        true
    }

    open spec fn from_spec(v: u64) -> U256 {
        U256 { w0: v, w1: 0, w2: 0, w3: 0 }
    }
}

impl PartialOrd for U256 {
    fn partial_cmp(&self, other: &U256) -> (r: Option<Ordering>) {
        proof {
            lemma_view_bounded_injective(*self, *other);
        }
        if self.lt(other) {
            Some(Ordering::Less)
        } else if other.lt(self) {
            Some(Ordering::Greater)
        } else {
            Some(Ordering::Equal)
        }
    }
}

impl vstd::std_specs::cmp::PartialOrdSpecImpl for U256 {
    open spec fn obeys_partial_cmp_spec() -> bool {
        true
    }

    open spec fn partial_cmp_spec(&self, other: &U256) -> Option<Ordering> {
        if self@ < other@ {
            Some(Ordering::Less)
        } else if self@ > other@ {
            Some(Ordering::Greater)
        } else {
            Some(Ordering::Equal)
        }
    }
}

} // verus!
