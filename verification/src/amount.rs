//! Bid amounts: unsigned 256-bit integers held as two 128-bit halves.

use vstd::prelude::*;

verus! {

/// Two to the power 64, as a mathematical integer.
pub open spec fn pow2_64() -> nat {
    0x1_0000_0000_0000_0000
}

/// Two to the power 128, as a mathematical integer.
pub open spec fn pow2_128() -> nat {
    0x1_0000_0000_0000_0000_0000_0000_0000_0000nat
}

/// The number that four 64-bit limbs stand for, least significant limb first.
pub open spec fn limbs_value(limbs: Seq<u64>) -> nat
    recommends
        limbs.len() == 4,
{
    limbs[0] as nat + limbs[1] as nat * pow2_64() + (limbs[2] as nat + limbs[3] as nat
        * pow2_64()) * pow2_128()
}

/// An unsigned 256-bit amount. Its value is `hi * 2^128 + lo`.
#[derive(Clone, Copy, Debug, PartialEq, Eq, Structural)]
pub struct Amount {
    /// The upper 128 bits.
    pub hi: u128,
    /// The lower 128 bits.
    pub lo: u128,
}

impl View for Amount {
    type V = nat;

    open spec fn view(&self) -> nat {
        self.hi as nat * pow2_128() + self.lo as nat
    }
}

/// Joins two 64-bit limbs into one 128-bit half.
fn join_limbs(upper: u64, lower: u64) -> (half: u128)
    ensures
        half as nat == upper as nat * pow2_64() + lower as nat,
{
    let wide_upper: u128 = upper as u128;
    let wide_lower: u128 = lower as u128;
    assert(wide_upper * 0x1_0000_0000_0000_0000u128 + wide_lower
        <= 0xffff_ffff_ffff_ffff_ffff_ffff_ffff_ffffu128) by (nonlinear_arith)
        requires
            wide_upper <= 0xffff_ffff_ffff_ffffu128,
            wide_lower <= 0xffff_ffff_ffff_ffffu128,
    ;
    wide_upper * 0x1_0000_0000_0000_0000u128 + wide_lower
}

impl Amount {
    /// The amount zero.
    pub fn zero() -> (amount: Amount)
        ensures
            amount@ == 0,
    {
        Amount { hi: 0, lo: 0 }
    }

    /// The amount that fits in 128 bits.
    pub fn from_u128(value: u128) -> (amount: Amount)
        ensures
            amount@ == value as nat,
            amount.hi == 0,
            amount.lo == value,
    {
        Amount { hi: 0, lo: value }
    }

    /// The amount given by four 64-bit limbs, least significant limb first.
    pub fn from_limbs(limbs: [u64; 4]) -> (amount: Amount)
        ensures
            amount@ == limbs_value(limbs@),
    {
        let lo = join_limbs(limbs[1], limbs[0]);
        let hi = join_limbs(limbs[3], limbs[2]);
        Amount { hi, lo }
    }

    /// Whether this amount is the number `value`.
    pub fn equals_u128(&self, value: u128) -> (same: bool)
        ensures
            same == (self@ == value as nat),
    {
        proof {
            lemma_halves_decide_value(*self, Amount { hi: 0, lo: value });
        }
        self.hi == 0 && self.lo == value
    }

    /// Whether this amount is strictly greater than `other`.
    pub fn exceeds(&self, other: &Amount) -> (greater: bool)
        ensures
            greater == (self@ > other@),
    {
        proof {
            lemma_halves_decide_value(*self, *other);
        }
        self.hi > other.hi || (self.hi == other.hi && self.lo > other.lo)
    }
}

/// The pair of halves by which amounts are compared: upper half first.
pub open spec fn amount_key(amount: Amount) -> (u128, u128) {
    (amount.hi, amount.lo)
}

/// Whether the pair `a` comes strictly before the pair `b` when pairs are
/// compared component by component, the first component deciding first.
pub open spec fn pair_less(a: (u128, u128), b: (u128, u128)) -> bool {
    a.0 < b.0 || (a.0 == b.0 && a.1 < b.1)
}

/// Comparing the halves pairwise, upper half first, is comparing the values.
pub proof fn lemma_halves_decide_value(a: Amount, b: Amount)
    ensures
        pair_less(amount_key(a), amount_key(b)) <==> a@ < b@,
        amount_key(a) == amount_key(b) <==> a@ == b@,
        a@ == b@ <==> a == b,
{
    let p = pow2_128() as int;
    let (ah, al, bh, bl) = (a.hi as int, a.lo as int, b.hi as int, b.lo as int);
    assert(ah < bh ==> ah * p + al < bh * p + bl) by (nonlinear_arith)
        requires
            p == 0x1_0000_0000_0000_0000_0000_0000_0000_0000int,
            0 <= al < p,
            0 <= bl < p,
    ;
    assert(bh < ah ==> bh * p + bl < ah * p + al) by (nonlinear_arith)
        requires
            p == 0x1_0000_0000_0000_0000_0000_0000_0000_0000int,
            0 <= al < p,
            0 <= bl < p,
    ;
}

} // verus!
