//! Token amounts: unsigned 256-bit integers held as four little-endian limbs.

use alloy_primitives::U256;
use vstd::prelude::*;

verus! {

/// The number of distinct amounts: every amount is below this bound.
pub open spec fn amount_bound() -> nat {
    limb_base() * limb_base() * limb_base() * limb_base()
}

/// The weight of one unit of a limb: `2^64`.
pub open spec fn limb_base() -> nat {
    0x1_0000_0000_0000_0000
}

/// An unsigned 256-bit quantity of token units.
///
/// `l0` is the least significant limb, `l3` the most significant.
#[derive(Clone, Copy, Debug, PartialEq, Eq, Structural)]
pub struct Amount {
    pub l0: u64,
    pub l1: u64,
    pub l2: u64,
    pub l3: u64,
}

impl View for Amount {
    type V = nat;

    open spec fn view(&self) -> nat {
        self.l0 as nat
            + self.l1 as nat * limb_base()
            + self.l2 as nat * (limb_base() * limb_base())
            + self.l3 as nat * (limb_base() * limb_base() * limb_base())
    }
}

impl Amount {
    /// Every amount fits in 256 bits.
    pub proof fn lemma_bounded(&self)
        ensures
            self@ < amount_bound(),
    {
        let b = limb_base();
        assert(self@ < b * b * b * b) by (nonlinear_arith)
            requires
                self.l0 < b,
                self.l1 < b,
                self.l2 < b,
                self.l3 < b,
                self@ == self.l0 + self.l1 * b + self.l2 * (b * b) + self.l3 * (b * b * b),
        ;
    }

    /// The amount zero.
    pub fn zero() -> (r: Amount)
        ensures
            r@ == 0,
    {
        Amount { l0: 0, l1: 0, l2: 0, l3: 0 }
    }

    /// The largest amount, `2^256 - 1`.
    pub fn max_value() -> (r: Amount)
        ensures
            r@ == amount_bound() - 1,
    {
        Amount { l0: u64::MAX, l1: u64::MAX, l2: u64::MAX, l3: u64::MAX }
    }

    /// The amount equal to `v`.
    pub fn from_u64(v: u64) -> (r: Amount)
        ensures
            r@ == v as nat,
    {
        Amount { l0: v, l1: 0, l2: 0, l3: 0 }
    }

    /// The amount whose little-endian 64-bit limbs are `limbs`.
    pub fn from_limbs(limbs: [u64; 4]) -> (r: Amount)
        ensures
            r.l0 == limbs[0],
            r.l1 == limbs[1],
            r.l2 == limbs[2],
            r.l3 == limbs[3],
    {
        Amount { l0: limbs[0], l1: limbs[1], l2: limbs[2], l3: limbs[3] }
    }

    /// The little-endian 64-bit limbs of this amount.
    pub fn limbs(&self) -> (r: [u64; 4])
        ensures
            r[0] == self.l0,
            r[1] == self.l1,
            r[2] == self.l2,
            r[3] == self.l3,
    {
        [self.l0, self.l1, self.l2, self.l3]
    }
}

/// Relies on `U256::checked_add` of alloy_primitives (ruint's `Uint`): the sum,
/// or `None` exactly when it does not fit in 256 bits.
#[verifier::external_body]
pub(crate) fn checked_add(a: Amount, b: Amount) -> (r: Option<Amount>)
    ensures
        match r {
            Some(s) => a@ + b@ < amount_bound() && s@ == a@ + b@,
            None => a@ + b@ >= amount_bound(),
        },
{
    let x = U256::from_limbs([a.l0, a.l1, a.l2, a.l3]);
    let y = U256::from_limbs([b.l0, b.l1, b.l2, b.l3]);
    x.checked_add(y).map(|s| {
        let l = s.into_limbs();
        Amount { l0: l[0], l1: l[1], l2: l[2], l3: l[3] }
    })
}

/// Relies on `U256::checked_sub` of alloy_primitives (ruint's `Uint`): the
/// difference, or `None` exactly when `b` exceeds `a`.
#[verifier::external_body]
pub(crate) fn checked_sub(a: Amount, b: Amount) -> (r: Option<Amount>)
    ensures
        match r {
            Some(d) => b@ <= a@ && d@ == a@ - b@,
            None => a@ < b@,
        },
{
    let x = U256::from_limbs([a.l0, a.l1, a.l2, a.l3]);
    let y = U256::from_limbs([b.l0, b.l1, b.l2, b.l3]);
    x.checked_sub(y).map(|d| {
        let l = d.into_limbs();
        Amount { l0: l[0], l1: l[1], l2: l[2], l3: l[3] }
    })
}

} // verus!
