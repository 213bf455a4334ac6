//! Quantities of the asset in its smallest unit, as 256-bit integers.

use vstd::prelude::*;
use crate::decimal::{decimal_text, units_text};
use ethers::types::U256;
use ethers::utils::format_units;

verus! {

/// Two to the power 64, the weight of the second limb.
pub open spec fn limb_base() -> nat {
    0x1_0000_0000_0000_0000
}

/// Two to the power 256: one more than the largest quantity.
pub open spec fn wei_limit() -> nat {
    limb_base() * limb_base() * limb_base() * limb_base()
}

/// The number that four 64-bit limbs spell, the least significant first.
pub open spec fn limbs_value(limbs: Seq<u64>) -> nat {
    (limbs[0] + limbs[1] * limb_base() + limbs[2] * limb_base() * limb_base() + limbs[3]
        * limb_base() * limb_base() * limb_base()) as nat
}

/// A non-negative quantity below `2^256`, in the smallest unit of the asset.
/// The limbs are little-endian, as in `U256` of `ethers`.
#[derive(Clone, Copy, Debug, PartialEq, Eq)]
pub struct Wei {
    pub limbs: [u64; 4],
}

impl View for Wei {
    type V = nat;

    open spec fn view(&self) -> nat {
        limbs_value(self.limbs@)
    }
}

/// Two quantities of the same value have the same limbs.
pub proof fn lemma_wei_view_injective(a: Wei, b: Wei)
    requires
        a@ == b@,
    ensures
        a == b,
{
    assert(a.limbs[0] == b.limbs[0]);
    assert(a.limbs[1] == b.limbs[1]);
    assert(a.limbs[2] == b.limbs[2]);
    assert(a.limbs[3] == b.limbs[3]);
    assert(a.limbs =~= b.limbs);
}

/// `U256::checked_add` of `ethers`: the sum, or `None` where the sum does
/// not fit in 256 bits.
#[verifier::external_body]
fn u256_checked_add(a: &Wei, b: &Wei) -> (r: Option<Wei>)
    ensures
        r is Some <==> a@ + b@ < wei_limit(),
        r is Some ==> r.unwrap()@ == a@ + b@,
{
    U256(a.limbs).checked_add(U256(b.limbs)).map(|v| Wei { limbs: v.0 })
}

/// `U256::checked_mul` of `ethers`: the product, or `None` where the product
/// does not fit in 256 bits.
#[verifier::external_body]
fn u256_checked_mul(a: &Wei, b: &Wei) -> (r: Option<Wei>)
    ensures
        r is Some <==> a@ * b@ < wei_limit(),
        r is Some ==> r.unwrap()@ == a@ * b@,
{
    U256(a.limbs).checked_mul(U256(b.limbs)).map(|v| Wei { limbs: v.0 })
}

/// `U256::checked_div` of `ethers`: the quotient rounded down, or `None`
/// where the divisor is zero.
#[verifier::external_body]
fn u256_checked_div(a: &Wei, b: &Wei) -> (r: Option<Wei>)
    ensures
        r is Some <==> b@ != 0,
        r is Some ==> r.unwrap()@ == a@ / b@,
{
    U256(a.limbs).checked_div(U256(b.limbs)).map(|v| Wei { limbs: v.0 })
}

/// `U256`'s `to_string` of `ethers`: the decimal numeral of the quantity.
#[verifier::external_body]
fn u256_to_string(a: &Wei) -> (r: String)
    ensures
        r@ == decimal_text(a@),
{
    U256(a.limbs).to_string()
}

/// `format_units` of `ethers`, on a 256-bit quantity and a number of
/// decimals below 78: the whole units, a point, and the rest in exactly
/// `decimals` digits.
#[verifier::external_body]
fn u256_format_units(a: &Wei, decimals: u32) -> (r: Option<String>)
    requires
        decimals < 78,
    ensures
        r is Some,
        r.unwrap()@ == units_text(a@, decimals as nat),
{
    format_units(U256(a.limbs), decimals).ok()
}

impl Wei {
    /// The quantity zero.
    pub fn zero() -> (r: Wei)
        ensures
            r@ == 0,
    {
        Wei { limbs: [0, 0, 0, 0] }
    }

    /// The quantity `n`.
    pub fn from_u64(n: u64) -> (r: Wei)
        ensures
            r@ == n,
    {
        Wei { limbs: [n, 0, 0, 0] }
    }

    /// Tells whether the quantity is zero.
    pub fn is_zero(&self) -> (r: bool)
        ensures
            r == (self@ == 0),
    {
        self.limbs[0] == 0 && self.limbs[1] == 0 && self.limbs[2] == 0 && self.limbs[3] == 0
    }

    /// Tells whether `self` and `other` are the same quantity.
    pub fn same(&self, other: &Wei) -> (r: bool)
        ensures
            r == (self@ == other@),
            r == (*self == *other),
    {
        let r = self.limbs[0] == other.limbs[0] && self.limbs[1] == other.limbs[1] && self.limbs[2]
            == other.limbs[2] && self.limbs[3] == other.limbs[3];
        proof {
            if r {
                assert(self.limbs =~= other.limbs);
            } else if self@ == other@ {
                lemma_wei_view_injective(*self, *other);
            }
        }
        r
    }

    /// Tells whether `self` is less than `other`.
    pub fn lt(&self, other: &Wei) -> (r: bool)
        ensures
            r == (self@ < other@),
    {
        if self.limbs[3] != other.limbs[3] {
            self.limbs[3] < other.limbs[3]
        } else if self.limbs[2] != other.limbs[2] {
            self.limbs[2] < other.limbs[2]
        } else if self.limbs[1] != other.limbs[1] {
            self.limbs[1] < other.limbs[1]
        } else {
            self.limbs[0] < other.limbs[0]
        }
    }

    /// Tells whether `self` is at most `other`.
    pub fn le(&self, other: &Wei) -> (r: bool)
        ensures
            r == (self@ <= other@),
    {
        !other.lt(self)
    }

    /// The sum of the two quantities, or `None` where it does not fit in 256
    /// bits.
    pub fn checked_add(&self, other: &Wei) -> (r: Option<Wei>)
        ensures
            r is Some <==> self@ + other@ < wei_limit(),
            r is Some ==> r.unwrap()@ == self@ + other@,
    {
        u256_checked_add(self, other)
    }

    /// The product of the two quantities, or `None` where it does not fit in
    /// 256 bits.
    pub fn checked_mul(&self, other: &Wei) -> (r: Option<Wei>)
        ensures
            r is Some <==> self@ * other@ < wei_limit(),
            r is Some ==> r.unwrap()@ == self@ * other@,
    {
        u256_checked_mul(self, other)
    }

    /// The quotient rounded down, or `None` where `divisor` is zero.
    pub fn checked_div(&self, divisor: &Wei) -> (r: Option<Wei>)
        ensures
            r is Some <==> divisor@ != 0,
            r is Some ==> r.unwrap()@ == self@ / divisor@,
    {
        u256_checked_div(self, divisor)
    }

    /// The decimal numeral of the quantity.
    pub fn to_decimal(&self) -> (r: String)
        ensures
            r@ == decimal_text(self@),
    {
        u256_to_string(self)
    }

    /// The quantity written in a unit of `10^decimals`, with all `decimals`
    /// digits behind the point.
    pub fn format_units(&self, decimals: u32) -> (r: String)
        requires
            decimals < 78,
        ensures
            r@ == units_text(self@, decimals as nat),
    {
        match u256_format_units(self, decimals) {
            Some(text) => text,
            None => String::new(),
        }
    }
}

} // verus!
