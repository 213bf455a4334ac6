//! Fee estimation from the latest observed base fee, and the texts that
//! show a fee to an operator.

use vstd::prelude::*;
use vstd::string::StringExecFns;
use crate::amount::{lemma_wei_view_injective, wei_limit, Wei};
use crate::decimal::{decimal_text, units_text};
use crate::units::ETHER_DECIMALS;

verus! {

/// Gas units that the chain charges for a plain transfer.
pub const BASIC_TRANSFER_GAS: u64 = 21_000;

/// Gas limit of a transfer under the standard policy: headroom above the
/// chain's minimum, for networks that charge for data posting.
pub const STANDARD_GAS_LIMIT: u64 = 100_000;

/// Base fee assumed where the latest block reports none, and the standard
/// tip, both in the smallest unit.
pub const STANDARD_FEE_FLOOR: u64 = 10_000_000;

/// Decimals of the display unit for gas prices.
pub const GWEI_DECIMALS: u32 = 9;

/// What the fee estimator reads of the latest block.
#[derive(Clone, Copy, Debug, PartialEq, Eq)]
pub struct LatestBlock {
    /// Height of the block.
    pub number: u64,
    /// Base fee per unit of gas, where the network reports one.
    pub base_fee: Option<Wei>,
}

/// The parameters of the estimate.
#[derive(Clone, Copy, Debug, PartialEq, Eq)]
pub struct FeePolicy {
    /// Base fee assumed where the latest block reports none.
    pub floor_base_fee: Wei,
    /// The tip offered above the base fee.
    pub priority_fee: Wei,
    /// The margin above the base fee is the base fee divided by this; zero
    /// stands for no margin.
    pub margin_divisor: u64,
    /// Gas limit of a plain transfer.
    pub gas_limit: u64,
}

/// A fee budget, in the smallest unit of the asset.
#[derive(Clone, Copy, Debug, PartialEq, Eq)]
pub struct FeeParameters {
    pub base_fee: Wei,
    pub priority_fee: Wei,
    pub effective_gas_price: Wei,
    pub gas_limit: u64,
}

impl FeeParameters {
    /// The price clears the base fee, so the network does not reject the
    /// transaction for offering less.
    pub open spec fn wf(&self) -> bool {
        self.effective_gas_price@ >= self.base_fee@
    }
}

impl FeePolicy {
    /// The margin that the policy adds to a base fee.
    pub open spec fn margin_for(&self, base_fee: nat) -> nat {
        if self.margin_divisor == 0 {
            0
        } else {
            base_fee / (self.margin_divisor as nat)
        }
    }

    /// The base fee that the estimate starts from.
    pub open spec fn base_fee_of(&self, block: LatestBlock) -> nat {
        match block.base_fee {
            Some(fee) => fee@,
            None => self.floor_base_fee@,
        }
    }

    /// The price offered for a base fee: the base fee, the margin and the tip.
    pub open spec fn price_for(&self, base_fee: nat) -> nat {
        base_fee + self.margin_for(base_fee) + self.priority_fee@
    }

    /// The price for this block fits in 256 bits.
    pub open spec fn admits(&self, block: LatestBlock) -> bool {
        self.price_for(self.base_fee_of(block)) < wei_limit()
    }

    /// The policy of the standard transfer: a floor of 0.01 Gwei, a tip of
    /// 0.01 Gwei, a margin of a fifth, and a gas limit of 100,000.
    pub open spec fn standard_policy() -> FeePolicy {
        FeePolicy {
            floor_base_fee: Wei { limbs: [STANDARD_FEE_FLOOR, 0, 0, 0] },
            priority_fee: Wei { limbs: [STANDARD_FEE_FLOOR, 0, 0, 0] },
            margin_divisor: 5,
            gas_limit: STANDARD_GAS_LIMIT,
        }
    }

    /// The policy of the standard transfer.
    pub fn standard() -> (r: FeePolicy)
        ensures
            r == Self::standard_policy(),
            r.floor_base_fee@ == STANDARD_FEE_FLOOR,
            r.priority_fee@ == STANDARD_FEE_FLOOR,
    {
        let floor: Wei = Wei::from_u64(STANDARD_FEE_FLOOR);
        proof {
            lemma_wei_view_injective(floor, Self::standard_policy().floor_base_fee);
        }
        FeePolicy {
            floor_base_fee: floor,
            priority_fee: floor,
            margin_divisor: 5,
            gas_limit: STANDARD_GAS_LIMIT,
        }
    }

    /// Tells whether `estimate` can price this block.
    pub fn can_price(&self, block: &LatestBlock) -> (r: bool)
        ensures
            r == self.admits(*block),
    {
        let base: Wei = match block.base_fee {
            Some(fee) => fee,
            None => self.floor_base_fee,
        };
        let margin: Wei = match base.checked_div(&Wei::from_u64(self.margin_divisor)) {
            Some(m) => m,
            None => Wei::zero(),
        };
        match base.checked_add(&margin) {
            Some(padded) => padded.checked_add(&self.priority_fee).is_some(),
            None => false,
        }
    }

    /// The fee budget for a transfer sent after `block`: the block's base
    /// fee (the floor where it reports none), the policy's tip, and a price
    /// of base fee plus margin plus tip.
    pub fn estimate(&self, block: &LatestBlock) -> (r: FeeParameters)
        requires
            self.admits(*block),
        ensures
            r.base_fee@ == self.base_fee_of(*block),
            r.priority_fee == self.priority_fee,
            r.effective_gas_price@ == self.price_for(self.base_fee_of(*block)),
            r.gas_limit == self.gas_limit,
            r.effective_gas_price@ >= r.base_fee@,
            r.wf(),
    {
        let base: Wei = match block.base_fee {
            Some(fee) => fee,
            None => self.floor_base_fee,
        };
        let margin: Wei = match base.checked_div(&Wei::from_u64(self.margin_divisor)) {
            Some(m) => m,
            None => Wei::zero(),
        };
        let padded: Wei = match base.checked_add(&margin) {
            Some(p) => p,
            None => base,
        };
        let price: Wei = match padded.checked_add(&self.priority_fee) {
            Some(p) => p,
            None => padded,
        };
        FeeParameters {
            base_fee: base,
            priority_fee: self.priority_fee,
            effective_gas_price: price,
            gas_limit: self.gas_limit,
        }
    }
}

/// The price that a policy offers clears the base fee, whatever the base
/// fee: zero, the floor, or any other.
pub proof fn lemma_price_clears_base_fee(policy: FeePolicy, base_fee: nat)
    ensures
        policy.price_for(base_fee) >= base_fee,
        policy.price_for(base_fee) >= base_fee + policy.priority_fee@,
{
}

/// The gas limit recommended for a basic transfer.
pub fn get_basic_transfer_gas_limit() -> (limit: u64)
    ensures
        limit == BASIC_TRANSFER_GAS,
{
    BASIC_TRANSFER_GAS
}

/// The text that shows a gas price and the fee of `gas_limit` units at that
/// price: the price in Gwei, the limit, and the fee in Gwei and in ETH.
pub open spec fn fee_breakdown_text(gas_price: nat, gas_limit: nat) -> Seq<char> {
    "Gas Price: "@ + units_text(gas_price, GWEI_DECIMALS as nat) + " Gwei\nGas Limit: "@
        + decimal_text(gas_limit) + " units\nEstimated Fee: "@ + units_text(
        gas_price * gas_limit,
        GWEI_DECIMALS as nat,
    ) + " Gwei ("@ + units_text(gas_price * gas_limit, ETHER_DECIMALS as nat) + " ETH)"@
}

/// The text that shows a gas price in the smallest unit, in Gwei and in ETH.
pub open spec fn gas_price_text(gas_price: nat) -> Seq<char> {
    "Current Gas Price:\n  "@ + decimal_text(gas_price) + " wei\n  "@ + units_text(
        gas_price,
        GWEI_DECIMALS as nat,
    ) + " Gwei\n  "@ + units_text(gas_price, ETHER_DECIMALS as nat) + " ETH"@
}

/// The fee of `gas_limit` units of gas at `gas_price`, and the text that
/// shows it.
pub fn estimate_gas_fee(gas_price: &Wei, gas_limit: u64) -> (r: (Wei, String))
    requires
        gas_price@ * gas_limit < wei_limit(),
    ensures
        r.0@ == gas_price@ * gas_limit,
        r.1@ == fee_breakdown_text(gas_price@, gas_limit as nat),
{
    let limit: Wei = Wei::from_u64(gas_limit);
    let fee: Wei = match gas_price.checked_mul(&limit) {
        Some(f) => f,
        None => Wei::zero(),
    };
    let mut text: String = String::from_str("Gas Price: ");
    text.append(gas_price.format_units(GWEI_DECIMALS).as_str());
    text.append(" Gwei\nGas Limit: ");
    text.append(limit.to_decimal().as_str());
    text.append(" units\nEstimated Fee: ");
    text.append(fee.format_units(GWEI_DECIMALS).as_str());
    text.append(" Gwei (");
    text.append(fee.format_units(ETHER_DECIMALS).as_str());
    text.append(" ETH)");
    (fee, text)
}

/// The text that shows the fee of a basic transfer at `gas_price`.
pub fn estimate_transfer_fee(gas_price: &Wei) -> (r: String)
    requires
        gas_price@ * BASIC_TRANSFER_GAS < wei_limit(),
    ensures
        r@ == fee_breakdown_text(gas_price@, BASIC_TRANSFER_GAS as nat),
{
    estimate_gas_fee(gas_price, BASIC_TRANSFER_GAS).1
}

/// The text that shows `gas_price` in the smallest unit, in Gwei and in ETH.
pub fn get_gas_price_info(gas_price: &Wei) -> (r: String)
    ensures
        r@ == gas_price_text(gas_price@),
{
    let mut text: String = String::from_str("Current Gas Price:\n  ");
    text.append(gas_price.to_decimal().as_str());
    text.append(" wei\n  ");
    text.append(gas_price.format_units(GWEI_DECIMALS).as_str());
    text.append(" Gwei\n  ");
    text.append(gas_price.format_units(ETHER_DECIMALS).as_str());
    text.append(" ETH");
    text
}

} // verus!
