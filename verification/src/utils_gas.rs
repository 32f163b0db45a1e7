//! Gas pricing: the legacy-style gas price to bid, and what a gas budget
//! costs at a price.

use vstd::prelude::*;
use crate::uint::{u256_limit, U256};

verus! {

/// Priority tip, in gwei, where none is configured.
pub const DEFAULT_TIP_GWEI: u64 = 2;

/// Wei in one gwei.
pub const WEI_PER_GWEI: u64 = 1_000_000_000;

/// The sum of two 256-bit numbers, held at the largest one where it would
/// pass it.
pub open spec fn saturating_sum(a: nat, b: nat) -> nat {
    if a + b < u256_limit() {
        a + b
    } else {
        (u256_limit() - 1) as nat
    }
}

/// The smaller of two numbers.
pub open spec fn smaller(a: nat, b: nat) -> nat {
    if a <= b {
        a
    } else {
        b
    }
}

/// The gas price to bid: with a base fee known, the base fee plus the
/// tip, capped by the estimated maximum fee where there is one; without a
/// base fee, none — the provider's own gas price is to be used.
pub open spec fn legacy_gas_price_spec(base_fee: Option<nat>, max_fee: Option<nat>, tip_gwei: u64) -> Option<nat> {
    match base_fee {
        Some(base) => {
            let base_plus_tip = saturating_sum(base, tip_gwei as nat * 1_000_000_000);
            match max_fee {
                Some(cap) => Some(smaller(cap, base_plus_tip)),
                None => Some(base_plus_tip),
            }
        },
        None => None,
    }
}

/// The value of an optional amount.
pub open spec fn amount_view(v: Option<U256>) -> Option<nat> {
    match v {
        Some(x) => Some(x@),
        None => None,
    }
}

/// The sum of two amounts, held at the largest 256-bit number where it
/// would pass it.
pub fn saturating_add(a: U256, b: U256) -> (r: U256)
    ensures
        r@ == saturating_sum(a@, b@),
{
    match a.checked_add(b) {
        Some(s) => s,
        None => U256::max_value(),
    }
}

/// The smaller of two amounts.
pub fn min_amount(a: U256, b: U256) -> (r: U256)
    ensures
        r@ == smaller(a@, b@),
        r == a || r == b,
{
    if a.le(&b) {
        a
    } else {
        b
    }
}

/// The tip in wei.
pub fn tip_wei(tip_gwei: u64) -> (r: U256)
    ensures
        r@ == tip_gwei as nat * 1_000_000_000,
{
    match U256::from_u64(tip_gwei).checked_mul(U256::from_u64(WEI_PER_GWEI)) {
        Some(v) => v,
        None => U256::zero(),
    }
}

/// The legacy gas price to bid, from the latest block's base fee, the
/// estimated EIP-1559 maximum fee and the tip; `None` asks for the
/// provider's own gas price.  The estimate is looked at only together with
/// a base fee.
pub fn current_gas_price_legacy(base_fee: Option<U256>, max_fee: Option<U256>, tip_gwei: u64) -> (r:
    Option<U256>)
    ensures
        amount_view(r) == legacy_gas_price_spec(amount_view(base_fee), amount_view(max_fee), tip_gwei),
{
    match base_fee {
        Some(base) => {
            let base_plus_tip = saturating_add(base, tip_wei(tip_gwei));
            match max_fee {
                Some(cap) => Some(min_amount(cap, base_plus_tip)),
                None => Some(base_plus_tip),
            }
        },
        None => None,
    }
}

/// What `gas_units` of gas cost at `gas_price`, in wei; `None` where that
/// does not fit in 256 bits.
pub fn gas_cost_wei(gas_units: u64, gas_price: U256) -> (r: Option<U256>)
    ensures
        r is Some <==> gas_units * gas_price@ < u256_limit(),
        r matches Some(c) ==> c@ == gas_units * gas_price@,
{
    U256::from_u64(gas_units).checked_mul(gas_price)
}

} // verus!
