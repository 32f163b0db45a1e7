//! Pool arithmetic: the fee-adjusted constant-product quote and the
//! slippage-reduced minimum output, with the laws that make them safe to
//! trade on.

use vstd::prelude::*;
use vstd::string::*;
use crate::address::{zero_address, Address};
use crate::error::ArbError;
use crate::uint::{u256_limit, U256};

verus! {

/// Basis points in one whole.
pub const BPS_DENOMINATOR: u64 = 10_000;

/// The share of an input, in basis points, that is left after a fee of
/// `fee_bps`; nothing is left of a fee above the whole.
pub open spec fn fee_factor(fee_bps: nat) -> nat {
    if fee_bps <= 10_000 {
        (10_000 - fee_bps) as nat
    } else {
        0
    }
}

/// Output of a constant-product pool for `amount_in`, after the fee:
/// `in * (10000 - fee) * reserve_out / (reserve_in * 10000 + in * (10000 - fee))`,
/// rounded down, and zero when the input or either reserve is zero.
pub open spec fn amount_out_spec(amount_in: nat, reserve_in: nat, reserve_out: nat, fee_bps: nat) -> nat {
    if amount_in == 0 || reserve_in == 0 || reserve_out == 0 {
        0
    } else {
        (amount_in * fee_factor(fee_bps) * reserve_out) / (reserve_in * 10_000 + amount_in
            * fee_factor(fee_bps))
    }
}

/// The inputs on which the constant-product quote can be computed in 256
/// bits: either something is zero, or the fee is at most the whole and
/// neither the numerator nor the denominator of the formula overflows.
pub open spec fn amount_out_fits(amount_in: nat, reserve_in: nat, reserve_out: nat, fee_bps: nat) -> bool {
    amount_in == 0 || reserve_in == 0 || reserve_out == 0 || (fee_bps <= 10_000 && amount_in
        * fee_factor(fee_bps) * reserve_out < u256_limit() && reserve_in * 10_000 + amount_in
        * fee_factor(fee_bps) < u256_limit())
}

/// Least output that is still acceptable after a slippage of `slippage_bps`:
/// `quoted * (10000 - slippage) / 10000`, rounded down.
pub open spec fn min_out_spec(quoted_out: nat, slippage_bps: nat) -> nat {
    quoted_out * fee_factor(slippage_bps) / 10_000
}

/// The inputs on which the minimum output can be computed in 256 bits.
pub open spec fn min_out_fits(quoted_out: nat, slippage_bps: nat) -> bool {
    slippage_bps <= 10_000 && quoted_out * fee_factor(slippage_bps) < u256_limit()
}

proof fn lemma_product_grows(x: nat, y: nat)
    requires
        y >= 1,
    ensures
        x <= x * y,
{
    assert(x <= x * y) by (nonlinear_arith)
        requires
            y >= 1,
    ;
}

proof fn lemma_quotients_ordered(n1: nat, d1: nat, n2: nat, d2: nat)
    requires
        d1 > 0,
        d2 > 0,
        n1 * d2 <= n2 * d1,
    ensures
        n1 / d1 <= n2 / d2,
{
    let q1 = n1 / d1;
    assert(q1 * d1 <= n1) by (nonlinear_arith)
        requires
            q1 == n1 / d1,
            d1 > 0,
    ;
    assert(q1 * d2 <= n2) by (nonlinear_arith)
        requires
            q1 * d1 <= n1,
            n1 * d2 <= n2 * d1,
            d1 > 0,
    ;
    assert(q1 <= n2 / d2) by (nonlinear_arith)
        requires
            q1 * d2 <= n2,
            d2 > 0,
    ;
}

/// A larger input never buys less: the constant-product quote is
/// non-decreasing in the input amount, whatever the reserves and the fee.
pub proof fn lemma_amount_out_monotonic(
    smaller_in: nat,
    larger_in: nat,
    reserve_in: nat,
    reserve_out: nat,
    fee_bps: nat,
)
    requires
        smaller_in <= larger_in,
    ensures
        amount_out_spec(smaller_in, reserve_in, reserve_out, fee_bps) <= amount_out_spec(
            larger_in,
            reserve_in,
            reserve_out,
            fee_bps,
        ),
{
    if smaller_in != 0 && reserve_in != 0 && reserve_out != 0 {
        let f = fee_factor(fee_bps);
        let n1 = smaller_in * f * reserve_out;
        let n2 = larger_in * f * reserve_out;
        let d1 = reserve_in * 10_000 + smaller_in * f;
        let d2 = reserve_in * 10_000 + larger_in * f;
        assert(n1 * d2 <= n2 * d1) by (nonlinear_arith)
            requires
                smaller_in <= larger_in,
                n1 == smaller_in * f * reserve_out,
                n2 == larger_in * f * reserve_out,
                d1 == reserve_in * 10_000 + smaller_in * f,
                d2 == reserve_in * 10_000 + larger_in * f,
        ;
        lemma_quotients_ordered(n1, d1, n2, d2);
    }
}

/// A trade creates no value: the output never exceeds the output reserve,
/// and the product of the reserves after the trade is at least the product
/// before it, for every fee up to the whole.
pub proof fn lemma_amount_out_keeps_product(
    amount_in: nat,
    reserve_in: nat,
    reserve_out: nat,
    fee_bps: nat,
)
    requires
        fee_bps <= 10_000,
    ensures
        amount_out_spec(amount_in, reserve_in, reserve_out, fee_bps) <= reserve_out,
        (reserve_in + amount_in) * (reserve_out - amount_out_spec(
            amount_in,
            reserve_in,
            reserve_out,
            fee_bps,
        )) >= reserve_in * reserve_out,
{
    let out = amount_out_spec(amount_in, reserve_in, reserve_out, fee_bps);
    if amount_in != 0 && reserve_in != 0 && reserve_out != 0 {
        let f = fee_factor(fee_bps);
        let n = amount_in * f * reserve_out;
        let d = reserve_in * 10_000 + amount_in * f;
        assert(out * d <= n) by (nonlinear_arith)
            requires
                out == n / d,
                d > 0,
        ;
        if f == 0 {
            assert(n == 0) by (nonlinear_arith)
                requires
                    n == amount_in * f * reserve_out,
                    f == 0,
            ;
            assert(out == 0);
        } else {
            assert((reserve_in + amount_in) * out <= amount_in * reserve_out) by (nonlinear_arith)
                requires
                    out * d <= n,
                    n == amount_in * f * reserve_out,
                    d == reserve_in * 10_000 + amount_in * f,
                    0 < f <= 10_000,
            ;
        }
        assert(out <= reserve_out) by (nonlinear_arith)
            requires
                (reserve_in + amount_in) * out <= amount_in * reserve_out,
                reserve_in > 0,
                amount_in > 0,
        ;
        assert((reserve_in + amount_in) * (reserve_out - out) >= reserve_in * reserve_out)
            by (nonlinear_arith)
            requires
                (reserve_in + amount_in) * out <= amount_in * reserve_out,
                out <= reserve_out,
        ;
    } else {
        assert(out == 0);
        assert((reserve_in + amount_in) * reserve_out >= reserve_in * reserve_out)
            by (nonlinear_arith);
    }
}

/// The quote is the largest output that the pool can pay without giving
/// away value: the one number `out` for which `out` times the denominator
/// of the formula is at most the numerator, and one more denominator on top
/// is more than the numerator.
pub proof fn lemma_amount_out_is_floor(
    amount_in: nat,
    reserve_in: nat,
    reserve_out: nat,
    fee_bps: nat,
    out: nat,
)
    requires
        amount_in > 0,
        reserve_in > 0,
        reserve_out > 0,
        out * (reserve_in * 10_000 + amount_in * fee_factor(fee_bps)) <= amount_in * fee_factor(
            fee_bps,
        ) * reserve_out,
        amount_in * fee_factor(fee_bps) * reserve_out < out * (reserve_in * 10_000 + amount_in
            * fee_factor(fee_bps)) + (reserve_in * 10_000 + amount_in * fee_factor(fee_bps)),
    ensures
        amount_out_spec(amount_in, reserve_in, reserve_out, fee_bps) == out,
{
    let n = amount_in * fee_factor(fee_bps) * reserve_out;
    let d = reserve_in * 10_000 + amount_in * fee_factor(fee_bps);
    assert(n / d == out) by (nonlinear_arith)
        requires
            d > 0,
            out * d <= n,
            n < out * d + d,
    ;
}

/// Nothing in, nothing out; and an empty pool side quotes nothing.
pub proof fn lemma_amount_out_zero(amount_in: nat, reserve_in: nat, reserve_out: nat, fee_bps: nat)
    ensures
        amount_out_spec(0, reserve_in, reserve_out, fee_bps) == 0,
        amount_out_spec(amount_in, 0, reserve_out, fee_bps) == 0,
        amount_out_spec(amount_in, reserve_in, 0, fee_bps) == 0,
{
}

/// Without slippage the minimum output is the quote itself, and with any
/// slippage up to the whole it is at most the quote.
pub proof fn lemma_min_out_bounds(quoted_out: nat, slippage_bps: nat)
    ensures
        min_out_spec(quoted_out, 0) == quoted_out,
        min_out_spec(quoted_out, slippage_bps) <= quoted_out,
{
    assert(quoted_out * 10_000 / 10_000 == quoted_out) by (nonlinear_arith);
    let f = fee_factor(slippage_bps);
    assert(quoted_out * f / 10_000 <= quoted_out) by (nonlinear_arith)
        requires
            f <= 10_000,
    ;
}

/// More slippage never raises the minimum output.
pub proof fn lemma_min_out_monotonic(quoted_out: nat, smaller_bps: nat, larger_bps: nat)
    requires
        smaller_bps <= larger_bps,
    ensures
        min_out_spec(quoted_out, larger_bps) <= min_out_spec(quoted_out, smaller_bps),
{
    let f1 = fee_factor(smaller_bps);
    let f2 = fee_factor(larger_bps);
    assert(quoted_out * f2 / 10_000 <= quoted_out * f1 / 10_000) by (nonlinear_arith)
        requires
            f2 <= f1,
    ;
}

/// For a quote of at least 10000 units, each further basis point of
/// slippage lowers the minimum output strictly.  (Below 10000 units the
/// rounding can hide a basis point.)
pub proof fn lemma_min_out_strictly_decreasing(quoted_out: nat, smaller_bps: nat, larger_bps: nat)
    requires
        quoted_out >= 10_000,
        smaller_bps < larger_bps <= 10_000,
    ensures
        min_out_spec(quoted_out, larger_bps) < min_out_spec(quoted_out, smaller_bps),
{
    let f1 = fee_factor(smaller_bps);
    let f2 = fee_factor(larger_bps);
    let n1 = quoted_out * f1;
    let n2 = quoted_out * f2;
    assert(n2 + 10_000 <= n1) by (nonlinear_arith)
        requires
            n1 == quoted_out * f1,
            n2 == quoted_out * f2,
            f2 + 1 <= f1,
            quoted_out >= 10_000,
    ;
    assert(n2 / 10_000 < n1 / 10_000) by (nonlinear_arith)
        requires
            n2 + 10_000 <= n1,
    ;
}

/// The constant-product quote, or `None` on the inputs for which the
/// formula does not fit in 256 bits.
pub fn checked_amount_out_v2(amount_in: U256, reserve_in: U256, reserve_out: U256, fee_bps: u32) -> (r:
    Option<U256>)
    ensures
        r is Some <==> amount_out_fits(amount_in@, reserve_in@, reserve_out@, fee_bps as nat),
        r matches Some(out) ==> out@ == amount_out_spec(
            amount_in@,
            reserve_in@,
            reserve_out@,
            fee_bps as nat,
        ),
{
    if amount_in.is_zero() || reserve_in.is_zero() || reserve_out.is_zero() {
        return Some(U256::zero());
    }
    if fee_bps > 10_000 {
        return None;
    }
    let fee = U256::from_u64(BPS_DENOMINATOR - fee_bps as u64);
    assert(fee@ == fee_factor(fee_bps as nat));
    proof {
        lemma_product_grows(amount_in@ * fee@, reserve_out@);
        lemma_product_grows(amount_in@, 1);
    }
    let with_fee = match amount_in.checked_mul(fee) {
        Some(v) => v,
        None => { return None; },
    };
    let numerator = match with_fee.checked_mul(reserve_out) {
        Some(v) => v,
        None => { return None; },
    };
    let scaled_reserve = match reserve_in.checked_mul(U256::from_u64(BPS_DENOMINATOR)) {
        Some(v) => v,
        None => { return None; },
    };
    let denominator = match scaled_reserve.checked_add(with_fee) {
        Some(v) => v,
        None => { return None; },
    };
    numerator.checked_div(denominator)
}

/// Output of a constant-product pool with a fee of `fee_bps` basis points
/// (30 stands for 0.30%).
pub fn amount_out_v2(amount_in: U256, reserve_in: U256, reserve_out: U256, fee_bps: u32) -> (out: U256)
    requires
        amount_out_fits(amount_in@, reserve_in@, reserve_out@, fee_bps as nat),
    ensures
        out@ == amount_out_spec(amount_in@, reserve_in@, reserve_out@, fee_bps as nat),
{
    match checked_amount_out_v2(amount_in, reserve_in, reserve_out, fee_bps) {
        Some(out) => out,
        None => U256::zero(),
    }
}

/// The minimum acceptable output, or `None` on the inputs for which it
/// does not fit in 256 bits or the slippage exceeds the whole.
pub fn checked_min_out_bps(quoted_out: U256, slippage_bps: u32) -> (r: Option<U256>)
    ensures
        r is Some <==> min_out_fits(quoted_out@, slippage_bps as nat),
        r matches Some(m) ==> m@ == min_out_spec(quoted_out@, slippage_bps as nat),
{
    if slippage_bps > 10_000 {
        return None;
    }
    let keep = U256::from_u64(BPS_DENOMINATOR - slippage_bps as u64);
    match quoted_out.checked_mul(keep) {
        Some(scaled) => scaled.checked_div(U256::from_u64(BPS_DENOMINATOR)),
        None => None,
    }
}

/// The minimum acceptable output for a quote, by basis points of slippage.
pub fn min_out_bps(quoted_out: U256, slippage_bps: u32) -> (m: U256)
    requires
        min_out_fits(quoted_out@, slippage_bps as nat),
    ensures
        m@ == min_out_spec(quoted_out@, slippage_bps as nat),
{
    match checked_min_out_bps(quoted_out, slippage_bps) {
        Some(m) => m,
        None => U256::zero(),
    }
}


/// A constant-product pool, by its address.
#[derive(Clone, Copy, Debug)]
pub struct V2Pair {
    pub pair: Address,
}

/// Passes an address on unless it is the null address.  `what` names the
/// read that returned it.  (The quote of a leg does not use this for pools:
/// a factory's null address means that there is no pool, which is no
/// liquidity and not an error.)
pub fn ensure_not_zero(addr: Address, what: &str) -> (r: Result<Address, ArbError>)
    ensures
        match r {
            Ok(a) => a == addr && addr@ != zero_address(),
            Err(e) => addr@ == zero_address() && e is Quote && e.detail() == what@
                + " returned zero address"@,
        },
{
    if addr.is_zero() {
        let mut msg = String::from_str(what);
        msg.append(" returned zero address");
        return Err(ArbError::Quote(msg));
    }
    Ok(addr)
}

/// Two to the power 96: the scale of a square-root price.
pub open spec fn two_pow_96() -> nat {
    0x1_0000_0000_0000_0000_0000_0000nat
}

/// Two to the power 160: the first number that is no square-root price.
pub open spec fn two_pow_160() -> nat {
    0x1_0000_0000_0000_0000_0000_0000_0000_0000_0000_0000nat
}

/// The price that a square-root price stands for, in base units of the
/// output token per base unit of the input token, rounded down: the square
/// of the square-root price, divided by two to the power 192.
pub open spec fn price_floor_spec(sqrt_price_x96: nat) -> nat {
    sqrt_price_x96 * sqrt_price_x96 / (two_pow_96() * two_pow_96())
}

proof fn lemma_square_by_parts(s: nat, a: nat, b: nat, q: nat)
    requires
        q > 0,
        s == a * q + b,
        b < q,
    ensures
        s * s / (q * q) == a * a + (2 * a * b + b * b / q) / q,
{
    let low = 2 * a * b * q + b * b;
    assert(s * s == a * a * (q * q) + low) by (nonlinear_arith)
        requires
            s == a * q + b,
            low == 2 * a * b * q + b * b,
    ;
    assert(q * q > 0) by (nonlinear_arith)
        requires
            q > 0,
    ;
    assert((a * a * (q * q) + low) / (q * q) == a * a + low / (q * q)) by {
        vstd::arithmetic::div_mod::lemma_hoist_over_denominator(low as int, (a * a) as int, q * q);
        assert(low + (a * a) * (q * q) == a * a * (q * q) + low);
    }
    assert(low / (q * q) == (low / q) / q) by {
        vstd::arithmetic::div_mod::lemma_div_denominator(low as int, q as int, q as int);
    }
    assert(low / q == 2 * a * b + b * b / q) by {
        vstd::arithmetic::div_mod::lemma_hoist_over_denominator(
            (b * b) as int,
            (2 * a * b) as int,
            q,
        );
        assert(2 * a * b * q + b * b == b * b + (2 * a * b) * q) by (nonlinear_arith);
    }
}

/// The price that a square-root price stands for, rounded down to whole
/// base units; `None` for a number of 160 bits or more, which is no
/// square-root price.
pub fn v3_price_floor(sqrt_price_x96: U256) -> (r: Option<u128>)
    ensures
        r is Some <==> sqrt_price_x96@ < two_pow_160(),
        r matches Some(p) ==> p == price_floor_spec(sqrt_price_x96@),
{
    let limit = U256 { w0: 0, w1: 0, w2: 0x1_0000_0000, w3: 0 };
    let q = U256 { w0: 0, w1: 0x1_0000_0000, w2: 0, w3: 0 };
    assert(limit@ == two_pow_160());
    assert(q@ == two_pow_96());
    if !sqrt_price_x96.lt(&limit) {
        return None;
    }
    let ghost s = sqrt_price_x96@;
    let ghost qn = two_pow_96();
    let a = match sqrt_price_x96.checked_div(q) {
        Some(a) => a,
        None => {
            return None;
        },
    };
    assert(a@ < 0x1_0000_0000_0000_0000 && a@ * qn <= s && s - a@ * qn < qn) by (nonlinear_arith)
        requires
            a@ == s / qn,
            qn == 0x1_0000_0000_0000_0000_0000_0000,
            s < 0x1_0000_0000_0000_0000_0000_0000_0000_0000_0000_0000,
    ;
    let aq = match a.checked_mul(q) {
        Some(v) => v,
        None => {
            return None;
        },
    };
    let b = match sqrt_price_x96.checked_sub(aq) {
        Some(v) => v,
        None => {
            return None;
        },
    };
    assert(a@ * a@ < u256_limit() && a@ * b@ < 0x1_0000_0000_0000_0000_0000_0000_0000_0000_0000_0000
        && b@ * b@ < u256_limit() && a@ * a@ < 0x1_0000_0000_0000_0000_0000_0000_0000_0000)
        by (nonlinear_arith)
        requires
            a@ < 0x1_0000_0000_0000_0000,
            b@ < 0x1_0000_0000_0000_0000_0000_0000,
            u256_limit()
                == 0x1_0000_0000_0000_0000_0000_0000_0000_0000_0000_0000_0000_0000_0000_0000_0000_0000,
    ;
    let aa = match a.checked_mul(a) {
        Some(v) => v,
        None => {
            return None;
        },
    };
    let ab = match a.checked_mul(b) {
        Some(v) => v,
        None => {
            return None;
        },
    };
    let ab2 = match ab.checked_add(ab) {
        Some(v) => v,
        None => {
            return None;
        },
    };
    let bb = match b.checked_mul(b) {
        Some(v) => v,
        None => {
            return None;
        },
    };
    let bb_hi = match bb.checked_div(q) {
        Some(v) => v,
        None => {
            return None;
        },
    };
    assert(bb_hi@ < 0x1_0000_0000_0000_0000_0000_0000) by (nonlinear_arith)
        requires
            bb_hi@ == b@ * b@ / qn,
            b@ < qn,
            qn == 0x1_0000_0000_0000_0000_0000_0000,
    ;
    let mid_sum = match ab2.checked_add(bb_hi) {
        Some(v) => v,
        None => {
            return None;
        },
    };
    let mid = match mid_sum.checked_div(q) {
        Some(v) => v,
        None => {
            return None;
        },
    };
    assert(mid@ < 0x1_0000_0000_0000_0000_0000_0000_0000_0000) by (nonlinear_arith)
        requires
            mid@ == mid_sum@ / qn,
            mid_sum@ < 0x3_0000_0000_0000_0000_0000_0000_0000_0000_0000_0000,
            qn == 0x1_0000_0000_0000_0000_0000_0000,
    ;
    let total = match aa.checked_add(mid) {
        Some(v) => v,
        None => {
            return None;
        },
    };
    proof {
        assert(2 * a@ * b@ == a@ * b@ + a@ * b@) by (nonlinear_arith);
        lemma_square_by_parts(s, a@, b@, qn);
        assert(s * s / (qn * qn) < 0x1_0000_0000_0000_0000_0000_0000_0000_0000) by (nonlinear_arith)
            requires
                s < 0x1_0000_0000_0000_0000_0000_0000_0000_0000_0000_0000,
                qn == 0x1_0000_0000_0000_0000_0000_0000,
        ;
    }
    total.to_u128()
}

} // verus!
