//! Making submitted transactions less predictable: random jitter of gas
//! limit and gas price, and the description of a private relay.

use vstd::prelude::*;
use vstd::string::*;
use rand::Rng;
use crate::uint::{u256_limit, U256};

verus! {

/// How much jitter to apply, and the priority fee to aim for.
#[derive(Clone, Copy, Debug)]
pub struct GasJitterCfg {
    /// Width of the jitter band, in basis points on either side of the value.
    pub jitter_bps: u32,
    /// Target priority fee, in gwei.
    pub priority_fee_gwei: u64,
}

impl Default for GasJitterCfg {
    fn default() -> (r: GasJitterCfg)
        ensures
            r.jitter_bps == 0,
            r.priority_fee_gwei == 0,
    {
        GasJitterCfg { jitter_bps: 0, priority_fee_gwei: 0 }
    }
}

/// A named private relay and the endpoints it is reached at.
#[derive(Clone, Debug)]
pub struct PrivateRelay {
    pub name: String,
    pub endpoints: Vec<String>,
}

impl PrivateRelay {
    /// A relay with the given name and endpoints.
    pub fn new(name: &str, endpoints: Vec<String>) -> (r: PrivateRelay)
        ensures
            r.name@ == name@,
            r.endpoints == endpoints,
    {
        PrivateRelay { name: String::from_str(name), endpoints }
    }
}

/// A 64-bit value moved by `j` basis points of itself, up or down, without
/// ever leaving the 64-bit range: the product `v * j` saturates before it is
/// divided by 10000, and so do the sum and the difference.
pub open spec fn jitter_u64_spec(v: u64, up: bool, j: u64) -> int {
    let product = if v * j > u64::MAX {
        u64::MAX as int
    } else {
        v * j
    };
    let delta = product / 10_000;
    if up {
        if v + delta > u64::MAX {
            u64::MAX as int
        } else {
            v + delta
        }
    } else {
        if delta > v {
            0
        } else {
            v - delta
        }
    }
}

/// A 256-bit value moved by `j` basis points of itself, up, or down to no
/// less than zero.
pub open spec fn jitter_value_spec(value: nat, up: bool, j: nat) -> nat {
    let delta = value * j / 10_000;
    if up {
        value + delta
    } else if delta <= value {
        (value - delta) as nat
    } else {
        0
    }
}

/// Whether a 256-bit value can be moved by `j` basis points in the given
/// direction without leaving the 256-bit range on the way.
pub open spec fn jitter_value_fits(value: nat, up: bool, j: nat) -> bool {
    value * j < u256_limit() && (up ==> value + value * j / 10_000 < u256_limit())
}

/// Whether a 256-bit value can be moved by any number of basis points up
/// to `bps`, in either direction, without leaving the 256-bit range.
pub open spec fn jitter_band_fits(value: nat, bps: nat) -> bool {
    bps == 0 || jitter_value_fits(value, true, bps)
}

/// Whether `moved` is `v` moved by some number of basis points up to
/// `bps`, in some direction.
pub open spec fn in_u64_band(v: u64, bps: u32, moved: u64) -> bool {
    exists|up: bool, j: u64| j <= bps && moved == #[trigger] jitter_u64_spec(v, up, j)
}

/// Whether `moved` is `value` moved by some number of basis points up to
/// `bps`, in some direction.
pub open spec fn in_value_band(value: nat, bps: nat, moved: nat) -> bool {
    exists|up: bool, j: nat| j <= bps && moved == #[trigger] jitter_value_spec(value, up, j)
}

/// Within a band that fits, every smaller move fits too.
pub proof fn lemma_jitter_band_covers(value: nat, bps: nat, up: bool, j: nat)
    requires
        value < u256_limit(),
        jitter_band_fits(value, bps),
        j <= bps,
    ensures
        jitter_value_fits(value, up, j),
{
    if bps > 0 {
        assert(value * j <= value * bps) by (nonlinear_arith)
            requires
                j <= bps,
        ;
        assert(value * j / 10_000 <= value * bps / 10_000) by (nonlinear_arith)
            requires
                value * j <= value * bps,
        ;
    } else {
        assert(value * j == 0) by (nonlinear_arith)
            requires
                j == 0,
        ;
    }
}

/// Draws the direction of a jitter from `rand::rng()` with `Rng::random`.
/// Nothing is promised of the outcome.
#[verifier::external_body]
fn random_direction() -> bool {
    rand::rng().random::<bool>()
}

/// Draws a number of basis points from `rand::rng()` with
/// `Rng::random_range` over the closed range from zero to `bound`; the
/// outcome lies in that range.
#[verifier::external_body]
fn random_upto(bound: u64) -> (j: u64)
    ensures
        j <= bound,
{
    rand::rng().random_range(0..=bound)
}

/// Moves a 64-bit value by `j` basis points in the given direction,
/// saturating at both ends of the range.
pub fn jitter_u64_with(v: u64, up: bool, j: u64) -> (r: u64)
    ensures
        r == jitter_u64_spec(v, up, j),
{
    let product = match v.checked_mul(j) {
        Some(p) => p,
        None => u64::MAX,
    };
    let delta = product / 10_000;
    if up {
        v.saturating_add(delta)
    } else {
        v.saturating_sub(delta)
    }
}

/// Moves a 256-bit value by `j` basis points in the given direction, or
/// returns `None` when that leaves the 256-bit range on the way.
pub fn jitter_value_with(value: U256, up: bool, j: u64) -> (r: Option<U256>)
    ensures
        r is Some <==> jitter_value_fits(value@, up, j as nat),
        r matches Some(moved) ==> moved@ == jitter_value_spec(value@, up, j as nat),
{
    let product = match value.checked_mul(U256::from_u64(j)) {
        Some(p) => p,
        None => { return None; },
    };
    let delta = match product.checked_div(U256::from_u64(10_000)) {
        Some(d) => d,
        None => { return None; },
    };
    if up {
        value.checked_add(delta)
    } else {
        Some(value.saturating_sub(delta))
    }
}

/// A 256-bit value moved by a random number of basis points, at most
/// `bps`, in a random direction; the value itself when `bps` is zero; and
/// `None` when the move drawn leaves the 256-bit range, which no move does
/// within a band that fits.
pub fn checked_jitter_value_bps(value: U256, bps: u32) -> (r: Option<U256>)
    ensures
        bps == 0 ==> r == Some(value),
        jitter_band_fits(value@, bps as nat) ==> r is Some,
        r matches Some(moved) ==> in_value_band(value@, bps as nat, moved@),
{
    if bps == 0 {
        assert(value@ * 0 / 10_000 == 0) by (nonlinear_arith);
        assert(value@ == jitter_value_spec(value@, true, 0));
        return Some(value);
    }
    let up = random_direction();
    let j = random_upto(bps as u64);
    proof {
        crate::uint::lemma_view_bounded_injective(value, value);
        if jitter_band_fits(value@, bps as nat) {
            lemma_jitter_band_covers(value@, bps as nat, up, j as nat);
        }
    }
    let r = jitter_value_with(value, up, j);
    assert(r matches Some(moved) ==> j as nat <= bps && moved@ == jitter_value_spec(
        value@,
        up,
        j as nat,
    ));
    r
}

/// A 256-bit value moved by a random number of basis points, at most
/// `bps`, in a random direction; the value itself when `bps` is zero.
pub fn jitter_value_bps(value: U256, bps: u32) -> (r: U256)
    requires
        jitter_band_fits(value@, bps as nat),
    ensures
        bps == 0 ==> r == value,
        in_value_band(value@, bps as nat, r@),
{
    match checked_jitter_value_bps(value, bps) {
        Some(moved) => moved,
        None => value,
    }
}

/// A 64-bit value moved by a random number of basis points, at most `bps`,
/// in a random direction; the value itself when `bps` is zero.
pub fn jitter_u64_bps(v: u64, bps: u32) -> (r: u64)
    ensures
        bps == 0 ==> r == v,
        in_u64_band(v, bps, r),
{
    if bps == 0 {
        assert(v == jitter_u64_spec(v, true, 0));
        return v;
    }
    let up = random_direction();
    let j = random_upto(bps as u64);
    let r = jitter_u64_with(v, up, j);
    assert(j <= bps && r == jitter_u64_spec(v, up, j));
    r
}

} // verus!
