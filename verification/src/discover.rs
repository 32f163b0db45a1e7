//! One-shot pool discovery: which pools to look up on which exchanges,
//! what a snapshot holds, and the trade size to suggest for a pool.

use vstd::prelude::*;
use vstd::string::*;
use crate::address::Address;
use crate::text::same_text;
use crate::uint::{u256_limit, U256};
use crate::utils::{parse_addr, parsed_address};

verus! {

/// The configuration that discovery runs on.
#[derive(Clone, Debug)]
pub struct Config {
    pub version: String,
    pub created_at: String,
    pub networks: Vec<Network>,
}

/// One chain to discover pools on.
#[derive(Clone, Debug)]
pub struct Network {
    pub id: String,
    pub name: String,
    pub chain_id: u64,
    pub rpc: Vec<String>,
    /// Token symbol and description, each symbol once.
    pub tokens: Vec<(String, Token)>,
    pub dexes: Vec<DexConfig>,
    pub pairs: Vec<[String; 2]>,
}

/// One token of a chain.
#[derive(Clone, Debug)]
pub struct Token {
    pub address: String,
    pub decimals: u8,
    pub optional: bool,
}

/// One exchange of a chain.
#[derive(Clone, Debug)]
pub struct DexConfig {
    pub name: String,
    /// `v2`, `v3` or `solidly_v2`.
    pub dex_type: String,
    pub factory: Option<String>,
    pub router: Option<String>,
    pub fee_tiers_bps: Option<Vec<u32>>,
    pub stable_pools: Option<bool>,
}

/// A snapshot of the pools of all chains.
#[derive(Clone, Debug)]
pub struct Output {
    pub generated_at: String,
    pub networks: Vec<OutNetwork>,
}

/// The pools of one chain, by exchange.
#[derive(Clone, Debug)]
pub struct OutNetwork {
    pub chain_id: u64,
    pub name: String,
    pub dexes: Vec<OutDex>,
}

/// The pools of one exchange.
#[derive(Clone, Debug)]
pub enum OutDex {
    V2 { name: String, factory: String, pairs: Vec<OutV2Pair> },
    V3 { name: String, factory: String, pools: Vec<OutV3Pool> },
    Solidly { name: String, factory: String, pairs: Vec<OutSolidlyPair> },
}

/// A constant-product pool.
#[derive(Clone, Debug)]
pub struct OutV2Pair {
    pub pair: [String; 2],
    pub address: String,
    pub token0: String,
    pub token1: String,
    pub reserves0: String,
    pub reserves1: String,
    pub decimals0: u8,
    pub decimals1: u8,
    pub suggested_amount_token0: String,
    pub suggested_amount_token1: String,
}

/// A stable or volatile pool.
#[derive(Clone, Debug)]
pub struct OutSolidlyPair {
    pub pair: [String; 2],
    pub stable: bool,
    pub address: String,
    pub token0: String,
    pub token1: String,
    pub reserves0: String,
    pub reserves1: String,
    pub decimals0: u8,
    pub decimals1: u8,
    pub suggested_amount_token0: String,
    pub suggested_amount_token1: String,
}

/// A concentrated-liquidity pool.
#[derive(Clone, Debug)]
pub struct OutV3Pool {
    pub pair: [String; 2],
    pub fee: u32,
    pub address: String,
    pub token0: String,
    pub token1: String,
    pub sqrt_price_x96: String,
    pub tick: i32,
    pub liquidity: String,
    pub note: String,
}

/// The kind of pools to look for on an exchange.
#[derive(Clone, Copy, Debug, PartialEq, Eq, Structural)]
pub enum PoolKind {
    V2,
    V3,
    Solidly,
}

/// Basis points of the smaller reserve suggested as trade size in a
/// constant-product pool.
pub const SUGGEST_BPS_V2: u32 = 20;

/// Basis points of the smaller reserve suggested as trade size in a
/// stable or volatile pool.
pub const SUGGEST_BPS_SOLIDLY: u32 = 15;

/// The kind of pools that a type name asks for, if it is a known one.
pub open spec fn pool_kind_spec(dex_type: Seq<char>) -> Option<PoolKind> {
    if dex_type == "v2"@ {
        Some(PoolKind::V2)
    } else if dex_type == "solidly_v2"@ {
        Some(PoolKind::Solidly)
    } else if dex_type == "v3"@ {
        Some(PoolKind::V3)
    } else {
        None
    }
}

/// Whether discovery looks at an exchange: its type is known and it names
/// a factory.
pub open spec fn is_discoverable(dex: DexConfig) -> bool {
    pool_kind_spec(dex.dex_type@) is Some && dex.factory is Some
}

/// The positions of the first `n` exchanges that discovery looks at.
pub open spec fn discoverable_upto(net: Network, n: int) -> Seq<usize>
    decreases n,
{
    if n <= 0 {
        Seq::empty()
    } else if is_discoverable(net.dexes@[n - 1]) {
        discoverable_upto(net, n - 1).push((n - 1) as usize)
    } else {
        discoverable_upto(net, n - 1)
    }
}

/// The fee tiers to probe on a concentrated-liquidity exchange: its own,
/// or 100, 500, 1000, 3000 and 10000 where it lists none.
pub open spec fn probe_tiers_spec(dex: DexConfig) -> Seq<u32> {
    match dex.fee_tiers_bps {
        Some(t) => t@,
        None => seq![100u32, 500u32, 1000u32, 3000u32, 10000u32],
    }
}

/// The trade size to suggest for a pool: `bps` basis points of the
/// smaller reserve, rounded down.
pub open spec fn suggested_spec(r0: nat, r1: nat, bps: nat) -> nat {
    (if r0 < r1 {
        r0
    } else {
        r1
    }) * bps / 10_000
}

/// The decimals of the listed token with the given address: those of the
/// last of the first `n` tokens whose address reads as it.
pub open spec fn decimals_upto(tokens: Seq<(String, Token)>, addr: Seq<u8>, n: int) -> Option<u8>
    decreases n,
{
    if n <= 0 {
        None
    } else if parsed_address(tokens[n - 1].1.address@) == Some(addr) {
        Some(tokens[n - 1].1.decimals)
    } else {
        decimals_upto(tokens, addr, n - 1)
    }
}

/// Which of a pool's two tokens is not listed.
#[derive(Clone, Copy, Debug, PartialEq, Eq, Structural)]
pub enum DecimalsFault {
    Token0,
    Token1,
}

/// The kind of pools that an exchange's type asks for.
pub fn pool_kind(dex: &DexConfig) -> (k: Option<PoolKind>)
    ensures
        k == pool_kind_spec(dex.dex_type@),
{
    let t = dex.dex_type.as_str();
    if same_text(t, "v2") {
        Some(PoolKind::V2)
    } else if same_text(t, "solidly_v2") {
        Some(PoolKind::Solidly)
    } else if same_text(t, "v3") {
        Some(PoolKind::V3)
    } else {
        None
    }
}

/// The exchanges of a chain that discovery looks at, by position, in order.
pub fn discoverable_dexes(net: &Network) -> (r: Vec<usize>)
    ensures
        r@ == discoverable_upto(*net, net.dexes@.len() as int),
{
    let mut r: Vec<usize> = Vec::new();
    let mut i: usize = 0;
    while i < net.dexes.len()
        invariant
            i <= net.dexes@.len(),
            r@ == discoverable_upto(*net, i as int),
        decreases net.dexes@.len() - i,
    {
        if pool_kind(&net.dexes[i]).is_some() && net.dexes[i].factory.is_some() {
            r.push(i);
        }
        i += 1;
    }
    r
}

/// The fee tiers to probe on a concentrated-liquidity exchange.
pub fn probe_tiers(dex: &DexConfig) -> (r: Vec<u32>)
    ensures
        r@ == probe_tiers_spec(*dex),
{
    let mut r: Vec<u32> = Vec::new();
    match &dex.fee_tiers_bps {
        Some(t) => {
            let mut i: usize = 0;
            while i < t.len()
                invariant
                    i <= t.len(),
                    r@ == t@.subrange(0, i as int),
                decreases t.len() - i,
            {
                r.push(t[i]);
                assert(t@.subrange(0, i as int + 1) =~= t@.subrange(0, i as int).push(t@[i as int]));
                i += 1;
            }
            assert(t@.subrange(0, t.len() as int) =~= t@);
        },
        None => {
            r.push(100);
            r.push(500);
            r.push(1000);
            r.push(3000);
            r.push(10000);
            assert(r@ =~= seq![100u32, 500u32, 1000u32, 3000u32, 10000u32]);
        },
    }
    r
}

/// The trade size to suggest for a pool, the same for both tokens; `None`
/// where it does not fit in 256 bits.
pub fn suggested_from_reserves(r0: U256, r1: U256, bps: u32) -> (r: Option<(U256, U256)>)
    ensures
        r is Some <==> (if r0@ < r1@ {
            r0@
        } else {
            r1@
        }) * bps < u256_limit(),
        r matches Some(s) ==> s.0@ == suggested_spec(r0@, r1@, bps as nat) && s.1 == s.0,
{
    let minr = if r0.lt(&r1) {
        r0
    } else {
        r1
    };
    match minr.checked_mul(U256::from_u64(bps as u64)) {
        Some(scaled) => match scaled.checked_div(U256::from_u64(10_000)) {
            Some(amt) => Some((amt, amt)),
            None => None,
        },
        None => None,
    }
}

fn decimals_of_address(tokens: &Vec<(String, Token)>, addr: &Address) -> (r: Option<u8>)
    ensures
        r == decimals_upto(tokens@, addr@, tokens@.len() as int),
{
    let mut found: Option<u8> = None;
    let mut i: usize = 0;
    while i < tokens.len()
        invariant
            i <= tokens@.len(),
            found == decimals_upto(tokens@, addr@, i as int),
        decreases tokens@.len() - i,
    {
        match parse_addr(tokens[i].1.address.as_str()) {
            Ok(a) => {
                if a.same(addr) {
                    found = Some(tokens[i].1.decimals);
                }
            },
            Err(_) => {},
        }
        i += 1;
    }
    found
}

/// The decimals of a pool's two tokens, in the pool's order, as the chain
/// lists them.  A token whose address is not listed is a fault; the first
/// token is looked at first.
pub fn token_decimals_by_order(tokens: &Vec<(String, Token)>, t0: Address, t1: Address) -> (r:
    Result<(u8, u8), DecimalsFault>)
    ensures
        match r {
            Ok(d) => decimals_upto(tokens@, t0@, tokens@.len() as int) == Some(d.0)
                && decimals_upto(tokens@, t1@, tokens@.len() as int) == Some(d.1),
            Err(DecimalsFault::Token0) => decimals_upto(tokens@, t0@, tokens@.len() as int) is None,
            Err(DecimalsFault::Token1) => decimals_upto(tokens@, t0@, tokens@.len() as int) is Some
                && decimals_upto(tokens@, t1@, tokens@.len() as int) is None,
        },
{
    let dec0 = decimals_of_address(tokens, &t0);
    let dec1 = decimals_of_address(tokens, &t1);
    match (dec0, dec1) {
        (Some(a), Some(b)) => Ok((a, b)),
        (None, _) => Err(DecimalsFault::Token0),
        (_, None) => Err(DecimalsFault::Token1),
    }
}

} // verus!
