use evm_arb_service::address::Address;
use evm_arb_service::discover::{
    discoverable_dexes, pool_kind, probe_tiers, suggested_from_reserves, token_decimals_by_order,
    DecimalsFault, DexConfig, Network, OutDex, OutNetwork, OutV2Pair, Output, PoolKind, Token,
};
use evm_arb_service::uint::U256;
use evm_arb_service::utils::parse_addr;

const WETH: &str = "0xc02aaa39b223fe8d0a0e5c4f27ead9083c756cc2";
const USDC: &str = "0xa0b86991c6218b36c1d19d4a2e9eb0ce3606eb48";

fn s(x: &str) -> String {
    x.to_string()
}

fn a(text: &str) -> Address {
    parse_addr(text).unwrap()
}

fn dex(name: &str, dex_type: &str, factory: Option<&str>) -> DexConfig {
    DexConfig {
        name: s(name),
        dex_type: s(dex_type),
        factory: factory.map(s),
        router: None,
        fee_tiers_bps: None,
        stable_pools: None,
    }
}

fn tokens() -> Vec<(String, Token)> {
    vec![
        (s("WETH"), Token { address: s(WETH), decimals: 18, optional: false }),
        (s("USDC"), Token { address: s(USDC), decimals: 6, optional: false }),
        (s("BAD"), Token { address: s("junk"), decimals: 1, optional: true }),
        (s("USDC.e"), Token { address: s(USDC), decimals: 7, optional: false }),
    ]
}

#[test]
fn pool_kind_is_read_from_the_exact_type() {
    assert_eq!(pool_kind(&dex("a", "v2", None)), Some(PoolKind::V2));
    assert_eq!(pool_kind(&dex("a", "v3", None)), Some(PoolKind::V3));
    assert_eq!(pool_kind(&dex("a", "solidly_v2", None)), Some(PoolKind::Solidly));
    assert_eq!(pool_kind(&dex("a", "solidly", None)), None);
    assert_eq!(pool_kind(&dex("a", "V2", None)), None);
    assert_eq!(pool_kind(&dex("a", "", None)), None);
}

#[test]
fn discovery_looks_at_known_exchanges_with_a_factory() {
    let net = Network {
        id: s("eth"),
        name: s("Ethereum"),
        chain_id: 1,
        rpc: vec![s("http://one")],
        tokens: tokens(),
        dexes: vec![
            dex("a", "v2", Some("0x1")),
            dex("b", "v2", None),
            dex("c", "curve", Some("0x1")),
            dex("d", "v3", Some("0x1")),
            dex("e", "solidly_v2", Some("0x1")),
        ],
        pairs: vec![[s("WETH"), s("USDC")]],
    };
    assert_eq!(discoverable_dexes(&net), vec![0, 3, 4]);
    assert_eq!(probe_tiers(&net.dexes[3]), vec![100, 500, 1000, 3000, 10000]);
    let mut own = dex("d", "v3", Some("0x1"));
    own.fee_tiers_bps = Some(vec![250, 42]);
    assert_eq!(probe_tiers(&own), vec![250, 42]);
    own.fee_tiers_bps = Some(vec![]);
    assert!(probe_tiers(&own).is_empty());
}

#[test]
fn suggested_amount_is_basis_points_of_the_smaller_reserve() {
    let r = suggested_from_reserves(U256::from(5_000_000u64), U256::from(1_000_000u64), 20);
    assert_eq!(r, Some((U256::from(2_000u64), U256::from(2_000u64))));
    let r = suggested_from_reserves(U256::from(1_000_000u64), U256::from(5_000_000u64), 15);
    assert_eq!(r, Some((U256::from(1_500u64), U256::from(1_500u64))));
    let r = suggested_from_reserves(U256::from(499u64), U256::from(499u64), 20);
    assert_eq!(r, Some((U256::zero(), U256::zero())));
    assert_eq!(suggested_from_reserves(U256::max_value(), U256::max_value(), 2), None);
    assert!(suggested_from_reserves(U256::max_value(), U256::from(7u64), 20).is_some());
}

#[test]
fn token_decimals_follow_the_pools_order() {
    let t = tokens();
    // the last listed token with the address decides
    assert_eq!(token_decimals_by_order(&t, a(WETH), a(USDC)), Ok((18, 7)));
    assert_eq!(token_decimals_by_order(&t, a(USDC), a(WETH)), Ok((7, 18)));
    assert_eq!(token_decimals_by_order(&t, Address::zero(), a(WETH)), Err(DecimalsFault::Token0));
    assert_eq!(token_decimals_by_order(&t, a(WETH), Address::zero()), Err(DecimalsFault::Token1));
    assert_eq!(
        token_decimals_by_order(&t, Address::zero(), Address::zero()),
        Err(DecimalsFault::Token0)
    );
    assert_eq!(token_decimals_by_order(&vec![], a(WETH), a(USDC)), Err(DecimalsFault::Token0));
}

#[test]
fn snapshot_types_hold_what_was_found() {
    let out = Output {
        generated_at: s("2024-01-01T00:00:00Z"),
        networks: vec![OutNetwork {
            chain_id: 1,
            name: s("Ethereum"),
            dexes: vec![OutDex::V2 {
                name: s("a"),
                factory: s("0x1"),
                pairs: vec![OutV2Pair {
                    pair: [s("WETH"), s("USDC")],
                    address: s("0x2"),
                    token0: s(USDC),
                    token1: s(WETH),
                    reserves0: s("1"),
                    reserves1: s("2"),
                    decimals0: 6,
                    decimals1: 18,
                    suggested_amount_token0: s("0"),
                    suggested_amount_token1: s("0"),
                }],
            }],
        }],
    };
    assert_eq!(out.networks[0].dexes.len(), 1);
    assert!(matches!(&out.networks[0].dexes[0], OutDex::V2 { pairs, .. } if pairs[0].decimals0 == 6));
}
