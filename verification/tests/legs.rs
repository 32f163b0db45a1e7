use evm_arb_service::config::{
    AlertsCfg, CircuitBreaker, Config, DexConfig, Execution, Flashloan, Global, LogsCfg, Mev,
    Network, PriceSim, PrometheusCfg, Quote, Risk, RouteDex, Routing, Safety, Strategy, Telemetry,
    Token,
};
use evm_arb_service::address::Address;
use evm_arb_service::calldata::LegKind;
use evm_arb_service::legs::{
    dex_kind, quote_on_dex, v2_fee_bps, DexCall, DexKind, DexReply, LegState, LegStep, QuoteFault,
};
use evm_arb_service::uint::U256;
use evm_arb_service::utils::parse_addr;

fn s(x: &str) -> String {
    x.to_string()
}

fn token(address: &str, decimals: u8) -> Token {
    Token { address: s(address), decimals, optional: false }
}

fn dex(name: &str, dex_type: &str, factory: Option<&str>, router: Option<&str>) -> DexConfig {
    DexConfig {
        name: s(name),
        dex_type: s(dex_type),
        factory: factory.map(s),
        router: router.map(s),
        smart_router: None,
        swap_router02: None,
        universal_router: None,
        quoter_v2_hint: None,
        fee_tiers_bps: None,
        stable_pools: None,
    }
}

const WETH: &str = "0xc02aaa39b223fe8d0a0e5c4f27ead9083c756cc2";
const USDC: &str = "0xa0b86991c6218b36c1d19d4a2e9eb0ce3606eb48";
const DAI: &str = "0x6b175474e89094c44da98b954eedeac495271d0f";
const FACTORY_A: &str = "0x5c69bee701ef814a2b6a3edd4b1652cb9cc5aa6f";
const ROUTER_A: &str = "0x7a250d5630b4cf539739df2c5dacb4c659f2488d";
const FACTORY_B: &str = "0xc0aee478e3658e2610c5f7a4a2e1777ce9e4f2ac";
const ROUTER_B: &str = "0xd9e1ce17f2641f24ae83637ab66a2cca9c378b9f";

fn network() -> Network {
    Network {
        id: s("eth"),
        name: s("Ethereum"),
        chain_id: 1,
        native_symbol: s("ETH"),
        rpc: vec![s("http://one"), s("http://two")],
        explorer: None,
        tokens: vec![
            (s("WETH"), token(WETH, 18)),
            (s("USDC"), token(USDC, 6)),
            (s("DAI"), token(DAI, 18)),
        ],
        dexes: vec![
            dex("uniswapv2", "v2", Some(FACTORY_A), Some(ROUTER_A)),
            dex("sushiswap", "v2", Some(FACTORY_B), Some(ROUTER_B)),
        ],
        pairs: vec![[s("WETH"), s("USDC")]],
        triangles: vec![],
        routes_cross_dex: Some(vec![RouteDex {
            pair: [s("WETH"), s("USDC")],
            dexes: vec![s("uniswapv2"), s("sushiswap")],
        }]),
        strategy_overrides: None,
    }
}

fn strategy(name: &str) -> Strategy {
    Strategy {
        name: s(name),
        description: s(""),
        min_profit_bps: 0,
        slippage_bps: 50,
        gas_limit: 1_500_000,
        use_flash: None,
        max_route_hops: None,
        search_space: None,
        only_stables: None,
        whitelist_dexes: None,
        whitelist_pairs: None,
    }
}

fn config(networks: Vec<Network>, strategies: Vec<Strategy>) -> Config {
    Config {
        version: s("1"),
        created_at: s("2024-01-01"),
        notes: None,
        global: Global {
            quote: Quote {
                method_order: vec![],
                tick_liquidity_sample: None,
                slippage_bps_default: 50,
                gas_price_mode: s("eip1559"),
                deadline_seconds: 120,
            },
            risk: Risk {
                min_liquidity_usd: 1000,
                max_price_impact_bps: 0,
                stables: vec![s("USDC"), s("DAI")],
                blacklist_tokens: vec![],
                fee_on_transfer_block: false,
                rebase_token_block: false,
                permit2: s(""),
            },
            mev: Mev {
                private_tx: false,
                nonce_randomize: false,
                max_backrun_blocks: 0,
                builders: vec![],
            },
            flashloan: Flashloan { use_uniswap_v3_flash: false, use_balancer_flash: false },
            execution: Execution {
                block_range_back: 0,
                poll_interval_ms: 1500,
                priority_fee: s("auto"),
                max_concurrent_txs: 4,
                revert_retry: 1,
                approve_spend_on_start: false,
                auto_scale_notional: false,
            },
        },
        networks,
        strategies,
        routing: Routing {
            price_simulation: PriceSim {
                slippage_checks: false,
                virtual_reserves_boost_bps: 0,
                max_split_paths: 0,
            },
            route_templates: vec![],
        },
        safety: Safety {
            allow_revert_on_no_profit: false,
            halt_on_large_slippage_bps: 0,
            circuit_breaker: CircuitBreaker { max_losses_in_row: 3, cooldown_sec: 0 },
        },
        telemetry: Telemetry {
            prometheus: PrometheusCfg { enabled: false, port: 9090 },
            logs: LogsCfg { level: s("info"), json: false },
            alerts: AlertsCfg {
                email: false,
                tg_bot: false,
                webhook_url: None,
                tg_token: None,
                tg_chat_id: None,
            },
        },
    }
}

fn a(text: &str) -> Address {
    parse_addr(text).unwrap()
}

fn pool(last: u8) -> Address {
    let mut bytes = [0x11u8; 20];
    bytes[19] = last;
    Address { bytes }
}

fn v3_dex() -> DexConfig {
    let mut d = dex("uniswapv3", "V3", Some(FACTORY_A), None);
    d.swap_router02 = Some(s(ROUTER_A));
    d.universal_router = Some(s(ROUTER_B));
    d.quoter_v2_hint = Some(true);
    d.fee_tiers_bps = Some(vec![500, 3000, 10000]);
    d
}

#[test]
fn dex_kind_reads_the_type_in_any_case() {
    assert_eq!(dex_kind(&dex("x", "v2", None, None)), DexKind::V2);
    assert_eq!(dex_kind(&dex("x", "V2", None, None)), DexKind::V2);
    assert_eq!(dex_kind(&dex("x", "v3", None, None)), DexKind::V3);
    assert_eq!(dex_kind(&dex("x", "solidly", None, None)), DexKind::Solidly);
    assert_eq!(dex_kind(&dex("x", "Solidly_v2", None, None)), DexKind::Solidly);
    assert_eq!(dex_kind(&dex("x", "v3_algebra", None, None)), DexKind::Unknown);
    assert_eq!(dex_kind(&dex("x", "", None, None)), DexKind::Unknown);
    assert_eq!(dex_kind(&dex("x", "xsolidly", None, None)), DexKind::Unknown);
}

#[test]
fn v2_fee_depends_on_the_branding() {
    assert_eq!(v2_fee_bps(&dex("uniswapv2", "v2", None, None)), 30);
    assert_eq!(v2_fee_bps(&dex("PancakeV2", "v2", None, None)), 25);
    assert_eq!(v2_fee_bps(&dex("my-pancakev2-fork", "v2", None, None)), 25);
    assert_eq!(v2_fee_bps(&dex("pancakev3", "v2", None, None)), 30);
}

#[test]
fn constant_product_leg_with_even_reserves_quotes_996_for_1000() {
    let net = network();
    let (state, step) = quote_on_dex(&net, &net.dexes[0], "weth", "usdc", U256::from(1000u64));
    match step {
        LegStep::Call(DexCall::V2GetPair { factory, token_a, token_b }) => {
            assert_eq!(factory, a(FACTORY_A));
            assert_eq!(token_a, a(WETH));
            assert_eq!(token_b, a(USDC));
        }
        other => panic!("unexpected step {other:?}"),
    }
    let (state, step) = state.on_reply(DexReply::Pool(pool(1)));
    assert!(matches!(step, LegStep::Call(DexCall::V2PairTokens { pair }) if pair == pool(1)));
    let (state, step) = state.on_reply(DexReply::Tokens { token0: a(USDC), token1: a(WETH) });
    assert!(matches!(step, LegStep::Call(DexCall::V2Reserves { pair }) if pair == pool(1)));
    let (state, step) = state.on_reply(DexReply::Reserves {
        reserve0: U256::from(1_000_000u64),
        reserve1: U256::from(1_000_000u64),
    });
    assert!(matches!(state, LegState::Finished));
    match step {
        LegStep::Done(Some(o)) => {
            assert_eq!(o.amount_out, U256::from(996u64));
            assert!(o.amount_out > U256::zero());
            assert!(o.amount_out < U256::from(1000u64));
            assert_eq!(o.gas, 110_000);
            match o.leg.kind {
                LegKind::V2 { router, path } => {
                    assert_eq!(router, a(ROUTER_A));
                    assert_eq!(path, vec![a(WETH), a(USDC)]);
                }
                other => panic!("unexpected leg {other:?}"),
            }
        }
        other => panic!("unexpected step {other:?}"),
    }
}

#[test]
fn constant_product_leg_picks_reserves_by_the_pools_first_token() {
    let net = network();
    let run = |token0: Address| {
        let (state, _) = quote_on_dex(&net, &net.dexes[0], "WETH", "USDC", U256::from(1000u64));
        let (state, _) = state.on_reply(DexReply::Pool(pool(1)));
        let (state, _) = state.on_reply(DexReply::Tokens { token0, token1: a(DAI) });
        let (_, step) = state.on_reply(DexReply::Reserves {
            reserve0: U256::from(1_000_000u64),
            reserve1: U256::from(4_000_000u64),
        });
        match step {
            LegStep::Done(Some(o)) => o.amount_out,
            other => panic!("unexpected step {other:?}"),
        }
    };
    // input token is the pool's first: reserve0 is the input side
    assert_eq!(run(a(WETH)), U256::from(3_984u64));
    // otherwise reserve1 is
    assert_eq!(run(a(USDC)), U256::from(249u64));
}

#[test]
fn constant_product_leg_faults_and_dry_ends() {
    let net = network();
    let amount = U256::from(1000u64);
    let (state, _) = quote_on_dex(&net, &net.dexes[0], "WETH", "USDC", amount);
    // a pool that does not exist is no liquidity, not a fault
    let (state, step) = state.on_reply(DexReply::Pool(Address::zero()));
    assert!(matches!(step, LegStep::Done(None)));
    assert!(matches!(state, LegState::Finished));
    let (_, step) = state.on_reply(DexReply::Pool(pool(1)));
    assert!(matches!(step, LegStep::Fail(QuoteFault::UnexpectedReply)));

    let (state, _) = quote_on_dex(&net, &net.dexes[0], "WETH", "USDC", amount);
    let (_, step) = state.on_reply(DexReply::Amount(amount));
    assert!(matches!(step, LegStep::Fail(QuoteFault::UnexpectedReply)));

    let drained = |r0: U256, r1: U256, d: &DexConfig| {
        let (state, _) = quote_on_dex(&net, d, "WETH", "USDC", amount);
        let (state, _) = state.on_reply(DexReply::Pool(pool(1)));
        let (state, _) = state.on_reply(DexReply::Tokens { token0: a(WETH), token1: a(USDC) });
        state.on_reply(DexReply::Reserves { reserve0: r0, reserve1: r1 }).1
    };
    assert!(matches!(drained(U256::zero(), U256::from(5u64), &net.dexes[0]), LegStep::Done(None)));
    assert!(matches!(
        drained(U256::from(1_000_000_000u64), U256::from(1u64), &net.dexes[0]),
        LegStep::Done(None)
    ));
    assert!(matches!(
        drained(U256::max_value(), U256::from(5u64), &net.dexes[0]),
        LegStep::Fail(QuoteFault::Overflow)
    ));
    // the router is looked at only once there is something to route
    let no_router = dex("uniswapv2", "v2", Some(FACTORY_A), None);
    assert!(matches!(drained(U256::zero(), U256::from(5u64), &no_router), LegStep::Done(None)));
    assert!(matches!(
        drained(U256::from(1_000_000u64), U256::from(1_000_000u64), &no_router),
        LegStep::Fail(QuoteFault::MissingRouter)
    ));
}

#[test]
fn opening_faults_by_exchange_description() {
    let net = network();
    let amount = U256::from(1u64);
    let open = |d: &DexConfig, from: &str, to: &str| quote_on_dex(&net, d, from, to, amount).1;
    assert!(matches!(open(&net.dexes[0], "WBTC", "USDC"), LegStep::Fail(QuoteFault::UnknownToken)));
    assert!(matches!(open(&net.dexes[0], "WETH", "WBTC"), LegStep::Fail(QuoteFault::UnknownToken)));
    assert!(matches!(open(&dex("x", "curve", None, None), "WETH", "USDC"), LegStep::Done(None)));
    for kind in ["v2", "v3", "solidly"] {
        assert!(matches!(
            open(&dex("x", kind, None, Some(ROUTER_A)), "WETH", "USDC"),
            LegStep::Fail(QuoteFault::MissingFactory)
        ));
        assert!(matches!(
            open(&dex("x", kind, Some("0x12"), Some(ROUTER_A)), "WETH", "USDC"),
            LegStep::Fail(QuoteFault::BadAddress)
        ));
    }
    assert!(matches!(
        open(&dex("x", "v3", Some(FACTORY_A), None), "WETH", "USDC"),
        LegStep::Fail(QuoteFault::MissingRouter)
    ));
    assert!(matches!(
        open(&dex("x", "solidly", Some(FACTORY_A), None), "WETH", "USDC"),
        LegStep::Fail(QuoteFault::MissingRouter)
    ));
    assert!(matches!(
        open(&dex("x", "solidly", Some(FACTORY_A), Some("junk")), "WETH", "USDC"),
        LegStep::Fail(QuoteFault::BadAddress)
    ));
    // a concentrated-liquidity exchange without a quoter does not guess
    assert!(matches!(
        open(&dex("x", "v3", Some(FACTORY_A), Some(ROUTER_A)), "WETH", "USDC"),
        LegStep::Done(None)
    ));
    let mut hinted = dex("x", "v3", Some(FACTORY_A), Some(ROUTER_A));
    hinted.quoter_v2_hint = Some(true);
    // it says it has a quoter but names none: still no liquidity, and no fault
    assert!(matches!(open(&hinted, "WETH", "USDC"), LegStep::Done(None)));
    assert!(matches!(
        quote_on_dex(&net, &hinted, "WETH", "USDC", amount).0,
        LegState::Finished
    ));
    hinted.universal_router = Some(s("junk"));
    assert!(matches!(open(&hinted, "WETH", "USDC"), LegStep::Fail(QuoteFault::BadAddress)));
    let mut no_tiers = v3_dex();
    no_tiers.fee_tiers_bps = Some(vec![]);
    assert!(matches!(open(&no_tiers, "WETH", "USDC"), LegStep::Done(None)));
}

#[test]
fn concentrated_liquidity_leg_takes_the_first_tier_that_quotes() {
    let net = network();
    let d = v3_dex();
    let amount = U256::from(1000u64);
    let (state, step) = quote_on_dex(&net, &d, "WETH", "USDC", amount);
    assert!(matches!(
        step,
        LegStep::Call(DexCall::V3GetPool { factory, token_a, token_b, fee: 500 })
            if factory == a(FACTORY_A) && token_a == a(WETH) && token_b == a(USDC)
    ));
    // no pool at tier 500: on to 3000
    let (state, step) = state.on_reply(DexReply::Pool(Address::zero()));
    assert!(matches!(step, LegStep::Call(DexCall::V3GetPool { fee: 3000, .. })));
    let (state, step) = state.on_reply(DexReply::Pool(pool(3)));
    assert!(matches!(
        step,
        LegStep::Call(DexCall::V3QuoteExactInputSingle { quoter, token_in, token_out, fee: 3000, amount_in })
            if quoter == a(ROUTER_A) && token_in == a(WETH) && token_out == a(USDC)
                && amount_in == amount
    ));
    // a zero quote at tier 3000: on to 10000
    let (state, step) = state.on_reply(DexReply::Amount(U256::zero()));
    assert!(matches!(step, LegStep::Call(DexCall::V3GetPool { fee: 10000, .. })));
    let (state, _) = state.on_reply(DexReply::Pool(pool(4)));
    let (state, step) = state.on_reply(DexReply::Amount(U256::from(777u64)));
    assert!(matches!(state, LegState::Finished));
    match step {
        LegStep::Done(Some(o)) => {
            assert_eq!(o.amount_out, U256::from(777u64));
            assert_eq!(o.gas, 140_000);
            assert!(matches!(
                o.leg.kind,
                LegKind::V3 { router, token_in, token_out, fee_bps: 10000 }
                    if router == a(ROUTER_A) && token_in == a(WETH) && token_out == a(USDC)
            ));
        }
        other => panic!("unexpected step {other:?}"),
    }
}

#[test]
fn concentrated_liquidity_leg_without_any_quote_is_dry() {
    let net = network();
    let mut d = v3_dex();
    d.fee_tiers_bps = None;
    let (state, step) = quote_on_dex(&net, &d, "WETH", "USDC", U256::from(1000u64));
    assert!(matches!(step, LegStep::Call(DexCall::V3GetPool { fee: 3000, .. })));
    let (_, step) = state.on_reply(DexReply::Pool(Address::zero()));
    assert!(matches!(step, LegStep::Done(None)));

    let (state, _) = quote_on_dex(&net, &v3_dex(), "WETH", "USDC", U256::from(1000u64));
    let (state, _) = state.on_reply(DexReply::Pool(Address::zero()));
    let (state, _) = state.on_reply(DexReply::Pool(Address::zero()));
    let (state, step) = state.on_reply(DexReply::Pool(pool(9)));
    assert!(matches!(step, LegStep::Call(DexCall::V3QuoteExactInputSingle { fee: 10000, .. })));
    let (_, step) = state.on_reply(DexReply::Amount(U256::zero()));
    assert!(matches!(step, LegStep::Done(None)));
}

#[test]
fn stable_volatile_leg_tries_volatile_then_stable() {
    let net = network();
    let amount = U256::from(1000u64);
    let mut d = dex("velo", "solidly_v2", Some(FACTORY_B), Some(ROUTER_B));
    let (state, step) = quote_on_dex(&net, &d, "USDC", "DAI", amount);
    assert!(matches!(
        step,
        LegStep::Call(DexCall::SolidlyGetPair { factory, token_a, token_b, stable: false })
            if factory == a(FACTORY_B) && token_a == a(USDC) && token_b == a(DAI)
    ));
    // stable pools are not allowed: no volatile pool means no liquidity
    let (_, step) = state.on_reply(DexReply::Pool(Address::zero()));
    assert!(matches!(step, LegStep::Done(None)));

    d.stable_pools = Some(true);
    let (state, _) = quote_on_dex(&net, &d, "USDC", "DAI", amount);
    let (state, step) = state.on_reply(DexReply::Pool(Address::zero()));
    assert!(matches!(step, LegStep::Call(DexCall::SolidlyGetPair { stable: true, .. })));
    let (state, step) = state.on_reply(DexReply::Pool(pool(5)));
    assert!(matches!(
        step,
        LegStep::Call(DexCall::SolidlyGetAmountOut { pair, amount_in, token_in })
            if pair == pool(5) && amount_in == amount && token_in == a(USDC)
    ));
    let (_, step) = state.on_reply(DexReply::Amount(U256::from(999u64)));
    match step {
        LegStep::Done(Some(o)) => {
            assert_eq!(o.amount_out, U256::from(999u64));
            assert_eq!(o.gas, 110_000);
            assert!(matches!(
                o.leg.kind,
                LegKind::Solidly { router, pair, stable: true, token_in }
                    if router == a(ROUTER_B) && pair == pool(5) && token_in == a(USDC)
            ));
        }
        other => panic!("unexpected step {other:?}"),
    }

    // neither pool exists
    let (state, _) = quote_on_dex(&net, &d, "USDC", "DAI", amount);
    let (state, _) = state.on_reply(DexReply::Pool(Address::zero()));
    let (_, step) = state.on_reply(DexReply::Pool(Address::zero()));
    assert!(matches!(step, LegStep::Done(None)));

    // the volatile pool exists: it is taken, and a zero quote is no liquidity
    let (state, _) = quote_on_dex(&net, &d, "USDC", "DAI", amount);
    let (state, step) = state.on_reply(DexReply::Pool(pool(6)));
    assert!(matches!(step, LegStep::Call(DexCall::SolidlyGetAmountOut { pair, .. }) if pair == pool(6)));
    let (_, step) = state.on_reply(DexReply::Amount(U256::zero()));
    assert!(matches!(step, LegStep::Done(None)));
}
