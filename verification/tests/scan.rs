use evm_arb_service::config::{
    AlertsCfg, CircuitBreaker, Config, DexConfig, Execution, Flashloan, Global, LogsCfg, Mev,
    Network, PriceSim, PrometheusCfg, Quote, Risk, RouteDex, Routing, Safety, Strategy, Telemetry,
    Token,
};
use evm_arb_service::address::Address;
use evm_arb_service::calldata::{encode_route_calldata, LegKind, LegQuote};
use evm_arb_service::config::StrategyOverrides;
use evm_arb_service::route::{scan_guard, PnLTracker, RoutePlanner, ScanGuard, StrategyEngine};
use evm_arb_service::router::QuoteResult;
use evm_arb_service::scan::{
    meets_min_profit, ScanEvent, ScanFault, ScanPhase, ScanState, ScanStep, Filtered,
};
use evm_arb_service::uint::U256;
use evm_arb_service::utils::parse_addr;

fn s(x: &str) -> String {
    x.to_string()
}

fn token(address: &str, decimals: u8) -> Token {
    Token { address: s(address), decimals, optional: false }
}

fn dex(name: &str, dex_type: &str, factory: Option<&str>, router: Option<&str>) -> DexConfig {
    DexConfig {
        name: s(name),
        dex_type: s(dex_type),
        factory: factory.map(s),
        router: router.map(s),
        smart_router: None,
        swap_router02: None,
        universal_router: None,
        quoter_v2_hint: None,
        fee_tiers_bps: None,
        stable_pools: None,
    }
}

const WETH: &str = "0xc02aaa39b223fe8d0a0e5c4f27ead9083c756cc2";
const USDC: &str = "0xa0b86991c6218b36c1d19d4a2e9eb0ce3606eb48";
const DAI: &str = "0x6b175474e89094c44da98b954eedeac495271d0f";
const FACTORY_A: &str = "0x5c69bee701ef814a2b6a3edd4b1652cb9cc5aa6f";
const ROUTER_A: &str = "0x7a250d5630b4cf539739df2c5dacb4c659f2488d";
const FACTORY_B: &str = "0xc0aee478e3658e2610c5f7a4a2e1777ce9e4f2ac";
const ROUTER_B: &str = "0xd9e1ce17f2641f24ae83637ab66a2cca9c378b9f";

fn network() -> Network {
    Network {
        id: s("eth"),
        name: s("Ethereum"),
        chain_id: 1,
        native_symbol: s("ETH"),
        rpc: vec![s("http://one"), s("http://two")],
        explorer: None,
        tokens: vec![
            (s("WETH"), token(WETH, 18)),
            (s("USDC"), token(USDC, 6)),
            (s("DAI"), token(DAI, 18)),
        ],
        dexes: vec![
            dex("uniswapv2", "v2", Some(FACTORY_A), Some(ROUTER_A)),
            dex("sushiswap", "v2", Some(FACTORY_B), Some(ROUTER_B)),
        ],
        pairs: vec![[s("WETH"), s("USDC")]],
        triangles: vec![],
        routes_cross_dex: Some(vec![RouteDex {
            pair: [s("WETH"), s("USDC")],
            dexes: vec![s("uniswapv2"), s("sushiswap")],
        }]),
        strategy_overrides: None,
    }
}

fn strategy(name: &str) -> Strategy {
    Strategy {
        name: s(name),
        description: s(""),
        min_profit_bps: 0,
        slippage_bps: 50,
        gas_limit: 1_500_000,
        use_flash: None,
        max_route_hops: None,
        search_space: None,
        only_stables: None,
        whitelist_dexes: None,
        whitelist_pairs: None,
    }
}

fn config(networks: Vec<Network>, strategies: Vec<Strategy>) -> Config {
    Config {
        version: s("1"),
        created_at: s("2024-01-01"),
        notes: None,
        global: Global {
            quote: Quote {
                method_order: vec![],
                tick_liquidity_sample: None,
                slippage_bps_default: 50,
                gas_price_mode: s("eip1559"),
                deadline_seconds: 120,
            },
            risk: Risk {
                min_liquidity_usd: 1000,
                max_price_impact_bps: 0,
                stables: vec![s("USDC"), s("DAI")],
                blacklist_tokens: vec![],
                fee_on_transfer_block: false,
                rebase_token_block: false,
                permit2: s(""),
            },
            mev: Mev {
                private_tx: false,
                nonce_randomize: false,
                max_backrun_blocks: 0,
                builders: vec![],
            },
            flashloan: Flashloan { use_uniswap_v3_flash: false, use_balancer_flash: false },
            execution: Execution {
                block_range_back: 0,
                poll_interval_ms: 1500,
                priority_fee: s("auto"),
                max_concurrent_txs: 4,
                revert_retry: 1,
                approve_spend_on_start: false,
                auto_scale_notional: false,
            },
        },
        networks,
        strategies,
        routing: Routing {
            price_simulation: PriceSim {
                slippage_checks: false,
                virtual_reserves_boost_bps: 0,
                max_split_paths: 0,
            },
            route_templates: vec![],
        },
        safety: Safety {
            allow_revert_on_no_profit: false,
            halt_on_large_slippage_bps: 0,
            circuit_breaker: CircuitBreaker { max_losses_in_row: 3, cooldown_sec: 0 },
        },
        telemetry: Telemetry {
            prometheus: PrometheusCfg { enabled: false, port: 9090 },
            logs: LogsCfg { level: s("info"), json: false },
            alerts: AlertsCfg {
                email: false,
                tg_bot: false,
                webhook_url: None,
                tg_token: None,
                tg_chat_id: None,
            },
        },
    }
}

fn a(text: &str) -> Address {
    parse_addr(text).unwrap()
}

fn u(v: u64) -> U256 {
    U256::from(v)
}

fn engine(cfg: &Config) -> StrategyEngine<'_> {
    StrategyEngine::new(cfg, RoutePlanner::from_config(cfg))
}

fn quote(amount_in: u64, amount_out: u64, min_out: u64) -> QuoteResult {
    QuoteResult {
        amount_in: u(amount_in),
        amount_out: u(amount_out),
        min_out: u(min_out),
        gas_estimate: 253_000,
        gas_price: u(1),
        legs: vec![
            LegQuote { kind: LegKind::V2 { router: a(ROUTER_A), path: vec![a(WETH), a(USDC)] } },
            LegQuote { kind: LegKind::V2 { router: a(ROUTER_B), path: vec![a(USDC), a(WETH)] } },
        ],
        profit_native: u(amount_out - amount_in),
        gas_cost: u(253_000),
    }
}

/// Runs a whole scan, answering every quote with `quoted` and every
/// candidate with `executed`, and returns the steps it took.
fn run_scan(
    e: &mut StrategyEngine,
    net: &Network,
    quoted: Option<(u64, u64, u64)>,
    executed: Option<bool>,
) -> Vec<ScanStep> {
    let mut steps = vec![];
    let (mut st, mut step) = e.begin_scan(net);
    loop {
        steps.push(step.clone());
        let event = match &step {
            ScanStep::Halted(_) | ScanStep::Finished { .. } | ScanStep::Abort(_) => break,
            ScanStep::QuotePair { .. } | ScanStep::QuoteTriangle { .. } => {
                ScanEvent::Quoted(quoted.map(|(i, o, m)| quote(i, o, m)))
            }
            ScanStep::Candidate { .. } => match executed {
                Some(ok) => ScanEvent::Executed(ok),
                None => ScanEvent::NotExecuted,
            },
            _ => ScanEvent::Next,
        };
        let (next_state, next_step) = e.advance_scan(net, st, event);
        st = next_state;
        step = next_step;
        assert!(steps.len() < 100);
    }
    assert_eq!(st.phase, ScanPhase::Finished);
    steps
}

fn count_scanned(steps: &[ScanStep]) -> usize {
    steps.iter().filter(|s| matches!(s, ScanStep::RouteScanned { .. } | ScanStep::TriangleScanned { .. })).count()
}

fn count_quotes(steps: &[ScanStep]) -> usize {
    steps.iter().filter(|s| matches!(s, ScanStep::QuotePair { .. } | ScanStep::QuoteTriangle { .. })).count()
}

#[test]
fn scan_quotes_offers_and_records_success() {
    let cfg = config(vec![network()], vec![]);
    let net = &cfg.networks[0];
    let mut e = engine(&cfg);
    e.pnl.on_loss();
    let steps = run_scan(&mut e, net, Some((1000, 1487, 1479)), Some(true));
    assert_eq!(steps.len(), 4);
    assert!(matches!(steps[0], ScanStep::RouteScanned { index: 0 }));
    match &steps[1] {
        ScanStep::QuotePair { index: 0, dex_a: 0, dex_b: 1, amount_in, slip_bps: 50 } => {
            assert_eq!(amount_in.to_u128(), Some(1_000_000_000_000_000_000));
        }
        other => panic!("unexpected step {other:?}"),
    }
    match &steps[2] {
        ScanStep::Candidate { index: 0, triangle: false, calldata } => {
            let q = quote(1000, 1487, 1479);
            // the payload carries the least acceptable output, not the quoted one
            assert_eq!(*calldata, encode_route_calldata(&q.legs, u(1000), u(1479)).unwrap());
            assert_ne!(*calldata, encode_route_calldata(&q.legs, u(1000), u(1487)).unwrap());
        }
        other => panic!("unexpected step {other:?}"),
    }
    assert!(matches!(steps[3], ScanStep::Finished { success: true }));
    assert_eq!(e.pnl.consec_losses, 0);
    assert!(e.pnl.last_loss_ts.is_none());
}

#[test]
fn scan_without_successful_execution_counts_as_a_loss() {
    let cfg = config(vec![network()], vec![]);
    let net = &cfg.networks[0];
    for (quoted, executed) in [
        (None, None),
        (Some((1000, 1487, 1479)), Some(false)),
        (Some((1000, 1487, 1479)), None),
    ] {
        let mut e = engine(&cfg);
        let steps = run_scan(&mut e, net, quoted, executed);
        assert!(matches!(steps.last(), Some(ScanStep::Finished { success: false })));
        assert_eq!(e.pnl.consec_losses, 1);
        assert!(e.pnl.last_loss_ts.is_some());
    }
}

#[test]
fn breaker_halts_the_scan_after_exactly_the_configured_losses() {
    let mut cfg = config(vec![network()], vec![]);
    cfg.safety.circuit_breaker.cooldown_sec = 3600;
    let net = cfg.networks[0].clone();
    let max = cfg.safety.circuit_breaker.max_losses_in_row;
    let mut e = engine(&cfg);
    for _ in 0..max {
        e.pnl.on_loss();
    }
    // the next scan for the chain performs no quoting call at all
    let steps = run_scan(&mut e, &net, Some((1000, 1487, 1479)), Some(true));
    assert_eq!(steps.len(), 1);
    assert!(matches!(steps[0], ScanStep::Halted(ScanGuard::Tripped { remaining_sec }) if remaining_sec > 3590));
    assert_eq!(count_quotes(&steps), 0);
    assert_eq!(count_scanned(&steps), 0);
    assert_eq!(e.pnl.consec_losses, max);
    // one success at any point clears the counter
    e.pnl.on_success();
    assert_eq!(e.pnl.consec_losses, 0);
    let steps = run_scan(&mut e, &net, None, None);
    assert_eq!(count_quotes(&steps), 1);
}

#[test]
fn breaker_lets_the_scan_proceed_once_the_window_has_passed() {
    let mut cfg = config(vec![network()], vec![]);
    cfg.safety.circuit_breaker.cooldown_sec = 30;
    let net = cfg.networks[0].clone();
    let max = cfg.safety.circuit_breaker.max_losses_in_row;
    let sec = 1_000_000_000u128;
    let mut e = engine(&cfg);
    for _ in 0..max {
        e.pnl.on_loss();
    }
    // within the window: halted
    let guard = scan_guard(e.pnl.consec_losses, Some(29 * sec), 30, max);
    let (_, step) = e.begin_scan_with(&net, guard);
    assert!(matches!(step, ScanStep::Halted(ScanGuard::Tripped { remaining_sec: 1 })));
    // the window has passed, nothing else has happened: routes are scanned again
    let guard = scan_guard(e.pnl.consec_losses, Some(30 * sec), 30, max);
    assert_eq!(guard, ScanGuard::Proceed);
    let (st, step) = e.begin_scan_with(&net, guard);
    assert!(matches!(step, ScanStep::RouteScanned { index: 0 }));
    let (_, step) = e.advance_scan(&net, st, ScanEvent::Next);
    assert!(matches!(step, ScanStep::QuotePair { index: 0, .. }));
    assert_eq!(e.pnl.consec_losses, max);
}

#[test]
fn breaker_with_a_maximum_of_zero_halts_the_scan_without_any_loss() {
    let mut cfg = config(vec![network()], vec![]);
    cfg.safety.circuit_breaker.max_losses_in_row = 0;
    cfg.safety.circuit_breaker.cooldown_sec = 60;
    let net = cfg.networks[0].clone();
    let mut e = engine(&cfg);
    assert_eq!(e.pnl.consec_losses, 0);
    let steps = run_scan(&mut e, &net, Some((1000, 1487, 1479)), Some(true));
    assert_eq!(steps.len(), 1);
    assert!(matches!(steps[0], ScanStep::Halted(ScanGuard::Tripped { remaining_sec: 60 })));
    assert_eq!(count_quotes(&steps), 0);
    assert_eq!(count_scanned(&steps), 0);
    assert_eq!(e.pnl.consec_losses, 0);
    assert!(e.pnl.last_loss_ts.is_none());
}

#[test]
fn preferred_exchanges_come_from_the_first_strategy() {
    let mut first = strategy("a");
    let mut second = strategy("b");
    second.whitelist_dexes = Some(vec![s("curve")]);
    let cfg = config(vec![network()], vec![]);
    assert!(engine(&cfg).preferred_dexes().is_empty());
    let cfg = config(vec![network()], vec![first.clone(), second.clone()]);
    assert!(engine(&cfg).preferred_dexes().is_empty());
    first.whitelist_dexes = Some(vec![s("sushiswap"), s("uniswapv2")]);
    let cfg = config(vec![network()], vec![first, second]);
    assert_eq!(engine(&cfg).preferred_dexes(), vec![s("sushiswap"), s("uniswapv2")]);
}

#[test]
fn breaker_without_window_halts_nothing() {
    let cfg = config(vec![network()], vec![]);
    assert_eq!(cfg.safety.circuit_breaker.cooldown_sec, 0);
    let net = cfg.networks[0].clone();
    let max = cfg.safety.circuit_breaker.max_losses_in_row;
    let mut e = engine(&cfg);
    for round in 0..max + 2 {
        let steps = run_scan(&mut e, &net, None, None);
        assert_eq!(count_quotes(&steps), 1);
        assert_eq!(e.pnl.consec_losses, round + 1);
    }
}

#[test]
fn scan_never_offers_a_quote_whose_min_out_is_not_above_the_input() {
    let cfg = config(vec![network()], vec![]);
    let net = cfg.networks[0].clone();
    for (amount_in, amount_out, min_out) in
        [(1000, 1000, 995), (1000, 1011, 1000), (1000, 1011, 999), (1000, 2000, 0)]
    {
        let mut e = engine(&cfg);
        let steps = run_scan(&mut e, &net, Some((amount_in, amount_out, min_out)), Some(true));
        assert_eq!(count_quotes(&steps), 1);
        assert!(!steps.iter().any(|s| matches!(s, ScanStep::Candidate { .. })));
        assert!(matches!(steps.last(), Some(ScanStep::Finished { success: false })));
    }
    let mut e = engine(&cfg);
    let steps = run_scan(&mut e, &net, Some((1000, 1011, 1001)), Some(true));
    assert!(steps.iter().any(|s| matches!(s, ScanStep::Candidate { .. })));
}

#[test]
fn cooldown_halts_the_scan() {
    let mut cfg = config(vec![network()], vec![]);
    cfg.safety.circuit_breaker.cooldown_sec = 3600;
    cfg.safety.circuit_breaker.max_losses_in_row = 10;
    let net = cfg.networks[0].clone();
    let mut e = engine(&cfg);
    assert_eq!(count_quotes(&run_scan(&mut e, &net, None, None)), 1);
    let steps = run_scan(&mut e, &net, None, None);
    assert_eq!(steps.len(), 1);
    assert!(matches!(steps[0], ScanStep::Halted(ScanGuard::Cooldown { remaining_sec }) if remaining_sec > 3590));
    assert_eq!(e.pnl.consec_losses, 1);
    let (st, step) = e.begin_scan_with(&net, ScanGuard::Cooldown { remaining_sec: 7 });
    assert!(matches!(step, ScanStep::Halted(ScanGuard::Cooldown { remaining_sec: 7 })));
    assert_eq!(st.phase, ScanPhase::Finished);
    let (_, step) = e.begin_scan_with(&net, ScanGuard::Proceed);
    assert!(matches!(step, ScanStep::RouteScanned { index: 0 }));
}

#[test]
fn blacklisted_token_skips_the_pair_before_anything_is_spent() {
    let mut cfg = config(vec![network()], vec![]);
    cfg.global.risk.blacklist_tokens = vec![USDC.to_uppercase().replace("0X", "0x")];
    let net = cfg.networks[0].clone();
    let mut e = engine(&cfg);
    assert!(e.skip_pair_by_risk(&net, "WETH", "USDC"));
    assert!(e.skip_pair_by_risk(&net, "USDC", "DAI"));
    assert!(!e.skip_pair_by_risk(&net, "WETH", "DAI"));
    assert!(!e.skip_pair_by_risk(&net, "weth", "usdc"));
    assert_eq!(e.route_filter(&net, &net.routes_cross_dex.as_ref().unwrap()[0]), Filtered::Blacklisted);
    let steps = run_scan(&mut e, &net, Some((1000, 1487, 1479)), Some(true));
    assert_eq!(steps.len(), 2);
    assert!(matches!(steps[0], ScanStep::RouteSkipped { index: 0, why: Filtered::Blacklisted }));
    assert!(matches!(steps[1], ScanStep::Finished { success: false }));
    // the routes-scanned counter does not move for the pair
    assert_eq!(count_scanned(&steps), 0);
    assert_eq!(count_quotes(&steps), 0);
}

#[test]
fn strategy_filters_decide_before_the_blacklist() {
    let mut net = network();
    net.routes_cross_dex = Some(vec![
        RouteDex { pair: [s("WETH"), s("WBTC")], dexes: vec![s("uniswapv2"), s("sushiswap")] },
        RouteDex { pair: [s("WETH"), s("usdc")], dexes: vec![s("uniswapv2"), s("curve")] },
        RouteDex { pair: [s("DAI"), s("USDC")], dexes: vec![s("UniswapV2"), s("sushiswap")] },
        RouteDex { pair: [s("USDC"), s("WETH")], dexes: vec![s("uniswapv2"), s("sushiswap")] },
    ]);
    net.tokens.push((s("WBTC"), token("0x2260fac5e5542a773aa44fbcfedf7c193bc2c599", 8)));
    let mut only = strategy("main");
    only.only_stables = Some(true);
    only.whitelist_dexes = Some(vec![s("uniswapv2"), s("SushiSwap")]);
    only.whitelist_pairs = Some(vec![[s("weth"), s("usdc")]]);
    let mut cfg = config(vec![net.clone()], vec![only, strategy("ignored")]);
    cfg.global.risk.blacklist_tokens = vec![s(WETH)];
    let e = engine(&cfg);
    let routes = net.routes_cross_dex.as_ref().unwrap();
    assert_eq!(e.route_filter(&net, &routes[0]), Filtered::OnlyStables);
    assert_eq!(e.route_filter(&net, &routes[1]), Filtered::DexNotWhitelisted);
    assert_eq!(e.route_filter(&net, &routes[2]), Filtered::PairNotWhitelisted);
    assert_eq!(e.route_filter(&net, &routes[3]), Filtered::Blacklisted);
    cfg.global.risk.blacklist_tokens.clear();
    let e = engine(&cfg);
    assert_eq!(e.route_filter(&net, &routes[3]), Filtered::Scan);
    cfg.strategies.clear();
    let e = engine(&cfg);
    assert_eq!(e.route_filter(&net, &routes[0]), Filtered::Scan);
}

#[test]
fn triangle_filters_look_at_all_three_pairs() {
    let mut net = network();
    net.tokens.push((s("WBTC"), token("0x2260fac5e5542a773aa44fbcfedf7c193bc2c599", 8)));
    let mut strat = strategy("main");
    strat.only_stables = Some(true);
    let mut cfg = config(vec![net.clone()], vec![strat]);
    {
        let e = engine(&cfg);
        assert_eq!(e.triangle_filter(&net, &[s("WETH"), s("USDC"), s("DAI")]), Filtered::Scan);
        assert_eq!(e.triangle_filter(&net, &[s("WETH"), s("USDC"), s("WBTC")]), Filtered::OnlyStables);
        assert_eq!(e.triangle_filter(&net, &[s("USDC"), s("WETH"), s("WBTC")]), Filtered::OnlyStables);
    }
    cfg.strategies[0].only_stables = None;
    cfg.strategies[0].whitelist_pairs =
        Some(vec![[s("WETH"), s("USDC")], [s("DAI"), s("USDC")], [s("DAI"), s("WETH")]]);
    {
        let e = engine(&cfg);
        assert_eq!(e.triangle_filter(&net, &[s("WETH"), s("USDC"), s("DAI")]), Filtered::Scan);
        assert_eq!(
            e.triangle_filter(&net, &[s("WETH"), s("USDC"), s("WBTC")]),
            Filtered::PairNotWhitelisted
        );
    }
    cfg.strategies.clear();
    cfg.global.risk.blacklist_tokens = vec![s(DAI)];
    let e = engine(&cfg);
    assert_eq!(e.triangle_filter(&net, &[s("WETH"), s("USDC"), s("DAI")]), Filtered::Blacklisted);
    assert_eq!(e.triangle_filter(&net, &[s("DAI"), s("USDC"), s("WETH")]), Filtered::Blacklisted);
    // only the first two pairs are held against the blacklist
    assert_eq!(e.triangle_filter(&net, &[s("WETH"), s("USDC"), s("WBTC")]), Filtered::Scan);
}

#[test]
fn scan_walks_routes_then_triangles() {
    let mut net = network();
    net.routes_cross_dex = Some(vec![
        RouteDex { pair: [s("WETH"), s("USDC")], dexes: vec![s("uniswapv2")] },
        RouteDex { pair: [s("USDC"), s("DAI")], dexes: vec![s("uniswapv2"), s("nope")] },
        RouteDex { pair: [s("USDC"), s("DAI")], dexes: vec![s("sushiswap"), s("uniswapv2"), s("x")] },
    ]);
    net.triangles = vec![[s("DAI"), s("USDC"), s("WETH")], [s("USDC"), s("DAI"), s("WETH")]];
    net.strategy_overrides = Some(StrategyOverrides { min_profit_bps: Some(100), slippage_bps: Some(75) });
    let cfg = config(vec![net.clone()], vec![]);
    let mut e = engine(&cfg);
    assert_eq!(e.network_slippage_bps(1), 75);
    assert_eq!(e.network_min_profit_bps(1), 100);
    assert_eq!(e.network_slippage_bps(2), 50);
    assert_eq!(e.network_min_profit_bps(2), 0);
    let steps = run_scan(&mut e, &net, Some((1000, 1011, 1003)), Some(true));
    let kinds: Vec<String> = steps
        .iter()
        .map(|s| match s {
            ScanStep::RouteScanned { index } => format!("scan{index}"),
            ScanStep::QuotePair { index, dex_a, dex_b, slip_bps, amount_in } => {
                format!("quote{index}:{dex_a}-{dex_b}@{slip_bps}/{}", amount_in.to_u128().unwrap())
            }
            ScanStep::TriangleScanned { index } => format!("tri{index}"),
            ScanStep::QuoteTriangle { index, slip_bps, amount_in } => {
                format!("triquote{index}@{slip_bps}/{}", amount_in.to_u128().unwrap())
            }
            ScanStep::Candidate { index, triangle, .. } => format!("cand{index}:{triangle}"),
            ScanStep::Finished { success } => format!("done:{success}"),
            other => format!("{other:?}"),
        })
        .collect();
    assert_eq!(
        kinds,
        vec![
            "scan0",
            "scan1",
            "scan2",
            "quote2:1-0@75/1000000",
            "cand2:false",
            "tri0",
            "triquote0@75/1000000000000000000",
            "cand0:true",
            "tri1",
            "triquote1@75/1000000",
            "cand1:true",
            "done:true",
        ]
    );
}

#[test]
fn scan_passes_over_quotes_below_the_profit_floor() {
    let mut net = network();
    net.strategy_overrides = Some(StrategyOverrides { min_profit_bps: Some(200), slippage_bps: None });
    let cfg = config(vec![net.clone()], vec![]);
    let mut e = engine(&cfg);
    // 1.1% gross profit, floor 2%
    let steps = run_scan(&mut e, &net, Some((1000, 1011, 1003)), Some(true));
    assert!(!steps.iter().any(|s| matches!(s, ScanStep::Candidate { .. })));
    assert!(matches!(steps.last(), Some(ScanStep::Finished { success: false })));
    let mut e = engine(&cfg);
    let steps = run_scan(&mut e, &net, Some((1000, 1020, 1014)), Some(true));
    assert!(steps.iter().any(|s| matches!(s, ScanStep::Candidate { .. })));
}

#[test]
fn meets_min_profit_compares_with_basis_points_of_the_input() {
    assert_eq!(meets_min_profit(u(1000), u(1010), 100), Some(true));
    assert_eq!(meets_min_profit(u(1000), u(1009), 100), Some(false));
    assert_eq!(meets_min_profit(u(1000), u(900), 0), Some(true));
    assert_eq!(meets_min_profit(u(1000), u(900), 1), Some(true));
    assert_eq!(meets_min_profit(u(10_000), u(9_000), 1), Some(false));
    assert_eq!(meets_min_profit(u(999), u(1000), 10), Some(true));
    assert_eq!(meets_min_profit(U256::max_value(), u(1), 2), None);
    assert_eq!(meets_min_profit(U256::max_value(), u(1), 1), Some(false));
}

#[test]
fn scan_breaks_off_on_unknown_tokens_and_stray_events() {
    let mut net = network();
    net.routes_cross_dex = Some(vec![RouteDex {
        pair: [s("WETH"), s("WBTC")],
        dexes: vec![s("uniswapv2"), s("sushiswap")],
    }]);
    let cfg = config(vec![net.clone()], vec![]);
    let mut e = engine(&cfg);
    let steps = run_scan(&mut e, &net, None, None);
    assert!(matches!(steps[0], ScanStep::RouteScanned { index: 0 }));
    assert!(matches!(steps[1], ScanStep::Abort(ScanFault::UnknownToken)));
    // a scan that is broken off leaves the loss record as it was
    assert_eq!(e.pnl.consec_losses, 0);

    let mut wide = network();
    wide.tokens[0].1.decimals = 78;
    let cfg = config(vec![wide.clone()], vec![]);
    let mut e = engine(&cfg);
    let steps = run_scan(&mut e, &wide, None, None);
    assert!(matches!(steps.last(), Some(ScanStep::Abort(ScanFault::Overflow))));

    let net = network();
    let cfg = config(vec![net.clone()], vec![]);
    let mut e = engine(&cfg);
    let (st, _) = e.begin_scan(&net);
    let (st, step) = e.advance_scan(&net, st, ScanEvent::Executed(true));
    assert!(matches!(step, ScanStep::Abort(ScanFault::UnexpectedEvent)));
    assert_eq!(st.phase, ScanPhase::Finished);
    let (_, step) = e.advance_scan(&net, st, ScanEvent::Next);
    assert!(matches!(step, ScanStep::Abort(ScanFault::UnexpectedEvent)));
    let stray = ScanState {
        phase: ScanPhase::RouteCounted,
        index: 5,
        any_success: false,
        slip_bps: 50,
        min_profit_bps: 0,
    };
    let (_, step) = e.advance_scan(&net, stray, ScanEvent::Next);
    assert!(matches!(step, ScanStep::Abort(ScanFault::UnexpectedEvent)));
    assert_eq!(e.pnl.consec_losses, 0);
}

#[test]
fn scan_of_a_chain_without_routes_finishes_at_once() {
    let mut net = network();
    net.routes_cross_dex = None;
    let cfg = config(vec![net.clone()], vec![]);
    let mut e = engine(&cfg);
    let steps = run_scan(&mut e, &net, None, None);
    assert_eq!(steps.len(), 1);
    assert!(matches!(steps[0], ScanStep::Finished { success: false }));
    assert_eq!(e.pnl.consec_losses, 1);
    let _ = PnLTracker::new();
}

#[test]
fn liquidity_hint_uses_the_stable_side_of_the_pool() {
    let cfg = config(vec![network()], vec![]);
    let net = &cfg.networks[0];
    let e = engine(&cfg);
    let floor = U256 { w0: 0, w1: 0, w2: 0, w3: 0 }
        .saturating_sub(U256::zero());
    assert!(floor.is_zero());
    // 1000 USD at 18 decimals
    let at_floor = U256 { w0: 3_875_820_019_684_212_736, w1: 54, w2: 0, w3: 0 };
    assert_eq!(at_floor.to_u128(), Some(1_000_000_000_000_000_000_000u128));
    let below = at_floor.saturating_sub(u(1));
    let check = |r0, r1, t0, t1| e.meets_min_liquidity_hint(net, "WETH", "USDC", r0, r1, t0, t1);
    // without data the check passes
    assert!(check(None, None, None, None));
    assert!(check(Some(below), Some(below), Some(a(USDC)), None));
    assert!(check(None, Some(below), Some(a(USDC)), Some(a(WETH))));
    // the first token is stable: its reserve decides
    assert!(check(Some(at_floor), Some(u(1)), Some(a(USDC)), Some(a(WETH))));
    assert!(!check(Some(below), Some(at_floor), Some(a(USDC)), Some(a(WETH))));
    // the second token is stable
    assert!(check(Some(u(1)), Some(at_floor), Some(a(WETH)), Some(a(DAI))));
    assert!(!check(Some(at_floor), Some(below), Some(a(WETH)), Some(a(DAI))));
    // no stable side: passes
    assert!(check(Some(u(1)), Some(u(1)), Some(a(WETH)), Some(a(ROUTER_A))));
}
