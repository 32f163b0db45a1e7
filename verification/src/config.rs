//! The configuration that the engine runs on: chains, exchanges, pairs and
//! routes, risk limits, the circuit-breaker policy and execution settings.
//! Values arrive already parsed; this module holds them, normalizes them
//! and decides whether they are fit to run on.

use vstd::prelude::*;
use vstd::string::*;
use vstd::utf8::encode_utf8;
use crate::text::{eq_ignore_ascii_case, same_ignoring_ascii_case, to_uppercase, trim, trimmed_text, uppercase_text};
use crate::utils::{first_from, first_some, first_where, hex_addr_bytes, is_hex_digit};

verus! {

/// The whole configuration.
#[derive(Clone, Debug)]
pub struct Config {
    pub version: String,
    pub created_at: String,
    pub notes: Option<String>,
    pub global: Global,
    pub networks: Vec<Network>,
    pub strategies: Vec<Strategy>,
    pub routing: Routing,
    pub safety: Safety,
    pub telemetry: Telemetry,
}

/// Settings that hold for every chain.
#[derive(Clone, Debug)]
pub struct Global {
    pub quote: Quote,
    pub risk: Risk,
    pub mev: Mev,
    pub flashloan: Flashloan,
    pub execution: Execution,
}

/// How quotes are taken.
#[derive(Clone, Debug)]
pub struct Quote {
    pub method_order: Vec<String>,
    pub tick_liquidity_sample: Option<u32>,
    pub slippage_bps_default: u32,
    pub gas_price_mode: String,
    pub deadline_seconds: u32,
}

/// Risk limits.
#[derive(Clone, Debug)]
pub struct Risk {
    pub min_liquidity_usd: u64,
    pub max_price_impact_bps: u32,
    /// Symbols of the tokens that count as stable.
    pub stables: Vec<String>,
    /// Addresses of the tokens that must not be traded.
    pub blacklist_tokens: Vec<String>,
    pub fee_on_transfer_block: bool,
    pub rebase_token_block: bool,
    /// Address of the shared-allowance contract, or empty.
    pub permit2: String,
}

/// Private-submission settings.
#[derive(Clone, Debug)]
pub struct Mev {
    pub private_tx: bool,
    pub nonce_randomize: bool,
    pub max_backrun_blocks: u32,
    /// Builder name and its endpoints, each name once.
    pub builders: Vec<(String, Vec<String>)>,
}

/// Flash-loan settings.
#[derive(Clone, Debug)]
pub struct Flashloan {
    pub use_uniswap_v3_flash: bool,
    pub use_balancer_flash: bool,
}

/// Execution policy.
#[derive(Clone, Debug)]
pub struct Execution {
    pub block_range_back: u32,
    pub poll_interval_ms: u32,
    pub priority_fee: String,
    pub max_concurrent_txs: u32,
    pub revert_retry: u32,
    pub approve_spend_on_start: bool,
    pub auto_scale_notional: bool,
}

/// One chain.
#[derive(Clone, Debug)]
pub struct Network {
    pub id: String,
    pub name: String,
    pub chain_id: u64,
    pub native_symbol: String,
    /// RPC endpoints, in order of preference.
    pub rpc: Vec<String>,
    pub explorer: Option<String>,
    /// Token symbol and description, each symbol once.
    pub tokens: Vec<(String, Token)>,
    pub dexes: Vec<DexConfig>,
    pub pairs: Vec<[String; 2]>,
    pub triangles: Vec<[String; 3]>,
    pub routes_cross_dex: Option<Vec<RouteDex>>,
    pub strategy_overrides: Option<StrategyOverrides>,
}

/// One token of a chain.
#[derive(Clone, Debug)]
pub struct Token {
    pub address: String,
    pub decimals: u8,
    pub optional: bool,
}

/// One exchange of a chain.
#[derive(Clone, Debug)]
pub struct DexConfig {
    pub name: String,
    /// Protocol kind: `v2`, `v3`, or a name that begins with `solidly`.
    pub dex_type: String,
    pub factory: Option<String>,
    pub router: Option<String>,
    pub smart_router: Option<String>,
    pub swap_router02: Option<String>,
    pub universal_router: Option<String>,
    pub quoter_v2_hint: Option<bool>,
    pub fee_tiers_bps: Option<Vec<u32>>,
    pub stable_pools: Option<bool>,
}

/// A pair and the exchanges to trade it across, in order.
#[derive(Clone, Debug)]
pub struct RouteDex {
    pub pair: [String; 2],
    pub dexes: Vec<String>,
}

/// Per-chain replacements for strategy defaults.
#[derive(Clone, Copy, Debug)]
pub struct StrategyOverrides {
    pub min_profit_bps: Option<u32>,
    pub slippage_bps: Option<u32>,
}

/// One trading strategy.
#[derive(Clone, Debug)]
pub struct Strategy {
    pub name: String,
    pub description: String,
    pub min_profit_bps: u32,
    pub slippage_bps: u32,
    pub gas_limit: u64,
    pub use_flash: Option<bool>,
    pub max_route_hops: Option<u32>,
    pub search_space: Option<String>,
    /// Trade only pairs with a stable token on at least one side.
    pub only_stables: Option<bool>,
    /// Trade only across these exchanges.
    pub whitelist_dexes: Option<Vec<String>>,
    /// Trade only these pairs, in either order.
    pub whitelist_pairs: Option<Vec<[String; 2]>>,
}

/// Route search settings.
#[derive(Clone, Debug)]
pub struct Routing {
    pub price_simulation: PriceSim,
    pub route_templates: Vec<RouteTemplate>,
}

/// Price simulation settings.
#[derive(Clone, Copy, Debug)]
pub struct PriceSim {
    pub slippage_checks: bool,
    pub virtual_reserves_boost_bps: u32,
    pub max_split_paths: u32,
}

/// A shape of route to search for.
#[derive(Clone, Debug)]
pub struct RouteTemplate {
    pub typ: String,
    pub max_hops: u32,
    pub legs: Option<u32>,
}

/// Safety policy.
#[derive(Clone, Copy, Debug)]
pub struct Safety {
    pub allow_revert_on_no_profit: bool,
    pub halt_on_large_slippage_bps: u32,
    pub circuit_breaker: CircuitBreaker,
}

/// When to stop trading on a chain, and for how long.
#[derive(Clone, Copy, Debug)]
pub struct CircuitBreaker {
    pub max_losses_in_row: u32,
    pub cooldown_sec: u64,
}

/// Observability settings.
#[derive(Clone, Debug)]
pub struct Telemetry {
    pub prometheus: PrometheusCfg,
    pub logs: LogsCfg,
    pub alerts: AlertsCfg,
}

/// Metrics endpoint settings.
#[derive(Clone, Copy, Debug)]
pub struct PrometheusCfg {
    pub enabled: bool,
    pub port: u16,
}

/// Logging settings.
#[derive(Clone, Debug)]
pub struct LogsCfg {
    pub level: String,
    pub json: bool,
}

/// Alerting settings.
#[derive(Clone, Debug)]
pub struct AlertsCfg {
    pub email: bool,
    pub tg_bot: bool,
    pub webhook_url: Option<String>,
    pub tg_token: Option<String>,
    pub tg_chat_id: Option<String>,
}

/// Slippage tolerance, in basis points, where the configuration names none.
pub fn default_slippage_bps() -> (r: u32)
    ensures
        r == 50,
{
    50
}

/// Gas pricing mode where the configuration names none.
pub fn default_gas_mode() -> (r: String)
    ensures
        r@ == "eip1559"@,
{
    String::from_str("eip1559")
}

/// Transaction deadline, in seconds, where the configuration names none.
pub fn default_deadline() -> (r: u32)
    ensures
        r == 120,
{
    120
}

/// Pause between scans, in milliseconds, where the configuration names none.
pub fn default_poll_ms() -> (r: u32)
    ensures
        r == 1500,
{
    1500
}

/// Priority fee setting where the configuration names none.
pub fn default_priority_fee() -> (r: String)
    ensures
        r@ == "auto"@,
{
    String::from_str("auto")
}

/// Number of transactions in flight where the configuration names none.
pub fn default_max_conc() -> (r: u32)
    ensures
        r == 4,
{
    4
}

/// Retries after a revert where the configuration names none.
pub fn default_revert_retry() -> (r: u32)
    ensures
        r == 1,
{
    1
}

/// Port of the metrics endpoint where the configuration names none.
pub fn default_prom_port() -> (r: u16)
    ensures
        r == 9090,
{
    9090
}

/// Log level where the configuration names none.
pub fn default_log_level() -> (r: String)
    ensures
        r@ == "info"@,
{
    String::from_str("info")
}

impl Config {
    /// The first RPC endpoint of a chain.
    pub fn primary_rpc<'a>(&self, net: &'a Network) -> (r: &'a str)
        requires
            net.rpc@.len() > 0,
        ensures
            r@ == net.rpc@[0]@,
    {
        net.rpc[0].as_str()
    }
}

/// Where the token with the given symbol stands in a token list: the
/// first entry whose symbol is exactly `key`.
pub open spec fn token_position(tokens: Seq<(String, Token)>, key: Seq<char>) -> Option<int> {
    first_where(tokens, |e: (String, Token)| e.0@ == key)
}

/// Where the exchange with the given name stands in an exchange list.
pub open spec fn dex_position(dexes: Seq<DexConfig>, name: Seq<char>) -> Option<int> {
    first_where(dexes, |d: DexConfig| d.name@ == name)
}

impl Network {
    /// The position of the token whose symbol is exactly `key`.
    pub fn token_index(&self, key: &str) -> (r: Option<usize>)
        ensures
            match r {
                Some(i) => token_position(self.tokens@, key@) == Some(i as int) && i
                    < self.tokens@.len(),
                None => token_position(self.tokens@, key@) is None,
            },
    {
        let wanted = String::from_str(key);
        let ghost pred = |e: (String, Token)| e.0@ == key@;
        let mut i: usize = 0;
        while i < self.tokens.len()
            invariant
                i <= self.tokens@.len(),
                wanted@ == key@,
                pred == (|e: (String, Token)| e.0@ == key@),
                first_from(self.tokens@, pred, 0) == first_from(self.tokens@, pred, i as int),
            decreases self.tokens@.len() - i,
        {
            if self.tokens[i].0 == wanted {
                return Some(i);
            }
            i += 1;
        }
        None
    }

    /// The position of the exchange whose name is exactly `name`.
    pub fn dex_index(&self, name: &str) -> (r: Option<usize>)
        ensures
            match r {
                Some(i) => dex_position(self.dexes@, name@) == Some(i as int) && i
                    < self.dexes@.len(),
                None => dex_position(self.dexes@, name@) is None,
            },
    {
        let wanted = String::from_str(name);
        let ghost pred = |d: DexConfig| d.name@ == name@;
        let mut i: usize = 0;
        while i < self.dexes.len()
            invariant
                i <= self.dexes@.len(),
                wanted@ == name@,
                pred == (|d: DexConfig| d.name@ == name@),
                first_from(self.dexes@, pred, 0) == first_from(self.dexes@, pred, i as int),
            decreases self.dexes@.len() - i,
        {
            if self.dexes[i].name == wanted {
                return Some(i);
            }
            i += 1;
        }
        None
    }
}


/// Why a configuration is not fit to run on.  Positions count from zero.
#[derive(Clone, Copy, Debug, PartialEq, Eq, Structural)]
pub enum ConfigFault {
    /// There is no chain at all.
    NoNetworks,
    /// The strategy at `index` has the name of an earlier one.
    DuplicateStrategy { index: usize },
    /// The strategy at `index` allows more than 5000 bps of slippage.
    StrategySlippage { index: usize },
    /// The chain at `network` has a blank identifier or name.
    NetworkIdOrName { network: usize },
    /// The chain at `network` has no RPC endpoint.
    NoRpc { network: usize },
    /// The token at `token` has an address that is not `0x` and forty
    /// hexadecimal digits.
    TokenAddress { network: usize, token: usize },
    /// The token at `token` has more than 30 decimals.
    TokenDecimals { network: usize, token: usize },
    /// The pair at `pair` names a token that the chain does not list.
    PairToken { network: usize, pair: usize },
    /// The triangle at `triangle` names a token that the chain does not list.
    TriangleToken { network: usize, triangle: usize },
    /// The exchange at `dex` has a blank name or type.
    DexNameOrType { network: usize, dex: usize },
    /// The default slippage is more than 5000 bps.
    DefaultSlippage,
    /// The shared-allowance address is neither empty nor an address.
    Permit2,
    /// Fewer than five chains, where the strict check asks for five.
    TooFewNetworks,
}

/// The most slippage that a configuration may allow, in basis points.
pub const MAX_SLIPPAGE_BPS: u32 = 5_000;

/// The most decimals that a token may have.
pub const MAX_DECIMALS: u8 = 30;

/// The number of chains that the strict check asks for.
pub const STRICT_MIN_NETWORKS: usize = 5;

/// Whether a text, without the whitespace around it, spells an address.
pub open spec fn is_hex_addr_spec(s: Seq<char>) -> bool {
    hex_addr_bytes(encode_utf8(trimmed_text(s)))
}

/// Whether a text is nothing but whitespace.
pub open spec fn is_blank(s: Seq<char>) -> bool {
    trimmed_text(s).len() == 0
}

/// Whether an earlier strategy has the name of the one at `i`.
pub open spec fn name_seen_before(strategies: Seq<Strategy>, i: int) -> bool {
    exists|j: int| 0 <= j < i && (#[trigger] strategies[j]).name@ == strategies[i].name@
}

/// What is wrong with the strategy at `i`, if anything.
pub open spec fn strategy_fault(strategies: Seq<Strategy>, i: int) -> Option<ConfigFault> {
    if name_seen_before(strategies, i) {
        Some(ConfigFault::DuplicateStrategy { index: i as usize })
    } else if strategies[i].slippage_bps > 5_000 {
        Some(ConfigFault::StrategySlippage { index: i as usize })
    } else {
        None
    }
}

/// What is wrong with the token at `k` of the chain at `n`, if anything.
pub open spec fn token_fault(net: Network, n: int, k: int) -> Option<ConfigFault> {
    if !is_hex_addr_spec(net.tokens@[k].1.address@) {
        Some(ConfigFault::TokenAddress { network: n as usize, token: k as usize })
    } else if net.tokens@[k].1.decimals > 30 {
        Some(ConfigFault::TokenDecimals { network: n as usize, token: k as usize })
    } else {
        None
    }
}

/// Whether the chain lists a token under exactly this symbol.
pub open spec fn has_token(net: Network, sym: Seq<char>) -> bool {
    token_position(net.tokens@, sym) is Some
}

/// What is wrong with the pair at `k` of the chain at `n`, if anything.
pub open spec fn pair_fault(net: Network, n: int, k: int) -> Option<ConfigFault> {
    if !has_token(net, net.pairs@[k][0]@) || !has_token(net, net.pairs@[k][1]@) {
        Some(ConfigFault::PairToken { network: n as usize, pair: k as usize })
    } else {
        None
    }
}

/// What is wrong with the triangle at `k` of the chain at `n`, if anything.
pub open spec fn triangle_fault(net: Network, n: int, k: int) -> Option<ConfigFault> {
    if !has_token(net, net.triangles@[k][0]@) || !has_token(net, net.triangles@[k][1]@)
        || !has_token(net, net.triangles@[k][2]@) {
        Some(ConfigFault::TriangleToken { network: n as usize, triangle: k as usize })
    } else {
        None
    }
}

/// What is wrong with the exchange at `k` of the chain at `n`, if anything.
pub open spec fn dex_fault(net: Network, n: int, k: int) -> Option<ConfigFault> {
    if is_blank(net.dexes@[k].dex_type@) || is_blank(net.dexes@[k].name@) {
        Some(ConfigFault::DexNameOrType { network: n as usize, dex: k as usize })
    } else {
        None
    }
}

/// What is wrong with the chain at `n`, if anything: its identifier and
/// name, then its endpoints, its tokens, its pairs, its triangles and its
/// exchanges, each list in order.
pub open spec fn network_fault(net: Network, n: int) -> Option<ConfigFault> {
    let in_tokens = first_some(net.tokens@.len() as int, |k: int| token_fault(net, n, k), 0);
    let in_pairs = first_some(net.pairs@.len() as int, |k: int| pair_fault(net, n, k), 0);
    let in_triangles = first_some(
        net.triangles@.len() as int,
        |k: int| triangle_fault(net, n, k),
        0,
    );
    let in_dexes = first_some(net.dexes@.len() as int, |k: int| dex_fault(net, n, k), 0);
    if is_blank(net.id@) || is_blank(net.name@) {
        Some(ConfigFault::NetworkIdOrName { network: n as usize })
    } else if net.rpc@.len() == 0 {
        Some(ConfigFault::NoRpc { network: n as usize })
    } else if in_tokens is Some {
        in_tokens
    } else if in_pairs is Some {
        in_pairs
    } else if in_triangles is Some {
        in_triangles
    } else {
        in_dexes
    }
}

/// What is wrong with a configuration, if anything: the first fault in
/// the order in which the checks are made.
pub open spec fn config_fault(cfg: Config) -> Option<ConfigFault> {
    let in_strategies = first_some(
        cfg.strategies@.len() as int,
        |i: int| strategy_fault(cfg.strategies@, i),
        0,
    );
    let in_networks = first_some(
        cfg.networks@.len() as int,
        |n: int| network_fault(cfg.networks@[n], n),
        0,
    );
    if cfg.networks@.len() == 0 {
        Some(ConfigFault::NoNetworks)
    } else if in_strategies is Some {
        in_strategies
    } else if in_networks is Some {
        in_networks
    } else if cfg.global.quote.slippage_bps_default > 5_000 {
        Some(ConfigFault::DefaultSlippage)
    } else if cfg.global.risk.permit2@.len() != 0 && !is_hex_addr_spec(cfg.global.risk.permit2@) {
        Some(ConfigFault::Permit2)
    } else {
        None
    }
}

/// What is wrong with a configuration under the strict check.
pub open spec fn strict_config_fault(cfg: Config) -> Option<ConfigFault> {
    if config_fault(cfg) is Some {
        config_fault(cfg)
    } else if cfg.networks@.len() < 5 {
        Some(ConfigFault::TooFewNetworks)
    } else {
        None
    }
}

/// Whether a text, without the whitespace around it, spells an address:
/// `0x`, then forty hexadecimal digits.
pub fn is_hex_addr(s: &str) -> (r: bool)
    ensures
        r == is_hex_addr_spec(s@),
{
    let t = trim(s);
    let b = t.as_bytes();
    if b.len() != 42 {
        return false;
    }
    if b[0] != 0x30 || b[1] != 0x78 {
        return false;
    }
    let mut i: usize = 2;
    while i < 42
        invariant
            2 <= i <= 42,
            b@.len() == 42,
            b@ == encode_utf8(trimmed_text(s@)),
            b@[0] == 0x30 && b@[1] == 0x78,
            forall|j: int| 2 <= j < i ==> is_hex_digit(#[trigger] b@[j]),
        decreases 42 - i,
    {
        let c = b[i];
        let digit = (0x30 <= c && c <= 0x39) || (0x41 <= c && c <= 0x46) || (0x61 <= c && c
            <= 0x66);
        if !digit {
            assert(!is_hex_digit(b@[i as int]));
            return false;
        }
        i += 1;
    }
    true
}

/// Whether a text is nothing but whitespace.
pub fn blank(s: &str) -> (r: bool)
    ensures
        r == is_blank(s@),
{
    trim(s).is_empty()
}

fn check_strategies(strategies: &Vec<Strategy>) -> (r: Option<ConfigFault>)
    ensures
        r == first_some(strategies@.len() as int, |i: int| strategy_fault(strategies@, i), 0),
{
    let ghost probe = |i: int| strategy_fault(strategies@, i);
    let mut i: usize = 0;
    while i < strategies.len()
        invariant
            i <= strategies@.len(),
            probe == (|i: int| strategy_fault(strategies@, i)),
            first_some(strategies@.len() as int, probe, 0) == first_some(
                strategies@.len() as int,
                probe,
                i as int,
            ),
        decreases strategies@.len() - i,
    {
        let mut j: usize = 0;
        let mut seen = false;
        while j < i
            invariant
                j <= i,
                i < strategies@.len(),
                seen == exists|k: int|
                    0 <= k < j && (#[trigger] strategies@[k]).name@ == strategies@[i as int].name@,
            decreases i - j,
        {
            if strategies[j].name == strategies[i].name {
                seen = true;
            }
            j += 1;
        }
        if seen {
            return Some(ConfigFault::DuplicateStrategy { index: i });
        }
        if strategies[i].slippage_bps > MAX_SLIPPAGE_BPS {
            return Some(ConfigFault::StrategySlippage { index: i });
        }
        assert(probe(i as int) is None);
        i += 1;
    }
    None
}

fn check_tokens(net: &Network, n: usize) -> (r: Option<ConfigFault>)
    ensures
        r == first_some(net.tokens@.len() as int, |k: int| token_fault(*net, n as int, k), 0),
{
    let ghost probe = |k: int| token_fault(*net, n as int, k);
    let mut k: usize = 0;
    while k < net.tokens.len()
        invariant
            k <= net.tokens@.len(),
            probe == (|k: int| token_fault(*net, n as int, k)),
            first_some(net.tokens@.len() as int, probe, 0) == first_some(
                net.tokens@.len() as int,
                probe,
                k as int,
            ),
        decreases net.tokens@.len() - k,
    {
        if !is_hex_addr(net.tokens[k].1.address.as_str()) {
            return Some(ConfigFault::TokenAddress { network: n, token: k });
        }
        if net.tokens[k].1.decimals > MAX_DECIMALS {
            return Some(ConfigFault::TokenDecimals { network: n, token: k });
        }
        assert(probe(k as int) is None);
        k += 1;
    }
    None
}

fn check_pairs(net: &Network, n: usize) -> (r: Option<ConfigFault>)
    ensures
        r == first_some(net.pairs@.len() as int, |k: int| pair_fault(*net, n as int, k), 0),
{
    let ghost probe = |k: int| pair_fault(*net, n as int, k);
    let mut k: usize = 0;
    while k < net.pairs.len()
        invariant
            k <= net.pairs@.len(),
            probe == (|k: int| pair_fault(*net, n as int, k)),
            first_some(net.pairs@.len() as int, probe, 0) == first_some(
                net.pairs@.len() as int,
                probe,
                k as int,
            ),
        decreases net.pairs@.len() - k,
    {
        let p = &net.pairs[k];
        if net.token_index(p[0].as_str()).is_none() || net.token_index(p[1].as_str()).is_none() {
            return Some(ConfigFault::PairToken { network: n, pair: k });
        }
        assert(probe(k as int) is None);
        k += 1;
    }
    None
}

fn check_triangles(net: &Network, n: usize) -> (r: Option<ConfigFault>)
    ensures
        r == first_some(net.triangles@.len() as int, |k: int| triangle_fault(*net, n as int, k), 0),
{
    let ghost probe = |k: int| triangle_fault(*net, n as int, k);
    let mut k: usize = 0;
    while k < net.triangles.len()
        invariant
            k <= net.triangles@.len(),
            probe == (|k: int| triangle_fault(*net, n as int, k)),
            first_some(net.triangles@.len() as int, probe, 0) == first_some(
                net.triangles@.len() as int,
                probe,
                k as int,
            ),
        decreases net.triangles@.len() - k,
    {
        let t = &net.triangles[k];
        if net.token_index(t[0].as_str()).is_none() || net.token_index(t[1].as_str()).is_none()
            || net.token_index(t[2].as_str()).is_none() {
            return Some(ConfigFault::TriangleToken { network: n, triangle: k });
        }
        assert(probe(k as int) is None);
        k += 1;
    }
    None
}

fn check_dexes(net: &Network, n: usize) -> (r: Option<ConfigFault>)
    ensures
        r == first_some(net.dexes@.len() as int, |k: int| dex_fault(*net, n as int, k), 0),
{
    let ghost probe = |k: int| dex_fault(*net, n as int, k);
    let mut k: usize = 0;
    while k < net.dexes.len()
        invariant
            k <= net.dexes@.len(),
            probe == (|k: int| dex_fault(*net, n as int, k)),
            first_some(net.dexes@.len() as int, probe, 0) == first_some(
                net.dexes@.len() as int,
                probe,
                k as int,
            ),
        decreases net.dexes@.len() - k,
    {
        if blank(net.dexes[k].dex_type.as_str()) || blank(net.dexes[k].name.as_str()) {
            return Some(ConfigFault::DexNameOrType { network: n, dex: k });
        }
        assert(probe(k as int) is None);
        k += 1;
    }
    None
}

fn check_network(net: &Network, n: usize) -> (r: Option<ConfigFault>)
    ensures
        r == network_fault(*net, n as int),
{
    if blank(net.id.as_str()) || blank(net.name.as_str()) {
        return Some(ConfigFault::NetworkIdOrName { network: n });
    }
    if net.rpc.len() == 0 {
        return Some(ConfigFault::NoRpc { network: n });
    }
    let in_tokens = check_tokens(net, n);
    if in_tokens.is_some() {
        return in_tokens;
    }
    let in_pairs = check_pairs(net, n);
    if in_pairs.is_some() {
        return in_pairs;
    }
    let in_triangles = check_triangles(net, n);
    if in_triangles.is_some() {
        return in_triangles;
    }
    check_dexes(net, n)
}

fn check_networks(networks: &Vec<Network>) -> (r: Option<ConfigFault>)
    ensures
        r == first_some(networks@.len() as int, |n: int| network_fault(networks@[n], n), 0),
{
    let ghost probe = |n: int| network_fault(networks@[n], n);
    let mut n: usize = 0;
    while n < networks.len()
        invariant
            n <= networks@.len(),
            probe == (|n: int| network_fault(networks@[n], n)),
            first_some(networks@.len() as int, probe, 0) == first_some(
                networks@.len() as int,
                probe,
                n as int,
            ),
        decreases networks@.len() - n,
    {
        let fault = check_network(&networks[n], n);
        if fault.is_some() {
            return fault;
        }
        assert(probe(n as int) is None);
        n += 1;
    }
    None
}

impl Config {
    /// Decides whether the configuration is fit to run on, and if not,
    /// names the first fault.
    pub fn validate(&self) -> (r: Result<(), ConfigFault>)
        ensures
            match r {
                Ok(_) => config_fault(*self) is None,
                Err(fault) => config_fault(*self) == Some(fault),
            },
    {
        if self.networks.len() == 0 {
            return Err(ConfigFault::NoNetworks);
        }
        match check_strategies(&self.strategies) {
            Some(fault) => {
                return Err(fault);
            },
            None => {},
        }
        match check_networks(&self.networks) {
            Some(fault) => {
                return Err(fault);
            },
            None => {},
        }
        if self.global.quote.slippage_bps_default > MAX_SLIPPAGE_BPS {
            return Err(ConfigFault::DefaultSlippage);
        }
        if !self.global.risk.permit2.as_str().is_empty() && !is_hex_addr(
            self.global.risk.permit2.as_str(),
        ) {
            return Err(ConfigFault::Permit2);
        }
        Ok(())
    }

    /// The check for production: a valid configuration of at least five
    /// chains.
    pub fn validate_strict(&self) -> (r: Result<(), ConfigFault>)
        ensures
            match r {
                Ok(_) => strict_config_fault(*self) is None,
                Err(fault) => strict_config_fault(*self) == Some(fault),
            },
    {
        match self.validate() {
            Err(fault) => {
                return Err(fault);
            },
            Ok(_) => {},
        }
        if self.networks.len() < STRICT_MIN_NETWORKS {
            return Err(ConfigFault::TooFewNetworks);
        }
        Ok(())
    }

    /// The first chain whose identifier or name is `id_or_name`,
    /// regardless of ASCII case.
    pub fn network(&self, id_or_name: &str) -> (r: Option<&Network>)
        ensures
            match r {
                Some(n) => named_network(*self, id_or_name@) matches Some(i) && *n
                    == self.networks@[i],
                None => named_network(*self, id_or_name@) is None,
            },
    {
        let ghost pred = |n: Network|
            same_ignoring_ascii_case(n.id@, id_or_name@) || same_ignoring_ascii_case(
                n.name@,
                id_or_name@,
            );
        let mut i: usize = 0;
        while i < self.networks.len()
            invariant
                i <= self.networks@.len(),
                pred == (|n: Network|
                    same_ignoring_ascii_case(n.id@, id_or_name@) || same_ignoring_ascii_case(
                        n.name@,
                        id_or_name@,
                    )),
                first_from(self.networks@, pred, 0) == first_from(self.networks@, pred, i as int),
            decreases self.networks@.len() - i,
        {
            let n = &self.networks[i];
            if eq_ignore_ascii_case(n.id.as_str(), id_or_name) || eq_ignore_ascii_case(
                n.name.as_str(),
                id_or_name,
            ) {
                return Some(n);
            }
            i += 1;
        }
        None
    }

    /// The address text of the token that a chain lists under the
    /// upper-case form of `symbol`.
    pub fn token_addr<'a>(&self, net: &'a Network, symbol: &str) -> (r: Option<&'a str>)
        ensures
            match r {
                Some(a) => token_position(net.tokens@, uppercase_text(symbol@)) matches Some(i)
                    && a@ == net.tokens@[i].1.address@,
                None => token_position(net.tokens@, uppercase_text(symbol@)) is None,
            },
    {
        let key = to_uppercase(symbol);
        match net.token_index(key.as_str()) {
            Some(i) => Some(net.tokens[i].1.address.as_str()),
            None => None,
        }
    }
}

/// Where the first chain with the given identifier or name stands.
pub open spec fn named_network(cfg: Config, id_or_name: Seq<char>) -> Option<int> {
    first_where(
        cfg.networks@,
        |n: Network|
            same_ignoring_ascii_case(n.id@, id_or_name) || same_ignoring_ascii_case(
                n.name@,
                id_or_name,
            ),
    )
}


/// Whether a fee tier is one of the common ones: 100, 250, 500, 1000,
/// 3000 or 10000.
pub open spec fn is_common_fee_tier(fee: u32) -> bool {
    fee == 100 || fee == 250 || fee == 500 || fee == 1000 || fee == 3000 || fee == 10_000
}

/// Whether the fee tiers of an exchange are looked at: its type is `v3`
/// or `v3_algebra`, in any case.
pub open spec fn has_fee_tiers(dex: DexConfig) -> bool {
    same_ignoring_ascii_case(dex.dex_type@, "v3"@) || same_ignoring_ascii_case(
        dex.dex_type@,
        "v3_algebra"@,
    )
}

/// The uncommon ones among the first `n` fee tiers of a list, in order.
pub open spec fn uncommon_upto(tiers: Seq<u32>, n: int) -> Seq<u32>
    decreases n,
{
    if n <= 0 {
        Seq::empty()
    } else if is_common_fee_tier(tiers[n - 1]) {
        uncommon_upto(tiers, n - 1)
    } else {
        uncommon_upto(tiers, n - 1).push(tiers[n - 1])
    }
}

/// The fee tiers of an exchange that are worth a warning: the uncommon
/// ones of a concentrated-liquidity exchange, in their order.  They do not
/// make a configuration unfit.
pub open spec fn uncommon_fee_tiers_spec(dex: DexConfig) -> Seq<u32> {
    if has_fee_tiers(dex) && dex.fee_tiers_bps is Some {
        uncommon_upto(dex.fee_tiers_bps->0@, dex.fee_tiers_bps->0@.len() as int)
    } else {
        Seq::empty()
    }
}

/// The fee tiers of an exchange that are worth a warning.
pub fn uncommon_fee_tiers(dex: &DexConfig) -> (r: Vec<u32>)
    ensures
        r@ == uncommon_fee_tiers_spec(*dex),
{
    let mut r: Vec<u32> = Vec::new();
    let looked_at = eq_ignore_ascii_case(dex.dex_type.as_str(), "v3") || eq_ignore_ascii_case(
        dex.dex_type.as_str(),
        "v3_algebra",
    );
    if !looked_at {
        return r;
    }
    match &dex.fee_tiers_bps {
        Some(tiers) => {
            let mut i: usize = 0;
            while i < tiers.len()
                invariant
                    i <= tiers@.len(),
                    r@ == uncommon_upto(tiers@, i as int),
                decreases tiers@.len() - i,
            {
                let f = tiers[i];
                let common = f == 100 || f == 250 || f == 500 || f == 1000 || f == 3000 || f
                    == 10_000;
                if !common {
                    r.push(f);
                }
                i += 1;
            }
        },
        None => {},
    }
    r
}

} // verus!
