//! What keeps the engine from trading: the loss record with its cooldown
//! and its circuit breaker, the blacklist, the strategy's allow-lists and
//! the liquidity floor.

use vstd::prelude::*;
use vstd::string::*;
use std::time::Duration;
use std::time::Instant;
use crate::address::Address;
use crate::config::{token_position, Config, Network, Token};
use crate::text::{eq_ignore_ascii_case, same_ignoring_ascii_case, to_uppercase, uppercase_text};
use crate::uint::U256;
use crate::utils::{copy_strings, first_from, first_where, parse_addr, parsed_address};

verus! {

#[verifier::external_type_specification]
#[verifier::external_body]
pub struct ExInstant(std::time::Instant);

/// Nanoseconds in one second.
pub const NANOS_PER_SEC: u128 = 1_000_000_000;

/// Consecutive losses and the moment of the last one.
#[derive(Clone, Debug)]
pub struct PnLTracker {
    pub consec_losses: u32,
    pub last_loss_ts: Option<Instant>,
}

/// What the guard decides for one scan of a chain.
#[derive(Clone, Copy, Debug, PartialEq, Eq, Structural)]
pub enum ScanGuard {
    /// Trading is allowed.
    Proceed,
    /// A loss is too recent; `remaining_sec` whole seconds of the window are left.
    Cooldown { remaining_sec: u64 },
    /// The run of losses has reached the configured maximum and the window
    /// since the last of them has not passed; `remaining_sec` whole seconds of
    /// it are left, the whole window where no loss is on record.
    Tripped { remaining_sec: u64 },
}

/// The loss counter after one more loss: one higher, but never past the
/// largest 32-bit number.
pub open spec fn next_loss_count(count: u32) -> u32 {
    if count == u32::MAX {
        count
    } else {
        (count + 1) as u32
    }
}

/// The loss counter after `n` losses in a row.
pub open spec fn losses_after(count: u32, n: nat) -> u32
    decreases n,
{
    if n == 0 {
        count
    } else {
        next_loss_count(losses_after(count, (n - 1) as nat))
    }
}

/// Whether the cooldown window is open: there has been a loss since the
/// last success, and less than `cooldown_sec` seconds have passed since the
/// last loss.  `elapsed_nanos` is the time since that loss, absent when no
/// loss is on record.
pub open spec fn cooldown_active(consec_losses: u32, elapsed_nanos: Option<u128>, cooldown_sec: u64) -> bool {
    consec_losses != 0 && elapsed_nanos is Some && elapsed_nanos->0 < cooldown_sec * 1_000_000_000
}

/// Whole seconds of the cooldown window that are left.
pub open spec fn cooldown_remaining(elapsed_nanos: Option<u128>, cooldown_sec: u64) -> int {
    match elapsed_nanos {
        Some(e) => if e / 1_000_000_000 >= cooldown_sec {
            0
        } else {
            cooldown_sec - e / 1_000_000_000
        },
        None => cooldown_sec as int,
    }
}

/// Whether the window since the last loss has passed: a loss is on
/// record, and at least `cooldown_sec` seconds have gone by since.
pub open spec fn window_passed(elapsed_nanos: Option<u128>, cooldown_sec: u64) -> bool {
    elapsed_nanos is Some && elapsed_nanos->0 >= cooldown_sec * 1_000_000_000
}

/// The guard.
///
/// The circuit breaker is tripped when the run of losses has reached the
/// configured maximum, and stays so until the window since the last loss
/// has passed; then the guard lets the scan proceed again, by time alone.
/// Below the maximum, a loss closes the guard as a cooldown for as long as
/// the window since it is open.
///
/// Recovery leaves the count of losses as it is; only a successful
/// execution clears it.  So after a recovery one more loss trips the
/// breaker again for a whole window.  A window of no length has passed as
/// soon as there is a loss: with `cooldown_sec` at zero no loss closes the
/// guard.  Without a loss on record there is nothing to recover from: a
/// count at the maximum — which a maximum of zero is from the start —
/// keeps the breaker tripped.
pub open spec fn scan_guard_spec(
    consec_losses: u32,
    elapsed_nanos: Option<u128>,
    cooldown_sec: u64,
    max_losses_in_row: u32,
) -> ScanGuard {
    if consec_losses >= max_losses_in_row && !window_passed(elapsed_nanos, cooldown_sec) {
        ScanGuard::Tripped { remaining_sec: cooldown_remaining(elapsed_nanos, cooldown_sec) as u64 }
    } else if cooldown_active(consec_losses, elapsed_nanos, cooldown_sec) {
        ScanGuard::Cooldown { remaining_sec: cooldown_remaining(elapsed_nanos, cooldown_sec) as u64 }
    } else {
        ScanGuard::Proceed
    }
}

/// Reads the monotonic clock with `Instant::now`.  Nothing is known of
/// the reading.
#[verifier::external_body]
fn clock_now() -> Instant {
    Instant::now()
}

/// Time passed since `since`, by `Instant::elapsed`.  Nothing is known of it.
#[verifier::external_body]
fn clock_elapsed(since: &Instant) -> Duration {
    since.elapsed()
}

/// The length of a duration in nanoseconds, by `Duration::as_nanos`.
/// Nothing is claimed of the number.
#[verifier::external_body]
fn duration_nanos(d: &Duration) -> u128 {
    d.as_nanos()
}

/// Whether the cooldown window is open, `elapsed_nanos` after the last loss.
pub fn cooldown_open(consec_losses: u32, elapsed_nanos: Option<u128>, cooldown_sec: u64) -> (r: bool)
    ensures
        r == cooldown_active(consec_losses, elapsed_nanos, cooldown_sec),
{
    if consec_losses == 0 {
        return false;
    }
    match elapsed_nanos {
        Some(e) => e < (cooldown_sec as u128) * NANOS_PER_SEC,
        None => false,
    }
}

/// The guard's decision for a scan that starts `elapsed_nanos` after the
/// last loss.
pub fn scan_guard(
    consec_losses: u32,
    elapsed_nanos: Option<u128>,
    cooldown_sec: u64,
    max_losses_in_row: u32,
) -> (guard: ScanGuard)
    ensures
        guard == scan_guard_spec(consec_losses, elapsed_nanos, cooldown_sec, max_losses_in_row),
{
    let passed = match elapsed_nanos {
        Some(e) => e >= (cooldown_sec as u128) * NANOS_PER_SEC,
        None => false,
    };
    let remaining_sec: u64 = match elapsed_nanos {
        Some(e) => {
            let secs: u128 = e / NANOS_PER_SEC;
            if secs >= cooldown_sec as u128 {
                0
            } else {
                cooldown_sec - secs as u64
            }
        },
        None => cooldown_sec,
    };
    if consec_losses >= max_losses_in_row && !passed {
        ScanGuard::Tripped { remaining_sec }
    } else if cooldown_open(consec_losses, elapsed_nanos, cooldown_sec) {
        ScanGuard::Cooldown { remaining_sec }
    } else {
        ScanGuard::Proceed
    }
}

impl PnLTracker {
    /// A tracker with no loss on record.
    pub fn new() -> (t: PnLTracker)
        ensures
            t.consec_losses == 0,
            t.last_loss_ts is None,
    {
        PnLTracker { consec_losses: 0, last_loss_ts: None }
    }

    /// Records a successful execution: the run of losses ends.
    pub fn on_success(&mut self)
        ensures
            final(self).consec_losses == 0,
            final(self).last_loss_ts is None,
    {
        self.consec_losses = 0;
        self.last_loss_ts = None;
    }

    /// Records a scan without a successful execution, at the present moment.
    pub fn on_loss(&mut self)
        ensures
            final(self).consec_losses == next_loss_count(old(self).consec_losses),
            final(self).consec_losses >= 1,
            final(self).last_loss_ts is Some,
    {
        self.consec_losses = self.consec_losses.saturating_add(1);
        self.last_loss_ts = Some(clock_now());
    }

    /// Nanoseconds since the last loss on record, read from the clock.
    pub fn since_last_loss(&self) -> (e: Option<u128>)
        ensures
            e is Some <==> self.last_loss_ts is Some,
    {
        match &self.last_loss_ts {
            Some(ts) => {
                let d = clock_elapsed(ts);
                Some(duration_nanos(&d))
            },
            None => None,
        }
    }

    /// Whether the cooldown window is open now.  The answer is that of
    /// [`cooldown_open`] for the time the clock shows since the last loss.
    pub fn should_cooldown(&self, cooldown_sec: u64) -> (r: bool)
        ensures
            exists|e: Option<u128>|
                (e is Some <==> self.last_loss_ts is Some) && r == cooldown_active(
                    self.consec_losses,
                    e,
                    cooldown_sec,
                ),
            self.consec_losses == 0 || self.last_loss_ts is None || cooldown_sec == 0 ==> !r,
    {
        let e = self.since_last_loss();
        let r = cooldown_open(self.consec_losses, e, cooldown_sec);
        assert((e is Some <==> self.last_loss_ts is Some) && r == cooldown_active(
            self.consec_losses,
            e,
            cooldown_sec,
        ));
        r
    }

    /// The guard's decision for a scan that starts now.
    pub fn guard(&self, cooldown_sec: u64, max_losses_in_row: u32) -> (g: ScanGuard)
        ensures
            exists|e: Option<u128>|
                (e is Some <==> self.last_loss_ts is Some) && g == scan_guard_spec(
                    self.consec_losses,
                    e,
                    cooldown_sec,
                    max_losses_in_row,
                ),
            self.last_loss_ts is None ==> g == scan_guard_spec(
                self.consec_losses,
                None,
                cooldown_sec,
                max_losses_in_row,
            ),
            self.last_loss_ts is Some && cooldown_sec == 0 ==> g == ScanGuard::Proceed,
            self.consec_losses == 0 && max_losses_in_row > 0 ==> g == ScanGuard::Proceed,
            self.consec_losses >= max_losses_in_row && self.last_loss_ts is None ==> g is Tripped,
    {
        let e = self.since_last_loss();
        let g = scan_guard(self.consec_losses, e, cooldown_sec, max_losses_in_row);
        assert((e is Some <==> self.last_loss_ts is Some) && g == scan_guard_spec(
            self.consec_losses,
            e,
            cooldown_sec,
            max_losses_in_row,
        ));
        g
    }
}

/// After `n` losses in a row the counter stands at `n` more than before,
/// capped at the largest 32-bit number.
pub proof fn lemma_losses_after(count: u32, n: nat)
    ensures
        losses_after(count, n) == if count + n > u32::MAX {
            u32::MAX as int
        } else {
            count + n
        },
    decreases n,
{
    if n > 0 {
        lemma_losses_after(count, (n - 1) as nat);
    }
}

/// The circuit breaker trips: once as many losses in a row are on record
/// as the configured maximum, the guard is closed until the window since
/// the last of them has passed.  With a maximum of zero that is so from the
/// start, before any loss.
pub proof fn lemma_breaker_trips(
    max_losses_in_row: u32,
    further_losses: nat,
    elapsed_nanos: Option<u128>,
    cooldown_sec: u64,
)
    requires
        !window_passed(elapsed_nanos, cooldown_sec),
    ensures
        scan_guard_spec(
            losses_after(0, max_losses_in_row as nat + further_losses),
            elapsed_nanos,
            cooldown_sec,
            max_losses_in_row,
        ) is Tripped,
{
    lemma_losses_after(0, max_losses_in_row as nat + further_losses);
}

/// The circuit breaker recovers by time alone: once the window since the
/// last loss has passed, the guard lets the scan proceed, however many
/// losses are on record and with nothing else having happened.
pub proof fn lemma_breaker_recovers(
    consec_losses: u32,
    elapsed_nanos: u128,
    cooldown_sec: u64,
    max_losses_in_row: u32,
)
    requires
        elapsed_nanos >= cooldown_sec * 1_000_000_000,
    ensures
        scan_guard_spec(consec_losses, Some(elapsed_nanos), cooldown_sec, max_losses_in_row)
            == ScanGuard::Proceed,
{
}

/// Below the maximum the guard is open without a loss: with a maximum
/// above zero, a count of zero lets the scan proceed whatever the clock
/// shows, and so does any count below the maximum with no loss on record.
pub proof fn lemma_guard_proceeds(
    consec_losses: u32,
    elapsed_nanos: Option<u128>,
    cooldown_sec: u64,
    max_losses_in_row: u32,
)
    requires
        max_losses_in_row > 0,
    ensures
        scan_guard_spec(0, elapsed_nanos, cooldown_sec, max_losses_in_row) == ScanGuard::Proceed,
        consec_losses < max_losses_in_row ==> scan_guard_spec(
            consec_losses,
            None,
            cooldown_sec,
            max_losses_in_row,
        ) == ScanGuard::Proceed,
{
}

/// The cooldown window: with at least one loss on record it is open at the
/// moment of the loss, provided the window has any length at all, stays open
/// while less than `cooldown_sec` seconds have passed, and is closed from
/// then on with nothing else happening.
pub proof fn lemma_cooldown_window(consec_losses: u32, elapsed_nanos: u128, cooldown_sec: u64)
    requires
        consec_losses >= 1,
    ensures
        cooldown_active(consec_losses, Some(elapsed_nanos), cooldown_sec) <==> elapsed_nanos
            < cooldown_sec * 1_000_000_000,
        cooldown_sec > 0 ==> cooldown_active(consec_losses, Some(0u128), cooldown_sec),
        elapsed_nanos >= cooldown_sec * 1_000_000_000 ==> !cooldown_active(
            consec_losses,
            Some(elapsed_nanos),
            cooldown_sec,
        ),
{
}


/// The route planner: the configuration that routes are planned on.
#[derive(Clone, Copy, Debug)]
pub struct RoutePlanner<'a> {
    pub cfg: &'a Config,
}

impl<'a> RoutePlanner<'a> {
    /// A planner on the given configuration.
    pub fn from_config(cfg: &'a Config) -> (p: RoutePlanner<'a>)
        ensures
            p.cfg == cfg,
    {
        RoutePlanner { cfg }
    }
}

/// The decisions of the trading loop for one engine: the configuration it
/// runs on and its record of losses.
#[derive(Clone, Debug)]
pub struct StrategyEngine<'a> {
    pub cfg: &'a Config,
    pub planner: RoutePlanner<'a>,
    pub pnl: PnLTracker,
}

/// Whether a symbol is on a list of symbols, regardless of ASCII case.
pub open spec fn listed_ignoring_case(list: Seq<String>, sym: Seq<char>) -> bool {
    exists|i: int| 0 <= i < list.len() && same_ignoring_ascii_case((#[trigger] list[i])@, sym)
}

/// Whether a pair is on a list of pairs, in either order, regardless of
/// ASCII case.
pub open spec fn pair_listed(pairs: Seq<[String; 2]>, a: Seq<char>, b: Seq<char>) -> bool {
    exists|i: int|
        0 <= i < pairs.len() && pair_matches(#[trigger] pairs[i], a, b)
}

/// Whether a listed pair is the pair of `a` and `b`, in either order.
pub open spec fn pair_matches(p: [String; 2], a: Seq<char>, b: Seq<char>) -> bool {
    (same_ignoring_ascii_case(p[0]@, a) && same_ignoring_ascii_case(p[1]@, b)) || (
    same_ignoring_ascii_case(p[0]@, b) && same_ignoring_ascii_case(p[1]@, a))
}

/// Whether every name of `names` is on `list`, regardless of ASCII case.
pub open spec fn all_listed(list: Seq<String>, names: Seq<String>) -> bool {
    forall|i: int| 0 <= i < names.len() ==> listed_ignoring_case(list, (#[trigger] names[i])@)
}

/// Whether the token that the chain lists under exactly `sym` has its
/// address on the blacklist, regardless of ASCII case.
pub open spec fn token_blacklisted(net: Network, blacklist: Seq<String>, sym: Seq<char>) -> bool {
    match token_position(net.tokens@, sym) {
        Some(i) => listed_ignoring_case(blacklist, net.tokens@[i].1.address@),
        None => false,
    }
}

/// Whether a pair must be skipped because one of its tokens is blacklisted.
pub open spec fn skip_pair_by_risk_spec(cfg: Config, net: Network, a: Seq<char>, b: Seq<char>) -> bool {
    token_blacklisted(net, cfg.global.risk.blacklist_tokens@, a) || token_blacklisted(
        net,
        cfg.global.risk.blacklist_tokens@,
        b,
    )
}

/// The chain with the given numeric identifier, if the configuration has one.
pub open spec fn network_position(cfg: Config, chain_id: u64) -> Option<int> {
    first_where(cfg.networks@, |n: Network| n.chain_id == chain_id)
}

/// The slippage allowed on a chain: the chain's own override where it has
/// one, else the default.
pub open spec fn network_slippage_bps_spec(cfg: Config, chain_id: u64) -> u32 {
    match network_position(cfg, chain_id) {
        Some(i) => match cfg.networks@[i].strategy_overrides {
            Some(ov) => match ov.slippage_bps {
                Some(bps) => bps,
                None => cfg.global.quote.slippage_bps_default,
            },
            None => cfg.global.quote.slippage_bps_default,
        },
        None => cfg.global.quote.slippage_bps_default,
    }
}

/// The least profit asked for on a chain, in basis points of the input: the
/// chain's own override where it has one, else none.
pub open spec fn network_min_profit_bps_spec(cfg: Config, chain_id: u64) -> u32 {
    match network_position(cfg, chain_id) {
        Some(i) => match cfg.networks@[i].strategy_overrides {
            Some(ov) => match ov.min_profit_bps {
                Some(bps) => bps,
                None => 0,
            },
            None => 0,
        },
        None => 0,
    }
}

/// The exchanges to try first on every leg of a triangle: those that the
/// first strategy allows, in the order it names them; none where there is
/// no strategy or it names none.
pub open spec fn preferred_dexes_spec(cfg: Config) -> Seq<String> {
    if cfg.strategies@.len() > 0 && cfg.strategies@[0].whitelist_dexes is Some {
        cfg.strategies@[0].whitelist_dexes->0@
    } else {
        Seq::empty()
    }
}

/// Ten to the power 18: base units in one whole of an 18-decimal token.
pub open spec fn base_units_per_usd() -> nat {
    1_000_000_000_000_000_000
}

/// Whether an address is that of a token whose symbol is a stable one:
/// some listed token has this address and a symbol equal to the upper-case
/// form of a stable symbol.
pub open spec fn is_stable_address(cfg: Config, net: Network, addr: Seq<u8>) -> bool {
    exists|i: int|
        0 <= i < net.tokens@.len() && token_is_stable_at(cfg, #[trigger] net.tokens@[i], addr)
}

/// Whether one listed token has the given address and a stable symbol.
pub open spec fn token_is_stable_at(cfg: Config, entry: (String, Token), addr: Seq<u8>) -> bool {
    parsed_address(entry.1.address@) == Some(addr) && upper_listed(cfg.global.risk.stables@, entry.0@)
}

/// Whether `sym` is the upper-case form of one of the listed symbols.
pub open spec fn upper_listed(list: Seq<String>, sym: Seq<char>) -> bool {
    exists|i: int| 0 <= i < list.len() && uppercase_text((#[trigger] list[i])@) == sym
}

/// The liquidity heuristic.  Without reserve data the check passes.  With
/// it, the reserve of whichever pool side is a stable token — the first
/// side before the second — stands for the pool's liquidity in USD, at 18
/// decimals, and the check passes unless that is below the configured
/// floor.  A pool without a stable side passes.
pub open spec fn meets_min_liquidity_spec(
    cfg: Config,
    net: Network,
    reserve0: Option<U256>,
    reserve1: Option<U256>,
    token0: Option<Address>,
    token1: Option<Address>,
) -> bool {
    if reserve0 is None || reserve1 is None || token0 is None || token1 is None {
        true
    } else if is_stable_address(cfg, net, token0->0@) {
        reserve0->0@ >= cfg.global.risk.min_liquidity_usd * base_units_per_usd()
    } else if is_stable_address(cfg, net, token1->0@) {
        reserve1->0@ >= cfg.global.risk.min_liquidity_usd * base_units_per_usd()
    } else {
        true
    }
}

/// Whether a symbol is on a list of symbols, regardless of ASCII case.
pub fn is_listed(list: &Vec<String>, sym: &str) -> (r: bool)
    ensures
        r == listed_ignoring_case(list@, sym@),
{
    let mut i: usize = 0;
    while i < list.len()
        invariant
            i <= list@.len(),
            forall|k: int| 0 <= k < i ==> !same_ignoring_ascii_case((#[trigger] list@[k])@, sym@),
        decreases list@.len() - i,
    {
        if eq_ignore_ascii_case(list[i].as_str(), sym) {
            return true;
        }
        i += 1;
    }
    false
}

/// Whether a pair is on a list of pairs, in either order.
pub fn is_pair_listed(pairs: &Vec<[String; 2]>, a: &str, b: &str) -> (r: bool)
    ensures
        r == pair_listed(pairs@, a@, b@),
{
    let mut i: usize = 0;
    while i < pairs.len()
        invariant
            i <= pairs@.len(),
            forall|k: int| 0 <= k < i ==> !pair_matches(#[trigger] pairs@[k], a@, b@),
        decreases pairs@.len() - i,
    {
        let p = &pairs[i];
        let straight = eq_ignore_ascii_case(p[0].as_str(), a) && eq_ignore_ascii_case(
            p[1].as_str(),
            b,
        );
        let crossed = eq_ignore_ascii_case(p[0].as_str(), b) && eq_ignore_ascii_case(
            p[1].as_str(),
            a,
        );
        if straight || crossed {
            assert(pair_matches(pairs@[i as int], a@, b@));
            return true;
        }
        i += 1;
    }
    false
}

/// Whether every name of `names` is on `list`.
pub fn are_all_listed(list: &Vec<String>, names: &Vec<String>) -> (r: bool)
    ensures
        r == all_listed(list@, names@),
{
    let mut i: usize = 0;
    while i < names.len()
        invariant
            i <= names@.len(),
            forall|k: int| 0 <= k < i ==> listed_ignoring_case(list@, (#[trigger] names@[k])@),
        decreases names@.len() - i,
    {
        if !is_listed(list, names[i].as_str()) {
            return false;
        }
        i += 1;
    }
    true
}

impl<'a> StrategyEngine<'a> {
    /// An engine on the given configuration, with no loss on record.
    pub fn new(cfg: &'a Config, planner: RoutePlanner<'a>) -> (e: StrategyEngine<'a>)
        ensures
            e.cfg == cfg,
            e.planner == planner,
            e.pnl.consec_losses == 0,
            e.pnl.last_loss_ts is None,
    {
        StrategyEngine { cfg, planner, pnl: PnLTracker::new() }
    }

    /// The exchanges to try first on every leg of a triangle.
    pub fn preferred_dexes(&self) -> (r: Vec<String>)
        ensures
            r@ == preferred_dexes_spec(*self.cfg),
    {
        if self.cfg.strategies.len() > 0 {
            match &self.cfg.strategies[0].whitelist_dexes {
                Some(names) => {
                    return copy_strings(names);
                },
                None => {},
            }
        }
        Vec::new()
    }

    /// The slippage allowed on the chain with the given identifier.
    pub fn network_slippage_bps(&self, chain_id: u64) -> (bps: u32)
        ensures
            bps == network_slippage_bps_spec(*self.planner.cfg, chain_id),
    {
        let cfg = self.planner.cfg;
        let default_slip = cfg.global.quote.slippage_bps_default;
        match find_network(cfg, chain_id) {
            Some(i) => match &cfg.networks[i].strategy_overrides {
                Some(ov) => match ov.slippage_bps {
                    Some(bps) => bps,
                    None => default_slip,
                },
                None => default_slip,
            },
            None => default_slip,
        }
    }

    /// The least profit asked for on the chain with the given identifier.
    pub fn network_min_profit_bps(&self, chain_id: u64) -> (bps: u32)
        ensures
            bps == network_min_profit_bps_spec(*self.planner.cfg, chain_id),
    {
        let cfg = self.planner.cfg;
        match find_network(cfg, chain_id) {
            Some(i) => match &cfg.networks[i].strategy_overrides {
                Some(ov) => match ov.min_profit_bps {
                    Some(bps) => bps,
                    None => 0,
                },
                None => 0,
            },
            None => 0,
        }
    }

    /// Whether a pair must be skipped because one of its tokens is
    /// blacklisted.
    pub fn skip_pair_by_risk(&self, net: &Network, a_sym: &str, b_sym: &str) -> (skip: bool)
        ensures
            skip == skip_pair_by_risk_spec(*self.cfg, *net, a_sym@, b_sym@),
    {
        let bl = &self.cfg.global.risk.blacklist_tokens;
        has_black(net, bl, a_sym) || has_black(net, bl, b_sym)
    }

    /// The liquidity heuristic on a pool's reserves and tokens.
    pub fn meets_min_liquidity_hint(
        &self,
        net: &Network,
        a_sym: &str,
        b_sym: &str,
        reserve0: Option<U256>,
        reserve1: Option<U256>,
        token0: Option<Address>,
        token1: Option<Address>,
    ) -> (ok: bool)
        ensures
            ok == meets_min_liquidity_spec(*self.cfg, *net, reserve0, reserve1, token0, token1),
    {
        let (r0, r1, t0, t1) = match (reserve0, reserve1, token0, token1) {
            (Some(r0), Some(r1), Some(t0), Some(t1)) => (r0, r1, t0, t1),
            _ => {
                return true;
            },
        };
        let floor = liquidity_floor(self.cfg.global.risk.min_liquidity_usd);
        if stable_address(self.cfg, net, &t0) {
            !r0.lt(&floor)
        } else if stable_address(self.cfg, net, &t1) {
            !r1.lt(&floor)
        } else {
            true
        }
    }
}

/// The configured floor in base units of an 18-decimal token.
fn liquidity_floor(min_usd: u64) -> (r: U256)
    ensures
        r@ == min_usd * base_units_per_usd(),
{
    let one = U256::from_u64(1_000_000_000_000_000_000);
    match U256::from_u64(min_usd).checked_mul(one) {
        Some(v) => v,
        None => U256::zero(),
    }
}

fn find_network(cfg: &Config, chain_id: u64) -> (r: Option<usize>)
    ensures
        match r {
            Some(i) => network_position(*cfg, chain_id) == Some(i as int) && i < cfg.networks@.len(),
            None => network_position(*cfg, chain_id) is None,
        },
{
    let ghost pred = |n: Network| n.chain_id == chain_id;
    let mut i: usize = 0;
    while i < cfg.networks.len()
        invariant
            i <= cfg.networks@.len(),
            pred == (|n: Network| n.chain_id == chain_id),
            first_from(cfg.networks@, pred, 0) == first_from(cfg.networks@, pred, i as int),
        decreases cfg.networks@.len() - i,
    {
        if cfg.networks[i].chain_id == chain_id {
            return Some(i);
        }
        i += 1;
    }
    None
}

fn has_black(net: &Network, blacklist: &Vec<String>, sym: &str) -> (r: bool)
    ensures
        r == token_blacklisted(*net, blacklist@, sym@),
{
    match net.token_index(sym) {
        Some(i) => is_listed(blacklist, net.tokens[i].1.address.as_str()),
        None => false,
    }
}

fn is_upper_listed(list: &Vec<String>, sym: &String) -> (r: bool)
    ensures
        r == upper_listed(list@, sym@),
{
    let mut i: usize = 0;
    while i < list.len()
        invariant
            i <= list@.len(),
            forall|k: int| 0 <= k < i ==> uppercase_text((#[trigger] list@[k])@) != sym@,
        decreases list@.len() - i,
    {
        let upper = to_uppercase(list[i].as_str());
        if upper == *sym {
            return true;
        }
        i += 1;
    }
    false
}

fn stable_address(cfg: &Config, net: &Network, addr: &Address) -> (r: bool)
    ensures
        r == is_stable_address(*cfg, *net, addr@),
{
    let mut i: usize = 0;
    while i < net.tokens.len()
        invariant
            i <= net.tokens@.len(),
            forall|k: int| 0 <= k < i ==> !token_is_stable_at(*cfg, #[trigger] net.tokens@[k], addr@),
        decreases net.tokens@.len() - i,
    {
        let same = match parse_addr(net.tokens[i].1.address.as_str()) {
            Ok(a) => a.same(addr),
            Err(_) => false,
        };
        if same && is_upper_listed(&cfg.global.risk.stables, &net.tokens[i].0) {
            assert(token_is_stable_at(*cfg, net.tokens@[i as int], addr@));
            return true;
        }
        i += 1;
    }
    false
}

} // verus!
