//! One scan of a chain, as a conversation between the decisions made here
//! and the caller that performs what they ask for.
//!
//! A scan starts behind the guard.  While the circuit breaker is tripped —
//! the run of losses has reached the maximum and the window since the last
//! loss has not passed — or a loss below the maximum is still within its
//! window, nothing is scanned; once the window has passed, scanning resumes
//! by itself.  Otherwise every configured route and triangle is
//! looked at in turn: filtered by strategy and blacklist before anything is
//! spent on it, counted, quoted, held against the rule that the least
//! acceptable output must exceed the input and against the profit floor, and
//! offered for execution.  When all are done the loss record is updated: a
//! scan with a successful execution clears it, any other scan counts as a
//! loss.

use vstd::prelude::*;
use vstd::string::*;
use crate::calldata::{abi_encoding, encode_route_calldata, route_items};
use crate::config::{dex_position, token_position, Config, Network, RouteDex, Strategy};
use crate::route::{
    all_listed,
    are_all_listed,
    is_listed,
    is_pair_listed,
    listed_ignoring_case,
    network_min_profit_bps_spec,
    network_slippage_bps_spec,
    next_loss_count,
    pair_listed,
    scan_guard_spec,
    skip_pair_by_risk_spec,
    PnLTracker,
    ScanGuard,
    StrategyEngine,
};
use crate::router::QuoteResult;
use crate::uint::{u256_limit, U256};
use crate::utils::{parse_addr, parsed_address, pow10, unit_amount};

verus! {

/// What the filters say of a route or a triangle.
#[derive(Clone, Copy, Debug, PartialEq, Eq, Structural)]
pub enum Filtered {
    /// Nothing speaks against it.
    Scan,
    /// The strategy trades stable pairs only, and this has a pair without.
    OnlyStables,
    /// An exchange of the route is not among the allowed ones.
    DexNotWhitelisted,
    /// A pair is not among the allowed ones.
    PairNotWhitelisted,
    /// A token is blacklisted.
    Blacklisted,
}

/// Why a scan was broken off.
#[derive(Clone, Copy, Debug, PartialEq, Eq, Structural)]
pub enum ScanFault {
    /// The chain does not list a token of the route, or its address
    /// cannot be read.
    UnknownToken,
    /// An amount does not fit in 256 bits.
    Overflow,
    /// The event does not answer what the last step asked for.
    UnexpectedEvent,
}

/// Where a scan stands.
#[derive(Clone, Copy, Debug, PartialEq, Eq, Structural)]
pub enum ScanPhase {
    /// About to look at the route at `index`.
    Routes,
    /// The route at `index` was counted as scanned.
    RouteCounted,
    /// The route at `index` is being quoted.
    RouteQuoting,
    /// The route at `index` was offered for execution.
    RouteExecuting,
    /// About to look at the triangle at `index`.
    Triangles,
    /// The triangle at `index` was counted as scanned.
    TriangleCounted,
    /// The triangle at `index` is being quoted.
    TriangleQuoting,
    /// The triangle at `index` was offered for execution.
    TriangleExecuting,
    /// The scan is over.
    Finished,
}

/// The progress of one scan.
#[derive(Clone, Copy, Debug, PartialEq, Eq, Structural)]
pub struct ScanState {
    pub phase: ScanPhase,
    pub index: usize,
    /// Whether an execution has succeeded in this scan.
    pub any_success: bool,
    pub slip_bps: u32,
    pub min_profit_bps: u32,
}

/// What the caller is to do next.
#[derive(Clone, Debug)]
pub enum ScanStep {
    /// Nothing: the guard keeps the chain closed for this tick.
    Halted(ScanGuard),
    /// Nothing: the route is filtered out.  Nothing was spent on it.
    RouteSkipped { index: usize, why: Filtered },
    /// Count the route as scanned.
    RouteScanned { index: usize },
    /// Quote the round trip of the route across the two exchanges.
    QuotePair { index: usize, dex_a: usize, dex_b: usize, amount_in: U256, slip_bps: u32 },
    /// Nothing: the triangle is filtered out.
    TriangleSkipped { index: usize, why: Filtered },
    /// Count the triangle as scanned.
    TriangleScanned { index: usize },
    /// Quote the triangle.
    QuoteTriangle { index: usize, amount_in: U256, slip_bps: u32 },
    /// Record the candidate, simulate it, and unless executions are
    /// switched off, submit it.
    Candidate { index: usize, triangle: bool, calldata: Vec<u8> },
    /// The scan is over and the loss record is updated.
    Finished { success: bool },
    /// The scan is broken off; the loss record is untouched.
    Abort(ScanFault),
}

/// What the caller reports back.
#[derive(Clone, Debug)]
pub enum ScanEvent {
    /// The last step is done and asked for no answer.
    Next,
    /// The quote that was asked for: an accepted route, or none.
    Quoted(Option<QuoteResult>),
    /// The candidate was submitted, with or without success.
    Executed(bool),
    /// The candidate was not submitted.
    NotExecuted,
}

/// What a strategy says of a pair traded across the given exchanges.
pub open spec fn strategy_filter(
    strat: Strategy,
    stables: Seq<String>,
    a: Seq<char>,
    b: Seq<char>,
    dexes: Seq<String>,
) -> Filtered {
    if strat.only_stables == Some(true) && !listed_ignoring_case(stables, a)
        && !listed_ignoring_case(stables, b) {
        Filtered::OnlyStables
    } else if strat.whitelist_dexes is Some && !all_listed(strat.whitelist_dexes->0@, dexes) {
        Filtered::DexNotWhitelisted
    } else if strat.whitelist_pairs is Some && !pair_listed(strat.whitelist_pairs->0@, a, b) {
        Filtered::PairNotWhitelisted
    } else {
        Filtered::Scan
    }
}

/// What the filters say of a route: the first strategy decides first, then
/// the blacklist.
pub open spec fn route_filter_spec(cfg: Config, net: Network, r: RouteDex) -> Filtered {
    let by_strategy = if cfg.strategies@.len() > 0 {
        strategy_filter(cfg.strategies@[0], cfg.global.risk.stables@, r.pair[0]@, r.pair[1]@, r.dexes@)
    } else {
        Filtered::Scan
    };
    if by_strategy != Filtered::Scan {
        by_strategy
    } else if skip_pair_by_risk_spec(cfg, net, r.pair[0]@, r.pair[1]@) {
        Filtered::Blacklisted
    } else {
        Filtered::Scan
    }
}

/// Whether neither token of a pair is a stable one.
pub open spec fn no_stable_side(stables: Seq<String>, a: Seq<char>, b: Seq<char>) -> bool {
    !listed_ignoring_case(stables, a) && !listed_ignoring_case(stables, b)
}

/// What a strategy says of a triangle: each of its three pairs must pass.
pub open spec fn triangle_strategy_filter(strat: Strategy, stables: Seq<String>, t: [String; 3]) -> Filtered {
    if strat.only_stables == Some(true) && (no_stable_side(stables, t[0]@, t[1]@)
        || no_stable_side(stables, t[1]@, t[2]@) || no_stable_side(stables, t[2]@, t[0]@)) {
        Filtered::OnlyStables
    } else if strat.whitelist_pairs is Some && !(pair_listed(
        strat.whitelist_pairs->0@,
        t[0]@,
        t[1]@,
    ) && pair_listed(strat.whitelist_pairs->0@, t[1]@, t[2]@) && pair_listed(
        strat.whitelist_pairs->0@,
        t[2]@,
        t[0]@,
    )) {
        Filtered::PairNotWhitelisted
    } else {
        Filtered::Scan
    }
}

/// What the filters say of a triangle.
pub open spec fn triangle_filter_spec(cfg: Config, net: Network, t: [String; 3]) -> Filtered {
    let by_strategy = if cfg.strategies@.len() > 0 {
        triangle_strategy_filter(cfg.strategies@[0], cfg.global.risk.stables@, t)
    } else {
        Filtered::Scan
    };
    if by_strategy != Filtered::Scan {
        by_strategy
    } else if skip_pair_by_risk_spec(cfg, net, t[0]@, t[1]@) || skip_pair_by_risk_spec(
        cfg,
        net,
        t[1]@,
        t[2]@,
    ) {
        Filtered::Blacklisted
    } else {
        Filtered::Scan
    }
}

/// Whether the chain lists a token under exactly this symbol, with an
/// address that can be read.
pub open spec fn token_known(net: Network, sym: Seq<char>) -> bool {
    match token_position(net.tokens@, sym) {
        Some(i) => parsed_address(net.tokens@[i].1.address@) is Some,
        None => false,
    }
}

/// The decimals of the token listed under exactly this symbol, or 18.
pub open spec fn exact_decimals(net: Network, sym: Seq<char>) -> u8 {
    match token_position(net.tokens@, sym) {
        Some(i) => net.tokens@[i].1.decimals,
        None => 18u8,
    }
}

/// Whether a quoted route earns at least the profit floor: output minus
/// input is no less than `min_profit_bps` basis points of the input.
pub open spec fn meets_min_profit_spec(amount_in: nat, amount_out: nat, min_profit_bps: nat) -> bool {
    let profit = if amount_out > amount_in {
        amount_out - amount_in
    } else {
        0
    };
    profit >= amount_in * min_profit_bps / 10_000
}

/// The routes of a chain; none where the chain lists none.
pub open spec fn routes_of(net: Network) -> Seq<RouteDex> {
    match net.routes_cross_dex {
        Some(r) => r@,
        None => Seq::empty(),
    }
}

/// How the loss record changes when a scan finishes.
pub open spec fn record_closed(success: bool, before: PnLTracker, after: PnLTracker) -> bool {
    if success {
        after.consec_losses == 0 && after.last_loss_ts is None
    } else {
        after.consec_losses == next_loss_count(before.consec_losses) && after.last_loss_ts is Some
    }
}

/// How a scan arrives at the triangle at position `j`: past the last one
/// the scan finishes and the loss record is closed; a triangle that the
/// filters reject is skipped; any other is counted as scanned.
pub open spec fn arrives_at_triangle(
    cfg: Config,
    net: Network,
    st: ScanState,
    j: usize,
    before: PnLTracker,
    after_pnl: PnLTracker,
    after: ScanState,
    step: ScanStep,
) -> bool {
    if j >= net.triangles@.len() {
        &&& step == (ScanStep::Finished { success: st.any_success })
        &&& after == (ScanState { phase: ScanPhase::Finished, index: j, ..st })
        &&& record_closed(st.any_success, before, after_pnl)
    } else {
        let v = triangle_filter_spec(cfg, net, net.triangles@[j as int]);
        &&& after_pnl == before
        &&& if v != Filtered::Scan {
            step == (ScanStep::TriangleSkipped { index: j, why: v }) && after == (ScanState {
                phase: ScanPhase::Triangles,
                index: (j + 1) as usize,
                ..st
            })
        } else {
            step == (ScanStep::TriangleScanned { index: j }) && after == (ScanState {
                phase: ScanPhase::TriangleCounted,
                index: j,
                ..st
            })
        }
    }
}

/// How a scan arrives at the route at position `i`: past the last one it
/// goes on to the triangles; a route that the filters reject is skipped,
/// before anything is spent on it; any other is counted as scanned.
pub open spec fn arrives_at_route(
    cfg: Config,
    net: Network,
    st: ScanState,
    i: usize,
    before: PnLTracker,
    after_pnl: PnLTracker,
    after: ScanState,
    step: ScanStep,
) -> bool {
    if i >= routes_of(net).len() {
        arrives_at_triangle(cfg, net, st, 0, before, after_pnl, after, step)
    } else {
        let v = route_filter_spec(cfg, net, routes_of(net)[i as int]);
        &&& after_pnl == before
        &&& if v != Filtered::Scan {
            step == (ScanStep::RouteSkipped { index: i, why: v }) && after == (ScanState {
                phase: ScanPhase::Routes,
                index: (i + 1) as usize,
                ..st
            })
        } else {
            step == (ScanStep::RouteScanned { index: i }) && after == (ScanState {
                phase: ScanPhase::RouteCounted,
                index: i,
                ..st
            })
        }
    }
}

/// The scan is broken off.
pub open spec fn breaks_off(
    fault: ScanFault,
    before: PnLTracker,
    after_pnl: PnLTracker,
    after: ScanState,
    step: ScanStep,
) -> bool {
    step == ScanStep::Abort(fault) && after.phase == ScanPhase::Finished && after_pnl == before
}

/// How a scan offers a quoted route: one below the profit floor is passed
/// over; any other becomes a candidate, with the payload that encodes its
/// input, its least acceptable output and its legs.
pub open spec fn offers(
    q: QuoteResult,
    st: ScanState,
    triangle: bool,
    after: ScanState,
    step: ScanStep,
) -> bool {
    &&& step matches ScanStep::Candidate { index, triangle: t, calldata }
    &&& index == st.index
    &&& t == triangle
    &&& calldata@ == abi_encoding(route_items(q.legs@, q.amount_in@, q.min_out@))
    &&& after == (ScanState {
        phase: if triangle {
            ScanPhase::TriangleExecuting
        } else {
            ScanPhase::RouteExecuting
        },
        ..st
    })
}


/// How a scan arrives at whatever follows the route or triangle at the
/// state's index.
pub open spec fn arrives_at_next(
    cfg: Config,
    net: Network,
    st: ScanState,
    triangle: bool,
    before: PnLTracker,
    after_pnl: PnLTracker,
    after: ScanState,
    step: ScanStep,
) -> bool {
    if triangle {
        arrives_at_triangle(cfg, net, st, (st.index + 1) as usize, before, after_pnl, after, step)
    } else {
        arrives_at_route(cfg, net, st, (st.index + 1) as usize, before, after_pnl, after, step)
    }
}

/// How a scan goes on from a route that was counted: both tokens must be
/// known to the chain; a route with fewer than two exchanges, or with one
/// the chain does not list, is passed over; any other is quoted for one
/// whole unit of its first token.
pub open spec fn counted_route_goes_on(
    cfg: Config,
    net: Network,
    st: ScanState,
    before: PnLTracker,
    after_pnl: PnLTracker,
    after: ScanState,
    step: ScanStep,
) -> bool {
    if st.index >= routes_of(net).len() {
        breaks_off(ScanFault::UnexpectedEvent, before, after_pnl, after, step)
    } else {
        let r = routes_of(net)[st.index as int];
        if !token_known(net, r.pair[0]@) || !token_known(net, r.pair[1]@) {
            breaks_off(ScanFault::UnknownToken, before, after_pnl, after, step)
        } else if r.dexes@.len() < 2 || dex_position(net.dexes@, r.dexes@[0]@) is None
            || dex_position(net.dexes@, r.dexes@[1]@) is None {
            arrives_at_next(cfg, net, st, false, before, after_pnl, after, step)
        } else if pow10(exact_decimals(net, r.pair[0]@) as nat) >= u256_limit() {
            breaks_off(ScanFault::Overflow, before, after_pnl, after, step)
        } else {
            &&& step matches ScanStep::QuotePair { index, dex_a, dex_b, amount_in, slip_bps }
            &&& index == st.index
            &&& dex_position(net.dexes@, r.dexes@[0]@) == Some(dex_a as int)
            &&& dex_position(net.dexes@, r.dexes@[1]@) == Some(dex_b as int)
            &&& amount_in@ == pow10(exact_decimals(net, r.pair[0]@) as nat)
            &&& slip_bps == st.slip_bps
            &&& after == (ScanState { phase: ScanPhase::RouteQuoting, ..st })
            &&& after_pnl == before
        }
    }
}

/// How a scan goes on from a triangle that was counted: its three tokens
/// must be known to the chain; then it is quoted for one whole unit of its
/// first token.
pub open spec fn counted_triangle_goes_on(
    cfg: Config,
    net: Network,
    st: ScanState,
    before: PnLTracker,
    after_pnl: PnLTracker,
    after: ScanState,
    step: ScanStep,
) -> bool {
    if st.index >= net.triangles@.len() {
        breaks_off(ScanFault::UnexpectedEvent, before, after_pnl, after, step)
    } else {
        let t = net.triangles@[st.index as int];
        if !token_known(net, t[0]@) || !token_known(net, t[1]@) || !token_known(net, t[2]@) {
            breaks_off(ScanFault::UnknownToken, before, after_pnl, after, step)
        } else if pow10(exact_decimals(net, t[0]@) as nat) >= u256_limit() {
            breaks_off(ScanFault::Overflow, before, after_pnl, after, step)
        } else {
            &&& step matches ScanStep::QuoteTriangle { index, amount_in, slip_bps }
            &&& index == st.index
            &&& amount_in@ == pow10(exact_decimals(net, t[0]@) as nat)
            &&& slip_bps == st.slip_bps
            &&& after == (ScanState { phase: ScanPhase::TriangleQuoting, ..st })
            &&& after_pnl == before
        }
    }
}

/// How a scan goes on once a quote is in.  Without a route it moves on.
/// A route whose least acceptable output is not strictly more than its
/// input is never offered, whatever else is reported of it; nor is one
/// below the profit floor.  Any other route is offered for execution.
pub open spec fn quoted_goes_on(
    cfg: Config,
    net: Network,
    st: ScanState,
    found: Option<QuoteResult>,
    triangle: bool,
    before: PnLTracker,
    after_pnl: PnLTracker,
    after: ScanState,
    step: ScanStep,
) -> bool {
    if st.index == usize::MAX {
        breaks_off(ScanFault::UnexpectedEvent, before, after_pnl, after, step)
    } else {
        match found {
            None => arrives_at_next(cfg, net, st, triangle, before, after_pnl, after, step),
            Some(q) => if q.min_out@ <= q.amount_in@ {
                arrives_at_next(cfg, net, st, triangle, before, after_pnl, after, step)
            } else if q.amount_in@ * st.min_profit_bps >= u256_limit() {
                breaks_off(ScanFault::Overflow, before, after_pnl, after, step)
            } else if !meets_min_profit_spec(
                q.amount_in@,
                q.amount_out@,
                st.min_profit_bps as nat,
            ) {
                arrives_at_next(cfg, net, st, triangle, before, after_pnl, after, step)
            } else {
                offers(q, st, triangle, after, step) && after_pnl == before
            },
        }
    }
}

/// How a scan goes on once a candidate was dealt with: a successful
/// execution is remembered, and the scan moves on.
pub open spec fn executed_goes_on(
    cfg: Config,
    net: Network,
    st: ScanState,
    succeeded: bool,
    triangle: bool,
    before: PnLTracker,
    after_pnl: PnLTracker,
    after: ScanState,
    step: ScanStep,
) -> bool {
    if st.index == usize::MAX {
        breaks_off(ScanFault::UnexpectedEvent, before, after_pnl, after, step)
    } else {
        arrives_at_next(
            cfg,
            net,
            ScanState { any_success: st.any_success || succeeded, ..st },
            triangle,
            before,
            after_pnl,
            after,
            step,
        )
    }
}

/// How a scan goes on when the caller reports back.
pub open spec fn scan_goes_on(
    cfg: Config,
    net: Network,
    st: ScanState,
    event: ScanEvent,
    before: PnLTracker,
    after_pnl: PnLTracker,
    after: ScanState,
    step: ScanStep,
) -> bool {
    match (st.phase, event) {
        (ScanPhase::Routes, ScanEvent::Next) => arrives_at_route(
            cfg,
            net,
            st,
            st.index,
            before,
            after_pnl,
            after,
            step,
        ),
        (ScanPhase::RouteCounted, ScanEvent::Next) => counted_route_goes_on(
            cfg,
            net,
            st,
            before,
            after_pnl,
            after,
            step,
        ),
        (ScanPhase::RouteQuoting, ScanEvent::Quoted(found)) => quoted_goes_on(
            cfg,
            net,
            st,
            found,
            false,
            before,
            after_pnl,
            after,
            step,
        ),
        (ScanPhase::RouteExecuting, ScanEvent::Executed(ok)) => executed_goes_on(
            cfg,
            net,
            st,
            ok,
            false,
            before,
            after_pnl,
            after,
            step,
        ),
        (ScanPhase::RouteExecuting, ScanEvent::NotExecuted) => executed_goes_on(
            cfg,
            net,
            st,
            false,
            false,
            before,
            after_pnl,
            after,
            step,
        ),
        (ScanPhase::Triangles, ScanEvent::Next) => arrives_at_triangle(
            cfg,
            net,
            st,
            st.index,
            before,
            after_pnl,
            after,
            step,
        ),
        (ScanPhase::TriangleCounted, ScanEvent::Next) => counted_triangle_goes_on(
            cfg,
            net,
            st,
            before,
            after_pnl,
            after,
            step,
        ),
        (ScanPhase::TriangleQuoting, ScanEvent::Quoted(found)) => quoted_goes_on(
            cfg,
            net,
            st,
            found,
            true,
            before,
            after_pnl,
            after,
            step,
        ),
        (ScanPhase::TriangleExecuting, ScanEvent::Executed(ok)) => executed_goes_on(
            cfg,
            net,
            st,
            ok,
            true,
            before,
            after_pnl,
            after,
            step,
        ),
        (ScanPhase::TriangleExecuting, ScanEvent::NotExecuted) => executed_goes_on(
            cfg,
            net,
            st,
            false,
            true,
            before,
            after_pnl,
            after,
            step,
        ),
        _ => breaks_off(ScanFault::UnexpectedEvent, before, after_pnl, after, step),
    }
}

/// How a scan begins behind the guard: a closed guard halts it at once,
/// with nothing scanned and the loss record untouched; an open one lets it
/// arrive at the first route with the chain's slippage and profit floor.
pub open spec fn scan_begins(
    cfg: Config,
    planned: Config,
    net: Network,
    guard: ScanGuard,
    before: PnLTracker,
    after_pnl: PnLTracker,
    after: ScanState,
    step: ScanStep,
) -> bool {
    if guard != ScanGuard::Proceed {
        step == ScanStep::Halted(guard) && after.phase == ScanPhase::Finished && after_pnl == before
    } else {
        arrives_at_route(
            cfg,
            net,
            ScanState {
                phase: ScanPhase::Routes,
                index: 0,
                any_success: false,
                slip_bps: network_slippage_bps_spec(planned, net.chain_id),
                min_profit_bps: network_min_profit_bps_spec(planned, net.chain_id),
            },
            0,
            before,
            after_pnl,
            after,
            step,
        )
    }
}

/// What a strategy says of a pair traded across the given exchanges.
fn judge_by_strategy(strat: &Strategy, stables: &Vec<String>, a: &str, b: &str, dexes: &Vec<String>) -> (v:
    Filtered)
    ensures
        v == strategy_filter(*strat, stables@, a@, b@, dexes@),
{
    let only_stables = match strat.only_stables {
        Some(b) => b,
        None => false,
    };
    if only_stables && !is_listed(stables, a) && !is_listed(stables, b) {
        return Filtered::OnlyStables;
    }
    match &strat.whitelist_dexes {
        Some(allowed) => {
            if !are_all_listed(allowed, dexes) {
                return Filtered::DexNotWhitelisted;
            }
        },
        None => {},
    }
    match &strat.whitelist_pairs {
        Some(pairs) => {
            if !is_pair_listed(pairs, a, b) {
                return Filtered::PairNotWhitelisted;
            }
        },
        None => {},
    }
    Filtered::Scan
}

fn lacks_stable(stables: &Vec<String>, a: &str, b: &str) -> (r: bool)
    ensures
        r == no_stable_side(stables@, a@, b@),
{
    !is_listed(stables, a) && !is_listed(stables, b)
}

fn judge_triangle_by_strategy(strat: &Strategy, stables: &Vec<String>, t: &[String; 3]) -> (v:
    Filtered)
    ensures
        v == triangle_strategy_filter(*strat, stables@, *t),
{
    let only_stables = match strat.only_stables {
        Some(b) => b,
        None => false,
    };
    let (a, b, c) = (t[0].as_str(), t[1].as_str(), t[2].as_str());
    if only_stables && (lacks_stable(stables, a, b) || lacks_stable(stables, b, c) || lacks_stable(
        stables,
        c,
        a,
    )) {
        return Filtered::OnlyStables;
    }
    match &strat.whitelist_pairs {
        Some(pairs) => {
            if !(is_pair_listed(pairs, a, b) && is_pair_listed(pairs, b, c) && is_pair_listed(
                pairs,
                c,
                a,
            )) {
                return Filtered::PairNotWhitelisted;
            }
        },
        None => {},
    }
    Filtered::Scan
}

fn is_token_known(net: &Network, sym: &str) -> (r: bool)
    ensures
        r == token_known(*net, sym@),
{
    match net.token_index(sym) {
        Some(i) => parse_addr(net.tokens[i].1.address.as_str()).is_ok(),
        None => false,
    }
}

fn decimals_at(net: &Network, sym: &str) -> (r: u8)
    ensures
        r == exact_decimals(*net, sym@),
{
    match net.token_index(sym) {
        Some(i) => net.tokens[i].1.decimals,
        None => 18,
    }
}

/// Whether a quoted route earns at least the profit floor, or `None` where
/// the floor does not fit in 256 bits.
pub fn meets_min_profit(amount_in: U256, amount_out: U256, min_profit_bps: u32) -> (r: Option<bool>)
    ensures
        r is Some <==> amount_in@ * min_profit_bps < u256_limit(),
        r matches Some(ok) ==> ok == meets_min_profit_spec(
            amount_in@,
            amount_out@,
            min_profit_bps as nat,
        ),
{
    let profit = amount_out.saturating_sub(amount_in);
    let scaled = match amount_in.checked_mul(U256::from_u64(min_profit_bps as u64)) {
        Some(v) => v,
        None => {
            return None;
        },
    };
    match scaled.checked_div(U256::from_u64(10_000)) {
        Some(floor) => Some(floor.le(&profit)),
        None => None,
    }
}

impl<'a> StrategyEngine<'a> {
    /// What the filters say of a route.
    pub fn route_filter(&self, net: &Network, r: &RouteDex) -> (v: Filtered)
        ensures
            v == route_filter_spec(*self.cfg, *net, *r),
    {
        let a = r.pair[0].as_str();
        let b = r.pair[1].as_str();
        if self.cfg.strategies.len() > 0 {
            let v = judge_by_strategy(
                &self.cfg.strategies[0],
                &self.cfg.global.risk.stables,
                a,
                b,
                &r.dexes,
            );
            if v != Filtered::Scan {
                return v;
            }
        }
        if self.skip_pair_by_risk(net, a, b) {
            Filtered::Blacklisted
        } else {
            Filtered::Scan
        }
    }

    /// What the filters say of a triangle.
    pub fn triangle_filter(&self, net: &Network, t: &[String; 3]) -> (v: Filtered)
        ensures
            v == triangle_filter_spec(*self.cfg, *net, *t),
    {
        if self.cfg.strategies.len() > 0 {
            let v = judge_triangle_by_strategy(
                &self.cfg.strategies[0],
                &self.cfg.global.risk.stables,
                t,
            );
            if v != Filtered::Scan {
                return v;
            }
        }
        if self.skip_pair_by_risk(net, t[0].as_str(), t[1].as_str()) || self.skip_pair_by_risk(
            net,
            t[1].as_str(),
            t[2].as_str(),
        ) {
            Filtered::Blacklisted
        } else {
            Filtered::Scan
        }
    }

    fn arrive_at_triangle(&mut self, net: &Network, st: ScanState, j: usize) -> (r: (
        ScanState,
        ScanStep,
    ))
        ensures
            final(self).cfg == old(self).cfg,
            final(self).planner == old(self).planner,
            arrives_at_triangle(
                *old(self).cfg,
                *net,
                st,
                j,
                old(self).pnl,
                final(self).pnl,
                r.0,
                r.1,
            ),
    {
        if j >= net.triangles.len() {
            if st.any_success {
                self.pnl.on_success();
            } else {
                self.pnl.on_loss();
            }
            return (
                ScanState { phase: ScanPhase::Finished, index: j, ..st },
                ScanStep::Finished { success: st.any_success },
            );
        }
        let v = self.triangle_filter(net, &net.triangles[j]);
        if v != Filtered::Scan {
            (
                ScanState { phase: ScanPhase::Triangles, index: j + 1, ..st },
                ScanStep::TriangleSkipped { index: j, why: v },
            )
        } else {
            (
                ScanState { phase: ScanPhase::TriangleCounted, index: j, ..st },
                ScanStep::TriangleScanned { index: j },
            )
        }
    }

    fn arrive_at_route(&mut self, net: &Network, st: ScanState, i: usize) -> (r: (
        ScanState,
        ScanStep,
    ))
        ensures
            final(self).cfg == old(self).cfg,
            final(self).planner == old(self).planner,
            arrives_at_route(*old(self).cfg, *net, st, i, old(self).pnl, final(self).pnl, r.0, r.1),
    {
        match &net.routes_cross_dex {
            Some(routes) => {
                if i < routes.len() {
                    let v = self.route_filter(net, &routes[i]);
                    return if v != Filtered::Scan {
                        (
                            ScanState { phase: ScanPhase::Routes, index: i + 1, ..st },
                            ScanStep::RouteSkipped { index: i, why: v },
                        )
                    } else {
                        (
                            ScanState { phase: ScanPhase::RouteCounted, index: i, ..st },
                            ScanStep::RouteScanned { index: i },
                        )
                    };
                }
            },
            None => {},
        }
        self.arrive_at_triangle(net, st, 0)
    }

    fn arrive_at_next(&mut self, net: &Network, st: ScanState, triangle: bool) -> (r: (
        ScanState,
        ScanStep,
    ))
        requires
            st.index < usize::MAX,
        ensures
            final(self).cfg == old(self).cfg,
            final(self).planner == old(self).planner,
            arrives_at_next(
                *old(self).cfg,
                *net,
                st,
                triangle,
                old(self).pnl,
                final(self).pnl,
                r.0,
                r.1,
            ),
    {
        if triangle {
            self.arrive_at_triangle(net, st, st.index + 1)
        } else {
            self.arrive_at_route(net, st, st.index + 1)
        }
    }

    fn after_counted_route(&mut self, net: &Network, st: ScanState) -> (r: (ScanState, ScanStep))
        ensures
            final(self).cfg == old(self).cfg,
            final(self).planner == old(self).planner,
            counted_route_goes_on(
                *old(self).cfg,
                *net,
                st,
                old(self).pnl,
                final(self).pnl,
                r.0,
                r.1,
            ),
    {
        let broken = ScanState { phase: ScanPhase::Finished, ..st };
        let routes = match &net.routes_cross_dex {
            Some(routes) => routes,
            None => {
                return (broken, ScanStep::Abort(ScanFault::UnexpectedEvent));
            },
        };
        if st.index >= routes.len() {
            return (broken, ScanStep::Abort(ScanFault::UnexpectedEvent));
        }
        let r = &routes[st.index];
        let a = r.pair[0].as_str();
        let b = r.pair[1].as_str();
        if !is_token_known(net, a) || !is_token_known(net, b) {
            return (broken, ScanStep::Abort(ScanFault::UnknownToken));
        }
        if r.dexes.len() < 2 {
            return self.arrive_at_next(net, st, false);
        }
        let dex_a = match net.dex_index(r.dexes[0].as_str()) {
            Some(d) => d,
            None => {
                return self.arrive_at_next(net, st, false);
            },
        };
        let dex_b = match net.dex_index(r.dexes[1].as_str()) {
            Some(d) => d,
            None => {
                return self.arrive_at_next(net, st, false);
            },
        };
        match unit_amount(decimals_at(net, a)) {
            Some(amount_in) => (
                ScanState { phase: ScanPhase::RouteQuoting, ..st },
                ScanStep::QuotePair {
                    index: st.index,
                    dex_a,
                    dex_b,
                    amount_in,
                    slip_bps: st.slip_bps,
                },
            ),
            None => (broken, ScanStep::Abort(ScanFault::Overflow)),
        }
    }

    fn after_counted_triangle(&mut self, net: &Network, st: ScanState) -> (r: (
        ScanState,
        ScanStep,
    ))
        ensures
            final(self).cfg == old(self).cfg,
            final(self).planner == old(self).planner,
            counted_triangle_goes_on(
                *old(self).cfg,
                *net,
                st,
                old(self).pnl,
                final(self).pnl,
                r.0,
                r.1,
            ),
    {
        let broken = ScanState { phase: ScanPhase::Finished, ..st };
        if st.index >= net.triangles.len() {
            return (broken, ScanStep::Abort(ScanFault::UnexpectedEvent));
        }
        let t = &net.triangles[st.index];
        if !is_token_known(net, t[0].as_str()) || !is_token_known(net, t[1].as_str())
            || !is_token_known(net, t[2].as_str()) {
            return (broken, ScanStep::Abort(ScanFault::UnknownToken));
        }
        match unit_amount(decimals_at(net, t[0].as_str())) {
            Some(amount_in) => (
                ScanState { phase: ScanPhase::TriangleQuoting, ..st },
                ScanStep::QuoteTriangle { index: st.index, amount_in, slip_bps: st.slip_bps },
            ),
            None => (broken, ScanStep::Abort(ScanFault::Overflow)),
        }
    }

    fn after_quoted(
        &mut self,
        net: &Network,
        st: ScanState,
        found: Option<QuoteResult>,
        triangle: bool,
    ) -> (r: (ScanState, ScanStep))
        ensures
            final(self).cfg == old(self).cfg,
            final(self).planner == old(self).planner,
            quoted_goes_on(
                *old(self).cfg,
                *net,
                st,
                found,
                triangle,
                old(self).pnl,
                final(self).pnl,
                r.0,
                r.1,
            ),
    {
        let broken = ScanState { phase: ScanPhase::Finished, ..st };
        if st.index == usize::MAX {
            return (broken, ScanStep::Abort(ScanFault::UnexpectedEvent));
        }
        let q = match found {
            Some(q) => q,
            None => {
                return self.arrive_at_next(net, st, triangle);
            },
        };
        if q.min_out.le(&q.amount_in) {
            return self.arrive_at_next(net, st, triangle);
        }
        match meets_min_profit(q.amount_in, q.amount_out, st.min_profit_bps) {
            None => (broken, ScanStep::Abort(ScanFault::Overflow)),
            Some(false) => self.arrive_at_next(net, st, triangle),
            Some(true) => {
                let calldata = match encode_route_calldata(
                    q.legs.as_slice(),
                    q.amount_in,
                    q.min_out,
                ) {
                    Ok(bytes) => bytes,
                    Err(_) => Vec::new(),
                };
                let phase = if triangle {
                    ScanPhase::TriangleExecuting
                } else {
                    ScanPhase::RouteExecuting
                };
                (
                    ScanState { phase, ..st },
                    ScanStep::Candidate { index: st.index, triangle, calldata },
                )
            },
        }
    }

    fn after_executed(&mut self, net: &Network, st: ScanState, succeeded: bool, triangle: bool) -> (r:
        (ScanState, ScanStep))
        ensures
            final(self).cfg == old(self).cfg,
            final(self).planner == old(self).planner,
            executed_goes_on(
                *old(self).cfg,
                *net,
                st,
                succeeded,
                triangle,
                old(self).pnl,
                final(self).pnl,
                r.0,
                r.1,
            ),
    {
        if st.index == usize::MAX {
            return (
                ScanState { phase: ScanPhase::Finished, ..st },
                ScanStep::Abort(ScanFault::UnexpectedEvent),
            );
        }
        let remembered = ScanState { any_success: st.any_success || succeeded, ..st };
        self.arrive_at_next(net, remembered, triangle)
    }

    /// Begins a scan of a chain behind a guard that has already decided.
    pub fn begin_scan_with(&mut self, net: &Network, guard: ScanGuard) -> (r: (
        ScanState,
        ScanStep,
    ))
        ensures
            final(self).cfg == old(self).cfg,
            final(self).planner == old(self).planner,
            scan_begins(
                *old(self).cfg,
                *old(self).planner.cfg,
                *net,
                guard,
                old(self).pnl,
                final(self).pnl,
                r.0,
                r.1,
            ),
    {
        let slip_bps = self.network_slippage_bps(net.chain_id);
        let min_profit_bps = self.network_min_profit_bps(net.chain_id);
        let st = ScanState {
            phase: ScanPhase::Routes,
            index: 0,
            any_success: false,
            slip_bps,
            min_profit_bps,
        };
        match guard {
            ScanGuard::Proceed => self.arrive_at_route(net, st, 0),
            _ => (ScanState { phase: ScanPhase::Finished, ..st }, ScanStep::Halted(guard)),
        }
    }

    /// Begins a scan of a chain: asks the guard, with the clock as it
    /// stands, and goes by its decision.  The decision is that of
    /// [`scan_guard`] for the time the clock shows since the last loss.  The
    /// clock does not decide where no loss is on record — the scan is halted
    /// if the count of losses is at the maximum and proceeds if not — nor
    /// where the window has no length and a loss is on record, nor where the
    /// count is zero and the maximum is not: there the scan proceeds.
    pub fn begin_scan(&mut self, net: &Network) -> (r: (ScanState, ScanStep))
        ensures
            final(self).cfg == old(self).cfg,
            final(self).planner == old(self).planner,
            exists|e: Option<u128>|
                (e is Some <==> old(self).pnl.last_loss_ts is Some) && #[trigger] scan_begins(
                    *old(self).cfg,
                    *old(self).planner.cfg,
                    *net,
                    scan_guard_spec(
                        old(self).pnl.consec_losses,
                        e,
                        old(self).cfg.safety.circuit_breaker.cooldown_sec,
                        old(self).cfg.safety.circuit_breaker.max_losses_in_row,
                    ),
                    old(self).pnl,
                    final(self).pnl,
                    r.0,
                    r.1,
                ),
            old(self).pnl.last_loss_ts is None ==> scan_begins(
                *old(self).cfg,
                *old(self).planner.cfg,
                *net,
                scan_guard_spec(
                    old(self).pnl.consec_losses,
                    None,
                    old(self).cfg.safety.circuit_breaker.cooldown_sec,
                    old(self).cfg.safety.circuit_breaker.max_losses_in_row,
                ),
                old(self).pnl,
                final(self).pnl,
                r.0,
                r.1,
            ),
            (old(self).pnl.last_loss_ts is Some && old(self).cfg.safety.circuit_breaker.cooldown_sec
                == 0) || (old(self).pnl.consec_losses == 0 && old(
                self,
            ).cfg.safety.circuit_breaker.max_losses_in_row > 0) ==> scan_begins(
                *old(self).cfg,
                *old(self).planner.cfg,
                *net,
                ScanGuard::Proceed,
                old(self).pnl,
                final(self).pnl,
                r.0,
                r.1,
            ),
            old(self).pnl.consec_losses >= old(self).cfg.safety.circuit_breaker.max_losses_in_row
                && old(self).pnl.last_loss_ts is None ==> r.1 is Halted && final(self).pnl == old(
                self,
            ).pnl,
    {
        let breaker = self.cfg.safety.circuit_breaker;
        let ghost before = self.pnl;
        let guard = self.pnl.guard(breaker.cooldown_sec, breaker.max_losses_in_row);
        let ghost e = choose|e: Option<u128>|
            (e is Some <==> before.last_loss_ts is Some) && guard == scan_guard_spec(
                before.consec_losses,
                e,
                breaker.cooldown_sec,
                breaker.max_losses_in_row,
            );
        let r = self.begin_scan_with(net, guard);
        assert((e is Some <==> old(self).pnl.last_loss_ts is Some) && scan_begins(
            *old(self).cfg,
            *old(self).planner.cfg,
            *net,
            scan_guard_spec(
                old(self).pnl.consec_losses,
                e,
                old(self).cfg.safety.circuit_breaker.cooldown_sec,
                old(self).cfg.safety.circuit_breaker.max_losses_in_row,
            ),
            old(self).pnl,
            self.pnl,
            r.0,
            r.1,
        ));
        r
    }

    /// Takes in what the caller reports back, and says what to do next.
    pub fn advance_scan(&mut self, net: &Network, st: ScanState, event: ScanEvent) -> (r: (
        ScanState,
        ScanStep,
    ))
        ensures
            final(self).cfg == old(self).cfg,
            final(self).planner == old(self).planner,
            scan_goes_on(
                *old(self).cfg,
                *net,
                st,
                event,
                old(self).pnl,
                final(self).pnl,
                r.0,
                r.1,
            ),
    {
        match (st.phase, event) {
            (ScanPhase::Routes, ScanEvent::Next) => self.arrive_at_route(net, st, st.index),
            (ScanPhase::RouteCounted, ScanEvent::Next) => self.after_counted_route(net, st),
            (ScanPhase::RouteQuoting, ScanEvent::Quoted(found)) => self.after_quoted(
                net,
                st,
                found,
                false,
            ),
            (ScanPhase::RouteExecuting, ScanEvent::Executed(ok)) => self.after_executed(
                net,
                st,
                ok,
                false,
            ),
            (ScanPhase::RouteExecuting, ScanEvent::NotExecuted) => self.after_executed(
                net,
                st,
                false,
                false,
            ),
            (ScanPhase::Triangles, ScanEvent::Next) => self.arrive_at_triangle(net, st, st.index),
            (ScanPhase::TriangleCounted, ScanEvent::Next) => self.after_counted_triangle(net, st),
            (ScanPhase::TriangleQuoting, ScanEvent::Quoted(found)) => self.after_quoted(
                net,
                st,
                found,
                true,
            ),
            (ScanPhase::TriangleExecuting, ScanEvent::Executed(ok)) => self.after_executed(
                net,
                st,
                ok,
                true,
            ),
            (ScanPhase::TriangleExecuting, ScanEvent::NotExecuted) => self.after_executed(
                net,
                st,
                false,
                true,
            ),
            _ => (
                ScanState { phase: ScanPhase::Finished, ..st },
                ScanStep::Abort(ScanFault::UnexpectedEvent),
            ),
        }
    }
}

/// A closed guard spends nothing: whatever keeps the guard from letting
/// the scan proceed, the scan neither counts nor quotes nor offers
/// anything, and it leaves the loss record as it was.
pub proof fn lemma_halted_scan_spends_nothing(
    cfg: Config,
    planned: Config,
    net: Network,
    guard: ScanGuard,
    before: PnLTracker,
    after_pnl: PnLTracker,
    after: ScanState,
    step: ScanStep,
)
    requires
        guard != ScanGuard::Proceed,
        scan_begins(cfg, planned, net, guard, before, after_pnl, after, step),
    ensures
        step is Halted,
        after.phase == ScanPhase::Finished,
        after_pnl == before,
{
}

/// A blacklisted token keeps its route from being scanned: when a scan
/// arrives at a route with a blacklisted token, the step is a skip — never
/// a count, a quote or a candidate.
pub proof fn lemma_blacklisted_route_is_skipped(
    cfg: Config,
    net: Network,
    st: ScanState,
    i: usize,
    before: PnLTracker,
    after_pnl: PnLTracker,
    after: ScanState,
    step: ScanStep,
)
    requires
        i < routes_of(net).len(),
        skip_pair_by_risk_spec(cfg, net, routes_of(net)[i as int].pair[0]@, routes_of(net)[i as int].pair[1]@),
        arrives_at_route(cfg, net, st, i, before, after_pnl, after, step),
    ensures
        step is RouteSkipped,
        after.phase == ScanPhase::Routes,
        after_pnl == before,
{
}


/// How far a scan has come: four steps per route and per triangle, routes
/// first.
pub open spec fn scan_rank(net: Network, st: ScanState) -> int {
    let routes = routes_of(net).len() as int;
    let triangles = net.triangles@.len() as int;
    match st.phase {
        ScanPhase::Routes => 4 * st.index,
        ScanPhase::RouteCounted => 4 * st.index + 1,
        ScanPhase::RouteQuoting => 4 * st.index + 2,
        ScanPhase::RouteExecuting => 4 * st.index + 3,
        ScanPhase::Triangles => 4 * (routes + st.index),
        ScanPhase::TriangleCounted => 4 * (routes + st.index) + 1,
        ScanPhase::TriangleQuoting => 4 * (routes + st.index) + 2,
        ScanPhase::TriangleExecuting => 4 * (routes + st.index) + 3,
        ScanPhase::Finished => 4 * (routes + triangles) + 4,
    }
}

/// Whether the state of a scan points at a route or triangle of the chain,
/// or just past the last one where it is about to arrive.
pub open spec fn scan_in_range(net: Network, st: ScanState) -> bool {
    match st.phase {
        ScanPhase::Routes => st.index <= routes_of(net).len(),
        ScanPhase::RouteCounted | ScanPhase::RouteQuoting | ScanPhase::RouteExecuting => st.index
            < routes_of(net).len(),
        ScanPhase::Triangles => st.index <= net.triangles@.len(),
        ScanPhase::TriangleCounted | ScanPhase::TriangleQuoting | ScanPhase::TriangleExecuting => st.index
            < net.triangles@.len(),
        ScanPhase::Finished => true,
    }
}

/// A scan always moves forward: every report from the caller takes it
/// further, so each route and each triangle is looked at once and the scan
/// is over after at most four steps per route and triangle.
pub proof fn lemma_scan_progresses(
    cfg: Config,
    net: Network,
    st: ScanState,
    event: ScanEvent,
    before: PnLTracker,
    after_pnl: PnLTracker,
    after: ScanState,
    step: ScanStep,
)
    requires
        routes_of(net).len() < usize::MAX,
        net.triangles@.len() < usize::MAX,
        scan_in_range(net, st),
        st.phase != ScanPhase::Finished,
        scan_goes_on(cfg, net, st, event, before, after_pnl, after, step),
    ensures
        scan_in_range(net, after),
        scan_rank(net, after) > scan_rank(net, st),
        scan_rank(net, after) <= 4 * (routes_of(net).len() + net.triangles@.len()) + 4,
{
}


/// Nothing is offered for execution unless its least acceptable output is
/// strictly more than its input: whatever quote the caller reports, a
/// candidate comes only of one with `min_out` above `amount_in`.
pub proof fn lemma_candidate_keeps_min_out_above_input(
    cfg: Config,
    net: Network,
    st: ScanState,
    found: Option<QuoteResult>,
    before: PnLTracker,
    after_pnl: PnLTracker,
    after: ScanState,
    step: ScanStep,
)
    requires
        st.phase == ScanPhase::RouteQuoting || st.phase == ScanPhase::TriangleQuoting,
        scan_goes_on(cfg, net, st, ScanEvent::Quoted(found), before, after_pnl, after, step),
        step is Candidate,
    ensures
        found matches Some(q) && q.min_out@ > q.amount_in@,
{
}

} // verus!
