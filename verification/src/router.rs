//! Route quoting: looking tokens up, ordering the exchanges to try, and
//! judging a finished route.

use vstd::prelude::*;
use vstd::string::*;
use crate::address::Address;
use crate::calldata::LegQuote;
use crate::config::{dex_position, token_position, DexConfig, Network};
use crate::dex::{checked_min_out_bps, min_out_fits, min_out_spec};
use crate::error::ArbError;
use crate::legs::{
    leg_goes_on,
    leg_opening,
    leg_opens,
    quote_on_dex,
    DexCall,
    DexReply,
    LegState,
    LegStep,
    Opening,
    QuoteFault,
};
use crate::text::{to_uppercase, uppercase_text};
use crate::utils::first_from;
use crate::utils_gas::gas_cost_wei;
use crate::uint::{u256_limit, U256};
use crate::utils::{parse_addr, parsed_address};

verus! {

/// Decimals assumed of a token that the chain does not list.
pub const DEFAULT_DECIMALS: u8 = 18;

/// A quoted round trip that passed the profitability test.
#[derive(Clone, Debug)]
pub struct QuoteResult {
    pub amount_in: U256,
    pub amount_out: U256,
    /// The least output that the route may deliver after slippage.
    pub min_out: U256,
    /// Gas budget of the route, safety margin included.
    pub gas_estimate: u64,
    pub gas_price: U256,
    pub legs: Vec<LegQuote>,
    /// Gross profit in base units of the start token, counted only when the
    /// start token is the chain's native asset or its wrapped form.
    pub profit_native: U256,
    /// Cost of the gas budget at the gas price, in wei.
    pub gas_cost: U256,
}

/// Whether a symbol names the chain's native asset or its wrapped form,
/// regardless of case.
pub open spec fn is_native_symbol_spec(native_symbol: Seq<char>, sym: Seq<char>) -> bool {
    uppercase_text(sym) == uppercase_text(native_symbol) || uppercase_text(sym) == "W"@
        + uppercase_text(native_symbol)
}

/// The address that a chain lists for a symbol, absent when the symbol is
/// not listed or its address cannot be read.
pub open spec fn addr_of_spec(net: Network, sym: Seq<char>) -> Option<Seq<u8>> {
    match token_position(net.tokens@, uppercase_text(sym)) {
        Some(i) => parsed_address(net.tokens@[i].1.address@),
        None => None,
    }
}

/// The decimals that a chain lists for a symbol, 18 when it lists none.
pub open spec fn decimals_of_spec(net: Network, sym: Seq<char>) -> u8 {
    match token_position(net.tokens@, uppercase_text(sym)) {
        Some(i) => net.tokens@[i].1.decimals,
        None => 18u8,
    }
}

/// A gas total raised by the fixed safety margin of 15%, rounded up, and
/// capped at the largest 64-bit number.
pub open spec fn gas_with_margin_spec(gas_total: u64) -> u64 {
    let raised = (gas_total * 115 + 99) / 100;
    if raised > u64::MAX {
        u64::MAX
    } else {
        raised as u64
    }
}

/// Whether a round trip is worth taking: even the least output that
/// slippage allows is strictly more than what went in.
pub open spec fn route_accepted(amount_in: nat, amount_out: nat, slippage_bps: nat) -> bool {
    min_out_spec(amount_out, slippage_bps) > amount_in && amount_out > amount_in
}

/// Whether the figures of a route can be worked out in 256 bits.
pub open spec fn route_fits(amount_out: nat, slippage_bps: nat, gas_total: u64, gas_price: nat) -> bool {
    min_out_fits(amount_out, slippage_bps) && gas_with_margin_spec(gas_total) * gas_price
        < u256_limit()
}

/// Whether `sym` names the chain's native asset or its wrapped form.
pub fn is_native_symbol(net: &Network, sym: &str) -> (r: bool)
    ensures
        r == is_native_symbol_spec(net.native_symbol@, sym@),
{
    let s = to_uppercase(sym);
    let native = to_uppercase(net.native_symbol.as_str());
    let mut wrapped = String::from_str("W");
    wrapped.append(native.as_str());
    s == native || s == wrapped
}

/// The address of the token that the chain lists under `sym`.
pub fn addr_of(net: &Network, sym: &str) -> (r: Result<Address, ArbError>)
    ensures
        match r {
            Ok(a) => addr_of_spec(*net, sym@) == Some(a@),
            Err(e) => addr_of_spec(*net, sym@) is None && e is Quote,
        },
{
    let key = to_uppercase(sym);
    match net.token_index(key.as_str()) {
        Some(i) => match parse_addr(net.tokens[i].1.address.as_str()) {
            Ok(a) => Ok(a),
            Err(why) => Err(ArbError::Quote(why)),
        },
        None => {
            let mut msg = String::from_str("token not found: ");
            msg.append(sym);
            Err(ArbError::Quote(msg))
        },
    }
}

/// The decimals of the token that the chain lists under `sym`, or 18.
pub fn decimals_of(net: &Network, sym: &str) -> (r: u8)
    ensures
        r == decimals_of_spec(*net, sym@),
{
    let key = to_uppercase(sym);
    match net.token_index(key.as_str()) {
        Some(i) => net.tokens[i].1.decimals,
        None => DEFAULT_DECIMALS,
    }
}

/// A gas total with the safety margin of 15% on top.
pub fn gas_with_margin(gas_total: u64) -> (r: u64)
    ensures
        r == gas_with_margin_spec(gas_total),
{
    let raised: u128 = (gas_total as u128 * 115 + 99) / 100;
    if raised > u64::MAX as u128 {
        u64::MAX
    } else {
        raised as u64
    }
}

/// Judges a finished round trip.  It is accepted, and its figures are
/// returned, exactly when the least output after slippage is strictly more
/// than the input; otherwise there is no opportunity and the result is
/// `None`.  Figures that do not fit in 256 bits are an error.
pub fn evaluate_route(
    amount_in: U256,
    amount_out: U256,
    slip_bps: u32,
    gas_total: u64,
    gas_price: U256,
    legs: Vec<LegQuote>,
    start_is_native: bool,
) -> (r: Result<Option<QuoteResult>, ArbError>)
    ensures
        r is Ok <==> route_fits(amount_out@, slip_bps as nat, gas_total, gas_price@),
        r matches Ok(found) ==> (found is Some <==> route_accepted(
            amount_in@,
            amount_out@,
            slip_bps as nat,
        )),
        r matches Ok(Some(q)) ==> {
            &&& q.amount_in == amount_in
            &&& q.amount_out == amount_out
            &&& q.min_out@ == min_out_spec(amount_out@, slip_bps as nat)
            &&& q.min_out@ > q.amount_in@
            &&& q.amount_out@ > q.amount_in@
            &&& q.gas_estimate == gas_with_margin_spec(gas_total)
            &&& q.gas_price == gas_price
            &&& q.gas_cost@ == gas_with_margin_spec(gas_total) * gas_price@
            &&& q.legs == legs
            &&& q.profit_native@ == if start_is_native {
                amount_out@ - amount_in@
            } else {
                0
            }
        },
        r matches Err(e) ==> e is Quote,
{
    let gas_estimate = gas_with_margin(gas_total);
    let gas_cost = match gas_cost_wei(gas_estimate, gas_price) {
        Some(c) => c,
        None => {
            return Err(ArbError::Quote(String::from_str("gas cost exceeds 256 bits")));
        },
    };
    let min_out = match checked_min_out_bps(amount_out, slip_bps) {
        Some(m) => m,
        None => {
            return Err(ArbError::Quote(String::from_str("minimum output cannot be computed")));
        },
    };
    if min_out.le(&amount_in) {
        return Ok(None);
    }
    if amount_out.le(&amount_in) {
        return Ok(None);
    }
    let profit_native = if start_is_native {
        amount_out.saturating_sub(amount_in)
    } else {
        U256::zero()
    };
    Ok(
        Some(
            QuoteResult {
                amount_in,
                amount_out,
                min_out,
                gas_estimate,
                gas_price,
                legs,
                profit_native,
                gas_cost,
            },
        ),
    )
}

/// No accepted route gives back less than it took, even after slippage:
/// acceptance means that the least output is strictly more than the input,
/// and since slippage only lowers the output, so is the quoted output.
pub proof fn lemma_accepted_route_is_profitable(amount_in: nat, amount_out: nat, slippage_bps: nat)
    ensures
        route_accepted(amount_in, amount_out, slippage_bps) <==> min_out_spec(
            amount_out,
            slippage_bps,
        ) > amount_in,
        route_accepted(amount_in, amount_out, slippage_bps) ==> !(min_out_spec(
            amount_out,
            slippage_bps,
        ) <= amount_in),
{
    crate::dex::lemma_min_out_bounds(amount_out, slippage_bps);
}


/// Whether a name is among the preferred ones.
pub open spec fn is_preferred(preferred: Seq<String>, name: Seq<char>) -> bool {
    exists|j: int| 0 <= j < preferred.len() && (#[trigger] preferred[j])@ == name
}

/// The exchanges that the preferred names pick, in the order of the names;
/// a name that no exchange carries picks none.
pub open spec fn preferred_part(dexes: Seq<DexConfig>, preferred: Seq<String>) -> Seq<usize>
    decreases preferred.len(),
{
    if preferred.len() == 0 {
        Seq::empty()
    } else {
        let before = preferred_part(dexes, preferred.drop_last());
        match dex_position(dexes, preferred.last()@) {
            Some(i) => before.push(i as usize),
            None => before,
        }
    }
}

/// The first `upto` exchanges that no preferred name picks, in their
/// declared order.
pub open spec fn remaining_part(dexes: Seq<DexConfig>, preferred: Seq<String>, upto: int) -> Seq<usize>
    decreases upto,
{
    if upto <= 0 {
        Seq::empty()
    } else {
        let before = remaining_part(dexes, preferred, upto - 1);
        if is_preferred(preferred, dexes[upto - 1].name@) {
            before
        } else {
            before.push((upto - 1) as usize)
        }
    }
}

/// The order in which the exchanges are tried on a leg: the preferred ones
/// first, in the order they are named, then all the others in their
/// declared order.
pub open spec fn dex_trial_order_spec(dexes: Seq<DexConfig>, preferred: Seq<String>) -> Seq<usize> {
    preferred_part(dexes, preferred) + remaining_part(dexes, preferred, dexes.len() as int)
}

/// Whether `name` is one of the preferred names.
fn name_listed(preferred: &[String], name: &String) -> (r: bool)
    ensures
        r == is_preferred(preferred@, name@),
{
    let mut j: usize = 0;
    while j < preferred.len()
        invariant
            j <= preferred@.len(),
            forall|k: int| 0 <= k < j ==> (#[trigger] preferred@[k])@ != name@,
        decreases preferred@.len() - j,
    {
        if preferred[j] == *name {
            return true;
        }
        j += 1;
    }
    false
}

/// The order in which to try the exchanges of a chain on a leg.  Every
/// position it lists is a position in the chain's exchange list.
pub fn dex_trial_order(net: &Network, preferred: &[String]) -> (order: Vec<usize>)
    ensures
        order@ == dex_trial_order_spec(net.dexes@, preferred@),
        forall|k: int| 0 <= k < order@.len() ==> (#[trigger] order@[k]) < net.dexes@.len(),
{
    let mut order: Vec<usize> = Vec::new();
    let mut j: usize = 0;
    while j < preferred.len()
        invariant
            j <= preferred@.len(),
            order@ == preferred_part(net.dexes@, preferred@.subrange(0, j as int)),
            forall|k: int| 0 <= k < order@.len() ==> (#[trigger] order@[k]) < net.dexes@.len(),
        decreases preferred@.len() - j,
    {
        let found = net.dex_index(preferred[j].as_str());
        proof {
            let upto = preferred@.subrange(0, j as int + 1);
            assert(upto.drop_last() =~= preferred@.subrange(0, j as int));
            assert(upto.last() == preferred@[j as int]);
        }
        match found {
            Some(i) => {
                order.push(i);
            },
            None => {},
        }
        j += 1;
    }
    assert(preferred@.subrange(0, preferred@.len() as int) =~= preferred@);
    let ghost head = order@;
    let mut i: usize = 0;
    while i < net.dexes.len()
        invariant
            i <= net.dexes@.len(),
            head == preferred_part(net.dexes@, preferred@),
            order@ == head + remaining_part(net.dexes@, preferred@, i as int),
            forall|k: int| 0 <= k < order@.len() ==> (#[trigger] order@[k]) < net.dexes@.len(),
        decreases net.dexes@.len() - i,
    {
        if !name_listed(preferred, &net.dexes[i].name) {
            order.push(i);
            assert(order@ =~= head + remaining_part(net.dexes@, preferred@, i as int + 1));
        }
        i += 1;
    }
    order
}


/// One leg of a route to quote: the two tokens, and the exchanges to try
/// in order, by their positions in the chain's exchange list.
#[derive(Clone, Debug)]
pub struct Hop {
    pub token_in: String,
    pub token_out: String,
    pub candidates: Vec<usize>,
}

/// Where the quote of a route stands.
#[derive(Clone, Copy, Debug, PartialEq, Eq, Structural)]
pub enum RoutePhase {
    /// A leg is being quoted.
    Quoting,
    /// All legs are quoted; the gas price is being fetched.
    Pricing,
    /// Nothing is asked.
    Finished,
}

/// The quote of a whole round trip, leg after leg: each leg takes the
/// output of the one before it as its input.
#[derive(Clone, Debug)]
pub struct RouteQuoter {
    pub hops: Vec<Hop>,
    /// The leg being quoted.
    pub hop: usize,
    /// The exchange being tried for it, as a position among its candidates.
    pub candidate: usize,
    pub leg: LegState,
    /// What goes into the first leg.
    pub amount_in: U256,
    /// What goes into the leg being quoted.
    pub amount: U256,
    /// The legs quoted so far.
    pub legs: Vec<LegQuote>,
    /// Their gas budgets, added up.
    pub gas_total: u64,
    pub slip_bps: u32,
    pub start_is_native: bool,
    pub phase: RoutePhase,
}

/// What happens next in the quote of a route.
#[derive(Clone, Debug)]
pub enum RouteStep {
    /// Perform this read and report what it returns.
    Call(DexCall),
    /// Fetch the gas price and report it.
    FetchGasPrice,
    /// The quote is over: an accepted route, or none.
    Done(Option<QuoteResult>),
    /// The quote cannot be taken.
    Fail(QuoteFault),
}

/// What the chain answered.
#[derive(Clone, Copy, Debug)]
pub enum RouteReply {
    Dex(DexReply),
    GasPrice(U256),
}

/// How the quote of a leg opens on the candidate exchange at position `c`
/// of the chain's list.
pub open spec fn hop_opening(net: Network, hop: Hop, c: usize) -> Opening {
    if c < net.dexes@.len() {
        leg_opening(net, net.dexes@[c as int], hop.token_in@, hop.token_out@)
    } else {
        Opening::Faulty(QuoteFault::UnknownExchange)
    }
}

/// The first candidate of a leg, at or after position `from`, on which the
/// quote does not end at once without liquidity.
pub open spec fn seek(net: Network, hop: Hop, from: int) -> Option<int> {
    first_from(hop.candidates@, |c: usize| hop_opening(net, hop, c) != Opening::Dry, from)
}

/// The gas total with one more leg, capped at the largest 64-bit number.
pub open spec fn gas_sum(total: u64, gas: u64) -> u64 {
    if total + gas > u64::MAX {
        u64::MAX
    } else {
        (total + gas) as u64
    }
}

/// How the quote of a route resumes at leg `hop`, trying its candidates
/// from position `from` on with `amount` as input.  Past the last leg the
/// gas price is asked for.  Otherwise the first candidate that does not end
/// at once without liquidity decides: its fault ends the quote, its question
/// is passed on; with no such candidate the route is not found.
pub open spec fn route_resumes(
    net: Network,
    q: RouteQuoter,
    hop: usize,
    from: usize,
    amount: U256,
    legs: Seq<LegQuote>,
    gas_total: u64,
    after: RouteQuoter,
    step: RouteStep,
) -> bool {
    &&& after.hops == q.hops
    &&& after.amount_in == q.amount_in
    &&& after.slip_bps == q.slip_bps
    &&& after.start_is_native == q.start_is_native
    &&& after.hop == hop
    &&& after.amount == amount
    &&& after.legs@ == legs
    &&& after.gas_total == gas_total
    &&& if hop >= q.hops@.len() {
        step is FetchGasPrice && after.phase == RoutePhase::Pricing
    } else {
        match seek(net, q.hops@[hop as int], from as int) {
            None => step == RouteStep::Done(None) && after.phase == RoutePhase::Finished,
            Some(i) => match hop_opening(
                net,
                q.hops@[hop as int],
                q.hops@[hop as int].candidates@[i],
            ) {
                Opening::Faulty(f) => step == RouteStep::Fail(f) && after.phase
                    == RoutePhase::Finished,
                _ => {
                    &&& step matches RouteStep::Call(c)
                    &&& after.phase == RoutePhase::Quoting
                    &&& after.candidate == i
                    &&& leg_opens(
                        net,
                        net.dexes@[q.hops@[hop as int].candidates@[i] as int],
                        q.hops@[hop as int].token_in@,
                        q.hops@[hop as int].token_out@,
                        amount,
                        after.leg,
                        LegStep::Call(c),
                    )
                },
            },
        }
    }
}

/// How the quote of a route goes on when the quote of its current leg has
/// taken a step: a question is passed on; a fault ends the route; a leg
/// without liquidity sends the quote to the next candidate exchange; a
/// quoted leg is added to the route and its output goes into the next leg.
pub open spec fn route_takes_leg(
    net: Network,
    q: RouteQuoter,
    leg_state: LegState,
    leg_step: LegStep,
    after: RouteQuoter,
    step: RouteStep,
) -> bool {
    match leg_step {
        LegStep::Call(c) => step == RouteStep::Call(c) && after == (RouteQuoter {
            leg: leg_state,
            ..q
        }),
        LegStep::Fail(f) => step == RouteStep::Fail(f) && after.phase == RoutePhase::Finished,
        LegStep::Done(None) => if q.candidate == usize::MAX {
            step == RouteStep::Done(None) && after.phase == RoutePhase::Finished
        } else {
            route_resumes(
                net,
                q,
                q.hop,
                (q.candidate + 1) as usize,
                q.amount,
                q.legs@,
                q.gas_total,
                after,
                step,
            )
        },
        LegStep::Done(Some(o)) => if q.hop == usize::MAX {
            step == RouteStep::Fail(QuoteFault::Overflow) && after.phase == RoutePhase::Finished
        } else {
            route_resumes(
                net,
                q,
                (q.hop + 1) as usize,
                0,
                o.amount_out,
                q.legs@.push(o.leg),
                gas_sum(q.gas_total, o.gas),
                after,
                step,
            )
        },
    }
}

/// How the quote of a route ends once the gas price is known: the route
/// is judged on its input, its final output and the slippage allowed.
pub open spec fn route_settles(q: RouteQuoter, gas_price: U256, step: RouteStep) -> bool {
    if !route_fits(q.amount@, q.slip_bps as nat, q.gas_total, gas_price@) {
        step == RouteStep::Fail(QuoteFault::Overflow)
    } else if !route_accepted(q.amount_in@, q.amount@, q.slip_bps as nat) {
        step == RouteStep::Done(None)
    } else {
        &&& step matches RouteStep::Done(Some(r))
        &&& r.amount_in == q.amount_in
        &&& r.amount_out == q.amount
        &&& r.min_out@ == min_out_spec(q.amount@, q.slip_bps as nat)
        &&& r.min_out@ > r.amount_in@
        &&& r.gas_estimate == gas_with_margin_spec(q.gas_total)
        &&& r.gas_price == gas_price
        &&& r.gas_cost@ == gas_with_margin_spec(q.gas_total) * gas_price@
        &&& r.legs@ == q.legs@
        &&& r.profit_native@ == if q.start_is_native {
            q.amount@ - q.amount_in@
        } else {
            0
        }
    }
}

/// How the quote of a route goes on when the chain has answered.
pub open spec fn route_goes_on(
    net: Network,
    q: RouteQuoter,
    reply: RouteReply,
    after: RouteQuoter,
    step: RouteStep,
) -> bool {
    match (q.phase, reply) {
        (RoutePhase::Quoting, RouteReply::Dex(r)) => exists|leg_state: LegState, leg_step: LegStep|
            #[trigger] leg_goes_on(q.leg, r, leg_state, leg_step) && route_takes_leg(
                net,
                q,
                leg_state,
                leg_step,
                after,
                step,
            ),
        (RoutePhase::Pricing, RouteReply::GasPrice(p)) => after.phase == RoutePhase::Finished
            && route_settles(q, p, step),
        _ => step == RouteStep::Fail(QuoteFault::UnexpectedReply) && after.phase
            == RoutePhase::Finished,
    }
}

impl RouteQuoter {
    fn finish(self) -> (after: RouteQuoter)
        ensures
            after == (RouteQuoter { phase: RoutePhase::Finished, leg: LegState::Finished, ..self }),
    {
        let mut after = self;
        after.phase = RoutePhase::Finished;
        after.leg = LegState::Finished;
        after
    }

    /// Resumes the quote at the current leg and candidate.
    fn resume(self, net: &Network) -> (r: (RouteQuoter, RouteStep))
        ensures
            route_resumes(
                *net,
                self,
                self.hop,
                self.candidate,
                self.amount,
                self.legs@,
                self.gas_total,
                r.0,
                r.1,
            ),
    {
        let mut q = self;
        if q.hop >= q.hops.len() {
            q.phase = RoutePhase::Pricing;
            q.leg = LegState::Finished;
            return (q, RouteStep::FetchGasPrice);
        }
        let ghost hop = self.hops@[self.hop as int];
        let ghost pred = |c: usize| hop_opening(*net, hop, c) != Opening::Dry;
        let mut k: usize = q.candidate;
        loop
            invariant
                q == self,
                self.hop < self.hops@.len(),
                hop == self.hops@[self.hop as int],
                pred == (|c: usize| hop_opening(*net, hop, c) != Opening::Dry),
                self.candidate <= k,
                first_from(hop.candidates@, pred, self.candidate as int) == first_from(
                    hop.candidates@,
                    pred,
                    k as int,
                ),
            decreases hop.candidates@.len() - k,
        {
            if k >= q.hops[q.hop].candidates.len() {
                return (q.finish(), RouteStep::Done(None));
            }
            let c = q.hops[q.hop].candidates[k];
            if c >= net.dexes.len() {
                assert(pred(c));
                return (q.finish(), RouteStep::Fail(QuoteFault::UnknownExchange));
            }
            let (leg_state, leg_step) = quote_on_dex(
                net,
                &net.dexes[c],
                q.hops[q.hop].token_in.as_str(),
                q.hops[q.hop].token_out.as_str(),
                q.amount,
            );
            match leg_step {
                LegStep::Call(call) => {
                    assert(pred(c));
                    q.candidate = k;
                    q.leg = leg_state;
                    q.phase = RoutePhase::Quoting;
                    return (q, RouteStep::Call(call));
                },
                LegStep::Fail(f) => {
                    assert(pred(c));
                    return (q.finish(), RouteStep::Fail(f));
                },
                LegStep::Done(_) => {
                    assert(!pred(c));
                    k += 1;
                },
            }
        }
    }

    /// Takes in a step of the quote of the current leg.
    fn take_leg(self, net: &Network, leg_state: LegState, leg_step: LegStep) -> (r: (
        RouteQuoter,
        RouteStep,
    ))
        ensures
            route_takes_leg(*net, self, leg_state, leg_step, r.0, r.1),
    {
        let mut q = self;
        match leg_step {
            LegStep::Call(c) => {
                q.leg = leg_state;
                (q, RouteStep::Call(c))
            },
            LegStep::Fail(f) => (q.finish(), RouteStep::Fail(f)),
            LegStep::Done(None) => {
                if q.candidate == usize::MAX {
                    return (q.finish(), RouteStep::Done(None));
                }
                q.candidate = q.candidate + 1;
                let (after, step) = q.resume(net);
                (after, step)
            },
            LegStep::Done(Some(o)) => {
                if q.hop == usize::MAX {
                    return (q.finish(), RouteStep::Fail(QuoteFault::Overflow));
                }
                q.hop = q.hop + 1;
                q.candidate = 0;
                q.amount = o.amount_out;
                q.legs.push(o.leg);
                q.gas_total = q.gas_total.saturating_add(o.gas);
                let (after, step) = q.resume(net);
                (after, step)
            },
        }
    }

    /// Ends the quote with the gas price known.
    fn settle(self, gas_price: U256) -> (r: (RouteQuoter, RouteStep))
        ensures
            r.0.phase == RoutePhase::Finished,
            route_settles(self, gas_price, r.1),
    {
        let RouteQuoter {
            hops,
            hop,
            candidate,
            leg,
            amount_in,
            amount,
            legs,
            gas_total,
            slip_bps,
            start_is_native,
            phase,
        } = self;
        let step = match evaluate_route(
            amount_in,
            amount,
            slip_bps,
            gas_total,
            gas_price,
            legs,
            start_is_native,
        ) {
            Ok(found) => RouteStep::Done(found),
            Err(_) => RouteStep::Fail(QuoteFault::Overflow),
        };
        let after = RouteQuoter {
            hops,
            hop,
            candidate,
            leg: LegState::Finished,
            amount_in,
            amount,
            legs: Vec::new(),
            gas_total,
            slip_bps,
            start_is_native,
            phase: RoutePhase::Finished,
        };
        (after, step)
    }

    /// Takes in the chain's answer to what the last step asked for, and
    /// says what happens next.  `net` is the chain that the route was
    /// opened on.
    pub fn on_reply(self, net: &Network, reply: RouteReply) -> (r: (RouteQuoter, RouteStep))
        ensures
            route_goes_on(*net, self, reply, r.0, r.1),
            r.1 matches RouteStep::Done(Some(found)) ==> found.min_out@ > found.amount_in@
                && found.amount_out@ > found.amount_in@,
    {
        match (self.phase, reply) {
            (RoutePhase::Quoting, RouteReply::Dex(answer)) => {
                let mut q = self;
                let mut leg = LegState::Finished;
                std::mem::swap(&mut q.leg, &mut leg);
                let (leg_state, leg_step) = leg.on_reply(answer);
                assert(leg_goes_on(self.leg, answer, leg_state, leg_step));
                let ghost mid = q;
                let (after, step) = q.take_leg(net, leg_state, leg_step);
                proof {
                    assert(route_takes_leg(*net, mid, leg_state, leg_step, after, step));
                    lemma_leg_slot_is_free(*net, self, mid, leg_state, leg_step, after, step);
                }
                (after, step)
            },
            (RoutePhase::Pricing, RouteReply::GasPrice(p)) => {
                let (after, step) = self.settle(p);
                proof {
                    crate::dex::lemma_min_out_bounds(self.amount@, self.slip_bps as nat);
                }
                (after, step)
            },
            _ => (self.finish(), RouteStep::Fail(QuoteFault::UnexpectedReply)),
        }
    }
}

/// What the route does with a step of its leg does not depend on what the
/// slot of the leg held before.
proof fn lemma_leg_slot_is_free(
    net: Network,
    q: RouteQuoter,
    mid: RouteQuoter,
    leg_state: LegState,
    leg_step: LegStep,
    after: RouteQuoter,
    step: RouteStep,
)
    requires
        mid == (RouteQuoter { leg: mid.leg, ..q }),
        route_takes_leg(net, mid, leg_state, leg_step, after, step),
    ensures
        route_takes_leg(net, q, leg_state, leg_step, after, step),
{
}


/// A leg to quote, as plain values: token in, token out, candidates.
pub type HopPlan = (Seq<char>, Seq<char>, Seq<usize>);

/// Whether `q` is the quote of a route before anything was asked: the legs
/// are the planned ones, nothing is quoted, and the input of the first leg
/// is the input of the route.
pub open spec fn route_start(
    q: RouteQuoter,
    plan: Seq<HopPlan>,
    amount_in: U256,
    slip_bps: u32,
    start_is_native: bool,
) -> bool {
    &&& q.hops@.len() == plan.len()
    &&& forall|i: int|
        0 <= i < plan.len() ==> (#[trigger] q.hops@[i]).token_in@ == plan[i].0 && q.hops@[i].token_out@
            == plan[i].1 && q.hops@[i].candidates@ == plan[i].2
    &&& q.hop == 0
    &&& q.candidate == 0
    &&& q.amount_in == amount_in
    &&& q.amount == amount_in
    &&& q.legs@ == Seq::<LegQuote>::empty()
    &&& q.gas_total == 0
    &&& q.slip_bps == slip_bps
    &&& q.start_is_native == start_is_native
}

/// The two legs of a round trip across two exchanges: out on the first,
/// back on the second.
pub open spec fn pair_plan(sym_a: Seq<char>, sym_b: Seq<char>, dex_a: usize, dex_b: usize) -> Seq<HopPlan> {
    seq![(sym_a, sym_b, seq![dex_a]), (sym_b, sym_a, seq![dex_b])]
}

/// The three legs of a triangle, each trying the exchanges in `order`.
pub open spec fn triangle_plan(a: Seq<char>, b: Seq<char>, c: Seq<char>, order: Seq<usize>) -> Seq<HopPlan> {
    seq![(a, b, order), (b, c, order), (c, a, order)]
}

fn copy_positions(positions: &Vec<usize>) -> (r: Vec<usize>)
    ensures
        r@ == positions@,
{
    let mut r: Vec<usize> = Vec::new();
    let mut i: usize = 0;
    while i < positions.len()
        invariant
            i <= positions.len(),
            r@ == positions@.subrange(0, i as int),
        decreases positions.len() - i,
    {
        r.push(positions[i]);
        assert(positions@.subrange(0, i as int + 1) =~= positions@.subrange(0, i as int).push(
            positions@[i as int],
        ));
        i += 1;
    }
    assert(positions@.subrange(0, positions.len() as int) =~= positions@);
    r
}

fn make_hop(token_in: &str, token_out: &str, candidates: Vec<usize>) -> (h: Hop)
    ensures
        h.token_in@ == token_in@,
        h.token_out@ == token_out@,
        h.candidates == candidates,
{
    Hop {
        token_in: String::from_str(token_in),
        token_out: String::from_str(token_out),
        candidates,
    }
}

fn open_route(net: &Network, hops: Vec<Hop>, start_sym: &str, amount_in: U256, slip_bps: u32) -> (q:
    RouteQuoter)
    ensures
        q.hops == hops,
        q.hop == 0,
        q.candidate == 0,
        q.amount_in == amount_in,
        q.amount == amount_in,
        q.legs@ == Seq::<LegQuote>::empty(),
        q.gas_total == 0,
        q.slip_bps == slip_bps,
        q.start_is_native == is_native_symbol_spec(net.native_symbol@, start_sym@),
{
    RouteQuoter {
        hops,
        hop: 0,
        candidate: 0,
        leg: LegState::Finished,
        amount_in,
        amount: amount_in,
        legs: Vec::new(),
        gas_total: 0,
        slip_bps,
        start_is_native: is_native_symbol(net, start_sym),
        phase: RoutePhase::Quoting,
    }
}

/// Opens the quote of a round trip across two exchanges: `pair.0` for
/// `pair.1` on the exchange at position `dex_a`, and back on the one at
/// position `dex_b`.  The second leg takes what the first pays out.  A leg
/// without liquidity ends the quote with no route.
pub fn quote_cross_dex_pair(
    net: &Network,
    pair: (&str, &str),
    dex_a: usize,
    dex_b: usize,
    amount_in: U256,
    slip_bps: u32,
) -> (r: (RouteQuoter, RouteStep))
    ensures
        exists|start: RouteQuoter|
            #[trigger] route_start(
                start,
                pair_plan(pair.0@, pair.1@, dex_a, dex_b),
                amount_in,
                slip_bps,
                is_native_symbol_spec(net.native_symbol@, pair.0@),
            ) && route_resumes(
                *net,
                start,
                0,
                0,
                amount_in,
                Seq::<LegQuote>::empty(),
                0,
                r.0,
                r.1,
            ),
{
    let (sym_a, sym_b) = pair;
    let mut first: Vec<usize> = Vec::new();
    first.push(dex_a);
    let mut second: Vec<usize> = Vec::new();
    second.push(dex_b);
    assert(first@ =~= seq![dex_a]);
    assert(second@ =~= seq![dex_b]);
    let mut hops: Vec<Hop> = Vec::new();
    hops.push(make_hop(sym_a, sym_b, first));
    hops.push(make_hop(sym_b, sym_a, second));
    let q = open_route(net, hops, sym_a, amount_in, slip_bps);
    let ghost start = q;
    let r = q.resume(net);
    assert(route_start(
        start,
        pair_plan(pair.0@, pair.1@, dex_a, dex_b),
        amount_in,
        slip_bps,
        is_native_symbol_spec(net.native_symbol@, pair.0@),
    ));
    r
}

/// Opens the quote of a triangle `tri.0` to `tri.1` to `tri.2` and back.
/// On every leg the exchanges are tried in the trial order — the preferred
/// ones first — and the first one that quotes the leg is taken; a leg that
/// no exchange quotes ends the quote with no route.
pub fn quote_triangle(
    net: &Network,
    tri: (&str, &str, &str),
    preferred_dexes: &[String],
    amount_in: U256,
    slip_bps: u32,
) -> (r: (RouteQuoter, RouteStep))
    ensures
        exists|start: RouteQuoter|
            #[trigger] route_start(
                start,
                triangle_plan(
                    tri.0@,
                    tri.1@,
                    tri.2@,
                    dex_trial_order_spec(net.dexes@, preferred_dexes@),
                ),
                amount_in,
                slip_bps,
                is_native_symbol_spec(net.native_symbol@, tri.0@),
            ) && route_resumes(
                *net,
                start,
                0,
                0,
                amount_in,
                Seq::<LegQuote>::empty(),
                0,
                r.0,
                r.1,
            ),
{
    let (a, b, c) = tri;
    let order = dex_trial_order(net, preferred_dexes);
    let mut hops: Vec<Hop> = Vec::new();
    hops.push(make_hop(a, b, copy_positions(&order)));
    hops.push(make_hop(b, c, copy_positions(&order)));
    hops.push(make_hop(c, a, order));
    let q = open_route(net, hops, a, amount_in, slip_bps);
    let ghost start = q;
    let r = q.resume(net);
    assert(route_start(
        start,
        triangle_plan(tri.0@, tri.1@, tri.2@, dex_trial_order_spec(net.dexes@, preferred_dexes@)),
        amount_in,
        slip_bps,
        is_native_symbol_spec(net.native_symbol@, tri.0@),
    ));
    r
}

} // verus!
