//! Quoting one leg on one exchange, as a conversation with the chain.
//!
//! Each protocol needs a few reads of chain state, and what is read decides
//! what is read next.  [`LegState`] holds what has been learned so far; a
//! step either names the next read, or ends the quote with an output amount
//! and the leg that replays the trade, with "no liquidity", or with a fault.

use vstd::prelude::*;
use vstd::string::*;
use crate::address::{zero_address, Address};
use crate::calldata::{LegKind, LegQuote};
use crate::config::{DexConfig, Network};
use crate::dex::{amount_out_fits, amount_out_spec, checked_amount_out_v2};
use crate::router::{addr_of, addr_of_spec};
use crate::text::{
    contains_text,
    lowercase_text,
    occurs_in,
    same_text,
    starts_with_text,
    to_lowercase,
};
use crate::uint::U256;
use crate::utils::{parse_addr, parsed_address};

verus! {

/// Gas budgeted for a constant-product leg.
pub const GAS_V2: u64 = 110_000;

/// Gas budgeted for a concentrated-liquidity leg.
pub const GAS_V3: u64 = 140_000;

/// Gas budgeted for a stable/volatile leg.
pub const GAS_SOLIDLY: u64 = 110_000;

/// The fee tier tried where an exchange lists none.
pub const DEFAULT_FEE_TIER: u32 = 3000;

/// The protocol that an exchange speaks.
#[derive(Clone, Copy, Debug, PartialEq, Eq, Structural)]
pub enum DexKind {
    /// Constant-product pools.
    V2,
    /// Concentrated-liquidity pools.
    V3,
    /// Stable and volatile pools.
    Solidly,
    /// None that the engine knows.
    Unknown,
}

/// A read of chain state.
#[derive(Clone, Copy, Debug)]
pub enum DexCall {
    V2GetPair { factory: Address, token_a: Address, token_b: Address },
    V2PairTokens { pair: Address },
    V2Reserves { pair: Address },
    V3GetPool { factory: Address, token_a: Address, token_b: Address, fee: u32 },
    V3QuoteExactInputSingle {
        quoter: Address,
        token_in: Address,
        token_out: Address,
        fee: u32,
        amount_in: U256,
    },
    SolidlyGetPair { factory: Address, token_a: Address, token_b: Address, stable: bool },
    SolidlyGetAmountOut { pair: Address, amount_in: U256, token_in: Address },
}

/// What a read returned.
#[derive(Clone, Copy, Debug)]
pub enum DexReply {
    /// The address of a pool, null where there is none.
    Pool(Address),
    /// The two tokens of a pool, in the pool's own order.
    Tokens { token0: Address, token1: Address },
    /// The two reserves of a pool, in the pool's own order.
    Reserves { reserve0: U256, reserve1: U256 },
    /// A quoted output amount.
    Amount(U256),
}

/// Why a quote could not be taken.
#[derive(Clone, Copy, Debug, PartialEq, Eq, Structural)]
pub enum QuoteFault {
    /// A token symbol is not listed, or its address cannot be read.
    UnknownToken,
    /// The exchange names no factory.
    MissingFactory,
    /// The exchange names no router.
    MissingRouter,
    /// An address of the exchange cannot be read.
    BadAddress,
    /// The pool's figures do not fit the quote formula in 256 bits.
    Overflow,
    /// The reply does not answer the read that was asked for.
    UnexpectedReply,
    /// The route names an exchange that the chain does not list.
    UnknownExchange,
}

/// A leg that was quoted: what it pays out, how to replay it, and the gas
/// to budget for it.
#[derive(Clone, Debug)]
pub struct LegOutcome {
    pub amount_out: U256,
    pub leg: LegQuote,
    pub gas: u64,
}

/// What happens next in the quote of a leg.
#[derive(Clone, Debug)]
pub enum LegStep {
    /// Perform this read and report what it returns.
    Call(DexCall),
    /// The quote is over: a leg, or no liquidity.
    Done(Option<LegOutcome>),
    /// The quote cannot be taken.
    Fail(QuoteFault),
}

/// What the quote of a leg has learned so far.
#[derive(Clone, Debug)]
pub enum LegState {
    /// Asked a constant-product factory for the pool.
    V2Pair { token_in: Address, token_out: Address, amount_in: U256, fee_bps: u32, router: Option<Address> },
    /// Asked the pool for its tokens.
    V2Tokens {
        pair: Address,
        token_in: Address,
        token_out: Address,
        amount_in: U256,
        fee_bps: u32,
        router: Option<Address>,
    },
    /// Asked the pool for its reserves.
    V2Reserves {
        pair: Address,
        token0: Address,
        token_in: Address,
        token_out: Address,
        amount_in: U256,
        fee_bps: u32,
        router: Option<Address>,
    },
    /// Asked a concentrated-liquidity factory for the pool of tier `next`.
    V3Pool {
        factory: Address,
        router: Address,
        quoter: Address,
        token_in: Address,
        token_out: Address,
        amount_in: U256,
        tiers: Vec<u32>,
        next: usize,
    },
    /// Asked the quoter for the output in the pool of tier `next`.
    V3Quote {
        factory: Address,
        router: Address,
        quoter: Address,
        token_in: Address,
        token_out: Address,
        amount_in: U256,
        tiers: Vec<u32>,
        next: usize,
    },
    /// Asked a stable/volatile factory for the pool, stable or not.
    SolidlyPair {
        factory: Address,
        router: Address,
        token_in: Address,
        token_out: Address,
        amount_in: U256,
        stable: bool,
        allow_stable: bool,
    },
    /// Asked the pool for the output.
    SolidlyAmount { router: Address, pair: Address, stable: bool, token_in: Address, amount_in: U256 },
    /// Nothing is asked.
    Finished,
}

/// The protocol that a type name stands for: `v2`, `v3`, or anything that
/// begins with `solidly`, in any case.
pub open spec fn dex_kind_spec(dex_type: Seq<char>) -> DexKind {
    let t = lowercase_text(dex_type);
    if t == "v2"@ {
        DexKind::V2
    } else if t == "v3"@ {
        DexKind::V3
    } else if "solidly"@.is_prefix_of(t) {
        DexKind::Solidly
    } else {
        DexKind::Unknown
    }
}

/// The swap fee of a constant-product exchange, by its branding: 25 basis
/// points where the name holds `pancakev2`, in any case, else 30.
pub open spec fn v2_fee_spec(name: Seq<char>) -> u32 {
    if occurs_in(lowercase_text(name), "pancakev2"@) {
        25
    } else {
        30
    }
}

/// The first of two optional texts that is there.
pub open spec fn or_text(first: Option<String>, second: Option<String>) -> Option<String> {
    if first is Some {
        first
    } else {
        second
    }
}

/// The address that an optional text denotes, if it is there and denotes one.
pub open spec fn optional_address(text: Option<String>) -> Option<Seq<u8>> {
    match text {
        Some(t) => parsed_address(t@),
        None => None,
    }
}

/// The protocol that an exchange speaks.
pub fn dex_kind(dex: &DexConfig) -> (k: DexKind)
    ensures
        k == dex_kind_spec(dex.dex_type@),
{
    let t = to_lowercase(dex.dex_type.as_str());
    if same_text(t.as_str(), "v2") {
        DexKind::V2
    } else if same_text(t.as_str(), "v3") {
        DexKind::V3
    } else if starts_with_text(t.as_str(), "solidly") {
        DexKind::Solidly
    } else {
        DexKind::Unknown
    }
}

/// The swap fee of a constant-product exchange, in basis points.
pub fn v2_fee_bps(dex: &DexConfig) -> (fee: u32)
    ensures
        fee == v2_fee_spec(dex.name@),
{
    let name = to_lowercase(dex.name.as_str());
    if contains_text(name.as_str(), "pancakev2") {
        25
    } else {
        30
    }
}

/// The first of two optional texts that is there.
fn or_ref<'a>(first: &'a Option<String>, second: &'a Option<String>) -> (r: &'a Option<String>)
    ensures
        *r == or_text(*first, *second),
{
    if first.is_some() {
        first
    } else {
        second
    }
}

/// Reads the address in an optional text.
fn read_optional(text: &Option<String>) -> (r: Option<Address>)
    ensures
        match r {
            Some(a) => optional_address(*text) == Some(a@),
            None => optional_address(*text) is None,
        },
{
    match text {
        Some(t) => match parse_addr(t.as_str()) {
            Ok(a) => Some(a),
            Err(_) => None,
        },
        None => None,
    }
}


/// Whether what was read from an optional text is what the text denotes.
pub open spec fn read_as(got: Option<Address>, want: Option<Seq<u8>>) -> bool {
    match got {
        Some(a) => want == Some(a@),
        None => want is None,
    }
}

/// The quote of a constant-product leg opens with the question for the pool.
pub open spec fn v2_opens(
    dex: DexConfig,
    tin: Seq<u8>,
    tout: Seq<u8>,
    amount_in: U256,
    state: LegState,
    step: LegStep,
) -> bool {
    if dex.factory is None {
        step == LegStep::Fail(QuoteFault::MissingFactory) && state is Finished
    } else if optional_address(dex.factory) is None {
        step == LegStep::Fail(QuoteFault::BadAddress) && state is Finished
    } else {
        &&& step matches LegStep::Call(DexCall::V2GetPair { factory, token_a, token_b })
        &&& optional_address(dex.factory) == Some(factory@)
        &&& token_a@ == tin
        &&& token_b@ == tout
        &&& state matches LegState::V2Pair { token_in, token_out, amount_in: a, fee_bps, router }
        &&& token_in@ == tin
        &&& token_out@ == tout
        &&& a == amount_in
        &&& fee_bps == v2_fee_spec(dex.name@)
        &&& read_as(router, optional_address(dex.router))
    }
}

/// The text that names the router of a concentrated-liquidity exchange.
pub open spec fn v3_router_text(dex: DexConfig) -> Option<String> {
    or_text(dex.swap_router02, or_text(dex.universal_router, dex.router))
}

/// The text that names the quoter of a concentrated-liquidity exchange.
pub open spec fn v3_quoter_text(dex: DexConfig) -> Option<String> {
    or_text(dex.swap_router02, dex.universal_router)
}

/// Whether a concentrated-liquidity exchange provides a quoter: it says
/// that it has one, and the text that names it denotes an address.
pub open spec fn v3_has_quoter(dex: DexConfig) -> bool {
    dex.quoter_v2_hint == Some(true) && optional_address(v3_quoter_text(dex)) is Some
}

/// The fee tiers of a concentrated-liquidity exchange, in the order to try.
pub open spec fn v3_tiers(dex: DexConfig) -> Seq<u32> {
    match dex.fee_tiers_bps {
        Some(t) => t@,
        None => seq![3000u32],
    }
}

/// The quote of a concentrated-liquidity leg opens with the question for
/// the pool of the first fee tier.  An exchange that provides no quoter, or
/// lists no fee tier, has no liquidity to offer: nothing is asked and
/// nothing is guessed.
pub open spec fn v3_opens(
    dex: DexConfig,
    tin: Seq<u8>,
    tout: Seq<u8>,
    amount_in: U256,
    state: LegState,
    step: LegStep,
) -> bool {
    if dex.factory is None {
        step == LegStep::Fail(QuoteFault::MissingFactory) && state is Finished
    } else if optional_address(dex.factory) is None {
        step == LegStep::Fail(QuoteFault::BadAddress) && state is Finished
    } else if v3_router_text(dex) is None {
        step == LegStep::Fail(QuoteFault::MissingRouter) && state is Finished
    } else if optional_address(v3_router_text(dex)) is None {
        step == LegStep::Fail(QuoteFault::BadAddress) && state is Finished
    } else if !v3_has_quoter(dex) || v3_tiers(dex).len() == 0 {
        step == LegStep::Done(None) && state is Finished
    } else {
        &&& step matches LegStep::Call(DexCall::V3GetPool { factory, token_a, token_b, fee })
        &&& optional_address(dex.factory) == Some(factory@)
        &&& token_a@ == tin
        &&& token_b@ == tout
        &&& fee == v3_tiers(dex)[0]
        &&& state matches LegState::V3Pool {
            factory: f,
            router,
            quoter,
            token_in,
            token_out,
            amount_in: a,
            tiers,
            next,
        }
        &&& f == factory
        &&& optional_address(v3_router_text(dex)) == Some(router@)
        &&& optional_address(v3_quoter_text(dex)) == Some(quoter@)
        &&& token_in@ == tin
        &&& token_out@ == tout
        &&& a == amount_in
        &&& tiers@ == v3_tiers(dex)
        &&& next == 0
    }
}

/// The quote of a stable/volatile leg opens with the question for the
/// volatile pool.
pub open spec fn solidly_opens(
    dex: DexConfig,
    tin: Seq<u8>,
    tout: Seq<u8>,
    amount_in: U256,
    state: LegState,
    step: LegStep,
) -> bool {
    if dex.factory is None {
        step == LegStep::Fail(QuoteFault::MissingFactory) && state is Finished
    } else if optional_address(dex.factory) is None {
        step == LegStep::Fail(QuoteFault::BadAddress) && state is Finished
    } else if dex.router is None {
        step == LegStep::Fail(QuoteFault::MissingRouter) && state is Finished
    } else if optional_address(dex.router) is None {
        step == LegStep::Fail(QuoteFault::BadAddress) && state is Finished
    } else {
        &&& step matches LegStep::Call(
            DexCall::SolidlyGetPair { factory, token_a, token_b, stable },
        )
        &&& optional_address(dex.factory) == Some(factory@)
        &&& token_a@ == tin
        &&& token_b@ == tout
        &&& !stable
        &&& state matches LegState::SolidlyPair {
            factory: f,
            router,
            token_in,
            token_out,
            amount_in: a,
            stable: s,
            allow_stable,
        }
        &&& f == factory
        &&& optional_address(dex.router) == Some(router@)
        &&& token_in@ == tin
        &&& token_out@ == tout
        &&& a == amount_in
        &&& !s
        &&& allow_stable == (dex.stable_pools == Some(true))
    }
}

/// How the quote of a leg opens: both tokens must be known to the chain,
/// then the exchange's protocol decides; an exchange of unknown protocol
/// has no liquidity to offer.
pub open spec fn leg_opens(
    net: Network,
    dex: DexConfig,
    sym_in: Seq<char>,
    sym_out: Seq<char>,
    amount_in: U256,
    state: LegState,
    step: LegStep,
) -> bool {
    let tin = addr_of_spec(net, sym_in);
    let tout = addr_of_spec(net, sym_out);
    if tin is None || tout is None {
        step == LegStep::Fail(QuoteFault::UnknownToken) && state is Finished
    } else {
        match dex_kind_spec(dex.dex_type@) {
            DexKind::V2 => v2_opens(dex, tin->0, tout->0, amount_in, state, step),
            DexKind::V3 => v3_opens(dex, tin->0, tout->0, amount_in, state, step),
            DexKind::Solidly => solidly_opens(dex, tin->0, tout->0, amount_in, state, step),
            DexKind::Unknown => step == LegStep::Done(None) && state is Finished,
        }
    }
}

/// How the quote of a leg can open: with a question, with nothing to
/// ask because there is no liquidity to be had, or with a fault.
#[derive(Clone, Copy, Debug, PartialEq, Eq, Structural)]
pub enum Opening {
    Asks,
    Dry,
    Faulty(QuoteFault),
}

/// The kind of a step.
pub open spec fn step_opening(step: LegStep) -> Opening {
    match step {
        LegStep::Call(_) => Opening::Asks,
        LegStep::Done(_) => Opening::Dry,
        LegStep::Fail(f) => Opening::Faulty(f),
    }
}

/// How the quote of a leg opens on an exchange, by the exchange's
/// description alone.
pub open spec fn leg_opening(net: Network, dex: DexConfig, sym_in: Seq<char>, sym_out: Seq<char>) -> Opening {
    if addr_of_spec(net, sym_in) is None || addr_of_spec(net, sym_out) is None {
        Opening::Faulty(QuoteFault::UnknownToken)
    } else {
        match dex_kind_spec(dex.dex_type@) {
            DexKind::Unknown => Opening::Dry,
            DexKind::V2 => if dex.factory is None {
                Opening::Faulty(QuoteFault::MissingFactory)
            } else if optional_address(dex.factory) is None {
                Opening::Faulty(QuoteFault::BadAddress)
            } else {
                Opening::Asks
            },
            DexKind::V3 => if dex.factory is None {
                Opening::Faulty(QuoteFault::MissingFactory)
            } else if optional_address(dex.factory) is None {
                Opening::Faulty(QuoteFault::BadAddress)
            } else if v3_router_text(dex) is None {
                Opening::Faulty(QuoteFault::MissingRouter)
            } else if optional_address(v3_router_text(dex)) is None {
                Opening::Faulty(QuoteFault::BadAddress)
            } else if !v3_has_quoter(dex) || v3_tiers(dex).len() == 0 {
                Opening::Dry
            } else {
                Opening::Asks
            },
            DexKind::Solidly => if dex.factory is None {
                Opening::Faulty(QuoteFault::MissingFactory)
            } else if optional_address(dex.factory) is None {
                Opening::Faulty(QuoteFault::BadAddress)
            } else if dex.router is None {
                Opening::Faulty(QuoteFault::MissingRouter)
            } else if optional_address(dex.router) is None {
                Opening::Faulty(QuoteFault::BadAddress)
            } else {
                Opening::Asks
            },
        }
    }
}

/// A copy of a list of fee tiers.
fn copy_tiers(tiers: &Vec<u32>) -> (r: Vec<u32>)
    ensures
        r@ == tiers@,
{
    let mut r: Vec<u32> = Vec::new();
    let mut i: usize = 0;
    while i < tiers.len()
        invariant
            i <= tiers.len(),
            r@ == tiers@.subrange(0, i as int),
        decreases tiers.len() - i,
    {
        r.push(tiers[i]);
        assert(tiers@.subrange(0, i as int + 1) =~= tiers@.subrange(0, i as int).push(
            tiers@[i as int],
        ));
        i += 1;
    }
    assert(tiers@.subrange(0, tiers.len() as int) =~= tiers@);
    r
}

fn begin_v2(dex: &DexConfig, token_in: Address, token_out: Address, amount_in: U256) -> (r: (
    LegState,
    LegStep,
))
    ensures
        v2_opens(*dex, token_in@, token_out@, amount_in, r.0, r.1),
{
    if dex.factory.is_none() {
        return (LegState::Finished, LegStep::Fail(QuoteFault::MissingFactory));
    }
    let factory = match read_optional(&dex.factory) {
        Some(f) => f,
        None => {
            return (LegState::Finished, LegStep::Fail(QuoteFault::BadAddress));
        },
    };
    let fee_bps = v2_fee_bps(dex);
    let router = read_optional(&dex.router);
    (
        LegState::V2Pair { token_in, token_out, amount_in, fee_bps, router },
        LegStep::Call(DexCall::V2GetPair { factory, token_a: token_in, token_b: token_out }),
    )
}

fn begin_v3(dex: &DexConfig, token_in: Address, token_out: Address, amount_in: U256) -> (r: (
    LegState,
    LegStep,
))
    ensures
        v3_opens(*dex, token_in@, token_out@, amount_in, r.0, r.1),
{
    if dex.factory.is_none() {
        return (LegState::Finished, LegStep::Fail(QuoteFault::MissingFactory));
    }
    let factory = match read_optional(&dex.factory) {
        Some(f) => f,
        None => {
            return (LegState::Finished, LegStep::Fail(QuoteFault::BadAddress));
        },
    };
    let router_text = or_ref(&dex.swap_router02, or_ref(&dex.universal_router, &dex.router));
    if router_text.is_none() {
        return (LegState::Finished, LegStep::Fail(QuoteFault::MissingRouter));
    }
    let router = match read_optional(router_text) {
        Some(r) => r,
        None => {
            return (LegState::Finished, LegStep::Fail(QuoteFault::BadAddress));
        },
    };
    let hinted = match dex.quoter_v2_hint {
        Some(h) => h,
        None => false,
    };
    if !hinted {
        return (LegState::Finished, LegStep::Done(None));
    }
    let quoter_text = or_ref(&dex.swap_router02, &dex.universal_router);
    let quoter = match read_optional(quoter_text) {
        Some(q) => q,
        None => {
            return (LegState::Finished, LegStep::Done(None));
        },
    };
    let tiers = match &dex.fee_tiers_bps {
        Some(t) => copy_tiers(t),
        None => {
            let mut t: Vec<u32> = Vec::new();
            t.push(DEFAULT_FEE_TIER);
            assert(t@ =~= seq![3000u32]);
            t
        },
    };
    if tiers.len() == 0 {
        return (LegState::Finished, LegStep::Done(None));
    }
    let fee = tiers[0];
    (
        LegState::V3Pool {
            factory,
            router,
            quoter,
            token_in,
            token_out,
            amount_in,
            tiers,
            next: 0,
        },
        LegStep::Call(DexCall::V3GetPool { factory, token_a: token_in, token_b: token_out, fee }),
    )
}

fn begin_solidly(dex: &DexConfig, token_in: Address, token_out: Address, amount_in: U256) -> (r: (
    LegState,
    LegStep,
))
    ensures
        solidly_opens(*dex, token_in@, token_out@, amount_in, r.0, r.1),
{
    if dex.factory.is_none() {
        return (LegState::Finished, LegStep::Fail(QuoteFault::MissingFactory));
    }
    let factory = match read_optional(&dex.factory) {
        Some(f) => f,
        None => {
            return (LegState::Finished, LegStep::Fail(QuoteFault::BadAddress));
        },
    };
    if dex.router.is_none() {
        return (LegState::Finished, LegStep::Fail(QuoteFault::MissingRouter));
    }
    let router = match read_optional(&dex.router) {
        Some(r) => r,
        None => {
            return (LegState::Finished, LegStep::Fail(QuoteFault::BadAddress));
        },
    };
    let allow_stable = match dex.stable_pools {
        Some(b) => b,
        None => false,
    };
    (
        LegState::SolidlyPair {
            factory,
            router,
            token_in,
            token_out,
            amount_in,
            stable: false,
            allow_stable,
        },
        LegStep::Call(
            DexCall::SolidlyGetPair {
                factory,
                token_a: token_in,
                token_b: token_out,
                stable: false,
            },
        ),
    )
}

/// Opens the quote of `amount_in` of `token_in_sym` for `token_out_sym` on
/// one exchange.
pub fn quote_on_dex(
    net: &Network,
    dex: &DexConfig,
    token_in_sym: &str,
    token_out_sym: &str,
    amount_in: U256,
) -> (r: (LegState, LegStep))
    ensures
        leg_opens(*net, *dex, token_in_sym@, token_out_sym@, amount_in, r.0, r.1),
        step_opening(r.1) == leg_opening(*net, *dex, token_in_sym@, token_out_sym@),
        r.1 is Done ==> r.1 == LegStep::Done(None),
{
    let token_in = match addr_of(net, token_in_sym) {
        Ok(a) => a,
        Err(_) => {
            return (LegState::Finished, LegStep::Fail(QuoteFault::UnknownToken));
        },
    };
    let token_out = match addr_of(net, token_out_sym) {
        Ok(a) => a,
        Err(_) => {
            return (LegState::Finished, LegStep::Fail(QuoteFault::UnknownToken));
        },
    };
    match dex_kind(dex) {
        DexKind::V2 => begin_v2(dex, token_in, token_out, amount_in),
        DexKind::V3 => begin_v3(dex, token_in, token_out, amount_in),
        DexKind::Solidly => begin_solidly(dex, token_in, token_out, amount_in),
        DexKind::Unknown => (LegState::Finished, LegStep::Done(None)),
    }
}


/// The quote ends because the reply does not answer the read.
pub open spec fn ends_unanswered(state: LegState, step: LegStep) -> bool {
    step == LegStep::Fail(QuoteFault::UnexpectedReply) && state is Finished
}

/// The quote ends without liquidity.
pub open spec fn ends_dry(state: LegState, step: LegStep) -> bool {
    step == LegStep::Done(None) && state is Finished
}

/// A concentrated-liquidity quote moves on to the fee tier after `next`,
/// or ends without liquidity when that was the last.
pub open spec fn v3_moves_on(
    factory: Address,
    router: Address,
    quoter: Address,
    token_in: Address,
    token_out: Address,
    amount_in: U256,
    tiers: Seq<u32>,
    next: usize,
    state: LegState,
    step: LegStep,
) -> bool {
    if next + 1 < tiers.len() {
        &&& step == LegStep::Call(
            DexCall::V3GetPool {
                factory,
                token_a: token_in,
                token_b: token_out,
                fee: tiers[next + 1],
            },
        )
        &&& state matches LegState::V3Pool {
            factory: f,
            router: r,
            quoter: q,
            token_in: i,
            token_out: o,
            amount_in: a,
            tiers: t,
            next: n,
        }
        &&& f == factory
        &&& r == router
        &&& q == quoter
        &&& i == token_in
        &&& o == token_out
        &&& a == amount_in
        &&& t@ == tiers
        &&& n == next + 1
    } else {
        ends_dry(state, step)
    }
}

/// How a constant-product quote ends once the reserves are known: the
/// reserve of the pool's first token is the input side exactly when the
/// input token is that token; the output follows the fee-adjusted
/// constant-product formula; no output means no liquidity.
pub open spec fn v2_settles(
    token0: Address,
    token_in: Address,
    token_out: Address,
    amount_in: U256,
    fee_bps: u32,
    router: Option<Address>,
    reserve0: U256,
    reserve1: U256,
    step: LegStep,
) -> bool {
    let reserve_in = if token_in@ == token0@ {
        reserve0
    } else {
        reserve1
    };
    let reserve_out = if token_in@ == token0@ {
        reserve1
    } else {
        reserve0
    };
    let out = amount_out_spec(amount_in@, reserve_in@, reserve_out@, fee_bps as nat);
    if !amount_out_fits(amount_in@, reserve_in@, reserve_out@, fee_bps as nat) {
        step == LegStep::Fail(QuoteFault::Overflow)
    } else if out == 0 {
        step == LegStep::Done(None)
    } else if router is None {
        step == LegStep::Fail(QuoteFault::MissingRouter)
    } else {
        &&& step matches LegStep::Done(Some(o))
        &&& o.amount_out@ == out
        &&& o.gas == 110_000
        &&& o.leg.kind matches LegKind::V2 { router: r, path }
        &&& Some(r) == router
        &&& path@ == seq![token_in, token_out]
    }
}

/// How the quote of a leg goes on when a read is answered.  A factory
/// that knows no pool, and a quote of zero, are no liquidity, never a
/// fault.
pub open spec fn leg_goes_on(old: LegState, reply: DexReply, state: LegState, step: LegStep) -> bool {
    match old {
        LegState::V2Pair { token_in, token_out, amount_in, fee_bps, router } => match reply {
            DexReply::Pool(pair) => if pair@ == zero_address() {
                ends_dry(state, step)
            } else {
                step == LegStep::Call(DexCall::V2PairTokens { pair }) && state
                    == (LegState::V2Tokens { pair, token_in, token_out, amount_in, fee_bps, router })
            },
            _ => ends_unanswered(state, step),
        },
        LegState::V2Tokens { pair, token_in, token_out, amount_in, fee_bps, router } => match reply {
            DexReply::Tokens { token0, token1 } => step == LegStep::Call(
                DexCall::V2Reserves { pair },
            ) && state == (LegState::V2Reserves {
                pair,
                token0,
                token_in,
                token_out,
                amount_in,
                fee_bps,
                router,
            }),
            _ => ends_unanswered(state, step),
        },
        LegState::V2Reserves { pair, token0, token_in, token_out, amount_in, fee_bps, router } => match reply {
            DexReply::Reserves { reserve0, reserve1 } => state is Finished && v2_settles(
                token0,
                token_in,
                token_out,
                amount_in,
                fee_bps,
                router,
                reserve0,
                reserve1,
                step,
            ),
            _ => ends_unanswered(state, step),
        },
        LegState::V3Pool { factory, router, quoter, token_in, token_out, amount_in, tiers, next } => match reply {
            DexReply::Pool(pool) => if next >= tiers@.len() {
                ends_dry(state, step)
            } else if pool@ == zero_address() {
                v3_moves_on(
                    factory,
                    router,
                    quoter,
                    token_in,
                    token_out,
                    amount_in,
                    tiers@,
                    next,
                    state,
                    step,
                )
            } else {
                &&& step == LegStep::Call(
                    DexCall::V3QuoteExactInputSingle {
                        quoter,
                        token_in,
                        token_out,
                        fee: tiers@[next as int],
                        amount_in,
                    },
                )
                &&& state matches LegState::V3Quote {
                    factory: f,
                    router: r,
                    quoter: q,
                    token_in: i,
                    token_out: o,
                    amount_in: a,
                    tiers: t,
                    next: n,
                }
                &&& f == factory
                &&& r == router
                &&& q == quoter
                &&& i == token_in
                &&& o == token_out
                &&& a == amount_in
                &&& t@ == tiers@
                &&& n == next
            },
            _ => ends_unanswered(state, step),
        },
        LegState::V3Quote { factory, router, quoter, token_in, token_out, amount_in, tiers, next } => match reply {
            DexReply::Amount(out) => if next >= tiers@.len() {
                ends_dry(state, step)
            } else if out@ == 0 {
                v3_moves_on(
                    factory,
                    router,
                    quoter,
                    token_in,
                    token_out,
                    amount_in,
                    tiers@,
                    next,
                    state,
                    step,
                )
            } else {
                &&& state is Finished
                &&& step matches LegStep::Done(Some(o))
                &&& o.amount_out == out
                &&& o.gas == 140_000
                &&& o.leg.kind == (LegKind::V3 {
                    router,
                    token_in,
                    token_out,
                    fee_bps: tiers@[next as int],
                })
            },
            _ => ends_unanswered(state, step),
        },
        LegState::SolidlyPair { factory, router, token_in, token_out, amount_in, stable, allow_stable } => match reply {
            DexReply::Pool(pair) => if pair@ == zero_address() && !stable && allow_stable {
                step == LegStep::Call(
                    DexCall::SolidlyGetPair {
                        factory,
                        token_a: token_in,
                        token_b: token_out,
                        stable: true,
                    },
                ) && state == (LegState::SolidlyPair {
                    factory,
                    router,
                    token_in,
                    token_out,
                    amount_in,
                    stable: true,
                    allow_stable,
                })
            } else if pair@ == zero_address() {
                ends_dry(state, step)
            } else {
                step == LegStep::Call(DexCall::SolidlyGetAmountOut { pair, amount_in, token_in })
                    && state == (LegState::SolidlyAmount {
                    router,
                    pair,
                    stable,
                    token_in,
                    amount_in,
                })
            },
            _ => ends_unanswered(state, step),
        },
        LegState::SolidlyAmount { router, pair, stable, token_in, amount_in } => match reply {
            DexReply::Amount(out) => if out@ == 0 {
                ends_dry(state, step)
            } else {
                &&& state is Finished
                &&& step matches LegStep::Done(Some(o))
                &&& o.amount_out == out
                &&& o.gas == 110_000
                &&& o.leg.kind == (LegKind::Solidly { router, pair, stable, token_in })
            },
            _ => ends_unanswered(state, step),
        },
        LegState::Finished => ends_unanswered(state, step),
    }
}

fn v3_next_tier(
    factory: Address,
    router: Address,
    quoter: Address,
    token_in: Address,
    token_out: Address,
    amount_in: U256,
    tiers: Vec<u32>,
    next: usize,
) -> (r: (LegState, LegStep))
    requires
        next < tiers@.len(),
    ensures
        v3_moves_on(factory, router, quoter, token_in, token_out, amount_in, tiers@, next, r.0, r.1),
{
    let count = tiers.len();
    if next + 1 < count {
        let fee = tiers[next + 1];
        (
            LegState::V3Pool {
                factory,
                router,
                quoter,
                token_in,
                token_out,
                amount_in,
                tiers,
                next: next + 1,
            },
            LegStep::Call(
                DexCall::V3GetPool { factory, token_a: token_in, token_b: token_out, fee },
            ),
        )
    } else {
        (LegState::Finished, LegStep::Done(None))
    }
}

fn settle_v2(
    token0: Address,
    token_in: Address,
    token_out: Address,
    amount_in: U256,
    fee_bps: u32,
    router: Option<Address>,
    reserve0: U256,
    reserve1: U256,
) -> (step: LegStep)
    ensures
        v2_settles(token0, token_in, token_out, amount_in, fee_bps, router, reserve0, reserve1, step),
{
    let first_is_in = token_in.same(&token0);
    let (reserve_in, reserve_out) = if first_is_in {
        (reserve0, reserve1)
    } else {
        (reserve1, reserve0)
    };
    let out = match checked_amount_out_v2(amount_in, reserve_in, reserve_out, fee_bps) {
        Some(out) => out,
        None => {
            return LegStep::Fail(QuoteFault::Overflow);
        },
    };
    if out.is_zero() {
        return LegStep::Done(None);
    }
    match router {
        Some(r) => {
            let mut path: Vec<Address> = Vec::new();
            path.push(token_in);
            path.push(token_out);
            assert(path@ =~= seq![token_in, token_out]);
            LegStep::Done(
                Some(
                    LegOutcome {
                        amount_out: out,
                        leg: LegQuote { kind: LegKind::V2 { router: r, path } },
                        gas: GAS_V2,
                    },
                ),
            )
        },
        None => LegStep::Fail(QuoteFault::MissingRouter),
    }
}

impl LegState {
    /// Takes in the answer to the read that the last step asked for, and
    /// says what happens next.
    pub fn on_reply(self, reply: DexReply) -> (r: (LegState, LegStep))
        ensures
            leg_goes_on(self, reply, r.0, r.1),
    {
        let unanswered = (LegState::Finished, LegStep::Fail(QuoteFault::UnexpectedReply));
        match self {
            LegState::V2Pair { token_in, token_out, amount_in, fee_bps, router } => match reply {
                DexReply::Pool(pair) => {
                    if pair.is_zero() {
                        (LegState::Finished, LegStep::Done(None))
                    } else {
                        (
                            LegState::V2Tokens {
                                pair,
                                token_in,
                                token_out,
                                amount_in,
                                fee_bps,
                                router,
                            },
                            LegStep::Call(DexCall::V2PairTokens { pair }),
                        )
                    }
                },
                _ => unanswered,
            },
            LegState::V2Tokens { pair, token_in, token_out, amount_in, fee_bps, router } => match reply {
                DexReply::Tokens { token0, token1 } => (
                    LegState::V2Reserves {
                        pair,
                        token0,
                        token_in,
                        token_out,
                        amount_in,
                        fee_bps,
                        router,
                    },
                    LegStep::Call(DexCall::V2Reserves { pair }),
                ),
                _ => unanswered,
            },
            LegState::V2Reserves { pair, token0, token_in, token_out, amount_in, fee_bps, router } => match reply {
                DexReply::Reserves { reserve0, reserve1 } => (
                    LegState::Finished,
                    settle_v2(
                        token0,
                        token_in,
                        token_out,
                        amount_in,
                        fee_bps,
                        router,
                        reserve0,
                        reserve1,
                    ),
                ),
                _ => unanswered,
            },
            LegState::V3Pool { factory, router, quoter, token_in, token_out, amount_in, tiers, next } => match reply {
                DexReply::Pool(pool) => {
                    if next >= tiers.len() {
                        (LegState::Finished, LegStep::Done(None))
                    } else if pool.is_zero() {
                        v3_next_tier(
                            factory,
                            router,
                            quoter,
                            token_in,
                            token_out,
                            amount_in,
                            tiers,
                            next,
                        )
                    } else {
                        let fee = tiers[next];
                        (
                            LegState::V3Quote {
                                factory,
                                router,
                                quoter,
                                token_in,
                                token_out,
                                amount_in,
                                tiers,
                                next,
                            },
                            LegStep::Call(
                                DexCall::V3QuoteExactInputSingle {
                                    quoter,
                                    token_in,
                                    token_out,
                                    fee,
                                    amount_in,
                                },
                            ),
                        )
                    }
                },
                _ => unanswered,
            },
            LegState::V3Quote { factory, router, quoter, token_in, token_out, amount_in, tiers, next } => match reply {
                DexReply::Amount(out) => {
                    if next >= tiers.len() {
                        (LegState::Finished, LegStep::Done(None))
                    } else if out.is_zero() {
                        v3_next_tier(
                            factory,
                            router,
                            quoter,
                            token_in,
                            token_out,
                            amount_in,
                            tiers,
                            next,
                        )
                    } else {
                        let fee_bps = tiers[next];
                        (
                            LegState::Finished,
                            LegStep::Done(
                                Some(
                                    LegOutcome {
                                        amount_out: out,
                                        leg: LegQuote {
                                            kind: LegKind::V3 {
                                                router,
                                                token_in,
                                                token_out,
                                                fee_bps,
                                            },
                                        },
                                        gas: GAS_V3,
                                    },
                                ),
                            ),
                        )
                    }
                },
                _ => unanswered,
            },
            LegState::SolidlyPair { factory, router, token_in, token_out, amount_in, stable, allow_stable } => match reply {
                DexReply::Pool(pair) => {
                    let absent = pair.is_zero();
                    if absent && !stable && allow_stable {
                        (
                            LegState::SolidlyPair {
                                factory,
                                router,
                                token_in,
                                token_out,
                                amount_in,
                                stable: true,
                                allow_stable,
                            },
                            LegStep::Call(
                                DexCall::SolidlyGetPair {
                                    factory,
                                    token_a: token_in,
                                    token_b: token_out,
                                    stable: true,
                                },
                            ),
                        )
                    } else if absent {
                        (LegState::Finished, LegStep::Done(None))
                    } else {
                        (
                            LegState::SolidlyAmount { router, pair, stable, token_in, amount_in },
                            LegStep::Call(
                                DexCall::SolidlyGetAmountOut { pair, amount_in, token_in },
                            ),
                        )
                    }
                },
                _ => unanswered,
            },
            LegState::SolidlyAmount { router, pair, stable, token_in, amount_in } => match reply {
                DexReply::Amount(out) => {
                    if out.is_zero() {
                        (LegState::Finished, LegStep::Done(None))
                    } else {
                        (
                            LegState::Finished,
                            LegStep::Done(
                                Some(
                                    LegOutcome {
                                        amount_out: out,
                                        leg: LegQuote {
                                            kind: LegKind::Solidly {
                                                router,
                                                pair,
                                                stable,
                                                token_in,
                                            },
                                        },
                                        gas: GAS_SOLIDLY,
                                    },
                                ),
                            ),
                        )
                    }
                },
                _ => unanswered,
            },
            LegState::Finished => unanswered,
        }
    }
}

/// A quoted leg always pays out something: a zero quote is no liquidity.
pub proof fn lemma_quoted_leg_pays(old: LegState, reply: DexReply, state: LegState, step: LegStep)
    requires
        leg_goes_on(old, reply, state, step),
    ensures
        step matches LegStep::Done(Some(o)) ==> o.amount_out@ > 0,
{
}


/// The most reads that the quote of a leg can still ask for.
pub open spec fn leg_reads_left(state: LegState) -> int {
    match state {
        LegState::V2Pair { .. } => 3,
        LegState::V2Tokens { .. } => 2,
        LegState::V2Reserves { .. } => 1,
        LegState::V3Pool { tiers, next, .. } => 2 * (tiers@.len() - next),
        LegState::V3Quote { tiers, next, .. } => 2 * (tiers@.len() - next) - 1,
        LegState::SolidlyPair { stable, .. } => if stable {
            2
        } else {
            3
        },
        LegState::SolidlyAmount { .. } => 1,
        LegState::Finished => 0,
    }
}

/// The quote of a leg comes to an end: every answer either ends it or
/// leaves fewer reads to ask for.  A constant-product leg and a
/// stable/volatile leg take at most three reads, a concentrated-liquidity
/// leg at most two per fee tier.
pub proof fn lemma_leg_quote_ends(old: LegState, reply: DexReply, state: LegState, step: LegStep)
    requires
        leg_goes_on(old, reply, state, step),
        old matches LegState::V3Pool { tiers, next, .. } ==> next < tiers@.len(),
        old matches LegState::V3Quote { tiers, next, .. } ==> next < tiers@.len(),
    ensures
        state is Finished <==> !(step is Call),
        step is Call ==> 0 < leg_reads_left(state) < leg_reads_left(old),
        state matches LegState::V3Pool { tiers, next, .. } ==> next < tiers@.len(),
        state matches LegState::V3Quote { tiers, next, .. } ==> next < tiers@.len(),
{
}


/// A pool that does not exist is no fault: when a factory answers the
/// question for a pool with the null address, the quote asks for the next
/// pool to try or ends without liquidity, and never fails.
pub proof fn lemma_missing_pool_is_no_fault(old: LegState, pool: Address, state: LegState, step: LegStep)
    requires
        old is V2Pair || old is V3Pool || old is SolidlyPair,
        pool@ == zero_address(),
        leg_goes_on(old, DexReply::Pool(pool), state, step),
    ensures
        !(step is Fail),
        old is V2Pair ==> step == LegStep::Done(None) && state is Finished,
{
}

/// An exchange that provides no quoter is not asked: the quote of a
/// concentrated-liquidity leg on it is over at once, without liquidity and
/// without a fault, provided its factory and router are in order.
pub proof fn lemma_no_quoter_is_no_liquidity(
    net: Network,
    dex: DexConfig,
    sym_in: Seq<char>,
    sym_out: Seq<char>,
    amount_in: U256,
    state: LegState,
    step: LegStep,
)
    requires
        leg_opens(net, dex, sym_in, sym_out, amount_in, state, step),
        addr_of_spec(net, sym_in) is Some,
        addr_of_spec(net, sym_out) is Some,
        dex_kind_spec(dex.dex_type@) == DexKind::V3,
        optional_address(dex.factory) is Some,
        optional_address(v3_router_text(dex)) is Some,
        !v3_has_quoter(dex),
    ensures
        step == LegStep::Done(None),
        state is Finished,
        leg_opening(net, dex, sym_in, sym_out) == Opening::Dry,
{
}

} // verus!
