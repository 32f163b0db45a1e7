//! Token allowances.  For every token and every spender whose allowance is
//! below the minimum, the shared-allowance contract is tried first where
//! one is configured, and a direct approval is the fallback.  In dry-run
//! mode nothing is sent; what would be sent is only reported.

use vstd::prelude::*;
use crate::address::Address;
use crate::calldata::addresses_view;
use crate::config::{Config, DexConfig, Network};
use crate::legs::optional_address;
use crate::utils::{pow10, unit_amount};
use crate::uint::U256;
use crate::utils::{parse_addr, parsed_address};

verus! {

/// Gas limit of an approval through the shared-allowance contract.
pub const PERMIT2_GAS: u64 = 80_000;

/// Gas limit of a direct approval.
pub const APPROVE_GAS: u64 = 60_000;

/// Expiration granted through the shared-allowance contract: the largest
/// 48-bit number.
pub const PERMIT2_EXPIRATION: u64 = 281_474_976_710_655;

/// Where a batch of approvals stands.
#[derive(Clone, Copy, Debug, PartialEq, Eq, Structural)]
pub enum ApprovalPhase {
    /// The allowance of the current pair was asked for.
    Reading,
    /// What would be sent for the current pair was reported.
    Reported,
    /// An approval through the shared-allowance contract was sent.
    Permit2Sent,
    /// A direct approval was sent.
    DirectSent,
    /// Nothing is asked.
    Finished,
}

/// A batch of approvals: every token with every spender, token by token.
#[derive(Clone, Debug)]
pub struct ApprovalBatch {
    pub tokens: Vec<Address>,
    pub spenders: Vec<Address>,
    /// Position of the current token.
    pub token: usize,
    /// Position of the current spender.
    pub spender: usize,
    pub min_allowance: U256,
    /// The shared-allowance contract, where one is configured.
    pub permit2: Option<Address>,
    pub dry: bool,
    pub phase: ApprovalPhase,
}

/// What the caller is to do next.
#[derive(Clone, Copy, Debug)]
pub enum ApprovalStep {
    /// Read the allowance that the signer has given `spender` on `token`.
    ReadAllowance { token: Address, spender: Address },
    /// Report that an approval through the shared-allowance contract would be sent.
    ReportPermit2 { token: Address, spender: Address },
    /// Approve `amount` until `expiration` through the shared-allowance contract.
    SendPermit2 {
        permit2: Address,
        token: Address,
        spender: Address,
        amount: U256,
        expiration: u64,
        gas: u64,
    },
    /// Report that a direct approval would be sent.
    ReportDirect { token: Address, spender: Address },
    /// Approve `amount` directly on the token.
    SendDirect { token: Address, spender: Address, amount: U256, gas: u64 },
    /// The batch is done.
    Finished,
    /// The batch is broken off: a direct approval failed, or the event does
    /// not answer the last step.
    Abort,
}

/// What the caller reports back.
#[derive(Clone, Copy, Debug)]
pub enum ApprovalEvent {
    /// The allowance read, absent when the read failed.
    Allowance(Option<U256>),
    /// Whether what was to be sent was sent.
    Sent(bool),
    /// The report was made.
    Next,
}

/// Two to the power 160, minus one: the most that the shared-allowance
/// contract can grant.
pub open spec fn permit2_max_spec() -> nat {
    0xffff_ffff_ffff_ffff_ffff_ffff_ffff_ffff_ffff_ffffnat
}

/// The most that the shared-allowance contract can grant.
pub fn permit2_max_amount() -> (r: U256)
    ensures
        r@ == permit2_max_spec(),
{
    U256 { w0: u64::MAX, w1: u64::MAX, w2: 0xffff_ffff, w3: 0 }
}

/// The shared-allowance contract that a configuration names: none where
/// the text is empty or is no address.
pub open spec fn permit2_of_spec(cfg: Config) -> Option<Seq<u8>> {
    if cfg.global.risk.permit2@.len() == 0 {
        None
    } else {
        parsed_address(cfg.global.risk.permit2@)
    }
}

/// The shared-allowance contract that a configuration names.
pub fn permit2_of(cfg: &Config) -> (r: Option<Address>)
    ensures
        match r {
            Some(a) => permit2_of_spec(*cfg) == Some(a@),
            None => permit2_of_spec(*cfg) is None,
        },
{
    if cfg.global.risk.permit2.as_str().is_empty() {
        None
    } else {
        match parse_addr(cfg.global.risk.permit2.as_str()) {
            Ok(a) => Some(a),
            Err(_) => None,
        }
    }
}

impl ApprovalBatch {
    /// The batch at the pair of the given positions, or finished when the
    /// positions are past the last pair.
    pub open spec fn at(self, token: usize, spender: usize) -> (ApprovalBatch, ApprovalStep) {
        if token < self.tokens@.len() && spender < self.spenders@.len() {
            (
                ApprovalBatch { token, spender, phase: ApprovalPhase::Reading, ..self },
                ApprovalStep::ReadAllowance {
                    token: self.tokens@[token as int],
                    spender: self.spenders@[spender as int],
                },
            )
        } else {
            (
                ApprovalBatch { token, spender, phase: ApprovalPhase::Finished, ..self },
                ApprovalStep::Finished,
            )
        }
    }

    /// The batch at the pair after the current one: the next spender of
    /// the same token, or the first spender of the next token.
    pub open spec fn at_next(self) -> (ApprovalBatch, ApprovalStep) {
        if self.spender + 1 < self.spenders@.len() {
            self.at(self.token, (self.spender + 1) as usize)
        } else if self.token < usize::MAX {
            self.at((self.token + 1) as usize, 0)
        } else {
            self.at(self.token, self.spender)
        }
    }

    /// The batch, broken off.
    pub open spec fn broken(self) -> (ApprovalBatch, ApprovalStep) {
        (ApprovalBatch { phase: ApprovalPhase::Finished, ..self }, ApprovalStep::Abort)
    }

    /// Whether the positions of the batch name a pair.
    pub open spec fn in_range(self) -> bool {
        self.token < self.tokens@.len() && self.spender < self.spenders@.len()
    }

    /// The direct approval of the current pair: sent, or in dry-run mode
    /// only reported.
    pub open spec fn direct(self) -> (ApprovalBatch, ApprovalStep) {
        let token = self.tokens@[self.token as int];
        let spender = self.spenders@[self.spender as int];
        if self.dry {
            (
                ApprovalBatch { phase: ApprovalPhase::Reported, ..self },
                ApprovalStep::ReportDirect { token, spender },
            )
        } else {
            (
                ApprovalBatch { phase: ApprovalPhase::DirectSent, ..self },
                ApprovalStep::SendDirect {
                    token,
                    spender,
                    amount: U256 { w0: u64::MAX, w1: u64::MAX, w2: u64::MAX, w3: u64::MAX },
                    gas: 60_000,
                },
            )
        }
    }

    /// What an allowance that was read asks for: nothing where the read
    /// failed or the allowance is at least the minimum; else an approval,
    /// through the shared-allowance contract where one is configured.
    pub open spec fn after_allowance(self, allowance: Option<U256>) -> (ApprovalBatch, ApprovalStep) {
        let token = self.tokens@[self.token as int];
        let spender = self.spenders@[self.spender as int];
        if allowance is None || allowance->0@ >= self.min_allowance@ {
            self.at_next()
        } else if self.permit2 is Some {
            if self.dry {
                (
                    ApprovalBatch { phase: ApprovalPhase::Reported, ..self },
                    ApprovalStep::ReportPermit2 { token, spender },
                )
            } else {
                (
                    ApprovalBatch { phase: ApprovalPhase::Permit2Sent, ..self },
                    ApprovalStep::SendPermit2 {
                        permit2: self.permit2->0,
                        token,
                        spender,
                        amount: U256 { w0: u64::MAX, w1: u64::MAX, w2: 0xffff_ffff, w3: 0 },
                        expiration: 281_474_976_710_655,
                        gas: 80_000,
                    },
                )
            }
        } else {
            self.direct()
        }
    }

    /// How the batch goes on when the caller reports back.
    pub open spec fn next_spec(self, event: ApprovalEvent) -> (ApprovalBatch, ApprovalStep) {
        if !self.in_range() {
            self.broken()
        } else {
            match (self.phase, event) {
                (ApprovalPhase::Reading, ApprovalEvent::Allowance(a)) => self.after_allowance(a),
                (ApprovalPhase::Reported, ApprovalEvent::Next) => self.at_next(),
                (ApprovalPhase::Permit2Sent, ApprovalEvent::Sent(true)) => self.at_next(),
                (ApprovalPhase::Permit2Sent, ApprovalEvent::Sent(false)) => self.direct(),
                (ApprovalPhase::DirectSent, ApprovalEvent::Sent(true)) => self.at_next(),
                _ => self.broken(),
            }
        }
    }

    fn go_to(self, token: usize, spender: usize) -> (r: (ApprovalBatch, ApprovalStep))
        ensures
            r == self.at(token, spender),
    {
        let mut b = self;
        b.token = token;
        b.spender = spender;
        if token < b.tokens.len() && spender < b.spenders.len() {
            b.phase = ApprovalPhase::Reading;
            let step = ApprovalStep::ReadAllowance {
                token: b.tokens[token],
                spender: b.spenders[spender],
            };
            (b, step)
        } else {
            b.phase = ApprovalPhase::Finished;
            (b, ApprovalStep::Finished)
        }
    }

    fn go_on(self) -> (r: (ApprovalBatch, ApprovalStep))
        requires
            self.in_range(),
        ensures
            r == self.at_next(),
    {
        let count = self.spenders.len();
        let token_count = self.tokens.len();
        if self.spender + 1 < count {
            let (t, s) = (self.token, self.spender + 1);
            self.go_to(t, s)
        } else {
            let t = self.token + 1;
            self.go_to(t, 0)
        }
    }

    fn give_up(self) -> (r: (ApprovalBatch, ApprovalStep))
        ensures
            r == self.broken(),
    {
        let mut b = self;
        b.phase = ApprovalPhase::Finished;
        (b, ApprovalStep::Abort)
    }

    fn approve_directly(self) -> (r: (ApprovalBatch, ApprovalStep))
        requires
            self.in_range(),
        ensures
            r == self.direct(),
    {
        let mut b = self;
        let token = b.tokens[b.token];
        let spender = b.spenders[b.spender];
        if b.dry {
            b.phase = ApprovalPhase::Reported;
            (b, ApprovalStep::ReportDirect { token, spender })
        } else {
            b.phase = ApprovalPhase::DirectSent;
            (
                b,
                ApprovalStep::SendDirect {
                    token,
                    spender,
                    amount: U256::max_value(),
                    gas: APPROVE_GAS,
                },
            )
        }
    }

    /// Takes in what the caller reports back, and says what to do next.
    pub fn on_event(self, event: ApprovalEvent) -> (r: (ApprovalBatch, ApprovalStep))
        ensures
            r == self.next_spec(event),
    {
        if !(self.token < self.tokens.len() && self.spender < self.spenders.len()) {
            return self.give_up();
        }
        match (self.phase, event) {
            (ApprovalPhase::Reading, ApprovalEvent::Allowance(allowance)) => {
                let enough = match allowance {
                    Some(a) => self.min_allowance.le(&a),
                    None => true,
                };
                if enough {
                    return self.go_on();
                }
                match self.permit2 {
                    Some(permit2) => {
                        let mut b = self;
                        let token = b.tokens[b.token];
                        let spender = b.spenders[b.spender];
                        if b.dry {
                            b.phase = ApprovalPhase::Reported;
                            (b, ApprovalStep::ReportPermit2 { token, spender })
                        } else {
                            b.phase = ApprovalPhase::Permit2Sent;
                            (
                                b,
                                ApprovalStep::SendPermit2 {
                                    permit2,
                                    token,
                                    spender,
                                    amount: permit2_max_amount(),
                                    expiration: PERMIT2_EXPIRATION,
                                    gas: PERMIT2_GAS,
                                },
                            )
                        }
                    },
                    None => self.approve_directly(),
                }
            },
            (ApprovalPhase::Reported, ApprovalEvent::Next) => self.go_on(),
            (ApprovalPhase::Permit2Sent, ApprovalEvent::Sent(true)) => self.go_on(),
            (ApprovalPhase::Permit2Sent, ApprovalEvent::Sent(false)) => self.approve_directly(),
            (ApprovalPhase::DirectSent, ApprovalEvent::Sent(true)) => self.go_on(),
            _ => self.give_up(),
        }
    }
}

/// Opens a batch of approvals for every token with every spender,
/// starting with the first spender of the first token.
pub fn ensure_approvals(
    permit2: Option<Address>,
    tokens: Vec<Address>,
    spenders: Vec<Address>,
    min_allowance: U256,
    dry: bool,
) -> (r: (ApprovalBatch, ApprovalStep))
    ensures
        r == (ApprovalBatch {
            tokens,
            spenders,
            token: 0,
            spender: 0,
            min_allowance,
            permit2,
            dry,
            phase: ApprovalPhase::Reading,
        }).at(0, 0),
{
    let b = ApprovalBatch {
        tokens,
        spenders,
        token: 0,
        spender: 0,
        min_allowance,
        permit2,
        dry,
        phase: ApprovalPhase::Reading,
    };
    b.go_to(0, 0)
}

/// In dry-run mode a batch sends nothing: no step asks for an approval
/// to be sent, whatever is reported back.
pub proof fn lemma_dry_batch_sends_nothing(b: ApprovalBatch, event: ApprovalEvent)
    requires
        b.dry,
    ensures
        !(b.next_spec(event).1 is SendPermit2),
        !(b.next_spec(event).1 is SendDirect),
        b.next_spec(event).0.dry,
{
}

/// An allowance at or above the minimum, and one that could not be read,
/// ask for no approval: the batch moves on to the next pair.
pub proof fn lemma_sufficient_allowance_moves_on(b: ApprovalBatch, allowance: Option<U256>)
    requires
        b.in_range(),
        b.phase == ApprovalPhase::Reading,
        allowance is None || allowance->0@ >= b.min_allowance@,
    ensures
        b.next_spec(ApprovalEvent::Allowance(allowance)) == b.at_next(),
{
}

/// A failed approval through the shared-allowance contract falls back to
/// a direct approval of the same pair.
pub proof fn lemma_permit2_failure_falls_back(b: ApprovalBatch)
    requires
        b.in_range(),
        b.phase == ApprovalPhase::Permit2Sent,
        !b.dry,
    ensures
        b.next_spec(ApprovalEvent::Sent(false)).1 matches ApprovalStep::SendDirect {
            token,
            spender,
            ..
        } && token == b.tokens@[b.token as int] && spender == b.spenders@[b.spender as int],
{
}


/// A list of addresses with one more, unless it is already there or there
/// is none to add.
pub open spec fn with_spender(list: Seq<Seq<u8>>, addr: Option<Seq<u8>>) -> Seq<Seq<u8>> {
    match addr {
        Some(a) => if list.contains(a) {
            list
        } else {
            list.push(a)
        },
        None => list,
    }
}

/// A list of spenders with the routers of one exchange added: its router,
/// its swap router, its universal router and its smart router, as far as
/// their addresses can be read.
pub open spec fn with_routers(list: Seq<Seq<u8>>, dex: DexConfig) -> Seq<Seq<u8>> {
    with_spender(
        with_spender(
            with_spender(
                with_spender(list, optional_address(dex.router)),
                optional_address(dex.swap_router02),
            ),
            optional_address(dex.universal_router),
        ),
        optional_address(dex.smart_router),
    )
}

/// The spenders of the first `n` exchanges of a chain, each once, in the
/// order in which they are first named.
pub open spec fn spenders_upto(net: Network, n: int) -> Seq<Seq<u8>>
    decreases n,
{
    if n <= 0 {
        Seq::empty()
    } else {
        with_routers(spenders_upto(net, n - 1), net.dexes@[n - 1])
    }
}

/// The addresses of the first `n` tokens of a chain, as far as they can be
/// read, in the order of the tokens.
pub open spec fn token_addresses_upto(net: Network, n: int) -> Seq<Seq<u8>>
    decreases n,
{
    if n <= 0 {
        Seq::empty()
    } else {
        match parsed_address(net.tokens@[n - 1].1.address@) {
            Some(a) => token_addresses_upto(net, n - 1).push(a),
            None => token_addresses_upto(net, n - 1),
        }
    }
}

/// The allowance below which an approval is made at start-up: a million
/// whole tokens of 18 decimals.
pub open spec fn startup_min_allowance() -> nat {
    pow10(24)
}

/// The allowance below which an approval is made at start-up.
pub fn min_allowance_on_start() -> (r: U256)
    ensures
        r@ == startup_min_allowance(),
{
    proof {
        assert(pow10(24) < crate::uint::u256_limit()) by {
            reveal_with_fuel(pow10, 25);
        }
    }
    match unit_amount(24) {
        Some(v) => v,
        None => U256::zero(),
    }
}

fn add_spender(list: &mut Vec<Address>, text: &Option<String>)
    ensures
        addresses_view(final(list)@) == with_spender(
            addresses_view(old(list)@),
            optional_address(*text),
        ),
{
    let addr = match text {
        Some(t) => match parse_addr(t.as_str()) {
            Ok(a) => a,
            Err(_) => {
                return ;
            },
        },
        None => {
            return ;
        },
    };
    let ghost views = addresses_view(list@);
    let mut i: usize = 0;
    while i < list.len()
        invariant
            i <= list@.len(),
            views == addresses_view(list@),
            list@ == old(list)@,
            optional_address(*text) == Some(addr@),
            forall|k: int| 0 <= k < i ==> views[k] != addr@,
        decreases list@.len() - i,
    {
        if list[i].same(&addr) {
            assert(views[i as int] == addr@);
            assert(views.contains(addr@));
            return ;
        }
        i += 1;
    }
    assert(!views.contains(addr@));
    list.push(addr);
    assert(addresses_view(list@) =~= views.push(addr@));
}

/// The spenders of a chain: the routers of its exchanges, each once.
pub fn spenders_of(net: &Network) -> (r: Vec<Address>)
    ensures
        addresses_view(r@) == spenders_upto(*net, net.dexes@.len() as int),
{
    let mut list: Vec<Address> = Vec::new();
    assert(addresses_view(list@) =~= Seq::empty());
    let mut i: usize = 0;
    while i < net.dexes.len()
        invariant
            i <= net.dexes@.len(),
            addresses_view(list@) == spenders_upto(*net, i as int),
        decreases net.dexes@.len() - i,
    {
        let d = &net.dexes[i];
        add_spender(&mut list, &d.router);
        add_spender(&mut list, &d.swap_router02);
        add_spender(&mut list, &d.universal_router);
        add_spender(&mut list, &d.smart_router);
        i += 1;
    }
    list
}

/// The token addresses of a chain, as far as they can be read.
pub fn tokens_of(net: &Network) -> (r: Vec<Address>)
    ensures
        addresses_view(r@) == token_addresses_upto(*net, net.tokens@.len() as int),
{
    let mut list: Vec<Address> = Vec::new();
    assert(addresses_view(list@) =~= Seq::empty());
    let mut i: usize = 0;
    while i < net.tokens.len()
        invariant
            i <= net.tokens@.len(),
            addresses_view(list@) == token_addresses_upto(*net, i as int),
        decreases net.tokens@.len() - i,
    {
        let ghost before = addresses_view(list@);
        match parse_addr(net.tokens[i].1.address.as_str()) {
            Ok(a) => {
                list.push(a);
                assert(addresses_view(list@) =~= before.push(a@));
            },
            Err(_) => {},
        }
        i += 1;
    }
    list
}

/// No spender is listed twice.
pub proof fn lemma_spenders_distinct(net: Network, n: int)
    ensures
        spenders_upto(net, n).no_duplicates(),
    decreases n,
{
    if n > 0 {
        lemma_spenders_distinct(net, n - 1);
        let d = net.dexes@[n - 1];
        let s0 = spenders_upto(net, n - 1);
        let s1 = with_spender(s0, optional_address(d.router));
        let s2 = with_spender(s1, optional_address(d.swap_router02));
        let s3 = with_spender(s2, optional_address(d.universal_router));
        lemma_with_spender_distinct(s0, optional_address(d.router));
        lemma_with_spender_distinct(s1, optional_address(d.swap_router02));
        lemma_with_spender_distinct(s2, optional_address(d.universal_router));
        lemma_with_spender_distinct(s3, optional_address(d.smart_router));
    }
}

proof fn lemma_with_spender_distinct(list: Seq<Seq<u8>>, addr: Option<Seq<u8>>)
    requires
        list.no_duplicates(),
    ensures
        with_spender(list, addr).no_duplicates(),
{
}


impl ApprovalBatch {
    /// The pairs that the batch has not finished with, the current one
    /// included.
    pub open spec fn pairs_left(self) -> int {
        if self.phase == ApprovalPhase::Finished || !self.in_range() {
            0
        } else {
            (self.tokens@.len() - self.token) * self.spenders@.len() - self.spender
        }
    }

    /// How far the batch has come with the current pair.
    pub open spec fn pair_rank(self) -> int {
        match self.phase {
            ApprovalPhase::Reading => 0,
            ApprovalPhase::Permit2Sent => 1,
            ApprovalPhase::Reported => 2,
            ApprovalPhase::DirectSent => 2,
            ApprovalPhase::Finished => 3,
        }
    }
}

/// A batch comes to an end: every report either moves it on to the next
/// pair or takes it further with the current one, and no pair takes more
/// than three steps.
pub proof fn lemma_batch_progresses(b: ApprovalBatch, event: ApprovalEvent)
    requires
        b.tokens@.len() <= usize::MAX,
        b.spenders@.len() <= usize::MAX,
        b.phase != ApprovalPhase::Finished,
        b.in_range(),
    ensures
        ({
            let after = b.next_spec(event).0;
            after.pairs_left() < b.pairs_left() || (after.pairs_left() == b.pairs_left()
                && after.pair_rank() > b.pair_rank())
        }),
{
    let after = b.next_spec(event).0;
    let s = b.spenders@.len() as int;
    let t = b.tokens@.len() as int;
    assert((t - b.token) * s - b.spender >= 1) by (nonlinear_arith)
        requires
            b.token < t,
            b.spender < s,
    ;
    if after.phase != ApprovalPhase::Finished && after.in_range() && (after.token != b.token
        || after.spender != b.spender) {
        if after.token == b.token {
            assert(after.spender == b.spender + 1);
        } else {
            assert(after.token == b.token + 1 && after.spender == 0);
            assert((t - (b.token + 1)) * s - 0 < (t - b.token) * s - b.spender) by (nonlinear_arith)
                requires
                    b.spender < s,
            ;
        }
    }
}

} // verus!
