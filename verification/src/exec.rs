//! Planning a submission: the gas limit and the legacy gas price of the
//! transaction, each with its jitter, and the steps a candidate goes
//! through from quote to submission.

use vstd::prelude::*;
use crate::mev::{
    checked_jitter_value_bps,
    jitter_band_fits,
    jitter_u64_bps,
    in_u64_band,
    in_value_band,
    GasJitterCfg,
    PrivateRelay,
};
use crate::scan::ScanEvent;
use crate::uint::U256;
use crate::utils_gas::{min_amount, saturating_add, saturating_sum, smaller};

verus! {

/// Gas limit of a submission where none is asked for.
pub const DEFAULT_GAS_LIMIT: u64 = 1_500_000;

/// Gas allowance of the simulation call.
pub const SIMULATE_GAS_LIMIT: u64 = 200_000;

/// How a candidate is to be submitted.
#[derive(Clone, Debug)]
pub struct TxOpts {
    /// Submit through the private relay first, where one is given.
    pub private: bool,
    /// Jitter to apply to gas limit and gas price.
    pub gas_jitter: Option<GasJitterCfg>,
    /// Gas limit to ask for.
    pub gas_limit: Option<u64>,
    /// EIP-1559 maximum fee; counts only together with the priority fee.
    pub max_fee_per_gas: Option<U256>,
    /// EIP-1559 priority fee; counts only together with the maximum fee.
    pub max_priority_fee_per_gas: Option<U256>,
    /// Fixed legacy gas price, used where the EIP-1559 fields are not both given.
    pub legacy_gas_price: Option<U256>,
    pub private_relay: Option<PrivateRelay>,
}

impl Default for TxOpts {
    fn default() -> (r: TxOpts)
        ensures
            !r.private,
            r.gas_jitter is None,
            r.gas_limit is None,
            r.max_fee_per_gas is None,
            r.max_priority_fee_per_gas is None,
            r.legacy_gas_price is None,
            r.private_relay is None,
    {
        TxOpts {
            private: false,
            gas_jitter: None,
            gas_limit: None,
            max_fee_per_gas: None,
            max_priority_fee_per_gas: None,
            legacy_gas_price: None,
            private_relay: None,
        }
    }
}

/// The gas limit and gas price of a submission.
#[derive(Clone, Copy, Debug)]
pub struct TxPlan {
    pub gas_limit: u64,
    /// The legacy gas price to set; `None` leaves pricing to the provider.
    pub gas_price: Option<U256>,
    /// Whether to hand the transaction to the private relay first.
    pub relay_first: bool,
}

/// The gas limit before jitter.
pub open spec fn base_gas_limit(opts: TxOpts) -> u64 {
    match opts.gas_limit {
        Some(g) => g,
        None => 1_500_000u64,
    }
}

/// The width of the jitter band, zero where no jitter is configured.
pub open spec fn jitter_width(opts: TxOpts) -> u32 {
    match opts.gas_jitter {
        Some(cfg) => cfg.jitter_bps,
        None => 0u32,
    }
}

/// The legacy gas price before jitter: with both EIP-1559 fields given,
/// the smaller of the maximum fee and base fee plus priority fee; else the
/// fixed legacy price, where one is given.
pub open spec fn effective_gas_price_spec(opts: TxOpts, basefee: nat) -> Option<nat> {
    if opts.max_fee_per_gas is Some && opts.max_priority_fee_per_gas is Some {
        Some(
            smaller(
                opts.max_fee_per_gas->0@,
                saturating_sum(basefee, opts.max_priority_fee_per_gas->0@),
            ),
        )
    } else if opts.legacy_gas_price is Some {
        Some(opts.legacy_gas_price->0@)
    } else {
        None
    }
}

/// The legacy gas price of a submission, before jitter.
pub fn effective_gas_price(opts: &TxOpts, basefee: U256) -> (r: Option<U256>)
    ensures
        match r {
            Some(p) => effective_gas_price_spec(*opts, basefee@) == Some(p@),
            None => effective_gas_price_spec(*opts, basefee@) is None,
        },
{
    match (opts.max_fee_per_gas, opts.max_priority_fee_per_gas) {
        (Some(max_fee), Some(tip)) => Some(min_amount(max_fee, saturating_add(basefee, tip))),
        _ => opts.legacy_gas_price,
    }
}

/// Plans a submission on the given base fee.  Gas limit and gas price are
/// each moved by a random number of basis points within the configured
/// band, independently; without a configured band they stay as they are.
/// The result is `None` only when the price drawn leaves the 256-bit range.
pub fn plan_transaction(opts: &TxOpts, basefee: U256) -> (r: Option<TxPlan>)
    ensures
        (effective_gas_price_spec(*opts, basefee@) matches Some(p) ==> jitter_band_fits(
            p,
            jitter_width(*opts) as nat,
        )) ==> r is Some,
        r matches Some(plan) ==> {
            &&& in_u64_band(base_gas_limit(*opts), jitter_width(*opts), plan.gas_limit)
            &&& jitter_width(*opts) == 0 ==> plan.gas_limit == base_gas_limit(*opts)
            &&& plan.gas_price is Some <==> effective_gas_price_spec(*opts, basefee@) is Some
            &&& plan.gas_price matches Some(price) ==> in_value_band(
                effective_gas_price_spec(*opts, basefee@)->0,
                jitter_width(*opts) as nat,
                price@,
            )
            &&& jitter_width(*opts) == 0 ==> (plan.gas_price matches Some(price) ==> Some(price@)
                == effective_gas_price_spec(*opts, basefee@))
            &&& plan.relay_first == (opts.private && opts.private_relay is Some)
        },
{
    let base_gas = match opts.gas_limit {
        Some(g) => g,
        None => DEFAULT_GAS_LIMIT,
    };
    let width = match &opts.gas_jitter {
        Some(cfg) => cfg.jitter_bps,
        None => 0,
    };
    let gas_limit = jitter_u64_bps(base_gas, width);
    let gas_price = match effective_gas_price(opts, basefee) {
        Some(price) => match checked_jitter_value_bps(price, width) {
            Some(moved) => Some(moved),
            None => {
                return None;
            },
        },
        None => None,
    };
    let relay_first = opts.private && opts.private_relay.is_some();
    Some(TxPlan { gas_limit, gas_price, relay_first })
}

/// Where a candidate stands on its way to the chain.
#[derive(Clone, Copy, Debug, PartialEq, Eq, Structural)]
pub enum CandidateState {
    /// Quoted and accepted; nothing has been sent.
    Quoted,
    /// The simulation call has returned, with or without an error.
    Simulated,
    /// The transaction was submitted.
    Submitted,
    /// Submissions are switched off; nothing was submitted.
    SkippedDryRun,
    /// The submission failed.
    Failed,
}

/// What to do with a candidate next.
#[derive(Clone, Copy, Debug, PartialEq, Eq, Structural)]
pub enum CandidateAction {
    /// Call the executor's simulation entry point.
    Simulate,
    /// Submit the transaction.
    Submit,
    /// Nothing more.
    Rest,
}

impl CandidateState {
    /// What a candidate asks for in this state: a quoted one is simulated,
    /// a simulated one is submitted unless submissions are switched off,
    /// and that is all.  The outcome of the simulation does not decide.
    pub open spec fn action_spec(self, dry_run: bool) -> CandidateAction {
        match self {
            CandidateState::Quoted => CandidateAction::Simulate,
            CandidateState::Simulated => if dry_run {
                CandidateAction::Rest
            } else {
                CandidateAction::Submit
            },
            _ => CandidateAction::Rest,
        }
    }

    /// The state after the action that this state asked for was performed;
    /// `succeeded` tells how a submission went.
    pub open spec fn next_spec(self, dry_run: bool, succeeded: bool) -> CandidateState {
        match self {
            CandidateState::Quoted => CandidateState::Simulated,
            CandidateState::Simulated => if dry_run {
                CandidateState::SkippedDryRun
            } else if succeeded {
                CandidateState::Submitted
            } else {
                CandidateState::Failed
            },
            done => done,
        }
    }

    /// What the scan is told of a candidate in this state.
    pub open spec fn report_spec(self) -> ScanEvent {
        match self {
            CandidateState::Submitted => ScanEvent::Executed(true),
            CandidateState::Failed => ScanEvent::Executed(false),
            _ => ScanEvent::NotExecuted,
        }
    }

    /// What the candidate asks for next.
    pub fn action(self, dry_run: bool) -> (a: CandidateAction)
        ensures
            a == self.action_spec(dry_run),
    {
        match self {
            CandidateState::Quoted => CandidateAction::Simulate,
            CandidateState::Simulated => if dry_run {
                CandidateAction::Rest
            } else {
                CandidateAction::Submit
            },
            _ => CandidateAction::Rest,
        }
    }

    /// The state after the action asked for was performed.
    pub fn next(self, dry_run: bool, succeeded: bool) -> (s: CandidateState)
        ensures
            s == self.next_spec(dry_run, succeeded),
    {
        match self {
            CandidateState::Quoted => CandidateState::Simulated,
            CandidateState::Simulated => if dry_run {
                CandidateState::SkippedDryRun
            } else if succeeded {
                CandidateState::Submitted
            } else {
                CandidateState::Failed
            },
            done => done,
        }
    }

    /// What to tell the scan once the candidate rests.
    pub fn report(self) -> (e: ScanEvent)
        ensures
            e == self.report_spec(),
    {
        match self {
            CandidateState::Submitted => ScanEvent::Executed(true),
            CandidateState::Failed => ScanEvent::Executed(false),
            _ => ScanEvent::NotExecuted,
        }
    }
}

/// In dry-run mode no candidate is ever submitted, whatever happens.
pub proof fn lemma_dry_run_never_submits(state: CandidateState, succeeded: bool)
    ensures
        state.action_spec(true) != CandidateAction::Submit,
        state != CandidateState::Submitted ==> state.next_spec(true, succeeded)
            != CandidateState::Submitted,
{
}

} // verus!
