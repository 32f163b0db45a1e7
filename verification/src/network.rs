//! Endpoint failover.  A chain has an ordered list of RPC endpoints and one
//! of them is current.  A read is attempted on the current endpoint; a
//! transient failure moves on to the next endpoint, wrapping around, and the
//! read is attempted again, until every endpoint has had one attempt.  Any
//! other failure ends the read at once.  The current endpoint outlives the
//! read, so a degraded endpoint is not the first to be tried next time.

use vstd::prelude::*;
use vstd::string::*;
use std::collections::HashMap;
use crate::config::{Config, Network};
use crate::utils::{copy_strings, first_some};

verus! {

broadcast use vstd::std_specs::hash::group_hash_axioms;

/// How one attempt on an endpoint ended.
#[derive(Clone, Copy, Debug, PartialEq, Eq, Structural)]
pub enum AttemptOutcome {
    /// The read returned a value.
    Success,
    /// The connection failed, timed out, or the transport reported an error.
    Transient,
    /// The call itself is at fault: a revert, a decode error.
    Permanent,
}

/// What to do next in a read with failover.
#[derive(Clone, Copy, Debug, PartialEq, Eq, Structural)]
pub enum FailoverStep {
    /// Attempt the read on the current endpoint.
    Attempt,
    /// Connect to the endpoint with this index, then confirm the switch.
    Switch { next: usize },
    /// The read has its value.
    Succeeded,
    /// The last error is final: the call is at fault.
    Failed,
    /// The last error is final: every endpoint has had its attempt.
    Exhausted,
}

/// How a whole read with failover ended.
#[derive(Clone, Copy, Debug, PartialEq, Eq, Structural)]
pub enum FailoverEnd {
    Succeeded,
    Failed,
    Exhausted,
}

/// The progress of one read: how many attempts it has made.
#[derive(Clone, Copy, Debug)]
pub struct FailoverCall {
    pub attempts: usize,
}

/// The endpoints of one chain and which of them is current.
#[derive(Clone, Debug)]
pub struct ChainClient<'a> {
    cfg: &'a Network,
    endpoints: Vec<String>,
    current_index: usize,
}

/// The index after `index` in a ring of `n` endpoints.
pub open spec fn next_endpoint(index: nat, n: nat) -> nat {
    if n == 0 {
        0
    } else {
        (index + 1) % n
    }
}

/// The endpoint `k` places after `start` in a ring of `n` endpoints.
pub open spec fn ring_index(start: nat, k: nat, n: nat) -> nat {
    if n == 0 {
        0
    } else {
        (start + k) % n
    }
}

/// A whole read, played out: `answers` tells how an attempt on each
/// endpoint ends, `index` is the current endpoint and `attempts` the number
/// of attempts made so far.  The result is how the read ends, the endpoint
/// that is current afterwards, and the number of attempts made in all.
pub open spec fn failover_run(
    n: nat,
    answers: spec_fn(nat) -> AttemptOutcome,
    index: nat,
    attempts: nat,
) -> (FailoverEnd, nat, nat)
    decreases n - attempts,
{
    if attempts >= n {
        (FailoverEnd::Exhausted, index, attempts)
    } else {
        match answers(index) {
            AttemptOutcome::Success => (FailoverEnd::Succeeded, index, attempts + 1),
            AttemptOutcome::Permanent => (FailoverEnd::Failed, index, attempts + 1),
            AttemptOutcome::Transient => failover_run(
                n,
                answers,
                next_endpoint(index, n),
                attempts + 1,
            ),
        }
    }
}

impl<'a> ChainClient<'a> {
    /// The endpoints are in place and one of them is current.
    pub open spec fn wf(&self) -> bool {
        self.current() < self.endpoints().len() || (self.endpoints().len() == 0 && self.current()
            == 0)
    }

    /// The description of the chain.
    pub closed spec fn config(&self) -> Network {
        *self.cfg
    }

    /// The numeric identifier of the chain.
    pub open spec fn chain(&self) -> u64 {
        self.config().chain_id
    }

    /// The endpoint URLs, in order.
    pub closed spec fn endpoints(&self) -> Seq<String> {
        self.endpoints@
    }

    /// The index of the current endpoint.
    pub closed spec fn current(&self) -> nat {
        self.current_index as nat
    }

    /// A client for a chain, with the chain's endpoints in their order and
    /// the first of them current.
    pub fn new(cfg: &'a Network) -> (c: ChainClient<'a>)
        ensures
            c.wf(),
            c.config() == *cfg,
            c.endpoints() == cfg.rpc@,
            c.current() == 0,
    {
        ChainClient { cfg, endpoints: copy_strings(&cfg.rpc), current_index: 0 }
    }

    /// The description of the chain.
    pub fn cfg(&self) -> (r: &'a Network)
        ensures
            *r == self.config(),
    {
        self.cfg
    }

    /// The numeric identifier of the chain.
    pub fn chain_id(&self) -> (id: u64)
        ensures
            id == self.chain(),
    {
        self.cfg.chain_id
    }

    /// How many endpoints the chain has.
    pub fn endpoint_count(&self) -> (n: usize)
        ensures
            n == self.endpoints().len(),
    {
        self.endpoints.len()
    }

    /// The index of the current endpoint.
    pub fn current_index(&self) -> (i: usize)
        ensures
            i == self.current(),
    {
        self.current_index
    }

    /// The URL of the endpoint with the given index.
    pub fn endpoint(&self, index: usize) -> (url: &str)
        requires
            index < self.endpoints().len(),
        ensures
            url@ == self.endpoints()[index as int]@,
    {
        self.endpoints[index].as_str()
    }

    /// Begins a read: with no endpoint at all it is over before it starts.
    pub fn begin_call(&self) -> (r: (FailoverCall, FailoverStep))
        ensures
            r.0.attempts == 0,
            r.1 == if self.endpoints().len() == 0 {
                FailoverStep::Exhausted
            } else {
                FailoverStep::Attempt
            },
    {
        let call = FailoverCall { attempts: 0 };
        if self.endpoints.len() == 0 {
            (call, FailoverStep::Exhausted)
        } else {
            (call, FailoverStep::Attempt)
        }
    }

    /// Takes in the outcome of the attempt just made.  Success and a
    /// permanent failure end the read; a transient failure asks for a switch
    /// to the next endpoint.  The attempt is counted; the current endpoint
    /// stays until the switch is confirmed.
    pub fn after_attempt(&self, call: &mut FailoverCall, outcome: AttemptOutcome) -> (step:
        FailoverStep)
        requires
            self.wf(),
            old(call).attempts < self.endpoints().len(),
        ensures
            final(call).attempts == old(call).attempts + 1,
            step == match outcome {
                AttemptOutcome::Success => FailoverStep::Succeeded,
                AttemptOutcome::Permanent => FailoverStep::Failed,
                AttemptOutcome::Transient => FailoverStep::Switch {
                    next: next_endpoint(self.current(), self.endpoints().len()) as usize,
                },
            },
    {
        let n = self.endpoints.len();
        call.attempts = call.attempts + 1;
        match outcome {
            AttemptOutcome::Success => FailoverStep::Succeeded,
            AttemptOutcome::Permanent => FailoverStep::Failed,
            AttemptOutcome::Transient => {
                let next = (self.current_index + 1) % n;
                FailoverStep::Switch { next }
            },
        }
    }

    /// Makes the next endpoint current, once a connection to it stands.
    /// The read goes on with another attempt unless every endpoint has had
    /// one.
    pub fn switch_provider(&mut self, call: &FailoverCall) -> (step: FailoverStep)
        requires
            old(self).wf(),
            old(self).endpoints().len() > 0,
        ensures
            final(self).wf(),
            final(self).config() == old(self).config(),
            final(self).endpoints() == old(self).endpoints(),
            final(self).current() == next_endpoint(old(self).current(), old(self).endpoints().len()),
            step == if call.attempts >= old(self).endpoints().len() {
                FailoverStep::Exhausted
            } else {
                FailoverStep::Attempt
            },
    {
        let n = self.endpoints.len();
        self.current_index = (self.current_index + 1) % n;
        if call.attempts >= n {
            FailoverStep::Exhausted
        } else {
            FailoverStep::Attempt
        }
    }
}

/// The outcome that an attempt has on each endpoint, as a function of the
/// endpoint's index.
pub open spec fn answers_of(outcomes: Seq<AttemptOutcome>) -> spec_fn(nat) -> AttemptOutcome {
    |i: nat|
        if i < outcomes.len() {
            outcomes[i as int]
        } else {
            AttemptOutcome::Permanent
        }
}

impl<'a> ChainClient<'a> {
    /// Plays a whole read on endpoints whose answers are known:
    /// `outcomes[i]` is how an attempt on endpoint `i` ends.  Returns how
    /// the read ends and how many attempts it made, and leaves current the
    /// endpoint that the read stopped at.
    pub fn with_failover(&mut self, outcomes: &Vec<AttemptOutcome>) -> (r: (FailoverEnd, usize))
        requires
            old(self).wf(),
            outcomes@.len() == old(self).endpoints().len(),
        ensures
            final(self).wf(),
            final(self).config() == old(self).config(),
            final(self).endpoints() == old(self).endpoints(),
            (r.0, final(self).current(), r.1 as nat) == failover_run(
                old(self).endpoints().len(),
                answers_of(outcomes@),
                old(self).current(),
                0,
            ),
    {
        let ghost n = self.endpoints().len();
        let ghost start = self.current();
        let ghost f = answers_of(outcomes@);
        let (mut call, first) = self.begin_call();
        if first == FailoverStep::Exhausted {
            return (FailoverEnd::Exhausted, 0);
        }
        loop
            invariant
                self.wf(),
                self.config() == old(self).config(),
                self.endpoints() == old(self).endpoints(),
                n == self.endpoints().len(),
                start == old(self).current(),
                outcomes@.len() == n,
                f == answers_of(outcomes@),
                call.attempts < n,
                failover_run(n, f, start, 0) == failover_run(n, f, self.current(), call.attempts as nat),
            decreases n - call.attempts,
        {
            let outcome = outcomes[self.current_index];
            let ghost here = self.current();
            let ghost made = call.attempts as nat;
            assert(f(here) == outcome);
            assert(failover_run(n, f, here, made) == match outcome {
                AttemptOutcome::Success => (FailoverEnd::Succeeded, here, made + 1),
                AttemptOutcome::Permanent => (FailoverEnd::Failed, here, made + 1),
                AttemptOutcome::Transient => failover_run(n, f, next_endpoint(here, n), made + 1),
            });
            match self.after_attempt(&mut call, outcome) {
                FailoverStep::Succeeded => {
                    return (FailoverEnd::Succeeded, call.attempts);
                },
                FailoverStep::Failed => {
                    return (FailoverEnd::Failed, call.attempts);
                },
                _ => {
                    let step = self.switch_provider(&call);
                    if step == FailoverStep::Exhausted {
                        assert(failover_run(n, f, self.current(), call.attempts as nat) == (
                            FailoverEnd::Exhausted,
                            self.current(),
                            call.attempts as nat,
                        ));
                        return (FailoverEnd::Exhausted, call.attempts);
                    }
                },
            }
        }
    }
}

/// A read makes at most one attempt per endpoint.
pub proof fn lemma_failover_bounded(
    n: nat,
    answers: spec_fn(nat) -> AttemptOutcome,
    index: nat,
    attempts: nat,
)
    requires
        attempts <= n,
    ensures
        failover_run(n, answers, index, attempts).2 <= n,
    decreases n - attempts,
{
    if attempts < n && answers(index) == AttemptOutcome::Transient {
        lemma_failover_bounded(n, answers, next_endpoint(index, n), attempts + 1);
    }
}

proof fn lemma_failover_chain(
    n: nat,
    answers: spec_fn(nat) -> AttemptOutcome,
    start: nat,
    failing: nat,
    done: nat,
)
    requires
        n > 0,
        start < n,
        failing < n,
        done <= failing,
        forall|k: nat|
            k < failing ==> answers(#[trigger] ring_index(start, k, n)) == AttemptOutcome::Transient,
        answers(ring_index(start, failing, n)) == AttemptOutcome::Success,
    ensures
        failover_run(n, answers, ring_index(start, done, n), done) == (
            FailoverEnd::Succeeded,
            ring_index(start, failing, n),
            failing + 1,
        ),
    decreases failing - done,
{
    if done < failing {
        assert(answers(ring_index(start, done, n)) == AttemptOutcome::Transient);
        assert((((start + done) % n) + 1) % n == (start + done + 1) % n) by (nonlinear_arith)
            requires
                n > 0,
        ;
        assert(next_endpoint(ring_index(start, done, n), n) == ring_index(start, done + 1, n));
        lemma_failover_chain(n, answers, start, failing, done + 1);
    }
}

/// Failover reaches the first healthy endpoint.  Of `n` endpoints, let the
/// current one and the `failing` after it fail transiently and the one
/// after those answer: then the read succeeds with `failing + 1` attempts,
/// which is at most `n`, and the endpoint that answered is current
/// afterwards.  With `failing == n - 1` and the first endpoint current,
/// that is the last endpoint of the list.
pub proof fn lemma_failover_reaches_healthy(
    n: nat,
    answers: spec_fn(nat) -> AttemptOutcome,
    start: nat,
    failing: nat,
)
    requires
        start < n,
        failing < n,
        forall|k: nat|
            k < failing ==> answers(#[trigger] ring_index(start, k, n)) == AttemptOutcome::Transient,
        answers(ring_index(start, failing, n)) == AttemptOutcome::Success,
    ensures
        failover_run(n, answers, start, 0) == (
            FailoverEnd::Succeeded,
            ring_index(start, failing, n),
            failing + 1,
        ),
        failing + 1 <= n,
        start == 0 && failing == n - 1 ==> failover_run(n, answers, start, 0).1 == n - 1,
{
    lemma_failover_chain(n, answers, start, failing, 0);
    assert(ring_index(start, 0, n) == start) by (nonlinear_arith)
        requires
            start < n,
            ring_index(start, 0, n) == (start + 0) % n,
    ;
    if start == 0 && failing == n - 1 {
        assert((0 + failing) % n == failing) by (nonlinear_arith)
            requires
                failing < n,
        ;
    }
}


/// The clients of all configured chains, by numeric chain identifier.
#[derive(Clone, Debug)]
pub struct MultiChain<'a> {
    pub clients: HashMap<u64, ChainClient<'a>>,
}

/// Why the chains of a configuration cannot be served.
#[derive(Clone, Copy, Debug, PartialEq, Eq, Structural)]
pub enum ChainFault {
    /// The chain at this position has no RPC endpoint.
    NoRpc { network: usize },
    /// The chain at this position has the identifier of an earlier one.
    DuplicateChainId { network: usize },
}

/// Whether an earlier chain has the identifier of the one at `i`.
pub open spec fn chain_seen_before(networks: Seq<Network>, i: int) -> bool {
    exists|j: int| 0 <= j < i && (#[trigger] networks[j]).chain_id == networks[i].chain_id
}

/// What keeps the chain at `i` from being served, if anything.
pub open spec fn chain_fault(networks: Seq<Network>, i: int) -> Option<ChainFault> {
    if networks[i].rpc@.len() == 0 {
        Some(ChainFault::NoRpc { network: i as usize })
    } else if chain_seen_before(networks, i) {
        Some(ChainFault::DuplicateChainId { network: i as usize })
    } else {
        None
    }
}

/// What keeps the chains of a configuration from being served: the first
/// fault, in the order of the chains.
pub open spec fn chains_fault(cfg: Config) -> Option<ChainFault> {
    first_some(cfg.networks@.len() as int, |i: int| chain_fault(cfg.networks@, i), 0)
}

/// Whether a client serves a configured chain: it has the chain's
/// identifier and endpoints, and the first endpoint is current.
pub open spec fn serves(client: ChainClient, net: Network) -> bool {
    client.wf() && client.config() == net && client.endpoints() == net.rpc@ && client.current()
        == 0
}

impl<'a> MultiChain<'a> {
    /// The clients of the configured chains, one per chain identifier,
    /// each on its first endpoint.  A chain without an endpoint, and a chain
    /// identifier that occurs twice, are faults.
    pub fn from_config(cfg: &'a Config) -> (r: Result<MultiChain<'a>, ChainFault>)
        ensures
            match r {
                Ok(m) => {
                    &&& chains_fault(*cfg) is None
                    &&& forall|i: int|
                        0 <= i < cfg.networks@.len() ==> m.clients@.contains_key(
                            (#[trigger] cfg.networks@[i]).chain_id,
                        ) && serves(m.clients@[cfg.networks@[i].chain_id], cfg.networks@[i])
                    &&& forall|id: u64| #[trigger]
                        m.clients@.contains_key(id) ==> exists|i: int|
                            0 <= i < cfg.networks@.len() && (#[trigger] cfg.networks@[i]).chain_id
                                == id
                },
                Err(fault) => chains_fault(*cfg) == Some(fault),
            },
    {
        let ghost probe = |i: int| chain_fault(cfg.networks@, i);
        let ghost total = cfg.networks@.len() as int;
        let mut map: HashMap<u64, ChainClient> = HashMap::new();
        let mut i: usize = 0;
        while i < cfg.networks.len()
            invariant
                i <= cfg.networks@.len(),
                total == cfg.networks@.len(),
                probe == (|i: int| chain_fault(cfg.networks@, i)),
                first_some(total, probe, 0) == first_some(total, probe, i as int),
                forall|k: int|
                    0 <= k < i ==> map@.contains_key((#[trigger] cfg.networks@[k]).chain_id)
                        && serves(map@[cfg.networks@[k].chain_id], cfg.networks@[k]),
                forall|id: u64| #[trigger]
                    map@.contains_key(id) ==> exists|k: int|
                        0 <= k < i && (#[trigger] cfg.networks@[k]).chain_id == id,
            decreases cfg.networks@.len() - i,
        {
            let n = &cfg.networks[i];
            if n.rpc.len() == 0 {
                return Err(ChainFault::NoRpc { network: i });
            }
            if map.contains_key(&n.chain_id) {
                return Err(ChainFault::DuplicateChainId { network: i });
            }
            assert(!chain_seen_before(cfg.networks@, i as int));
            let client = ChainClient::new(n);
            map.insert(n.chain_id, client);
            assert(probe(i as int) is None);
            assert forall|id: u64| #[trigger] map@.contains_key(id) implies exists|k: int|
                0 <= k < i + 1 && (#[trigger] cfg.networks@[k]).chain_id == id by {
                if id == n.chain_id {
                    assert(cfg.networks@[i as int].chain_id == id);
                }
            }
            i += 1;
        }
        Ok(MultiChain { clients: map })
    }
}

} // verus!
