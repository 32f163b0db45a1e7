//! The payload handed to the on-chain executor: amount in, minimum out, the
//! number of legs, then each leg as a protocol tag followed by the fields
//! that replay its swap.

use vstd::prelude::*;
use ethers::abi::Token;
use ethers::types::H160;
use crate::address::Address;
use crate::error::ArbError;
use crate::uint::U256;

verus! {

/// How one leg of a route is replayed on chain.
#[derive(Clone, Debug)]
pub enum LegKind {
    /// A constant-product swap along `path` through `router`.
    V2 { router: Address, path: Vec<Address> },
    /// A concentrated-liquidity swap of one fee tier.
    V3 { router: Address, token_in: Address, token_out: Address, fee_bps: u32 },
    /// A swap in one stable or volatile pool.
    Solidly { router: Address, pair: Address, stable: bool, token_in: Address },
}

/// One quoted leg of a route.
#[derive(Clone, Debug)]
pub struct LegQuote {
    pub kind: LegKind,
}

/// One value of the payload, as the contract ABI types it.
#[derive(Clone, Debug)]
pub enum AbiToken {
    Uint(U256),
    Address(Address),
    Bool(bool),
    AddressArray(Vec<Address>),
}

/// What an [`AbiToken`] stands for.
pub enum AbiItem {
    Uint(nat),
    Address(Seq<u8>),
    Bool(bool),
    AddressArray(Seq<Seq<u8>>),
}

impl View for AbiToken {
    type V = AbiItem;

    open spec fn view(&self) -> AbiItem {
        match self {
            AbiToken::Uint(v) => AbiItem::Uint(v@),
            AbiToken::Address(a) => AbiItem::Address(a@),
            AbiToken::Bool(b) => AbiItem::Bool(*b),
            AbiToken::AddressArray(p) => AbiItem::AddressArray(addresses_view(p@)),
        }
    }
}

/// The byte strings of a list of addresses.
pub open spec fn addresses_view(path: Seq<Address>) -> Seq<Seq<u8>> {
    path.map_values(|a: Address| a@)
}

/// What a list of tokens stands for.
pub open spec fn tokens_view(tokens: Seq<AbiToken>) -> Seq<AbiItem> {
    tokens.map_values(|t: AbiToken| t@)
}

/// The tag that opens a constant-product leg.
pub const TAG_V2: u64 = 1;

/// The tag that opens a concentrated-liquidity leg.
pub const TAG_V3: u64 = 2;

/// The tag that opens a stable/volatile leg.
pub const TAG_SOLIDLY: u64 = 3;

/// The payload values of one leg: its tag, then router and path; or router,
/// token in, token out and fee; or router, pool, stable flag and token in.
pub open spec fn leg_items(kind: LegKind) -> Seq<AbiItem> {
    match kind {
        LegKind::V2 { router, path } => seq![
            AbiItem::Uint(1),
            AbiItem::Address(router@),
            AbiItem::AddressArray(addresses_view(path@)),
        ],
        LegKind::V3 { router, token_in, token_out, fee_bps } => seq![
            AbiItem::Uint(2),
            AbiItem::Address(router@),
            AbiItem::Address(token_in@),
            AbiItem::Address(token_out@),
            AbiItem::Uint(fee_bps as nat),
        ],
        LegKind::Solidly { router, pair, stable, token_in } => seq![
            AbiItem::Uint(3),
            AbiItem::Address(router@),
            AbiItem::Address(pair@),
            AbiItem::Bool(stable),
            AbiItem::Address(token_in@),
        ],
    }
}

/// The payload values of a run of legs, in order.
pub open spec fn legs_items(legs: Seq<LegQuote>) -> Seq<AbiItem>
    decreases legs.len(),
{
    if legs.len() == 0 {
        Seq::empty()
    } else {
        legs_items(legs.drop_last()) + leg_items(legs.last().kind)
    }
}

/// The payload values of a whole route.
pub open spec fn route_items(legs: Seq<LegQuote>, amount_in: nat, min_out: nat) -> Seq<AbiItem> {
    seq![AbiItem::Uint(amount_in), AbiItem::Uint(min_out), AbiItem::Uint(legs.len())] + legs_items(
        legs,
    )
}

/// The bytes that the contract ABI encoding assigns to a list of values.
pub uninterp spec fn abi_encoding(items: Seq<AbiItem>) -> Seq<u8>;

/// Calls `ethers::abi::encode` on the tokens, each turned into the outside
/// crate's `Token` of the same kind and content (an address array becomes a
/// dynamic `Array` of `Address` tokens).  The result is only named.
#[verifier::external_body]
fn abi_encode(tokens: &Vec<AbiToken>) -> (bytes: Vec<u8>)
    ensures
        bytes@ == abi_encoding(tokens_view(tokens@)),
{
    let mut out: Vec<Token> = Vec::new();
    for t in tokens.iter() {
        out.push(match t {
            AbiToken::Uint(v) => Token::Uint(ethers::types::U256([v.w0, v.w1, v.w2, v.w3])),
            AbiToken::Address(a) => Token::Address(H160(a.bytes)),
            AbiToken::Bool(b) => Token::Bool(*b),
            AbiToken::AddressArray(p) => Token::Array(
                p.iter().map(|a| Token::Address(H160(a.bytes))).collect(),
            ),
        });
    }
    ethers::abi::encode(&out)
}

/// A copy of a list of addresses.
fn copy_addresses(path: &Vec<Address>) -> (r: Vec<Address>)
    ensures
        r@ == path@,
{
    let mut r: Vec<Address> = Vec::new();
    let mut i: usize = 0;
    while i < path.len()
        invariant
            i <= path.len(),
            r@ == path@.subrange(0, i as int),
        decreases path.len() - i,
    {
        r.push(path[i]);
        assert(path@.subrange(0, i as int + 1) =~= path@.subrange(0, i as int).push(path@[i as int]));
        i += 1;
    }
    assert(path@.subrange(0, path.len() as int) =~= path@);
    r
}

/// Appends the payload values of one leg.
fn push_leg_tokens(tokens: &mut Vec<AbiToken>, kind: &LegKind)
    ensures
        tokens_view(final(tokens)@) == tokens_view(old(tokens)@) + leg_items(*kind),
{
    let ghost before = tokens@;
    match kind {
        LegKind::V2 { router, path } => {
            tokens.push(AbiToken::Uint(U256::from_u64(TAG_V2)));
            tokens.push(AbiToken::Address(*router));
            tokens.push(AbiToken::AddressArray(copy_addresses(path)));
        },
        LegKind::V3 { router, token_in, token_out, fee_bps } => {
            tokens.push(AbiToken::Uint(U256::from_u64(TAG_V3)));
            tokens.push(AbiToken::Address(*router));
            tokens.push(AbiToken::Address(*token_in));
            tokens.push(AbiToken::Address(*token_out));
            tokens.push(AbiToken::Uint(U256::from_u64(*fee_bps as u64)));
        },
        LegKind::Solidly { router, pair, stable, token_in } => {
            tokens.push(AbiToken::Uint(U256::from_u64(TAG_SOLIDLY)));
            tokens.push(AbiToken::Address(*router));
            tokens.push(AbiToken::Address(*pair));
            tokens.push(AbiToken::Bool(*stable));
            tokens.push(AbiToken::Address(*token_in));
        },
    }
    assert(tokens_view(tokens@) =~= tokens_view(before) + leg_items(*kind));
}

/// The payload of a route as a list of ABI values: amount in, minimum out,
/// the number of legs, then every leg in order.
pub fn route_tokens(legs: &[LegQuote], amount_in: U256, min_out: U256) -> (tokens: Vec<AbiToken>)
    ensures
        tokens_view(tokens@) == route_items(legs@, amount_in@, min_out@),
{
    let mut tokens: Vec<AbiToken> = Vec::new();
    tokens.push(AbiToken::Uint(amount_in));
    tokens.push(AbiToken::Uint(min_out));
    tokens.push(AbiToken::Uint(U256::from_u64(legs.len() as u64)));
    let ghost head = tokens_view(tokens@);
    assert(head =~= seq![
        AbiItem::Uint(amount_in@),
        AbiItem::Uint(min_out@),
        AbiItem::Uint(legs@.len()),
    ]);
    let mut i: usize = 0;
    while i < legs.len()
        invariant
            i <= legs.len(),
            tokens_view(tokens@) == head + legs_items(legs@.subrange(0, i as int)),
        decreases legs.len() - i,
    {
        push_leg_tokens(&mut tokens, &legs[i].kind);
        proof {
            let upto = legs@.subrange(0, i as int + 1);
            assert(upto.drop_last() =~= legs@.subrange(0, i as int));
            assert(upto.last() == legs@[i as int]);
            assert(tokens_view(tokens@) =~= head + legs_items(upto));
        }
        i += 1;
    }
    assert(legs@.subrange(0, legs.len() as int) =~= legs@);
    tokens
}

/// Encodes a route for the executor contract.  Every route has an
/// encoding, so the result is always `Ok`.
pub fn encode_route_calldata(legs: &[LegQuote], amount_in: U256, min_out: U256) -> (r: Result<
    Vec<u8>,
    ArbError,
>)
    ensures
        r matches Ok(bytes) && bytes@ == abi_encoding(route_items(legs@, amount_in@, min_out@)),
{
    let tokens = route_tokens(legs, amount_in, min_out);
    Ok(abi_encode(&tokens))
}

} // verus!
