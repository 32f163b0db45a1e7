//! Small conversions shared by the rest of the crate.

use vstd::prelude::*;
use vstd::string::*;
use crate::address::Address;
use crate::uint::{u256_limit, U256};

verus! {

/// The first position at or after `from` whose item satisfies `wanted`.
pub open spec fn first_from<T>(items: Seq<T>, wanted: spec_fn(T) -> bool, from: int) -> Option<int>
    decreases items.len() - from,
{
    if from < 0 || from >= items.len() {
        None
    } else if wanted(items[from]) {
        Some(from)
    } else {
        first_from(items, wanted, from + 1)
    }
}

/// The first position whose item satisfies `wanted`.
pub open spec fn first_where<T>(items: Seq<T>, wanted: spec_fn(T) -> bool) -> Option<int> {
    first_from(items, wanted, 0)
}

/// What a first position is: in range, satisfying, with no satisfying item
/// between the start of the search and it; and absent only if no item from
/// the start on satisfies.
pub proof fn lemma_first_from<T>(items: Seq<T>, wanted: spec_fn(T) -> bool, from: int)
    requires
        0 <= from,
    ensures
        match first_from(items, wanted, from) {
            Some(i) => from <= i < items.len() && wanted(items[i]) && forall|j: int|
                from <= j < i ==> !wanted(#[trigger] items[j]),
            None => forall|j: int| from <= j < items.len() ==> !wanted(#[trigger] items[j]),
        },
    decreases items.len() - from,
{
    if from < items.len() && !wanted(items[from]) {
        lemma_first_from(items, wanted, from + 1);
    }
}

/// The first answer that `probe` gives on the positions from `from` up to,
/// not including, `n`.
pub open spec fn first_some<T>(n: int, probe: spec_fn(int) -> Option<T>, from: int) -> Option<T>
    decreases n - from,
{
    if from < 0 || from >= n {
        None
    } else if probe(from) is Some {
        probe(from)
    } else {
        first_some(n, probe, from + 1)
    }
}

/// Whether a byte is an ASCII hexadecimal digit.
pub open spec fn is_hex_digit(b: u8) -> bool {
    (0x30 <= b <= 0x39) || (0x41 <= b <= 0x46) || (0x61 <= b <= 0x66)
}

/// Whether bytes spell an address: `0x`, then forty hexadecimal digits.
pub open spec fn hex_addr_bytes(b: Seq<u8>) -> bool {
    b.len() == 42 && b[0] == 0x30 && b[1] == 0x78 && forall|i: int|
        2 <= i < 42 ==> is_hex_digit(#[trigger] b[i])
}

/// The twenty bytes that a text denotes as an address, if it denotes one.
/// This is the reading of `H160::from_str`: hexadecimal digits, an optional
/// `0x` in front.
pub uninterp spec fn parsed_address(text: Seq<char>) -> Option<Seq<u8>>;

/// How the complaint about an unreadable address begins: it quotes the text.
pub open spec fn invalid_address_prefix(text: Seq<char>) -> Seq<char> {
    "Invalid address `"@ + text + "`: "@
}

/// Calls `from_str` of `ethers::types::Address` through `str::parse`.
/// The contract only names what that function reads from the text: the
/// address on success, and on failure the parser's own description of the
/// fault, of which nothing is claimed.
#[verifier::external_body]
fn address_from_hex(text: &str) -> (r: Result<Address, String>)
    ensures
        match r {
            Ok(a) => parsed_address(text@) == Some(a@),
            Err(_) => parsed_address(text@) is None,
        },
{
    match text.parse::<ethers::types::Address>() {
        Ok(a) => Ok(Address { bytes: a.0 }),
        Err(e) => Err(e.to_string()),
    }
}

/// Reads an address from its hexadecimal text, or says why it cannot.
pub fn parse_addr(s: &str) -> (r: Result<Address, String>)
    ensures
        match r {
            Ok(a) => parsed_address(s@) == Some(a@),
            Err(msg) => parsed_address(s@) is None && invalid_address_prefix(s@).is_prefix_of(
                msg@,
            ),
        },
{
    match address_from_hex(s) {
        Ok(a) => Ok(a),
        Err(why) => {
            let mut msg = String::from_str("Invalid address `");
            msg.append(s);
            msg.append("`: ");
            msg.append(why.as_str());
            Err(msg)
        },
    }
}


/// Ten to the power `n`.
pub open spec fn pow10(n: nat) -> nat
    decreases n,
{
    if n == 0 {
        1
    } else {
        10 * pow10((n - 1) as nat)
    }
}

/// Powers of ten grow with the exponent.
pub proof fn lemma_pow10_monotonic(smaller: nat, larger: nat)
    requires
        smaller <= larger,
    ensures
        1 <= pow10(smaller) <= pow10(larger),
    decreases larger,
{
    if smaller < larger {
        lemma_pow10_monotonic(smaller, (larger - 1) as nat);
    } else if smaller > 0 {
        lemma_pow10_monotonic((smaller - 1) as nat, (larger - 1) as nat);
    }
}

/// One whole token in base units, for a token of the given decimals: ten
/// to that power, or `None` where that does not fit in 256 bits.
pub fn unit_amount(decimals: u8) -> (r: Option<U256>)
    ensures
        r is Some <==> pow10(decimals as nat) < u256_limit(),
        r matches Some(v) ==> v@ == pow10(decimals as nat),
{
    let mut acc = U256::from_u64(1);
    let mut k: u8 = 0;
    while k < decimals
        invariant
            k <= decimals,
            acc@ == pow10(k as nat),
        decreases decimals - k,
    {
        match acc.checked_mul(U256::from_u64(10)) {
            Some(v) => {
                acc = v;
            },
            None => {
                proof {
                    lemma_pow10_monotonic((k + 1) as nat, decimals as nat);
                }
                return None;
            },
        }
        k += 1;
    }
    proof {
        crate::uint::lemma_view_bounded_injective(acc, acc);
    }
    Some(acc)
}


/// A copy of a list of texts.
pub(crate) fn copy_strings(list: &Vec<String>) -> (r: Vec<String>)
    ensures
        r@ == list@,
{
    let mut r: Vec<String> = Vec::new();
    let mut i: usize = 0;
    while i < list.len()
        invariant
            i <= list.len(),
            r@ == list@.subrange(0, i as int),
        decreases list.len() - i,
    {
        r.push(list[i].clone());
        assert(list@.subrange(0, i as int + 1) =~= list@.subrange(0, i as int).push(
            list@[i as int],
        ));
        i += 1;
    }
    assert(list@.subrange(0, list.len() as int) =~= list@);
    r
}

} // verus!
