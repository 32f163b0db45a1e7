use evm_arb_service::address::Address;
use evm_arb_service::calldata::{encode_route_calldata, route_tokens, AbiToken, LegKind, LegQuote};
use evm_arb_service::uint::U256;

fn addr(last: u8) -> Address {
    let mut bytes = [0u8; 20];
    bytes[0] = 0xab;
    bytes[19] = last;
    Address { bytes }
}

fn outside(a: Address) -> ethers::abi::Token {
    ethers::abi::Token::Address(ethers::types::H160(a.bytes))
}

fn uint(v: u64) -> ethers::abi::Token {
    ethers::abi::Token::Uint(ethers::types::U256::from(v))
}

fn sample_legs() -> Vec<LegQuote> {
    vec![
        LegQuote { kind: LegKind::V2 { router: addr(1), path: vec![addr(2), addr(3)] } },
        LegQuote {
            kind: LegKind::V3 { router: addr(4), token_in: addr(3), token_out: addr(5), fee_bps: 500 },
        },
        LegQuote {
            kind: LegKind::Solidly { router: addr(6), pair: addr(7), stable: true, token_in: addr(5) },
        },
    ]
}

#[test]
fn route_tokens_lists_amounts_count_and_legs_in_order() {
    let tokens = route_tokens(&sample_legs(), U256::from(1000u64), U256::from(990u64));
    assert_eq!(tokens.len(), 3 + 3 + 5 + 5);
    assert!(matches!(tokens[0], AbiToken::Uint(v) if v == U256::from(1000u64)));
    assert!(matches!(tokens[1], AbiToken::Uint(v) if v == U256::from(990u64)));
    assert!(matches!(tokens[2], AbiToken::Uint(v) if v == U256::from(3u64)));
    assert!(matches!(tokens[3], AbiToken::Uint(v) if v == U256::from(1u64)));
    assert!(matches!(tokens[4], AbiToken::Address(a) if a == addr(1)));
    assert!(matches!(&tokens[5], AbiToken::AddressArray(p) if p == &vec![addr(2), addr(3)]));
    assert!(matches!(tokens[6], AbiToken::Uint(v) if v == U256::from(2u64)));
    assert!(matches!(tokens[7], AbiToken::Address(a) if a == addr(4)));
    assert!(matches!(tokens[8], AbiToken::Address(a) if a == addr(3)));
    assert!(matches!(tokens[9], AbiToken::Address(a) if a == addr(5)));
    assert!(matches!(tokens[10], AbiToken::Uint(v) if v == U256::from(500u64)));
    assert!(matches!(tokens[11], AbiToken::Uint(v) if v == U256::from(3u64)));
    assert!(matches!(tokens[12], AbiToken::Address(a) if a == addr(6)));
    assert!(matches!(tokens[13], AbiToken::Address(a) if a == addr(7)));
    assert!(matches!(tokens[14], AbiToken::Bool(true)));
    assert!(matches!(tokens[15], AbiToken::Address(a) if a == addr(5)));
}

#[test]
fn route_tokens_of_no_legs_is_the_head_alone() {
    let tokens = route_tokens(&[], U256::from(5u64), U256::from(4u64));
    assert_eq!(tokens.len(), 3);
    assert!(matches!(tokens[2], AbiToken::Uint(v) if v.is_zero()));
}

#[test]
fn encode_route_calldata_is_the_abi_encoding_of_the_tokens() {
    let bytes = encode_route_calldata(&sample_legs(), U256::from(1000u64), U256::from(990u64)).unwrap();
    let expected = ethers::abi::encode(&[
        uint(1000),
        uint(990),
        uint(3),
        uint(1),
        outside(addr(1)),
        ethers::abi::Token::Array(vec![outside(addr(2)), outside(addr(3))]),
        uint(2),
        outside(addr(4)),
        outside(addr(3)),
        outside(addr(5)),
        uint(500),
        uint(3),
        outside(addr(6)),
        outside(addr(7)),
        ethers::abi::Token::Bool(true),
        outside(addr(5)),
    ]);
    assert_eq!(bytes, expected);
    assert!(!bytes.is_empty());
    assert_eq!(bytes.len() % 32, 0);
}

#[test]
fn encode_route_calldata_of_an_empty_route() {
    let bytes = encode_route_calldata(&[], U256::from(7u64), U256::from(6u64)).unwrap();
    assert_eq!(bytes.len(), 96);
    assert_eq!(bytes[31], 7);
    assert_eq!(bytes[63], 6);
    assert_eq!(bytes[95], 0);
    assert!(bytes[..31].iter().all(|b| *b == 0));
}

#[test]
fn encode_route_calldata_tells_amounts_apart() {
    let a = encode_route_calldata(&sample_legs(), U256::from(1000u64), U256::from(990u64)).unwrap();
    let b = encode_route_calldata(&sample_legs(), U256::from(1000u64), U256::from(991u64)).unwrap();
    assert_ne!(a, b);
    let wide = U256 { w0: 1, w1: 2, w2: 3, w3: 4 };
    let c = encode_route_calldata(&[], wide, U256::zero()).unwrap();
    let mut word = [0u8; 32];
    ethers::types::U256([1, 2, 3, 4]).to_big_endian(&mut word);
    assert_eq!(&c[..32], &word[..]);
}
