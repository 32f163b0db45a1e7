use evm_arb_service::address::Address;
use evm_arb_service::error::ArbError;
use evm_arb_service::text::{contains_text, eq_ignore_ascii_case, same_text, starts_with_text};
use evm_arb_service::utils::parse_addr;

#[test]
fn parse_addr_reads_hex_with_and_without_prefix() {
    let a = parse_addr("0x00000000000000000000000000000000000000ff").unwrap();
    let mut bytes = [0u8; 20];
    bytes[19] = 0xff;
    assert_eq!(a, Address { bytes });
    let b = parse_addr("C02aaA39b223FE8D0A0e5C4F27eAD9083C756Cc2").unwrap();
    assert_eq!(b.bytes[0], 0xc0);
    assert_eq!(b.bytes[1], 0x2a);
    assert_eq!(b.bytes[19], 0xc2);
    let c = parse_addr("0xc02aaa39b223fe8d0a0e5c4f27ead9083c756cc2").unwrap();
    assert_eq!(b, c);
    assert!(b.same(&c));
    assert!(!a.same(&b));
}

#[test]
fn parse_addr_says_why_it_cannot_read() {
    for bad in ["", "0x", "0x1234", "zz", "0x00000000000000000000000000000000000000fg",
        "0x00000000000000000000000000000000000000ff00"] {
        let err = parse_addr(bad).unwrap_err();
        assert!(err.starts_with(&format!("Invalid address `{bad}`: ")));
        assert!(err.len() > format!("Invalid address `{bad}`: ").len());
    }
}

#[test]
fn zero_address_is_twenty_zero_bytes() {
    assert_eq!(Address::zero().bytes, [0u8; 20]);
    assert!(Address::zero().is_zero());
    assert!(parse_addr("0x0000000000000000000000000000000000000000").unwrap().is_zero());
    let mut bytes = [0u8; 20];
    bytes[7] = 1;
    assert!(!Address { bytes }.is_zero());
}

#[test]
fn arb_error_describes_itself_by_class() {
    assert_eq!(ArbError::Config("x".to_string()).describe(), "Config error: x");
    assert_eq!(ArbError::Provider("down".to_string()).describe(), "Provider error: down");
    assert_eq!(ArbError::Quote("no pool".to_string()).describe(), "Quote error: no pool");
    assert_eq!(ArbError::Execution("".to_string()).describe(), "Execution error: ");
}

#[test]
fn text_tests_agree_with_the_standard_ones() {
    let samples = [
        "", "a", "A", "ab", "AB", "aB", "abc", "solidly", "Solidly_v2", "pancakev2", "my-PancakeV2",
        "v3", "V3", "\u{e9}", "\u{c9}", "e", "\u{e9}t\u{e9}", "\u{c9}T\u{c9}", "@", "`", "[", "{", "Z", "z",
        "\u{212a}", "k", "K", "stra\u{df}e", "STRASSE", "aa", "aaa", "aab", "ba", "\u{1f600}a", "a\u{1f600}",
    ];
    for a in samples {
        for b in samples {
            assert_eq!(eq_ignore_ascii_case(a, b), a.eq_ignore_ascii_case(b), "{a:?} {b:?}");
            assert_eq!(starts_with_text(a, b), a.starts_with(b), "{a:?} {b:?}");
            assert_eq!(contains_text(a, b), a.contains(b), "{a:?} {b:?}");
            assert_eq!(same_text(a, b), a == b, "{a:?} {b:?}");
        }
    }
    assert!(eq_ignore_ascii_case("USDC", "usdc"));
    assert!(!eq_ignore_ascii_case("USDC", "usdt"));
    assert!(starts_with_text("solidly_v2", "solidly"));
    assert!(!starts_with_text("xsolidly", "solidly"));
    assert!(contains_text("my-pancakev2-fork", "pancakev2"));
    assert!(contains_text("abc", ""));
    assert!(!contains_text("pancakev", "pancakev2"));
}
