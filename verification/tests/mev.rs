use evm_arb_service::mev::{
    checked_jitter_value_bps, jitter_u64_bps, jitter_u64_with, jitter_value_bps, jitter_value_with,
    GasJitterCfg, PrivateRelay,
};
use evm_arb_service::uint::U256;

#[test]
fn jitter_u64_with_moves_by_basis_points() {
    assert_eq!(jitter_u64_with(1_500_000, true, 100), 1_515_000);
    assert_eq!(jitter_u64_with(1_500_000, false, 100), 1_485_000);
    assert_eq!(jitter_u64_with(1_500_000, true, 0), 1_500_000);
    assert_eq!(jitter_u64_with(9_999, true, 1), 9_999);
    assert_eq!(jitter_u64_with(10_000, false, 1), 9_999);
}

#[test]
fn jitter_u64_with_saturates() {
    assert_eq!(jitter_u64_with(u64::MAX, true, 1), u64::MAX);
    // the product saturates before the division
    assert_eq!(jitter_u64_with(u64::MAX, false, 10_000), u64::MAX - u64::MAX / 10_000);
    assert_eq!(jitter_u64_with(5, false, u64::MAX), 0);
    assert_eq!(jitter_u64_with(0, true, 500), 0);
}

#[test]
fn jitter_u64_bps_without_band_is_the_value() {
    for v in [0u64, 1, 1_500_000, u64::MAX] {
        assert_eq!(jitter_u64_bps(v, 0), v);
    }
}

#[test]
fn jitter_u64_bps_stays_in_the_band_and_moves_both_ways() {
    let v = 1_500_000u64;
    let bps = 250u32;
    let (mut ups, mut downs) = (0, 0);
    let mut seen = std::collections::BTreeSet::new();
    for _ in 0..2_000 {
        let r = jitter_u64_bps(v, bps);
        seen.insert(r);
        assert!(r >= v - v * 250 / 10_000);
        assert!(r <= v + v * 250 / 10_000);
        if r > v {
            ups += 1;
        }
        if r < v {
            downs += 1;
        }
    }
    assert!(ups > 0);
    assert!(downs > 0);
    // the draw is not just the two ends of the band
    assert!(seen.len() > 2);
}

#[test]
fn jitter_value_with_moves_by_basis_points() {
    let v = U256::from(30_000_000_000u64);
    assert_eq!(jitter_value_with(v, true, 100), Some(U256::from(30_300_000_000u64)));
    assert_eq!(jitter_value_with(v, false, 100), Some(U256::from(29_700_000_000u64)));
    assert_eq!(jitter_value_with(v, false, 20_000), Some(U256::zero()));
    assert_eq!(jitter_value_with(U256::max_value(), true, 1), None);
    let max = ethers::types::U256::MAX;
    let lowered = max - max / ethers::types::U256::from(10_000u64);
    assert_eq!(
        jitter_value_with(U256::max_value(), false, 1),
        Some(U256 { w0: lowered.0[0], w1: lowered.0[1], w2: lowered.0[2], w3: lowered.0[3] })
    );
    assert_eq!(jitter_value_with(U256::max_value(), false, 2), None);
    assert_eq!(jitter_value_with(U256::max_value(), true, 0), Some(U256::max_value()));
}

#[test]
fn jitter_value_bps_stays_in_the_band_and_moves_both_ways() {
    let v = U256::from(30_000_000_000u64);
    assert_eq!(jitter_value_bps(v, 0), v);
    let low = U256::from(30_000_000_000u64 - 300_000_000);
    let high = U256::from(30_000_000_000u64 + 300_000_000);
    let (mut ups, mut downs) = (0, 0);
    for _ in 0..2_000 {
        let r = jitter_value_bps(v, 100);
        assert!(r >= low && r <= high);
        if r > v {
            ups += 1;
        }
        if r < v {
            downs += 1;
        }
        assert_eq!(checked_jitter_value_bps(v, 0), Some(v));
        assert!(checked_jitter_value_bps(v, 100).is_some());
    }
    assert!(ups > 0);
    assert!(downs > 0);
}

#[test]
fn private_relay_keeps_name_and_endpoints() {
    let r = PrivateRelay::new("flash", vec!["https://a".to_string(), "https://b".to_string()]);
    assert_eq!(r.name, "flash");
    assert_eq!(r.endpoints, vec!["https://a".to_string(), "https://b".to_string()]);
    let d = GasJitterCfg::default();
    assert_eq!(d.jitter_bps, 0);
    assert_eq!(d.priority_fee_gwei, 0);
}
