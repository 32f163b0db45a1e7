use evm_arb_service::exec::{
    effective_gas_price, plan_transaction, CandidateAction, CandidateState, TxOpts,
};
use evm_arb_service::mev::{GasJitterCfg, PrivateRelay};
use evm_arb_service::scan::ScanEvent;
use evm_arb_service::uint::U256;
use evm_arb_service::utils_gas::current_gas_price_legacy;

fn u(v: u64) -> U256 {
    U256::from(v)
}

#[test]
fn effective_gas_price_folds_eip1559_fields_into_a_legacy_price() {
    let mut opts = TxOpts::default();
    assert_eq!(effective_gas_price(&opts, u(100)), None);
    opts.legacy_gas_price = Some(u(77));
    assert_eq!(effective_gas_price(&opts, u(100)), Some(u(77)));
    // one field alone does not count
    opts.max_fee_per_gas = Some(u(150));
    assert_eq!(effective_gas_price(&opts, u(100)), Some(u(77)));
    opts.max_priority_fee_per_gas = Some(u(20));
    // min(max_fee, base_fee + tip)
    assert_eq!(effective_gas_price(&opts, u(100)), Some(u(120)));
    assert_eq!(effective_gas_price(&opts, u(130)), Some(u(150)));
    assert_eq!(effective_gas_price(&opts, u(131)), Some(u(150)));
    opts.max_fee_per_gas = Some(U256::max_value());
    assert_eq!(effective_gas_price(&opts, U256::max_value()), Some(U256::max_value()));
}

#[test]
fn plan_without_jitter_is_exact() {
    let opts = TxOpts::default();
    let plan = plan_transaction(&opts, u(100)).unwrap();
    assert_eq!(plan.gas_limit, 1_500_000);
    assert_eq!(plan.gas_price, None);
    assert!(!plan.relay_first);
    let opts = TxOpts {
        private: true,
        gas_limit: Some(900_000),
        max_fee_per_gas: Some(u(150)),
        max_priority_fee_per_gas: Some(u(20)),
        private_relay: Some(PrivateRelay::new("r", vec![])),
        ..TxOpts::default()
    };
    let plan = plan_transaction(&opts, u(100)).unwrap();
    assert_eq!(plan.gas_limit, 900_000);
    assert_eq!(plan.gas_price, Some(u(120)));
    assert!(plan.relay_first);
    let opts = TxOpts { private: true, ..TxOpts::default() };
    assert!(!plan_transaction(&opts, u(100)).unwrap().relay_first);
}

#[test]
fn plan_with_jitter_stays_in_the_band() {
    let opts = TxOpts {
        gas_jitter: Some(GasJitterCfg { jitter_bps: 300, priority_fee_gwei: 2 }),
        legacy_gas_price: Some(u(30_000_000_000)),
        ..TxOpts::default()
    };
    let mut limits = std::collections::BTreeSet::new();
    let mut prices = std::collections::BTreeSet::new();
    for _ in 0..500 {
        let plan = plan_transaction(&opts, u(100)).unwrap();
        assert!(plan.gas_limit >= 1_455_000 && plan.gas_limit <= 1_545_000);
        let price = plan.gas_price.unwrap();
        assert!(price >= u(29_100_000_000) && price <= u(30_900_000_000));
        limits.insert(plan.gas_limit);
        prices.insert(price.w0);
    }
    // more than the two ends of the band are drawn
    assert!(limits.len() > 2);
    assert!(prices.len() > 2);
}

#[test]
fn candidate_goes_from_quote_to_submission() {
    let s = CandidateState::Quoted;
    assert_eq!(s.action(false), CandidateAction::Simulate);
    assert_eq!(s.action(true), CandidateAction::Simulate);
    // the simulation is advisory: its failure does not stop the submission
    for simulated_ok in [true, false] {
        let s = s.next(false, simulated_ok);
        assert_eq!(s, CandidateState::Simulated);
        assert_eq!(s.action(false), CandidateAction::Submit);
        assert_eq!(s.next(false, true), CandidateState::Submitted);
        assert_eq!(s.next(false, false), CandidateState::Failed);
    }
    let s = CandidateState::Simulated;
    assert_eq!(s.action(true), CandidateAction::Rest);
    assert_eq!(s.next(true, true), CandidateState::SkippedDryRun);
    for done in [CandidateState::Submitted, CandidateState::SkippedDryRun, CandidateState::Failed] {
        assert_eq!(done.action(false), CandidateAction::Rest);
        assert_eq!(done.next(false, true), done);
    }
    assert!(matches!(CandidateState::Submitted.report(), ScanEvent::Executed(true)));
    assert!(matches!(CandidateState::Failed.report(), ScanEvent::Executed(false)));
    assert!(matches!(CandidateState::SkippedDryRun.report(), ScanEvent::NotExecuted));
    assert!(matches!(CandidateState::Quoted.report(), ScanEvent::NotExecuted));
}

#[test]
fn legacy_gas_price_prefers_base_fee_plus_tip_capped_by_the_estimate() {
    let gwei = 1_000_000_000u64;
    assert_eq!(current_gas_price_legacy(None, None, 2), None);
    assert_eq!(current_gas_price_legacy(None, Some(u(5)), 2), None);
    assert_eq!(current_gas_price_legacy(Some(u(10 * gwei)), None, 2), Some(u(12 * gwei)));
    assert_eq!(
        current_gas_price_legacy(Some(u(10 * gwei)), Some(u(11 * gwei)), 2),
        Some(u(11 * gwei))
    );
    assert_eq!(
        current_gas_price_legacy(Some(u(10 * gwei)), Some(u(40 * gwei)), 2),
        Some(u(12 * gwei))
    );
    assert_eq!(current_gas_price_legacy(Some(u(7)), None, 0), Some(u(7)));
    assert_eq!(
        current_gas_price_legacy(Some(U256::max_value()), None, 2),
        Some(U256::max_value())
    );
}
