use obce::error::CriticalError;
use obce::weight::{eval_amount, WeightAmount, WeightLedger};

#[test]
fn charge_spends_exactly_the_amount() {
    let mut ledger = WeightLedger::new(10);
    let handle = ledger.charge_weight(4).unwrap();
    assert_eq!(handle.amount(), 4);
    assert_eq!(ledger.spent(), 4);
    assert_eq!(ledger.limit(), 10);
}

#[test]
fn failed_charge_leaves_the_ledger_unchanged() {
    let mut ledger = WeightLedger::new(10);
    ledger.charge_weight(4).unwrap();
    assert_eq!(ledger.charge_weight(7), Err(CriticalError::Exhausted));
    assert_eq!(ledger.spent(), 4);
    assert_eq!(ledger.limit(), 10);
    // The whole remaining budget can still be charged.
    assert!(ledger.charge_weight(6).is_ok());
    assert_eq!(ledger.spent(), 10);
}

#[test]
fn adjust_refunds_down_to_actual_cost() {
    let mut ledger = WeightLedger::new(100);
    let handle = ledger.charge_weight(40).unwrap();
    ledger.adjust_weight(handle, 15);
    assert_eq!(ledger.spent(), 15);
}

#[test]
fn adjust_never_charges_more() {
    let mut ledger = WeightLedger::new(100);
    let handle = ledger.charge_weight(40).unwrap();
    ledger.adjust_weight(handle, 90);
    assert_eq!(ledger.spent(), 40);
}

#[test]
fn eval_amount_follows_the_expression() {
    assert_eq!(eval_amount(&WeightAmount::Fixed(17), 1000), 17);
    assert_eq!(eval_amount(&WeightAmount::PerInputByte(3), 5), 15);
    assert_eq!(eval_amount(&WeightAmount::PerInputByte(0), 5), 0);
}

#[test]
fn eval_amount_saturates() {
    assert_eq!(eval_amount(&WeightAmount::PerInputByte(u64::MAX), 2), u64::MAX);
}
