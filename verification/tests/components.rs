use commitments::deposit::{deposit_for, measure, plan, quote, reconcile};
use commitments::gate::{AllowAll, AllowList, CanCommit, DenyAll};
use commitments::ledger::{CurrencyLedger, Holdings, MemoryLedger};
use commitments::rate_limit::check;
use commitments::types::{
    Bundle, CommitmentRecord, Config, ErrorKind, Field, FieldKind, LedgerAction, SizeMetric,
};
use commitments::validator::validate;

fn limits(max_fields: usize, max_field_bytes: usize, max_bundle_bytes: usize) -> Config {
    Config::new(max_fields, max_field_bytes, max_bundle_bytes, 1, 1, 0, SizeMetric::FieldCount)
        .unwrap()
}

fn fields_of(sizes: &[usize]) -> Bundle {
    Bundle::new(sizes.iter().map(|n| Field::new(FieldKind::Raw, vec![0x5A; *n])).collect())
}

#[test]
fn config_must_admit_at_least_one_field() {
    assert_eq!(Config::new(0, 8, 8, 1, 1, 1, SizeMetric::FieldCount), None);
    let cfg = Config::new(1, 8, 9, 2, 3, 4, SizeMetric::PayloadBytes).unwrap();
    assert_eq!(cfg.max_fields, 1);
    assert_eq!(cfg.max_field_bytes, 8);
    assert_eq!(cfg.max_bundle_bytes, 9);
    assert_eq!(cfg.field_deposit, 2);
    assert_eq!(cfg.initial_deposit, 3);
    assert_eq!(cfg.rate_limit, 4);
    assert_eq!(cfg.metric, SizeMetric::PayloadBytes);
}

#[test]
fn validate_accepts_bundles_at_every_limit() {
    let cfg = limits(3, 4, 10);
    assert_eq!(validate(&cfg, &Bundle::empty()), Ok(()));
    assert_eq!(validate(&cfg, &fields_of(&[4, 4, 2])), Ok(()));
    assert_eq!(validate(&cfg, &fields_of(&[0, 0, 0])), Ok(()));
}

#[test]
fn validate_reports_too_many_fields() {
    let cfg = limits(3, 4, 10);
    assert_eq!(validate(&cfg, &fields_of(&[1, 1, 1, 1])), Err(ErrorKind::TooManyFields));
    // The count is checked before any size.
    assert_eq!(validate(&cfg, &fields_of(&[9, 9, 9, 9])), Err(ErrorKind::TooManyFields));
}

#[test]
fn validate_reports_an_oversized_field() {
    let cfg = limits(3, 4, 10);
    assert_eq!(validate(&cfg, &fields_of(&[1, 5, 1])), Err(ErrorKind::FieldTooLarge));
    assert_eq!(validate(&cfg, &fields_of(&[1, 1, 5])), Err(ErrorKind::FieldTooLarge));
    // A field over its limit is reported even where the total is over too.
    assert_eq!(validate(&cfg, &fields_of(&[4, 4, 50])), Err(ErrorKind::FieldTooLarge));
}

#[test]
fn validate_reports_an_oversized_bundle() {
    let cfg = limits(3, 4, 10);
    assert_eq!(validate(&cfg, &fields_of(&[4, 4, 3])), Err(ErrorKind::BundleTooLarge));
    assert_eq!(validate(&cfg, &fields_of(&[4, 4, 4])), Err(ErrorKind::BundleTooLarge));
}

#[test]
fn check_lets_an_account_without_history_through() {
    assert_eq!(check(1_000, None, 0), Ok(()));
    assert_eq!(check(u64::MAX, None, 5), Ok(()));
}

#[test]
fn check_compares_the_elapsed_height_with_the_interval() {
    assert_eq!(check(10, Some(5), 12), Err(ErrorKind::RateLimited { retry_after: 15 }));
    assert_eq!(check(10, Some(5), 14), Err(ErrorKind::RateLimited { retry_after: 15 }));
    assert_eq!(check(10, Some(5), 15), Ok(()));
    assert_eq!(check(10, Some(5), 16), Ok(()));
    assert_eq!(check(0, Some(5), 5), Ok(()));
    assert_eq!(check(0, Some(5), 4), Err(ErrorKind::RateLimited { retry_after: 5 }));
    assert_eq!(check(1, Some(u64::MAX), u64::MAX), Err(ErrorKind::RateLimited { retry_after: u64::MAX }));
    assert_eq!(check(0, Some(u64::MAX), u64::MAX), Ok(()));
}

#[test]
fn measure_counts_fields_or_bytes() {
    let bundle = fields_of(&[3, 0, 7]);
    assert_eq!(measure(SizeMetric::FieldCount, &bundle), 3);
    assert_eq!(measure(SizeMetric::PayloadBytes, &bundle), 10);
    assert_eq!(bundle.payload_bytes(), 10);
    assert_eq!(bundle.len(), 3);
    assert!(!bundle.is_empty());
    assert_eq!(bundle.fields[2].size(), 7);
    assert_eq!(measure(SizeMetric::PayloadBytes, &Bundle::empty()), 0);
    assert!(Bundle::empty().is_empty());
}

#[test]
fn deposit_is_initial_plus_rate_times_size() {
    let by_count = Config::new(8, 64, 256, 10, 5, 0, SizeMetric::FieldCount).unwrap();
    assert_eq!(deposit_for(&by_count, &fields_of(&[1])), Some(15));
    assert_eq!(deposit_for(&by_count, &fields_of(&[1, 9])), Some(25));
    let by_bytes = Config::new(8, 64, 256, 10, 5, 0, SizeMetric::PayloadBytes).unwrap();
    assert_eq!(deposit_for(&by_bytes, &fields_of(&[1, 9])), Some(105));
    // A non-empty bundle without payload still owes the initial deposit.
    assert_eq!(deposit_for(&by_bytes, &fields_of(&[0])), Some(5));
}

#[test]
fn empty_bundle_owes_no_deposit() {
    let cfg = Config::new(8, 64, 256, 10, 5, 0, SizeMetric::FieldCount).unwrap();
    assert_eq!(deposit_for(&cfg, &Bundle::empty()), Some(0));
}

#[test]
fn deposit_that_does_not_fit_a_balance_is_none() {
    let cfg = Config::new(8, 64, 256, u64::MAX / 2, 1, 0, SizeMetric::FieldCount).unwrap();
    assert_eq!(deposit_for(&cfg, &fields_of(&[1, 1])), Some(u64::MAX));
    assert_eq!(deposit_for(&cfg, &fields_of(&[1, 1, 1])), None);
    let edge = Config::new(8, 64, 256, u64::MAX, 1, 0, SizeMetric::FieldCount).unwrap();
    assert_eq!(deposit_for(&edge, &fields_of(&[1])), None);
}

#[test]
fn plan_reserves_releases_or_does_nothing() {
    assert_eq!(plan(15, 25), LedgerAction::Reserve(10));
    assert_eq!(plan(25, 15), LedgerAction::Release(10));
    assert_eq!(plan(25, 0), LedgerAction::Release(25));
    assert_eq!(plan(25, 25), LedgerAction::Nothing);
    assert_eq!(plan(0, 0), LedgerAction::Nothing);
    assert_eq!(plan(0, u64::MAX), LedgerAction::Reserve(u64::MAX));
}

#[test]
fn reconcile_reserves_the_shortfall_or_fails_whole() {
    let cfg = Config::new(8, 64, 256, 10, 5, 0, SizeMetric::FieldCount).unwrap();
    let mut ledger = MemoryLedger::new();
    assert!(ledger.credit(1, 30));
    assert_eq!(reconcile(&cfg, &mut ledger, 1, None, &fields_of(&[1, 1])), Ok(25));
    assert_eq!(ledger.holdings(1), Holdings { free: 5, reserved: 25 });

    let record = CommitmentRecord {
        bundle: fields_of(&[1, 1]),
        reserved_deposit: 25,
        last_commit_height: 0,
    };
    assert_eq!(
        reconcile(&cfg, &mut ledger, 1, Some(&record), &fields_of(&[1, 1, 1])),
        Err(ErrorKind::InsufficientBalance)
    );
    assert_eq!(ledger.holdings(1), Holdings { free: 5, reserved: 25 });
    assert_eq!(reconcile(&cfg, &mut ledger, 1, Some(&record), &fields_of(&[1, 1])), Ok(25));
    assert_eq!(ledger.holdings(1), Holdings { free: 5, reserved: 25 });
    assert_eq!(reconcile(&cfg, &mut ledger, 1, Some(&record), &fields_of(&[1])), Ok(15));
    assert_eq!(ledger.holdings(1), Holdings { free: 15, reserved: 15 });
    assert_eq!(reconcile(&cfg, &mut ledger, 1, Some(&record), &Bundle::empty()), Ok(0));
    // The record claimed 25 but only 15 stood reserved: all of it came back.
    assert_eq!(ledger.holdings(1), Holdings { free: 30, reserved: 0 });
}

#[test]
fn memory_ledger_reserves_only_what_is_free() {
    let mut ledger = MemoryLedger::new();
    assert_eq!(ledger.holdings(9), Holdings { free: 0, reserved: 0 });
    assert_eq!(ledger.reserve(9, 1), Err(ErrorKind::InsufficientBalance));
    assert_eq!(ledger.reserve(9, 0), Ok(()));
    assert!(ledger.credit(9, 10));
    assert_eq!(ledger.reserve(9, 11), Err(ErrorKind::InsufficientBalance));
    assert_eq!(ledger.holdings(9), Holdings { free: 10, reserved: 0 });
    assert_eq!(ledger.reserve(9, 4), Ok(()));
    assert_eq!(ledger.reserve(9, 6), Ok(()));
    assert_eq!(ledger.free_balance(9), 0);
    assert_eq!(ledger.reserved_balance(9), 10);
}

#[test]
fn memory_ledger_releases_at_most_the_reserve() {
    let mut ledger = MemoryLedger::new();
    assert!(ledger.credit(9, 10));
    assert_eq!(ledger.reserve(9, 7), Ok(()));
    assert_eq!(ledger.release(9, 3), 3);
    assert_eq!(ledger.holdings(9), Holdings { free: 6, reserved: 4 });
    assert_eq!(ledger.release(9, 100), 4);
    assert_eq!(ledger.holdings(9), Holdings { free: 10, reserved: 0 });
    assert_eq!(ledger.release(8, 1), 0);
    assert_eq!(ledger.holdings(8), Holdings { free: 0, reserved: 0 });
}

#[test]
fn memory_ledger_refuses_credit_beyond_the_balance_range() {
    let mut ledger = MemoryLedger::new();
    assert!(ledger.credit(9, u64::MAX - 5));
    assert_eq!(ledger.reserve(9, 100), Ok(()));
    assert!(!ledger.credit(9, 6));
    assert_eq!(ledger.holdings(9), Holdings { free: u64::MAX - 105, reserved: 100 });
    assert!(ledger.credit(9, 5));
    assert_eq!(ledger.holdings(9), Holdings { free: u64::MAX - 100, reserved: 100 });
    assert!(!ledger.credit(9, 1));
}

#[test]
fn gates_answer_per_account() {
    assert!(AllowAll.can_commit(0));
    assert!(AllowAll.can_commit(u64::MAX));
    assert!(!DenyAll.can_commit(0));
    assert!(().can_commit(3));
    let list = AllowList::new(vec![4, 8]);
    assert!(list.can_commit(4));
    assert!(list.can_commit(8));
    assert!(!list.can_commit(5));
    assert!(!AllowList::new(Vec::new()).can_commit(4));
}

#[test]
fn clones_equal_what_they_were_made_from() {
    let bundle = Bundle::new(vec![
        Field::new(FieldKind::Text, vec![b'h', b'i']),
        Field::new(FieldKind::Structured, vec![1, 2, 3]),
    ]);
    let copy = bundle.clone();
    assert_eq!(copy, bundle);
    assert_eq!(copy.fields[0].kind, FieldKind::Text);
    assert_eq!(copy.fields[1].payload, vec![1, 2, 3]);
    let record = CommitmentRecord { bundle, reserved_deposit: 4, last_commit_height: 2 };
    assert_eq!(record.clone(), record);
}

#[test]
fn quote_of_a_deposit_names_the_difference() {
    let cfg = Config::new(8, 64, 256, 10, 5, 0, SizeMetric::FieldCount).unwrap();
    assert_eq!(quote(&cfg, 0, &fields_of(&[1, 1])), Ok(LedgerAction::Reserve(25)));
    assert_eq!(quote(&cfg, 15, &fields_of(&[1, 1])), Ok(LedgerAction::Reserve(10)));
    assert_eq!(quote(&cfg, 25, &fields_of(&[1, 1])), Ok(LedgerAction::Nothing));
    assert_eq!(quote(&cfg, 40, &fields_of(&[1, 1])), Ok(LedgerAction::Release(15)));
    assert_eq!(quote(&cfg, 40, &Bundle::empty()), Ok(LedgerAction::Release(40)));
    let dear = Config::new(8, 64, 256, u64::MAX, 5, 0, SizeMetric::FieldCount).unwrap();
    assert_eq!(quote(&dear, 0, &fields_of(&[1])), Err(ErrorKind::InsufficientBalance));
}
