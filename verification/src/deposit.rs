//! The deposit owed for a bundle, and how it is reconciled against what an
//! account has already reserved.

use crate::bundle::total_bytes;
use crate::ledger::{settled, CurrencyLedger};
use crate::types::{
    AccountId, Balance, Bundle, CommitmentRecord, Config, ErrorKind, FieldView, LedgerAction,
    SizeMetric,
};
use vstd::prelude::*;

verus! {

/// The number of units a bundle is charged for.
pub open spec fn size_metric(metric: SizeMetric, bundle: Seq<FieldView>) -> nat {
    match metric {
        SizeMetric::FieldCount => bundle.len(),
        SizeMetric::PayloadBytes => total_bytes(bundle),
    }
}

/// The deposit that must stand reserved while `bundle` is committed: nothing
/// for the empty bundle, otherwise the initial deposit plus the per-unit
/// deposit for each unit of the size metric.
pub open spec fn required_deposit(config: Config, bundle: Seq<FieldView>) -> nat {
    if bundle.len() == 0 {
        0
    } else {
        (config.initial_deposit + config.field_deposit * size_metric(config.metric, bundle)) as nat
    }
}

/// What has to happen on the ledger to move a reserve of `previous` to
/// `required`.
pub open spec fn ledger_action(previous: Balance, required: nat) -> LedgerAction {
    if required > previous {
        LedgerAction::Reserve((required - previous) as Balance)
    } else if required < previous {
        LedgerAction::Release((previous - required) as Balance)
    } else {
        LedgerAction::Nothing
    }
}

/// How much more than `previous` has to be reserved to reach `required`.
pub open spec fn shortfall(previous: Balance, required: nat) -> nat {
    if required > previous {
        (required - previous) as nat
    } else {
        0
    }
}

/// Whether a reserve of `previous` can be brought to `required`: the new
/// deposit must be an amount a balance can hold, and where more has to be
/// reserved the ledger must admit it (`funded`).
pub open spec fn affordable(previous: Balance, required: nat, funded: bool) -> bool {
    required <= Balance::MAX && (required > previous ==> funded)
}

/// What an account has reserved according to its record, if it has one.
pub open spec fn reserved_by(record: Option<&CommitmentRecord>) -> Balance {
    match record {
        Some(r) => r.reserved_deposit,
        None => 0,
    }
}

/// The change in an account's reserve that an action stands for.
pub open spec fn action_delta(action: LedgerAction) -> int {
    match action {
        LedgerAction::Nothing => 0,
        LedgerAction::Reserve(amount) => amount as int,
        LedgerAction::Release(amount) => -(amount as int),
    }
}

/// Measures a bundle in the configured unit.
pub fn measure(metric: SizeMetric, bundle: &Bundle) -> (units: u128)
    ensures
        units == size_metric(metric, bundle@),
{
    match metric {
        SizeMetric::FieldCount => bundle.len() as u128,
        SizeMetric::PayloadBytes => bundle.payload_bytes(),
    }
}

/// Computes the deposit owed for a bundle, or `None` when it is more than any
/// balance can hold.
pub fn deposit_for(config: &Config, bundle: &Bundle) -> (deposit: Option<Balance>)
    ensures
        match deposit {
            Some(amount) => amount == required_deposit(*config, bundle@),
            None => required_deposit(*config, bundle@) > Balance::MAX,
        },
{
    if bundle.is_empty() {
        return Some(0);
    }
    let units: u128 = measure(config.metric, bundle);
    let rate: u128 = config.field_deposit as u128;
    if units > u64::MAX as u128 {
        if config.field_deposit == 0 {
            assert(config.field_deposit * size_metric(config.metric, bundle@) == 0)
                by (nonlinear_arith)
                requires
                    config.field_deposit == 0,
            ;
            return Some(config.initial_deposit);
        }
        assert(config.field_deposit * size_metric(config.metric, bundle@) >= size_metric(
            config.metric,
            bundle@,
        )) by (nonlinear_arith)
            requires
                config.field_deposit >= 1,
        ;
        return None;
    }
    assert(rate * units <= 0xffff_ffff_ffff_ffff * 0xffff_ffff_ffff_ffff) by (nonlinear_arith)
        requires
            rate <= 0xffff_ffff_ffff_ffff,
            units <= 0xffff_ffff_ffff_ffff,
    ;
    let owed: u128 = config.initial_deposit as u128 + rate * units;
    if owed > u64::MAX as u128 {
        None
    } else {
        Some(owed as u64)
    }
}

/// Decides what to ask of the ledger when the reserve has to move from
/// `previous` to `required`.
pub fn plan(previous: Balance, required: Balance) -> (action: LedgerAction)
    ensures
        action == ledger_action(previous, required as nat),
        action_delta(action) == required - previous,
{
    if required > previous {
        LedgerAction::Reserve(required - previous)
    } else if required < previous {
        LedgerAction::Release(previous - required)
    } else {
        LedgerAction::Nothing
    }
}

/// Decides what bringing a reserve of `previous` in line with `bundle` asks
/// of the ledger, or fails with `InsufficientBalance` where the deposit is
/// more than any balance can hold.
pub fn quote(config: &Config, previous: Balance, bundle: &Bundle) -> (res: Result<
    LedgerAction,
    ErrorKind,
>)
    ensures
        res == if required_deposit(*config, bundle@) <= Balance::MAX {
            Ok::<LedgerAction, ErrorKind>(
                ledger_action(previous, required_deposit(*config, bundle@)),
            )
        } else {
            Err::<LedgerAction, ErrorKind>(ErrorKind::InsufficientBalance)
        },
{
    match deposit_for(config, bundle) {
        Some(required) => Ok(plan(previous, required)),
        None => Err(ErrorKind::InsufficientBalance),
    }
}

/// Brings the reserve of `account` in line with `new_bundle`.
///
/// Where the bundle needs a larger deposit than `old_record` holds, the
/// difference is reserved, and the whole call fails with `InsufficientBalance`
/// and no balance changed where the ledger refuses, or where the deposit is
/// more than a balance can hold. Where it needs a smaller one, the difference
/// is released. Returns the deposit that now stands reserved for the bundle.
pub fn reconcile<L: CurrencyLedger>(
    config: &Config,
    ledger: &mut L,
    account: AccountId,
    old_record: Option<&CommitmentRecord>,
    new_bundle: &Bundle,
) -> (res: Result<Balance, ErrorKind>)
    requires
        old(ledger).wf(),
    ensures
        final(ledger).wf(),
        ({
            let previous = reserved_by(old_record);
            let required = required_deposit(*config, new_bundle@);
            let funded = old(ledger).can_reserve(account, shortfall(previous, required) as Balance);
            if affordable(previous, required, funded) {
                &&& res == Ok::<Balance, ErrorKind>(required as Balance)
                &&& settled(
                    old(ledger).balances(),
                    final(ledger).balances(),
                    account,
                    ledger_action(previous, required),
                )
                &&& required == previous ==> *final(ledger) == *old(ledger)
            } else {
                &&& res == Err::<Balance, ErrorKind>(ErrorKind::InsufficientBalance)
                &&& settled(
                    old(ledger).balances(),
                    final(ledger).balances(),
                    account,
                    LedgerAction::Nothing,
                )
                &&& required > Balance::MAX ==> *final(ledger) == *old(ledger)
            }
        }),
{
    let previous: Balance = match old_record {
        Some(record) => record.reserved_deposit,
        None => 0,
    };
    match quote(config, previous, new_bundle) {
        Err(error) => Err(error),
        Ok(LedgerAction::Nothing) => Ok(previous),
        Ok(LedgerAction::Reserve(amount)) => match ledger.reserve(account, amount) {
            Ok(()) => Ok(previous + amount),
            Err(error) => Err(error),
        },
        Ok(LedgerAction::Release(amount)) => {
            let _ = ledger.release(account, amount);
            Ok(previous - amount)
        },
    }
}

} // verus!
