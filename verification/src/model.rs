//! The pure model of one commit attempt on one account: what it answers, what
//! it asks of the ledger, and what record it leaves behind.
//!
//! The checks run in a fixed order: authorization, rate limit, validation,
//! deposit. The first objection is the answer, and an attempt that meets an
//! objection changes nothing.

use crate::deposit::{affordable, ledger_action, required_deposit};
use crate::rate_limit::rate_limit_error;
use crate::types::{
    AccountId, Balance, Config, ErrorKind, Event, FieldView, Height, LedgerAction, RecordView,
};
use crate::validator::validation_error;
use vstd::prelude::*;

verus! {

/// Everything a commit attempt depends on besides the account's record.
pub ghost struct Attempt {
    /// Whether the authorization gate admits the account.
    pub allowed: bool,
    /// Whether the ledger admits reserving what the deposit grows by.
    pub funded: bool,
    /// The bundle to commit; empty to clear the commitment.
    pub bundle: Seq<FieldView>,
    /// The height of the clock at the attempt.
    pub height: Height,
}

/// The record `records` holds for `account`, if any.
pub open spec fn record_of(records: Map<AccountId, RecordView>, account: AccountId) -> Option<
    RecordView,
> {
    if records.contains_key(account) {
        Some(records[account])
    } else {
        None
    }
}

/// `records` with the record of `account` replaced by `record`, or evicted if
/// that is `None`.
pub open spec fn with_record(
    records: Map<AccountId, RecordView>,
    account: AccountId,
    record: Option<RecordView>,
) -> Map<AccountId, RecordView> {
    match record {
        Some(r) => records.insert(account, r),
        None => records.remove(account),
    }
}

/// The deposit an account has reserved: that of its record, or nothing.
pub open spec fn deposit_of(record: Option<RecordView>) -> Balance {
    match record {
        Some(r) => r.reserved_deposit,
        None => 0,
    }
}

/// The height of the account's last accepted commit, if it has a record.
pub open spec fn last_commit_of(record: Option<RecordView>) -> Option<Height> {
    match record {
        Some(r) => Some(r.last_commit_height),
        None => None,
    }
}

/// The first objection that can be raised without looking at any balance:
/// authorization first, then the rate limit, then the bundle's validity.
pub open spec fn screening_error(
    config: Config,
    prior: Option<RecordView>,
    allowed: bool,
    bundle: Seq<FieldView>,
    height: Height,
) -> Option<ErrorKind> {
    if !allowed {
        Some(ErrorKind::Unauthorized)
    } else if rate_limit_error(config.rate_limit, last_commit_of(prior), height) is Some {
        rate_limit_error(config.rate_limit, last_commit_of(prior), height)
    } else {
        validation_error(config, bundle)
    }
}

/// The first objection to the attempt, if there is one.
pub open spec fn commit_error(config: Config, prior: Option<RecordView>, attempt: Attempt) -> Option<
    ErrorKind,
> {
    if screening_error(config, prior, attempt.allowed, attempt.bundle, attempt.height) is Some {
        screening_error(config, prior, attempt.allowed, attempt.bundle, attempt.height)
    } else if !affordable(
        deposit_of(prior),
        required_deposit(config, attempt.bundle),
        attempt.funded,
    ) {
        Some(ErrorKind::InsufficientBalance)
    } else {
        None
    }
}

/// What the attempt would ask of the ledger, before the ledger has been
/// asked: the objection it meets even on a ledger that admits everything, or
/// else the move that takes the reserve to the deposit of the new bundle.
pub open spec fn commit_quote(
    config: Config,
    prior: Option<RecordView>,
    allowed: bool,
    bundle: Seq<FieldView>,
    height: Height,
) -> Result<LedgerAction, ErrorKind> {
    let attempt = Attempt { allowed, funded: true, bundle, height };
    match commit_error(config, prior, attempt) {
        Some(error) => Err(error),
        None => Ok(commit_action(config, prior, attempt)),
    }
}

/// What the attempt asks of the ledger: nothing if it is rejected, otherwise
/// the move that takes the reserve to the deposit of the new bundle.
pub open spec fn commit_action(config: Config, prior: Option<RecordView>, attempt: Attempt) -> LedgerAction {
    if commit_error(config, prior, attempt) is Some {
        LedgerAction::Nothing
    } else {
        ledger_action(deposit_of(prior), required_deposit(config, attempt.bundle))
    }
}

/// The account's record after the attempt: unchanged if it is rejected, gone
/// if it commits the empty bundle, otherwise the new bundle with its deposit
/// and the height of the attempt.
pub open spec fn next_record(config: Config, prior: Option<RecordView>, attempt: Attempt) -> Option<
    RecordView,
> {
    if commit_error(config, prior, attempt) is Some {
        prior
    } else if attempt.bundle.len() == 0 {
        None
    } else {
        Some(
            RecordView {
                bundle: attempt.bundle,
                reserved_deposit: required_deposit(config, attempt.bundle) as Balance,
                last_commit_height: attempt.height,
            },
        )
    }
}

/// The event an accepted attempt emits.
pub open spec fn commit_event(config: Config, account: AccountId, attempt: Attempt) -> Event {
    Event {
        account,
        field_count: attempt.bundle.len() as usize,
        reserved_deposit: required_deposit(config, attempt.bundle) as Balance,
        height: attempt.height,
    }
}

/// The answer to the attempt.
pub open spec fn commit_result(
    config: Config,
    account: AccountId,
    prior: Option<RecordView>,
    attempt: Attempt,
) -> Result<Event, ErrorKind> {
    match commit_error(config, prior, attempt) {
        Some(error) => Err(error),
        None => Ok(commit_event(config, account, attempt)),
    }
}

/// A record is consistent with a configuration when its bundle is non-empty
/// and valid and its deposit is exactly what the bundle requires.
pub open spec fn record_consistent(config: Config, record: RecordView) -> bool {
    &&& record.bundle.len() > 0
    &&& validation_error(config, record.bundle) is None
    &&& record.reserved_deposit == required_deposit(config, record.bundle)
}

} // verus!
