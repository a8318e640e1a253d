//! Properties of the commit model that relate several attempts, or that hold
//! of every attempt. The executable store is specified by the same model, so
//! each of them holds of the store as well.

use crate::deposit::{action_delta, affordable, ledger_action, required_deposit, size_metric};
use crate::ledger::{holdings_of, settled, Holdings};
use crate::model::{
    commit_action, commit_error, commit_quote, commit_result, deposit_of, next_record,
    record_consistent, record_of, with_record, Attempt,
};
use crate::rate_limit::{interval_elapsed, rate_limit_error, retry_height};
use crate::types::{
    AccountId, Config, ErrorKind, Event, FieldView, Height, LedgerAction, RecordView,
};
use crate::validator::is_valid;
use vstd::prelude::*;

verus! {

/// The record an account is left with after a sequence of attempts, made one
/// after the other, starting from `prior`.
pub open spec fn run(config: Config, prior: Option<RecordView>, attempts: Seq<Attempt>) -> Option<
    RecordView,
>
    decreases attempts.len(),
{
    if attempts.len() == 0 {
        prior
    } else {
        next_record(config, run(config, prior, attempts.drop_last()), attempts.last())
    }
}

/// Everything the attempts of a sequence had reserved, minus everything they
/// had released.
pub open spec fn net_reserved(config: Config, prior: Option<RecordView>, attempts: Seq<Attempt>) -> int
    decreases attempts.len(),
{
    if attempts.len() == 0 {
        0
    } else {
        net_reserved(config, prior, attempts.drop_last()) + action_delta(
            commit_action(config, run(config, prior, attempts.drop_last()), attempts.last()),
        )
    }
}

/// First commit: an account without a record that is admitted by its policy,
/// commits a valid, non-empty bundle and can fund its deposit is accepted, and
/// its record then holds that bundle with a deposit of exactly the initial
/// deposit plus the per-unit deposit times the bundle's size.
pub proof fn law_first_commit_reserves_required_deposit(
    config: Config,
    account: AccountId,
    attempt: Attempt,
)
    requires
        attempt.allowed,
        attempt.bundle.len() > 0,
        is_valid(config, attempt.bundle),
        affordable(0, required_deposit(config, attempt.bundle), attempt.funded),
    ensures
        commit_result(config, account, None, attempt) is Ok,
        next_record(config, None, attempt) is Some,
        next_record(config, None, attempt)->0.reserved_deposit == config.initial_deposit
            + config.field_deposit * size_metric(config.metric, attempt.bundle),
        next_record(config, None, attempt)->0.bundle == attempt.bundle,
        next_record(config, None, attempt)->0.last_commit_height == attempt.height,
        action_delta(commit_action(config, None, attempt)) == config.initial_deposit
            + config.field_deposit * size_metric(config.metric, attempt.bundle),
{
}

/// Idempotence of deposit accounting: when an accepted commit is followed,
/// after the rate-limit interval, by a commit of the same bundle, the second
/// one is accepted whether or not the account could fund anything, asks
/// nothing of the ledger, and leaves the deposit as it was.
pub proof fn law_recommit_leaves_deposit_unchanged(
    config: Config,
    prior: Option<RecordView>,
    first: Attempt,
    second: Attempt,
)
    requires
        commit_error(config, prior, first) is None,
        second.allowed,
        second.bundle == first.bundle,
        second.height - first.height >= config.rate_limit,
    ensures
        commit_error(config, next_record(config, prior, first), second) is None,
        commit_action(config, next_record(config, prior, first), second) == LedgerAction::Nothing,
        deposit_of(next_record(config, next_record(config, prior, first), second)) == deposit_of(
            next_record(config, prior, first),
        ),
{
}

/// Rate limiting: an account that last committed at `last` is refused at every
/// height less than `rate_limit` above it, with the first eligible height as
/// `retry_after`, and is eligible at every height from there on. On a commit
/// the refusal is the answer unless authorization has already been denied.
pub proof fn law_rate_limit_window(config: Config, prior: RecordView, attempt: Attempt)
    ensures
        0 <= attempt.height - prior.last_commit_height < config.rate_limit ==> rate_limit_error(
            config.rate_limit,
            Some(prior.last_commit_height),
            attempt.height,
        ) == Some(
            ErrorKind::RateLimited {
                retry_after: retry_height(config.rate_limit, prior.last_commit_height),
            },
        ),
        0 <= attempt.height - prior.last_commit_height < config.rate_limit && attempt.allowed
            ==> commit_error(config, Some(prior), attempt) == Some(
            ErrorKind::RateLimited {
                retry_after: retry_height(config.rate_limit, prior.last_commit_height),
            },
        ),
        attempt.height - prior.last_commit_height >= config.rate_limit ==> rate_limit_error(
            config.rate_limit,
            Some(prior.last_commit_height),
            attempt.height,
        ) is None,
        attempt.height - prior.last_commit_height >= config.rate_limit ==> !(commit_error(
            config,
            Some(prior),
            attempt,
        ) matches Some(ErrorKind::RateLimited { .. })),
{
}

/// Rate limiting is monotonic: once the interval has elapsed it has elapsed
/// at every later height, and `retry_after` is where it elapses.
pub proof fn law_rate_limit_monotonic(rate_limit: Height, last: Height, now: Height, later: Height)
    requires
        now <= later,
    ensures
        interval_elapsed(rate_limit, last, now) ==> interval_elapsed(rate_limit, last, later),
        last + rate_limit <= Height::MAX ==> interval_elapsed(
            rate_limit,
            last,
            retry_height(rate_limit, last),
        ),
        !interval_elapsed(rate_limit, last, now) ==> now < retry_height(rate_limit, last) || (now
            == Height::MAX && last + rate_limit > Height::MAX),
{
}

/// One attempt moves exactly the difference between the deposit before and
/// the deposit after it, whether it is accepted or not.
pub proof fn law_attempt_moves_deposit_difference(
    config: Config,
    prior: Option<RecordView>,
    attempt: Attempt,
)
    ensures
        action_delta(commit_action(config, prior, attempt)) == deposit_of(
            next_record(config, prior, attempt),
        ) - deposit_of(prior),
{
}

/// Deposit conservation: over any sequence of attempts, what was reserved
/// minus what was released is the difference between the final and the
/// initial deposit. For an account that starts without a record it is the
/// final deposit.
pub proof fn law_deposit_conservation(
    config: Config,
    prior: Option<RecordView>,
    attempts: Seq<Attempt>,
)
    ensures
        net_reserved(config, prior, attempts) == deposit_of(run(config, prior, attempts))
            - deposit_of(prior),
        prior is None ==> net_reserved(config, prior, attempts) == deposit_of(
            run(config, prior, attempts),
        ),
    decreases attempts.len(),
{
    if attempts.len() > 0 {
        law_deposit_conservation(config, prior, attempts.drop_last());
        law_attempt_moves_deposit_difference(
            config,
            run(config, prior, attempts.drop_last()),
            attempts.last(),
        );
    }
}

/// The deposit invariant: a record written by an accepted attempt is
/// consistent, so a consistent record stays consistent through any sequence
/// of attempts.
pub proof fn law_records_stay_consistent(
    config: Config,
    prior: Option<RecordView>,
    attempts: Seq<Attempt>,
)
    requires
        prior is Some ==> record_consistent(config, prior->0),
    ensures
        run(config, prior, attempts) is Some ==> record_consistent(
            config,
            run(config, prior, attempts)->0,
        ),
    decreases attempts.len(),
{
    if attempts.len() > 0 {
        law_records_stay_consistent(config, prior, attempts.drop_last());
    }
}

/// On a ledger whose reserve for the account covers the recorded deposit, an
/// attempt changes the reserve by exactly the change of the deposit, takes
/// the same amount out of the free balance, and touches no other account.
pub proof fn law_ledger_follows_deposit(
    config: Config,
    prior: Option<RecordView>,
    attempt: Attempt,
    account: AccountId,
    pre: Map<AccountId, Holdings>,
    post: Map<AccountId, Holdings>,
)
    requires
        holdings_of(pre, account).reserved >= deposit_of(prior),
        settled(pre, post, account, commit_action(config, prior, attempt)),
    ensures
        holdings_of(post, account).reserved - holdings_of(pre, account).reserved == deposit_of(
            next_record(config, prior, attempt),
        ) - deposit_of(prior),
        holdings_of(post, account).free + holdings_of(post, account).reserved == holdings_of(
            pre,
            account,
        ).free + holdings_of(pre, account).reserved,
        holdings_of(post, account).reserved >= deposit_of(next_record(config, prior, attempt)),
        forall|other: AccountId|
            other != account ==> #[trigger] holdings_of(post, other) == holdings_of(pre, other),
{
    law_attempt_moves_deposit_difference(config, prior, attempt);
}

/// Clearing refunds in full: an admitted clear of an account whose interval
/// has elapsed is accepted, releases exactly the deposit of its record, and
/// leaves the account without a record.
pub proof fn law_clear_refunds_in_full(config: Config, prior: RecordView, attempt: Attempt)
    requires
        attempt.bundle.len() == 0,
        attempt.allowed,
        interval_elapsed(config.rate_limit, prior.last_commit_height, attempt.height),
    ensures
        commit_error(config, Some(prior), attempt) is None,
        next_record(config, Some(prior), attempt) is None,
        commit_action(config, Some(prior), attempt) == ledger_action(prior.reserved_deposit, 0),
        action_delta(commit_action(config, Some(prior), attempt)) == -prior.reserved_deposit,
{
}

/// Authorization comes first: whatever else is true of the attempt of a
/// denied account, the answer is `Unauthorized`, the record (and with it the
/// rate limiter's state) stays as it was, and nothing is asked of the ledger.
pub proof fn law_denied_attempt_changes_nothing(
    config: Config,
    account: AccountId,
    prior: Option<RecordView>,
    attempt: Attempt,
)
    requires
        !attempt.allowed,
    ensures
        commit_result(config, account, prior, attempt) == Err::<Event, ErrorKind>(
            ErrorKind::Unauthorized,
        ),
        next_record(config, prior, attempt) == prior,
        commit_action(config, prior, attempt) == LedgerAction::Nothing,
{
}

/// Quote and settlement agree. An objection in the quote is the answer of
/// the attempt whatever the ledger does. With a quote in hand, the attempt
/// fails only where a reservation was asked for and the ledger did not make
/// it, and then with `InsufficientBalance`; otherwise it is accepted and its
/// action is the quoted one.
pub proof fn law_settlement_follows_quote(
    config: Config,
    prior: Option<RecordView>,
    allowed: bool,
    moved: bool,
    bundle: Seq<FieldView>,
    height: Height,
)
    ensures
        ({
            let attempt = Attempt { allowed, funded: moved, bundle, height };
            match commit_quote(config, prior, allowed, bundle, height) {
                Err(error) => commit_error(config, prior, attempt) == Some(error),
                Ok(action) => if action is Reserve && !moved {
                    commit_error(config, prior, attempt) == Some(ErrorKind::InsufficientBalance)
                } else {
                    commit_error(config, prior, attempt) is None && commit_action(
                        config,
                        prior,
                        attempt,
                    ) == action
                },
            }
        }),
{
}

/// Accounts are independent: writing the record of one account leaves the
/// record of every other account as it was, and writes for two different
/// accounts give the same store in either order.
pub proof fn law_accounts_are_independent(
    records: Map<AccountId, RecordView>,
    first: AccountId,
    first_record: Option<RecordView>,
    second: AccountId,
    second_record: Option<RecordView>,
)
    requires
        first != second,
    ensures
        record_of(with_record(records, first, first_record), first) == first_record,
        record_of(with_record(records, first, first_record), second) == record_of(records, second),
        with_record(with_record(records, first, first_record), second, second_record)
            == with_record(with_record(records, second, second_record), first, first_record),
{
    assert(with_record(with_record(records, first, first_record), second, second_record)
        =~= with_record(with_record(records, second, second_record), first, first_record));
}

/// All or nothing: an attempt that is rejected, for whatever reason, leaves
/// the record as it was and asks nothing of the ledger.
pub proof fn law_rejected_attempt_changes_nothing(
    config: Config,
    prior: Option<RecordView>,
    attempt: Attempt,
)
    requires
        commit_error(config, prior, attempt) is Some,
    ensures
        next_record(config, prior, attempt) == prior,
        commit_action(config, prior, attempt) == LedgerAction::Nothing,
{
}

} // verus!
