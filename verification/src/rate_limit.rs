//! The rate limiter: a minimum height interval between two commits of one
//! account, derived from the height of its last accepted commit.

use crate::types::{ErrorKind, Height};
use vstd::prelude::*;

verus! {

/// Whether an account that last committed at `last` may commit at `now`.
pub open spec fn interval_elapsed(rate_limit: Height, last: Height, now: Height) -> bool {
    now - last >= rate_limit
}

/// The first height at which an account that last committed at `last` is
/// eligible again, capped at the largest height the clock can show.
pub open spec fn retry_height(rate_limit: Height, last: Height) -> Height {
    if last + rate_limit > Height::MAX {
        Height::MAX
    } else {
        (last + rate_limit) as Height
    }
}

/// The rate limiter's objection to a commit at `now`, if it has one. An
/// account without a record (`last_commit` is `None`) is never throttled.
pub open spec fn rate_limit_error(
    rate_limit: Height,
    last_commit: Option<Height>,
    now: Height,
) -> Option<ErrorKind> {
    match last_commit {
        None => None,
        Some(last) => if interval_elapsed(rate_limit, last, now) {
            None
        } else {
            Some(ErrorKind::RateLimited { retry_after: retry_height(rate_limit, last) })
        },
    }
}

/// Decides whether an account whose last accepted commit was at
/// `last_commit` may commit at `now`.
pub fn check(rate_limit: Height, last_commit: Option<Height>, now: Height) -> (res: Result<
    (),
    ErrorKind,
>)
    ensures
        res == match rate_limit_error(rate_limit, last_commit, now) {
            Some(error) => Err::<(), ErrorKind>(error),
            None => Ok::<(), ErrorKind>(()),
        },
{
    match last_commit {
        None => Ok(()),
        Some(last) => match last.checked_add(rate_limit) {
            Some(eligible) => if now >= eligible {
                Ok(())
            } else {
                Err(ErrorKind::RateLimited { retry_after: eligible })
            },
            None => Err(ErrorKind::RateLimited { retry_after: Height::MAX }),
        },
    }
}

} // verus!
