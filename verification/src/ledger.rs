//! The currency ledger as the store sees it: a capability to move an amount
//! between an account's free balance and its reserve, and an in-memory ledger
//! that provides it.

use crate::types::{AccountId, Balance, ErrorKind, LedgerAction};
use std::collections::HashMap;
use vstd::prelude::*;

verus! {

broadcast use vstd::std_specs::hash::group_hash_axioms;

/// The two parts of one account's balance.
#[derive(Clone, Copy, Debug, PartialEq, Eq, Structural)]
pub struct Holdings {
    pub free: Balance,
    pub reserved: Balance,
}

/// What `account` holds according to `balances`; an account that is not
/// listed holds nothing.
pub open spec fn holdings_of(balances: Map<AccountId, Holdings>, account: AccountId) -> Holdings {
    if balances.contains_key(account) {
        balances[account]
    } else {
        Holdings { free: 0, reserved: 0 }
    }
}

/// `post` differs from `pre` by `delta` having moved from the free balance of
/// `account` into its reserve (or back, where `delta` is negative); no other
/// account holds anything else than before.
pub open spec fn shifted(
    pre: Map<AccountId, Holdings>,
    post: Map<AccountId, Holdings>,
    account: AccountId,
    delta: int,
) -> bool {
    &&& holdings_of(post, account).reserved == holdings_of(pre, account).reserved + delta
    &&& holdings_of(post, account).free == holdings_of(pre, account).free - delta
    &&& forall|other: AccountId|
        other != account ==> #[trigger] holdings_of(post, other) == holdings_of(pre, other)
}

/// Every account holds the same in `post` as in `pre`.
pub open spec fn same_holdings(pre: Map<AccountId, Holdings>, post: Map<AccountId, Holdings>) -> bool {
    forall|account: AccountId| #[trigger] holdings_of(post, account) == holdings_of(pre, account)
}

/// How much of `amount` a release can actually move out of the reserve of
/// `account`.
pub open spec fn releasable(
    balances: Map<AccountId, Holdings>,
    account: AccountId,
    amount: Balance,
) -> Balance {
    if amount <= holdings_of(balances, account).reserved {
        amount
    } else {
        holdings_of(balances, account).reserved
    }
}

/// `post` is what `action` on `account` makes of `pre`. A release moves what
/// the reserve can give, at most the amount asked for.
pub open spec fn settled(
    pre: Map<AccountId, Holdings>,
    post: Map<AccountId, Holdings>,
    account: AccountId,
    action: LedgerAction,
) -> bool {
    match action {
        LedgerAction::Nothing => same_holdings(pre, post),
        LedgerAction::Reserve(amount) => shifted(pre, post, account, amount as int),
        LedgerAction::Release(amount) => shifted(
            pre,
            post,
            account,
            -(releasable(pre, account, amount) as int),
        ),
    }
}

/// A ledger on which balances can be reserved and released.
///
/// Which reservations the ledger admits is its own business (`can_reserve`);
/// what a reservation or a release does to the balances is fixed here.
pub trait CurrencyLedger {
    /// The ledger's own invariant.
    spec fn wf(&self) -> bool;

    /// What every account holds.
    spec fn balances(&self) -> Map<AccountId, Holdings>;

    /// Whether the ledger would let `account` reserve `amount` now.
    spec fn can_reserve(&self, account: AccountId, amount: Balance) -> bool;

    /// Moves `amount` from the free balance of `account` into its reserve, or
    /// fails with `InsufficientBalance` and moves nothing at all.
    fn reserve(&mut self, account: AccountId, amount: Balance) -> (res: Result<(), ErrorKind>)
        requires
            old(self).wf(),
        ensures
            final(self).wf(),
            res is Ok <==> old(self).can_reserve(account, amount),
            res is Ok ==> shifted(old(self).balances(), final(self).balances(), account, amount as int),
            res is Err ==> res == Err::<(), ErrorKind>(ErrorKind::InsufficientBalance)
                && same_holdings(old(self).balances(), final(self).balances()),
    ;

    /// Moves up to `amount` from the reserve of `account` back to its free
    /// balance and returns how much was moved: `amount`, or the whole reserve
    /// where that is less. Never fails.
    fn release(&mut self, account: AccountId, amount: Balance) -> (released: Balance)
        requires
            old(self).wf(),
        ensures
            final(self).wf(),
            released == releasable(old(self).balances(), account, amount),
            shifted(old(self).balances(), final(self).balances(), account, -(released as int)),
    ;
}

/// A ledger kept in memory. The two parts of an account's balance together
/// never exceed `Balance::MAX`.
pub struct MemoryLedger {
    accounts: HashMap<AccountId, Holdings>,
}

impl MemoryLedger {
    /// A ledger on which nobody holds anything.
    pub fn new() -> (ledger: MemoryLedger)
        ensures
            ledger.wf(),
            ledger.balances() == Map::<AccountId, Holdings>::empty(),
    {
        MemoryLedger { accounts: HashMap::new() }
    }

    /// What `account` holds.
    pub fn holdings(&self, account: AccountId) -> (held: Holdings)
        ensures
            held == holdings_of(self.balances(), account),
    {
        match self.accounts.get(&account) {
            Some(held) => *held,
            None => Holdings { free: 0, reserved: 0 },
        }
    }

    /// The free balance of `account`.
    pub fn free_balance(&self, account: AccountId) -> (amount: Balance)
        ensures
            amount == holdings_of(self.balances(), account).free,
    {
        self.holdings(account).free
    }

    /// The reserved balance of `account`.
    pub fn reserved_balance(&self, account: AccountId) -> (amount: Balance)
        ensures
            amount == holdings_of(self.balances(), account).reserved,
    {
        self.holdings(account).reserved
    }

    /// Adds `amount` to the free balance of `account`. Refuses, and changes
    /// nothing, where the account's balance would no longer fit in `Balance`.
    pub fn credit(&mut self, account: AccountId, amount: Balance) -> (credited: bool)
        requires
            old(self).wf(),
        ensures
            final(self).wf(),
            credited <==> holdings_of(old(self).balances(), account).free + holdings_of(
                old(self).balances(),
                account,
            ).reserved + amount <= Balance::MAX,
            credited ==> final(self).balances() == old(self).balances().insert(
                account,
                Holdings {
                    free: (holdings_of(old(self).balances(), account).free + amount) as Balance,
                    reserved: holdings_of(old(self).balances(), account).reserved,
                },
            ),
            !credited ==> final(self).balances() == old(self).balances(),
    {
        let held = self.holdings(account);
        if amount > Balance::MAX - held.free || held.reserved > Balance::MAX - held.free - amount {
            return false;
        }
        self.accounts.insert(account, Holdings { free: held.free + amount, reserved: held.reserved });
        true
    }
}

impl CurrencyLedger for MemoryLedger {
    closed spec fn wf(&self) -> bool {
        forall|account: AccountId| #[trigger]
            self.accounts@.contains_key(account) ==> self.accounts@[account].free
                + self.accounts@[account].reserved <= Balance::MAX
    }

    closed spec fn balances(&self) -> Map<AccountId, Holdings> {
        self.accounts@
    }

    /// This ledger admits a reservation exactly when the free balance covers it.
    open spec fn can_reserve(&self, account: AccountId, amount: Balance) -> bool {
        amount <= holdings_of(self.balances(), account).free
    }

    fn reserve(&mut self, account: AccountId, amount: Balance) -> (res: Result<(), ErrorKind>) {
        let held = self.holdings(account);
        if amount > held.free {
            return Err(ErrorKind::InsufficientBalance);
        }
        self.accounts.insert(
            account,
            Holdings { free: held.free - amount, reserved: held.reserved + amount },
        );
        Ok(())
    }

    fn release(&mut self, account: AccountId, amount: Balance) -> (released: Balance) {
        let held = self.holdings(account);
        let released: Balance = if amount <= held.reserved {
            amount
        } else {
            held.reserved
        };
        self.accounts.insert(
            account,
            Holdings { free: held.free + released, reserved: held.reserved - released },
        );
        released
    }
}

} // verus!
