//! The authorization gate: a pluggable predicate that decides who may commit.

use crate::types::AccountId;
use vstd::prelude::*;

verus! {

/// An authorization policy. The answer is a function of the policy's current
/// state and the account alone, and asking has no side effect; it is asked
/// afresh on every commit attempt.
pub trait CanCommit {
    /// Whether the policy admits `account`.
    spec fn allows(&self, account: AccountId) -> bool;

    /// Asks the policy about `account`.
    fn can_commit(&self, account: AccountId) -> (allowed: bool)
        ensures
            allowed == self.allows(account),
    ;
}

/// The default policy: every account may commit.
#[derive(Clone, Copy, Debug)]
pub struct AllowAll;

impl CanCommit for AllowAll {
    open spec fn allows(&self, account: AccountId) -> bool {
        true
    }

    fn can_commit(&self, account: AccountId) -> (allowed: bool) {
        true
    }
}

/// A host that plugs in no policy of its own gets the default one.
impl CanCommit for () {
    open spec fn allows(&self, account: AccountId) -> bool {
        true
    }

    fn can_commit(&self, account: AccountId) -> (allowed: bool) {
        true
    }
}

/// The policy that admits nobody.
#[derive(Clone, Copy, Debug)]
pub struct DenyAll;

impl CanCommit for DenyAll {
    open spec fn allows(&self, account: AccountId) -> bool {
        false
    }

    fn can_commit(&self, account: AccountId) -> (allowed: bool) {
        false
    }
}

/// The policy that admits exactly the listed accounts.
#[derive(Debug)]
pub struct AllowList {
    pub accounts: Vec<AccountId>,
}

impl AllowList {
    /// The policy admitting exactly `accounts`.
    pub fn new(accounts: Vec<AccountId>) -> (list: AllowList)
        ensures
            list.accounts@ == accounts@,
    {
        AllowList { accounts }
    }
}

impl CanCommit for AllowList {
    open spec fn allows(&self, account: AccountId) -> bool {
        self.accounts@.contains(account)
    }

    fn can_commit(&self, account: AccountId) -> (allowed: bool) {
        let n: usize = self.accounts.len();
        let mut i: usize = 0;
        while i < n
            invariant
                n == self.accounts.len(),
                i <= n,
                forall|j: int| 0 <= j < i ==> self.accounts@[j] != account,
            decreases n - i,
        {
            if self.accounts[i] == account {
                return true;
            }
            i = i + 1;
        }
        false
    }
}

} // verus!
