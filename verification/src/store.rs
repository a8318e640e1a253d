//! The commitment store: the per-account records and the entry points that
//! change them.
//!
//! A commit can be made in one call, `commit`, against a gate and a ledger
//! that implement this crate's traits. A host whose ledger lives elsewhere
//! makes it in three steps: `quote` says what to ask of the ledger, the host
//! asks, and `settle` takes the ledger's answer and writes the record.

use crate::deposit::{deposit_for, quote, reconcile, required_deposit, shortfall};
use crate::gate::CanCommit;
use crate::ledger::{settled, CurrencyLedger};
use crate::model::{
    commit_action, commit_quote, commit_result, deposit_of, last_commit_of, next_record,
    record_consistent, record_of, screening_error, with_record, Attempt,
};
use crate::rate_limit::{check, rate_limit_error};
use crate::types::{
    AccountId, Balance, Bundle, CommitmentRecord, Config, ErrorKind, Event, FieldView, Height,
    LedgerAction, RecordView,
};
use crate::validator::{is_valid, validate};
use std::collections::HashMap;
use vstd::prelude::*;

verus! {

broadcast use vstd::std_specs::hash::group_hash_axioms;

/// Holds the current commitment of every account that has one.
pub struct CommitmentStore {
    config: Config,
    records: HashMap<AccountId, CommitmentRecord>,
}

impl View for CommitmentStore {
    type V = Map<AccountId, RecordView>;

    closed spec fn view(&self) -> Map<AccountId, RecordView> {
        self.records@.map_values(|r: CommitmentRecord| r@)
    }
}

impl CommitmentStore {
    /// The configuration the store was created with.
    pub closed spec fn configuration(&self) -> Config {
        self.config
    }

    /// Every record is consistent with the configuration: its bundle is
    /// non-empty and valid, and its deposit is the one the bundle requires.
    pub open spec fn wf(&self) -> bool {
        &&& self.configuration().wf()
        &&& forall|account: AccountId| #[trigger]
            self@.contains_key(account) ==> record_consistent(self.configuration(), self@[account])
    }

    /// The record of `account`, if it has one.
    pub open spec fn record(&self, account: AccountId) -> Option<RecordView> {
        record_of(self@, account)
    }

    /// The attempt that `account` makes by committing `bundle` at `height`,
    /// as `gate` and `ledger` see it.
    pub open spec fn attempt<G: CanCommit, L: CurrencyLedger>(
        &self,
        gate: &G,
        ledger: &L,
        account: AccountId,
        bundle: Seq<FieldView>,
        height: Height,
    ) -> Attempt {
        Attempt {
            allowed: gate.allows(account),
            funded: ledger.can_reserve(
                account,
                shortfall(
                    deposit_of(self.record(account)),
                    required_deposit(self.configuration(), bundle),
                ) as Balance,
            ),
            bundle,
            height,
        }
    }

    /// A store without records.
    pub fn new(config: Config) -> (store: CommitmentStore)
        requires
            config.wf(),
        ensures
            store.wf(),
            store.configuration() == config,
            store@ == Map::<AccountId, RecordView>::empty(),
    {
        let store = CommitmentStore { config, records: HashMap::new() };
        assert(store@ =~= Map::<AccountId, RecordView>::empty());
        store
    }

    /// The configuration the store was created with.
    pub fn config(&self) -> (config: Config)
        ensures
            config == self.configuration(),
    {
        self.config
    }

    /// Reads the record of `account`.
    pub fn get(&self, account: AccountId) -> (record: Option<&CommitmentRecord>)
        ensures
            match record {
                Some(r) => self.record(account) == Some(r@),
                None => self.record(account) is None,
            },
    {
        self.records.get(&account)
    }

    /// The deposit that stands reserved for `account`: that of its record, or
    /// nothing.
    pub fn reserved_deposit(&self, account: AccountId) -> (amount: Balance)
        ensures
            amount == deposit_of(self.record(account)),
    {
        match self.records.get(&account) {
            Some(record) => record.reserved_deposit,
            None => 0,
        }
    }

    /// Asks the rate limiter whether `account` may commit at `current_height`.
    pub fn check_rate_limit(&self, account: AccountId, current_height: Height) -> (res: Result<
        (),
        ErrorKind,
    >)
        ensures
            res == match rate_limit_error(
                self.configuration().rate_limit,
                last_commit_of(self.record(account)),
                current_height,
            ) {
                Some(error) => Err::<(), ErrorKind>(error),
                None => Ok::<(), ErrorKind>(()),
            },
    {
        let last_commit: Option<Height> = match self.records.get(&account) {
            Some(record) => Some(record.last_commit_height),
            None => None,
        };
        check(self.config.rate_limit, last_commit, current_height)
    }

    /// The checks that look at no balance, in their order: authorization,
    /// rate limit, validation.
    fn screen(&self, allowed: bool, account: AccountId, bundle: &Bundle, height: Height) -> (res:
        Result<(), ErrorKind>)
        ensures
            res == match screening_error(
                self.configuration(),
                self.record(account),
                allowed,
                bundle@,
                height,
            ) {
                Some(error) => Err::<(), ErrorKind>(error),
                None => Ok::<(), ErrorKind>(()),
            },
    {
        if !allowed {
            return Err(ErrorKind::Unauthorized);
        }
        match self.check_rate_limit(account, height) {
            Ok(()) => validate(&self.config, bundle),
            Err(error) => Err(error),
        }
    }

    /// Replaces the record of `account` by one for `bundle`, or evicts it if
    /// `bundle` is empty, and makes the event that reports it.
    fn write(&mut self, account: AccountId, bundle: Bundle, reserved: Balance, height: Height) -> (event:
        Event)
        requires
            old(self).wf(),
            is_valid(old(self).configuration(), bundle@),
            reserved == required_deposit(old(self).configuration(), bundle@),
        ensures
            final(self).wf(),
            final(self).configuration() == old(self).configuration(),
            final(self)@ == with_record(
                old(self)@,
                account,
                if bundle@.len() == 0 {
                    None
                } else {
                    Some(
                        RecordView {
                            bundle: bundle@,
                            reserved_deposit: reserved,
                            last_commit_height: height,
                        },
                    )
                },
            ),
            event == (Event {
                account,
                field_count: bundle@.len() as usize,
                reserved_deposit: reserved,
                height,
            }),
    {
        let field_count: usize = bundle.len();
        let ghost before = self.records@;
        let ghost content = bundle@;
        if field_count == 0 {
            self.records.remove(&account);
            assert(self@ =~= before.map_values(|r: CommitmentRecord| r@).remove(account));
        } else {
            let record = CommitmentRecord {
                bundle,
                reserved_deposit: reserved,
                last_commit_height: height,
            };
            assert(record@.bundle == content);
            self.records.insert(account, record);
            assert(self@ =~= before.map_values(|r: CommitmentRecord| r@).insert(account, record@));
        }
        assert forall|other: AccountId| #[trigger] self@.contains_key(other) implies record_consistent(
            self.configuration(),
            self@[other],
        ) by {
            if other != account {
                assert(old(self)@.contains_key(other));
            }
        }
        Event { account, field_count, reserved_deposit: reserved, height }
    }

    /// Says what a commit of `bundle` by `account` at `current_height` would
    /// ask of the ledger, without changing anything. `allowed` is the answer
    /// of the authorization gate.
    ///
    /// Fails with the objection the commit meets whatever the ledger says:
    /// that of the authorization gate, the rate limiter or the validator, or
    /// `InsufficientBalance` where the deposit is more than any balance can
    /// hold.
    pub fn quote(&self, allowed: bool, account: AccountId, bundle: &Bundle, current_height: Height) -> (res:
        Result<LedgerAction, ErrorKind>)
        ensures
            res == commit_quote(
                self.configuration(),
                self.record(account),
                allowed,
                bundle@,
                current_height,
            ),
    {
        match self.screen(allowed, account, bundle, current_height) {
            Ok(()) => quote(&self.config, self.reserved_deposit(account), bundle),
            Err(error) => Err(error),
        }
    }

    /// Commits `bundle` for `account` at `current_height`, given the answers
    /// from outside: `allowed`, that of the authorization gate, and `moved`,
    /// whether the ledger has made the move that `quote` asked for.
    ///
    /// The result and the new record are those of the attempt with these two
    /// answers. In particular the commit fails with `InsufficientBalance`,
    /// and changes nothing, where a reservation was needed and `moved` is
    /// `false`.
    pub fn settle(
        &mut self,
        allowed: bool,
        moved: bool,
        account: AccountId,
        bundle: Bundle,
        current_height: Height,
    ) -> (res: Result<Event, ErrorKind>)
        requires
            old(self).wf(),
        ensures
            final(self).wf(),
            final(self).configuration() == old(self).configuration(),
            ({
                let config = old(self).configuration();
                let prior = old(self).record(account);
                let attempt = Attempt { allowed, funded: moved, bundle: bundle@, height: current_height };
                &&& res == commit_result(config, account, prior, attempt)
                &&& final(self)@ == with_record(
                    old(self)@,
                    account,
                    next_record(config, prior, attempt),
                )
            }),
            res is Err ==> *final(self) == *old(self),
    {
        proof {
            self.lemma_rewrite_same(account);
        }
        match self.screen(allowed, account, &bundle, current_height) {
            Ok(()) => {},
            Err(error) => {
                return Err(error);
            },
        }
        let previous: Balance = self.reserved_deposit(account);
        match deposit_for(&self.config, &bundle) {
            Some(required) => if required > previous && !moved {
                Err(ErrorKind::InsufficientBalance)
            } else {
                Ok(self.write(account, bundle, required, current_height))
            },
            None => Err(ErrorKind::InsufficientBalance),
        }
    }

    /// Commits `bundle` for `account` at `current_height`.
    ///
    /// The attempt passes, in this order, the authorization gate, the rate
    /// limiter, the field validator and the deposit accountant. The first of
    /// them to object decides the error, and then neither the store nor any
    /// balance has changed. Otherwise the ledger has moved the difference
    /// between the old and the new deposit, the record of `account` holds the
    /// new bundle (or is gone, if the bundle is empty), and the event for the
    /// host's log is returned. No other account's record is touched.
    pub fn commit<G: CanCommit, L: CurrencyLedger>(
        &mut self,
        gate: &G,
        ledger: &mut L,
        account: AccountId,
        bundle: Bundle,
        current_height: Height,
    ) -> (res: Result<Event, ErrorKind>)
        requires
            old(self).wf(),
            old(ledger).wf(),
        ensures
            final(self).wf(),
            final(ledger).wf(),
            final(self).configuration() == old(self).configuration(),
            ({
                let config = old(self).configuration();
                let prior = old(self).record(account);
                let attempt = old(self).attempt(gate, &*old(ledger), account, bundle@, current_height);
                &&& res == commit_result(config, account, prior, attempt)
                &&& final(self)@ == with_record(
                    old(self)@,
                    account,
                    next_record(config, prior, attempt),
                )
                &&& settled(
                    old(ledger).balances(),
                    final(ledger).balances(),
                    account,
                    commit_action(config, prior, attempt),
                )
            }),
            res is Err ==> *final(self) == *old(self),
            res != Err::<Event, ErrorKind>(ErrorKind::InsufficientBalance) && commit_action(
                old(self).configuration(),
                old(self).record(account),
                old(self).attempt(gate, &*old(ledger), account, bundle@, current_height),
            ) is Nothing ==> *final(ledger) == *old(ledger),
    {
        proof {
            self.lemma_rewrite_same(account);
        }
        match self.screen(gate.can_commit(account), account, &bundle, current_height) {
            Ok(()) => {},
            Err(error) => {
                return Err(error);
            },
        }
        match reconcile(&self.config, ledger, account, self.records.get(&account), &bundle) {
            Ok(reserved) => Ok(self.write(account, bundle, reserved, current_height)),
            Err(error) => Err(error),
        }
    }

    /// Clears the commitment of `account` at `current_height`: a commit of the
    /// empty bundle, subject to the same authorization and rate limit as any
    /// other. Where it is accepted the whole deposit is released and the
    /// record is evicted.
    pub fn clear<G: CanCommit, L: CurrencyLedger>(
        &mut self,
        gate: &G,
        ledger: &mut L,
        account: AccountId,
        current_height: Height,
    ) -> (res: Result<Event, ErrorKind>)
        requires
            old(self).wf(),
            old(ledger).wf(),
        ensures
            final(self).wf(),
            final(ledger).wf(),
            final(self).configuration() == old(self).configuration(),
            ({
                let config = old(self).configuration();
                let prior = old(self).record(account);
                let attempt = old(self).attempt(
                    gate,
                    &*old(ledger),
                    account,
                    Seq::<FieldView>::empty(),
                    current_height,
                );
                &&& res == commit_result(config, account, prior, attempt)
                &&& final(self)@ == with_record(
                    old(self)@,
                    account,
                    next_record(config, prior, attempt),
                )
                &&& settled(
                    old(ledger).balances(),
                    final(ledger).balances(),
                    account,
                    commit_action(config, prior, attempt),
                )
            }),
            res is Ok ==> final(self).record(account) is None,
            res is Err ==> *final(self) == *old(self),
            res is Err ==> *final(ledger) == *old(ledger),
    {
        self.commit(gate, ledger, account, Bundle::empty(), current_height)
    }

    /// Writing back the record an account already has changes nothing.
    proof fn lemma_rewrite_same(&self, account: AccountId)
        ensures
            self@ == with_record(self@, account, self.record(account)),
    {
        assert(self@ =~= with_record(self@, account, self.record(account)));
    }
}

} // verus!
