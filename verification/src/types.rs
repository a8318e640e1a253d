//! Plain data shared by every component: identifiers, fields, bundles,
//! configuration, records, errors and events, each with its mathematical view.

use vstd::prelude::*;

verus! {

/// Identifies an account of the host ledger.
pub type AccountId = u64;

/// An amount of the host ledger's currency.
pub type Balance = u64;

/// A block height of the host ledger's clock.
pub type Height = u64;

/// The semantic tag of a field. The payload is opaque to this crate; the tag
/// only tells readers how to interpret it.
#[derive(Clone, Copy, Debug, PartialEq, Eq, Structural)]
pub enum FieldKind {
    Raw,
    Text,
    Structured,
}

/// One field of a bundle: a tag and an opaque payload.
#[derive(Debug, PartialEq, Eq)]
pub struct Field {
    pub kind: FieldKind,
    pub payload: Vec<u8>,
}

/// The mathematical value of a [`Field`].
pub ghost struct FieldView {
    pub kind: FieldKind,
    pub payload: Seq<u8>,
}

impl View for Field {
    type V = FieldView;

    open spec fn view(&self) -> FieldView {
        FieldView { kind: self.kind, payload: self.payload@ }
    }
}

/// An ordered sequence of fields, published as a whole.
#[derive(Debug, PartialEq, Eq)]
pub struct Bundle {
    pub fields: Vec<Field>,
}

impl View for Bundle {
    type V = Seq<FieldView>;

    open spec fn view(&self) -> Seq<FieldView> {
        self.fields@.map_values(|f: Field| f@)
    }
}

impl Clone for Field {
    fn clone(&self) -> (copy: Field)
        ensures
            copy@ == self@,
    {
        let payload = self.payload.clone();
        assert(payload@ =~= self.payload@);
        Field { kind: self.kind, payload }
    }
}

impl Clone for Bundle {
    fn clone(&self) -> (copy: Bundle)
        ensures
            copy@ == self@,
    {
        let n: usize = self.fields.len();
        let mut fields: Vec<Field> = Vec::new();
        let mut i: usize = 0;
        while i < n
            invariant
                n == self.fields.len(),
                i <= n,
                fields.len() == i,
                forall|j: int| 0 <= j < i ==> (#[trigger] fields@[j])@ == self.fields@[j]@,
            decreases n - i,
        {
            fields.push(self.fields[i].clone());
            i = i + 1;
        }
        let copy = Bundle { fields };
        assert(copy@ =~= self@);
        copy
    }
}

/// What the per-unit deposit is multiplied by.
#[derive(Clone, Copy, Debug, PartialEq, Eq, Structural)]
pub enum SizeMetric {
    /// The number of fields in the bundle.
    FieldCount,
    /// The total number of payload bytes in the bundle.
    PayloadBytes,
}

/// The configuration surface, fixed when a store is created.
#[derive(Clone, Copy, Debug, PartialEq, Eq, Structural)]
pub struct Config {
    /// Largest number of fields a bundle may hold; positive.
    pub max_fields: usize,
    /// Largest payload, in bytes, of a single field.
    pub max_field_bytes: usize,
    /// Largest total payload, in bytes, of a bundle.
    pub max_bundle_bytes: usize,
    /// Deposit charged per unit of the size metric.
    pub field_deposit: Balance,
    /// Deposit charged for holding any non-empty bundle.
    pub initial_deposit: Balance,
    /// Minimum height difference between two commits of one account; 0 turns
    /// rate limiting off.
    pub rate_limit: Height,
    /// The unit that `field_deposit` is charged for.
    pub metric: SizeMetric,
}

impl Config {
    /// A configuration is well formed when it admits at least one field.
    pub open spec fn wf(&self) -> bool {
        self.max_fields > 0
    }

    /// Builds a configuration, refusing one that admits no field at all.
    pub fn new(
        max_fields: usize,
        max_field_bytes: usize,
        max_bundle_bytes: usize,
        field_deposit: Balance,
        initial_deposit: Balance,
        rate_limit: Height,
        metric: SizeMetric,
    ) -> (res: Option<Config>)
        ensures
            res is Some <==> max_fields > 0,
            res is Some ==> res->0.wf() && res->0 == (Config {
                max_fields,
                max_field_bytes,
                max_bundle_bytes,
                field_deposit,
                initial_deposit,
                rate_limit,
                metric,
            }),
    {
        if max_fields == 0 {
            None
        } else {
            Some(
                Config {
                    max_fields,
                    max_field_bytes,
                    max_bundle_bytes,
                    field_deposit,
                    initial_deposit,
                    rate_limit,
                    metric,
                },
            )
        }
    }
}

/// Why a commit attempt was rejected.
#[derive(Clone, Copy, Debug, PartialEq, Eq, Structural)]
pub enum ErrorKind {
    /// The authorization gate denied the account.
    Unauthorized,
    /// The account committed too recently; `retry_after` is the first height
    /// at which it is eligible again.
    RateLimited { retry_after: Height },
    /// The bundle holds more fields than the configuration admits.
    TooManyFields,
    /// Some field's payload is longer than the per-field limit.
    FieldTooLarge,
    /// The payloads together are longer than the aggregate limit.
    BundleTooLarge,
    /// The account cannot cover the additional deposit.
    InsufficientBalance,
}

/// What the host's log is told about a successful commit or clear.
#[derive(Clone, Copy, Debug, PartialEq, Eq, Structural)]
pub struct Event {
    pub account: AccountId,
    pub field_count: usize,
    pub reserved_deposit: Balance,
    pub height: Height,
}

/// The state kept for an account that holds a commitment.
#[derive(Debug, PartialEq, Eq)]
pub struct CommitmentRecord {
    pub bundle: Bundle,
    pub reserved_deposit: Balance,
    pub last_commit_height: Height,
}

/// The mathematical value of a [`CommitmentRecord`].
pub ghost struct RecordView {
    pub bundle: Seq<FieldView>,
    pub reserved_deposit: Balance,
    pub last_commit_height: Height,
}

impl View for CommitmentRecord {
    type V = RecordView;

    open spec fn view(&self) -> RecordView {
        RecordView {
            bundle: self.bundle@,
            reserved_deposit: self.reserved_deposit,
            last_commit_height: self.last_commit_height,
        }
    }
}

impl Clone for CommitmentRecord {
    fn clone(&self) -> (copy: CommitmentRecord)
        ensures
            copy@ == self@,
    {
        CommitmentRecord {
            bundle: self.bundle.clone(),
            reserved_deposit: self.reserved_deposit,
            last_commit_height: self.last_commit_height,
        }
    }
}

/// What a commit asks of the currency ledger.
#[derive(Clone, Copy, Debug, PartialEq, Eq, Structural)]
pub enum LedgerAction {
    /// The deposit does not change.
    Nothing,
    /// Move this much from the account's free balance into its reserve.
    Reserve(Balance),
    /// Move this much from the account's reserve back to its free balance.
    Release(Balance),
}

} // verus!
