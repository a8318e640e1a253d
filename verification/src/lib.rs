//! A commitment ledger: each account may publish one bundle of tagged byte
//! fields, backed by a refundable deposit and throttled by a minimum interval
//! between publications.
//!
//! - `types`, `bundle`: the data and its mathematical views.
//! - `gate`, `rate_limit`, `validator`, `deposit`: the four checks a commit
//!   passes, each usable on its own.
//! - `ledger`: the currency ledger as a capability, and one kept in memory.
//! - `model`: the pure model of one commit attempt.
//! - `store`: the per-account records and the entry points that change them,
//!   specified by the model.
//! - `laws`: what follows for every attempt and for sequences of attempts.

pub mod bundle;
pub mod deposit;
pub mod gate;
pub mod laws;
pub mod ledger;
pub mod model;
pub mod rate_limit;
pub mod store;
pub mod types;
pub mod validator;
