//! The field validator: structural limits a bundle must meet before it is
//! accepted. Validation is stateless and touches neither store nor ledger.

use crate::bundle::total_bytes;
use crate::types::{Bundle, Config, ErrorKind, FieldView};
use vstd::prelude::*;

verus! {

/// Whether some field's payload is longer than the per-field limit.
pub open spec fn has_oversized_field(config: Config, bundle: Seq<FieldView>) -> bool {
    exists|i: int| 0 <= i < bundle.len() && (#[trigger] bundle[i]).payload.len() > config.max_field_bytes
}

/// The first limit that `bundle` breaks, in the order in which the limits are
/// checked: field count, then each field's size, then the total size.
pub open spec fn validation_error(config: Config, bundle: Seq<FieldView>) -> Option<ErrorKind> {
    if bundle.len() > config.max_fields {
        Some(ErrorKind::TooManyFields)
    } else if has_oversized_field(config, bundle) {
        Some(ErrorKind::FieldTooLarge)
    } else if total_bytes(bundle) > config.max_bundle_bytes {
        Some(ErrorKind::BundleTooLarge)
    } else {
        None
    }
}

/// Whether `bundle` meets every limit of `config`.
pub open spec fn is_valid(config: Config, bundle: Seq<FieldView>) -> bool {
    validation_error(config, bundle) is None
}

/// Checks a bundle against the configured limits.
pub fn validate(config: &Config, bundle: &Bundle) -> (res: Result<(), ErrorKind>)
    ensures
        res == match validation_error(*config, bundle@) {
            Some(error) => Err::<(), ErrorKind>(error),
            None => Ok::<(), ErrorKind>(()),
        },
{
    let n: usize = bundle.fields.len();
    if n > config.max_fields {
        return Err(ErrorKind::TooManyFields);
    }
    let mut i: usize = 0;
    while i < n
        invariant
            n == bundle.fields.len(),
            n <= config.max_fields,
            i <= n,
            forall|j: int| 0 <= j < i ==> (#[trigger] bundle@[j]).payload.len() <= config.max_field_bytes,
        decreases n - i,
    {
        if bundle.fields[i].payload.len() > config.max_field_bytes {
            assert(bundle@[i as int].payload.len() > config.max_field_bytes);
            return Err(ErrorKind::FieldTooLarge);
        }
        i = i + 1;
    }
    if bundle.payload_bytes() > config.max_bundle_bytes as u128 {
        return Err(ErrorKind::BundleTooLarge);
    }
    Ok(())
}

} // verus!
