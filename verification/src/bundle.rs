//! Building and measuring bundles.

use crate::types::{Bundle, Field, FieldKind, FieldView};
use vstd::prelude::*;

verus! {

/// The number of payload bytes of all fields together.
pub open spec fn total_bytes(bundle: Seq<FieldView>) -> nat
    decreases bundle.len(),
{
    if bundle.len() == 0 {
        0
    } else {
        total_bytes(bundle.drop_last()) + bundle.last().payload.len()
    }
}

impl Field {
    /// A field with the given tag and payload.
    pub fn new(kind: FieldKind, payload: Vec<u8>) -> (field: Field)
        ensures
            field@ == (FieldView { kind, payload: payload@ }),
    {
        Field { kind, payload }
    }

    /// The number of payload bytes.
    pub fn size(&self) -> (n: usize)
        ensures
            n == self@.payload.len(),
    {
        self.payload.len()
    }
}

impl Bundle {
    /// The bundle holding exactly `fields`, in order.
    pub fn new(fields: Vec<Field>) -> (bundle: Bundle)
        ensures
            bundle@ == fields@.map_values(|f: Field| f@),
    {
        Bundle { fields }
    }

    /// The bundle without fields: committing it clears a commitment.
    pub fn empty() -> (bundle: Bundle)
        ensures
            bundle@ == Seq::<FieldView>::empty(),
    {
        let bundle = Bundle { fields: Vec::new() };
        assert(bundle@ =~= Seq::<FieldView>::empty());
        bundle
    }

    /// The number of fields.
    pub fn len(&self) -> (n: usize)
        ensures
            n == self@.len(),
    {
        self.fields.len()
    }

    /// Whether the bundle holds no field.
    pub fn is_empty(&self) -> (b: bool)
        ensures
            b <==> self@.len() == 0,
    {
        self.fields.len() == 0
    }

    /// The total number of payload bytes.
    pub fn payload_bytes(&self) -> (total: u128)
        ensures
            total == total_bytes(self@),
    {
        let n: usize = self.fields.len();
        let mut total: u128 = 0;
        let mut i: usize = 0;
        while i < n
            invariant
                n == self.fields.len(),
                i <= n,
                total == total_bytes(self@.take(i as int)),
                total <= i * usize::MAX,
            decreases n - i,
        {
            let size: usize = self.fields[i].payload.len();
            proof {
                assert(self@.take(i + 1).drop_last() =~= self@.take(i as int));
                assert(self@.take(i + 1).last() == self.fields@[i as int]@);
                assert((i + 1) * usize::MAX <= u128::MAX) by (nonlinear_arith)
                    requires
                        i < usize::MAX,
                        usize::MAX <= 0xffff_ffff_ffff_ffff,
                ;
                assert(i * usize::MAX + usize::MAX == (i + 1) * usize::MAX) by (nonlinear_arith);
            }
            total = total + size as u128;
            i = i + 1;
        }
        assert(self@.take(n as int) =~= self@);
        total
    }
}

} // verus!
