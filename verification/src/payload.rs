//! Payload synthesis: bundling a method's analyzed non-receiver
//! parameters into the shape of the argument payload.

use vstd::prelude::*;

use crate::artifact::{ParamDescView, ParameterDescription, PayloadShape, PayloadView};

verus! {

/// The payload shape of a field list: no fields means no payload (the
/// unit value goes on the wire), otherwise a record keeping the fields
/// in order, which needs a borrow scope exactly when some field is
/// by-reference.
pub open spec fn spec_payload(fields: Seq<ParamDescView>) -> PayloadView {
    if fields.len() == 0 {
        PayloadView::Empty
    } else {
        PayloadView::Record {
            fields,
            needs_borrow: exists|j: int| 0 <= j < fields.len() && fields[j].by_reference,
        }
    }
}

/// Builds the payload shape for a method's analyzed parameters, in
/// declaration order.
pub fn synthesize_payload(fields: Vec<ParameterDescription>) -> (r: PayloadShape)
    ensures
        r@ == spec_payload(fields@.map_values(|p: ParameterDescription| p@)),
{
    if fields.len() == 0 {
        return PayloadShape::Empty;
    }
    let mut needs_borrow = false;
    let mut i: usize = 0;
    while i < fields.len()
        invariant
            i <= fields.len(),
            needs_borrow == exists|j: int| 0 <= j < i && fields@[j].by_reference,
        decreases fields.len() - i,
    {
        if fields[i].by_reference {
            needs_borrow = true;
        }
        i = i + 1;
    }
    proof {
        let m = fields@.map_values(|p: ParameterDescription| p@);
        assert(forall|j: int| 0 <= j < m.len() ==> #[trigger] m[j].by_reference == fields@[j].by_reference);
        if needs_borrow {
            let j = choose|j: int| 0 <= j < fields@.len() && fields@[j].by_reference;
            assert(m[j].by_reference);
        }
        if exists|j: int| 0 <= j < m.len() && m[j].by_reference {
            let j = choose|j: int| 0 <= j < m.len() && m[j].by_reference;
            assert(fields@[j].by_reference);
        }
    }
    PayloadShape::Record { fields, needs_borrow }
}

} // verus!
