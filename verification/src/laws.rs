//! Properties of the generation pass, stated once for every input and
//! proved from the specification the executable functions are held to.

use vstd::prelude::*;

use crate::analyze::{
    lemma_args_from, lemma_bad_arg_found, spec_args_from, spec_parse_method_arg,
};
use crate::annotations::spec_resolve;
use crate::artifact::{
    AnnotationView, ArtifactView, ErrorView, PayloadView, ResponseView, spec_client_suffix,
    spec_reserved_name,
};
use crate::generate::{spec_generate, spec_method, spec_rpc_client};
use crate::model::{InterfaceDescription, MethodDescription, ParamPattern, Parameter, SourceItem};
use crate::response::spec_classify_return;

verus! {

/// An interface without methods always generates, and yields exactly
/// the trait named after it (whose only method is then the reserved
/// accessor), the carrier type named with the client suffix, and no
/// generated methods.
pub proof fn lemma_empty_interface(d: InterfaceDescription)
    requires
        d.methods@.len() == 0,
    ensures
        (spec_generate(d) == Ok::<ArtifactView, ErrorView>(
            ArtifactView {
                trait_name: d.name@,
                carrier_name: d.name@ + spec_client_suffix(),
                accessor_name: spec_reserved_name(),
                methods: Seq::empty(),
            },
        )),
{
}

/// A method with no non-receiver parameters generates the empty
/// payload: the unit value goes on the wire and no record type is
/// emitted.
pub proof fn lemma_no_parameters_unit_payload(m: MethodDescription)
    requires
        spec_method(m) is Ok,
        m.params@.len() <= 1,
    ensures
        spec_method(m)->Ok_0.payload is Empty,
{
}

/// A method with non-receiver parameters generates a record payload
/// whose fields keep the parameters' names, base types and order, and
/// the record needs a borrow scope exactly when some parameter is
/// by-reference.
pub proof fn lemma_record_payload(m: MethodDescription)
    requires
        spec_method(m) is Ok,
        m.params@.len() > 1,
    ensures
        (spec_method(m)->Ok_0.payload matches PayloadView::Record { fields, needs_borrow } && {
            &&& fields.len() == m.params@.len() - 1
            &&& forall|j: int|
                1 <= j < m.params@.len() ==> fields[j - 1] == spec_parse_method_arg(
                    m.params@[j],
                )->Some_0
            &&& (needs_borrow <==> exists|j: int|
                1 <= j < m.params@.len() && spec_parse_method_arg(
                    m.params@[j],
                )->Some_0.by_reference)
        }),
{
    lemma_args_from(m.params@, 1);
    let fs = spec_args_from(m.params@, 1);
    if exists|j: int| 0 <= j < fs.len() && fs[j].by_reference {
        let j = choose|j: int| 0 <= j < fs.len() && fs[j].by_reference;
        assert(spec_parse_method_arg(m.params@[j + 1])->Some_0.by_reference);
    }
    if exists|j: int|
        1 <= j < m.params@.len() && spec_parse_method_arg(m.params@[j])->Some_0.by_reference {
        let j = choose|j: int|
            1 <= j < m.params@.len() && spec_parse_method_arg(m.params@[j])->Some_0.by_reference;
        assert(fs[j - 1].by_reference);
    }
}

/// The wire name is the annotation's override when one is present and
/// the declared name otherwise; the generated trait method keeps the
/// declared name in either case.
pub proof fn lemma_wire_name(m: MethodDescription, ann: AnnotationView)
    requires
        spec_method(m) is Ok,
        spec_resolve(m.attrs@) == Some(ann),
    ensures
        spec_method(m)->Ok_0.name == m.name@,
        ann.name matches Some(w) ==> spec_method(m)->Ok_0.wire_name == w,
        ann.name is None ==> spec_method(m)->Ok_0.wire_name == m.name@,
{
}

/// A result-extraction field makes the transport deserialize into a
/// one-field wrapper named after the field and typed by the declared
/// return type; the generated body projects that field out, so the
/// method still yields the declared type, not the wrapper.
pub proof fn lemma_result_extraction(m: MethodDescription, ann: AnnotationView)
    requires
        spec_method(m) is Ok,
        spec_resolve(m.attrs@) == Some(ann),
        ann.result_field is Some,
    ensures
        (spec_method(m)->Ok_0.response == ResponseView::Extracted {
            field_name: ann.result_field->Some_0,
            field_type: spec_method(m)->Ok_0.ret_ty,
        }),
{
}

/// Without a result-extraction field the transport deserializes
/// straight into the declared return type.
pub proof fn lemma_direct_response(m: MethodDescription, ann: AnnotationView)
    requires
        spec_method(m) is Ok,
        spec_resolve(m.attrs@) == Some(ann),
        ann.result_field is None,
    ensures
        spec_method(m)->Ok_0.response == ResponseView::Direct(spec_method(m)->Ok_0.ret_ty),
{
}

/// A method carrying the reserved accessor name fails the whole pass
/// with the reserved-name collision, whatever the other methods look
/// like: no artifact at all is produced, not even for them.
pub proof fn lemma_reserved_name_collision(d: InterfaceDescription)
    requires
        exists|j: int| 0 <= j < d.methods@.len() && d.methods@[j].name@ == spec_reserved_name(),
    ensures
        spec_generate(d) == Err::<ArtifactView, ErrorView>(ErrorView::ReservedNameCollision),
{
}

/// A parameter bound by anything but a plain name (a destructuring or
/// anonymous pattern) never classifies, so a method that is otherwise
/// in order fails with an unsupported-parameter error.
pub proof fn lemma_destructured_parameter_rejected(m: MethodDescription, j: int)
    requires
        spec_resolve(m.attrs@) is Some,
        spec_classify_return(m.ret_ty) is Some,
        1 <= j < m.params@.len(),
        m.params@[j] matches Parameter::Typed { pat: ParamPattern::Other, .. },
    ensures
        (spec_method(m) matches Err(e) && e is UnsupportedParameterShape),
{
    assert(spec_parse_method_arg(m.params@[j]) is None);
    lemma_bad_arg_found(m.params@, 1, j);
}

/// Generation is deterministic: the outcome is a function of the
/// interface description alone, so running the pass again on an
/// unchanged description yields an identical artifact (or the
/// identical error).
pub proof fn lemma_generation_deterministic(
    item: SourceItem,
    r1: Result<ArtifactView, ErrorView>,
    r2: Result<ArtifactView, ErrorView>,
)
    requires
        r1 == spec_rpc_client(item),
        r2 == spec_rpc_client(item),
    ensures
        r1 == r2,
{
}

} // verus!
