//! The generation pass itself: per-method analysis and assembly of the
//! whole artifact.  The pass is all-or-nothing: any failure on any
//! method aborts it with a diagnostic, and no partial artifact is ever
//! produced.

use vstd::prelude::*;
use vstd::string::StringExecFns;

use crate::analyze::{
    first_bad_arg_from, lemma_args_from, parse_method_arg, spec_args_from, spec_parse_method_arg,
};
use crate::annotations::{resolve_annotations, spec_resolve};
use crate::artifact::{
    AnnotationView, ArtifactView, ErrorView, GeneratedArtifact, GeneratedMethod, GenerationError,
    MethodArtifactView, ParameterDescription, reserved_name, spec_client_suffix,
    spec_reserved_name,
};
use crate::model::{InterfaceDescription, MethodDescription, SourceItem};
use crate::payload::{spec_payload, synthesize_payload};
use crate::response::{classify_return, spec_classify_return, spec_response, synthesize_response};

verus! {

/// The wire name of a method: its annotation's override when present,
/// else its declared name.
pub open spec fn spec_wire_name(m: MethodDescription, ann: AnnotationView) -> Seq<char> {
    match ann.name {
        Some(w) => w,
        None => m.name@,
    }
}

/// What one method generates: its artifact, or the first failure found
/// while looking at its annotation, its return type and its parameters,
/// in that order.
pub open spec fn spec_method(m: MethodDescription) -> Result<MethodArtifactView, ErrorView> {
    match spec_resolve(m.attrs@) {
        None => Err(ErrorView::MalformedAnnotation { method: m.name@ }),
        Some(ann) => match spec_classify_return(m.ret_ty) {
            None => Err(ErrorView::UnsupportedReturnShape { method: m.name@ }),
            Some(rt) => match first_bad_arg_from(m.params@, 1) {
                Some(j) => Err(
                    ErrorView::UnsupportedParameterShape { method: m.name@, param_index: j },
                ),
                None => Ok(
                    MethodArtifactView {
                        name: m.name@,
                        wire_name: spec_wire_name(m, ann),
                        payload: spec_payload(spec_args_from(m.params@, 1)),
                        response: spec_response(rt, ann.result_field),
                        ret_ty: rt,
                    },
                ),
            },
        },
    }
}

/// What the methods from position `k` on generate: their artifacts in
/// order, or the first failure among them.
pub open spec fn spec_methods_from(ms: Seq<MethodDescription>, k: int) -> Result<
    Seq<MethodArtifactView>,
    ErrorView,
>
    decreases ms.len() - k,
{
    if k < 0 || k >= ms.len() {
        Ok(Seq::empty())
    } else {
        match spec_method(ms[k]) {
            Err(e) => Err(e),
            Ok(g) => match spec_methods_from(ms, k + 1) {
                Err(e) => Err(e),
                Ok(rest) => Ok(seq![g] + rest),
            },
        }
    }
}

/// Length and contents of [`spec_methods_from`] when every method from
/// position `k` on generates.
pub proof fn lemma_methods_from_ok(ms: Seq<MethodDescription>, k: int)
    requires
        0 <= k <= ms.len(),
        forall|j: int| k <= j < ms.len() ==> spec_method(ms[j]) is Ok,
    ensures
        spec_methods_from(ms, k) is Ok,
        spec_methods_from(ms, k)->Ok_0.len() == ms.len() - k,
        forall|j: int|
            k <= j < ms.len() ==> spec_methods_from(ms, k)->Ok_0[j - k] == spec_method(ms[j])->Ok_0,
    decreases ms.len() - k,
{
    if k < ms.len() {
        lemma_methods_from_ok(ms, k + 1);
        let rest = spec_methods_from(ms, k + 1)->Ok_0;
        assert(spec_methods_from(ms, k)->Ok_0 == seq![spec_method(ms[k])->Ok_0] + rest);
        assert forall|j: int|
            k <= j < ms.len() implies spec_methods_from(ms, k)->Ok_0[j - k] == spec_method(
            ms[j],
        )->Ok_0 by {
            if j > k {
                assert(spec_methods_from(ms, k)->Ok_0[j - k] == rest[j - k - 1]);
            }
        }
    }
}

/// When the methods before position `i` generate and the one at `i`
/// fails, the whole run from position `k` fails with that failure.
pub proof fn lemma_methods_from_err(ms: Seq<MethodDescription>, k: int, i: int)
    requires
        0 <= k <= i < ms.len(),
        forall|j: int| k <= j < i ==> spec_method(ms[j]) is Ok,
        spec_method(ms[i]) is Err,
    ensures
        spec_methods_from(ms, k) == Err::<Seq<MethodArtifactView>, ErrorView>(
            spec_method(ms[i])->Err_0,
        ),
    decreases i - k,
{
    if k < i {
        lemma_methods_from_err(ms, k + 1, i);
    }
}

/// What a whole interface generates.  A method carrying the reserved
/// accessor name fails the pass before any per-method work; otherwise
/// the methods are analyzed in order and the artifact is assembled
/// around them.
pub open spec fn spec_generate(d: InterfaceDescription) -> Result<ArtifactView, ErrorView> {
    if exists|j: int| 0 <= j < d.methods@.len() && d.methods@[j].name@ == spec_reserved_name() {
        Err(ErrorView::ReservedNameCollision)
    } else {
        match spec_methods_from(d.methods@, 0) {
            Err(e) => Err(e),
            Ok(ms) => Ok(
                ArtifactView {
                    trait_name: d.name@,
                    carrier_name: d.name@ + spec_client_suffix(),
                    accessor_name: spec_reserved_name(),
                    methods: ms,
                },
            ),
        }
    }
}

/// What the generator yields for an arbitrary item: generation on an
/// interface, rejection of everything else.
pub open spec fn spec_rpc_client(item: SourceItem) -> Result<ArtifactView, ErrorView> {
    match item {
        SourceItem::Interface(d) => spec_generate(d),
        SourceItem::Other => Err(ErrorView::InvalidAttachmentPoint),
    }
}

/// Whether some method of the interface carries the reserved accessor
/// name.
fn has_reserved_method(methods: &Vec<MethodDescription>) -> (b: bool)
    ensures
        b == exists|j: int| 0 <= j < methods@.len() && methods@[j].name@ == spec_reserved_name(),
{
    let reserved = reserved_name();
    let mut i: usize = 0;
    while i < methods.len()
        invariant
            i <= methods.len(),
            reserved@ == spec_reserved_name(),
            forall|j: int| 0 <= j < i ==> methods@[j].name@ != spec_reserved_name(),
        decreases methods.len() - i,
    {
        if methods[i].name == reserved {
            return true;
        }
        i = i + 1;
    }
    false
}

/// Analyzes one method and builds its generated artifact: the resolved
/// wire name, the payload shape of its non-receiver parameters, and
/// the response shape of its return type.  Fails with the first
/// failure among its annotation, its return type and its parameters.
pub fn method_artifact(m: &MethodDescription) -> (r: Result<GeneratedMethod, GenerationError>)
    ensures
        match r {
            Ok(g) => spec_method(*m) == Ok::<MethodArtifactView, ErrorView>(g@),
            Err(e) => spec_method(*m) == Err::<MethodArtifactView, ErrorView>(e@),
        },
{
    let ann = match resolve_annotations(&m.attrs) {
        Some(a) => a,
        None => {
            return Err(GenerationError::MalformedAnnotation { method: m.name.clone() });
        },
    };
    let rt = match classify_return(&m.ret_ty) {
        Some(t) => t,
        None => {
            return Err(GenerationError::UnsupportedReturnShape { method: m.name.clone() });
        },
    };
    let mut fields: Vec<ParameterDescription> = Vec::new();
    let mut i: usize = 1;
    while i < m.params.len()
        invariant
            1 <= i,
            i <= m.params@.len() || i == 1,
            spec_resolve(m.attrs@) == Some(ann@),
            spec_classify_return(m.ret_ty) == Some(rt@),
            first_bad_arg_from(m.params@, 1) == first_bad_arg_from(m.params@, i as int),
            fields@.len() == i - 1,
            forall|j: int| 1 <= j < i ==> spec_parse_method_arg(m.params@[j]) is Some,
            forall|j: int|
                1 <= j < i ==> #[trigger] fields@[j - 1]@ == spec_parse_method_arg(
                    m.params@[j],
                )->Some_0,
        decreases m.params@.len() - i,
    {
        match parse_method_arg(&m.params[i]) {
            Some(p) => {
                fields.push(p);
            },
            None => {
                proof {
                    assert(first_bad_arg_from(m.params@, i as int) == Some(i as int));
                }
                return Err(
                    GenerationError::UnsupportedParameterShape {
                        method: m.name.clone(),
                        param_index: i,
                    },
                );
            },
        }
        i = i + 1;
    }
    proof {
        let ps = m.params@;
        let mapped = fields@.map_values(|p: ParameterDescription| p@);
        if ps.len() >= 1 {
            lemma_args_from(ps, 1);
            assert forall|j2: int| 0 <= j2 < mapped.len() implies mapped[j2] == spec_args_from(
                ps,
                1,
            )[j2] by {
                assert(fields@[j2]@ == spec_parse_method_arg(ps[j2 + 1])->Some_0);
                assert(spec_args_from(ps, 1)[j2] == spec_parse_method_arg(ps[j2 + 1])->Some_0);
            }
            assert(mapped =~= spec_args_from(ps, 1));
        } else {
            assert(mapped =~= spec_args_from(ps, 1));
        }
    }
    let payload = synthesize_payload(fields);
    let response = synthesize_response(&rt, &ann);
    let wire_name = match &ann.name {
        Some(s) => s.clone(),
        None => m.name.clone(),
    };
    Ok(
        GeneratedMethod {
            name: m.name.clone(),
            wire_name,
            payload,
            response,
            ret_ty: rt,
        },
    )
}

/// Runs the whole generation pass on the item the generator was
/// pointed at.  On an interface whose methods all pass analysis, the
/// result is the full artifact: the trait named after the interface,
/// the carrier type named after it with the client suffix, the
/// reserved accessor, and one generated method per interface method in
/// declaration order.  Otherwise the pass fails with the error the
/// specification assigns to the input, and yields nothing.
pub fn rpc_client(item: &SourceItem) -> (r: Result<GeneratedArtifact, GenerationError>)
    ensures
        match r {
            Ok(artifact) => spec_rpc_client(*item) == Ok::<ArtifactView, ErrorView>(artifact@),
            Err(e) => spec_rpc_client(*item) == Err::<ArtifactView, ErrorView>(e@),
        },
{
    let d = match item {
        SourceItem::Interface(d) => d,
        SourceItem::Other => {
            return Err(GenerationError::InvalidAttachmentPoint);
        },
    };
    if has_reserved_method(&d.methods) {
        return Err(GenerationError::ReservedNameCollision);
    }
    let mut methods: Vec<GeneratedMethod> = Vec::new();
    let mut i: usize = 0;
    while i < d.methods.len()
        invariant
            i <= d.methods@.len(),
            methods@.len() == i,
            spec_rpc_client(*item) == spec_generate(*d),
            !(exists|j: int|
                0 <= j < d.methods@.len() && d.methods@[j].name@ == spec_reserved_name()),
            forall|j: int| 0 <= j < i ==> spec_method(d.methods@[j]) is Ok,
            forall|j: int|
                0 <= j < i ==> #[trigger] methods@[j]@ == spec_method(d.methods@[j])->Ok_0,
        decreases d.methods@.len() - i,
    {
        match method_artifact(&d.methods[i]) {
            Ok(g) => {
                methods.push(g);
            },
            Err(e) => {
                proof {
                    lemma_methods_from_err(d.methods@, 0, i as int);
                }
                return Err(e);
            },
        }
        i = i + 1;
    }
    proof {
        lemma_methods_from_ok(d.methods@, 0);
        let gm = methods@.map_values(|g: GeneratedMethod| g@);
        assert forall|j: int| 0 <= j < gm.len() implies gm[j] == spec_methods_from(
            d.methods@,
            0,
        )->Ok_0[j] by {
            assert(methods@[j]@ == spec_method(d.methods@[j])->Ok_0);
        }
        assert(gm =~= spec_methods_from(d.methods@, 0)->Ok_0);
    }
    let trait_name = d.name.clone();
    let carrier_name = d.name.clone().concat("Client");
    let accessor_name = reserved_name();
    Ok(GeneratedArtifact { trait_name, carrier_name, accessor_name, methods })
}

} // verus!
