//! Signature analysis: classifying one formal parameter into a
//! payload field, and scanning a parameter list for the first
//! parameter that cannot be classified.

use vstd::prelude::*;

use crate::artifact::{ParamDescView, ParameterDescription};
use crate::model::{ParamPattern, Parameter, RefTarget, TypeExpr};

verus! {

/// What analyzing one parameter yields: a field description for a
/// plainly named parameter of a plain or referenced named type, and
/// nothing for every other shape (receiver out of place, destructuring
/// or anonymous pattern, compound type, reference to a non-named
/// type).
pub open spec fn spec_parse_method_arg(arg: Parameter) -> Option<ParamDescView> {
    match arg {
        Parameter::Typed { pat: ParamPattern::Name(n), ty: TypeExpr::Named(t) } => Some(
            ParamDescView { name: n@, ty_name: t@, by_reference: false },
        ),
        Parameter::Typed {
            pat: ParamPattern::Name(n),
            ty: TypeExpr::Reference(RefTarget::Named(t)),
        } => Some(ParamDescView { name: n@, ty_name: t@, by_reference: true }),
        _ => None,
    }
}

/// Classifies one non-receiver parameter.  `None` means the parameter
/// is unsupported and the whole generation pass must fail.
pub fn parse_method_arg(arg: &Parameter) -> (r: Option<ParameterDescription>)
    ensures
        match r {
            Some(p) => spec_parse_method_arg(*arg) == Some(p@),
            None => spec_parse_method_arg(*arg) is None,
        },
{
    match arg {
        Parameter::Typed { pat: ParamPattern::Name(n), ty: TypeExpr::Named(t) } => Some(
            ParameterDescription { name: n.clone(), ty_name: t.clone(), by_reference: false },
        ),
        Parameter::Typed {
            pat: ParamPattern::Name(n),
            ty: TypeExpr::Reference(RefTarget::Named(t)),
        } => Some(ParameterDescription { name: n.clone(), ty_name: t.clone(), by_reference: true }),
        _ => None,
    }
}

/// The position of the first parameter at or after position `k` that
/// cannot be classified, if any.
pub open spec fn first_bad_arg_from(ps: Seq<Parameter>, k: int) -> Option<int>
    decreases ps.len() - k,
{
    if k < 0 || k >= ps.len() {
        None
    } else if spec_parse_method_arg(ps[k]) is None {
        Some(k)
    } else {
        first_bad_arg_from(ps, k + 1)
    }
}

/// The field descriptions of the parameters from position `k` on, in
/// order, assuming each of them classifies.
pub open spec fn spec_args_from(ps: Seq<Parameter>, k: int) -> Seq<ParamDescView>
    decreases ps.len() - k,
{
    if k < 0 || k >= ps.len() {
        Seq::empty()
    } else {
        seq![spec_parse_method_arg(ps[k])->Some_0] + spec_args_from(ps, k + 1)
    }
}

/// Length and contents of [`spec_args_from`].
pub proof fn lemma_args_from(ps: Seq<Parameter>, k: int)
    requires
        0 <= k <= ps.len(),
    ensures
        spec_args_from(ps, k).len() == ps.len() - k,
        forall|j: int|
            k <= j < ps.len() ==> spec_args_from(ps, k)[j - k] == spec_parse_method_arg(ps[j])->Some_0,
    decreases ps.len() - k,
{
    if k < ps.len() {
        lemma_args_from(ps, k + 1);
    }
}

/// When some parameter at or after position `k` does not classify,
/// the scan flags one.
pub proof fn lemma_bad_arg_found(ps: Seq<Parameter>, k: int, j: int)
    requires
        0 <= k <= j < ps.len(),
        spec_parse_method_arg(ps[j]) is None,
    ensures
        first_bad_arg_from(ps, k) is Some,
    decreases j - k,
{
    if k < j && spec_parse_method_arg(ps[k]) is Some {
        lemma_bad_arg_found(ps, k + 1, j);
    }
}

} // verus!
