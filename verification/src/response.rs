//! Response synthesis: classifying a method's declared return type and
//! deciding what the transport must deserialize a reply into.

use vstd::prelude::*;

use crate::artifact::{
    MethodAnnotation, ResponseShape, ResponseView, ValueType, ValueTypeView,
};
use crate::model::TypeExpr;

verus! {

/// The value type of a declared return type: no declared type means
/// unit, a plain named type stands for itself, and every other shape
/// (a reference, a compound type) is unsupported.
pub open spec fn spec_classify_return(ret_ty: Option<TypeExpr>) -> Option<ValueTypeView> {
    match ret_ty {
        None => Some(ValueTypeView::Unit),
        Some(TypeExpr::Named(t)) => Some(ValueTypeView::Named(t@)),
        Some(_) => None,
    }
}

/// Classifies a declared return type.  `None` means the return type is
/// unsupported and the whole generation pass must fail.
pub fn classify_return(ret_ty: &Option<TypeExpr>) -> (r: Option<ValueType>)
    ensures
        match r {
            Some(t) => spec_classify_return(*ret_ty) == Some(t@),
            None => spec_classify_return(*ret_ty) is None,
        },
{
    match ret_ty {
        None => Some(ValueType::Unit),
        Some(TypeExpr::Named(t)) => Some(ValueType::Named(t.clone())),
        Some(_) => None,
    }
}

/// The response shape of a method: without an extraction field the
/// transport deserializes straight into the method's value type; with
/// one it deserializes into a one-field wrapper named after the field,
/// and the generated body projects that field out.
pub open spec fn spec_response(ret_ty: ValueTypeView, result_field: Option<Seq<char>>) -> ResponseView {
    match result_field {
        Some(f) => ResponseView::Extracted { field_name: f, field_type: ret_ty },
        None => ResponseView::Direct(ret_ty),
    }
}

/// Builds the response shape for a method from its value type and its
/// resolved annotation.
pub fn synthesize_response(ret_ty: &ValueType, annotation: &MethodAnnotation) -> (r: ResponseShape)
    ensures
        r@ == spec_response(ret_ty@, annotation@.result_field),
{
    match &annotation.result_field {
        Some(f) => ResponseShape::Extracted { field_name: f.clone(), field_type: ret_ty.dup() },
        None => ResponseShape::Direct(ret_ty.dup()),
    }
}

} // verus!
