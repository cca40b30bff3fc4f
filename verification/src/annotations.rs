//! Resolving a method's directives into an annotation: at most one
//! wire-name override and at most one result-extraction field; a
//! duplicate or unrecognized directive makes the annotation malformed.

use vstd::prelude::*;

use crate::artifact::{AnnotationView, MethodAnnotation};
use crate::model::Directive;

verus! {

/// The annotation of a method without directives.
pub open spec fn spec_empty_annotation() -> AnnotationView {
    AnnotationView { name: None, result_field: None }
}

/// Folds one directive into an annotation resolved so far.  `None`
/// means the directive is a duplicate or unrecognized.
pub open spec fn spec_resolve_step(acc: AnnotationView, d: Directive) -> Option<AnnotationView> {
    match d {
        Directive::WireName(s) => if acc.name is Some {
            None
        } else {
            Some(AnnotationView { name: Some(s@), result_field: acc.result_field })
        },
        Directive::ResultField(s) => if acc.result_field is Some {
            None
        } else {
            Some(AnnotationView { name: acc.name, result_field: Some(s@) })
        },
        Directive::Unrecognized => None,
    }
}

/// Folds the directives from position `k` on into `acc`.
pub open spec fn spec_resolve_from(ds: Seq<Directive>, k: int, acc: AnnotationView) -> Option<
    AnnotationView,
>
    decreases ds.len() - k,
{
    if k < 0 || k >= ds.len() {
        Some(acc)
    } else {
        match spec_resolve_step(acc, ds[k]) {
            None => None,
            Some(acc2) => spec_resolve_from(ds, k + 1, acc2),
        }
    }
}

/// The annotation a directive list resolves to, or `None` when the
/// list is malformed.
pub open spec fn spec_resolve(ds: Seq<Directive>) -> Option<AnnotationView> {
    spec_resolve_from(ds, 0, spec_empty_annotation())
}

/// Resolves a method's directives.  `None` means the annotation is
/// malformed: a directive was unrecognized, or one of the two kinds
/// appeared twice.
pub fn resolve_annotations(attrs: &Vec<Directive>) -> (r: Option<MethodAnnotation>)
    ensures
        match r {
            Some(a) => spec_resolve(attrs@) == Some(a@),
            None => spec_resolve(attrs@) is None,
        },
{
    let mut acc = MethodAnnotation { name: None, result_field: None };
    let mut i: usize = 0;
    while i < attrs.len()
        invariant
            i <= attrs.len(),
            spec_resolve(attrs@) == spec_resolve_from(attrs@, i as int, acc@),
        decreases attrs.len() - i,
    {
        match &attrs[i] {
            Directive::WireName(s) => {
                if acc.name.is_some() {
                    return None;
                }
                acc.name = Some(s.clone());
            },
            Directive::ResultField(s) => {
                if acc.result_field.is_some() {
                    return None;
                }
                acc.result_field = Some(s.clone());
            },
            Directive::Unrecognized => {
                return None;
            },
        }
        i = i + 1;
    }
    Some(acc)
}

} // verus!
