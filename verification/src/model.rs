//! The input side of the generator: a structured picture of the
//! interface the client is generated for.  The host front end has
//! already tokenized the source; what arrives here is names, type
//! shapes and directives as plain values.

use vstd::prelude::*;

verus! {

/// What a reference type points at.  Only a reference to a plain named
/// type can be carried in a payload; a reference to anything else
/// (another reference, a compound type) is unsupported.
#[derive(Debug, Clone, PartialEq, Eq)]
pub enum RefTarget {
    Named(String),
    Other,
}

/// The declared type of a parameter or of a return value, reduced to
/// the three shapes the generator distinguishes: a plain named type, a
/// reference, or anything else.
#[derive(Debug, Clone, PartialEq, Eq)]
pub enum TypeExpr {
    Named(String),
    Reference(RefTarget),
    Other,
}

/// The binding pattern of a formal parameter: a plain name, or some
/// other pattern (destructuring, anonymous), which is unsupported.
#[derive(Debug, Clone, PartialEq, Eq)]
pub enum ParamPattern {
    Name(String),
    Other,
}

/// One formal parameter of a method: the implicit receiver, or a
/// pattern with a declared type.
#[derive(Debug, Clone, PartialEq, Eq)]
pub enum Parameter {
    Receiver,
    Typed { pat: ParamPattern, ty: TypeExpr },
}

/// One directive attached to a method: a wire-name override, a
/// result-extraction field, or something the front end did not
/// recognize (which makes the whole annotation malformed).
#[derive(Debug, Clone, PartialEq, Eq)]
pub enum Directive {
    WireName(String),
    ResultField(String),
    Unrecognized,
}

/// One remote-callable method: its declared name, its full parameter
/// list (the first entry is the implicit receiver and never joins the
/// payload), its declared return type (`None` means no value), and its
/// directives in source order.
#[derive(Debug, Clone, PartialEq, Eq)]
pub struct MethodDescription {
    pub name: String,
    pub params: Vec<Parameter>,
    pub ret_ty: Option<TypeExpr>,
    pub attrs: Vec<Directive>,
}

/// The whole interface: its name and its methods in declaration order.
#[derive(Debug, Clone, PartialEq, Eq)]
pub struct InterfaceDescription {
    pub name: String,
    pub methods: Vec<MethodDescription>,
}

/// The item the generator was pointed at.  Generation only makes sense
/// on an interface; anything else is rejected outright.
#[derive(Debug, Clone, PartialEq, Eq)]
pub enum SourceItem {
    Interface(InterfaceDescription),
    Other,
}

} // verus!
