//! The output side of the generator: the analyzed shapes and the
//! assembled artifact, together with their mathematical views.  Every
//! contract in the crate speaks about these views, so an artifact is
//! pinned down field by field.

use vstd::prelude::*;

verus! {

/// One analyzed non-receiver parameter: its name, the name of its base
/// type (for a reference, the referenced type), and whether it was
/// passed by reference.
#[derive(Debug, Clone, PartialEq, Eq)]
pub struct ParameterDescription {
    pub name: String,
    pub ty_name: String,
    pub by_reference: bool,
}

/// Mathematical view of [`ParameterDescription`].
pub struct ParamDescView {
    pub name: Seq<char>,
    pub ty_name: Seq<char>,
    pub by_reference: bool,
}

impl View for ParameterDescription {
    type V = ParamDescView;

    open spec fn view(&self) -> ParamDescView {
        ParamDescView { name: self.name@, ty_name: self.ty_name@, by_reference: self.by_reference }
    }
}

/// The resolved directives of one method: an optional wire-name
/// override and an optional result-extraction field.
#[derive(Debug, Clone, PartialEq, Eq)]
pub struct MethodAnnotation {
    pub name: Option<String>,
    pub result_field: Option<String>,
}

/// Mathematical view of [`MethodAnnotation`].
pub struct AnnotationView {
    pub name: Option<Seq<char>>,
    pub result_field: Option<Seq<char>>,
}

impl View for MethodAnnotation {
    type V = AnnotationView;

    open spec fn view(&self) -> AnnotationView {
        AnnotationView {
            name: match self.name {
                Some(s) => Some(s@),
                None => None,
            },
            result_field: match self.result_field {
                Some(s) => Some(s@),
                None => None,
            },
        }
    }
}

/// A value type as it appears in generated code: the unit type (a
/// method without a declared return type) or a plain named type.
#[derive(Debug, Clone, PartialEq, Eq)]
pub enum ValueType {
    Unit,
    Named(String),
}

/// Mathematical view of [`ValueType`].
pub enum ValueTypeView {
    Unit,
    Named(Seq<char>),
}

impl View for ValueType {
    type V = ValueTypeView;

    open spec fn view(&self) -> ValueTypeView {
        match self {
            ValueType::Unit => ValueTypeView::Unit,
            ValueType::Named(s) => ValueTypeView::Named(s@),
        }
    }
}

impl ValueType {
    /// A copy whose view equals this value's.
    pub fn dup(&self) -> (r: ValueType)
        ensures
            r@ == self@,
    {
        match self {
            ValueType::Unit => ValueType::Unit,
            ValueType::Named(s) => ValueType::Named(s.clone()),
        }
    }
}

/// The shape of a method's argument payload: no payload at all (the
/// unit value goes on the wire, no record type is emitted), or a record
/// bundling every non-receiver parameter in declaration order.
/// `needs_borrow` says whether the record must carry a borrow-scope
/// parameter, which is the case exactly when some field is
/// by-reference.
#[derive(Debug, Clone, PartialEq, Eq)]
pub enum PayloadShape {
    Empty,
    Record { fields: Vec<ParameterDescription>, needs_borrow: bool },
}

/// Mathematical view of [`PayloadShape`].
pub enum PayloadView {
    Empty,
    Record { fields: Seq<ParamDescView>, needs_borrow: bool },
}

impl View for PayloadShape {
    type V = PayloadView;

    open spec fn view(&self) -> PayloadView {
        match self {
            PayloadShape::Empty => PayloadView::Empty,
            PayloadShape::Record { fields, needs_borrow } => PayloadView::Record {
                fields: fields@.map_values(|p: ParameterDescription| p@),
                needs_borrow: *needs_borrow,
            },
        }
    }
}

/// The type the transport must deserialize a reply into: the method's
/// own value type, or a one-field wrapper whose single field is
/// projected out by the generated body.
#[derive(Debug, Clone, PartialEq, Eq)]
pub enum ResponseShape {
    Direct(ValueType),
    Extracted { field_name: String, field_type: ValueType },
}

/// Mathematical view of [`ResponseShape`].
pub enum ResponseView {
    Direct(ValueTypeView),
    Extracted { field_name: Seq<char>, field_type: ValueTypeView },
}

impl View for ResponseShape {
    type V = ResponseView;

    open spec fn view(&self) -> ResponseView {
        match self {
            ResponseShape::Direct(t) => ResponseView::Direct(t@),
            ResponseShape::Extracted { field_name, field_type } => ResponseView::Extracted {
                field_name: field_name@,
                field_type: field_type@,
            },
        }
    }
}

/// Everything the emitter needs for one generated method: the method
/// name kept in the trait, the wire name handed to the transport, the
/// payload and response shapes, and the declared value type returned to
/// the caller.
#[derive(Debug, Clone, PartialEq, Eq)]
pub struct GeneratedMethod {
    pub name: String,
    pub wire_name: String,
    pub payload: PayloadShape,
    pub response: ResponseShape,
    pub ret_ty: ValueType,
}

/// Mathematical view of [`GeneratedMethod`].
pub struct MethodArtifactView {
    pub name: Seq<char>,
    pub wire_name: Seq<char>,
    pub payload: PayloadView,
    pub response: ResponseView,
    pub ret_ty: ValueTypeView,
}

impl View for GeneratedMethod {
    type V = MethodArtifactView;

    open spec fn view(&self) -> MethodArtifactView {
        MethodArtifactView {
            name: self.name@,
            wire_name: self.wire_name@,
            payload: self.payload@,
            response: self.response@,
            ret_ty: self.ret_ty@,
        }
    }
}

/// The assembled output: the generated trait's name, the carrier
/// type's name (the trait name with a fixed suffix), the reserved
/// accessor method every generated trait carries, and the methods in
/// declaration order.
#[derive(Debug, Clone, PartialEq, Eq)]
pub struct GeneratedArtifact {
    pub trait_name: String,
    pub carrier_name: String,
    pub accessor_name: String,
    pub methods: Vec<GeneratedMethod>,
}

/// Mathematical view of [`GeneratedArtifact`].
pub struct ArtifactView {
    pub trait_name: Seq<char>,
    pub carrier_name: Seq<char>,
    pub accessor_name: Seq<char>,
    pub methods: Seq<MethodArtifactView>,
}

impl View for GeneratedArtifact {
    type V = ArtifactView;

    open spec fn view(&self) -> ArtifactView {
        ArtifactView {
            trait_name: self.trait_name@,
            carrier_name: self.carrier_name@,
            accessor_name: self.accessor_name@,
            methods: self.methods@.map_values(|m: GeneratedMethod| m@),
        }
    }
}

/// Why a generation pass failed.  All of these abort the whole pass:
/// no partial artifact is ever produced.
#[derive(Debug, Clone, PartialEq, Eq)]
pub enum GenerationError {
    /// A parameter's pattern or type could not be classified.
    /// `param_index` is the parameter's position in the method's full
    /// parameter list (the receiver counts as position zero).
    UnsupportedParameterShape { method: String, param_index: usize },
    /// A declared return type is not a plain named type.
    UnsupportedReturnShape { method: String },
    /// A method's directives are duplicated or unrecognized.
    MalformedAnnotation { method: String },
    /// A method reuses the reserved transport-accessor name.
    ReservedNameCollision,
    /// The generator was pointed at something that is not an interface.
    InvalidAttachmentPoint,
}

/// Mathematical view of [`GenerationError`].
pub enum ErrorView {
    UnsupportedParameterShape { method: Seq<char>, param_index: int },
    UnsupportedReturnShape { method: Seq<char> },
    MalformedAnnotation { method: Seq<char> },
    ReservedNameCollision,
    InvalidAttachmentPoint,
}

impl View for GenerationError {
    type V = ErrorView;

    open spec fn view(&self) -> ErrorView {
        match self {
            GenerationError::UnsupportedParameterShape { method, param_index } =>
                ErrorView::UnsupportedParameterShape { method: method@, param_index: *param_index as int },
            GenerationError::UnsupportedReturnShape { method } =>
                ErrorView::UnsupportedReturnShape { method: method@ },
            GenerationError::MalformedAnnotation { method } =>
                ErrorView::MalformedAnnotation { method: method@ },
            GenerationError::ReservedNameCollision => ErrorView::ReservedNameCollision,
            GenerationError::InvalidAttachmentPoint => ErrorView::InvalidAttachmentPoint,
        }
    }
}

/// The reserved name of the transport accessor in every generated
/// trait.  No interface method may use it.
pub open spec fn spec_reserved_name() -> Seq<char> {
    "get_rpc_client"@
}

/// The suffix appended to the interface name to form the carrier
/// type's name.
pub open spec fn spec_client_suffix() -> Seq<char> {
    "Client"@
}

/// The reserved accessor name as an executable string.
pub fn reserved_name() -> (r: String)
    ensures
        r@ == spec_reserved_name(),
{
    "get_rpc_client".to_owned()
}

} // verus!
