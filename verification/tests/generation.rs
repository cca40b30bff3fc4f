//! End-to-end tests of the generation pass on concrete interface
//! descriptions.

use rpc_client_gen::artifact::{
    GeneratedArtifact, GenerationError, PayloadShape, ResponseShape, ValueType,
};
use rpc_client_gen::generate::rpc_client;
use rpc_client_gen::model::{
    Directive, InterfaceDescription, MethodDescription, ParamPattern, Parameter, RefTarget,
    SourceItem, TypeExpr,
};

fn by_value(name: &str, ty: &str) -> Parameter {
    Parameter::Typed {
        pat: ParamPattern::Name(name.to_owned()),
        ty: TypeExpr::Named(ty.to_owned()),
    }
}

fn by_reference(name: &str, ty: &str) -> Parameter {
    Parameter::Typed {
        pat: ParamPattern::Name(name.to_owned()),
        ty: TypeExpr::Reference(RefTarget::Named(ty.to_owned())),
    }
}

fn method(name: &str, params: Vec<Parameter>, ret_ty: Option<TypeExpr>, attrs: Vec<Directive>) -> MethodDescription {
    let mut all = vec![Parameter::Receiver];
    all.extend(params);
    MethodDescription { name: name.to_owned(), params: all, ret_ty, attrs }
}

fn interface(name: &str, methods: Vec<MethodDescription>) -> SourceItem {
    SourceItem::Interface(InterfaceDescription { name: name.to_owned(), methods })
}

fn generate(item: &SourceItem) -> GeneratedArtifact {
    rpc_client(item).expect("generation was expected to succeed")
}

#[test]
fn empty_interface_yields_accessor_only() {
    let artifact = generate(&interface("Unit", vec![]));
    assert_eq!(artifact.trait_name, "Unit");
    assert_eq!(artifact.carrier_name, "UnitClient");
    assert_eq!(artifact.accessor_name, "get_rpc_client");
    assert!(artifact.methods.is_empty());
}

#[test]
fn no_argument_method_has_unit_payload() {
    let artifact = generate(&interface("Svc", vec![method("ping", vec![], None, vec![])]));
    assert_eq!(artifact.methods.len(), 1);
    let m = &artifact.methods[0];
    assert_eq!(m.name, "ping");
    assert_eq!(m.wire_name, "ping");
    assert_eq!(m.payload, PayloadShape::Empty);
    assert_eq!(m.response, ResponseShape::Direct(ValueType::Unit));
    assert_eq!(m.ret_ty, ValueType::Unit);
}

#[test]
fn two_value_parameters_form_record_in_order() {
    let artifact = generate(&interface(
        "Svc",
        vec![method(
            "add",
            vec![by_value("a", "Int"), by_value("b", "Str")],
            Some(TypeExpr::Named("Int".to_owned())),
            vec![],
        )],
    ));
    let m = &artifact.methods[0];
    match &m.payload {
        PayloadShape::Record { fields, needs_borrow } => {
            assert!(!needs_borrow);
            assert_eq!(fields.len(), 2);
            assert_eq!(fields[0].name, "a");
            assert_eq!(fields[0].ty_name, "Int");
            assert!(!fields[0].by_reference);
            assert_eq!(fields[1].name, "b");
            assert_eq!(fields[1].ty_name, "Str");
            assert!(!fields[1].by_reference);
        }
        other => panic!("expected a record payload, got {other:?}"),
    }
    assert_eq!(m.ret_ty, ValueType::Named("Int".to_owned()));
    assert_eq!(m.response, ResponseShape::Direct(ValueType::Named("Int".to_owned())));
}

#[test]
fn reference_parameter_needs_borrow() {
    let artifact = generate(&interface(
        "Svc",
        vec![method("touch", vec![by_reference("a", "Foo")], None, vec![])],
    ));
    match &artifact.methods[0].payload {
        PayloadShape::Record { fields, needs_borrow } => {
            assert!(needs_borrow);
            assert_eq!(fields.len(), 1);
            assert_eq!(fields[0].name, "a");
            assert_eq!(fields[0].ty_name, "Foo");
            assert!(fields[0].by_reference);
        }
        other => panic!("expected a record payload, got {other:?}"),
    }
}

#[test]
fn mixed_parameters_still_need_borrow() {
    let artifact = generate(&interface(
        "Svc",
        vec![method(
            "mix",
            vec![by_value("a", "Int"), by_reference("b", "Foo")],
            None,
            vec![],
        )],
    ));
    match &artifact.methods[0].payload {
        PayloadShape::Record { needs_borrow, .. } => assert!(needs_borrow),
        other => panic!("expected a record payload, got {other:?}"),
    }
}

#[test]
fn wire_name_override_keeps_method_name() {
    let artifact = generate(&interface(
        "Svc",
        vec![method(
            "ping",
            vec![],
            None,
            vec![Directive::WireName("ping2".to_owned())],
        )],
    ));
    let m = &artifact.methods[0];
    assert_eq!(m.name, "ping");
    assert_eq!(m.wire_name, "ping2");
}

#[test]
fn result_extraction_wraps_and_projects() {
    let artifact = generate(&interface(
        "Svc",
        vec![method(
            "get",
            vec![],
            Some(TypeExpr::Named("Int".to_owned())),
            vec![Directive::ResultField("value".to_owned())],
        )],
    ));
    let m = &artifact.methods[0];
    assert_eq!(
        m.response,
        ResponseShape::Extracted {
            field_name: "value".to_owned(),
            field_type: ValueType::Named("Int".to_owned()),
        },
    );
    assert_eq!(m.ret_ty, ValueType::Named("Int".to_owned()));
}

#[test]
fn extraction_without_return_type_wraps_unit() {
    let artifact = generate(&interface(
        "Svc",
        vec![method(
            "fire",
            vec![],
            None,
            vec![Directive::ResultField("value".to_owned())],
        )],
    ));
    assert_eq!(
        artifact.methods[0].response,
        ResponseShape::Extracted { field_name: "value".to_owned(), field_type: ValueType::Unit },
    );
}

#[test]
fn both_directives_are_independent() {
    let artifact = generate(&interface(
        "Svc",
        vec![method(
            "ping",
            vec![],
            Some(TypeExpr::Named("Status".to_owned())),
            vec![
                Directive::ResultField("value".to_owned()),
                Directive::WireName("ping2".to_owned()),
            ],
        )],
    ));
    let m = &artifact.methods[0];
    assert_eq!(m.wire_name, "ping2");
    assert_eq!(
        m.response,
        ResponseShape::Extracted {
            field_name: "value".to_owned(),
            field_type: ValueType::Named("Status".to_owned()),
        },
    );
}

#[test]
fn reserved_method_name_fails_whole_interface() {
    let r = rpc_client(&interface(
        "Svc",
        vec![
            method("fine", vec![], None, vec![]),
            method("get_rpc_client", vec![], None, vec![]),
        ],
    ));
    assert_eq!(r, Err(GenerationError::ReservedNameCollision));
}

#[test]
fn destructured_parameter_is_unsupported() {
    let bad = Parameter::Typed {
        pat: ParamPattern::Other,
        ty: TypeExpr::Named("Point".to_owned()),
    };
    let r = rpc_client(&interface("Svc", vec![method("plot", vec![bad], None, vec![])]));
    assert_eq!(
        r,
        Err(GenerationError::UnsupportedParameterShape {
            method: "plot".to_owned(),
            param_index: 1,
        }),
    );
}

#[test]
fn reference_to_reference_is_unsupported() {
    let bad = Parameter::Typed {
        pat: ParamPattern::Name("a".to_owned()),
        ty: TypeExpr::Reference(RefTarget::Other),
    };
    let r = rpc_client(&interface("Svc", vec![method("deep", vec![bad], None, vec![])]));
    assert_eq!(
        r,
        Err(GenerationError::UnsupportedParameterShape {
            method: "deep".to_owned(),
            param_index: 1,
        }),
    );
}

#[test]
fn second_bad_parameter_reports_its_position() {
    let bad = Parameter::Typed { pat: ParamPattern::Other, ty: TypeExpr::Other };
    let r = rpc_client(&interface(
        "Svc",
        vec![method("plot", vec![by_value("a", "Int"), bad], None, vec![])],
    ));
    assert_eq!(
        r,
        Err(GenerationError::UnsupportedParameterShape {
            method: "plot".to_owned(),
            param_index: 2,
        }),
    );
}

#[test]
fn unsupported_return_type_is_rejected() {
    let r = rpc_client(&interface(
        "Svc",
        vec![method(
            "bad",
            vec![],
            Some(TypeExpr::Reference(RefTarget::Named("Foo".to_owned()))),
            vec![],
        )],
    ));
    assert_eq!(r, Err(GenerationError::UnsupportedReturnShape { method: "bad".to_owned() }));
}

#[test]
fn unrecognized_directive_is_malformed() {
    let r = rpc_client(&interface(
        "Svc",
        vec![method("odd", vec![], None, vec![Directive::Unrecognized])],
    ));
    assert_eq!(r, Err(GenerationError::MalformedAnnotation { method: "odd".to_owned() }));
}

#[test]
fn duplicate_directive_is_malformed() {
    let r = rpc_client(&interface(
        "Svc",
        vec![method(
            "odd",
            vec![],
            None,
            vec![
                Directive::WireName("a".to_owned()),
                Directive::WireName("b".to_owned()),
            ],
        )],
    ));
    assert_eq!(r, Err(GenerationError::MalformedAnnotation { method: "odd".to_owned() }));
}

#[test]
fn non_interface_item_is_rejected() {
    assert_eq!(rpc_client(&SourceItem::Other), Err(GenerationError::InvalidAttachmentPoint));
}

#[test]
fn one_bad_method_aborts_every_method() {
    let bad = Parameter::Typed { pat: ParamPattern::Other, ty: TypeExpr::Other };
    let r = rpc_client(&interface(
        "Svc",
        vec![
            method("fine", vec![by_value("a", "Int")], None, vec![]),
            method("broken", vec![bad], None, vec![]),
        ],
    ));
    assert!(r.is_err());
}

#[test]
fn generation_is_deterministic() {
    let item = interface(
        "Svc",
        vec![
            method("ping", vec![], None, vec![Directive::WireName("ping2".to_owned())]),
            method(
                "get",
                vec![by_value("k", "Key"), by_reference("v", "Val")],
                Some(TypeExpr::Named("Int".to_owned())),
                vec![Directive::ResultField("value".to_owned())],
            ),
        ],
    );
    let first = rpc_client(&item);
    let second = rpc_client(&item);
    assert_eq!(first, second);
}
