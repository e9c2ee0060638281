use swift_bridge_ir::catalog::{BuiltInType, ConversionRule, TypeCatalog};
use swift_bridge_ir::error::{ErrorKind, Position, SynthesisError};
use swift_bridge_ir::fn_arg::FnArg;
use swift_bridge_ir::ident::Identifier;
use swift_bridge_ir::parsed_extern_fn::ParsedExternFn;
use swift_bridge_ir::path::Path;
use swift_bridge_ir::types::TypeExpr;

fn ident(word: &str) -> Identifier {
    Identifier::new(word).unwrap()
}

fn named(word: &str) -> TypeExpr {
    TypeExpr::Path(ident(word))
}

fn reference(elem: TypeExpr) -> TypeExpr {
    TypeExpr::Reference { mutable: false, elem: Box::new(elem) }
}

fn typed(name: &str, ty: TypeExpr) -> FnArg {
    FnArg::Typed { name: ident(name), ty }
}

fn catalog() -> TypeCatalog {
    TypeCatalog {
        built_ins: vec![BuiltInType {
            ty: named("u8"),
            to_ffi: ConversionRule::Passthrough,
            to_native: ConversionRule::Passthrough,
        }],
        opaque_types: vec![ident("Foo")],
    }
}

fn swift_bridge_path() -> Path {
    Path { leading_colon: false, segments: vec![ident("swift_bridge")] }
}

fn on_foo(name: &str, inputs: Vec<FnArg>, output: Option<TypeExpr>) -> ParsedExternFn {
    ParsedExternFn {
        name: ident(name),
        associated_type: Some(ident("Foo")),
        is_initializer: false,
        inputs,
        output,
    }
}

fn fault(function: &ParsedExternFn) -> SynthesisError {
    let from_tokens =
        function.to_impl_fn_calls_swift(&swift_bridge_path(), &catalog()).map(|_| ()).unwrap_err();
    let from_wrapper =
        function.synthesize(&swift_bridge_path(), &catalog()).map(|_| ()).unwrap_err();
    assert_eq!(from_tokens, from_wrapper);
    from_tokens
}

fn expected(kind: ErrorKind, function: &str, position: Position) -> SynthesisError {
    SynthesisError { kind, declaring_type: ident("Foo"), function: ident(function), position }
}

#[test]
fn receiver_of_an_unrelated_type_is_malformed() {
    let function = on_foo("touch", vec![typed("self", reference(named("Bar")))], None);

    assert_eq!(
        fault(&function),
        expected(ErrorKind::MalformedReceiver, "touch", Position::Parameter(0))
    );
}

#[test]
fn receiver_of_a_built_in_type_is_malformed() {
    let function = on_foo("touch", vec![typed("self", named("u8"))], None);

    assert_eq!(
        fault(&function),
        expected(ErrorKind::MalformedReceiver, "touch", Position::Parameter(0))
    );
}

#[test]
fn receiver_behind_two_references_is_malformed() {
    let function =
        on_foo("touch", vec![typed("self", reference(reference(named("Foo"))))], None);

    assert_eq!(
        fault(&function),
        expected(ErrorKind::MalformedReceiver, "touch", Position::Parameter(0))
    );
}

#[test]
fn receiver_of_a_slice_of_the_type_is_malformed() {
    let function = on_foo(
        "touch",
        vec![typed("self", reference(TypeExpr::Slice(Box::new(named("Foo")))))],
        None,
    );

    assert_eq!(
        fault(&function),
        expected(ErrorKind::MalformedReceiver, "touch", Position::Parameter(0))
    );
}

#[test]
fn unsupported_parameter_type_is_reported_with_its_index() {
    let function = on_foo(
        "send",
        vec![
            FnArg::Receiver { reference: true, mutable: false },
            typed("count", named("u8")),
            typed("what", named("Mystery")),
            typed("more", named("Enigma")),
        ],
        None,
    );

    assert_eq!(
        fault(&function),
        expected(ErrorKind::UnsupportedType, "send", Position::Parameter(2))
    );
}

#[test]
fn unsupported_return_type_is_reported() {
    let function = on_foo("fetch", vec![typed("count", named("u8"))], Some(named("Mystery")));

    assert_eq!(fault(&function), expected(ErrorKind::UnsupportedType, "fetch", Position::Return));
}

#[test]
fn reference_to_a_built_in_type_is_not_that_type() {
    let function = on_foo("fetch", vec![typed("count", reference(named("u8")))], None);

    assert_eq!(
        fault(&function),
        expected(ErrorKind::UnsupportedType, "fetch", Position::Parameter(0))
    );
}

#[test]
fn malformed_receiver_comes_before_any_unsupported_type() {
    let function = on_foo(
        "send",
        vec![typed("what", named("Mystery")), typed("self", named("Bar"))],
        Some(named("Enigma")),
    );

    assert_eq!(
        fault(&function),
        expected(ErrorKind::MalformedReceiver, "send", Position::Parameter(1))
    );
}

#[test]
fn unsupported_parameter_comes_before_unsupported_return() {
    let function = on_foo("send", vec![typed("what", named("Mystery"))], Some(named("Enigma")));

    assert_eq!(
        fault(&function),
        expected(ErrorKind::UnsupportedType, "send", Position::Parameter(0))
    );
}

#[test]
fn each_step_reports_its_own_fault() {
    let function = on_foo(
        "send",
        vec![typed("what", named("Mystery")), typed("self", named("Bar"))],
        Some(named("Enigma")),
    );

    assert_eq!(
        function.params_without_self_type_removd().unwrap_err(),
        expected(ErrorKind::MalformedReceiver, "send", Position::Parameter(1))
    );
    assert_eq!(
        function.to_call_rust_args(&swift_bridge_path(), &catalog()).unwrap_err(),
        expected(ErrorKind::UnsupportedType, "send", Position::Parameter(0))
    );
    assert_eq!(
        function
            .marshal_return(
                &swift_bridge_path(),
                &catalog(),
                swift_bridge_ir::expr::Expr::ReceiverHandle
            )
            .unwrap_err(),
        expected(ErrorKind::UnsupportedType, "send", Position::Return)
    );
    assert_eq!(
        function.error(ErrorKind::UnsupportedType, Position::Return),
        expected(ErrorKind::UnsupportedType, "send", Position::Return)
    );
}

#[test]
fn the_same_declaration_fails_the_same_way() {
    let function = on_foo("touch", vec![typed("self", reference(named("Bar")))], None);

    assert_eq!(fault(&function), fault(&function));
}

#[test]
fn empty_catalog_supports_no_type() {
    let function = on_foo("send", vec![typed("count", named("u8"))], None);
    let catalog = TypeCatalog { built_ins: vec![], opaque_types: vec![] };

    assert_eq!(
        function.synthesize(&swift_bridge_path(), &catalog).unwrap_err(),
        expected(ErrorKind::UnsupportedType, "send", Position::Parameter(0))
    );
}
