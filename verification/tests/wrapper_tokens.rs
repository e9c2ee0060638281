use proc_macro2::TokenStream;
use swift_bridge_ir::catalog::{BuiltInType, ConversionRule, TypeCatalog};
use swift_bridge_ir::fn_arg::FnArg;
use swift_bridge_ir::ident::Identifier;
use swift_bridge_ir::parsed_extern_fn::ParsedExternFn;
use swift_bridge_ir::path::Path;
use swift_bridge_ir::types::TypeExpr;

fn ident(word: &str) -> Identifier {
    Identifier::new(word).unwrap()
}

fn named(word: &str) -> TypeExpr {
    TypeExpr::Path(ident(word))
}

fn reference(elem: TypeExpr) -> TypeExpr {
    TypeExpr::Reference { mutable: false, elem: Box::new(elem) }
}

fn slice(elem: TypeExpr) -> TypeExpr {
    TypeExpr::Slice(Box::new(elem))
}

fn typed(name: &str, ty: TypeExpr) -> FnArg {
    FnArg::Typed { name: ident(name), ty }
}

fn bridge_call(names: &[&str]) -> ConversionRule {
    ConversionRule::Call(names.iter().map(|name| ident(name)).collect())
}

fn method(name: &str) -> ConversionRule {
    ConversionRule::Method(ident(name))
}

fn built_in(ty: TypeExpr, to_ffi: ConversionRule, to_native: ConversionRule) -> BuiltInType {
    BuiltInType { ty, to_ffi, to_native }
}

/// The catalog of the bridge: `u8`, `&str` and `&[u8]` are built in, `Foo` is
/// the one declared opaque type.
fn catalog() -> TypeCatalog {
    TypeCatalog {
        built_ins: vec![
            built_in(named("u8"), ConversionRule::Passthrough, ConversionRule::Passthrough),
            built_in(
                reference(named("str")),
                bridge_call(&["string", "RustStr", "from_str"]),
                method("to_str"),
            ),
            built_in(
                reference(slice(named("u8"))),
                bridge_call(&["RustSlice", "from_slice"]),
                method("as_slice"),
            ),
        ],
        opaque_types: vec![ident("Foo")],
    }
}

fn swift_bridge_path() -> Path {
    Path { leading_colon: false, segments: vec![ident("swift_bridge")] }
}

fn on_foo(
    name: &str,
    is_initializer: bool,
    inputs: Vec<FnArg>,
    output: Option<TypeExpr>,
) -> ParsedExternFn {
    ParsedExternFn {
        name: ident(name),
        associated_type: Some(ident("Foo")),
        is_initializer,
        inputs,
        output,
    }
}

fn assert_tokens_eq(left: &TokenStream, right: &str) {
    let right: TokenStream = right.parse().unwrap();
    assert_eq!(left.to_string(), right.to_string());
}

fn assert_impl_fn_tokens_eq(function: ParsedExternFn, expected_impl_fn_tokens: &str) {
    let tokens = function.to_impl_fn_calls_swift(&swift_bridge_path(), &catalog()).unwrap();
    assert_tokens_eq(&tokens, expected_impl_fn_tokens);
}

/// Verify that we generate a Rust associated function that calls a Swift static class method.
#[test]
fn static_class_method() {
    let start = on_foo("message", false, vec![typed("val", named("u8"))], None);
    let expected = "
        pub fn message (val: u8) {
            unsafe { __swift_bridge__Foo_message(val) }
        }
    ";

    assert_impl_fn_tokens_eq(start, expected);
}

/// Verify that we generate a Rust associated function for a Swift class init function.
#[test]
fn class_initializer() {
    let start = on_foo("new", true, vec![], Some(named("Foo")));
    let expected = "
        pub fn new () -> Foo {
            Foo( unsafe { __swift_bridge__Foo_new() } )
        }
    ";

    assert_impl_fn_tokens_eq(start, expected);
}

/// Verify that we convert RustSlice<T> -> &[T]
#[test]
fn converts_slice() {
    let start = on_foo(
        "as_slice",
        false,
        vec![FnArg::Receiver { reference: true, mutable: false }],
        Some(reference(slice(named("u8")))),
    );
    let expected = "
        pub fn as_slice (&self) -> &[u8] {
            unsafe { __swift_bridge__Foo_as_slice(self.0) }.as_slice()
        }
    ";

    assert_impl_fn_tokens_eq(start, expected);
}

/// Verify that we can call a Swift method with a &str and have it return an &str.
/// This verifies that our type conversions are being inserted for Swift methods.
#[test]
fn call_with_str_arg_and_return_str() {
    let start = on_foo(
        "some_function",
        false,
        vec![
            FnArg::Receiver { reference: true, mutable: false },
            typed("arg", reference(named("str"))),
        ],
        Some(reference(named("str"))),
    );
    let expected = "
        pub fn some_function (&self, arg: &str) -> &str {
            unsafe {
                __swift_bridge__Foo_some_function(
                    self.0,
                    swift_bridge::string::RustStr::from_str(arg)
                )
            }.to_str()
        }
    ";

    assert_impl_fn_tokens_eq(start, expected);
}

/// An initializer that declares no return type still returns its type.
#[test]
fn initializer_without_return_type_wraps_the_handle() {
    let start = on_foo("new", true, vec![], None);
    let expected = "
        pub fn new () {
            Foo( unsafe { __swift_bridge__Foo_new() } )
        }
    ";

    assert_impl_fn_tokens_eq(start, expected);
}

#[test]
fn initializer_with_built_in_return_type_converts_it() {
    let start = on_foo("count", true, vec![], Some(named("u8")));
    let expected = "
        pub fn count () -> u8 {
            unsafe { __swift_bridge__Foo_count() }
        }
    ";

    assert_impl_fn_tokens_eq(start, expected);
}

#[test]
fn receiver_by_reference_loses_its_type() {
    let start = on_foo("touch", false, vec![typed("self", reference(named("Foo")))], None);
    let expected = "
        pub fn touch (&self) {
            unsafe { __swift_bridge__Foo_touch(self.0) }
        }
    ";

    assert_impl_fn_tokens_eq(start, expected);
}

#[test]
fn receiver_by_mutable_reference_loses_its_type() {
    let start = on_foo(
        "reset",
        false,
        vec![typed(
            "self",
            TypeExpr::Reference { mutable: true, elem: Box::new(named("Foo")) },
        )],
        None,
    );
    let expected = "
        pub fn reset (&mut self) {
            unsafe { __swift_bridge__Foo_reset(self.0) }
        }
    ";

    assert_impl_fn_tokens_eq(start, expected);
}

#[test]
fn receiver_by_value_loses_its_type() {
    let start = on_foo("consume", false, vec![typed("self", named("Foo"))], None);
    let expected = "
        pub fn consume (self) {
            unsafe { __swift_bridge__Foo_consume(self.0) }
        }
    ";

    assert_impl_fn_tokens_eq(start, expected);
}

#[test]
fn bare_receivers_stay_as_they_are() {
    for (reference, mutable, spelled) in [
        (false, false, "self"),
        (false, true, "mut self"),
        (true, false, "&self"),
        (true, true, "&mut self"),
    ] {
        let start = on_foo("poke", false, vec![FnArg::Receiver { reference, mutable }], None);
        let expected = format!(
            "pub fn poke ({}) {{ unsafe {{ __swift_bridge__Foo_poke(self.0) }} }}",
            spelled
        );

        assert_impl_fn_tokens_eq(start, &expected);
    }
}

/// Without a receiver there is no handle before the converted argument.
#[test]
fn static_function_with_one_string_argument() {
    let start = on_foo("greet", false, vec![typed("name", reference(named("str")))], None);
    let expected = "
        pub fn greet (name: &str) {
            unsafe { __swift_bridge__Foo_greet(swift_bridge::string::RustStr::from_str(name)) }
        }
    ";

    assert_impl_fn_tokens_eq(start, expected);
}

/// A parameter that refers to the declaring type without being named `self`
/// is an ordinary parameter.
#[test]
fn opaque_parameters_pass_unchanged() {
    let start = on_foo(
        "merge",
        false,
        vec![
            typed("other", named("Foo")),
            typed("_foo", reference(named("Foo"))),
            typed(
                "last",
                TypeExpr::Reference { mutable: true, elem: Box::new(named("Foo")) },
            ),
        ],
        None,
    );
    let expected = "
        pub fn merge (other: Foo, _foo: &Foo, last: &mut Foo) {
            unsafe { __swift_bridge__Foo_merge(other, _foo, last) }
        }
    ";

    assert_impl_fn_tokens_eq(start, expected);
}

#[test]
fn opaque_return_type_wraps_the_handle() {
    let start = on_foo(
        "duplicate",
        false,
        vec![FnArg::Receiver { reference: true, mutable: false }],
        Some(named("Foo")),
    );
    let expected = "
        pub fn duplicate (&self) -> Foo {
            Foo( unsafe { __swift_bridge__Foo_duplicate(self.0) } )
        }
    ";

    assert_impl_fn_tokens_eq(start, expected);
}

#[test]
fn slice_argument_is_converted() {
    let start = on_foo(
        "write",
        false,
        vec![
            FnArg::Receiver { reference: true, mutable: true },
            typed("bytes", reference(slice(named("u8")))),
            typed("count", named("u8")),
        ],
        Some(named("u8")),
    );
    let expected = "
        pub fn write (&mut self, bytes: &[u8], count: u8) -> u8 {
            unsafe {
                __swift_bridge__Foo_write(
                    self.0,
                    swift_bridge::RustSlice::from_slice(bytes),
                    count
                )
            }
        }
    ";

    assert_impl_fn_tokens_eq(start, expected);
}

#[test]
fn generic_and_mutable_types_are_spelled_out() {
    let optional = TypeExpr::Generic { name: ident("Option"), arg: Box::new(named("u8")) };
    let mutable_slice =
        TypeExpr::Reference { mutable: true, elem: Box::new(slice(named("u8"))) };
    let catalog = TypeCatalog {
        built_ins: vec![
            built_in(
                TypeExpr::Generic { name: ident("Option"), arg: Box::new(named("u8")) },
                bridge_call(&["option", "OptionU8", "from_option"]),
                method("to_option"),
            ),
            built_in(
                TypeExpr::Reference { mutable: true, elem: Box::new(slice(named("u8"))) },
                ConversionRule::Passthrough,
                ConversionRule::Passthrough,
            ),
        ],
        opaque_types: vec![],
    };
    let start = on_foo(
        "pick",
        false,
        vec![typed("from", mutable_slice), typed("or", optional.clone())],
        Some(optional),
    );
    let tokens = start.to_impl_fn_calls_swift(&swift_bridge_path(), &catalog).unwrap();

    assert_tokens_eq(
        &tokens,
        "
        pub fn pick (from: &mut [u8], or: Option<u8>) -> Option<u8> {
            unsafe {
                __swift_bridge__Foo_pick(
                    from,
                    swift_bridge::option::OptionU8::from_option(or)
                )
            }.to_option()
        }
        ",
    );
}

#[test]
fn bridge_path_is_used_as_given() {
    let start = on_foo("greet", false, vec![typed("name", reference(named("str")))], None);
    let path = Path { leading_colon: true, segments: vec![ident("deps"), ident("bridge")] };
    let tokens = start.to_impl_fn_calls_swift(&path, &catalog()).unwrap();

    assert_tokens_eq(
        &tokens,
        "
        pub fn greet (name: &str) {
            unsafe { __swift_bridge__Foo_greet(::deps::bridge::string::RustStr::from_str(name)) }
        }
        ",
    );
}

#[test]
fn linked_symbol_is_prefix_type_underscore_function() {
    let function = on_foo("as_slice", false, vec![], None);
    assert_eq!(function.extern_swift_linked_fn_new().as_str(), "__swift_bridge__Foo_as_slice");

    let function = ParsedExternFn {
        name: ident("_x1"),
        associated_type: Some(ident("_")),
        is_initializer: false,
        inputs: vec![],
        output: None,
    };
    assert_eq!(function.extern_swift_linked_fn_new().as_str(), "__swift_bridge_____x1");
}

#[test]
fn synthesis_is_repeatable() {
    let first = on_foo(
        "some_function",
        false,
        vec![typed("self", reference(named("Foo"))), typed("arg", reference(named("str")))],
        Some(reference(named("str"))),
    );
    let a = first.to_impl_fn_calls_swift(&swift_bridge_path(), &catalog()).unwrap();
    let b = first.to_impl_fn_calls_swift(&swift_bridge_path(), &catalog()).unwrap();

    assert_eq!(a.to_string(), b.to_string());
}

/// The tokens are the same whether the wrapper is built first and spelled
/// later, or both are done at once.
#[test]
fn tokens_are_those_of_the_wrapper() {
    let function = on_foo(
        "as_slice",
        false,
        vec![FnArg::Receiver { reference: true, mutable: false }],
        Some(reference(slice(named("u8")))),
    );
    let wrapper = function.synthesize(&swift_bridge_path(), &catalog()).unwrap();
    let direct = function.to_impl_fn_calls_swift(&swift_bridge_path(), &catalog()).unwrap();

    assert_eq!(wrapper.into_token_stream().to_string(), direct.to_string());

    let mut stream: TokenStream = "before".parse().unwrap();
    wrapper.to_tokens(&mut stream);
    assert_eq!(stream.to_string(), format!("before {}", direct));
}

#[test]
fn tokens_have_the_expected_shape() {
    let function = on_foo("message", false, vec![typed("val", named("u8"))], None);
    let tokens = function.to_impl_fn_calls_swift(&swift_bridge_path(), &catalog()).unwrap();
    let trees: Vec<proc_macro2::TokenTree> = tokens.into_iter().collect();

    assert_eq!(trees.len(), 5);
    assert!(matches!(&trees[0], proc_macro2::TokenTree::Ident(word) if word == "pub"));
    assert!(matches!(&trees[1], proc_macro2::TokenTree::Ident(word) if word == "fn"));
    assert!(matches!(&trees[2], proc_macro2::TokenTree::Ident(word) if word == "message"));
    match &trees[3] {
        proc_macro2::TokenTree::Group(group) => {
            assert_eq!(group.delimiter(), proc_macro2::Delimiter::Parenthesis);
            let inner: Vec<proc_macro2::TokenTree> = group.stream().into_iter().collect();
            assert_eq!(inner.len(), 3);
            match &inner[1] {
                proc_macro2::TokenTree::Punct(punct) => {
                    assert_eq!(punct.as_char(), ':');
                    assert_eq!(punct.spacing(), proc_macro2::Spacing::Alone);
                }
                other => panic!("expected a colon, found {}", other),
            }
        }
        other => panic!("expected the parameters, found {}", other),
    }
    match &trees[4] {
        proc_macro2::TokenTree::Group(group) => {
            assert_eq!(group.delimiter(), proc_macro2::Delimiter::Brace);
        }
        other => panic!("expected the body, found {}", other),
    }
}

#[test]
fn path_separator_is_joint_then_alone() {
    let path = Path { leading_colon: false, segments: vec![ident("a"), ident("b")] };
    let mut stream = TokenStream::new();
    path.to_tokens(&mut stream);
    let trees: Vec<proc_macro2::TokenTree> = stream.into_iter().collect();

    assert_eq!(trees.len(), 4);
    match (&trees[1], &trees[2]) {
        (proc_macro2::TokenTree::Punct(first), proc_macro2::TokenTree::Punct(second)) => {
            assert_eq!(first.as_char(), ':');
            assert_eq!(first.spacing(), proc_macro2::Spacing::Joint);
            assert_eq!(second.as_char(), ':');
            assert_eq!(second.spacing(), proc_macro2::Spacing::Alone);
        }
        _ => panic!("expected two colons"),
    }
}
