//! What holds of every declaration and its wrapper.

use crate::catalog::{BuiltInTypeView, TypeCatalogView, TypeClassView};
use crate::error::{ErrorKind, Position};
use crate::expr::ExprView;
use crate::fn_arg::{reference_to, FnArgView, ReceiverForm};
use crate::parsed_extern_fn::{argument_unsupported, call_argument, ParsedExternFnView};
use crate::path::PathView;
use crate::search::lemma_first_index;
use crate::tokens::{group, punct, Delimiter, Token};
use crate::types::TypeView;
use vstd::prelude::*;

verus! {

/// A declaration has a wrapper exactly when none of its parameters is a
/// malformed receiver, none has an unsupported type, and its return type is
/// not unsupported.
pub proof fn lemma_wrapper_exists(decl: ParsedExternFnView, catalog: TypeCatalogView)
    ensures
        decl.failure(catalog) is None <==> {
            &&& forall|i: int|
                0 <= i < decl.inputs.len() ==> (#[trigger] decl.inputs[i]).receiver_form(
                    decl.owner(),
                ) is Some
            &&& forall|i: int|
                0 <= i < decl.inputs.len() ==> !argument_unsupported(
                    #[trigger] decl.inputs[i],
                    catalog,
                )
            &&& !decl.return_unsupported(catalog)
        },
{
    lemma_first_index(
        decl.inputs,
        |arg: FnArgView| arg.receiver_form(decl.owner()) is None,
        0,
    );
    lemma_first_index(decl.inputs, |arg: FnArgView| argument_unsupported(arg, catalog), 0);
}

/// A fault is reported at the first place it occurs: a malformed receiver at
/// the first parameter that is one, before any unsupported type; an
/// unsupported parameter type at the first parameter that has one, before
/// the return type.
pub proof fn lemma_first_fault_reported(decl: ParsedExternFnView, catalog: TypeCatalogView, i: int)
    requires
        0 <= i < decl.inputs.len() <= usize::MAX,
    ensures
        decl.failure(catalog) == Some(
            decl.error(ErrorKind::MalformedReceiver, Position::Parameter(i as usize)),
        ) <==> {
            &&& decl.inputs[i].receiver_form(decl.owner()) is None
            &&& forall|j: int|
                0 <= j < i ==> (#[trigger] decl.inputs[j]).receiver_form(decl.owner()) is Some
        },
        decl.failure(catalog) == Some(
            decl.error(ErrorKind::UnsupportedType, Position::Parameter(i as usize)),
        ) <==> {
            &&& forall|j: int|
                0 <= j < decl.inputs.len() ==> (#[trigger] decl.inputs[j]).receiver_form(
                    decl.owner(),
                ) is Some
            &&& argument_unsupported(decl.inputs[i], catalog)
            &&& forall|j: int| 0 <= j < i ==> !argument_unsupported(#[trigger] decl.inputs[j], catalog)
        },
{
    let malformed = |arg: FnArgView| arg.receiver_form(decl.owner()) is None;
    let unsupported = |arg: FnArgView| argument_unsupported(arg, catalog);
    lemma_first_index(decl.inputs, malformed, i);
    lemma_first_index(decl.inputs, unsupported, i);
    if let Some(k) = decl.first_malformed() {
        lemma_first_index(decl.inputs, malformed, k);
    }
    if let Some(k) = decl.first_unsupported(catalog) {
        lemma_first_index(decl.inputs, unsupported, k);
    }
}

/// The wrapper has the name and the return type of the declaration, and as
/// many parameters, each in the place of the one it was made from.
pub proof fn lemma_signature_shape(
    decl: ParsedExternFnView,
    catalog: TypeCatalogView,
    bridge: PathView,
)
    ensures
        decl.wrapper(catalog, bridge).name == decl.name,
        decl.wrapper(catalog, bridge).output == decl.output,
        decl.wrapper(catalog, bridge).inputs.len() == decl.inputs.len(),
        forall|i: int|
            0 <= i < decl.inputs.len() ==> #[trigger] decl.wrapper(catalog, bridge).inputs[i]
                == decl.inputs[i].normalized(decl.owner()),
{
}

/// Where no parameter is a receiver, the signature of the wrapper is that
/// of the declaration: same name, same parameters, same return type.
pub proof fn lemma_signature_kept_without_receiver(
    decl: ParsedExternFnView,
    catalog: TypeCatalogView,
    bridge: PathView,
)
    requires
        forall|i: int| 0 <= i < decl.inputs.len() ==> !(#[trigger] decl.inputs[i]).is_receiver(),
    ensures
        decl.first_malformed() is None,
        decl.wrapper(catalog, bridge).name == decl.name,
        decl.wrapper(catalog, bridge).inputs == decl.inputs,
        decl.wrapper(catalog, bridge).output == decl.output,
{
    lemma_first_index(
        decl.inputs,
        |arg: FnArgView| arg.receiver_form(decl.owner()) is None,
        0,
    );
    assert(decl.wrapper(catalog, bridge).inputs =~= decl.inputs);
}

/// Where no parameter is a receiver, every parameter has an opaque type and
/// nothing is returned, the body of the wrapper is the call of the linked
/// symbol alone, with the parameters handed on under their names.
pub proof fn lemma_direct_call_without_built_ins(
    decl: ParsedExternFnView,
    catalog: TypeCatalogView,
    bridge: PathView,
)
    requires
        forall|i: int|
            0 <= i < decl.inputs.len() ==> (#[trigger] decl.inputs[i] matches FnArgView::Typed {
                name,
                ty,
            } && name != "self"@ && catalog.classify(ty) is Some && catalog.classify(ty)->0 is Opaque),
        decl.output is None,
        !decl.is_initializer,
    ensures
        decl.failure(catalog) is None,
        decl.wrapper(catalog, bridge).body == (ExprView::UnsafeCall {
            symbol: decl.symbol(),
            args: decl.inputs.map_values(|arg: FnArgView| ExprView::Name(arg->name)),
        }),
{
    lemma_wrapper_exists(decl, catalog);
    assert(decl.call_arguments(catalog, bridge) =~= decl.inputs.map_values(
        |arg: FnArgView| ExprView::Name(arg->name),
    ));
}

/// A bare receiver is left as it is, and bringing a parameter into bare
/// form twice gives what doing it once gives.
pub proof fn lemma_normalization_idempotent(arg: FnArgView, owner: Seq<char>)
    ensures
        arg is Receiver ==> arg.normalized(owner) == arg,
        arg.normalized(owner).normalized(owner) == arg.normalized(owner),
        arg.receiver_form(owner) is Some ==> arg.normalized(owner).receiver_form(owner)
            == arg.receiver_form(owner),
{
}

/// Bringing the parameters of a declaration into bare form a second time
/// changes nothing.
pub proof fn lemma_normalized_inputs_idempotent(decl: ParsedExternFnView)
    ensures
        (ParsedExternFnView { inputs: decl.normalized_inputs(), ..decl }).normalized_inputs()
            == decl.normalized_inputs(),
{
    let again = ParsedExternFnView { inputs: decl.normalized_inputs(), ..decl };
    assert(again.owner() == decl.owner());
    assert forall|i: int| 0 <= i < decl.inputs.len() implies again.normalized_inputs()[i]
        == decl.normalized_inputs()[i] by {
        lemma_normalization_idempotent(decl.inputs[i], decl.owner());
    }
    assert(again.normalized_inputs() =~= decl.normalized_inputs());
}

/// A parameter that is not named `self` is left as it is, whatever its
/// type: also where the type is a reference to the declaring type.
pub proof fn lemma_other_parameters_untouched(arg: FnArgView, owner: Seq<char>)
    requires
        arg matches FnArgView::Typed { name, .. } && name != "self"@,
    ensures
        arg.normalized(owner) == arg,
        arg.receiver_form(owner) == Some(ReceiverForm::NoReceiver),
{
}

/// A receiver written with its type becomes the bare receiver of the same
/// form: `self: &Foo` becomes `&self`, `self: &mut Foo` becomes `&mut self`
/// and `self: Foo` becomes `self`.
pub proof fn lemma_typed_receiver_rewritten(owner: Seq<char>)
    ensures
        (FnArgView::Typed { name: "self"@, ty: reference_to(owner, false) }).normalized(owner)
            == (FnArgView::Receiver { reference: true, mutable: false }),
        (FnArgView::Typed { name: "self"@, ty: reference_to(owner, true) }).normalized(owner)
            == (FnArgView::Receiver { reference: true, mutable: true }),
        (FnArgView::Typed { name: "self"@, ty: TypeView::Path(owner) }).normalized(owner)
            == (FnArgView::Receiver { reference: false, mutable: false }),
        (FnArgView::Receiver { reference: true, mutable: false }).tokens() == seq![
            punct('&'),
            Token::Ident("self"@),
        ],
        (FnArgView::Receiver { reference: true, mutable: true }).tokens() == seq![
            punct('&'),
            Token::Ident("mut"@),
            Token::Ident("self"@),
        ],
        (FnArgView::Receiver { reference: false, mutable: false }).tokens() == seq![
            Token::Ident("self"@),
        ],
{
}

/// A parameter named `self` of a type other than the declaring type, a
/// reference to it or a mutable reference to it is a malformed receiver.
pub proof fn lemma_malformed_receiver(ty: TypeView, owner: Seq<char>)
    ensures
        (FnArgView::Typed { name: "self"@, ty }).receiver_form(owner) is None <==> ty
            != TypeView::Path(owner) && ty != reference_to(owner, false) && ty != reference_to(
            owner,
            true,
        ),
{
}

/// The wrapper of a declaration with a receiver of a given form has the bare
/// receiver of that form in the receiver's place.
pub proof fn lemma_wrapper_receiver(
    decl: ParsedExternFnView,
    catalog: TypeCatalogView,
    bridge: PathView,
    i: int,
)
    requires
        0 <= i < decl.inputs.len(),
        decl.inputs[i].is_typed_self(),
        decl.inputs[i].receiver_form(decl.owner()) is Some,
    ensures
        decl.wrapper(catalog, bridge).inputs[i] is Receiver,
        decl.wrapper(catalog, bridge).inputs[i].receiver_form(decl.owner())
            == decl.inputs[i].receiver_form(decl.owner()),
{
}

/// The call of the linked symbol has one argument for each parameter, in
/// the order of the declaration.
pub proof fn lemma_call_arguments_in_order(
    decl: ParsedExternFnView,
    catalog: TypeCatalogView,
    bridge: PathView,
)
    requires
        decl.first_unsupported(catalog) is None,
    ensures
        decl.call_arguments(catalog, bridge).len() == decl.inputs.len(),
        forall|i: int|
            0 <= i < decl.inputs.len() ==> Some(#[trigger] decl.call_arguments(catalog, bridge)[i])
                == call_argument(decl.inputs[i], catalog, bridge),
{
    lemma_first_index(decl.inputs, |arg: FnArgView| argument_unsupported(arg, catalog), 0);
    assert forall|i: int| 0 <= i < decl.inputs.len() implies Some(
        #[trigger] decl.call_arguments(catalog, bridge)[i],
    ) == call_argument(decl.inputs[i], catalog, bridge) by {
        assert(!argument_unsupported(decl.inputs[i], catalog));
    }
}

/// A function without receiver whose one parameter has a built-in type
/// calls the linked symbol with exactly one argument: the parameter,
/// converted by the type's rule for argument position. No receiver handle
/// comes before it.
pub proof fn lemma_single_built_in_argument(
    decl: ParsedExternFnView,
    catalog: TypeCatalogView,
    bridge: PathView,
    name: Seq<char>,
    ty: TypeView,
    entry: BuiltInTypeView,
)
    requires
        decl.inputs == seq![FnArgView::Typed { name, ty }],
        name != "self"@,
        catalog.classify(ty) == Some(TypeClassView::BuiltIn(entry)),
    ensures
        decl.first_malformed() is None,
        decl.first_unsupported(catalog) is None,
        decl.call_arguments(catalog, bridge) == seq![
            entry.to_ffi.apply(bridge, ExprView::Name(name)),
        ],
{
    lemma_first_index(
        decl.inputs,
        |arg: FnArgView| arg.receiver_form(decl.owner()) is None,
        0,
    );
    lemma_first_index(decl.inputs, |arg: FnArgView| argument_unsupported(arg, catalog), 0);
    assert(decl.call_arguments(catalog, bridge) =~= seq![
        entry.to_ffi.apply(bridge, ExprView::Name(name)),
    ]);
}

/// An initializer without a return type returns its declaring type: the
/// body of its wrapper is the raw call inside the constructor of that type.
pub proof fn lemma_initializer_wraps_handle(
    decl: ParsedExternFnView,
    catalog: TypeCatalogView,
    bridge: PathView,
)
    requires
        decl.is_initializer,
        decl.output is None,
    ensures
        !decl.return_unsupported(catalog),
        decl.wrapper(catalog, bridge).body == (ExprView::Construct {
            ty: decl.owner(),
            arg: Box::new(decl.raw_call(catalog, bridge)),
        }),
        decl.wrapper(catalog, bridge).body.tokens() == seq![
            Token::Ident(decl.owner()),
            group(Delimiter::Parenthesis, decl.raw_call(catalog, bridge).tokens()),
        ],
{
    reveal_with_fuel(ExprView::tokens, 2);
}

/// A function with an opaque return type wraps the raw call in the
/// constructor of that type.
pub proof fn lemma_opaque_return_wrapped(
    decl: ParsedExternFnView,
    catalog: TypeCatalogView,
    bridge: PathView,
    ty: TypeView,
    name: Seq<char>,
)
    requires
        decl.output == Some(ty),
        catalog.classify(ty) == Some(TypeClassView::Opaque(name)),
    ensures
        !decl.return_unsupported(catalog),
        decl.wrapper(catalog, bridge).body == (ExprView::Construct {
            ty: name,
            arg: Box::new(decl.raw_call(catalog, bridge)),
        }),
        ty.named() == Some(name),
        catalog.opaque_types.contains(name),
{
}

/// A method whose receiver comes first and whose return type is built-in:
/// the first argument of the call is the raw handle of the receiver, and
/// the body is the raw call converted by the type's rule for return
/// position.
pub proof fn lemma_method_with_built_in_return(
    decl: ParsedExternFnView,
    catalog: TypeCatalogView,
    bridge: PathView,
    ty: TypeView,
    entry: BuiltInTypeView,
)
    requires
        decl.inputs.len() > 0,
        decl.inputs[0].is_receiver(),
        decl.output == Some(ty),
        catalog.classify(ty) == Some(TypeClassView::BuiltIn(entry)),
    ensures
        decl.call_arguments(catalog, bridge)[0] == ExprView::ReceiverHandle,
        decl.wrapper(catalog, bridge).body == entry.to_native.apply(
            bridge,
            decl.raw_call(catalog, bridge),
        ),
        decl.raw_call(catalog, bridge) matches ExprView::UnsafeCall { symbol, args }
            && symbol == decl.symbol() && args.len() == decl.inputs.len() && args[0]
            == ExprView::ReceiverHandle,
{
}

/// A function without a return type that is no initializer has the raw call
/// as its body, as it is.
pub proof fn lemma_unit_return_unchanged(
    decl: ParsedExternFnView,
    catalog: TypeCatalogView,
    bridge: PathView,
)
    requires
        decl.output is None,
        !decl.is_initializer,
    ensures
        !decl.return_unsupported(catalog),
        decl.wrapper(catalog, bridge).body == decl.raw_call(catalog, bridge),
{
}

} // verus!
