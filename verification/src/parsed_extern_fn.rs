//! Declarations of foreign functions, and the synthesis of their wrappers.

use crate::catalog::{TypeCatalog, TypeCatalogView, TypeClass, TypeClassView};
use crate::error::{ErrorKind, Position, SynthesisError, SynthesisErrorView};
use crate::expr::{expr_views, Expr, ExprView};
use crate::fn_arg::{arg_views, FnArg, FnArgView};
use crate::ident::Identifier;
use crate::path::{Path, PathView};
use crate::search::{first_from, first_index};
use crate::tokens::stream_tokens;
use crate::types::{TypeExpr, TypeView};
use crate::wrapper::{WrapperFunction, WrapperFunctionView};
use vstd::prelude::*;

verus! {

/// The declaration of a foreign function: a method, an associated function
/// or an initializer of a declared type.
#[derive(Debug, PartialEq, Eq)]
pub struct ParsedExternFn {
    /// The name of the function.
    pub name: Identifier,
    /// The type that the function is declared on.
    pub associated_type: Option<Identifier>,
    /// Whether the function is an initializer of that type.
    pub is_initializer: bool,
    /// The parameters in the order of the declaration.
    pub inputs: Vec<FnArg>,
    /// The return type, where one is written.
    pub output: Option<TypeExpr>,
}

/// A declaration as a mathematical value.
pub ghost struct ParsedExternFnView {
    pub name: Seq<char>,
    pub associated_type: Option<Seq<char>>,
    pub is_initializer: bool,
    pub inputs: Seq<FnArgView>,
    pub output: Option<TypeView>,
}

impl View for ParsedExternFn {
    type V = ParsedExternFnView;

    open spec fn view(&self) -> ParsedExternFnView {
        ParsedExternFnView {
            name: self.name@,
            associated_type: match self.associated_type {
                Some(name) => Some(name@),
                None => None,
            },
            is_initializer: self.is_initializer,
            inputs: arg_views(self.inputs@),
            output: match self.output {
                Some(ty) => Some(ty@),
                None => None,
            },
        }
    }
}

/// The name of the linked symbol for the function `function` of the type
/// `owner`: `__swift_bridge__`, the type, `_`, the function.
pub open spec fn extern_symbol(owner: Seq<char>, function: Seq<char>) -> Seq<char> {
    "__swift_bridge__"@ + owner + "_"@ + function
}

/// The argument that the call of the linked symbol gets for one parameter.
/// A receiver gives its raw handle. A parameter of a built-in type gives its
/// name, converted by the type's rule for argument position; one of an
/// opaque type gives its name as it is. There is none for a parameter whose
/// type is unsupported.
pub open spec fn call_argument(arg: FnArgView, catalog: TypeCatalogView, bridge: PathView) -> Option<
    ExprView,
> {
    match arg {
        FnArgView::Receiver { .. } => Some(ExprView::ReceiverHandle),
        FnArgView::Typed { name, ty } => if name == "self"@ {
            Some(ExprView::ReceiverHandle)
        } else {
            match catalog.classify(ty) {
                Some(TypeClassView::BuiltIn(entry)) => Some(
                    entry.to_ffi.apply(bridge, ExprView::Name(name)),
                ),
                Some(TypeClassView::Opaque(_)) => Some(ExprView::Name(name)),
                None => None,
            }
        },
    }
}

/// Whether the type of the parameter is unsupported. A receiver is not
/// classified.
pub open spec fn argument_unsupported(arg: FnArgView, catalog: TypeCatalogView) -> bool {
    arg matches FnArgView::Typed { name, ty } && name != "self"@ && catalog.classify(ty) is None
}

impl ParsedExternFnView {
    /// The name of the declaring type.
    pub open spec fn owner(self) -> Seq<char> {
        self.associated_type.unwrap()
    }

    /// The error of the given kind at the given place of this declaration.
    pub open spec fn error(self, kind: ErrorKind, position: Position) -> SynthesisErrorView {
        SynthesisErrorView {
            kind,
            declaring_type: self.owner(),
            function: self.name,
            position,
        }
    }

    /// The index of the first parameter that is a malformed receiver.
    pub open spec fn first_malformed(self) -> Option<int> {
        first_index(self.inputs, |arg: FnArgView| arg.receiver_form(self.owner()) is None)
    }

    /// The parameters, each receiver among them in bare form: as many as
    /// declared, in the order declared.
    pub open spec fn normalized_inputs(self) -> Seq<FnArgView> {
        self.inputs.map_values(|arg: FnArgView| arg.normalized(self.owner()))
    }

    /// The index of the first parameter whose type is unsupported.
    pub open spec fn first_unsupported(self, catalog: TypeCatalogView) -> Option<int> {
        first_index(self.inputs, |arg: FnArgView| argument_unsupported(arg, catalog))
    }

    /// The arguments of the call, one for each parameter, in the order of
    /// the declaration. They are defined where no parameter has an
    /// unsupported type.
    pub open spec fn call_arguments(self, catalog: TypeCatalogView, bridge: PathView) -> Seq<
        ExprView,
    > {
        self.inputs.map_values(|arg: FnArgView| call_argument(arg, catalog, bridge).unwrap())
    }

    /// The name of the linked symbol.
    pub open spec fn symbol(self) -> Seq<char> {
        extern_symbol(self.owner(), self.name)
    }

    /// The call of the linked symbol with the arguments, inside its unsafe
    /// block.
    pub open spec fn raw_call(self, catalog: TypeCatalogView, bridge: PathView) -> ExprView {
        ExprView::UnsafeCall { symbol: self.symbol(), args: self.call_arguments(catalog, bridge) }
    }

    /// The native value made from the raw result `raw`. Without a return
    /// type the raw call stands as it is, except in an initializer, which
    /// returns its declaring type: there, and for an opaque return type, the
    /// raw handle is wrapped in the type's constructor. A built-in return
    /// type applies its rule for return position. There is none where the
    /// return type is unsupported.
    pub open spec fn marshalled_return(
        self,
        catalog: TypeCatalogView,
        bridge: PathView,
        raw: ExprView,
    ) -> Option<ExprView> {
        match self.output {
            None => if self.is_initializer {
                Some(ExprView::Construct { ty: self.owner(), arg: Box::new(raw) })
            } else {
                Some(raw)
            },
            Some(ty) => match catalog.classify(ty) {
                Some(TypeClassView::BuiltIn(entry)) => Some(entry.to_native.apply(bridge, raw)),
                Some(TypeClassView::Opaque(name)) => Some(
                    ExprView::Construct { ty: name, arg: Box::new(raw) },
                ),
                None => None,
            },
        }
    }

    /// Whether the return type is unsupported.
    pub open spec fn return_unsupported(self, catalog: TypeCatalogView) -> bool {
        self.output matches Some(ty) && catalog.classify(ty) is None
    }

    /// Why the declaration has no wrapper, if it has none: the first
    /// malformed receiver; failing that, the first parameter of an
    /// unsupported type; failing that, an unsupported return type.
    pub open spec fn failure(self, catalog: TypeCatalogView) -> Option<SynthesisErrorView> {
        if let Some(i) = self.first_malformed() {
            Some(self.error(ErrorKind::MalformedReceiver, Position::Parameter(i as usize)))
        } else if let Some(i) = self.first_unsupported(catalog) {
            Some(self.error(ErrorKind::UnsupportedType, Position::Parameter(i as usize)))
        } else if self.return_unsupported(catalog) {
            Some(self.error(ErrorKind::UnsupportedType, Position::Return))
        } else {
            None
        }
    }

    /// The wrapper of the declaration: the name and the return type of the
    /// declaration, its parameters with the receiver in bare form, and as
    /// body the raw call with its result made native. It is defined where
    /// the declaration has no fault.
    pub open spec fn wrapper(self, catalog: TypeCatalogView, bridge: PathView) -> WrapperFunctionView {
        WrapperFunctionView {
            name: self.name,
            inputs: self.normalized_inputs(),
            output: self.output,
            body: self.marshalled_return(catalog, bridge, self.raw_call(catalog, bridge)).unwrap(),
        }
    }
}

impl ParsedExternFn {
    /// The error of the given kind at the given place of this declaration.
    pub fn error(&self, kind: ErrorKind, position: Position) -> (error: SynthesisError)
        requires
            self.associated_type is Some,
        ensures
            error@ == self@.error(kind, position),
    {
        match &self.associated_type {
            Some(owner) => SynthesisError {
                kind,
                declaring_type: owner.clone(),
                function: self.name.clone(),
                position,
            },
            None => unreached(),
        }
    }

    /// All of the parameters, with the type taken off a receiver that was
    /// written with one: `self: Foo` becomes `self`, `self: &Foo` becomes
    /// `&self`, `self: &mut Foo` becomes `&mut self`. A parameter named
    /// `self` of any other type is refused.
    pub fn params_without_self_type_removd(&self) -> (params: Result<Vec<FnArg>, SynthesisError>)
        requires
            self.associated_type is Some,
        ensures
            match params {
                Ok(list) => self@.first_malformed() is None && arg_views(list@)
                    == self@.normalized_inputs(),
                Err(error) => self@.first_malformed() matches Some(i) && error@ == self@.error(
                    ErrorKind::MalformedReceiver,
                    Position::Parameter(i as usize),
                ),
            },
    {
        let owner = match &self.associated_type {
            Some(owner) => owner,
            None => unreached(),
        };
        let ghost inputs = self@.inputs;
        let ghost malformed = |arg: FnArgView| arg.receiver_form(self@.owner()) is None;
        let mut params: Vec<FnArg> = Vec::new();
        let mut i: usize = 0;
        while i < self.inputs.len()
            invariant
                i <= self.inputs.len(),
                self.associated_type == Some(*owner),
                inputs == self@.inputs,
                malformed == |arg: FnArgView| arg.receiver_form(self@.owner()) is None,
                first_index(inputs, malformed) == first_from(inputs, malformed, i as int),
                params.len() == i,
                forall|j: int| 0 <= j < i ==> params@[j]@ == inputs[j].normalized(self@.owner()),
            decreases self.inputs.len() - i,
        {
            match self.inputs[i].normalized(owner) {
                Some(arg) => {
                    params.push(arg);
                },
                None => {
                    return Err(self.error(ErrorKind::MalformedReceiver, Position::Parameter(i)));
                },
            }
            i = i + 1;
        }
        assert(arg_views(params@) =~= self@.normalized_inputs());
        Ok(params)
    }

    /// The arguments of the call of the linked symbol, one for each
    /// parameter, in the order of the declaration.
    pub fn to_call_rust_args(&self, swift_bridge_path: &Path, catalog: &TypeCatalog) -> (args: Result<
        Vec<Expr>,
        SynthesisError,
    >)
        requires
            self.associated_type is Some,
        ensures
            match args {
                Ok(list) => self@.first_unsupported(catalog@) is None && expr_views(list@)
                    == self@.call_arguments(catalog@, swift_bridge_path@),
                Err(error) => self@.first_unsupported(catalog@) matches Some(i) && error@
                    == self@.error(ErrorKind::UnsupportedType, Position::Parameter(i as usize)),
            },
    {
        let ghost inputs = self@.inputs;
        let ghost unsupported = |arg: FnArgView| argument_unsupported(arg, catalog@);
        let mut args: Vec<Expr> = Vec::new();
        let mut i: usize = 0;
        while i < self.inputs.len()
            invariant
                i <= self.inputs.len(),
                self.associated_type is Some,
                inputs == self@.inputs,
                unsupported == |arg: FnArgView| argument_unsupported(arg, catalog@),
                first_index(inputs, unsupported) == first_from(inputs, unsupported, i as int),
                args.len() == i,
                forall|j: int|
                    0 <= j < i ==> Some(args@[j]@) == call_argument(
                        inputs[j],
                        catalog@,
                        swift_bridge_path@,
                    ),
            decreases self.inputs.len() - i,
        {
            match &self.inputs[i] {
                FnArg::Receiver { .. } => {
                    args.push(Expr::ReceiverHandle);
                },
                FnArg::Typed { name, ty } => {
                    if name.is_spelled("self") {
                        args.push(Expr::ReceiverHandle);
                    } else {
                        match catalog.classify(ty) {
                            Some(TypeClass::BuiltIn(entry)) => {
                                args.push(
                                    entry.to_ffi.apply(swift_bridge_path, Expr::Name(name.clone())),
                                );
                            },
                            Some(TypeClass::Opaque(_)) => {
                                args.push(Expr::Name(name.clone()));
                            },
                            None => {
                                return Err(
                                    self.error(ErrorKind::UnsupportedType, Position::Parameter(i)),
                                );
                            },
                        }
                    }
                },
            }
            i = i + 1;
        }
        assert(expr_views(args@) =~= self@.call_arguments(catalog@, swift_bridge_path@));
        Ok(args)
    }

    /// The name of the linked symbol that the wrapper calls.
    pub fn extern_swift_linked_fn_new(&self) -> (symbol: Identifier)
        requires
            self.associated_type is Some,
        ensures
            symbol@ == self@.symbol(),
    {
        let owner = match &self.associated_type {
            Some(owner) => owner,
            None => unreached(),
        };
        proof {
            reveal_strlit("__swift_bridge__");
            reveal_strlit("_");
        }
        let prefix = match Identifier::new("__swift_bridge__") {
            Some(prefix) => prefix,
            None => unreached(),
        };
        let separator = match Identifier::new("_") {
            Some(separator) => separator,
            None => unreached(),
        };
        prefix.concat(owner).concat(&separator).concat(&self.name)
    }

    /// The native value made from the raw result `raw`.
    pub fn marshal_return(&self, swift_bridge_path: &Path, catalog: &TypeCatalog, raw: Expr) -> (body:
        Result<Expr, SynthesisError>)
        requires
            self.associated_type is Some,
        ensures
            match body {
                Ok(expr) => !self@.return_unsupported(catalog@) && Some(expr@)
                    == self@.marshalled_return(catalog@, swift_bridge_path@, raw@),
                Err(error) => self@.return_unsupported(catalog@) && error@ == self@.error(
                    ErrorKind::UnsupportedType,
                    Position::Return,
                ),
            },
    {
        match &self.output {
            None => if self.is_initializer {
                match &self.associated_type {
                    Some(owner) => Ok(Expr::Construct { ty: owner.clone(), arg: Box::new(raw) }),
                    None => unreached(),
                }
            } else {
                Ok(raw)
            },
            Some(ty) => match catalog.classify(ty) {
                Some(TypeClass::BuiltIn(entry)) => Ok(entry.to_native.apply(swift_bridge_path, raw)),
                Some(TypeClass::Opaque(name)) => Ok(
                    Expr::Construct { ty: name.clone(), arg: Box::new(raw) },
                ),
                None => Err(self.error(ErrorKind::UnsupportedType, Position::Return)),
            },
        }
    }

    /// The wrapper of the declaration, or the first fault that rules one
    /// out.
    pub fn synthesize(&self, swift_bridge_path: &Path, catalog: &TypeCatalog) -> (wrapper: Result<
        WrapperFunction,
        SynthesisError,
    >)
        requires
            self.associated_type is Some,
        ensures
            match wrapper {
                Ok(function) => self@.failure(catalog@) is None && function@ == self@.wrapper(
                    catalog@,
                    swift_bridge_path@,
                ),
                Err(error) => self@.failure(catalog@) == Some(error@),
            },
    {
        let inputs = match self.params_without_self_type_removd() {
            Ok(inputs) => inputs,
            Err(error) => {
                return Err(error);
            },
        };
        let args = match self.to_call_rust_args(swift_bridge_path, catalog) {
            Ok(args) => args,
            Err(error) => {
                return Err(error);
            },
        };
        let raw = Expr::UnsafeCall { symbol: self.extern_swift_linked_fn_new(), args };
        assert(raw@ == self@.raw_call(catalog@, swift_bridge_path@)) by {
            assert(raw@->UnsafeCall_args =~= self@.call_arguments(catalog@, swift_bridge_path@));
        }
        let body = match self.marshal_return(swift_bridge_path, catalog, raw) {
            Ok(body) => body,
            Err(error) => {
                return Err(error);
            },
        };
        let output = match &self.output {
            Some(ty) => Some(ty.clone()),
            None => None,
        };
        Ok(WrapperFunction { name: self.name.clone(), inputs, output, body })
    }

    /// The tokens of the wrapper of the declaration, or the first fault that
    /// rules a wrapper out.
    pub fn to_impl_fn_calls_swift(&self, swift_bridge_path: &Path, catalog: &TypeCatalog) -> (tokens:
        Result<proc_macro2::TokenStream, SynthesisError>)
        requires
            self.associated_type is Some,
        ensures
            match tokens {
                Ok(stream) => self@.failure(catalog@) is None && stream_tokens(stream)
                    == self@.wrapper(catalog@, swift_bridge_path@).tokens(),
                Err(error) => self@.failure(catalog@) == Some(error@),
            },
    {
        match self.synthesize(swift_bridge_path, catalog) {
            Ok(function) => Ok(function.into_token_stream()),
            Err(error) => Err(error),
        }
    }
}

} // verus!
