//! Parameters of a declaration, and the receiver among them.

use crate::ident::Identifier;
use crate::tokens::{punct, push_ident, push_punct, stream_tokens, Spacing, Token};
use crate::types::{TypeExpr, TypeView};
use vstd::prelude::*;

verus! {

/// How a function takes the value it is called on.
#[derive(Clone, Copy, Debug, PartialEq, Eq, Structural)]
pub enum ReceiverForm {
    /// The parameter is no receiver.
    NoReceiver,
    /// `self`
    ByValue,
    /// `&self`
    ByReference,
    /// `&mut self`
    ByMutableReference,
}

/// One parameter of a function.
#[derive(Debug, PartialEq, Eq)]
pub enum FnArg {
    /// A bare receiver: `self`, `mut self`, `&self` or `&mut self`.
    Receiver { reference: bool, mutable: bool },
    /// A name with its type: `arg: T`. Named `self`, it is a receiver
    /// written with its type.
    Typed { name: Identifier, ty: TypeExpr },
}

/// A parameter as a mathematical value.
pub ghost enum FnArgView {
    Receiver { reference: bool, mutable: bool },
    Typed { name: Seq<char>, ty: TypeView },
}

impl View for FnArg {
    type V = FnArgView;

    open spec fn view(&self) -> FnArgView {
        match self {
            FnArg::Receiver { reference, mutable } => FnArgView::Receiver {
                reference: *reference,
                mutable: *mutable,
            },
            FnArg::Typed { name, ty } => FnArgView::Typed { name: name@, ty: ty@ },
        }
    }
}

/// The views of a list of parameters.
pub open spec fn arg_views(args: Seq<FnArg>) -> Seq<FnArgView> {
    args.map_values(|arg: FnArg| arg@)
}

/// The type `&owner` or `&mut owner`.
pub open spec fn reference_to(owner: Seq<char>, mutable: bool) -> TypeView {
    TypeView::Reference { mutable, elem: Box::new(TypeView::Path(owner)) }
}

impl TypeView {
    /// For `&T` and `&mut T`: whether the reference is mutable, and `T`.
    pub open spec fn referenced(self) -> Option<(bool, TypeView)> {
        match self {
            TypeView::Reference { mutable, elem } => Some((mutable, *elem)),
            _ => None,
        }
    }
}

impl FnArgView {
    /// Whether the parameter is written with a type and named `self`. The
    /// name alone decides: a parameter of another name is no receiver,
    /// whatever its type.
    pub open spec fn is_typed_self(self) -> bool {
        self matches FnArgView::Typed { name, .. } && name == "self"@
    }

    /// Whether the parameter is a receiver, bare or written with its type.
    pub open spec fn is_receiver(self) -> bool {
        self is Receiver || self.is_typed_self()
    }

    /// For a parameter named `self` whose type is a reference: whether the
    /// reference is mutable, and the type behind it.
    pub open spec fn typed_self_reference(self) -> Option<(bool, TypeView)> {
        match self {
            FnArgView::Typed { name, ty } => if name == "self"@ {
                ty.referenced()
            } else {
                None
            },
            _ => None,
        }
    }

    /// The form of the receiver that the parameter stands for, on a function
    /// of the type `owner`. A parameter named `self` must have the type
    /// `owner`, `&owner` or `&mut owner`: with any other type there is no
    /// form, and the receiver is malformed.
    pub open spec fn receiver_form(self, owner: Seq<char>) -> Option<ReceiverForm> {
        match self {
            FnArgView::Receiver { reference, mutable } => Some(
                if !reference {
                    ReceiverForm::ByValue
                } else if mutable {
                    ReceiverForm::ByMutableReference
                } else {
                    ReceiverForm::ByReference
                },
            ),
            FnArgView::Typed { name, ty } => if name != "self"@ {
                Some(ReceiverForm::NoReceiver)
            } else if ty == TypeView::Path(owner) {
                Some(ReceiverForm::ByValue)
            } else if ty == reference_to(owner, false) {
                Some(ReceiverForm::ByReference)
            } else if ty == reference_to(owner, true) {
                Some(ReceiverForm::ByMutableReference)
            } else {
                None
            },
        }
    }

    /// The parameter with a receiver that was written with its type brought
    /// into bare form. Every other parameter stays as it is.
    pub open spec fn normalized(self, owner: Seq<char>) -> FnArgView {
        if self.is_typed_self() {
            match self.receiver_form(owner) {
                Some(ReceiverForm::ByValue) => FnArgView::Receiver {
                    reference: false,
                    mutable: false,
                },
                Some(ReceiverForm::ByReference) => FnArgView::Receiver {
                    reference: true,
                    mutable: false,
                },
                Some(ReceiverForm::ByMutableReference) => FnArgView::Receiver {
                    reference: true,
                    mutable: true,
                },
                _ => self,
            }
        } else {
            self
        }
    }

    /// The tokens that spell the parameter.
    pub open spec fn tokens(self) -> Seq<Token> {
        match self {
            FnArgView::Receiver { reference, mutable } => (if reference {
                seq![punct('&')]
            } else {
                Seq::empty()
            }) + (if mutable {
                seq![Token::Ident("mut"@)]
            } else {
                Seq::empty()
            }) + seq![Token::Ident("self"@)],
            FnArgView::Typed { name, ty } => seq![Token::Ident(name), punct(':')] + ty.tokens(),
        }
    }
}

/// For `&T` and `&mut T`: whether the reference is mutable, and `T`.
pub fn pat_ty_type_reference(ty: &TypeExpr) -> (reference: Option<(bool, &TypeExpr)>)
    ensures
        reference is Some <==> ty@.referenced() is Some,
        reference matches Some((mutable, elem)) ==> ty@.referenced() == Some((mutable, elem@)),
{
    match ty {
        TypeExpr::Reference { mutable, elem } => Some((*mutable, &**elem)),
        _ => None,
    }
}

/// For a parameter named `self` whose type is a reference: whether the
/// reference is mutable, and the type behind it. `self: &Foo` gives `Foo`;
/// `_foo: &Foo` gives nothing.
pub fn pat_ty_type_reference_if_arg_self(fn_arg: &FnArg) -> (reference: Option<(bool, &TypeExpr)>)
    ensures
        reference is Some <==> fn_arg@.typed_self_reference() is Some,
        reference matches Some((mutable, elem)) ==> fn_arg@.typed_self_reference() == Some(
            (mutable, elem@),
        ),
{
    match fn_arg {
        FnArg::Typed { name, ty } => if name.is_spelled("self") {
            pat_ty_type_reference(ty)
        } else {
            None
        },
        _ => None,
    }
}

impl Clone for FnArg {
    fn clone(&self) -> (copy: FnArg)
        ensures
            copy@ == self@,
    {
        match self {
            FnArg::Receiver { reference, mutable } => FnArg::Receiver {
                reference: *reference,
                mutable: *mutable,
            },
            FnArg::Typed { name, ty } => FnArg::Typed { name: name.clone(), ty: ty.clone() },
        }
    }
}

impl FnArg {
    /// Whether the parameter is a receiver, bare or written with its type.
    pub fn is_receiver(&self) -> (r: bool)
        ensures
            r == self@.is_receiver(),
    {
        match self {
            FnArg::Receiver { .. } => true,
            FnArg::Typed { name, .. } => name.is_spelled("self"),
        }
    }

    /// The form of the receiver that the parameter stands for, on a function
    /// of the type `owner`; `None` for a malformed receiver.
    pub fn receiver_form(&self, owner: &Identifier) -> (form: Option<ReceiverForm>)
        ensures
            form == self@.receiver_form(owner@),
    {
        match self {
            FnArg::Receiver { reference, mutable } => Some(
                if !*reference {
                    ReceiverForm::ByValue
                } else if *mutable {
                    ReceiverForm::ByMutableReference
                } else {
                    ReceiverForm::ByReference
                },
            ),
            FnArg::Typed { name, ty } => {
                if !name.is_spelled("self") {
                    return Some(ReceiverForm::NoReceiver);
                }
                match pat_ty_type_reference_if_arg_self(self) {
                    Some((mutable, elem)) => match elem {
                        TypeExpr::Path(target) => if target.same_as(owner) {
                            Some(
                                if mutable {
                                    ReceiverForm::ByMutableReference
                                } else {
                                    ReceiverForm::ByReference
                                },
                            )
                        } else {
                            None
                        },
                        _ => None,
                    },
                    None => match ty {
                        TypeExpr::Path(target) => if target.same_as(owner) {
                            Some(ReceiverForm::ByValue)
                        } else {
                            None
                        },
                        _ => None,
                    },
                }
            },
        }
    }

    /// The parameter with a receiver that was written with its type brought
    /// into bare form; `None` for a malformed receiver.
    pub fn normalized(&self, owner: &Identifier) -> (arg: Option<FnArg>)
        ensures
            arg is Some <==> self@.receiver_form(owner@) is Some,
            arg matches Some(a) ==> a@ == self@.normalized(owner@),
    {
        match self.receiver_form(owner) {
            None => None,
            Some(form) => if self.is_receiver() {
                match self {
                    FnArg::Typed { .. } => Some(
                        FnArg::Receiver {
                            reference: !matches!(form, ReceiverForm::ByValue),
                            mutable: matches!(form, ReceiverForm::ByMutableReference),
                        },
                    ),
                    _ => Some(self.clone()),
                }
            } else {
                Some(self.clone())
            },
        }
    }

    /// Appends the tokens that spell the parameter.
    pub fn to_tokens(&self, stream: &mut proc_macro2::TokenStream)
        ensures
            stream_tokens(*final(stream)) == stream_tokens(*old(stream)) + self@.tokens(),
    {
        match self {
            FnArg::Receiver { reference, mutable } => {
                proof {
                    reveal_strlit("mut");
                    reveal_strlit("self");
                }
                if *reference {
                    push_punct(stream, '&', Spacing::Alone);
                }
                if *mutable {
                    push_ident(stream, "mut");
                }
                push_ident(stream, "self");
            },
            FnArg::Typed { name, ty } => {
                push_ident(stream, name.as_str());
                push_punct(stream, ':', Spacing::Alone);
                ty.to_tokens(stream);
            },
        }
    }
}

} // verus!
