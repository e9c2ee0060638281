//! Type expressions: the syntax of the types that a declaration names.

use crate::ident::Identifier;
use crate::tokens::{
    new_stream, punct, push_group, push_ident, push_punct, stream_tokens, Delimiter, Spacing,
    Token,
};
use vstd::prelude::*;

verus! {

/// The syntax of a type.
#[derive(Debug, PartialEq, Eq)]
pub enum TypeExpr {
    /// A type named by one word: `u8`, `str`, `Foo`.
    Path(Identifier),
    /// `&T` or `&mut T`.
    Reference { mutable: bool, elem: Box<TypeExpr> },
    /// `[T]`.
    Slice(Box<TypeExpr>),
    /// A generic type applied to one argument: `Option<T>`.
    Generic { name: Identifier, arg: Box<TypeExpr> },
}

/// A type expression as a mathematical value.
pub ghost enum TypeView {
    Path(Seq<char>),
    Reference { mutable: bool, elem: Box<TypeView> },
    Slice(Box<TypeView>),
    Generic { name: Seq<char>, arg: Box<TypeView> },
}

impl TypeExpr {
    /// The mathematical value of the type expression.
    pub open spec fn model(&self) -> TypeView
        decreases self,
    {
        match self {
            TypeExpr::Path(name) => TypeView::Path(name@),
            TypeExpr::Reference { mutable, elem } => TypeView::Reference {
                mutable: *mutable,
                elem: Box::new(elem.model()),
            },
            TypeExpr::Slice(elem) => TypeView::Slice(Box::new(elem.model())),
            TypeExpr::Generic { name, arg } => TypeView::Generic {
                name: name@,
                arg: Box::new(arg.model()),
            },
        }
    }
}

impl View for TypeExpr {
    type V = TypeView;

    open spec fn view(&self) -> TypeView {
        self.model()
    }
}

impl TypeView {
    /// The tokens that spell the type.
    pub open spec fn tokens(self) -> Seq<Token>
        decreases self,
    {
        match self {
            TypeView::Path(name) => seq![Token::Ident(name)],
            TypeView::Reference { mutable, elem } => if mutable {
                seq![punct('&'), Token::Ident("mut"@)] + elem.tokens()
            } else {
                seq![punct('&')] + elem.tokens()
            },
            TypeView::Slice(elem) => seq![
                Token::Group { delimiter: Delimiter::Bracket, inner: elem.tokens() },
            ],
            TypeView::Generic { name, arg } => seq![
                Token::Ident(name),
                punct('<'),
            ] + arg.tokens() + seq![punct('>')],
        }
    }

    /// The word that names the type, where the type is one word taken by
    /// value or behind one reference: `Foo`, `&Foo` and `&mut Foo` are all
    /// named `Foo`; `[Foo]`, `&&Foo` and `Option<Foo>` have no such name.
    pub open spec fn named(self) -> Option<Seq<char>> {
        match self {
            TypeView::Path(name) => Some(name),
            TypeView::Reference { elem, .. } => match *elem {
                TypeView::Path(name) => Some(name),
                _ => None,
            },
            _ => None,
        }
    }
}

impl Clone for TypeExpr {
    fn clone(&self) -> (copy: TypeExpr)
        ensures
            copy@ == self@,
        decreases self,
    {
        match self {
            TypeExpr::Path(name) => TypeExpr::Path(name.clone()),
            TypeExpr::Reference { mutable, elem } => TypeExpr::Reference {
                mutable: *mutable,
                elem: Box::new((**elem).clone()),
            },
            TypeExpr::Slice(elem) => TypeExpr::Slice(Box::new((**elem).clone())),
            TypeExpr::Generic { name, arg } => TypeExpr::Generic {
                name: name.clone(),
                arg: Box::new((**arg).clone()),
            },
        }
    }
}

impl TypeExpr {
    /// The word that names the type, if it is one word taken by value or
    /// behind one reference.
    pub fn named(&self) -> (name: Option<&Identifier>)
        ensures
            name is Some <==> self@.named() is Some,
            name matches Some(n) ==> self@.named() == Some(n@),
    {
        proof {
            reveal_with_fuel(TypeExpr::model, 2);
        }
        match self {
            TypeExpr::Path(name) => Some(name),
            TypeExpr::Reference { elem, .. } => match &**elem {
                TypeExpr::Path(name) => Some(name),
                _ => None,
            },
            _ => None,
        }
    }

    /// Whether both spell the same type.
    pub fn same_as(&self, other: &TypeExpr) -> (r: bool)
        ensures
            r == (self@ == other@),
        decreases self,
    {
        match (self, other) {
            (TypeExpr::Path(a), TypeExpr::Path(b)) => a.same_as(b),
            (
                TypeExpr::Reference { mutable: m1, elem: e1 },
                TypeExpr::Reference { mutable: m2, elem: e2 },
            ) => *m1 == *m2 && e1.same_as(e2),
            (TypeExpr::Slice(e1), TypeExpr::Slice(e2)) => e1.same_as(e2),
            (TypeExpr::Generic { name: n1, arg: a1 }, TypeExpr::Generic { name: n2, arg: a2 }) => {
                n1.same_as(n2) && a1.same_as(a2)
            },
            _ => false,
        }
    }

    /// Appends the tokens that spell the type.
    pub fn to_tokens(&self, stream: &mut proc_macro2::TokenStream)
        ensures
            stream_tokens(*final(stream)) == stream_tokens(*old(stream)) + self@.tokens(),
        decreases self,
    {
        match self {
            TypeExpr::Path(name) => {
                push_ident(stream, name.as_str());
            },
            TypeExpr::Reference { mutable, elem } => {
                push_punct(stream, '&', Spacing::Alone);
                if *mutable {
                    proof {
                        reveal_strlit("mut");
                    }
                    push_ident(stream, "mut");
                }
                elem.to_tokens(stream);
            },
            TypeExpr::Slice(elem) => {
                let mut inner = new_stream();
                elem.to_tokens(&mut inner);
                push_group(stream, Delimiter::Bracket, inner);
            },
            TypeExpr::Generic { name, arg } => {
                push_ident(stream, name.as_str());
                push_punct(stream, '<', Spacing::Alone);
                arg.to_tokens(stream);
                push_punct(stream, '>', Spacing::Alone);
            },
        }
    }
}

} // verus!
