//! The expressions that make up the body of a synthesized wrapper.

use crate::ident::Identifier;
use crate::path::{Path, PathView};
use crate::tokens::{
    group, joined, lemma_joined_step, new_stream, punct, push_group, push_ident, push_integer,
    push_punct, stream_tokens, Delimiter, Spacing, Token,
};
use vstd::prelude::*;

verus! {

/// An expression in the body of a wrapper.
#[derive(Debug, PartialEq, Eq)]
pub enum Expr {
    /// A parameter, passed on under its name.
    Name(Identifier),
    /// The raw handle that the receiver wraps: `self.0`.
    ReceiverHandle,
    /// A function applied to one value: `path(arg)`.
    Call { func: Path, arg: Box<Expr> },
    /// A method without arguments called on a value: `receiver.method()`.
    MethodCall { receiver: Box<Expr>, method: Identifier },
    /// The one-field constructor of an opaque type around a handle: `Ty(arg)`.
    Construct { ty: Identifier, arg: Box<Expr> },
    /// The call of the linked symbol, alone inside an unsafe block:
    /// `unsafe { symbol(args) }`.
    UnsafeCall { symbol: Identifier, args: Vec<Expr> },
}

/// An expression as a mathematical value.
pub ghost enum ExprView {
    Name(Seq<char>),
    ReceiverHandle,
    Call { func: PathView, arg: Box<ExprView> },
    MethodCall { receiver: Box<ExprView>, method: Seq<char> },
    Construct { ty: Seq<char>, arg: Box<ExprView> },
    UnsafeCall { symbol: Seq<char>, args: Seq<ExprView> },
}

impl Expr {
    /// The mathematical value of the expression.
    pub open spec fn model(&self) -> ExprView
        decreases self,
    {
        match self {
            Expr::Name(name) => ExprView::Name(name@),
            Expr::ReceiverHandle => ExprView::ReceiverHandle,
            Expr::Call { func, arg } => ExprView::Call { func: func@, arg: Box::new(arg.model()) },
            Expr::MethodCall { receiver, method } => ExprView::MethodCall {
                receiver: Box::new(receiver.model()),
                method: method@,
            },
            Expr::Construct { ty, arg } => ExprView::Construct {
                ty: ty@,
                arg: Box::new(arg.model()),
            },
            Expr::UnsafeCall { symbol, args } => ExprView::UnsafeCall {
                symbol: symbol@,
                args: Seq::new(
                    args@.len(),
                    |i: int|
                        if 0 <= i < args@.len() {
                            args@[i].model()
                        } else {
                            ExprView::ReceiverHandle
                        },
                ),
            },
        }
    }
}

impl View for Expr {
    type V = ExprView;

    open spec fn view(&self) -> ExprView {
        self.model()
    }
}

/// The views of a list of expressions.
pub open spec fn expr_views(exprs: Seq<Expr>) -> Seq<ExprView> {
    Seq::new(exprs.len(), |i: int| exprs[i]@)
}

impl ExprView {
    /// The tokens that spell the expression.
    pub open spec fn tokens(self) -> Seq<Token>
        decreases self,
    {
        match self {
            ExprView::Name(name) => seq![Token::Ident(name)],
            ExprView::ReceiverHandle => seq![Token::Ident("self"@), punct('.'), Token::Integer(0)],
            ExprView::Call { func, arg } => func.tokens() + seq![
                group(Delimiter::Parenthesis, arg.tokens()),
            ],
            ExprView::MethodCall { receiver, method } => receiver.tokens() + seq![
                punct('.'),
                Token::Ident(method),
                group(Delimiter::Parenthesis, Seq::empty()),
            ],
            ExprView::Construct { ty, arg } => seq![
                Token::Ident(ty),
                group(Delimiter::Parenthesis, arg.tokens()),
            ],
            ExprView::UnsafeCall { symbol, args } => seq![
                Token::Ident("unsafe"@),
                group(
                    Delimiter::Brace,
                    seq![
                        Token::Ident(symbol),
                        group(
                            Delimiter::Parenthesis,
                            joined(argument_tokens(args), seq![punct(',')]),
                        ),
                    ],
                ),
            ],
        }
    }
}

/// The tokens of each argument of a call.
pub open spec fn argument_tokens(args: Seq<ExprView>) -> Seq<Seq<Token>>
    decreases args,
{
    Seq::new(
        args.len(),
        |i: int|
            if 0 <= i < args.len() {
                args[i].tokens()
            } else {
                Seq::empty()
            },
    )
}

impl Expr {
    /// Appends the tokens that spell the expression.
    #[verifier::loop_isolation(false)]
    pub fn to_tokens(&self, stream: &mut proc_macro2::TokenStream)
        ensures
            stream_tokens(*final(stream)) == stream_tokens(*old(stream)) + self@.tokens(),
        decreases self,
    {
        match self {
            Expr::Name(name) => {
                push_ident(stream, name.as_str());
            },
            Expr::ReceiverHandle => {
                proof {
                    reveal_strlit("self");
                }
                push_ident(stream, "self");
                push_punct(stream, '.', Spacing::Alone);
                push_integer(stream, 0);
            },
            Expr::Call { func, arg } => {
                func.to_tokens(stream);
                let mut inner = new_stream();
                arg.to_tokens(&mut inner);
                assert(stream_tokens(inner) =~= arg@.tokens());
                push_group(stream, Delimiter::Parenthesis, inner);
            },
            Expr::MethodCall { receiver, method } => {
                receiver.to_tokens(stream);
                push_punct(stream, '.', Spacing::Alone);
                push_ident(stream, method.as_str());
                push_group(stream, Delimiter::Parenthesis, new_stream());
            },
            Expr::Construct { ty, arg } => {
                push_ident(stream, ty.as_str());
                let mut inner = new_stream();
                arg.to_tokens(&mut inner);
                assert(stream_tokens(inner) =~= arg@.tokens());
                push_group(stream, Delimiter::Parenthesis, inner);
            },
            Expr::UnsafeCall { symbol, args } => {
                let ghost parts = argument_tokens(self@->UnsafeCall_args);
                let mut list = new_stream();
                let mut i: usize = 0;
                while i < args.len()
                    invariant
                        i <= args.len(),
                        parts.len() == args@.len(),
                        forall|j: int| 0 <= j < args@.len() ==> parts[j] == args@[j]@.tokens(),
                        stream_tokens(list) == joined(parts.take(i as int), seq![punct(',')]),
                    decreases args.len() - i,
                {
                    proof {
                        lemma_joined_step(parts, seq![punct(',')], i as int);
                    }
                    if i > 0 {
                        push_punct(&mut list, ',', Spacing::Alone);
                    }
                    args[i].to_tokens(&mut list);
                    i = i + 1;
                }
                proof {
                    assert(parts.take(parts.len() as int) =~= parts);
                    reveal_strlit("unsafe");
                }
                let mut block = new_stream();
                push_ident(&mut block, symbol.as_str());
                push_group(&mut block, Delimiter::Parenthesis, list);
                assert(stream_tokens(block) =~= seq![
                    Token::Ident(symbol@),
                    group(Delimiter::Parenthesis, joined(parts, seq![punct(',')])),
                ]);
                push_ident(stream, "unsafe");
                push_group(stream, Delimiter::Brace, block);
            },
        }
    }
}

} // verus!
