//! The synthesized wrapper function.

use crate::expr::{Expr, ExprView};
use crate::fn_arg::{arg_views, FnArg, FnArgView};
use crate::ident::Identifier;
use crate::tokens::{
    arrow, group, joined, lemma_joined_step, new_stream, punct, push_arrow, push_group,
    push_ident, push_punct, stream_tokens, Delimiter, Spacing, Token,
};
use crate::types::{TypeExpr, TypeView};
use vstd::prelude::*;

verus! {

/// A wrapper function: its signature, and the one expression that is its
/// body.
#[derive(Debug, PartialEq, Eq)]
pub struct WrapperFunction {
    /// The name, which is that of the declaration.
    pub name: Identifier,
    /// The parameters, the receiver among them in bare form.
    pub inputs: Vec<FnArg>,
    /// The return type as the declaration spells it.
    pub output: Option<TypeExpr>,
    /// The body.
    pub body: Expr,
}

/// A wrapper function as a mathematical value.
pub ghost struct WrapperFunctionView {
    pub name: Seq<char>,
    pub inputs: Seq<FnArgView>,
    pub output: Option<TypeView>,
    pub body: ExprView,
}

impl View for WrapperFunction {
    type V = WrapperFunctionView;

    open spec fn view(&self) -> WrapperFunctionView {
        WrapperFunctionView {
            name: self.name@,
            inputs: arg_views(self.inputs@),
            output: match self.output {
                Some(ty) => Some(ty@),
                None => None,
            },
            body: self.body@,
        }
    }
}

/// The tokens of each parameter of a list.
pub open spec fn input_tokens(inputs: Seq<FnArgView>) -> Seq<Seq<Token>> {
    inputs.map_values(|arg: FnArgView| arg.tokens())
}

/// The tokens of a return type with the arrow before it; nothing where the
/// function returns nothing.
pub open spec fn output_tokens(output: Option<TypeView>) -> Seq<Token> {
    match output {
        Some(ty) => arrow() + ty.tokens(),
        None => Seq::empty(),
    }
}

impl WrapperFunctionView {
    /// The tokens of the wrapper: `pub fn name(inputs) -> output { body }`.
    pub open spec fn tokens(self) -> Seq<Token> {
        seq![
            Token::Ident("pub"@),
            Token::Ident("fn"@),
            Token::Ident(self.name),
            group(Delimiter::Parenthesis, joined(input_tokens(self.inputs), seq![punct(',')])),
        ] + output_tokens(self.output) + seq![group(Delimiter::Brace, self.body.tokens())]
    }
}

impl WrapperFunction {
    /// Appends the tokens of the wrapper.
    pub fn to_tokens(&self, stream: &mut proc_macro2::TokenStream)
        ensures
            stream_tokens(*final(stream)) == stream_tokens(*old(stream)) + self@.tokens(),
    {
        let ghost parts = input_tokens(self@.inputs);
        let mut list = new_stream();
        let mut i: usize = 0;
        while i < self.inputs.len()
            invariant
                i <= self.inputs.len(),
                parts == input_tokens(self@.inputs),
                stream_tokens(list) == joined(parts.take(i as int), seq![punct(',')]),
            decreases self.inputs.len() - i,
        {
            proof {
                lemma_joined_step(parts, seq![punct(',')], i as int);
            }
            if i > 0 {
                push_punct(&mut list, ',', Spacing::Alone);
            }
            self.inputs[i].to_tokens(&mut list);
            i = i + 1;
        }
        proof {
            assert(parts.take(parts.len() as int) =~= parts);
            reveal_strlit("pub");
            reveal_strlit("fn");
        }
        push_ident(stream, "pub");
        push_ident(stream, "fn");
        push_ident(stream, self.name.as_str());
        push_group(stream, Delimiter::Parenthesis, list);
        match &self.output {
            Some(ty) => {
                push_arrow(stream);
                ty.to_tokens(stream);
            },
            None => {},
        }
        let mut body = new_stream();
        self.body.to_tokens(&mut body);
        assert(stream_tokens(body) =~= self@.body.tokens());
        push_group(stream, Delimiter::Brace, body);
    }

    /// The tokens of the wrapper as a stream of their own.
    pub fn into_token_stream(&self) -> (stream: proc_macro2::TokenStream)
        ensures
            stream_tokens(stream) == self@.tokens(),
    {
        let mut stream = new_stream();
        self.to_tokens(&mut stream);
        stream
    }
}

} // verus!
