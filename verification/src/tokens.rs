//! Token trees, and the `proc_macro2::TokenStream` that the library fills.

use quote::TokenStreamExt;
use vstd::prelude::*;

verus! {

/// The bracket pair around a group of tokens.
#[derive(Clone, Copy, Debug, PartialEq, Eq, Structural)]
pub enum Delimiter {
    /// `( ... )`
    Parenthesis,
    /// `{ ... }`
    Brace,
    /// `[ ... ]`
    Bracket,
}

/// Whether a punctuation character is glued to the token after it.
#[derive(Clone, Copy, Debug, PartialEq, Eq, Structural)]
pub enum Spacing {
    /// Another token or white space follows: `&`, or the second `:` of `::`.
    Alone,
    /// The next punctuation character follows at once: the first `:` of
    /// `::`.
    Joint,
}

/// One token tree, as a mathematical value. Spans are not modelled.
pub ghost enum Token {
    /// A word: an identifier or a keyword.
    Ident(Seq<char>),
    /// One punctuation character.
    Punct { ch: char, spacing: Spacing },
    /// An integer literal without a suffix.
    Integer(nat),
    /// A delimited group with the tokens inside it.
    Group { delimiter: Delimiter, inner: Seq<Token> },
}

/// An ASCII letter or the underscore.
pub open spec fn is_identifier_start(c: char) -> bool {
    ('a' <= c && c <= 'z') || ('A' <= c && c <= 'Z') || c == '_'
}

/// An ASCII letter, an ASCII digit or the underscore.
pub open spec fn is_identifier_continue(c: char) -> bool {
    is_identifier_start(c) || ('0' <= c && c <= '9')
}

/// The words this library accepts as identifiers: non-empty, ASCII, starting
/// with a letter or `_`, continuing with letters, digits and `_`.
pub open spec fn is_identifier(s: Seq<char>) -> bool {
    &&& s.len() > 0
    &&& is_identifier_start(s[0])
    &&& forall|i: int| 0 <= i < s.len() ==> is_identifier_continue(#[trigger] s[i])
}

/// The punctuation characters that a token stream can hold.
pub open spec fn is_punctuation(c: char) -> bool {
    c == '!' || c == '#' || c == '$' || c == '%' || c == '&' || c == '\'' || c == '*' || c == '+'
        || c == ',' || c == '-' || c == '.' || c == '/' || c == ':' || c == ';' || c == '<'
        || c == '=' || c == '>' || c == '?' || c == '@' || c == '^' || c == '|' || c == '~'
}

/// The punctuation mark `ch`, standing alone.
pub open spec fn punct(ch: char) -> Token {
    Token::Punct { ch, spacing: Spacing::Alone }
}

/// The two tokens of `::`.
pub open spec fn colon2() -> Seq<Token> {
    seq![Token::Punct { ch: ':', spacing: Spacing::Joint }, punct(':')]
}

/// The two tokens of `->`.
pub open spec fn arrow() -> Seq<Token> {
    seq![Token::Punct { ch: '-', spacing: Spacing::Joint }, punct('>')]
}

/// One group around `inner`.
pub open spec fn group(delimiter: Delimiter, inner: Seq<Token>) -> Token {
    Token::Group { delimiter, inner }
}

/// The parts in order, with `separator` between each two of them.
pub open spec fn joined(parts: Seq<Seq<Token>>, separator: Seq<Token>) -> Seq<Token>
    decreases parts.len(),
{
    if parts.len() == 0 {
        Seq::empty()
    } else if parts.len() == 1 {
        parts[0]
    } else {
        joined(parts.drop_last(), separator) + separator + parts.last()
    }
}

/// Joining one part more: the separator comes before it unless it is the
/// first.
pub proof fn lemma_joined_step(parts: Seq<Seq<Token>>, separator: Seq<Token>, n: int)
    requires
        0 <= n < parts.len(),
    ensures
        joined(parts.take(n + 1), separator) == if n == 0 {
            parts[n]
        } else {
            joined(parts.take(n), separator) + separator + parts[n]
        },
        joined(parts.take(0), separator) == Seq::<Token>::empty(),
{
    assert(parts.take(n + 1).drop_last() == parts.take(n));
    assert(parts.take(n + 1).last() == parts[n]);
}

/// `proc_macro2::TokenStream`, a list of token trees. Nothing inside it is
/// visible here: what it holds is named by `stream_tokens`.
#[verifier::external_type_specification]
#[verifier::external_body]
pub struct ExTokenStream(proc_macro2::TokenStream);

/// The token trees that a `proc_macro2::TokenStream` holds, in order.
pub uninterp spec fn stream_tokens(stream: proc_macro2::TokenStream) -> Seq<Token>;

/// `proc_macro2::TokenStream::new`: a stream that holds no token.
#[verifier::external_body]
pub(crate) fn new_stream() -> (stream: proc_macro2::TokenStream)
    ensures
        stream_tokens(stream) == Seq::<Token>::empty(),
{
    proc_macro2::TokenStream::new()
}

/// `quote::TokenStreamExt::append` of a `proc_macro2::Ident::new(word,
/// Span::call_site())`: the word is added behind the tokens already there.
/// `Ident::new` panics on a word that is no identifier; `is_identifier`
/// admits only words that it takes.
#[verifier::external_body]
pub(crate) fn push_ident(stream: &mut proc_macro2::TokenStream, word: &str)
    requires
        is_identifier(word@),
    ensures
        stream_tokens(*final(stream)) == stream_tokens(*old(stream)).push(Token::Ident(word@)),
{
    stream.append(proc_macro2::Ident::new(word, proc_macro2::Span::call_site()));
}

/// `quote::TokenStreamExt::append` of a `proc_macro2::Punct::new(ch,
/// spacing)`: the character is added behind the tokens already there, with
/// the spacing given. `Punct::new` panics on any character outside
/// `is_punctuation`.
#[verifier::external_body]
pub(crate) fn push_punct(stream: &mut proc_macro2::TokenStream, ch: char, spacing: Spacing)
    requires
        is_punctuation(ch),
    ensures
        stream_tokens(*final(stream)) == stream_tokens(*old(stream)).push(
            Token::Punct { ch, spacing },
        ),
{
    let spacing = match spacing {
        Spacing::Alone => proc_macro2::Spacing::Alone,
        Spacing::Joint => proc_macro2::Spacing::Joint,
    };
    stream.append(proc_macro2::Punct::new(ch, spacing));
}

/// `quote::TokenStreamExt::append` of a
/// `proc_macro2::Literal::usize_unsuffixed(value)`: the number is added behind
/// the tokens already there, written without a suffix.
#[verifier::external_body]
pub(crate) fn push_integer(stream: &mut proc_macro2::TokenStream, value: usize)
    ensures
        stream_tokens(*final(stream)) == stream_tokens(*old(stream)).push(
            Token::Integer(value as nat),
        ),
{
    stream.append(proc_macro2::Literal::usize_unsuffixed(value));
}

/// `quote::TokenStreamExt::append` of a `proc_macro2::Group::new(delimiter,
/// inner)`: one group that holds the tokens of `inner` is added behind the
/// tokens already there.
#[verifier::external_body]
pub(crate) fn push_group(
    stream: &mut proc_macro2::TokenStream,
    delimiter: Delimiter,
    inner: proc_macro2::TokenStream,
)
    ensures
        stream_tokens(*final(stream)) == stream_tokens(*old(stream)).push(
            Token::Group { delimiter, inner: stream_tokens(inner) },
        ),
{
    let delimiter = match delimiter {
        Delimiter::Parenthesis => proc_macro2::Delimiter::Parenthesis,
        Delimiter::Brace => proc_macro2::Delimiter::Brace,
        Delimiter::Bracket => proc_macro2::Delimiter::Bracket,
    };
    stream.append(proc_macro2::Group::new(delimiter, inner));
}

/// Appends `::`.
pub fn push_colon2(stream: &mut proc_macro2::TokenStream)
    ensures
        stream_tokens(*final(stream)) == stream_tokens(*old(stream)) + colon2(),
{
    push_punct(stream, ':', Spacing::Joint);
    push_punct(stream, ':', Spacing::Alone);
}

/// Appends `->`.
pub fn push_arrow(stream: &mut proc_macro2::TokenStream)
    ensures
        stream_tokens(*final(stream)) == stream_tokens(*old(stream)) + arrow(),
{
    push_punct(stream, '-', Spacing::Joint);
    push_punct(stream, '>', Spacing::Alone);
}

} // verus!
