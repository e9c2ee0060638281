//! Paths: names joined by `::`.

use crate::ident::Identifier;
use crate::tokens::{colon2, joined, lemma_joined_step, push_colon2, push_ident, stream_tokens, Token};
use vstd::prelude::*;

verus! {

/// A path such as `swift_bridge::string::RustStr`.
#[derive(Debug, PartialEq, Eq)]
pub struct Path {
    /// Whether the path starts with `::`.
    pub leading_colon: bool,
    /// The names, outermost first.
    pub segments: Vec<Identifier>,
}

/// A path as a mathematical value.
pub ghost struct PathView {
    pub leading_colon: bool,
    pub segments: Seq<Seq<char>>,
}

/// The spellings of a list of identifiers.
pub open spec fn spellings(names: Seq<Identifier>) -> Seq<Seq<char>> {
    names.map_values(|name: Identifier| name@)
}

impl View for Path {
    type V = PathView;

    open spec fn view(&self) -> PathView {
        PathView { leading_colon: self.leading_colon, segments: spellings(self.segments@) }
    }
}

impl PathView {
    /// The path that continues this one with the names of `tail`.
    pub open spec fn join(self, tail: Seq<Seq<char>>) -> PathView {
        PathView { leading_colon: self.leading_colon, segments: self.segments + tail }
    }

    /// Each segment as the one token that spells it.
    pub open spec fn segment_tokens(self) -> Seq<Seq<Token>> {
        self.segments.map_values(|name: Seq<char>| seq![Token::Ident(name)])
    }

    /// The tokens that spell the path.
    pub open spec fn tokens(self) -> Seq<Token> {
        if self.leading_colon {
            colon2() + joined(self.segment_tokens(), colon2())
        } else {
            joined(self.segment_tokens(), colon2())
        }
    }
}

/// Copies a list of identifiers.
pub fn clone_names(names: &Vec<Identifier>) -> (copy: Vec<Identifier>)
    ensures
        spellings(copy@) == spellings(names@),
{
    let mut copy: Vec<Identifier> = Vec::new();
    let mut i: usize = 0;
    while i < names.len()
        invariant
            i <= names.len(),
            copy.len() == i,
            forall|j: int| 0 <= j < i ==> copy@[j]@ == names@[j]@,
        decreases names.len() - i,
    {
        copy.push(names[i].clone());
        i = i + 1;
    }
    assert(spellings(copy@) =~= spellings(names@));
    copy
}

impl Path {
    /// The path that continues this one with the names of `tail`.
    pub fn join(&self, tail: &Vec<Identifier>) -> (path: Path)
        ensures
            path@ == self@.join(spellings(tail@)),
    {
        let mut segments = clone_names(&self.segments);
        let ghost head = spellings(segments@);
        let mut i: usize = 0;
        while i < tail.len()
            invariant
                i <= tail.len(),
                head == spellings(self.segments@),
                segments.len() == head.len() + i,
                forall|j: int| 0 <= j < head.len() ==> segments@[j]@ == head[j],
                forall|j: int| 0 <= j < i ==> segments@[head.len() + j]@ == tail@[j]@,
            decreases tail.len() - i,
        {
            segments.push(tail[i].clone());
            i = i + 1;
        }
        assert(spellings(segments@) =~= head + spellings(tail@));
        Path { leading_colon: self.leading_colon, segments }
    }

    /// Appends the tokens that spell the path.
    pub fn to_tokens(&self, stream: &mut proc_macro2::TokenStream)
        ensures
            stream_tokens(*final(stream)) == stream_tokens(*old(stream)) + self@.tokens(),
    {
        if self.leading_colon {
            push_colon2(stream);
        }
        let ghost start = stream_tokens(*stream);
        let ghost parts = self@.segment_tokens();
        let mut i: usize = 0;
        while i < self.segments.len()
            invariant
                i <= self.segments.len(),
                parts == self@.segment_tokens(),
                stream_tokens(*stream) == start + joined(parts.take(i as int), colon2()),
            decreases self.segments.len() - i,
        {
            proof {
                lemma_joined_step(parts, colon2(), i as int);
            }
            if i > 0 {
                push_colon2(stream);
            }
            push_ident(stream, self.segments[i].as_str());
            i = i + 1;
        }
        proof {
            assert(parts.take(parts.len() as int) =~= parts);
        }
    }
}

} // verus!
