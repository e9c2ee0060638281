//! Identifiers: the names of functions, parameters and types.

use crate::tokens::{is_identifier, is_identifier_continue, is_identifier_start};
use vstd::prelude::*;

verus! {

/// A name that is known to be an identifier.
#[derive(Debug, PartialEq, Eq)]
pub struct Identifier {
    name: String,
}

impl View for Identifier {
    type V = Seq<char>;

    closed spec fn view(&self) -> Seq<char> {
        self.name@
    }
}

/// Whether `c` can start an identifier.
pub fn identifier_start(c: char) -> (r: bool)
    ensures
        r == is_identifier_start(c),
{
    ('a' <= c && c <= 'z') || ('A' <= c && c <= 'Z') || c == '_'
}

/// Whether `c` can stand inside an identifier.
pub fn identifier_continue(c: char) -> (r: bool)
    ensures
        r == is_identifier_continue(c),
{
    identifier_start(c) || ('0' <= c && c <= '9')
}

/// Whether `word` is an identifier.
pub fn is_valid_identifier(word: &str) -> (r: bool)
    ensures
        r == is_identifier(word@),
{
    let len: usize = word.unicode_len();
    if len == 0 {
        return false;
    }
    if !identifier_start(word.get_char(0)) {
        return false;
    }
    let mut i: usize = 1;
    while i < len
        invariant
            1 <= i <= len,
            len == word@.len(),
            is_identifier_start(word@[0]),
            forall|j: int| 0 <= j < i ==> is_identifier_continue(#[trigger] word@[j]),
        decreases len - i,
    {
        if !identifier_continue(word.get_char(i)) {
            return false;
        }
        i = i + 1;
    }
    true
}

impl Identifier {
    #[verifier::type_invariant]
    spec fn well_formed(&self) -> bool {
        is_identifier(self.name@)
    }

    /// The identifier spelled `word`, or `None` when `word` is no identifier.
    pub fn new(word: &str) -> (r: Option<Identifier>)
        ensures
            r is Some <==> is_identifier(word@),
            r matches Some(id) ==> id@ == word@,
    {
        if is_valid_identifier(word) {
            Some(Identifier { name: String::from_str(word) })
        } else {
            None
        }
    }

    /// The spelling.
    pub fn as_str(&self) -> (s: &str)
        ensures
            s@ == self@,
            is_identifier(s@),
    {
        proof {
            use_type_invariant(self);
        }
        self.name.as_str()
    }

    /// This identifier continued by `tail`.
    pub fn concat(&self, tail: &Identifier) -> (joined: Identifier)
        ensures
            joined@ == self@ + tail@,
    {
        proof {
            use_type_invariant(self);
            use_type_invariant(tail);
        }
        let mut name = self.name.clone();
        name.append(tail.name.as_str());
        Identifier { name }
    }

    /// Whether both are spelled alike.
    pub fn same_as(&self, other: &Identifier) -> (r: bool)
        ensures
            r == (self@ == other@),
    {
        self.name == other.name
    }

    /// Whether this is spelled `word`.
    pub fn is_spelled(&self, word: &str) -> (r: bool)
        ensures
            r == (self@ == word@),
    {
        let other = String::from_str(word);
        self.name == other
    }
}

impl Clone for Identifier {
    fn clone(&self) -> (r: Identifier)
        ensures
            r@ == self@,
    {
        proof {
            use_type_invariant(self);
        }
        Identifier { name: self.name.clone() }
    }
}

} // verus!
