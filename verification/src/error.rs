//! Why a declaration has no wrapper.

use crate::ident::Identifier;
use vstd::prelude::*;

verus! {

/// The kind of fault found in a declaration.
#[derive(Clone, Copy, Debug, PartialEq, Eq, Structural)]
pub enum ErrorKind {
    /// The type is neither built-in nor a declared opaque type.
    UnsupportedType,
    /// A parameter named `self` has a type other than the declaring type or
    /// a reference to it.
    MalformedReceiver,
}

/// The place of a type in a declaration.
#[derive(Clone, Copy, Debug, PartialEq, Eq, Structural)]
pub enum Position {
    /// The parameter with this index, counted from zero.
    Parameter(usize),
    /// The return type.
    Return,
}

/// A fault in a declaration, with the declaration and the place it was
/// found at.
#[derive(Debug, PartialEq, Eq)]
pub struct SynthesisError {
    /// What is wrong.
    pub kind: ErrorKind,
    /// The name of the declaring type.
    pub declaring_type: Identifier,
    /// The name of the declared function.
    pub function: Identifier,
    /// Where in the declaration.
    pub position: Position,
}

/// An error as a mathematical value.
pub ghost struct SynthesisErrorView {
    pub kind: ErrorKind,
    pub declaring_type: Seq<char>,
    pub function: Seq<char>,
    pub position: Position,
}

impl View for SynthesisError {
    type V = SynthesisErrorView;

    open spec fn view(&self) -> SynthesisErrorView {
        SynthesisErrorView {
            kind: self.kind,
            declaring_type: self.declaring_type@,
            function: self.function@,
            position: self.position,
        }
    }
}

} // verus!
