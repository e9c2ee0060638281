//! The catalog of types that can cross the boundary, and the classifier that
//! consults it.

use crate::expr::{Expr, ExprView};
use crate::ident::Identifier;
use crate::path::{spellings, Path, PathView};
use crate::search::first_index;
use crate::types::{TypeExpr, TypeView};
use vstd::prelude::*;

verus! {

/// How a value is converted when it crosses the boundary.
#[derive(Debug, PartialEq, Eq)]
pub enum ConversionRule {
    /// The value crosses as it is.
    Passthrough,
    /// The value is handed to a function of the bridge crate. The names give
    /// the function's path below the bridge crate's own path.
    Call(Vec<Identifier>),
    /// A method without arguments is called on the value.
    Method(Identifier),
}

/// A conversion rule as a mathematical value.
pub ghost enum ConversionRuleView {
    Passthrough,
    Call(Seq<Seq<char>>),
    Method(Seq<char>),
}

impl View for ConversionRule {
    type V = ConversionRuleView;

    open spec fn view(&self) -> ConversionRuleView {
        match self {
            ConversionRule::Passthrough => ConversionRuleView::Passthrough,
            ConversionRule::Call(names) => ConversionRuleView::Call(spellings(names@)),
            ConversionRule::Method(name) => ConversionRuleView::Method(name@),
        }
    }
}

impl ConversionRuleView {
    /// The expression that converts `value` by this rule, with the bridge
    /// crate reachable under `bridge`.
    pub open spec fn apply(self, bridge: PathView, value: ExprView) -> ExprView {
        match self {
            ConversionRuleView::Passthrough => value,
            ConversionRuleView::Call(names) => ExprView::Call {
                func: bridge.join(names),
                arg: Box::new(value),
            },
            ConversionRuleView::Method(name) => ExprView::MethodCall {
                receiver: Box::new(value),
                method: name,
            },
        }
    }
}

impl ConversionRule {
    /// The expression that converts `value` by this rule, with the bridge
    /// crate reachable under `bridge`.
    pub fn apply(&self, bridge: &Path, value: Expr) -> (converted: Expr)
        ensures
            converted@ == self@.apply(bridge@, value@),
    {
        match self {
            ConversionRule::Passthrough => value,
            ConversionRule::Call(names) => Expr::Call {
                func: bridge.join(names),
                arg: Box::new(value),
            },
            ConversionRule::Method(name) => Expr::MethodCall {
                receiver: Box::new(value),
                method: name.clone(),
            },
        }
    }
}

/// A type with a known representation on the boundary, and the two rules
/// that convert its values.
#[derive(Debug, PartialEq, Eq)]
pub struct BuiltInType {
    /// The type as declarations spell it.
    pub ty: TypeExpr,
    /// Argument position: from the native value to the one that crosses.
    pub to_ffi: ConversionRule,
    /// Return position: from the value that crossed back to the native one.
    pub to_native: ConversionRule,
}

/// A built-in type as a mathematical value.
pub ghost struct BuiltInTypeView {
    pub ty: TypeView,
    pub to_ffi: ConversionRuleView,
    pub to_native: ConversionRuleView,
}

impl View for BuiltInType {
    type V = BuiltInTypeView;

    open spec fn view(&self) -> BuiltInTypeView {
        BuiltInTypeView { ty: self.ty@, to_ffi: self.to_ffi@, to_native: self.to_native@ }
    }
}

/// The types that declarations may name: the built-in types with their
/// conversion rules, and the names of the declared opaque types.
#[derive(Debug, PartialEq, Eq)]
pub struct TypeCatalog {
    /// The built-in types. Where a type is listed twice, the first entry
    /// counts.
    pub built_ins: Vec<BuiltInType>,
    /// The names of the declared opaque types.
    pub opaque_types: Vec<Identifier>,
}

/// A catalog as a mathematical value.
pub ghost struct TypeCatalogView {
    pub built_ins: Seq<BuiltInTypeView>,
    pub opaque_types: Seq<Seq<char>>,
}

impl View for TypeCatalog {
    type V = TypeCatalogView;

    open spec fn view(&self) -> TypeCatalogView {
        TypeCatalogView {
            built_ins: self.built_ins@.map_values(|entry: BuiltInType| entry@),
            opaque_types: spellings(self.opaque_types@),
        }
    }
}

/// What the classifier found a type to be.
#[derive(Debug, PartialEq, Eq)]
pub enum TypeClass<'a> {
    /// A built-in type, with its entry in the catalog.
    BuiltIn(&'a BuiltInType),
    /// A handle to a declared opaque type of the given name.
    Opaque(&'a Identifier),
}

/// A classification as a mathematical value.
pub ghost enum TypeClassView {
    BuiltIn(BuiltInTypeView),
    Opaque(Seq<char>),
}

impl<'a> View for TypeClass<'a> {
    type V = TypeClassView;

    open spec fn view(&self) -> TypeClassView {
        match self {
            TypeClass::BuiltIn(entry) => TypeClassView::BuiltIn(entry@),
            TypeClass::Opaque(name) => TypeClassView::Opaque(name@),
        }
    }
}

impl TypeCatalogView {
    /// The first built-in entry for `ty`, if the catalog has one.
    pub open spec fn lookup(self, ty: TypeView) -> Option<BuiltInTypeView> {
        match first_index(self.built_ins, |entry: BuiltInTypeView| entry.ty == ty) {
            Some(i) => Some(self.built_ins[i]),
            None => None,
        }
    }

    /// The class of `ty`: built-in where the catalog lists it; otherwise
    /// opaque where it is named, by value or behind one reference, by a
    /// declared opaque type; otherwise none, and the type is unsupported.
    pub open spec fn classify(self, ty: TypeView) -> Option<TypeClassView> {
        match self.lookup(ty) {
            Some(entry) => Some(TypeClassView::BuiltIn(entry)),
            None => match ty.named() {
                Some(name) => if self.opaque_types.contains(name) {
                    Some(TypeClassView::Opaque(name))
                } else {
                    None
                },
                None => None,
            },
        }
    }
}

impl TypeCatalog {
    /// The first built-in entry for `ty`, if the catalog has one.
    pub fn lookup(&self, ty: &TypeExpr) -> (found: Option<&BuiltInType>)
        ensures
            found is Some <==> self@.lookup(ty@) is Some,
            found matches Some(entry) ==> self@.lookup(ty@) == Some(entry@),
    {
        let ghost entries = self@.built_ins;
        let ghost wanted = |entry: BuiltInTypeView| entry.ty == ty@;
        let mut i: usize = 0;
        while i < self.built_ins.len()
            invariant
                i <= self.built_ins.len(),
                entries == self@.built_ins,
                wanted == |entry: BuiltInTypeView| entry.ty == ty@,
                first_index(entries, wanted) == crate::search::first_from(entries, wanted, i as int),
            decreases self.built_ins.len() - i,
        {
            if self.built_ins[i].ty.same_as(ty) {
                return Some(&self.built_ins[i]);
            }
            i = i + 1;
        }
        None
    }

    /// Whether `name` is the name of a declared opaque type.
    pub fn is_opaque(&self, name: &Identifier) -> (found: bool)
        ensures
            found == self@.opaque_types.contains(name@),
    {
        let mut i: usize = 0;
        while i < self.opaque_types.len()
            invariant
                i <= self.opaque_types.len(),
                forall|j: int| 0 <= j < i ==> self@.opaque_types[j] != name@,
            decreases self.opaque_types.len() - i,
        {
            if self.opaque_types[i].same_as(name) {
                assert(self@.opaque_types[i as int] == name@);
                return true;
            }
            i = i + 1;
        }
        false
    }

    /// Classifies `ty`. `None` says that the type is unsupported.
    pub fn classify<'a>(&'a self, ty: &'a TypeExpr) -> (class: Option<TypeClass<'a>>)
        ensures
            class is Some <==> self@.classify(ty@) is Some,
            class matches Some(c) ==> self@.classify(ty@) == Some(c@),
    {
        match self.lookup(ty) {
            Some(entry) => Some(TypeClass::BuiltIn(entry)),
            None => match ty.named() {
                Some(name) => if self.is_opaque(name) {
                    Some(TypeClass::Opaque(name))
                } else {
                    None
                },
                None => None,
            },
        }
    }
}

} // verus!
