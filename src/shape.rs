//! Plain-data shapes of the parts of a function declaration that the
//! plugin transformation reads.
use vstd::prelude::*;

verus! {

/// The shape of a written type, as far as the transformation looks into it.
pub enum TypeShape {
    /// `&T` or `&mut T`.
    Reference { mutable: bool, elem: Box<TypeShape> },
    /// A path such as `bevy::app::App`: one identifier per segment.
    Path { segments: Vec<String> },
    /// Any other type.
    Other,
}

/// The shape of one function argument.
pub enum FnArgShape {
    /// `self`, `&self` or `&mut self`.
    Receiver,
    /// `pat: ty`; `ident` is the bound name when the pattern is a plain
    /// identifier, and `None` for `_` or a destructuring pattern.
    Typed { ident: Option<String>, ty: TypeShape },
}

/// One generic parameter of the function.
pub enum GenericParamShape {
    /// `'name: 'b1 + 'b2`; names are written without the apostrophe.
    Lifetime { name: String, bounds: Vec<String> },
    /// `T: B1 + B2`; each bound as written.
    Type { ident: String, bounds: Vec<String> },
    /// `const N: ty`.
    Const { ident: String },
}

/// One predicate of a `where` clause.
pub enum WherePredicateShape {
    /// `'name: 'b1 + 'b2`; names are written without the apostrophe.
    Lifetime { name: String, bounds: Vec<String> },
    /// `Ty: B1 + B2`; `ident` is the bounded type's name when it is a
    /// path of one segment, such as `T`.
    Type { ident: Option<String> },
    /// Any other predicate.
    Other,
}

/// The return type written in a signature.
pub enum ReturnShape {
    /// No `->` is written.
    Default,
    /// `-> ()`.
    Unit,
    /// Any other return type.
    Other,
}

/// A function signature: its arguments, generics and return type.
pub struct SignatureShape {
    pub inputs: Vec<FnArgShape>,
    pub generics: Vec<GenericParamShape>,
    /// `None` when no `where` keyword is written.
    pub where_clause: Option<Vec<WherePredicateShape>>,
    pub output: ReturnShape,
}

} // verus!
