//! The syntactic model of a record declaration, as a front end decodes it.
//!
//! Every type node and every annotation carries a node number chosen by the
//! front end, so that a plan can point back at the original syntax (to reuse
//! a type in generated code, or to anchor a diagnostic at an annotation).

use vstd::prelude::*;

verus! {

/// A declared type, examined only as far as its outer shape.
pub enum TypeSyntax {
    /// A path type without a qualified-self prefix, such as `a::B<C>`.
    Path { node: usize, leading_colon: bool, segments: Vec<SegmentSyntax> },
    /// Any other shape: references, tuples, arrays, qualified paths, ...
    Other { node: usize },
}

/// One segment of a path: its identifier and what follows it.
pub struct SegmentSyntax {
    pub ident: String,
    pub args: ArgsSyntax,
}

/// The arguments of a path segment.
pub enum ArgsSyntax {
    /// No arguments.
    Bare,
    /// `<...>`, or `::<...>` when `turbofish` holds.
    Angle { turbofish: bool, args: Vec<ArgSyntax> },
    /// `(...) -> ...`, as in `Fn(A) -> B`.
    Paren,
}

/// One angle-bracketed argument.
pub enum ArgSyntax {
    /// A type argument.
    Type(TypeSyntax),
    /// A lifetime, a constant, a binding or a constraint.
    Other,
}

/// The literal of an annotation entry.
pub enum LitSyntax {
    Str(String),
    Other,
}

/// One entry of a list annotation, `key(entry, entry, ...)`.
pub enum NestedSyntax {
    /// `path = literal`
    NameValue { path: Vec<String>, lit: LitSyntax },
    /// A bare path, a nested list or a bare literal.
    Other,
}

/// What follows the path of an annotation.
pub enum MetaSyntax {
    /// `#[key]`
    Word,
    /// `#[key(entries)]`
    List(Vec<NestedSyntax>),
    /// `#[key = literal]`
    NameValue(LitSyntax),
    /// Tokens that do not form any of the shapes above.
    Unparsed,
}

/// One annotation attached to a field: `#[path ...]`.
pub struct AnnotationSyntax {
    pub node: usize,
    pub path: Vec<String>,
    pub meta: MetaSyntax,
}

/// One named field of a record.
pub struct FieldSpec {
    pub ident: String,
    pub ty: TypeSyntax,
    pub attrs: Vec<AnnotationSyntax>,
}

/// One generic parameter of the declaration.
pub enum GenericParamSyntax {
    /// A type parameter, by its identifier.
    Type(String),
    /// A lifetime or a constant parameter.
    Other,
}

/// The body of the declaration.
pub enum RecordBody {
    /// A record with named fields, in declaration order.
    Named(Vec<FieldSpec>),
    /// A tuple or unit record, an enumeration or a union.
    Other,
}

/// A whole declaration: its identifier, generic parameters and body.
pub struct TypeDeclaration {
    pub node: usize,
    pub ident: String,
    pub generics: Vec<GenericParamSyntax>,
    pub body: RecordBody,
}

impl TypeSyntax {
    /// The node number of this type.
    pub open spec fn spec_node(self) -> usize {
        match self {
            TypeSyntax::Path { node, .. } => node,
            TypeSyntax::Other { node } => node,
        }
    }

    pub fn node(&self) -> (r: usize)
        ensures
            r == self.spec_node(),
    {
        match self {
            TypeSyntax::Path { node, .. } => *node,
            TypeSyntax::Other { node } => *node,
        }
    }
}

} // verus!
