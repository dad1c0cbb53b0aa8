//! Field classification: is a declared type optional, a collection, or plain?
//!
//! The decision is syntactic. Only the first segment of a path type is read:
//! `Option<T>` and `Vec<T>` are recognised, a local alias of either is not.

use vstd::prelude::*;
use crate::syntax::{ArgSyntax, ArgsSyntax, SegmentSyntax, TypeSyntax};

verus! {

/// How a field's declared type wraps the value it holds.
#[derive(Clone, Copy, Debug, PartialEq, Eq, Structural)]
pub enum WrapperKind {
    /// Any type that is not recognised as a wrapper.
    Plain,
    /// `Option<inner>`; `inner` is the node of the argument.
    Optional { inner: usize },
    /// `Vec<inner>`; `inner` is the node of the argument.
    Collection { inner: usize },
}

/// The text of a path: its segments joined by `::`.
pub open spec fn path_text(p: Seq<String>) -> Seq<char>
    decreases p.len(),
{
    if p.len() == 0 {
        Seq::empty()
    } else if p.len() == 1 {
        p[0]@
    } else {
        path_text(p.drop_last()) + "::"@ + p.last()@
    }
}

/// Joins the segments of a path with `::`.
pub fn path_to_string(p: &Vec<String>) -> (r: String)
    ensures
        r@ == path_text(p@),
{
    let mut acc = String::new();
    let mut i: usize = 0;
    while i < p.len()
        invariant
            i <= p@.len(),
            acc@ == path_text(p@.take(i as int)),
        decreases p@.len() - i,
    {
        assert(p@.take(i as int + 1).drop_last() =~= p@.take(i as int));
        if i > 0 {
            acc = acc.concat("::");
        }
        acc = acc.concat(p[i].as_str());
        i = i + 1;
    }
    assert(p@.take(p@.len() as int) =~= p@);
    acc
}

/// Whether a path reads exactly as `s`.
pub fn compare_path_with_str(p: &Vec<String>, s: &str) -> (r: bool)
    ensures
        r == (path_text(p@) == s@),
{
    let text = path_to_string(p);
    let expected = String::from_str(s);
    text == expected
}

/// Whether an identifier reads exactly as `s`.
pub fn ident_is(ident: &String, s: &str) -> (r: bool)
    ensures
        r == (ident@ == s@),
{
    let expected = String::from_str(s);
    *ident == expected
}

/// The node of the single type argument of a segment, if it has exactly one
/// angle-bracketed argument and that argument is a type.
pub open spec fn single_type_arg(seg: SegmentSyntax) -> Option<usize> {
    match seg.args {
        ArgsSyntax::Angle { args, .. } => if args@.len() == 1 {
            match args@[0] {
                ArgSyntax::Type(t) => Some(t.spec_node()),
                ArgSyntax::Other => None,
            }
        } else {
            None
        },
        _ => None,
    }
}

/// The classification of a declared type.
pub open spec fn wrapper_kind(ty: TypeSyntax) -> WrapperKind {
    match ty {
        TypeSyntax::Path { segments, .. } => if segments@.len() > 0 {
            let seg = segments@[0];
            match single_type_arg(seg) {
                Some(inner) => if seg.ident@ == "Option"@ {
                    WrapperKind::Optional { inner }
                } else if seg.ident@ == "Vec"@ {
                    WrapperKind::Collection { inner }
                } else {
                    WrapperKind::Plain
                },
                None => WrapperKind::Plain,
            }
        } else {
            WrapperKind::Plain
        },
        TypeSyntax::Other { .. } => WrapperKind::Plain,
    }
}

fn type_arg_node(seg: &SegmentSyntax) -> (r: Option<usize>)
    ensures
        r == single_type_arg(*seg),
{
    match &seg.args {
        ArgsSyntax::Angle { args, .. } => {
            if args.len() == 1 {
                match &args[0] {
                    ArgSyntax::Type(t) => Some(t.node()),
                    ArgSyntax::Other => None,
                }
            } else {
                None
            }
        },
        _ => None,
    }
}

/// Classifies a declared type by its first path segment.
pub fn classify(ty: &TypeSyntax) -> (r: WrapperKind)
    ensures
        r == wrapper_kind(*ty),
{
    match ty {
        TypeSyntax::Path { segments, .. } => {
            if segments.len() == 0 {
                return WrapperKind::Plain;
            }
            let seg = &segments[0];
            match type_arg_node(seg) {
                Some(inner) => {
                    if ident_is(&seg.ident, "Option") {
                        WrapperKind::Optional { inner }
                    } else if ident_is(&seg.ident, "Vec") {
                        WrapperKind::Collection { inner }
                    } else {
                        WrapperKind::Plain
                    }
                },
                None => WrapperKind::Plain,
            }
        },
        TypeSyntax::Other { .. } => WrapperKind::Plain,
    }
}

} // verus!
