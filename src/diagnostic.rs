//! Diagnostics that a generation pass reports.

use vstd::prelude::*;

verus! {

/// What went wrong.
#[derive(Clone, Copy, Debug, PartialEq, Eq, Structural)]
pub enum DiagnosticKind {
    /// A `builder` annotation that is not a single `each = "..."` entry, or
    /// one on a field that is not a collection.
    MalformedEach,
    /// A `debug` annotation that is not `debug = "..."`.
    UnsupportedAttribute,
    /// A builder asked for a declaration that is not a record with named fields.
    BuilderNeedsRecord,
    /// A debug printer asked for a declaration that is not a record with named fields.
    DebugNeedsRecord,
}

/// A diagnostic anchored at a node of the input.
#[derive(Clone, Copy, Debug, PartialEq, Eq, Structural)]
pub struct Diagnostic {
    pub node: usize,
    pub kind: DiagnosticKind,
}

/// The text shown for each kind of diagnostic.
pub open spec fn message_of(kind: DiagnosticKind) -> Seq<char> {
    match kind {
        DiagnosticKind::MalformedEach => "Only builder(each = \"...\") is supported"@,
        DiagnosticKind::UnsupportedAttribute => "Unsuported attribute"@,
        DiagnosticKind::BuilderNeedsRecord => "Builder is only support for structs"@,
        DiagnosticKind::DebugNeedsRecord => "CustomDebug is only implemented for structs"@,
    }
}

impl Diagnostic {
    /// The message of this diagnostic.
    pub fn message(&self) -> (r: String)
        ensures
            r@ == message_of(self.kind),
    {
        match self.kind {
            DiagnosticKind::MalformedEach => String::from_str(
                "Only builder(each = \"...\") is supported",
            ),
            DiagnosticKind::UnsupportedAttribute => String::from_str("Unsuported attribute"),
            DiagnosticKind::BuilderNeedsRecord => String::from_str(
                "Builder is only support for structs",
            ),
            DiagnosticKind::DebugNeedsRecord => String::from_str(
                "CustomDebug is only implemented for structs",
            ),
        }
    }
}

} // verus!
