//! Annotation resolution: reading the `builder(each = "...")` and
//! `debug = "..."` directives attached to a field.
//!
//! A malformed annotation does not stop the pass: it becomes a diagnostic
//! anchored at that annotation, and the field is treated as if it were absent.

use vstd::prelude::*;
use crate::classify::{compare_path_with_str, ident_is, path_text};
use crate::diagnostic::{Diagnostic, DiagnosticKind};
use crate::syntax::{AnnotationSyntax, LitSyntax, MetaSyntax, NestedSyntax};

verus! {

/// The view of an optional string.
pub open spec fn opt_view(o: Option<String>) -> Option<Seq<char>> {
    match o {
        Some(s) => Some(s@),
        None => None,
    }
}

/// An annotation whose path is the single segment `builder`.
pub open spec fn is_builder_attr(a: AnnotationSyntax) -> bool {
    a.path@.len() == 1 && a.path@[0]@ == "builder"@
}

/// The name given by a well-formed `builder(each = "name")` annotation.
pub open spec fn each_of(a: AnnotationSyntax) -> Option<Seq<char>> {
    match a.meta {
        MetaSyntax::List(nested) => if path_text(a.path@) == "builder"@ && nested@.len() == 1 {
            match nested@[0] {
                NestedSyntax::NameValue { path, lit } => match lit {
                    LitSyntax::Str(s) => if path_text(path@) == "each"@ {
                        Some(s@)
                    } else {
                        None
                    },
                    LitSyntax::Other => None,
                },
                NestedSyntax::Other => None,
            }
        } else {
            None
        },
        _ => None,
    }
}

/// The `each` name that a field's annotations settle on: the last
/// well-formed one, and only on a collection field.
pub open spec fn each_resolved(attrs: Seq<AnnotationSyntax>, collection: bool) -> Option<
    Seq<char>,
>
    decreases attrs.len(),
{
    if attrs.len() == 0 {
        None
    } else if collection && is_builder_attr(attrs.last()) && each_of(attrs.last()) is Some {
        each_of(attrs.last())
    } else {
        each_resolved(attrs.drop_last(), collection)
    }
}

/// The diagnostics for a field's `builder` annotations: one for each that is
/// malformed, or that stands on a field that is not a collection.
pub open spec fn each_errors(attrs: Seq<AnnotationSyntax>, collection: bool) -> Seq<Diagnostic>
    decreases attrs.len(),
{
    if attrs.len() == 0 {
        Seq::empty()
    } else {
        let a = attrs.last();
        let rest = each_errors(attrs.drop_last(), collection);
        if is_builder_attr(a) && (!collection || each_of(a) is None) {
            rest.push(Diagnostic { node: a.node, kind: DiagnosticKind::MalformedEach })
        } else {
            rest
        }
    }
}

/// Whether an annotation is keyed `builder`.
pub fn builder_attr(a: &AnnotationSyntax) -> (r: bool)
    ensures
        r == is_builder_attr(*a),
{
    a.path.len() == 1 && ident_is(&a.path[0], "builder")
}

/// Reads the name out of a `builder(each = "name")` annotation.
pub fn each_from_attribute(a: &AnnotationSyntax) -> (r: Result<String, Diagnostic>)
    ensures
        match r {
            Ok(s) => each_of(*a) == Some(s@),
            Err(d) => each_of(*a) is None && d == (Diagnostic {
                node: a.node,
                kind: DiagnosticKind::MalformedEach,
            }),
        },
{
    let malformed = Diagnostic { node: a.node, kind: DiagnosticKind::MalformedEach };
    match &a.meta {
        MetaSyntax::List(nested) => {
            if !compare_path_with_str(&a.path, "builder") || nested.len() != 1 {
                return Err(malformed);
            }
            match &nested[0] {
                NestedSyntax::NameValue { path, lit: LitSyntax::Str(s) } => {
                    if compare_path_with_str(path, "each") {
                        Ok(s.clone())
                    } else {
                        Err(malformed)
                    }
                },
                _ => Err(malformed),
            }
        },
        _ => Err(malformed),
    }
}

/// Resolves the `each` directive of a field from its annotations, with a
/// diagnostic for each annotation that cannot stand.
pub fn resolve_each(attrs: &Vec<AnnotationSyntax>, collection: bool) -> (r: (
    Option<String>,
    Vec<Diagnostic>,
))
    ensures
        opt_view(r.0) == each_resolved(attrs@, collection),
        r.1@ == each_errors(attrs@, collection),
{
    let mut each: Option<String> = None;
    let mut errors: Vec<Diagnostic> = Vec::new();
    let mut i: usize = 0;
    while i < attrs.len()
        invariant
            i <= attrs@.len(),
            opt_view(each) == each_resolved(attrs@.take(i as int), collection),
            errors@ == each_errors(attrs@.take(i as int), collection),
        decreases attrs@.len() - i,
    {
        let a = &attrs[i];
        assert(attrs@.take(i as int + 1).drop_last() =~= attrs@.take(i as int));
        assert(attrs@.take(i as int + 1).last() == *a);
        if builder_attr(a) {
            match each_from_attribute(a) {
                Ok(s) => {
                    if collection {
                        each = Some(s);
                    } else {
                        errors.push(Diagnostic { node: a.node, kind: DiagnosticKind::MalformedEach });
                    }
                },
                Err(d) => {
                    errors.push(d);
                },
            }
        }
        i = i + 1;
    }
    assert(attrs@.take(attrs@.len() as int) =~= attrs@);
    (each, errors)
}

/// An annotation keyed `debug`.
pub open spec fn is_debug_attr(a: AnnotationSyntax) -> bool {
    path_text(a.path@) == "debug"@
}

/// The template of a well-formed `debug = "template"` annotation.
pub open spec fn template_of(a: AnnotationSyntax) -> Option<Seq<char>> {
    match a.meta {
        MetaSyntax::NameValue(LitSyntax::Str(s)) => Some(s@),
        _ => None,
    }
}

/// The template that a field's annotations settle on: the first well-formed
/// `debug` annotation.
pub open spec fn debug_template(attrs: Seq<AnnotationSyntax>) -> Option<Seq<char>>
    decreases attrs.len(),
{
    if attrs.len() == 0 {
        None
    } else {
        match debug_template(attrs.drop_last()) {
            Some(t) => Some(t),
            None => if is_debug_attr(attrs.last()) {
                template_of(attrs.last())
            } else {
                None
            },
        }
    }
}

/// The diagnostics for a field's `debug` annotations: one for each that is
/// not a `debug = "..."` pair.
pub open spec fn debug_errors(attrs: Seq<AnnotationSyntax>) -> Seq<Diagnostic>
    decreases attrs.len(),
{
    if attrs.len() == 0 {
        Seq::empty()
    } else {
        let a = attrs.last();
        let rest = debug_errors(attrs.drop_last());
        if is_debug_attr(a) && template_of(a) is None {
            rest.push(Diagnostic { node: a.node, kind: DiagnosticKind::UnsupportedAttribute })
        } else {
            rest
        }
    }
}

/// Resolves the debug template of a field from its annotations, with a
/// diagnostic for each `debug` annotation of another shape.
pub fn resolve_debug(attrs: &Vec<AnnotationSyntax>) -> (r: (Option<String>, Vec<Diagnostic>))
    ensures
        opt_view(r.0) == debug_template(attrs@),
        r.1@ == debug_errors(attrs@),
{
    let mut template: Option<String> = None;
    let mut errors: Vec<Diagnostic> = Vec::new();
    let mut i: usize = 0;
    while i < attrs.len()
        invariant
            i <= attrs@.len(),
            opt_view(template) == debug_template(attrs@.take(i as int)),
            errors@ == debug_errors(attrs@.take(i as int)),
        decreases attrs@.len() - i,
    {
        let a = &attrs[i];
        assert(attrs@.take(i as int + 1).drop_last() =~= attrs@.take(i as int));
        assert(attrs@.take(i as int + 1).last() == *a);
        if compare_path_with_str(&a.path, "debug") {
            match &a.meta {
                MetaSyntax::NameValue(LitSyntax::Str(s)) => {
                    if template.is_none() {
                        template = Some(s.clone());
                    }
                },
                _ => {
                    errors.push(
                        Diagnostic { node: a.node, kind: DiagnosticKind::UnsupportedAttribute },
                    );
                },
            }
        }
        i = i + 1;
    }
    assert(attrs@.take(attrs@.len() as int) =~= attrs@);
    (template, errors)
}

/// A field that is not a collection never gets an appender, and a lone
/// `builder` annotation that is malformed, or that stands on such a field,
/// yields exactly one diagnostic: a malformed `each`, at that annotation.
pub proof fn lemma_malformed_each_reported(
    attrs: Seq<AnnotationSyntax>,
    a: AnnotationSyntax,
    collection: bool,
)
    ensures
        !collection ==> each_resolved(attrs, collection) is None,
        is_builder_attr(a) && (!collection || each_of(a) is None) ==> {
            &&& each_errors(seq![a], collection) == seq![
                Diagnostic { node: a.node, kind: DiagnosticKind::MalformedEach },
            ]
            &&& each_resolved(seq![a], collection) is None
        },
    decreases attrs.len(),
{
    if attrs.len() > 0 {
        lemma_malformed_each_reported(attrs.drop_last(), a, collection);
    }
    let one = seq![a];
    assert(one.drop_last() =~= Seq::<AnnotationSyntax>::empty());
    assert(one.last() == a);
    assert(each_errors(one.drop_last(), collection) == Seq::<Diagnostic>::empty());
    assert(each_resolved(one.drop_last(), collection) is None);
    assert(Seq::<Diagnostic>::empty().push(Diagnostic { node: a.node, kind: DiagnosticKind::MalformedEach }) =~= seq![
        Diagnostic { node: a.node, kind: DiagnosticKind::MalformedEach },
    ]);
}

/// A lone well-formed `debug = "template"` annotation makes its template
/// the field's format, with no diagnostic; a field without annotations is
/// printed with the default representation.
pub proof fn lemma_template_used(a: AnnotationSyntax)
    ensures
        debug_template(Seq::empty()) is None,
        is_debug_attr(a) && template_of(a) is Some ==> {
            &&& debug_template(seq![a]) == template_of(a)
            &&& debug_errors(seq![a]) == Seq::<Diagnostic>::empty()
        },
{
    let one = seq![a];
    assert(one.drop_last() =~= Seq::<AnnotationSyntax>::empty());
    assert(one.last() == a);
    assert(debug_template(one.drop_last()) is None);
    assert(debug_errors(one.drop_last()) == Seq::<Diagnostic>::empty());
}

/// Every `builder` annotation that is malformed, or that stands on a field
/// that is not a collection, yields a malformed-`each` diagnostic anchored at
/// that annotation, whatever other annotations the field carries.
pub proof fn lemma_each_error_at(attrs: Seq<AnnotationSyntax>, collection: bool, k: int)
    requires
        0 <= k < attrs.len(),
        is_builder_attr(attrs[k]),
        !collection || each_of(attrs[k]) is None,
    ensures
        exists|j: int|
            0 <= j < each_errors(attrs, collection).len() && (#[trigger] each_errors(
                attrs,
                collection,
            )[j]) == (Diagnostic { node: attrs[k].node, kind: DiagnosticKind::MalformedEach }),
    decreases attrs.len(),
{
    let e = each_errors(attrs, collection);
    let d = Diagnostic { node: attrs[k].node, kind: DiagnosticKind::MalformedEach };
    let rest = each_errors(attrs.drop_last(), collection);
    if k == attrs.len() - 1 {
        assert(attrs.last() == attrs[k]);
        assert(e[rest.len() as int] == d);
    } else {
        assert(attrs.drop_last()[k] == attrs[k]);
        lemma_each_error_at(attrs.drop_last(), collection, k);
        let j = choose|j: int| 0 <= j < rest.len() && (#[trigger] rest[j]) == d;
        assert(e[j] == d);
    }
}

/// Every diagnostic of a field's `builder` annotations is a malformed `each`.
pub proof fn lemma_each_errors_kind(attrs: Seq<AnnotationSyntax>, collection: bool)
    ensures
        forall|j: int|
            0 <= j < each_errors(attrs, collection).len() ==> (#[trigger] each_errors(
                attrs,
                collection,
            )[j]).kind == DiagnosticKind::MalformedEach,
    decreases attrs.len(),
{
    if attrs.len() > 0 {
        lemma_each_errors_kind(attrs.drop_last(), collection);
    }
}

} // verus!
