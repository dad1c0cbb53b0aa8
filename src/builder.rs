//! The builder plan: an auxiliary type with one possibly-absent slot per
//! field, a setter per field, an appender per `each` collection, and a
//! finalizer that assembles the record.

use vstd::prelude::*;
use crate::annotation::{
    each_errors, each_of, each_resolved, is_builder_attr, lemma_each_error_at,
    lemma_each_errors_kind, opt_view, resolve_each,
};
use crate::diagnostic::message_of;
use crate::classify::{classify, wrapper_kind, WrapperKind};
use crate::diagnostic::{Diagnostic, DiagnosticKind};
use crate::syntax::{FieldSpec, RecordBody, TypeDeclaration};

verus! {

/// What the builder does with one field of the record.
pub struct BuilderField {
    /// The field's identifier, also the name of its setter.
    pub ident: String,
    /// The node of the field's declared type.
    pub declared: usize,
    /// How the declared type wraps its value.
    pub kind: WrapperKind,
    /// The name of the appender, on a collection field that has one.
    pub each: Option<String>,
    /// The node of the type that the setter takes, when a setter is generated.
    pub setter: Option<usize>,
    /// Whether the field must have a value when the record is assembled;
    /// its slot in the auxiliary type then wraps the declared type in `Option`.
    pub required: bool,
    /// Whether the slot starts as an empty list rather than absent.
    pub starts_empty: bool,
}

/// The whole builder for one record.
pub struct BuilderPlan {
    /// The record's identifier.
    pub target: String,
    /// The identifier of the auxiliary type.
    pub builder: String,
    /// One entry per field, in declaration order.
    pub fields: Vec<BuilderField>,
    /// The diagnostics of all fields, in declaration order.
    pub errors: Vec<Diagnostic>,
}

/// Whether a field is a collection, by its declared type.
pub open spec fn is_collection(f: FieldSpec) -> bool {
    wrapper_kind(f.ty) is Collection
}

/// The appender name of a field.
pub open spec fn field_each(f: FieldSpec) -> Option<Seq<char>> {
    each_resolved(f.attrs@, is_collection(f))
}

/// The type that a field's setter takes, or `None` where the appender has
/// the field's own name and takes the place of the setter.
pub open spec fn setter_arg(f: FieldSpec) -> Option<usize> {
    if field_each(f) == Some(f.ident@) {
        None
    } else {
        match wrapper_kind(f.ty) {
            WrapperKind::Optional { inner } => Some(inner),
            _ => Some(f.ty.spec_node()),
        }
    }
}

/// `b` is the builder's treatment of field `f`.
pub open spec fn field_planned(b: BuilderField, f: FieldSpec) -> bool {
    &&& b.ident@ == f.ident@
    &&& b.declared == f.ty.spec_node()
    &&& b.kind == wrapper_kind(f.ty)
    &&& opt_view(b.each) == field_each(f)
    &&& b.setter == setter_arg(f)
    &&& b.required == !(wrapper_kind(f.ty) is Optional)
    &&& b.starts_empty == (field_each(f) is Some)
}

/// The diagnostics of all fields, in declaration order.
pub open spec fn builder_errors(fs: Seq<FieldSpec>) -> Seq<Diagnostic>
    decreases fs.len(),
{
    if fs.len() == 0 {
        Seq::empty()
    } else {
        builder_errors(fs.drop_last()) + each_errors(fs.last().attrs@, is_collection(fs.last()))
    }
}

/// The identifier of the auxiliary type of a record.
pub open spec fn builder_ident(target: Seq<char>) -> Seq<char> {
    target + "Builder"@
}

fn plan_field(f: &FieldSpec) -> (r: (BuilderField, Vec<Diagnostic>))
    ensures
        field_planned(r.0, *f),
        r.1@ == each_errors(f.attrs@, is_collection(*f)),
{
    let kind = classify(&f.ty);
    let collection = match kind {
        WrapperKind::Collection { .. } => true,
        _ => false,
    };
    let (each, errors) = resolve_each(&f.attrs, collection);
    let own_name = match &each {
        Some(e) => *e == f.ident,
        None => false,
    };
    let setter = if own_name {
        None
    } else {
        match kind {
            WrapperKind::Optional { inner } => Some(inner),
            _ => Some(f.ty.node()),
        }
    };
    let required = match kind {
        WrapperKind::Optional { .. } => false,
        _ => true,
    };
    let starts_empty = each.is_some();
    let field = BuilderField {
        ident: f.ident.clone(),
        declared: f.ty.node(),
        kind,
        each,
        setter,
        required,
        starts_empty,
    };
    (field, errors)
}

/// Plans the builder of a declaration. Only a record with named fields has
/// one; field-level problems are reported in the plan and do not stop it.
pub fn derive(decl: &TypeDeclaration) -> (r: Result<BuilderPlan, Diagnostic>)
    ensures
        match decl.body {
            RecordBody::Named(fs) => r matches Ok(p) && {
                &&& p.target@ == decl.ident@
                &&& p.builder@ == builder_ident(decl.ident@)
                &&& p.fields@.len() == fs@.len()
                &&& forall|i: int| 0 <= i < fs@.len() ==> field_planned(p.fields@[i], fs@[i])
                &&& p.errors@ == builder_errors(fs@)
            },
            RecordBody::Other => r == Err::<BuilderPlan, Diagnostic>(
                Diagnostic { node: decl.node, kind: DiagnosticKind::BuilderNeedsRecord },
            ),
        },
{
    let fs = match &decl.body {
        RecordBody::Named(fs) => fs,
        RecordBody::Other => {
            return Err(Diagnostic { node: decl.node, kind: DiagnosticKind::BuilderNeedsRecord });
        },
    };
    let mut fields: Vec<BuilderField> = Vec::new();
    let mut errors: Vec<Diagnostic> = Vec::new();
    let mut i: usize = 0;
    while i < fs.len()
        invariant
            i <= fs@.len(),
            fields@.len() == i,
            forall|j: int| 0 <= j < i ==> field_planned(fields@[j], fs@[j]),
            errors@ == builder_errors(fs@.take(i as int)),
        decreases fs@.len() - i,
    {
        assert(fs@.take(i as int + 1).drop_last() =~= fs@.take(i as int));
        let (field, mut errs) = plan_field(&fs[i]);
        fields.push(field);
        errors.append(&mut errs);
        i = i + 1;
    }
    assert(fs@.take(fs@.len() as int) =~= fs@);
    let builder = decl.ident.clone().concat("Builder");
    Ok(BuilderPlan { target: decl.ident.clone(), builder, fields, errors })
}

/// In any record, a `builder` annotation that is malformed, or that stands
/// on a field that is not a collection, puts in the plan a diagnostic
/// anchored at that annotation whose message is the `each` usage line; and
/// the plan holds no diagnostic of another kind.
pub proof fn lemma_malformed_each_in_plan(fs: Seq<FieldSpec>, i: int, k: int)
    requires
        0 <= i < fs.len(),
        0 <= k < fs[i].attrs@.len(),
        is_builder_attr(fs[i].attrs@[k]),
        !is_collection(fs[i]) || each_of(fs[i].attrs@[k]) is None,
    ensures
        exists|j: int|
            0 <= j < builder_errors(fs).len() && (#[trigger] builder_errors(fs)[j]) == (Diagnostic {
                node: fs[i].attrs@[k].node,
                kind: DiagnosticKind::MalformedEach,
            }),
        message_of(DiagnosticKind::MalformedEach) == "Only builder(each = \"...\") is supported"@,
        forall|j: int|
            0 <= j < builder_errors(fs).len() ==> (#[trigger] builder_errors(fs)[j]).kind
                == DiagnosticKind::MalformedEach,
    decreases fs.len(),
{
    let e = builder_errors(fs);
    let d = Diagnostic { node: fs[i].attrs@[k].node, kind: DiagnosticKind::MalformedEach };
    let pre = builder_errors(fs.drop_last());
    let last = fs.last();
    let x = each_errors(last.attrs@, is_collection(last));
    lemma_each_errors_kind(last.attrs@, is_collection(last));
    if i == fs.len() - 1 {
        assert(last == fs[i]);
        lemma_each_error_at(last.attrs@, is_collection(last), k);
        let j = choose|j: int| 0 <= j < x.len() && (#[trigger] x[j]) == d;
        assert(e[pre.len() + j] == d);
    } else {
        assert(fs.drop_last()[i] == fs[i]);
        lemma_malformed_each_in_plan(fs.drop_last(), i, k);
        let j = choose|j: int| 0 <= j < pre.len() && (#[trigger] pre[j]) == d;
        assert(e[j] == d);
    }
    lemma_builder_errors_kind(fs);
}

/// Every diagnostic of a builder plan is a malformed `each`.
proof fn lemma_builder_errors_kind(fs: Seq<FieldSpec>)
    ensures
        forall|j: int|
            0 <= j < builder_errors(fs).len() ==> (#[trigger] builder_errors(fs)[j]).kind
                == DiagnosticKind::MalformedEach,
    decreases fs.len(),
{
    if fs.len() > 0 {
        let e = builder_errors(fs);
        let pre = builder_errors(fs.drop_last());
        let last = fs.last();
        let x = each_errors(last.attrs@, is_collection(last));
        lemma_builder_errors_kind(fs.drop_last());
        lemma_each_errors_kind(last.attrs@, is_collection(last));
        assert forall|j: int| 0 <= j < e.len() implies (#[trigger] e[j]).kind
            == DiagnosticKind::MalformedEach by {
            if j < pre.len() {
                assert(e[j] == pre[j]);
            } else {
                assert(e[j] == x[j - pre.len()]);
            }
        }
    }
}

} // verus!
