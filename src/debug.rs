//! The debug-printer plan: the record's name, each field by name with its
//! template or the default representation, and which generic parameters
//! need a printability bound.
//!
//! Bound inference is a syntactic heuristic. A type parameter `T` gets no
//! bound when some field is declared exactly `PhantomData<T>`, or when some
//! field's outer type has an argument that is a path `T::...`; such paths
//! are bounded in the where clause instead, as far as the fields are scanned
//! before the first `PhantomData<T>`.

use vstd::prelude::*;
use crate::annotation::{debug_errors, debug_template, opt_view, resolve_debug};
use crate::classify::ident_is;
use crate::diagnostic::{Diagnostic, DiagnosticKind};
use crate::syntax::{
    ArgSyntax, ArgsSyntax, FieldSpec, GenericParamSyntax, RecordBody, TypeDeclaration, TypeSyntax,
};

verus! {

/// How one field is printed.
pub struct DebugField {
    /// The field's identifier, printed as its label.
    pub ident: String,
    /// The template that formats the value, or `None` for the default representation.
    pub template: Option<String>,
}

/// The whole debug printer for one record.
pub struct DebugPlan {
    /// The record's identifier, printed as the heading.
    pub target: String,
    /// For each generic parameter, in order, whether it gets a printability bound.
    pub bounded: Vec<bool>,
    /// The nodes of the associated-type paths that the where clause bounds.
    pub associated: Vec<usize>,
    /// One entry per field, in declaration order.
    pub fields: Vec<DebugField>,
    /// The diagnostics of all fields, in declaration order.
    pub errors: Vec<Diagnostic>,
}

/// An argument that is a path of two or more segments starting with `g`.
pub open spec fn is_assoc_of(a: ArgSyntax, g: Seq<char>) -> bool {
    match a {
        ArgSyntax::Type(TypeSyntax::Path { segments, .. }) => segments@.len() >= 2
            && segments@[0].ident@ == g,
        _ => false,
    }
}

/// The nodes of the arguments in `args` that are paths `g::...`.
pub open spec fn assoc_in_args(args: Seq<ArgSyntax>, g: Seq<char>) -> Seq<usize>
    decreases args.len(),
{
    if args.len() == 0 {
        Seq::empty()
    } else {
        let rest = assoc_in_args(args.drop_last(), g);
        if is_assoc_of(args.last(), g) {
            rest.push(args.last()->Type_0.spec_node())
        } else {
            rest
        }
    }
}

/// The paths `g::...` among the arguments of the first segment of `ty`.
pub open spec fn assoc_paths(ty: TypeSyntax, g: Seq<char>) -> Seq<usize> {
    match ty {
        TypeSyntax::Path { segments, .. } => if segments@.len() > 0 {
            match segments@[0].args {
                ArgsSyntax::Angle { args, .. } => assoc_in_args(args@, g),
                _ => Seq::empty(),
            }
        } else {
            Seq::empty()
        },
        TypeSyntax::Other { .. } => Seq::empty(),
    }
}

/// A type that is the bare path `g`.
pub open spec fn is_bare_param(ty: TypeSyntax, g: Seq<char>) -> bool {
    match ty {
        TypeSyntax::Path { leading_colon, segments, .. } => !leading_colon && segments@.len() == 1
            && segments@[0].ident@ == g && segments@[0].args is Bare,
        TypeSyntax::Other { .. } => false,
    }
}

/// A type that reads exactly `PhantomData<g>`.
pub open spec fn is_phantom_of(ty: TypeSyntax, g: Seq<char>) -> bool {
    match ty {
        TypeSyntax::Path { leading_colon, segments, .. } => !leading_colon && segments@.len() == 1
            && segments@[0].ident@ == "PhantomData"@ && match segments@[0].args {
            ArgsSyntax::Angle { turbofish, args } => !turbofish && args@.len() == 1 && match args@[0] {
                ArgSyntax::Type(t) => is_bare_param(t, g),
                ArgSyntax::Other => false,
            },
            _ => false,
        },
        TypeSyntax::Other { .. } => false,
    }
}

/// Some field is declared `PhantomData<g>`.
pub open spec fn has_phantom(fs: Seq<FieldSpec>, g: Seq<char>) -> bool {
    exists|i: int| 0 <= i < fs.len() && is_phantom_of(#[trigger] fs[i].ty, g)
}

/// Whether the type parameter `g` gets a printability bound: no field is
/// `PhantomData<g>` and no field's outer type has an argument `g::...`.
pub open spec fn needs_bound(fs: Seq<FieldSpec>, g: Seq<char>) -> bool {
    forall|i: int|
        0 <= i < fs.len() ==> !is_phantom_of(#[trigger] fs[i].ty, g) && assoc_paths(
            fs[i].ty,
            g,
        ).len() == 0
}

/// The paths `g::...` found in the fields, up to and including the first
/// field declared `PhantomData<g>`.
pub open spec fn assoc_scan(fs: Seq<FieldSpec>, g: Seq<char>) -> Seq<usize>
    decreases fs.len(),
{
    if fs.len() == 0 {
        Seq::empty()
    } else if has_phantom(fs.drop_last(), g) {
        assoc_scan(fs.drop_last(), g)
    } else {
        assoc_scan(fs.drop_last(), g) + assoc_paths(fs.last().ty, g)
    }
}

/// The bound decision for each generic parameter.
pub open spec fn bound_of(p: GenericParamSyntax, fs: Seq<FieldSpec>) -> bool {
    match p {
        GenericParamSyntax::Type(g) => needs_bound(fs, g@),
        GenericParamSyntax::Other => false,
    }
}

/// The associated-type paths of all generic parameters, in parameter order.
pub open spec fn all_assoc(ps: Seq<GenericParamSyntax>, fs: Seq<FieldSpec>) -> Seq<usize>
    decreases ps.len(),
{
    if ps.len() == 0 {
        Seq::empty()
    } else {
        all_assoc(ps.drop_last(), fs) + match ps.last() {
            GenericParamSyntax::Type(g) => assoc_scan(fs, g@),
            GenericParamSyntax::Other => Seq::empty(),
        }
    }
}

/// The diagnostics of all fields, in declaration order.
pub open spec fn all_debug_errors(fs: Seq<FieldSpec>) -> Seq<Diagnostic>
    decreases fs.len(),
{
    if fs.len() == 0 {
        Seq::empty()
    } else {
        all_debug_errors(fs.drop_last()) + debug_errors(fs.last().attrs@)
    }
}

fn assoc_nodes(ty: &TypeSyntax, g: &String) -> (r: Vec<usize>)
    ensures
        r@ == assoc_paths(*ty, g@),
{
    let mut r: Vec<usize> = Vec::new();
    if let TypeSyntax::Path { segments, .. } = ty {
        if segments.len() > 0 {
            if let ArgsSyntax::Angle { args, .. } = &segments[0].args {
                let mut i: usize = 0;
                while i < args.len()
                    invariant
                        i <= args@.len(),
                        r@ == assoc_in_args(args@.take(i as int), g@),
                    decreases args@.len() - i,
                {
                    assert(args@.take(i as int + 1).drop_last() =~= args@.take(i as int));
                    if let ArgSyntax::Type(t) = &args[i] {
                        if let TypeSyntax::Path { segments: inner, .. } = t {
                            if inner.len() >= 2 && inner[0].ident == *g {
                                r.push(t.node());
                            }
                        }
                    }
                    i = i + 1;
                }
                assert(args@.take(args@.len() as int) =~= args@);
            }
        }
    }
    r
}

fn bare_param(ty: &TypeSyntax, g: &String) -> (r: bool)
    ensures
        r == is_bare_param(*ty, g@),
{
    match ty {
        TypeSyntax::Path { leading_colon, segments, .. } => {
            !*leading_colon && segments.len() == 1 && segments[0].ident == *g && matches!(
                segments[0].args,
                ArgsSyntax::Bare
            )
        },
        TypeSyntax::Other { .. } => false,
    }
}

fn phantom_of(ty: &TypeSyntax, g: &String) -> (r: bool)
    ensures
        r == is_phantom_of(*ty, g@),
{
    match ty {
        TypeSyntax::Path { leading_colon, segments, .. } => {
            if *leading_colon || segments.len() != 1 || !ident_is(&segments[0].ident, "PhantomData") {
                return false;
            }
            match &segments[0].args {
                ArgsSyntax::Angle { turbofish, args } => {
                    if *turbofish || args.len() != 1 {
                        return false;
                    }
                    match &args[0] {
                        ArgSyntax::Type(t) => bare_param(t, g),
                        ArgSyntax::Other => false,
                    }
                },
                _ => false,
            }
        },
        TypeSyntax::Other { .. } => false,
    }
}

/// Decides the bound of the type parameter `g`, and collects its
/// associated-type paths.
pub fn infer_bound(fs: &Vec<FieldSpec>, g: &String) -> (r: (bool, Vec<usize>))
    ensures
        r.0 == needs_bound(fs@, g@),
        r.1@ == assoc_scan(fs@, g@),
{
    let mut stopped = false;
    let mut skip = false;
    let mut assoc: Vec<usize> = Vec::new();
    let mut i: usize = 0;
    while i < fs.len()
        invariant
            i <= fs@.len(),
            stopped == has_phantom(fs@.take(i as int), g@),
            skip == !needs_bound(fs@.take(i as int), g@),
            assoc@ == assoc_scan(fs@.take(i as int), g@),
        decreases fs@.len() - i,
    {
        let ghost prev = fs@.take(i as int);
        let ghost next = fs@.take(i as int + 1);
        assert(next.drop_last() =~= prev);
        assert(next.last() == fs@[i as int]);
        assert(forall|j: int| 0 <= j < i ==> next[j] == prev[j]);
        let ty = &fs[i].ty;
        let found = assoc_nodes(ty, g);
        let phantom = phantom_of(ty, g);
        if !stopped {
            if found.len() > 0 {
                skip = true;
            }
            let mut found = found;
            assoc.append(&mut found);
        }
        if phantom {
            stopped = true;
            skip = true;
        }
        proof {
            if phantom {
                assert(is_phantom_of(next[i as int].ty, g@));
            }
            if !needs_bound(next, g@) && needs_bound(prev, g@) {
                assert(!is_phantom_of(next[i as int].ty, g@) ==> assoc_paths(
                    next[i as int].ty,
                    g@,
                ).len() != 0);
            }
        }
        i = i + 1;
    }
    assert(fs@.take(fs@.len() as int) =~= fs@);
    (!skip, assoc)
}

/// Plans the debug printer of a declaration. Only a record with named
/// fields has one; field-level problems are reported in the plan.
pub fn compose_debug(decl: &TypeDeclaration) -> (r: Result<DebugPlan, Diagnostic>)
    ensures
        match decl.body {
            RecordBody::Named(fs) => r matches Ok(p) && {
                &&& p.target@ == decl.ident@
                &&& p.bounded@.len() == decl.generics@.len()
                &&& forall|i: int|
                    0 <= i < decl.generics@.len() ==> p.bounded@[i] == bound_of(
                        #[trigger] decl.generics@[i],
                        fs@,
                    )
                &&& p.associated@ == all_assoc(decl.generics@, fs@)
                &&& p.fields@.len() == fs@.len()
                &&& forall|i: int|
                    0 <= i < fs@.len() ==> (#[trigger] p.fields@[i]).ident@ == fs@[i].ident@
                        && opt_view(p.fields@[i].template) == debug_template(fs@[i].attrs@)
                &&& p.errors@ == all_debug_errors(fs@)
            },
            RecordBody::Other => r == Err::<DebugPlan, Diagnostic>(
                Diagnostic { node: decl.node, kind: DiagnosticKind::DebugNeedsRecord },
            ),
        },
{
    let fs = match &decl.body {
        RecordBody::Named(fs) => fs,
        RecordBody::Other => {
            return Err(Diagnostic { node: decl.node, kind: DiagnosticKind::DebugNeedsRecord });
        },
    };
    let ps = &decl.generics;
    let mut bounded: Vec<bool> = Vec::new();
    let mut associated: Vec<usize> = Vec::new();
    let mut k: usize = 0;
    while k < ps.len()
        invariant
            k <= ps@.len(),
            bounded@.len() == k,
            forall|j: int| 0 <= j < k ==> bounded@[j] == bound_of(#[trigger] ps@[j], fs@),
            associated@ == all_assoc(ps@.take(k as int), fs@),
        decreases ps@.len() - k,
    {
        assert(ps@.take(k as int + 1).drop_last() =~= ps@.take(k as int));
        match &ps[k] {
            GenericParamSyntax::Type(g) => {
                let (needs, mut assoc) = infer_bound(fs, g);
                bounded.push(needs);
                associated.append(&mut assoc);
            },
            GenericParamSyntax::Other => {
                bounded.push(false);
            },
        }
        k = k + 1;
    }
    assert(ps@.take(ps@.len() as int) =~= ps@);
    let mut fields: Vec<DebugField> = Vec::new();
    let mut errors: Vec<Diagnostic> = Vec::new();
    let mut i: usize = 0;
    while i < fs.len()
        invariant
            i <= fs@.len(),
            fields@.len() == i,
            forall|j: int|
                0 <= j < i ==> (#[trigger] fields@[j]).ident@ == fs@[j].ident@ && opt_view(
                    fields@[j].template,
                ) == debug_template(fs@[j].attrs@),
            errors@ == all_debug_errors(fs@.take(i as int)),
        decreases fs@.len() - i,
    {
        assert(fs@.take(i as int + 1).drop_last() =~= fs@.take(i as int));
        let (template, mut errs) = resolve_debug(&fs[i].attrs);
        fields.push(DebugField { ident: fs[i].ident.clone(), template });
        errors.append(&mut errs);
        i = i + 1;
    }
    assert(fs@.take(fs@.len() as int) =~= fs@);
    Ok(DebugPlan { target: decl.ident.clone(), bounded, associated, fields, errors })
}

/// In a record whose fields are each declared either as the parameter `g`
/// itself or as `PhantomData<g>`, `g` gets a printability bound exactly when
/// no field is `PhantomData<g>`.
pub proof fn lemma_phantom_exempts(fs: Seq<FieldSpec>, g: Seq<char>)
    requires
        forall|i: int|
            0 <= i < fs.len() ==> is_bare_param(#[trigger] fs[i].ty, g) || is_phantom_of(
                fs[i].ty,
                g,
            ),
    ensures
        needs_bound(fs, g) <==> !has_phantom(fs, g),
{
    assert forall|i: int| 0 <= i < fs.len() && is_bare_param(#[trigger] fs[i].ty, g) implies !is_phantom_of(
        fs[i].ty,
        g,
    ) && assoc_paths(fs[i].ty, g).len() == 0 by {}
    if !needs_bound(fs, g) {
        let i = choose|i: int|
            0 <= i < fs.len() && !(!is_phantom_of(#[trigger] fs[i].ty, g) && assoc_paths(
                fs[i].ty,
                g,
            ).len() == 0);
        assert(is_phantom_of(fs[i].ty, g));
    }
}

} // verus!
