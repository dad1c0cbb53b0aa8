use record_derive::annotation::{each_from_attribute, resolve_debug, resolve_each};
use record_derive::builder;
use record_derive::classify::{classify, compare_path_with_str, path_to_string, WrapperKind};
use record_derive::debug::{compose_debug, infer_bound};
use record_derive::diagnostic::{Diagnostic, DiagnosticKind};
use record_derive::syntax::{
    AnnotationSyntax, ArgSyntax, ArgsSyntax, FieldSpec, GenericParamSyntax, LitSyntax, MetaSyntax,
    NestedSyntax, RecordBody, SegmentSyntax, TypeDeclaration, TypeSyntax,
};

fn strings(parts: &[&str]) -> Vec<String> {
    parts.iter().map(|p| p.to_string()).collect()
}

fn bare(node: usize, name: &str) -> TypeSyntax {
    TypeSyntax::Path {
        node,
        leading_colon: false,
        segments: vec![SegmentSyntax { ident: name.to_string(), args: ArgsSyntax::Bare }],
    }
}

fn path(node: usize, names: &[&str]) -> TypeSyntax {
    TypeSyntax::Path {
        node,
        leading_colon: false,
        segments: names
            .iter()
            .map(|n| SegmentSyntax { ident: n.to_string(), args: ArgsSyntax::Bare })
            .collect(),
    }
}

fn generic(node: usize, name: &str, args: Vec<TypeSyntax>) -> TypeSyntax {
    TypeSyntax::Path {
        node,
        leading_colon: false,
        segments: vec![SegmentSyntax {
            ident: name.to_string(),
            args: ArgsSyntax::Angle {
                turbofish: false,
                args: args.into_iter().map(ArgSyntax::Type).collect(),
            },
        }],
    }
}

fn field(name: &str, ty: TypeSyntax, attrs: Vec<AnnotationSyntax>) -> FieldSpec {
    FieldSpec { ident: name.to_string(), ty, attrs }
}

fn each_attr(node: usize, key: &str, value: &str) -> AnnotationSyntax {
    AnnotationSyntax {
        node,
        path: strings(&["builder"]),
        meta: MetaSyntax::List(vec![NestedSyntax::NameValue {
            path: strings(&[key]),
            lit: LitSyntax::Str(value.to_string()),
        }]),
    }
}

fn debug_attr(node: usize, template: &str) -> AnnotationSyntax {
    AnnotationSyntax {
        node,
        path: strings(&["debug"]),
        meta: MetaSyntax::NameValue(LitSyntax::Str(template.to_string())),
    }
}

fn record(name: &str, generics: Vec<GenericParamSyntax>, fields: Vec<FieldSpec>) -> TypeDeclaration {
    TypeDeclaration { node: 0, ident: name.to_string(), generics, body: RecordBody::Named(fields) }
}

#[test]
fn classifies_by_first_segment() {
    assert_eq!(classify(&generic(1, "Option", vec![bare(2, "String")])), WrapperKind::Optional { inner: 2 });
    assert_eq!(classify(&generic(1, "Vec", vec![bare(3, "u8")])), WrapperKind::Collection { inner: 3 });
    assert_eq!(classify(&bare(1, "u32")), WrapperKind::Plain);
    assert_eq!(classify(&bare(1, "Option")), WrapperKind::Plain);
    assert_eq!(classify(&generic(1, "Option", vec![bare(2, "A"), bare(3, "B")])), WrapperKind::Plain);
    assert_eq!(classify(&path(1, &["std", "option", "Option"])), WrapperKind::Plain);
    assert_eq!(classify(&TypeSyntax::Other { node: 1 }), WrapperKind::Plain);
    let lifetime_arg = TypeSyntax::Path {
        node: 1,
        leading_colon: false,
        segments: vec![SegmentSyntax {
            ident: "Vec".to_string(),
            args: ArgsSyntax::Angle { turbofish: false, args: vec![ArgSyntax::Other] },
        }],
    };
    assert_eq!(classify(&lifetime_arg), WrapperKind::Plain);
}

#[test]
fn paths_join_with_double_colon() {
    assert_eq!(path_to_string(&strings(&["std", "fmt", "Debug"])), "std::fmt::Debug");
    assert_eq!(path_to_string(&strings(&["debug"])), "debug");
    assert_eq!(path_to_string(&Vec::new()), "");
    assert!(compare_path_with_str(&strings(&["builder"]), "builder"));
    assert!(!compare_path_with_str(&strings(&["a", "builder"]), "builder"));
}

#[test]
fn each_annotation_is_read() {
    assert_eq!(each_from_attribute(&each_attr(4, "each", "arg")), Ok("arg".to_string()));
    let wrong_key = each_from_attribute(&each_attr(4, "eac", "arg"));
    assert_eq!(wrong_key, Err(Diagnostic { node: 4, kind: DiagnosticKind::MalformedEach }));
    let not_string = AnnotationSyntax {
        node: 5,
        path: strings(&["builder"]),
        meta: MetaSyntax::List(vec![NestedSyntax::NameValue {
            path: strings(&["each"]),
            lit: LitSyntax::Other,
        }]),
    };
    assert_eq!(each_from_attribute(&not_string).unwrap_err().node, 5);
    let two_entries = AnnotationSyntax {
        node: 6,
        path: strings(&["builder"]),
        meta: MetaSyntax::List(vec![NestedSyntax::Other, NestedSyntax::Other]),
    };
    assert!(each_from_attribute(&two_entries).is_err());
    let unparsed = AnnotationSyntax { node: 7, path: strings(&["builder"]), meta: MetaSyntax::Unparsed };
    assert_eq!(
        each_from_attribute(&unparsed).unwrap_err().message(),
        "Only builder(each = \"...\") is supported"
    );
}

#[test]
fn last_each_annotation_wins() {
    let attrs = vec![each_attr(1, "each", "first"), each_attr(2, "each", "second")];
    let (each, errors) = resolve_each(&attrs, true);
    assert_eq!(each, Some("second".to_string()));
    assert!(errors.is_empty());
}

#[test]
fn each_on_non_collection_is_an_error() {
    let decl = record("Cmd", vec![], vec![field("name", bare(1, "String"), vec![each_attr(9, "each", "x")])]);
    let plan = builder::derive(&decl).unwrap();
    assert_eq!(plan.errors, vec![Diagnostic { node: 9, kind: DiagnosticKind::MalformedEach }]);
    assert_eq!(plan.errors[0].message(), "Only builder(each = \"...\") is supported");
    assert_eq!(plan.fields[0].each, None);
    assert_eq!(plan.fields[0].setter, Some(1));
}

#[test]
fn malformed_each_does_not_stop_other_fields() {
    let decl = record(
        "Cmd",
        vec![],
        vec![
            field("args", generic(1, "Vec", vec![bare(2, "String")]), vec![each_attr(9, "eac", "arg")]),
            field("env", generic(3, "Vec", vec![bare(4, "String")]), vec![each_attr(10, "each", "env")]),
        ],
    );
    let plan = builder::derive(&decl).unwrap();
    assert_eq!(plan.errors, vec![Diagnostic { node: 9, kind: DiagnosticKind::MalformedEach }]);
    assert_eq!(plan.fields.len(), 2);
    assert_eq!(plan.fields[0].each, None);
    assert_eq!(plan.fields[0].setter, Some(1));
    assert_eq!(plan.fields[1].each, Some("env".to_string()));
    assert_eq!(plan.fields[1].setter, None);
}

#[test]
fn builder_plan_of_plain_optional_and_collection_fields() {
    let decl = record(
        "Command",
        vec![],
        vec![
            field("executable", bare(1, "String"), vec![]),
            field("args", generic(2, "Vec", vec![bare(3, "String")]), vec![each_attr(8, "each", "arg")]),
            field("current_dir", generic(4, "Option", vec![bare(5, "String")]), vec![]),
        ],
    );
    let plan = builder::derive(&decl).unwrap();
    assert_eq!(plan.target, "Command");
    assert_eq!(plan.builder, "CommandBuilder");
    assert!(plan.errors.is_empty());
    assert_eq!(plan.fields[0].ident, "executable");
    assert_eq!(plan.fields[0].kind, WrapperKind::Plain);
    assert_eq!(plan.fields[0].setter, Some(1));
    assert!(plan.fields[0].required);
    assert!(!plan.fields[0].starts_empty);
    assert!(plan.fields[1].required);
    assert!(plan.fields[1].starts_empty);
    assert!(!plan.fields[2].required);
    assert!(!plan.fields[2].starts_empty);
    assert_eq!(plan.fields[1].kind, WrapperKind::Collection { inner: 3 });
    assert_eq!(plan.fields[1].each, Some("arg".to_string()));
    assert_eq!(plan.fields[1].setter, Some(2));
    assert_eq!(plan.fields[2].kind, WrapperKind::Optional { inner: 5 });
    assert_eq!(plan.fields[2].declared, 4);
    assert_eq!(plan.fields[2].setter, Some(5));
}

#[test]
fn builder_needs_named_record() {
    let decl = TypeDeclaration { node: 42, ident: "E".to_string(), generics: vec![], body: RecordBody::Other };
    let err = builder::derive(&decl).err().unwrap();
    assert_eq!(err, Diagnostic { node: 42, kind: DiagnosticKind::BuilderNeedsRecord });
    assert_eq!(err.message(), "Builder is only support for structs");
}

#[test]
fn debug_template_and_default() {
    let decl = record(
        "Field",
        vec![],
        vec![
            field("name", bare(1, "String"), vec![]),
            field("bitmask", bare(2, "u8"), vec![debug_attr(7, "0b{:08b}")]),
            field("ratio", bare(3, "f64"), vec![debug_attr(8, "{:.2}")]),
        ],
    );
    let plan = compose_debug(&decl).unwrap();
    assert_eq!(plan.target, "Field");
    assert_eq!(plan.fields[0].ident, "name");
    assert_eq!(plan.fields[0].template, None);
    assert_eq!(plan.fields[1].template, Some("0b{:08b}".to_string()));
    assert_eq!(plan.fields[2].template, Some("{:.2}".to_string()));
    assert!(plan.errors.is_empty());
}

#[test]
fn debug_first_template_wins_and_bad_shapes_are_reported() {
    let list_shaped = AnnotationSyntax { node: 11, path: strings(&["debug"]), meta: MetaSyntax::Word };
    let other_key = AnnotationSyntax { node: 12, path: strings(&["doc"]), meta: MetaSyntax::Word };
    let attrs = vec![list_shaped, other_key, debug_attr(13, "{:?}"), debug_attr(14, "{:x}")];
    let (template, errors) = resolve_debug(&attrs);
    assert_eq!(template, Some("{:?}".to_string()));
    assert_eq!(errors, vec![Diagnostic { node: 11, kind: DiagnosticKind::UnsupportedAttribute }]);
    assert_eq!(errors[0].message(), "Unsuported attribute");
}

#[test]
fn phantom_parameter_gets_no_bound() {
    let phantom = generic(1, "PhantomData", vec![bare(2, "T")]);
    let decl = record(
        "Field",
        vec![GenericParamSyntax::Type("T".to_string()), GenericParamSyntax::Type("U".to_string())],
        vec![field("marker", phantom, vec![]), field("value", bare(3, "U"), vec![])],
    );
    let plan = compose_debug(&decl).unwrap();
    assert_eq!(plan.bounded, vec![false, true]);
    assert!(plan.associated.is_empty());
}

#[test]
fn plain_parameter_gets_a_bound() {
    let decl = record(
        "Wrapper",
        vec![GenericParamSyntax::Other, GenericParamSyntax::Type("T".to_string())],
        vec![field("value", bare(1, "T"), vec![]), field("list", generic(2, "Vec", vec![bare(3, "T")]), vec![])],
    );
    let plan = compose_debug(&decl).unwrap();
    assert_eq!(plan.bounded, vec![false, true]);
}

#[test]
fn associated_type_is_bounded_in_where_clause() {
    let assoc = path(3, &["T", "Value"]);
    let decl = record(
        "Field",
        vec![GenericParamSyntax::Type("T".to_string())],
        vec![field("values", generic(2, "Vec", vec![assoc]), vec![])],
    );
    let plan = compose_debug(&decl).unwrap();
    assert_eq!(plan.bounded, vec![false]);
    assert_eq!(plan.associated, vec![3]);
}

#[test]
fn scan_stops_at_first_phantom() {
    let fields = vec![
        field("a", generic(1, "Vec", vec![path(2, &["T", "A"])]), vec![]),
        field("m", generic(3, "PhantomData", vec![bare(4, "T")]), vec![]),
        field("b", generic(5, "Vec", vec![path(6, &["T", "B"])]), vec![]),
    ];
    let (needs, assoc) = infer_bound(&fields, &"T".to_string());
    assert!(!needs);
    assert_eq!(assoc, vec![2]);
}

#[test]
fn debug_needs_named_record() {
    let decl = TypeDeclaration { node: 3, ident: "E".to_string(), generics: vec![], body: RecordBody::Other };
    let err = compose_debug(&decl).err().unwrap();
    assert_eq!(err, Diagnostic { node: 3, kind: DiagnosticKind::DebugNeedsRecord });
    assert_eq!(err.message(), "CustomDebug is only implemented for structs");
}
