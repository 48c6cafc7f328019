use rec_partial::model::{
    Body, FieldDef, Fields, GenErrorKind, Generics, Meta, MetaPath, Pred, ScalarTy, Ty, TypeDef,
    Variant,
};
use rec_partial::model::copy_ty;
use rec_partial::transform::transform;

fn ident(s: &str, span: usize) -> MetaPath {
    MetaPath { segs: vec![s.to_string()], span }
}

fn bare(s: &str, span: usize) -> Meta {
    Meta::Bare(ident(s, span))
}

fn no_generics() -> Generics {
    Generics { params: vec![], preds: vec![] }
}

fn named_field(name: &str, ty: Ty) -> FieldDef {
    FieldDef { name: Some(name.to_string()), attrs: vec![], ty }
}

fn struct_def(name: &str, attrs: Vec<Meta>, fields: Vec<FieldDef>) -> TypeDef {
    TypeDef {
        attrs,
        name: name.to_string(),
        generics: no_generics(),
        body: Body::StructBody(Fields::Named(fields)),
    }
}

fn wrapped(ty: Ty) -> Ty {
    Ty::Optional(Box::new(Ty::PartialOf(Box::new(ty))))
}

#[test]
fn scalar_struct_fields_wrapped_once() {
    let d = struct_def(
        "Foo",
        vec![],
        vec![
            named_field("a", Ty::Scalar(ScalarTy::I32Ty)),
            named_field("b", Ty::Scalar(ScalarTy::BoolTy)),
        ],
    );
    let e = transform(d).unwrap();
    assert_eq!(e.def.name, "PartialFoo");
    assert!(e.def.attrs.is_empty());
    match &e.def.body {
        Body::StructBody(Fields::Named(fs)) => {
            assert_eq!(fs.len(), 2);
            assert_eq!(fs[0].name.as_deref(), Some("a"));
            assert_eq!(fs[1].name.as_deref(), Some("b"));
            assert!(fs[0].attrs.is_empty());
            assert!(fs[1].attrs.is_empty());
            assert_eq!(fs[0].ty, wrapped(Ty::Scalar(ScalarTy::I32Ty)));
            assert_eq!(fs[1].ty, wrapped(Ty::Scalar(ScalarTy::BoolTy)));
        }
        _ => panic!("expected a named struct body"),
    }
    assert_eq!(
        e.def.generics.preds,
        vec![
            Pred::Bound(Ty::Scalar(ScalarTy::I32Ty)),
            Pred::Bound(Ty::Scalar(ScalarTy::BoolTy)),
        ]
    );
    assert_eq!(e.linkage.orig_name, "Foo");
    assert_eq!(e.linkage.partial_name, "PartialFoo");
    assert_eq!(e.linkage.generics, e.def.generics);
}

#[test]
fn option_field_wrapped_once() {
    let inner = Ty::Optional(Box::new(Ty::Scalar(ScalarTy::U8Ty)));
    let d = struct_def("Opt", vec![], vec![named_field("o", copy_ty(&inner))]);
    let e = transform(d).unwrap();
    match &e.def.body {
        Body::StructBody(Fields::Named(fs)) => {
            assert_eq!(fs[0].ty, wrapped(inner));
        }
        _ => panic!("expected a named struct body"),
    }
}

#[test]
fn duplicate_field_types_bound_once() {
    let vec_u8 = Ty::Vector(Box::new(Ty::Scalar(ScalarTy::U8Ty)));
    let d = struct_def(
        "Dups",
        vec![],
        vec![
            named_field("x", copy_ty(&vec_u8)),
            named_field("y", copy_ty(&vec_u8)),
            named_field("z", Ty::Scalar(ScalarTy::TextTy)),
        ],
    );
    let e = transform(d).unwrap();
    assert_eq!(
        e.def.generics.preds,
        vec![
            Pred::Bound(vec_u8),
            Pred::Bound(Ty::Scalar(ScalarTy::TextTy)),
        ]
    );
}

#[test]
fn enum_variants_kept_and_attrs_cleared() {
    let d = TypeDef {
        attrs: vec![],
        name: "Ev".to_string(),
        generics: no_generics(),
        body: Body::EnumBody(vec![
            Variant {
                name: "A".to_string(),
                attrs: vec![bare("marker", 1)],
                fields: Fields::Named(vec![FieldDef {
                    name: Some("f".to_string()),
                    attrs: vec![bare("old_attr", 2)],
                    ty: Ty::Scalar(ScalarTy::I64Ty),
                }]),
            },
            Variant {
                name: "B".to_string(),
                attrs: vec![],
                fields: Fields::Unnamed(vec![FieldDef {
                    name: None,
                    attrs: vec![],
                    ty: Ty::Scalar(ScalarTy::U8Ty),
                }]),
            },
            Variant { name: "C".to_string(), attrs: vec![], fields: Fields::Unit },
        ]),
    };
    let e = transform(d).unwrap();
    match &e.def.body {
        Body::EnumBody(vs) => {
            assert_eq!(vs.len(), 3);
            assert_eq!(vs[0].name, "A");
            assert_eq!(vs[1].name, "B");
            assert_eq!(vs[2].name, "C");
            assert!(vs.iter().all(|v| v.attrs.is_empty()));
            match &vs[0].fields {
                Fields::Named(fs) => {
                    assert_eq!(fs.len(), 1);
                    assert_eq!(fs[0].name.as_deref(), Some("f"));
                    assert!(fs[0].attrs.is_empty());
                    assert_eq!(fs[0].ty, wrapped(Ty::Scalar(ScalarTy::I64Ty)));
                }
                _ => panic!("variant A should stay a named-field variant"),
            }
            match &vs[1].fields {
                Fields::Unnamed(fs) => {
                    assert_eq!(fs.len(), 1);
                    assert_eq!(fs[0].ty, wrapped(Ty::Scalar(ScalarTy::U8Ty)));
                }
                _ => panic!("variant B should stay a tuple variant"),
            }
            assert_eq!(vs[2].fields, Fields::Unit);
        }
        _ => panic!("expected an enum body"),
    }
    assert_eq!(
        e.def.generics.preds,
        vec![
            Pred::Bound(Ty::Scalar(ScalarTy::I64Ty)),
            Pred::Bound(Ty::Scalar(ScalarTy::U8Ty)),
        ]
    );
}

#[test]
fn derive_and_all_scenario() {
    let attrs = vec![
        Meta::Args(
            ident("partial", 1),
            vec![Meta::Args(
                ident("derive", 2),
                vec![bare("Debug", 3), bare("Clone", 4)],
            )],
        ),
        Meta::Args(
            ident("partial", 5),
            vec![Meta::Args(
                ident("all", 6),
                vec![Meta::Args(ident("serde", 7), vec![bare("default", 8)])],
            )],
        ),
    ];
    let d = struct_def("X", attrs, vec![named_field("x", Ty::Scalar(ScalarTy::I32Ty))]);
    let e = transform(d).unwrap();
    // Both input attributes are partial(...) annotations, so both are gone;
    // what remains is the accumulated derive list alone.
    assert_eq!(
        e.def.attrs,
        vec![Meta::Args(
            ident("derive", 0),
            vec![bare("Debug", 3), bare("Clone", 4)],
        )]
    );
    match &e.def.body {
        Body::StructBody(Fields::Named(fs)) => {
            assert_eq!(fs[0].name.as_deref(), Some("x"));
            assert_eq!(fs[0].ty, wrapped(Ty::Scalar(ScalarTy::I32Ty)));
            assert_eq!(
                fs[0].attrs,
                vec![Meta::Args(ident("serde", 7), vec![bare("default", 8)])]
            );
        }
        _ => panic!("expected a named struct body"),
    }
    assert_eq!(e.def.name, "PartialX");
    assert_eq!(e.linkage.orig_name, "X");
    assert_eq!(e.linkage.partial_name, "PartialX");
}

#[test]
fn union_rejected_with_one_error() {
    let d = TypeDef {
        attrs: vec![],
        name: "U".to_string(),
        generics: no_generics(),
        body: Body::UnionBody(42),
    };
    let err = transform(d).unwrap_err();
    assert_eq!(err.span, 42);
    assert_eq!(err.kind, GenErrorKind::UnionUnsupported);
}

#[test]
fn unknown_key_rejected() {
    let attrs = vec![Meta::Args(
        ident("partial", 1),
        vec![Meta::Args(ident("unknown", 9), vec![bare("foo", 10)])],
    )];
    let d = struct_def("K", attrs, vec![named_field("x", Ty::Scalar(ScalarTy::I32Ty))]);
    let err = transform(d).unwrap_err();
    assert_eq!(err.span, 9);
    assert_eq!(err.kind, GenErrorKind::UnrecognizedDirective);
}

#[test]
fn attr_error_reported_before_union_error() {
    let attrs = vec![Meta::Args(
        ident("partial", 1),
        vec![Meta::Args(ident("unknown", 9), vec![])],
    )];
    let d = TypeDef {
        attrs,
        name: "U".to_string(),
        generics: no_generics(),
        body: Body::UnionBody(42),
    };
    let err = transform(d).unwrap_err();
    assert_eq!(err.span, 9);
    assert_eq!(err.kind, GenErrorKind::UnrecognizedDirective);
}

#[test]
fn bare_partial_attr_is_malformed() {
    let d = struct_def("M", vec![bare("partial", 3)], vec![]);
    let err = transform(d).unwrap_err();
    assert_eq!(err.span, 3);
    assert_eq!(err.kind, GenErrorKind::MalformedDirective);
}

#[test]
fn derive_without_path_list_is_malformed() {
    let attrs = vec![Meta::Args(
        ident("partial", 1),
        vec![Meta::Assigned(ident("derive", 4), "x".to_string())],
    )];
    let d = struct_def("M", attrs, vec![]);
    let err = transform(d).unwrap_err();
    assert_eq!(err.span, 4);
    assert_eq!(err.kind, GenErrorKind::MalformedDirective);
}

#[test]
fn derive_with_non_path_item_is_malformed() {
    let attrs = vec![Meta::Args(
        ident("partial", 1),
        vec![Meta::Args(
            ident("derive", 4),
            vec![Meta::Args(ident("nested", 5), vec![])],
        )],
    )];
    let d = struct_def("M", attrs, vec![]);
    let err = transform(d).unwrap_err();
    assert_eq!(err.span, 4);
    assert_eq!(err.kind, GenErrorKind::MalformedDirective);
}

#[test]
fn all_without_single_template_is_malformed() {
    let attrs = vec![Meta::Args(ident("partial", 1), vec![Meta::Args(ident("all", 6), vec![])])];
    let d = struct_def("M", attrs, vec![]);
    let err = transform(d).unwrap_err();
    assert_eq!(err.span, 6);
    assert_eq!(err.kind, GenErrorKind::MalformedDirective);
}

#[test]
fn all_templates_stack_in_declaration_order() {
    let attrs = vec![
        Meta::Args(
            ident("partial", 1),
            vec![
                Meta::Args(ident("all", 2), vec![bare("first", 3)]),
                Meta::Args(ident("all", 4), vec![bare("second", 5)]),
            ],
        ),
        Meta::Args(
            ident("partial", 6),
            vec![Meta::Args(ident("all", 7), vec![bare("third", 8)])],
        ),
    ];
    let d = struct_def("S", attrs, vec![named_field("x", Ty::Scalar(ScalarTy::U16Ty))]);
    let e = transform(d).unwrap();
    match &e.def.body {
        Body::StructBody(Fields::Named(fs)) => {
            assert_eq!(
                fs[0].attrs,
                vec![bare("first", 3), bare("second", 5), bare("third", 8)]
            );
        }
        _ => panic!("expected a named struct body"),
    }
}

#[test]
fn derive_directives_accumulate() {
    let attrs = vec![
        Meta::Args(
            ident("partial", 1),
            vec![Meta::Args(ident("derive", 2), vec![bare("Debug", 3)])],
        ),
        Meta::Args(
            ident("partial", 4),
            vec![Meta::Args(ident("derive", 5), vec![bare("Clone", 6)])],
        ),
    ];
    let d = struct_def("S", attrs, vec![]);
    let e = transform(d).unwrap();
    assert_eq!(
        e.def.attrs,
        vec![Meta::Args(ident("derive", 0), vec![bare("Debug", 3), bare("Clone", 6)])]
    );
}

#[test]
fn foreign_attributes_are_kept() {
    let d = struct_def("S", vec![bare("some_marker", 1)], vec![]);
    let e = transform(d).unwrap();
    assert_eq!(e.def.attrs, vec![bare("some_marker", 1)]);
}

#[test]
fn foreign_attribute_kept_beside_derive() {
    let attrs = vec![
        bare("foo", 1),
        Meta::Args(
            ident("partial", 2),
            vec![Meta::Args(ident("derive", 3), vec![bare("Debug", 4)])],
        ),
    ];
    let d = struct_def("S", attrs, vec![]);
    let e = transform(d).unwrap();
    // Only the partial(...) annotation is stripped; the foreign attribute
    // stays, and the accumulated derive list comes after it.
    assert_eq!(
        e.def.attrs,
        vec![
            bare("foo", 1),
            Meta::Args(ident("derive", 0), vec![bare("Debug", 4)]),
        ]
    );
}

#[test]
fn generics_carried_and_where_clause_extended() {
    let d = TypeDef {
        attrs: vec![],
        name: "G".to_string(),
        generics: Generics {
            params: vec!["T".to_string()],
            preds: vec![Pred::Verbatim("T: Clone".to_string())],
        },
        body: Body::StructBody(Fields::Unnamed(vec![FieldDef {
            name: None,
            attrs: vec![],
            ty: Ty::Named("T".to_string()),
        }])),
    };
    let e = transform(d).unwrap();
    assert_eq!(e.def.generics.params, vec!["T".to_string()]);
    assert_eq!(
        e.def.generics.preds,
        vec![
            Pred::Verbatim("T: Clone".to_string()),
            Pred::Bound(Ty::Named("T".to_string())),
        ]
    );
    assert_eq!(e.linkage.generics, e.def.generics);
}
