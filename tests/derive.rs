use qsp_derive::bounds::{
    field_type_targets, make_generic_bounds, make_where_clause_for_fields, synthesize_bounds,
    type_param_targets,
};
use qsp_derive::decl::{
    Attribute, Body, Bound, Contract, DeriveError, Field, GenericParam, Generics, Predicate, TypeDecl,
};
use qsp_derive::derive::{
    analyze, derive_crc, derive_packed, make_impl_crc_trait, make_impl_packed, report, Artifact,
    ImplBlock, ImplBody,
};
use qsp_derive::layout::{classify_repr_item, has_repr_packed, ReprItem};

fn s(t: &str) -> String {
    t.to_string()
}

fn field(name: &str, ty: &str) -> Field {
    Field { name: s(name), ty: s(ty) }
}

fn repr(items: &[&str]) -> Attribute {
    Attribute { path: s("repr"), args: Some(items.iter().map(|i| s(i)).collect()) }
}

fn no_generics() -> Generics {
    Generics { params: Vec::new(), predicates: Vec::new() }
}

fn record(name: &str, generics: Generics, attrs: Vec<Attribute>, fields: Vec<Field>) -> TypeDecl {
    TypeDecl { name: s(name), generics, attrs, body: Body::Record(fields) }
}

fn foo(attrs: Vec<Attribute>) -> TypeDecl {
    record(
        "Foo",
        no_generics(),
        attrs,
        vec![field("x", "u8"), field("y", "u32"), field("z", "u8")],
    )
}

fn impl_of(a: Artifact) -> ImplBlock {
    match a {
        Artifact::Impl(b) => b,
        Artifact::Diagnostic(m) => panic!("unexpected diagnostic: {}", m),
    }
}

fn diagnostic_of(a: Artifact) -> String {
    match a {
        Artifact::Impl(b) => panic!("unexpected impl: {:?}", b),
        Artifact::Diagnostic(m) => m,
    }
}

fn folds(b: &ImplBlock) -> Vec<String> {
    match &b.body {
        ImplBody::Fold(v) => v.clone(),
        ImplBody::Marker => panic!("marker body"),
    }
}

fn bound_pairs(ps: &[Predicate]) -> Vec<(String, Contract)> {
    ps.iter()
        .map(|p| match &p.bound {
            Bound::Contract(c) => (p.bounded_ty.clone(), *c),
            Bound::Written(t) => panic!("written bound {}", t),
        })
        .collect()
}

#[test]
fn packed_record_scenario() {
    let b = impl_of(derive_packed(&foo(vec![repr(&["C", "packed"])])));
    assert_eq!(b.contract, Contract::Packed);
    assert_eq!(b.self_ty, "Foo");
    assert!(matches!(b.body, ImplBody::Marker));
    assert_eq!(
        bound_pairs(&b.generics.predicates),
        vec![(s("u8"), Contract::Packed), (s("u32"), Contract::Packed), (s("u8"), Contract::Packed)]
    );
}

#[test]
fn checksum_of_packed_record_folds_in_order() {
    let b = impl_of(derive_crc(&foo(vec![repr(&["C", "packed"])])));
    assert_eq!(b.contract, Contract::Checksum);
    assert_eq!(folds(&b), vec![s("x"), s("y"), s("z")]);
    assert!(b.generics.predicates.is_empty());
}

#[test]
fn aligned_packing_scenario() {
    let d = foo(vec![repr(&["C", "packed(4)"])]);
    assert_eq!(
        diagnostic_of(derive_packed(&d)),
        "repr(packed(N > 1)) is not supported because of trailing padding"
    );
    let b = impl_of(derive_crc(&d));
    assert_eq!(folds(&b), vec![s("x"), s("y"), s("z")]);
}

#[test]
fn aligned_packing_with_token_spacing() {
    let d = foo(vec![repr(&["C", "packed (4)"])]);
    assert!(matches!(make_impl_packed(&d), Err(DeriveError::UnsupportedPackedAlignment)));
}

#[test]
fn aligned_packing_wins_over_packed() {
    let d = foo(vec![repr(&["packed"]), repr(&["packed(2)"])]);
    assert!(matches!(make_impl_packed(&d), Err(DeriveError::UnsupportedPackedAlignment)));
}

#[test]
fn packed_one_is_accepted_in_both_spellings() {
    for item in ["packed(1)", "packed (1)", "packed"] {
        let b = impl_of(derive_packed(&foo(vec![repr(&["C", item])])));
        assert_eq!(b.generics.predicates.len(), 3);
    }
}

#[test]
fn generic_record_scenario() {
    let g = Generics { params: vec![GenericParam::Type(s("T"))], predicates: Vec::new() };
    let d = record("Bar", g, vec![repr(&["C"])], vec![field("f", "T"), field("x", "u8"), field("y", "u32")]);
    let b = impl_of(derive_crc(&d));
    assert_eq!(bound_pairs(&b.generics.predicates), vec![(s("T"), Contract::Checksum)]);
    assert_eq!(folds(&b), vec![s("f"), s("x"), s("y")]);
    assert_eq!(b.generics.params.len(), 1);
}

#[test]
fn reference_fields_scenario() {
    let g = Generics { params: vec![GenericParam::Lifetime(s("'a"))], predicates: Vec::new() };
    let d = record(
        "Baz",
        g,
        Vec::new(),
        vec![field("x", "&'a u8"), field("y", "&'a u32"), field("z", "&'a u8")],
    );
    let b = impl_of(derive_crc(&d));
    assert_eq!(folds(&b), vec![s("x"), s("y"), s("z")]);
    assert!(b.generics.predicates.is_empty());
    assert!(matches!(&b.generics.params[0], GenericParam::Lifetime(l) if l == "'a"));
}

#[test]
fn enumeration_and_union_are_refused() {
    for body in [Body::Enumeration, Body::Union] {
        let d = TypeDecl {
            name: s("E"),
            generics: no_generics(),
            attrs: vec![repr(&["packed"])],
            body,
        };
        assert!(matches!(make_impl_crc_trait(&d), Err(DeriveError::UnsupportedShape(Contract::Checksum))));
        assert!(matches!(make_impl_packed(&d), Err(DeriveError::UnsupportedShape(Contract::Packed))));
        assert_eq!(diagnostic_of(derive_crc(&d)), "derive Crc for enum or union is not supported");
        assert_eq!(
            diagnostic_of(derive_packed(&d)),
            "derive Packed for enum or union is not supported"
        );
    }
}

#[test]
fn missing_packed_attribute_names_type() {
    let d = foo(vec![repr(&["C"])]);
    assert_eq!(diagnostic_of(derive_packed(&d)), "missing repr(packed) for struct Foo");
    let e = foo(Vec::new());
    assert!(matches!(make_impl_packed(&e), Err(DeriveError::MissingPackedAttribute(n)) if n == "Foo"));
}

#[test]
fn non_repr_attribute_is_ignored() {
    let a = Attribute { path: s("other"), args: Some(vec![s("packed")]) };
    let p = Attribute { path: s("repr"), args: None };
    assert_eq!(has_repr_packed(&vec![a, p]).unwrap(), false);
}

#[test]
fn checksum_bounds_every_type_param_even_unused() {
    let g = Generics {
        params: vec![
            GenericParam::Lifetime(s("'a")),
            GenericParam::Type(s("T")),
            GenericParam::Type(s("U")),
        ],
        predicates: Vec::new(),
    };
    let d = record("Two", g, Vec::new(), vec![field("t", "&'a T")]);
    let b = impl_of(derive_crc(&d));
    assert_eq!(
        bound_pairs(&b.generics.predicates),
        vec![(s("T"), Contract::Checksum), (s("U"), Contract::Checksum)]
    );
}

#[test]
fn packed_bounds_fields_not_params() {
    let g = Generics {
        params: vec![GenericParam::Type(s("T")), GenericParam::Type(s("U"))],
        predicates: Vec::new(),
    };
    let d = record("P", g, vec![repr(&["packed"])], vec![field("a", "T"), field("b", "[u8; 2]")]);
    let b = impl_of(derive_packed(&d));
    assert_eq!(
        bound_pairs(&b.generics.predicates),
        vec![(s("T"), Contract::Packed), (s("[u8; 2]"), Contract::Packed)]
    );
}

#[test]
fn existing_predicates_are_kept() {
    let g = Generics {
        params: vec![GenericParam::Type(s("T"))],
        predicates: vec![Predicate { bounded_ty: s("T"), bound: Bound::Written(s("Copy")) }],
    };
    let r = make_generic_bounds(&g, Contract::Checksum);
    assert_eq!(r.predicates.len(), 2);
    assert!(matches!(&r.predicates[0].bound, Bound::Written(t) if t == "Copy"));
    assert_eq!(bound_pairs(&r.predicates[1..]), vec![(s("T"), Contract::Checksum)]);
}

#[test]
fn permuting_fields_changes_fold_order() {
    let a = impl_of(derive_crc(&foo(Vec::new())));
    let d = record("Foo", no_generics(), Vec::new(), vec![field("y", "u32"), field("x", "u8"), field("z", "u8")]);
    let b = impl_of(derive_crc(&d));
    assert_ne!(folds(&a), folds(&b));
    assert_eq!(folds(&b), vec![s("y"), s("x"), s("z")]);
}

#[test]
fn empty_record() {
    let d = record("Unit", no_generics(), vec![repr(&["packed"])], Vec::new());
    assert!(folds(&impl_of(derive_crc(&d))).is_empty());
    assert!(impl_of(derive_packed(&d)).generics.predicates.is_empty());
}

#[test]
fn repr_items_are_classified() {
    assert_eq!(classify_repr_item(&s("packed")), ReprItem::Unpadded);
    assert_eq!(classify_repr_item(&s("packed(1)")), ReprItem::Unpadded);
    assert_eq!(classify_repr_item(&s(" packed ( 1 ) ")), ReprItem::Unpadded);
    assert_eq!(classify_repr_item(&s("packed(2)")), ReprItem::AlignedPacking);
    assert_eq!(classify_repr_item(&s("C")), ReprItem::Other);
    assert_eq!(classify_repr_item(&s("align(4)")), ReprItem::Other);
    assert_eq!(classify_repr_item(&s("packedx")), ReprItem::Other);
}

#[test]
fn synthesize_bounds_appends_in_order() {
    let r = synthesize_bounds(&no_generics(), &vec![s("A"), s("B")], Contract::Packed);
    assert_eq!(bound_pairs(&r.predicates), vec![(s("A"), Contract::Packed), (s("B"), Contract::Packed)]);
    let g = Generics {
        params: vec![GenericParam::Type(s("K")), GenericParam::Lifetime(s("'b")), GenericParam::Type(s("V"))],
        predicates: Vec::new(),
    };
    assert_eq!(type_param_targets(&g), vec![s("K"), s("V")]);
    assert_eq!(field_type_targets(&vec![field("a", "K"), field("b", "u8")]), vec![s("K"), s("u8")]);
    assert!(make_where_clause_for_fields(&Body::Union, &g, Contract::Packed).is_none());
}

#[test]
fn analyze_and_report() {
    let d = foo(Vec::new());
    assert_eq!(analyze(&d, Contract::Checksum).unwrap().len(), 3);
    let m = diagnostic_of(report(Err(DeriveError::MissingPackedAttribute(s("Q")))));
    assert_eq!(m, "missing repr(packed) for struct Q");
    assert_eq!(DeriveError::UnsupportedPackedAlignment.message(), "repr(packed(N > 1)) is not supported because of trailing padding");
}
