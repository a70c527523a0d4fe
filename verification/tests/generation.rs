//! Generation scenarios: sum and product declarations, the opt-out
//! annotation, ambiguity resolution, and each diagnostic.

use derive_from_one::derive_from_one;
use derive_from_one::get_skip_attribute;
use derive_from_one::ConstructorDef;
use derive_from_one::DeclKind;
use derive_from_one::Diagnostic;
use derive_from_one::DiagnosticKind;
use derive_from_one::EmissionTarget;
use derive_from_one::FieldShape;
use derive_from_one::FieldWiring;
use derive_from_one::TypeDeclaration;
use derive_from_one::Variant;

fn variant(name: &str, shape: FieldShape) -> Variant {
    Variant { name: name.to_string(), shape, annotation_tokens: Vec::new() }
}

fn variant_with_tokens(name: &str, shape: FieldShape, tokens: &[&str]) -> Variant {
    Variant {
        name: name.to_string(),
        shape,
        annotation_tokens: tokens.iter().map(|t| t.to_string()).collect(),
    }
}

fn named(field: &str, ty: &str) -> FieldShape {
    FieldShape::SingleNamed { name: field.to_string(), ty: ty.to_string() }
}

fn unnamed(ty: &str) -> FieldShape {
    FieldShape::SingleUnnamed { ty: ty.to_string() }
}

fn sum(ident: &str, variants: Vec<Variant>) -> TypeDeclaration {
    TypeDeclaration { ident: ident.to_string(), kind: DeclKind::Sum { variants } }
}

fn product(ident: &str, shape: FieldShape) -> TypeDeclaration {
    TypeDeclaration { ident: ident.to_string(), kind: DeclKind::Product { shape } }
}

fn expect_ok(decl: &TypeDeclaration) -> Vec<ConstructorDef> {
    match derive_from_one(decl) {
        Ok(ctors) => ctors,
        Err(d) => panic!("expected constructors, got diagnostic {:?}", d),
    }
}

fn expect_err(decl: &TypeDeclaration) -> Diagnostic {
    match derive_from_one(decl) {
        Ok(ctors) => panic!("expected a diagnostic, got constructors {:?}", ctors),
        Err(d) => d,
    }
}

fn assert_variant_ctor(c: &ConstructorDef, target_type: &str, origin: &str, variant: &str, field: Option<&str>) {
    assert_eq!(c.target_type, target_type);
    assert_eq!(c.origin, origin);
    match &c.target {
        EmissionTarget::Variant { variant: v, wiring } => {
            assert_eq!(v, variant);
            match (wiring, field) {
                (FieldWiring::Named { field: f }, Some(expected)) => assert_eq!(f, expected),
                (FieldWiring::Positional, None) => {}
                other => panic!("wrong wiring: {:?}", other),
            }
        }
        other => panic!("expected a variant target, got {:?}", other),
    }
}

fn assert_product_ctor(c: &ConstructorDef, target_type: &str, origin: &str, field: Option<&str>) {
    assert_eq!(c.target_type, target_type);
    assert_eq!(c.origin, origin);
    match &c.target {
        EmissionTarget::Product { wiring } => match (wiring, field) {
            (FieldWiring::Named { field: f }, Some(expected)) => assert_eq!(f, expected),
            (FieldWiring::Positional, None) => {}
            other => panic!("wrong wiring: {:?}", other),
        },
        other => panic!("expected a product target, got {:?}", other),
    }
}

#[test]
fn sum_mix_of_unnamed_named_and_unit() {
    let decl = sum(
        "T",
        vec![
            variant("A", unnamed("u32")),
            variant("B", named("b", "&'static str")),
            variant("C", FieldShape::NoField),
        ],
    );
    let ctors = expect_ok(&decl);
    assert_eq!(ctors.len(), 2);
    assert_variant_ctor(&ctors[0], "T", "u32", "A", None);
    assert_variant_ctor(&ctors[1], "T", "&'static str", "B", Some("b"));
}

#[test]
fn sum_multi_field_unnamed_variant_excluded() {
    let decl = sum(
        "T",
        vec![variant("A", FieldShape::Multi), variant("B", unnamed("&'static str"))],
    );
    let ctors = expect_ok(&decl);
    assert_eq!(ctors.len(), 1);
    assert_variant_ctor(&ctors[0], "T", "&'static str", "B", None);
}

#[test]
fn sum_multi_field_variant_not_counted_for_ambiguity() {
    // The multi-field variant C also mentions u32, but it is excluded at
    // classification, so A's origin type stays unique.
    let decl = sum(
        "T",
        vec![
            variant("A", unnamed("u32")),
            variant("B", named("b", "&'static str")),
            variant("C", FieldShape::Multi),
        ],
    );
    let ctors = expect_ok(&decl);
    assert_eq!(ctors.len(), 2);
    assert_variant_ctor(&ctors[0], "T", "u32", "A", None);
    assert_variant_ctor(&ctors[1], "T", "&'static str", "B", Some("b"));
}

#[test]
fn sum_multi_field_named_variant_excluded() {
    let decl = sum(
        "T",
        vec![variant("A", FieldShape::Multi), variant("B", named("b", "&'static str"))],
    );
    let ctors = expect_ok(&decl);
    assert_eq!(ctors.len(), 1);
    assert_variant_ctor(&ctors[0], "T", "&'static str", "B", Some("b"));
}

#[test]
fn sum_skipped_variant_excluded() {
    let decl = sum(
        "T",
        vec![
            variant_with_tokens("A", unnamed("bool"), &["skip"]),
            variant("B", unnamed("&'static str")),
        ],
    );
    let ctors = expect_ok(&decl);
    assert_eq!(ctors.len(), 1);
    assert_variant_ctor(&ctors[0], "T", "&'static str", "B", None);
}

#[test]
fn sum_shared_origin_type_generates_nothing_for_either() {
    let decl = sum(
        "T",
        vec![
            variant("A", unnamed("u32")),
            variant("B", named("b", "u32")),
            variant("C", unnamed("bool")),
        ],
    );
    let ctors = expect_ok(&decl);
    assert_eq!(ctors.len(), 1);
    assert_variant_ctor(&ctors[0], "T", "bool", "C", None);
}

#[test]
fn sum_skipped_variant_not_counted_for_ambiguity() {
    // A is skipped during classification, so B's origin type is unique
    // among the provisional candidates.
    let decl = sum(
        "T",
        vec![
            variant_with_tokens("A", unnamed("u32"), &["skip"]),
            variant("B", unnamed("u32")),
        ],
    );
    let ctors = expect_ok(&decl);
    assert_eq!(ctors.len(), 1);
    assert_variant_ctor(&ctors[0], "T", "u32", "B", None);
}

#[test]
fn sum_all_variants_excluded_yields_empty_list() {
    let decl = sum(
        "T",
        vec![variant("A", FieldShape::NoField), variant("B", FieldShape::Multi)],
    );
    let ctors = expect_ok(&decl);
    assert_eq!(ctors.len(), 0);
}

#[test]
fn sum_malformed_annotation_fails_whole_declaration() {
    let decl = sum(
        "T",
        vec![
            variant_with_tokens("A", unnamed("u32"), &["skipp"]),
            variant("B", unnamed("&'static str")),
        ],
    );
    let d = expect_err(&decl);
    assert_eq!(d.kind, DiagnosticKind::MalformedAnnotation);
    assert_eq!(d.site, "A");
    assert_eq!(d.message, "Expected `#[from(skip)]`");
}

#[test]
fn sum_malformed_annotation_on_unit_variant_fails() {
    // The unit variant could never produce a constructor, but its
    // unrecognized annotation token still fails the whole declaration.
    let decl = sum(
        "T",
        vec![
            variant_with_tokens("A", FieldShape::NoField, &["oops"]),
            variant("B", unnamed("&'static str")),
        ],
    );
    let d = expect_err(&decl);
    assert_eq!(d.kind, DiagnosticKind::MalformedAnnotation);
    assert_eq!(d.site, "A");
    assert_eq!(d.message, "Expected `#[from(skip)]`");
}

#[test]
fn sum_malformed_annotation_on_multi_field_variant_fails() {
    let decl = sum(
        "T",
        vec![
            variant("A", unnamed("u32")),
            variant_with_tokens("B", FieldShape::Multi, &["never"]),
        ],
    );
    let d = expect_err(&decl);
    assert_eq!(d.kind, DiagnosticKind::MalformedAnnotation);
    assert_eq!(d.site, "B");
}

#[test]
fn sum_malformed_annotation_beats_later_variants() {
    let d = expect_err(&sum(
        "T",
        vec![
            variant_with_tokens("A", unnamed("u32"), &["oops"]),
            variant_with_tokens("B", unnamed("bool"), &["wrong"]),
        ],
    ));
    assert_eq!(d.kind, DiagnosticKind::MalformedAnnotation);
    assert_eq!(d.site, "A");
}

#[test]
fn product_single_named_field() {
    let decl = product("Wrapper", named("inner", "u64"));
    let ctors = expect_ok(&decl);
    assert_eq!(ctors.len(), 1);
    assert_product_ctor(&ctors[0], "Wrapper", "u64", Some("inner"));
}

#[test]
fn product_single_unnamed_field() {
    let decl = product("Wrapper", unnamed("String"));
    let ctors = expect_ok(&decl);
    assert_eq!(ctors.len(), 1);
    assert_product_ctor(&ctors[0], "Wrapper", "String", None);
}

#[test]
fn product_two_fields_fails_with_unsupported_shape() {
    let decl = product("Pair", FieldShape::Multi);
    let d = expect_err(&decl);
    assert_eq!(d.kind, DiagnosticKind::UnsupportedShape);
    assert_eq!(d.site, "Pair");
    assert_eq!(d.message, "FromOne can only be used with structs with a single field");
}

#[test]
fn product_no_field_fails_with_unsupported_shape() {
    let d = expect_err(&product("Unit", FieldShape::NoField));
    assert_eq!(d.kind, DiagnosticKind::UnsupportedShape);
    assert_eq!(d.site, "Unit");
}

#[test]
fn other_declaration_fails_with_unsupported_declaration() {
    let decl = TypeDeclaration { ident: "U".to_string(), kind: DeclKind::Other };
    let d = expect_err(&decl);
    assert_eq!(d.kind, DiagnosticKind::UnsupportedDeclaration);
    assert_eq!(d.site, "U");
    assert_eq!(
        d.message,
        "FromOne can only be used with enums or structs with a single field"
    );
}

#[test]
fn generation_is_idempotent() {
    let decl = sum(
        "T",
        vec![
            variant("A", unnamed("u32")),
            variant("B", named("b", "&'static str")),
            variant("C", FieldShape::NoField),
            variant_with_tokens("D", unnamed("bool"), &["skip"]),
        ],
    );
    let first = derive_from_one(&decl);
    let second = derive_from_one(&decl);
    assert_eq!(format!("{:?}", first), format!("{:?}", second));
}

#[test]
fn skip_attribute_absent_annotation_means_not_skipped() {
    let v = variant("A", unnamed("u32"));
    assert!(matches!(get_skip_attribute(&v), Ok(false)));
}

#[test]
fn skip_attribute_recognized_token_means_skipped() {
    let v = variant_with_tokens("A", unnamed("u32"), &["skip"]);
    assert!(matches!(get_skip_attribute(&v), Ok(true)));
    let twice = variant_with_tokens("A", unnamed("u32"), &["skip", "skip"]);
    assert!(matches!(get_skip_attribute(&twice), Ok(true)));
}

#[test]
fn skip_attribute_unrecognized_token_is_malformed() {
    let v = variant_with_tokens("A", unnamed("u32"), &["skip", "also"]);
    let d = get_skip_attribute(&v).unwrap_err();
    assert_eq!(d.kind, DiagnosticKind::MalformedAnnotation);
    assert_eq!(d.site, "A");
}
