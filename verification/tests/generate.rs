use all_eq::decl::{
    analyze, Accessor, Decl, DeclData, FieldsDecl, GenError, Kind, NamedFieldDecl,
};
use all_eq::digits::{u64_to_dec, usize_to_dec};
use all_eq::synth::{comparison_expr, generate_impl};

fn named(fields: &[(&str, &str)]) -> DeclData {
    DeclData::Struct(FieldsDecl::Named(
        fields
            .iter()
            .map(|(n, t)| NamedFieldDecl { name: n.to_string(), ty: t.to_string() })
            .collect(),
    ))
}

fn unnamed(types: &[&str]) -> DeclData {
    DeclData::Struct(FieldsDecl::Unnamed(types.iter().map(|t| t.to_string()).collect()))
}

fn plain_decl(name: &str, data: DeclData) -> Decl {
    Decl {
        name: name.to_string(),
        impl_generics: String::new(),
        ty_generics: String::new(),
        where_clause: String::new(),
        data,
    }
}

#[test]
fn decimal_rendering() {
    assert_eq!(u64_to_dec(0), "0");
    assert_eq!(u64_to_dec(7), "7");
    assert_eq!(u64_to_dec(10), "10");
    assert_eq!(u64_to_dec(907), "907");
    assert_eq!(u64_to_dec(u64::MAX), "18446744073709551615");
    assert_eq!(usize_to_dec(0), "0");
    assert_eq!(usize_to_dec(12), "12");
}

#[test]
fn analyze_named_fields() {
    let data = named(&[("product_id", "String"), ("quantity", "i32")]);
    let info = analyze(&data).unwrap();
    assert_eq!(info.kind, Kind::NamedFields);
    assert_eq!(info.fields.len(), 2);
    assert!(matches!(&info.fields[0].accessor, Accessor::Named(n) if n == "product_id"));
    assert_eq!(info.fields[0].ty, "String");
    assert!(matches!(&info.fields[1].accessor, Accessor::Named(n) if n == "quantity"));
    assert_eq!(info.fields[1].ty, "i32");
}

#[test]
fn analyze_positional_fields() {
    let data = unnamed(&["String", "usize"]);
    let info = analyze(&data).unwrap();
    assert_eq!(info.kind, Kind::PositionalFields);
    assert_eq!(info.fields.len(), 2);
    assert!(matches!(info.fields[0].accessor, Accessor::Positional(0)));
    assert_eq!(info.fields[0].ty, "String");
    assert!(matches!(info.fields[1].accessor, Accessor::Positional(1)));
    assert_eq!(info.fields[1].ty, "usize");
}

#[test]
fn analyze_unit_struct() {
    let info = analyze(&DeclData::Struct(FieldsDecl::Unit)).unwrap();
    assert_eq!(info.kind, Kind::NoFields);
    assert!(info.fields.is_empty());
}

#[test]
fn analyze_rejects_enum() {
    assert_eq!(analyze(&DeclData::Enum).unwrap_err(), GenError::UnsupportedShape);
}

#[test]
fn analyze_rejects_union() {
    assert_eq!(analyze(&DeclData::Union).unwrap_err(), GenError::UnsupportedShape);
}

#[test]
fn expr_for_no_fields_is_true_literal() {
    let info = analyze(&DeclData::Struct(FieldsDecl::Unit)).unwrap();
    assert_eq!(comparison_expr(&info.fields), "true");
}

#[test]
fn expr_conjoins_in_declaration_order() {
    let data = named(&[("name", "String"), ("value", "u64"), ("flag", "bool")]);
    let info = analyze(&data).unwrap();
    assert_eq!(
        comparison_expr(&info.fields),
        "self.name == other.name && self.value == other.value && self.flag == other.flag"
    );
}

#[test]
fn generate_named_struct() {
    let d = plain_decl("Order", named(&[("product_id", "String"), ("quantity", "i32")]));
    let code = generate_impl(&d).unwrap();
    assert_eq!(
        code,
        "impl all_eq::AllEq for Order { fn all_eq(&self, other: &Order) -> bool { \
         self.product_id == other.product_id && self.quantity == other.quantity } }"
    );
}

#[test]
fn generate_tuple_struct_uses_positional_access() {
    let d = plain_decl("Pair", unnamed(&["String", "usize"]));
    let code = generate_impl(&d).unwrap();
    assert_eq!(
        code,
        "impl all_eq::AllEq for Pair { fn all_eq(&self, other: &Pair) -> bool { \
         self.0 == other.0 && self.1 == other.1 } }"
    );
}

#[test]
fn generate_unit_struct_body_is_true() {
    let d = plain_decl("Nothing", DeclData::Struct(FieldsDecl::Unit));
    let code = generate_impl(&d).unwrap();
    assert_eq!(
        code,
        "impl all_eq::AllEq for Nothing { fn all_eq(&self, other: &Nothing) -> bool { true } }"
    );
}

#[test]
fn generate_passes_generics_through_verbatim() {
    let d = Decl {
        name: "Wrap".to_string(),
        impl_generics: "<T: Clone>".to_string(),
        ty_generics: "<T>".to_string(),
        where_clause: "where T: PartialEq".to_string(),
        data: unnamed(&["T"]),
    };
    let code = generate_impl(&d).unwrap();
    assert_eq!(
        code,
        "impl<T: Clone> all_eq::AllEq for Wrap<T> where T: PartialEq \
         { fn all_eq(&self, other: &Wrap<T>) -> bool { self.0 == other.0 } }"
    );
}

#[test]
fn generate_fails_on_tagged_union() {
    let d = plain_decl("Category", DeclData::Enum);
    assert_eq!(generate_impl(&d).unwrap_err(), GenError::UnsupportedShape);
    let u = plain_decl("Raw", DeclData::Union);
    assert_eq!(generate_impl(&u).unwrap_err(), GenError::UnsupportedShape);
}
