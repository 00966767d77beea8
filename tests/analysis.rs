use ensemble_model::emit::{impl_table_name, CreateError, DefaultInit, Fragment};
use ensemble_model::field::{DefaultRule, FieldAttrs, FieldError, RawField};
use ensemble_model::fields::KeyError;
use ensemble_model::model::{analyze, ModelError, ModelImpl, Opts, Shape, StructDecl};
use ensemble_model::naming::table_name;

fn field(ident: &str, ty: &str, primary_key: bool, increments: bool, default: Option<&str>) -> RawField {
    RawField {
        ident: ident.to_string(),
        ty: ty.to_string(),
        attrs: FieldAttrs { primary_key, increments, default: default.map(|d| d.to_string()) },
    }
}

fn plain(ident: &str, ty: &str) -> RawField {
    field(ident, ty, false, false, None)
}

fn decl(name: &str, fields: Vec<RawField>) -> StructDecl {
    StructDecl { name: name.to_string(), shape: Shape::NamedStruct, fields }
}

fn analyze_ok(d: &StructDecl) -> ModelImpl {
    analyze(d, Opts::default()).expect("analysis succeeds")
}

fn create_of(m: &ModelImpl) -> ensemble_model::emit::CreateFragment {
    match &m.methods[5] {
        Fragment::Create(c) => c.clone(),
        other => panic!("expected create, got {:?}", other),
    }
}

#[test]
fn marked_field_is_primary_key() {
    let d = decl("Post", vec![plain("title", "String"), field("slug", "String", true, false, None), plain("id", "u64")]);
    let m = analyze_ok(&d);
    assert_eq!(m.primary_key, 1);
    assert!(matches!(m.methods[2], Fragment::Find(1)));
    assert!(matches!(m.methods[8], Fragment::PrimaryKey(1)));
}

#[test]
fn id_field_is_fallback_key() {
    let d = decl("User", vec![plain("name", "String"), plain("id", "u64"), plain("email", "String")]);
    let m = analyze_ok(&d);
    assert_eq!(m.primary_key, 1);
}

#[test]
fn missing_primary_key_fails() {
    let d = decl("User", vec![plain("name", "String"), plain("identifier", "u64")]);
    let r = analyze(&d, Opts::default());
    assert_eq!(r.unwrap_err(), ModelError::Key(KeyError::Missing));
}

#[test]
fn two_markers_are_ambiguous() {
    let d = decl("User", vec![field("a", "u64", true, false, None), plain("id", "u64"), field("b", "u64", true, false, None)]);
    let r = analyze(&d, Opts::default());
    assert_eq!(r.unwrap_err(), ModelError::Key(KeyError::Ambiguous));
}

#[test]
fn shape_errors() {
    let mut d = decl("User", vec![plain("id", "u64")]);
    d.shape = Shape::Enum;
    assert_eq!(analyze(&d, Opts::default()).unwrap_err(), ModelError::NotStruct);
    d.shape = Shape::Union;
    assert_eq!(analyze(&d, Opts::default()).unwrap_err(), ModelError::NotStruct);
    d.shape = Shape::TupleStruct;
    assert_eq!(analyze(&d, Opts::default()).unwrap_err(), ModelError::UnnamedFields);
    d.shape = Shape::UnitStruct;
    assert_eq!(analyze(&d, Opts::default()).unwrap_err(), ModelError::UnnamedFields);
}

#[test]
fn conflicting_default_names_first_bad_field() {
    let d = decl(
        "User",
        vec![plain("id", "u64"), field("a", "u64", false, true, Some("3")), field("b", "u64", false, true, Some("4"))],
    );
    let r = analyze(&d, Opts::default());
    assert_eq!(r.unwrap_err(), ModelError::Field(FieldError::ConflictingDefault("a".to_string())));
}

#[test]
fn table_name_user() {
    assert_eq!(table_name("User", None), "users");
}

#[test]
fn table_name_category() {
    assert_eq!(table_name("Category", None), "categories");
}

#[test]
fn table_name_override() {
    assert_eq!(table_name("Order", Some("customer_orders".to_string())), "customer_orders");
}

#[test]
fn table_name_snake_cases_before_pluralizing() {
    assert_eq!(table_name("UserProfile", None), "user_profiles");
    match impl_table_name("BlogPost", None) {
        Fragment::TableName(t) => assert_eq!(t, "blog_posts"),
        other => panic!("expected table name, got {:?}", other),
    }
}

#[test]
fn analysis_carries_table_name() {
    let d = decl("Order", vec![plain("id", "u64")]);
    let m = analyze(&d, Opts { table_name: Some("customer_orders".to_string()) }).unwrap();
    assert!(matches!(&m.methods[7], Fragment::TableName(t) if t == "customer_orders"));
    let m = analyze_ok(&decl("Category", vec![plain("id", "u64")]));
    assert!(matches!(&m.methods[7], Fragment::TableName(t) if t == "categories"));
}

#[test]
fn keys_keep_declaration_order() {
    let d = decl("User", vec![plain("id", "u64"), plain("name", "String"), plain("age", "u32")]);
    let m = analyze_ok(&d);
    match &m.methods[1] {
        Fragment::Keys(k) => assert_eq!(k, &vec!["id".to_string(), "name".to_string(), "age".to_string()]),
        other => panic!("expected keys, got {:?}", other),
    }
}

#[test]
fn methods_in_emission_order() {
    let m = analyze_ok(&decl("User", vec![plain("id", "u64")]));
    assert_eq!(m.methods.len(), 9);
    assert!(matches!(m.methods[0], Fragment::All));
    assert!(matches!(m.methods[3], Fragment::Save));
    assert!(matches!(m.methods[4], Fragment::Fresh));
    assert!(matches!(m.methods[6], Fragment::Delete));
}

#[test]
fn create_requires_non_defaulted_integer() {
    let d = decl(
        "User",
        vec![field("id", "u64", true, true, None), plain("age", "u32"), field("role", "String", false, false, Some("String::from(\"member\")"))],
    );
    let m = analyze_ok(&d);
    let c = create_of(&m);
    assert_eq!(c.required, vec![1]);
    // `age` left at 0, its type's default
    assert_eq!(c.check(&m.fields, &vec![true, true, true]), Err(CreateError::Required("age".to_string())));
    // `age` set to a non-zero value
    assert_eq!(c.check(&m.fields, &vec![true, false, true]), Ok(()));
}

#[test]
fn create_reports_first_required_field() {
    let d = decl("User", vec![plain("id", "u64"), plain("name", "String"), plain("age", "u32")]);
    let m = analyze_ok(&d);
    let c = create_of(&m);
    assert_eq!(c.required, vec![0, 1, 2]);
    assert_eq!(c.check(&m.fields, &vec![false, true, true]), Err(CreateError::Required("name".to_string())));
    assert_eq!(c.check(&m.fields, &vec![false, false, false]), Ok(()));
}

#[test]
fn increments_key_takes_inserted_value() {
    let d = decl("User", vec![field("id", "u64", true, true, None), plain("age", "u32")]);
    let m = analyze_ok(&d);
    let c = create_of(&m);
    assert_eq!(c.increments, Some(0));
    assert_eq!(c.finish(vec![0u64, 30], 17), vec![17u64, 30]);
}

#[test]
fn plain_key_is_unchanged_by_insert() {
    let d = decl("User", vec![field("id", "u64", true, false, None), plain("age", "u32")]);
    let m = analyze_ok(&d);
    let c = create_of(&m);
    assert_eq!(c.increments, None);
    assert_eq!(c.finish(vec![5u64, 30], 17), vec![5u64, 30]);
}

#[test]
fn defaults_use_explicit_expression() {
    let d = decl(
        "User",
        vec![field("id", "u64", false, true, None), field("role", "String", false, false, Some("\"member\".into()")), plain("age", "u32")],
    );
    let m = analyze_ok(&d);
    assert_eq!(m.defaults.len(), 3);
    assert!(matches!(m.defaults[0], DefaultInit::TypeDefault));
    assert!(matches!(&m.defaults[1], DefaultInit::Expr(e) if e == "\"member\".into()"));
    assert!(matches!(m.defaults[2], DefaultInit::TypeDefault));
    assert!(matches!(m.fields.fields[0].rule, DefaultRule::Increments));
}

#[test]
fn analysis_is_deterministic() {
    let d = decl(
        "Category",
        vec![field("id", "u64", true, true, None), plain("name", "String"), field("rank", "u8", false, false, Some("1"))],
    );
    let a = analyze_ok(&d);
    let b = analyze_ok(&d.clone());
    assert_eq!(format!("{:?}", a), format!("{:?}", b));
}

#[test]
fn override_needs_no_derivation() {
    assert_eq!(table_name("Éé", Some("entrées".to_string())), "entrées");
    let d = decl("Éé", vec![plain("id", "u64")]);
    let m = analyze(&d, Opts { table_name: Some("entrées".to_string()) }).unwrap();
    assert!(matches!(&m.methods[7], Fragment::TableName(t) if t == "entrées"));
}
