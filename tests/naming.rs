use appdb::naming::{
    default_table_name, ensure_relation_name, register_relation, register_table, relation_name,
    RelationMeta, RelationRegistry, TableRegistry,
};
use appdb::text::{is_valid_identifier, to_snake_case};

struct AutoRelName;

impl RelationMeta for AutoRelName {
    fn relation_name() -> String {
        default_table_name("AutoRelName")
    }
}

struct ManualRelName;

impl RelationMeta for ManualRelName {
    fn relation_name() -> String {
        "manual_rel".to_owned()
    }
}

#[test]
fn table_name_is_snake_case() {
    assert_eq!(default_table_name("User"), "user");
    assert_eq!(default_table_name("UserProfile"), "user_profile");
    assert_eq!(default_table_name("crate::domain::DbUser"), "db_user");
}

#[test]
fn register_table_is_idempotent_for_model() {
    let mut registry = TableRegistry::new();
    let first = register_table(&mut registry, "ModelA", "alpha");
    let second = register_table(&mut registry, "ModelA", "beta");
    assert_eq!(first, "alpha");
    assert_eq!(second, "alpha");
}

#[test]
fn register_table_keeps_models_apart() {
    let mut registry = TableRegistry::new();
    assert_eq!(register_table(&mut registry, "ModelA", "alpha"), "alpha");
    assert_eq!(register_table(&mut registry, "ModelB", "beta"), "beta");
    assert_eq!(registry.lookup("ModelA"), Some("alpha".to_owned()));
    assert_eq!(registry.lookup("ModelC"), None);
}

#[test]
fn relation_name_accepts_valid_identifier() {
    assert!(ensure_relation_name("sign_in").is_ok());
    assert!(ensure_relation_name("_private_rel").is_ok());
}

#[test]
fn relation_name_accepts_arbitrary_name() {
    assert!(ensure_relation_name("9invalid").is_ok());
    assert!(ensure_relation_name("bad-name").is_ok());
    assert!(ensure_relation_name("").is_ok());
}

#[test]
fn relation_registration_works() {
    let mut registry = RelationRegistry::new();
    assert_eq!(register_relation(&mut registry, "follows"), "follows");
    assert!(registry.contains("follows"));
    assert!(!registry.contains("likes"));
}

#[test]
fn declare_relation_auto_name_works() {
    assert_eq!(AutoRelName::relation_name(), "auto_rel_name");
    assert_eq!(relation_name::<AutoRelName>(), "auto_rel_name");
}

#[test]
fn declare_relation_manual_name_works() {
    assert_eq!(ManualRelName::relation_name(), "manual_rel");
}

#[test]
fn mod_default_table_name_from_impl_crud_is_applied() {
    let mut registry = TableRegistry::new();
    let table = default_table_name("AutoTableModel");
    assert_eq!(
        register_table(&mut registry, "AutoTableModel", &table),
        "auto_table_model"
    );
}

#[test]
fn mod_custom_table_name_from_impl_crud_override_is_applied() {
    let mut registry = TableRegistry::new();
    assert_eq!(
        register_table(&mut registry, "CustomTableModel", "custom_users"),
        "custom_users"
    );
}

#[test]
fn snake_case_edge_cases() {
    assert_eq!(to_snake_case(""), "");
    assert_eq!(to_snake_case("HTTPServer"), "httpserver");
    assert_eq!(to_snake_case("Model2Name"), "model2_name");
    assert_eq!(to_snake_case("already_snake"), "already_snake");
    assert_eq!(default_table_name("a::b::"), "");
}

#[test]
fn identifier_filter() {
    assert!(is_valid_identifier("name"));
    assert!(is_valid_identifier("_private"));
    assert!(is_valid_identifier("field_2"));
    assert!(!is_valid_identifier(""));
    assert!(!is_valid_identifier("9lives"));
    assert!(!is_valid_identifier("a-b"));
    assert!(!is_valid_identifier("a;b"));
    assert!(!is_valid_identifier("é"));
}
