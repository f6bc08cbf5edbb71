use appdb::doc::{
    extract_record_id_key, extract_string_id, prepare_upsert, strip_null_fields,
    struct_field_names, upsert_content, Doc,
};
use appdb::error::DBError;
use appdb::id::Id;

fn obj(fields: Vec<(&str, Doc)>) -> Doc {
    Doc::Object(fields.into_iter().map(|(k, v)| (k.to_owned(), v)).collect())
}

fn text(s: &str) -> Doc {
    Doc::Str(s.to_owned())
}

fn message(err: DBError) -> String {
    match err {
        DBError::InvalidModel(m) => m,
        other => panic!("unexpected error {other:?}"),
    }
}

#[test]
fn extract_string_id_succeeds_for_valid_model() {
    let model = obj(vec![("id", text("u1"))]);
    assert_eq!(extract_string_id(&model, "GoodModel").expect("expected id"), "u1");
}

#[test]
fn extract_string_id_fails_when_id_missing() {
    let model = obj(vec![("name", text("alice"))]);
    let err = extract_string_id(&model, "MissingId").expect_err("expected missing id error");
    assert!(message(err).contains("does not contain an `id`"));
}

#[test]
fn extract_string_id_fails_when_id_not_string() {
    let model = obj(vec![("id", Doc::Int(123))]);
    let err = extract_string_id(&model, "BadIdType").expect_err("expected bad id type error");
    assert!(message(err).contains("not a non-empty string"));
}

#[test]
fn extract_string_id_fails_when_id_empty() {
    let model = obj(vec![("id", text(""))]);
    let err = extract_string_id(&model, "GoodModel").expect_err("expected empty id error");
    assert!(message(err).contains("not a non-empty string"));
}

#[test]
fn extract_id_succeeds_for_valid_model() {
    let model = obj(vec![("id", text("u1"))]);
    assert_eq!(
        extract_record_id_key(&model, "GoodModel").expect("expected id"),
        Id::String("u1".to_owned())
    );
}

#[test]
fn extract_number_id_succeeds_for_valid_model() {
    let model = obj(vec![("id", Doc::Int(42))]);
    assert_eq!(
        extract_record_id_key(&model, "NumberIdType").expect("expected id"),
        Id::Number(42)
    );
}

#[test]
fn extract_id_fails_when_id_missing() {
    let model = obj(vec![("name", text("alice"))]);
    let err = extract_record_id_key(&model, "MissingId").expect_err("expected missing id error");
    assert!(message(err).contains("does not contain an `id`"));
}

#[test]
fn extract_id_fails_when_id_not_string_or_number() {
    let model = obj(vec![("id", Doc::Bool(true))]);
    let err = extract_record_id_key(&model, "BadIdType").expect_err("expected bad id type error");
    assert!(message(err).contains("not a non-empty string or i64 number"));
}

#[test]
fn extract_id_fails_when_id_empty() {
    let model = obj(vec![("id", text(""))]);
    let err = extract_record_id_key(&model, "GoodModel").expect_err("expected empty id error");
    assert!(message(err).contains("not a non-empty string or i64 number"));
}

#[test]
fn extract_id_reports_exact_messages() {
    let err = extract_record_id_key(&Doc::Int(1), "Bare").unwrap_err();
    assert_eq!(message(err), "model `Bare` must serialize to an object");
    let big = obj(vec![("id", Doc::UInt(u64::MAX))]);
    let err = extract_record_id_key(&big, "Big").unwrap_err();
    assert_eq!(message(err), "model `Big` has `id` but numeric id is out of i64 range");
    let missing = obj(vec![]);
    assert_eq!(
        message(extract_record_id_key(&missing, "M").unwrap_err()),
        "model `M` does not contain an `id` string or i64 field"
    );
}

#[test]
fn field_names_follow_object_order() {
    let model = obj(vec![("id", text("a")), ("title", text("t")), ("priority", Doc::Int(1))]);
    assert_eq!(struct_field_names(&model), vec!["id", "title", "priority"]);
    assert!(struct_field_names(&Doc::Null).is_empty());
}

#[test]
fn strip_null_fields_recurses_into_objects_and_arrays() {
    let model = obj(vec![
        ("a", Doc::Null),
        ("b", Doc::Int(1)),
        (
            "c",
            obj(vec![("d", Doc::Null), ("e", Doc::Array(vec![Doc::Null, obj(vec![("f", Doc::Null)])]))]),
        ),
    ]);
    let stripped = strip_null_fields(&model);
    let expected = obj(vec![
        ("b", Doc::Int(1)),
        ("c", obj(vec![("e", Doc::Array(vec![Doc::Null, obj(vec![])]))])),
    ]);
    assert_eq!(format!("{stripped:?}"), format!("{expected:?}"));
}

#[test]
fn upsert_content_drops_id_and_nulls() {
    let model = obj(vec![
        ("id", text("alice")),
        ("owner_id", Doc::Null),
        ("name", text("Alice")),
    ]);
    let body = upsert_content(&model);
    assert_eq!(format!("{body:?}"), format!("{:?}", obj(vec![("name", text("Alice"))])));
    let (key, content) = prepare_upsert(&model, "Member").expect("has key");
    assert_eq!(key, Id::String("alice".to_owned()));
    assert_eq!(format!("{content:?}"), format!("{body:?}"));
    assert!(prepare_upsert(&obj(vec![("name", text("x"))]), "Member").is_err());
}
