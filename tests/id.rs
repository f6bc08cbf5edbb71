use appdb::id::{
    deserialize_id_or_record_id_as_string, deserialize_string_or_record_id, record_key_to_id,
    Id, IdWire, RecordKey, RecordRef,
};
use appdb::text::i64_to_text;

fn record(key: RecordKey) -> IdWire {
    IdWire::Record(RecordRef {
        table: "user".to_owned(),
        key,
    })
}

#[test]
fn deserializes_string_id() {
    let id = deserialize_string_or_record_id(IdWire::Text("alice".to_owned())).expect("must deserialize");
    assert_eq!(id, "alice");
}

#[test]
fn id_deserializes_record_id() {
    let id = deserialize_string_or_record_id(record(RecordKey::String("alice".to_owned())))
        .expect("must deserialize record id");
    assert_eq!(id, "alice");
}

#[test]
fn serializes_string_id() {
    assert_eq!(
        Id::String("alice".to_owned()).into_wire(),
        IdWire::Text("alice".to_owned())
    );
}

#[test]
fn deserializes_id_string() {
    let id = deserialize_id_or_record_id_as_string(IdWire::Text("alice".to_owned()))
        .expect("must deserialize");
    assert_eq!(id, "alice");
}

#[test]
fn deserializes_number_id_into_string() {
    let id = deserialize_id_or_record_id_as_string(IdWire::Int(42)).expect("must deserialize");
    assert_eq!(id, "42");
}

#[test]
fn serializes_id_string() {
    assert_eq!(Id::from("alice".to_owned()).to_text(), "alice");
}

#[test]
fn id_accepts_plain_string() {
    let id = Id::from_wire(IdWire::Text("alice".to_owned())).expect("must deserialize");
    assert_eq!(id, Id::String("alice".to_owned()));
}

#[test]
fn id_accepts_plain_number() {
    let id = Id::from_wire(IdWire::Int(42)).expect("must deserialize");
    assert_eq!(id, Id::Number(42));
}

#[test]
fn id_accepts_record_id_string() {
    let id = Id::from_wire(record(RecordKey::String("alice".to_owned())))
        .expect("must deserialize record id");
    assert_eq!(id, Id::String("alice".to_owned()));
}

#[test]
fn id_accepts_record_id_number() {
    let id = Id::from_wire(record(RecordKey::Number(42))).expect("must deserialize record id");
    assert_eq!(id, Id::Number(42));
}

#[test]
fn id_serializes_string_as_string() {
    assert_eq!(Id::from("alice".to_owned()).into_wire(), IdWire::Text("alice".to_owned()));
}

#[test]
fn id_serializes_number_as_number() {
    assert_eq!(Id::from(42i64).into_wire(), IdWire::Int(42));
}

#[test]
fn id_rejects_record_with_other_key_kind() {
    let err = Id::from_wire(record(RecordKey::Other("[1, 2]".to_owned()))).unwrap_err();
    assert_eq!(
        err,
        "failed to deserialize id from record id: only string/number id is supported right now, got [1, 2]"
    );
    assert!(!Id::is_value(&record(RecordKey::Other("{}".to_owned()))));
    assert!(Id::is_value(&IdWire::Int(-1)));
    assert!(record_key_to_id(RecordKey::Other("x".to_owned())).is_err());
}

#[test]
fn id_round_trips_through_wire() {
    for id in [Id::String("alice".to_owned()), Id::Number(i64::MIN), Id::Number(0)] {
        assert_eq!(Id::from_wire(id.clone().into_wire()), Ok(id));
    }
}

#[test]
fn id_accessors_and_record() {
    let s = Id::String("bob".to_owned());
    assert_eq!(s.as_string(), Some("bob"));
    assert_eq!(s.as_number(), None);
    assert_eq!(Id::Number(5).as_number(), Some(5));
    assert_eq!(
        Id::Number(5).into_record("task".to_owned()),
        RecordRef {
            table: "task".to_owned(),
            key: RecordKey::Number(5)
        }
    );
}

#[test]
fn decimal_text_of_numbers() {
    assert_eq!(i64_to_text(0), "0");
    assert_eq!(i64_to_text(-7), "-7");
    assert_eq!(i64_to_text(1234567890), "1234567890");
    assert_eq!(i64_to_text(i64::MIN), "-9223372036854775808");
    assert_eq!(i64_to_text(i64::MAX), "9223372036854775807");
    assert_eq!(Id::Number(-42).to_text(), "-42");
}
