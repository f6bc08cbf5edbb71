//! Record identifiers: a string or an integer key, and their forms at the
//! store's boundary.
use vstd::prelude::*;
use crate::text::{decimal_text, i64_to_text};

verus! {

/// The key of a record: a non-empty string or a signed 64-bit integer.
#[derive(Debug, Clone, PartialEq, Eq, PartialOrd, Ord, Hash)]
pub enum Id {
    String(String),
    Number(i64),
}

/// A key as the store reports it inside a composite record reference. Keys
/// of other kinds (arrays, objects, generated ranges) carry their text form.
#[derive(Debug, Clone, PartialEq, Eq)]
pub enum RecordKey {
    String(String),
    Number(i64),
    Other(String),
}

/// The store's composite identifier: a table together with a key.
#[derive(Debug, Clone, PartialEq, Eq)]
pub struct RecordRef {
    pub table: String,
    pub key: RecordKey,
}

/// An identifier as it appears in a dynamically typed payload: a bare
/// string, a bare integer, or a composite record reference.
#[derive(Debug, Clone, PartialEq, Eq)]
pub enum IdWire {
    Text(String),
    Int(i64),
    Record(RecordRef),
}

/// The payload form of an identifier: a bare string or a bare integer, never
/// a nested object.
pub open spec fn wire_of(id: Id) -> IdWire {
    match id {
        Id::String(s) => IdWire::Text(s),
        Id::Number(n) => IdWire::Int(n),
    }
}

/// The identifier that a record key stands for, if its kind is supported.
pub open spec fn id_of_key(key: RecordKey) -> Option<Id> {
    match key {
        RecordKey::String(s) => Some(Id::String(s)),
        RecordKey::Number(n) => Some(Id::Number(n)),
        RecordKey::Other(_) => None,
    }
}

/// The identifier that a payload value decodes to, if any.
pub open spec fn id_of_wire(w: IdWire) -> Option<Id> {
    match w {
        IdWire::Text(s) => Some(Id::String(s)),
        IdWire::Int(n) => Some(Id::Number(n)),
        IdWire::Record(r) => id_of_key(r.key),
    }
}

/// The record key that an identifier becomes.
pub open spec fn key_of(id: Id) -> RecordKey {
    match id {
        Id::String(s) => RecordKey::String(s),
        Id::Number(n) => RecordKey::Number(n),
    }
}

/// The message for a record key of an unsupported kind.
pub open spec fn unsupported_key_message(key_text: Seq<char>) -> Seq<char> {
    "only string/number id is supported right now, got "@ + key_text
}

/// The message for a payload whose record reference has an unsupported key.
pub open spec fn wire_error_message(key_text: Seq<char>) -> Seq<char> {
    "failed to deserialize id from record id: "@ + unsupported_key_message(key_text)
}

/// Turns a record key into an identifier; a key of another kind than string
/// or integer is refused with a message that names it.
pub fn record_key_to_id(key: RecordKey) -> (r: Result<Id, String>)
    ensures
        match key {
            RecordKey::Other(t) => r matches Err(m) && m@ == unsupported_key_message(t@),
            _ => r == Ok::<Id, String>(id_of_key(key)->0),
        },
{
    match key {
        RecordKey::String(value) => Ok(Id::String(value)),
        RecordKey::Number(value) => Ok(Id::Number(value)),
        RecordKey::Other(text) => {
            let mut m = String::from_str("only string/number id is supported right now, got ");
            m.append(text.as_str());
            proof {
                reveal_strlit("only string/number id is supported right now, got ");
            }
            Err(m)
        },
    }
}

/// The text form of an identifier: the string itself, or the decimal number.
pub open spec fn id_text(id: Id) -> Seq<char> {
    match id {
        Id::String(s) => s@,
        Id::Number(n) => decimal_text(n as int),
    }
}

/// The text form of a record key; a key of another kind gives its own text.
pub open spec fn key_text(key: RecordKey) -> Seq<char> {
    match key {
        RecordKey::String(s) => s@,
        RecordKey::Number(n) => decimal_text(n as int),
        RecordKey::Other(t) => t@,
    }
}

/// The text form of a record key.
pub fn record_key_to_string(key: RecordKey) -> (r: String)
    ensures
        r@ == key_text(key),
{
    match key {
        RecordKey::String(value) => value,
        RecordKey::Number(value) => i64_to_text(value),
        RecordKey::Other(text) => text,
    }
}

/// Reads a payload value as the text of an identifier: a bare string as it
/// is, a record reference by the text of its key.
pub fn deserialize_string_or_record_id(w: IdWire) -> (r: Result<String, String>)
    ensures
        match w {
            IdWire::Text(s) => r == Ok::<String, String>(s),
            IdWire::Record(rr) => r matches Ok(t) && t@ == key_text(rr.key),
            IdWire::Int(_) => r matches Err(m) && m@ == "expected a string or a record id"@,
        },
{
    match w {
        IdWire::Text(value) => Ok(value),
        IdWire::Record(record) => Ok(record_key_to_string(record.key)),
        IdWire::Int(_) => Err(String::from_str("expected a string or a record id")),
    }
}

/// Reads a payload value as an identifier and answers its text form.
pub fn deserialize_id_or_record_id_as_string(w: IdWire) -> (r: Result<String, String>)
    ensures
        r is Ok <==> id_of_wire(w) is Some,
        r matches Ok(t) ==> t@ == id_text(id_of_wire(w)->0),
{
    match Id::from_wire(w) {
        Ok(id) => Ok(id.to_text()),
        Err(m) => Err(m),
    }
}

impl Id {
    /// The text form: the string itself, or the decimal number.
    pub fn to_text(&self) -> (r: String)
        ensures
            r@ == id_text(*self),
    {
        match self {
            Id::String(value) => value.clone(),
            Id::Number(value) => i64_to_text(*value),
        }
    }

    /// The text of a string identifier.
    pub fn as_string(&self) -> (r: Option<&str>)
        ensures
            match self {
                Id::String(s) => r matches Some(t) && t@ == s@,
                Id::Number(_) => r is None,
            },
    {
        match self {
            Id::String(value) => Some(value.as_str()),
            Id::Number(_) => None,
        }
    }

    /// The value of an integer identifier.
    pub fn as_number(&self) -> (r: Option<i64>)
        ensures
            match self {
                Id::String(_) => r is None,
                Id::Number(n) => r == Some(*n),
            },
    {
        match self {
            Id::String(_) => None,
            Id::Number(value) => Some(*value),
        }
    }

    /// The record key that this identifier becomes.
    pub fn into_record_id_key(self) -> (r: RecordKey)
        ensures
            r == key_of(self),
    {
        match self {
            Id::String(value) => RecordKey::String(value),
            Id::Number(value) => RecordKey::Number(value),
        }
    }

    /// The composite identifier of this key in `table`.
    pub fn into_record(self, table: String) -> (r: RecordRef)
        ensures
            r == (RecordRef { table, key: key_of(self) }),
    {
        RecordRef { table, key: self.into_record_id_key() }
    }

    /// The payload form of this identifier.
    pub fn into_wire(self) -> (r: IdWire)
        ensures
            r == wire_of(self),
    {
        match self {
            Id::String(value) => IdWire::Text(value),
            Id::Number(value) => IdWire::Int(value),
        }
    }

    /// Reads an identifier from a payload value: a bare string, a bare integer,
    /// or a record reference whose key is a string or an integer.
    pub fn from_wire(w: IdWire) -> (r: Result<Id, String>)
        ensures
            r is Ok <==> id_of_wire(w) is Some,
            r is Ok ==> r == Ok::<Id, String>(id_of_wire(w)->0),
            match w {
                IdWire::Record(rr) => match rr.key {
                    RecordKey::Other(t) => r matches Err(m) && m@ == wire_error_message(t@),
                    _ => true,
                },
                _ => true,
            },
    {
        match w {
            IdWire::Text(value) => Ok(Id::String(value)),
            IdWire::Int(value) => Ok(Id::Number(value)),
            IdWire::Record(record) => match record_key_to_id(record.key) {
                Ok(id) => Ok(id),
                Err(message) => {
                    let mut m = String::from_str("failed to deserialize id from record id: ");
                    m.append(message.as_str());
                    proof {
                        reveal_strlit("failed to deserialize id from record id: ");
                    }
                    Err(m)
                },
            },
        }
    }

    /// Whether a payload value is a valid identifier.
    pub fn is_value(w: &IdWire) -> (r: bool)
        ensures
            r == (id_of_wire(*w) is Some),
    {
        match w {
            IdWire::Text(_) => true,
            IdWire::Int(_) => true,
            IdWire::Record(record) => match &record.key {
                RecordKey::Other(_) => false,
                _ => true,
            },
        }
    }
}

impl From<String> for Id {
    fn from(value: String) -> (r: Id)
        ensures
            r == Id::String(value),
    {
        Id::String(value)
    }
}

impl vstd::std_specs::convert::FromSpecImpl<String> for Id {
    open spec fn obeys_from_spec() -> bool {
        true
    }

    open spec fn from_spec(v: String) -> Id {
        Id::String(v)
    }
}

impl From<i64> for Id {
    fn from(value: i64) -> (r: Id)
        ensures
            r == Id::Number(value),
    {
        Id::Number(value)
    }
}

impl vstd::std_specs::convert::FromSpecImpl<i64> for Id {
    open spec fn obeys_from_spec() -> bool {
        true
    }

    open spec fn from_spec(v: i64) -> Id {
        Id::Number(v)
    }
}

/// An identifier written to a payload and read back is the same identifier;
/// a record reference is read back exactly when its key is a string or an
/// integer, and then as that key.
pub proof fn lemma_id_round_trip(id: Id, record: RecordRef)
    ensures
        id_of_wire(wire_of(id)) == Some(id),
        id_of_key(key_of(id)) == Some(id),
        id_of_wire(IdWire::Record(record)) is Some <==> !(record.key is Other),
        record.key matches RecordKey::String(s) ==> id_of_wire(IdWire::Record(record)) == Some(
            Id::String(s),
        ),
        record.key matches RecordKey::Number(n) ==> id_of_wire(IdWire::Record(record)) == Some(
            Id::Number(n),
        ),
{
}

} // verus!
