//! The dynamically typed document that a model serializes to, and the
//! reading and reshaping of it before a write: finding its key, listing its
//! fields, and dropping null fields.
use vstd::prelude::*;
use vstd::string::StrSliceExecFns;
use crate::error::DBError;
use crate::id::Id;

verus! {

broadcast use vstd::std_specs::vec::axiom_vec_index_decreases;

/// A serialized model: the values of the store's document format.
#[derive(Debug)]
pub enum Doc {
    Null,
    Bool(bool),
    /// An integer within the signed 64-bit range.
    Int(i64),
    /// An integer above the signed 64-bit range.
    UInt(u64),
    /// A number with a fraction or exponent, in its decimal text form.
    Float(String),
    Str(String),
    Array(Vec<Doc>),
    /// Fields in order, each name at most once.
    Object(Vec<(String, Doc)>),
}

/// What a document denotes, with texts taken by their characters.
pub enum DocView {
    Null,
    Bool(bool),
    Int(i64),
    UInt(u64),
    Float(Seq<char>),
    Str(Seq<char>),
    Array(Seq<DocView>),
    Object(Seq<(Seq<char>, DocView)>),
}

impl Doc {
    pub open spec fn view(&self) -> DocView
        decreases self,
    {
        match self {
            Doc::Null => DocView::Null,
            Doc::Bool(b) => DocView::Bool(*b),
            Doc::Int(n) => DocView::Int(*n),
            Doc::UInt(n) => DocView::UInt(*n),
            Doc::Float(t) => DocView::Float(t@),
            Doc::Str(s) => DocView::Str(s@),
            Doc::Array(items) => DocView::Array(view_items(items@)),
            Doc::Object(fields) => DocView::Object(view_fields(fields@)),
        }
    }
}

/// The views of a list of documents.
pub open spec fn view_items(items: Seq<Doc>) -> Seq<DocView>
    decreases items,
{
    if items.len() == 0 {
        Seq::empty()
    } else {
        view_items(items.subrange(0, items.len() - 1)).push(items[items.len() - 1].view())
    }
}

/// The views of a list of fields.
pub open spec fn view_fields(fields: Seq<(String, Doc)>) -> Seq<(Seq<char>, DocView)>
    decreases fields,
{
    if fields.len() == 0 {
        Seq::empty()
    } else {
        view_fields(fields.subrange(0, fields.len() - 1)).push(
            (fields[fields.len() - 1].0@, fields[fields.len() - 1].1.view()),
        )
    }
}

/// `d` with every null-valued field removed, in every object at any depth
/// (inside arrays too); array elements are kept as they are, nulls included.
pub open spec fn stripped(d: DocView) -> DocView
    decreases d,
{
    match d {
        DocView::Array(items) => DocView::Array(stripped_items(items)),
        DocView::Object(fields) => DocView::Object(stripped_fields(fields)),
        _ => d,
    }
}

/// Each element stripped.
pub open spec fn stripped_items(items: Seq<DocView>) -> Seq<DocView>
    decreases items,
{
    if items.len() == 0 {
        Seq::empty()
    } else {
        stripped_items(items.subrange(0, items.len() - 1)).push(stripped(items[items.len() - 1]))
    }
}

/// The non-null fields, each value stripped.
pub open spec fn stripped_fields(fields: Seq<(Seq<char>, DocView)>) -> Seq<(Seq<char>, DocView)>
    decreases fields,
{
    if fields.len() == 0 {
        Seq::empty()
    } else {
        let rest = stripped_fields(fields.subrange(0, fields.len() - 1));
        let last = fields[fields.len() - 1];
        if last.1 is Null {
            rest
        } else {
            rest.push((last.0, stripped(last.1)))
        }
    }
}

/// A copy of `d` without null-valued fields, so that an absent field and an
/// explicit null are written alike.
pub fn strip_null_fields(d: &Doc) -> (r: Doc)
    ensures
        r.view() == stripped(d.view()),
    decreases d,
{
    match d {
        Doc::Array(items) => {
            let mut out: Vec<Doc> = Vec::new();
            let mut i: usize = 0;
            while i < items.len()
                invariant
                    *d == Doc::Array(*items),
                    i <= items@.len(),
                    view_items(out@) == stripped_items(view_items(items@.subrange(0, i as int))),
                decreases items@.len() - i,
            {
                proof {
                    assert(d->Array_0 == *items);
                    assert(decreases_to!(*d => d->Array_0));
                    assert(decreases_to!(*items => items[i as int]));
                }
                let x = strip_null_fields(&items[i]);
                let ghost before = out@;
                out.push(x);
                proof {
                    let p = items@.subrange(0, i + 1);
                    assert(p.subrange(0, i as int) =~= items@.subrange(0, i as int));
                    assert(out@.subrange(0, before.len() as int) =~= before);
                    assert(view_items(p).subrange(0, i as int) =~= view_items(p.subrange(0, i as int)).subrange(0, i as int)) by {
                        lemma_view_items_len(p.subrange(0, i as int));
                    }
                    lemma_view_items_len(p);
                    assert(view_items(p).subrange(0, view_items(p).len() - 1) =~= view_items(items@.subrange(0, i as int)));
                }
                i = i + 1;
            }
            assert(items@.subrange(0, items@.len() as int) =~= items@);
            Doc::Array(out)
        },
        Doc::Object(fields) => {
            let mut out: Vec<(String, Doc)> = Vec::new();
            let mut i: usize = 0;
            while i < fields.len()
                invariant
                    *d == Doc::Object(*fields),
                    i <= fields@.len(),
                    view_fields(out@) == stripped_fields(view_fields(fields@.subrange(0, i as int))),
                decreases fields@.len() - i,
            {
                let ghost before = out@;
                let ghost pre = fields@.subrange(0, i as int);
                let ghost p = fields@.subrange(0, i + 1);
                let ghost entry = (fields@[i as int].0@, fields@[i as int].1.view());
                proof {
                    assert(p.subrange(0, i as int) =~= pre);
                    assert(view_fields(p) == view_fields(pre).push(entry));
                    let vp = view_fields(p);
                    assert(vp.subrange(0, vp.len() - 1) =~= view_fields(pre));
                }
                match &fields[i].1 {
                    Doc::Null => {},
                    value => {
                        proof {
                            assert(d->Object_0 == *fields);
                            assert(decreases_to!(*d => d->Object_0));
                            assert(decreases_to!(*fields => fields[i as int]));
                            assert(decreases_to!(fields[i as int] => fields[i as int].1));
                        }
                        let v = strip_null_fields(value);
                        out.push((fields[i].0.clone(), v));
                        proof {
                            assert(out@.subrange(0, before.len() as int) =~= before);
                            assert(view_fields(out@) == view_fields(before).push((entry.0, stripped(entry.1))));
                        }
                    },
                }
                i = i + 1;
            }
            assert(fields@.subrange(0, fields@.len() as int) =~= fields@);
            Doc::Object(out)
        },
        Doc::Null => Doc::Null,
        Doc::Bool(b) => Doc::Bool(*b),
        Doc::Int(n) => Doc::Int(*n),
        Doc::UInt(n) => Doc::UInt(*n),
        Doc::Float(t) => Doc::Float(t.clone()),
        Doc::Str(s) => Doc::Str(s.clone()),
    }
}

proof fn lemma_view_items_len(items: Seq<Doc>)
    ensures
        view_items(items).len() == items.len(),
    decreases items.len(),
{
    if items.len() > 0 {
        lemma_view_items_len(items.subrange(0, items.len() - 1));
    }
}

proof fn lemma_view_fields_len(fields: Seq<(String, Doc)>)
    ensures
        view_fields(fields).len() == fields.len(),
    decreases fields.len(),
{
    if fields.len() > 0 {
        lemma_view_fields_len(fields.subrange(0, fields.len() - 1));
    }
}

proof fn lemma_view_fields_prefix(fields: Seq<(String, Doc)>, k: int)
    requires
        0 <= k <= fields.len(),
    ensures
        view_fields(fields.subrange(0, k)) == view_fields(fields).subrange(0, k),
        view_fields(fields).len() == fields.len(),
    decreases fields.len(),
{
    lemma_view_fields_len(fields);
    lemma_view_fields_len(fields.subrange(0, k));
    if k < fields.len() {
        let d = fields.subrange(0, fields.len() - 1);
        assert(d.subrange(0, k) =~= fields.subrange(0, k));
        lemma_view_fields_prefix(d, k);
        assert(view_fields(fields).subrange(0, k) =~= view_fields(d).subrange(0, k));
    } else {
        assert(fields.subrange(0, k) =~= fields);
        assert(view_fields(fields).subrange(0, k) =~= view_fields(fields));
    }
}

proof fn lemma_view_fields_index(fields: Seq<(String, Doc)>, i: int)
    requires
        0 <= i < fields.len(),
    ensures
        view_fields(fields)[i] == (fields[i].0@, fields[i].1.view()),
{
    lemma_view_fields_prefix(fields, i + 1);
    let p = fields.subrange(0, i + 1);
    assert(p.subrange(0, i) =~= fields.subrange(0, i));
    assert(p[i] == fields[i]);
    assert(view_fields(p) == view_fields(p.subrange(0, i)).push((p[i].0@, p[i].1.view())));
    assert(view_fields(fields)[i] == view_fields(fields).subrange(0, i + 1)[i]);
}

/// The value of the first field named `name`.
pub open spec fn field_of(fields: Seq<(Seq<char>, DocView)>, name: Seq<char>) -> Option<DocView>
    decreases fields.len(),
{
    if fields.len() == 0 {
        None
    } else {
        let earlier = field_of(fields.drop_last(), name);
        if earlier is Some {
            earlier
        } else if fields.last().0 == name {
            Some(fields.last().1)
        } else {
            None
        }
    }
}

proof fn lemma_field_of_extends(fields: Seq<(Seq<char>, DocView)>, k: int, name: Seq<char>)
    requires
        0 <= k <= fields.len(),
        field_of(fields.subrange(0, k), name) is Some,
    ensures
        field_of(fields, name) == field_of(fields.subrange(0, k), name),
    decreases fields.len(),
{
    if k < fields.len() {
        assert(fields.drop_last().subrange(0, k) =~= fields.subrange(0, k));
        lemma_field_of_extends(fields.drop_last(), k, name);
    } else {
        assert(fields.subrange(0, k) =~= fields);
    }
}

/// How the key of a serialized model reads.
pub enum KeyRead {
    /// A non-empty string key.
    Text(Seq<char>),
    /// An integer key within the signed 64-bit range.
    Number(i64),
    /// The model is not an object.
    NotObject,
    /// There is no `id` field.
    Missing,
    /// The `id` is a number outside the signed 64-bit range.
    OutOfRange,
    /// The `id` is of another kind, or an empty string.
    BadType,
}

/// How the key of the serialized model `d` reads.
pub open spec fn key_read(d: DocView) -> KeyRead {
    match d {
        DocView::Object(fields) => match field_of(fields, "id"@) {
            None => KeyRead::Missing,
            Some(DocView::Str(s)) => if s.len() > 0 {
                KeyRead::Text(s)
            } else {
                KeyRead::BadType
            },
            Some(DocView::Int(n)) => KeyRead::Number(n),
            Some(DocView::UInt(_)) => KeyRead::OutOfRange,
            Some(DocView::Float(_)) => KeyRead::OutOfRange,
            Some(_) => KeyRead::BadType,
        },
        _ => KeyRead::NotObject,
    }
}

/// A message about model `model`.
pub open spec fn model_message(model: Seq<char>, tail: Seq<char>) -> Seq<char> {
    "model `"@ + model + tail
}

/// Builds a message about model `model`.
fn invalid_model(model: &str, tail: &str) -> (r: DBError)
    ensures
        r matches DBError::InvalidModel(m) && m@ == model_message(model@, tail@),
{
    let mut m = String::from_str("model `");
    m.append(model);
    m.append(tail);
    DBError::InvalidModel(m)
}

/// Why a serialized model has no usable key.
#[derive(Debug, Clone, Copy, PartialEq, Eq)]
pub enum KeyFault {
    NotObject,
    Missing,
    OutOfRange,
    BadType,
}

/// The outcome that `read_key` gives for a reading.
pub open spec fn key_outcome(k: KeyRead, r: Result<Id, KeyFault>) -> bool {
    match k {
        KeyRead::Text(t) => r matches Ok(Id::String(s)) && s@ == t,
        KeyRead::Number(n) => r == Ok::<Id, KeyFault>(Id::Number(n)),
        KeyRead::NotObject => r == Err::<Id, KeyFault>(KeyFault::NotObject),
        KeyRead::Missing => r == Err::<Id, KeyFault>(KeyFault::Missing),
        KeyRead::OutOfRange => r == Err::<Id, KeyFault>(KeyFault::OutOfRange),
        KeyRead::BadType => r == Err::<Id, KeyFault>(KeyFault::BadType),
    }
}

/// The key of the serialized model `d`, or why it has none.
pub fn read_key(d: &Doc) -> (r: Result<Id, KeyFault>)
    ensures
        key_outcome(key_read(d.view()), r),
{
    match d {
        Doc::Object(fields) => {
            let key = String::from_str("id");
            let n = fields.len();
            let mut i: usize = 0;
            while i < n
                invariant
                    *d == Doc::Object(*fields),
                    n == fields@.len(),
                    i <= n,
                    key@ == "id"@,
                    field_of(view_fields(fields@.subrange(0, i as int)), "id"@) is None,
                decreases n - i,
            {
                proof {
                    lemma_view_fields_prefix(fields@, i as int);
                    lemma_view_fields_prefix(fields@, i + 1);
                    lemma_view_fields_index(fields@, i as int);
                    let vf = view_fields(fields@);
                    assert(vf.subrange(0, i + 1).drop_last() =~= vf.subrange(0, i as int));
                }
                if fields[i].0 == key {
                    proof {
                        lemma_view_fields_prefix(fields@, i + 1);
                        lemma_field_of_extends(view_fields(fields@), i + 1, "id"@);
                        assert(field_of(view_fields(fields@), "id"@) == Some(fields@[i as int].1.view()));
                        assert(d.view() == DocView::Object(view_fields(fields@)));
                    }
                    return match &fields[i].1 {
                        Doc::Str(s) => {
                            if s.unicode_len() > 0 {
                                Ok(Id::String(s.clone()))
                            } else {
                                Err(KeyFault::BadType)
                            }
                        },
                        Doc::Int(v) => Ok(Id::Number(*v)),
                        Doc::UInt(_) => Err(KeyFault::OutOfRange),
                        Doc::Float(_) => Err(KeyFault::OutOfRange),
                        _ => Err(KeyFault::BadType),
                    };
                }
                i = i + 1;
            }
            proof {
                lemma_view_fields_prefix(fields@, n as int);
                assert(fields@.subrange(0, n as int) =~= fields@);
            }
            Err(KeyFault::Missing)
        },
        _ => Err(KeyFault::NotObject),
    }
}

/// The key of the serialized model `d` (named `model` in messages): its `id`
/// field, a non-empty string or an integer in the signed 64-bit range.
pub fn extract_record_id_key(d: &Doc, model: &str) -> (r: Result<Id, DBError>)
    ensures
        match key_read(d.view()) {
            KeyRead::Text(t) => r matches Ok(Id::String(s)) && s@ == t,
            KeyRead::Number(n) => r == Ok::<Id, DBError>(Id::Number(n)),
            KeyRead::NotObject => r matches Err(DBError::InvalidModel(m)) && m@ == model_message(
                model@,
                "` must serialize to an object"@,
            ),
            KeyRead::Missing => r matches Err(DBError::InvalidModel(m)) && m@ == model_message(
                model@,
                "` does not contain an `id` string or i64 field"@,
            ),
            KeyRead::OutOfRange => r matches Err(DBError::InvalidModel(m)) && m@ == model_message(
                model@,
                "` has `id` but numeric id is out of i64 range"@,
            ),
            KeyRead::BadType => r matches Err(DBError::InvalidModel(m)) && m@ == model_message(
                model@,
                "` has `id` but it is not a non-empty string or i64 number"@,
            ),
        },
{
    match read_key(d) {
        Ok(id) => Ok(id),
        Err(KeyFault::NotObject) => Err(invalid_model(model, "` must serialize to an object")),
        Err(KeyFault::Missing) => Err(invalid_model(model, "` does not contain an `id` string or i64 field")),
        Err(KeyFault::OutOfRange) => Err(invalid_model(model, "` has `id` but numeric id is out of i64 range")),
        Err(KeyFault::BadType) => Err(invalid_model(model, "` has `id` but it is not a non-empty string or i64 number")),
    }
}

/// How the key of a model with string keys reads: only a non-empty string
/// is accepted.
pub open spec fn string_key_read(d: DocView) -> KeyRead {
    match key_read(d) {
        KeyRead::Number(_) => KeyRead::BadType,
        KeyRead::OutOfRange => KeyRead::BadType,
        other => other,
    }
}

/// The key of the serialized model `d` of a model with string keys: its
/// `id` field, which must be a non-empty string.
pub fn extract_string_id(d: &Doc, model: &str) -> (r: Result<String, DBError>)
    ensures
        match string_key_read(d.view()) {
            KeyRead::Text(t) => r matches Ok(s) && s@ == t,
            KeyRead::NotObject => r matches Err(DBError::InvalidModel(m)) && m@ == model_message(
                model@,
                "` must serialize to an object"@,
            ),
            KeyRead::Missing => r matches Err(DBError::InvalidModel(m)) && m@ == model_message(
                model@,
                "` does not contain an `id` string field"@,
            ),
            _ => r matches Err(DBError::InvalidModel(m)) && m@ == model_message(
                model@,
                "` has `id` but it is not a non-empty string"@,
            ),
        },
{
    match read_key(d) {
        Ok(Id::String(s)) => Ok(s),
        Ok(Id::Number(_)) => Err(invalid_model(model, "` has `id` but it is not a non-empty string")),
        Err(KeyFault::NotObject) => Err(invalid_model(model, "` must serialize to an object")),
        Err(KeyFault::Missing) => Err(invalid_model(model, "` does not contain an `id` string field")),
        Err(_) => Err(invalid_model(model, "` has `id` but it is not a non-empty string")),
    }
}

/// The field names of the serialized model `d`, in order; none when it is not
/// an object.
pub open spec fn field_names(d: DocView) -> Seq<Seq<char>> {
    match d {
        DocView::Object(fields) => fields.map_values(|f: (Seq<char>, DocView)| f.0),
        _ => Seq::empty(),
    }
}

/// The field names of the serialized model `d`, in order.
pub fn struct_field_names(d: &Doc) -> (r: Vec<String>)
    ensures
        r@.map_values(|s: String| s@) == field_names(d.view()),
{
    match d {
        Doc::Object(fields) => {
            let mut out: Vec<String> = Vec::new();
            let mut i: usize = 0;
            proof {
                lemma_view_fields_len(fields@);
            }
            while i < fields.len()
                invariant
                    i <= fields@.len(),
                    view_fields(fields@).len() == fields@.len(),
                    out@.len() == i,
                    forall|j: int| 0 <= j < i ==> (#[trigger] out@[j])@ == view_fields(fields@)[j].0,
                decreases fields@.len() - i,
            {
                proof {
                    lemma_view_fields_index(fields@, i as int);
                }
                out.push(fields[i].0.clone());
                i = i + 1;
            }
            assert(out@.map_values(|s: String| s@) =~= field_names(d.view()));
            out
        },
        _ => {
            let out: Vec<String> = Vec::new();
            assert(out@.map_values(|s: String| s@) =~= field_names(d.view()));
            out
        },
    }
}

/// The fields without those named `name`.
pub open spec fn without_field(fields: Seq<(Seq<char>, DocView)>, name: Seq<char>) -> Seq<
    (Seq<char>, DocView),
>
    decreases fields.len(),
{
    if fields.len() == 0 {
        Seq::empty()
    } else {
        let rest = without_field(fields.drop_last(), name);
        if fields.last().0 == name {
            rest
        } else {
            rest.push(fields.last())
        }
    }
}

/// The content written by an upsert of the serialized model `d`: without its
/// `id` field (the key goes with the record reference) and without null
/// fields at any depth.
pub open spec fn upsert_body(d: DocView) -> DocView {
    match d {
        DocView::Object(fields) => DocView::Object(stripped_fields(without_field(fields, "id"@))),
        _ => stripped(d),
    }
}

/// The content written by an upsert of `d`.
pub fn upsert_content(d: &Doc) -> (r: Doc)
    ensures
        r.view() == upsert_body(d.view()),
{
    match d {
        Doc::Object(fields) => {
            let key = String::from_str("id");
            let mut out: Vec<(String, Doc)> = Vec::new();
            let mut i: usize = 0;
            while i < fields.len()
                invariant
                    i <= fields@.len(),
                    key@ == "id"@,
                    view_fields(out@) == stripped_fields(
                        without_field(view_fields(fields@.subrange(0, i as int)), "id"@),
                    ),
                decreases fields@.len() - i,
            {
                let ghost before = out@;
                let ghost pre = fields@.subrange(0, i as int);
                let ghost p = fields@.subrange(0, i + 1);
                let ghost entry = (fields@[i as int].0@, fields@[i as int].1.view());
                proof {
                    assert(p.subrange(0, i as int) =~= pre);
                    assert(view_fields(p) == view_fields(pre).push(entry));
                    assert(view_fields(p).drop_last() =~= view_fields(pre));
                    let w = without_field(view_fields(pre), "id"@);
                    if entry.0 != "id"@ {
                        assert(w.push(entry).subrange(0, w.len() as int) =~= w);
                    }
                }
                if !(fields[i].0 == key) {
                    match &fields[i].1 {
                        Doc::Null => {},
                        value => {
                            let v = strip_null_fields(value);
                            out.push((fields[i].0.clone(), v));
                            proof {
                                assert(out@.subrange(0, before.len() as int) =~= before);
                            }
                        },
                    }
                }
                i = i + 1;
            }
            assert(fields@.subrange(0, fields@.len() as int) =~= fields@);
            Doc::Object(out)
        },
        _ => strip_null_fields(d),
    }
}

/// What an upsert of the serialized model `d` (named `model` in messages)
/// writes: its key, and its content without the key and without nulls.
pub fn prepare_upsert(d: &Doc, model: &str) -> (r: Result<(Id, Doc), DBError>)
    ensures
        match key_read(d.view()) {
            KeyRead::Text(t) => r matches Ok((Id::String(s), c)) && s@ == t && c.view()
                == upsert_body(d.view()),
            KeyRead::Number(n) => r matches Ok((k, c)) && k == Id::Number(n) && c.view()
                == upsert_body(d.view()),
            _ => r matches Err(DBError::InvalidModel(_)),
        },
{
    let key = extract_record_id_key(d, model)?;
    Ok((key, upsert_content(d)))
}

} // verus!
