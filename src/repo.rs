//! The generic repository of one model type: the statements of its
//! operations and the reading of their outcomes.
use vstd::prelude::*;
use std::marker::PhantomData;
use crate::error::DBError;
use crate::id::{key_of, Id, RecordKey, RecordRef};
use crate::query::{insert_replace_text, QueryKind};
use crate::stmt::{Bind, BindView, TxStmt};
use crate::text::{contains_seq, contains_text, is_valid_identifier, valid_identifier};

verus! {

/// The point lookup by a non-key field, with the field name in the text.
pub open spec fn select_by_field_text(field: Seq<char>) -> Seq<char> {
    "RETURN (SELECT id FROM ONLY $table WHERE "@ + field + " = $v LIMIT 1).id;"@
}

/// Every name in `keys` passes the identifier filter.
pub open spec fn all_identifiers(keys: Seq<Seq<char>>) -> bool {
    forall|i: int| 0 <= i < keys.len() ==> valid_identifier(#[trigger] keys[i])
}

/// A model that carries its composite identifier.
pub trait HasId {
    /// The record's composite identifier.
    fn id(&self) -> RecordRef;
}

/// A model that carries its key as a string.
pub trait HasStringId {
    /// The record's key.
    fn id_str(&self) -> &str;
}

/// A model type bound to one table.
pub trait ModelMeta {
    /// The model's table; fixed for the life of the process.
    fn table_name() -> String;
}

/// What a patch does with its operation list.
#[derive(Debug, Clone, Copy, PartialEq, Eq)]
pub enum PatchPlan {
    /// No operation: read the record back unchanged.
    ReadBack,
    /// Apply the operations in order.
    Apply,
}

/// The repository of the model type `T`, stored in one table.
pub struct Repo<T> {
    table: String,
    marker: PhantomData<T>,
}

impl<T> Repo<T> {
    /// The table of the model.
    pub closed spec fn table_view(&self) -> Seq<char> {
        self.table@
    }

    /// The repository of a model stored in `table`.
    pub fn new(table: &str) -> (r: Self)
        ensures
            r.table_view() == table@,
    {
        Repo { table: table.to_owned(), marker: PhantomData }
    }

    /// The table of the model.
    pub fn table_name(&self) -> (r: &str)
        ensures
            r@ == self.table_view(),
    {
        self.table.as_str()
    }

    fn table_bind(&self) -> (r: (String, Bind))
        ensures
            r.0@ == "table"@,
            r.1.view() == BindView::Table(self.table_view()),
    {
        (String::from_str("table"), Bind::Table(self.table.clone()))
    }

    /// A statement on the model's table alone.
    fn on_table(&self, sql: String) -> (r: TxStmt)
        ensures
            r.sql_view() == sql@,
            r.binding_seq().len() == 1,
            r.binds("table"@, BindView::Table(self.table_view())),
    {
        let r = TxStmt::with_bindings(sql, vec![self.table_bind()]);
        assert(r.binding_seq()[0].0@ == "table"@);
        r
    }

    /// A statement on the model's table and a `$count`.
    fn on_table_count(&self, sql: String, count: i64) -> (r: TxStmt)
        ensures
            r.sql_view() == sql@,
            r.binding_seq().len() == 2,
            r.binds("table"@, BindView::Table(self.table_view())),
            r.binds("count"@, BindView::Int(count)),
    {
        let r = TxStmt::with_bindings(
            sql,
            vec![self.table_bind(), (String::from_str("count"), Bind::Int(count))],
        );
        assert(r.binding_seq()[0].0@ == "table"@);
        assert(r.binding_seq()[1].0@ == "count"@);
        r
    }

    /// A statement on one record, bound as `$record`.
    fn on_record(sql: String, record: RecordRef) -> (r: TxStmt)
        ensures
            r.sql_view() == sql@,
            r.binding_seq().len() == 1,
            r.binds("record"@, BindView::Record(record)),
    {
        let r = TxStmt::with_bindings(sql, vec![(String::from_str("record"), Bind::Record(record))]);
        assert(r.binding_seq()[0].0@ == "record"@);
        r
    }

    /// Create one record and answer its key; the caller binds the content as
    /// `$data`.
    pub fn create_return_id_stmt(&self) -> (r: TxStmt)
        ensures
            r.sql_view() == "RETURN (CREATE ONLY $table CONTENT $data).id;"@,
            r.binding_seq().len() == 1,
            r.binds("table"@, BindView::Table(self.table_view())),
    {
        self.on_table(QueryKind::create_return_id(self.table.as_str()))
    }

    /// At most `count` records of the table.
    pub fn select_limit_stmt(&self, count: i64) -> (r: TxStmt)
        ensures
            r.sql_view() == "SELECT * FROM $table LIMIT $count;"@,
            r.binding_seq().len() == 2,
            r.binds("table"@, BindView::Table(self.table_view())),
            r.binds("count"@, BindView::Int(count)),
    {
        self.on_table_count(QueryKind::limit(self.table.as_str(), count), count)
    }

    /// One chunk of a bulk insert that ignores duplicate keys; the caller binds
    /// the chunk's rows as `$data`.
    pub fn insert_jump_stmt(&self) -> (r: TxStmt)
        ensures
            r.sql_view() == "INSERT IGNORE INTO $table $data;"@,
            r.binding_seq().len() == 1,
            r.binds("table"@, BindView::Table(self.table_view())),
    {
        self.on_table(QueryKind::insert(self.table.as_str()))
    }

    /// One chunk of a bulk insert that updates the columns `keys` of rows whose
    /// key exists; the caller binds the rows as `$data`. The column names go
    /// into the text, so each must pass the identifier filter.
    pub fn insert_replace_stmt(&self, keys: Vec<String>) -> (r: Result<TxStmt, DBError>)
        ensures
            all_identifiers(keys@.map_values(|k: String| k@)) <==> r is Ok,
            r matches Ok(s) ==> s.sql_view() == insert_replace_text(
                keys@.map_values(|k: String| k@),
            ) && s.binding_seq().len() == 1 && s.binds("table"@, BindView::Table(self.table_view())),
            r matches Err(e) ==> e matches DBError::InvalidIdentifier(name) && exists|i: int|
                0 <= i < keys@.len() && #[trigger] keys@[i]@ == name@ && !valid_identifier(name@),
    {
        let mut i: usize = 0;
        while i < keys.len()
            invariant
                i <= keys@.len(),
                forall|j: int| 0 <= j < i ==> valid_identifier(#[trigger] keys@[j]@),
            decreases keys@.len() - i,
        {
            if !is_valid_identifier(keys[i].as_str()) {
                let name = keys[i].clone();
                proof {
                    let kv = keys@.map_values(|k: String| k@);
                    assert(!valid_identifier(kv[i as int]));
                }
                return Err(DBError::InvalidIdentifier(name));
            }
            i = i + 1;
        }
        proof {
            let kv = keys@.map_values(|k: String| k@);
            assert forall|j: int| 0 <= j < kv.len() implies valid_identifier(#[trigger] kv[j]) by {
                assert(valid_identifier(keys@[j]@));
            }
        }
        let sql = QueryKind::insert_replace(self.table.as_str(), keys);
        Ok(self.on_table(sql))
    }

    /// Delete one record.
    pub fn delete_record_stmt(record: RecordRef) -> (r: TxStmt)
        ensures
            r.sql_view() == "DELETE $record RETURN NONE;"@,
            r.binding_seq().len() == 1,
            r.binds("record"@, BindView::Record(record)),
    {
        Self::on_record(QueryKind::delete_record(), record)
    }

    /// Delete the record of this table with key `id`.
    pub fn delete_by_key_stmt(&self, id: Id) -> (r: TxStmt)
        ensures
            r.sql_view() == "DELETE $record RETURN NONE;"@,
            r.binding_seq().len() == 1,
            exists|t: String|
                t@ == self.table_view() && #[trigger] r.binds(
                    "record"@,
                    BindView::Record(RecordRef { table: t, key: key_of(id) }),
                ),
    {
        let record = id.into_record(self.table.clone());
        Self::delete_record_stmt(record)
    }

    /// Delete every record of the table.
    pub fn clean_stmt(&self) -> (r: TxStmt)
        ensures
            r.sql_view() == "DELETE $table RETURN NONE;"@,
            r.binding_seq().len() == 1,
            r.binds("table"@, BindView::Table(self.table_view())),
    {
        self.on_table(QueryKind::delete_table())
    }

    /// The outcome of deleting every record: a statement error that says the
    /// table does not exist counts as success; any other is returned.
    pub fn clean_outcome(check: Result<(), String>) -> (r: Result<(), DBError>)
        ensures
            match check {
                Ok(()) => r is Ok,
                Err(m) => if contains_seq(m@, "does not exist"@) {
                    r is Ok
                } else {
                    r == Err::<(), DBError>(DBError::QueryResponse(m))
                },
            },
    {
        match check {
            Ok(()) => Ok(()),
            Err(message) => {
                if contains_text(message.as_str(), "does not exist") {
                    Ok(())
                } else {
                    Err(DBError::QueryResponse(message))
                }
            },
        }
    }

    /// The key of the first record whose field `field` equals `value`. The
    /// field name is placed in the text, since the language has no bound form
    /// for it there; a name that fails the identifier filter is refused.
    pub fn select_record_id_stmt(&self, field: &str, value: &str) -> (r: Result<TxStmt, DBError>)
        ensures
            valid_identifier(field@) <==> r is Ok,
            r matches Ok(s) ==> s.sql_view() == select_by_field_text(field@) && s.binding_seq().len()
                == 2 && s.binds("table"@, BindView::Table(self.table_view())) && s.binds(
                "v"@,
                BindView::Text(value@),
            ),
            r matches Err(e) ==> e matches DBError::InvalidIdentifier(name) && name@ == field@,
    {
        if !is_valid_identifier(field) {
            return Err(DBError::InvalidIdentifier(field.to_owned()));
        }
        let mut sql = String::from_str("RETURN (SELECT id FROM ONLY $table WHERE ");
        sql.append(field);
        sql.append(" = $v LIMIT 1).id;");
        let r = TxStmt::with_bindings(
            sql,
            vec![self.table_bind(), (String::from_str("v"), Bind::Text(value.to_owned()))],
        );
        assert(r.binding_seq()[0].0@ == "table"@);
        assert(r.binding_seq()[1].0@ == "v"@);
        Ok(r)
    }

    /// Every key of the table.
    pub fn all_record_stmt(&self) -> (r: TxStmt)
        ensures
            r.sql_view() == "RETURN (SELECT id FROM $table).id;"@,
            r.binding_seq().len() == 1,
            r.binds("table"@, BindView::Table(self.table_view())),
    {
        self.on_table(QueryKind::all_id(self.table.as_str()))
    }

    /// The record of this table with key `id`, its key given bare.
    pub fn select_by_id_stmt(&self, id: Id) -> (r: TxStmt)
        ensures
            r.sql_view() == "RETURN (SELECT *, record::id(id) AS id FROM ONLY $record);"@,
            r.binding_seq().len() == 1,
            exists|t: String|
                t@ == self.table_view() && #[trigger] r.binds(
                    "record"@,
                    BindView::Record(RecordRef { table: t, key: key_of(id) }),
                ),
    {
        let record = id.into_record(self.table.clone());
        Self::on_record(QueryKind::select_by_id(), record)
    }

    /// Every record of the table, keys given bare.
    pub fn select_all_id_stmt(&self) -> (r: TxStmt)
        ensures
            r.sql_view() == "SELECT *, record::id(id) AS id FROM $table;"@,
            r.binding_seq().len() == 1,
            r.binds("table"@, BindView::Table(self.table_view())),
    {
        self.on_table(QueryKind::select_all_id())
    }

    /// At most `count` records of the table, keys given bare.
    pub fn select_limit_id_stmt(&self, count: i64) -> (r: TxStmt)
        ensures
            r.sql_view() == "SELECT *, record::id(id) AS id FROM $table LIMIT $count;"@,
            r.binding_seq().len() == 2,
            r.binds("table"@, BindView::Table(self.table_view())),
            r.binds("count"@, BindView::Int(count)),
    {
        self.on_table_count(QueryKind::select_limit_id(), count)
    }

    /// Replace or create the record of this table with key `id`; the caller
    /// binds the content as `$data`.
    pub fn upsert_stmt(&self, id: Id) -> (r: TxStmt)
        ensures
            r.sql_view() == "UPSERT $record CONTENT $data;"@,
            r.binding_seq().len() == 1,
            exists|t: String|
                t@ == self.table_view() && #[trigger] r.binds(
                    "record"@,
                    BindView::Record(RecordRef { table: t, key: key_of(id) }),
                ),
    {
        let record = id.into_record(self.table.clone());
        Self::on_record(String::from_str("UPSERT $record CONTENT $data;"), record)
    }

    /// The record of this table with string key `id`, its key given as the
    /// bare string.
    pub fn select_by_string_id_stmt(&self, id: &str) -> (r: TxStmt)
        ensures
            r.sql_view() == "RETURN (SELECT *, type::string(record::id(id)) AS id FROM ONLY $record);"@,
            r.binding_seq().len() == 1,
            r.binds_string_record("record"@, self.table_view(), id@),
    {
        let record = RecordRef { table: self.table.clone(), key: RecordKey::String(id.to_owned()) };
        let r = Self::on_record(QueryKind::select_by_string_id(), record);
        assert(r.binding_seq()[0].0@ == "record"@);
        r
    }

    /// Every record of the table, keys given as bare strings.
    pub fn select_all_string_id_stmt(&self) -> (r: TxStmt)
        ensures
            r.sql_view() == "SELECT *, type::string(record::id(id)) AS id FROM $table;"@,
            r.binding_seq().len() == 1,
            r.binds("table"@, BindView::Table(self.table_view())),
    {
        self.on_table(QueryKind::select_all_string_id())
    }

    /// At most `count` records of the table, keys given as bare strings.
    pub fn select_limit_string_id_stmt(&self, count: i64) -> (r: TxStmt)
        ensures
            r.sql_view() == "SELECT *, type::string(record::id(id)) AS id FROM $table LIMIT $count;"@,
            r.binding_seq().len() == 2,
            r.binds("table"@, BindView::Table(self.table_view())),
            r.binds("count"@, BindView::Int(count)),
    {
        self.on_table_count(QueryKind::select_limit_string_id(), count)
    }

    /// The outcome of a write that should answer the written record: nothing
    /// answered is an empty result of operation `op`.
    pub fn created(answer: Option<T>, op: &'static str) -> (r: Result<T, DBError>)
        ensures
            match answer {
                Some(t) => r == Ok::<T, DBError>(t),
                None => r == Err::<T, DBError>(DBError::EmptyResult(op)),
            },
    {
        match answer {
            Some(t) => Ok(t),
            None => Err(DBError::EmptyResult(op)),
        }
    }

    /// The outcome of a point lookup: nothing answered is "not found".
    pub fn found(answer: Option<T>) -> (r: Result<T, DBError>)
        ensures
            match answer {
                Some(t) => r == Ok::<T, DBError>(t),
                None => r == Err::<T, DBError>(DBError::NotFound),
            },
    {
        match answer {
            Some(t) => Ok(t),
            None => Err(DBError::NotFound),
        }
    }

    /// The first of the answered rows, or "not found" when there is none.
    pub fn first_found(mut rows: Vec<T>) -> (r: Result<T, DBError>)
        ensures
            rows@.len() == 0 ==> r == Err::<T, DBError>(DBError::NotFound),
            rows@.len() > 0 ==> r == Ok::<T, DBError>(rows@[0]),
    {
        if rows.len() == 0 {
            Err(DBError::NotFound)
        } else {
            Ok(rows.remove(0))
        }
    }

    /// How a patch with `n_ops` operations runs: with none it only reads the
    /// record back.
    pub fn patch_plan(n_ops: usize) -> (r: PatchPlan)
        ensures
            n_ops == 0 <==> r == PatchPlan::ReadBack,
    {
        if n_ops == 0 {
            PatchPlan::ReadBack
        } else {
            PatchPlan::Apply
        }
    }
}

} // verus!
