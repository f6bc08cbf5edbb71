//! Statement templates. Every value that comes from a caller (keys, table
//! names used as values, field values, counters, cursors) is a named bound
//! parameter; the templates hold only placeholders.
use vstd::prelude::*;
use crate::id::RecordRef;

verus! {

/// The direction of an ordering.
#[derive(Debug, Clone, Copy, PartialEq, Eq)]
pub enum Order {
    Asc,
    Desc,
}

impl Order {
    /// The keyword of the order.
    pub fn as_str(&self) -> (r: &'static str)
        ensures
            *self == Order::Asc ==> r@ == "ASC"@,
            *self == Order::Desc ==> r@ == "DESC"@,
    {
        match self {
            Order::Asc => "ASC",
            Order::Desc => "DESC",
        }
    }
}

/// The cursor-pagination statement for a cursor (present or not) and an order.
pub open spec fn pagin_text(has_cursor: bool, order: Order) -> Seq<char> {
    if has_cursor {
        match order {
            Order::Asc => "SELECT * FROM $table WHERE [$order_key] > $cursor ORDER BY [$order_key] ASC LIMIT $count;"@,
            Order::Desc => "SELECT * FROM $table WHERE [$order_key] < $cursor ORDER BY [$order_key] DESC LIMIT $count;"@,
        }
    } else {
        match order {
            Order::Asc => "SELECT * FROM $table ORDER BY [$order_key] ASC LIMIT $count;"@,
            Order::Desc => "SELECT * FROM $table ORDER BY [$order_key] DESC LIMIT $count;"@,
        }
    }
}

/// The cursor-pagination statement over the edges that leave one record.
pub open spec fn rel_pagin_text(has_cursor: bool, order: Order) -> Seq<char> {
    if has_cursor {
        match order {
            Order::Asc => "SELECT * FROM $table WHERE [$order_key] > $cursor AND in = $in ORDER BY [$order_key] ASC LIMIT $count;"@,
            Order::Desc => "SELECT * FROM $table WHERE [$order_key] < $cursor AND in = $in ORDER BY [$order_key] DESC LIMIT $count;"@,
        }
    } else {
        match order {
            Order::Asc => "SELECT * FROM $table WHERE in = $in ORDER BY [$order_key] ASC LIMIT $count;"@,
            Order::Desc => "SELECT * FROM $table WHERE in = $in ORDER BY [$order_key] DESC LIMIT $count;"@,
        }
    }
}

/// `key=$input.key`: take the field from the row being inserted.
pub open spec fn update_assignment(key: Seq<char>) -> Seq<char> {
    key + "=$input."@ + key
}

/// The comma-separated assignments for a list of column names.
pub open spec fn update_list(keys: Seq<Seq<char>>) -> Seq<char>
    decreases keys.len(),
{
    if keys.len() == 0 {
        Seq::empty()
    } else if keys.len() == 1 {
        update_assignment(keys[0])
    } else {
        update_list(keys.drop_last()) + ","@ + update_assignment(keys.last())
    }
}

/// The bulk insert that updates the given columns of rows whose key exists.
pub open spec fn insert_replace_text(keys: Seq<Seq<char>>) -> Seq<char> {
    "INSERT INTO $table $data ON DUPLICATE KEY UPDATE "@ + update_list(keys) + ";"@
}

/// Namespace of the statement templates.
pub struct QueryKind;

impl QueryKind {
    /// Records of `$table` whose integer keys run from `$start` to `$end`.
    pub fn range(_table: &str, _start: i64, _end: i64) -> (r: String)
        ensures
            r@ == "SELECT * FROM type::record($table, $start)..=type::record($table, $end);"@,
    {
        String::from_str("SELECT * FROM type::record($table, $start)..=type::record($table, $end);")
    }

    /// Replace the content of record `$id` by `$data`.
    pub fn replace() -> (r: String)
        ensures
            r@ == "UPDATE $id REPLACE $data;"@,
    {
        String::from_str("UPDATE $id REPLACE $data;")
    }

    /// One page of `$table` ordered by `$order_key`, after `$cursor` if given,
    /// of at most `$count` records.
    pub fn pagin(_table: &str, _count: i64, cursor: Option<String>, order: Order, _order_key: &str) -> (r: String)
        ensures
            r@ == pagin_text(cursor is Some, order),
    {
        match (cursor.is_some(), order) {
            (true, Order::Asc) => String::from_str(
                "SELECT * FROM $table WHERE [$order_key] > $cursor ORDER BY [$order_key] ASC LIMIT $count;",
            ),
            (true, Order::Desc) => String::from_str(
                "SELECT * FROM $table WHERE [$order_key] < $cursor ORDER BY [$order_key] DESC LIMIT $count;",
            ),
            (false, Order::Asc) => String::from_str(
                "SELECT * FROM $table ORDER BY [$order_key] ASC LIMIT $count;",
            ),
            (false, Order::Desc) => String::from_str(
                "SELECT * FROM $table ORDER BY [$order_key] DESC LIMIT $count;",
            ),
        }
    }

    /// One page of the edges in `$table` that leave `$in`.
    pub fn rel_pagin(
        _in_id: &RecordRef,
        _table: &str,
        _count: i64,
        cursor: Option<String>,
        order: Order,
        _order_key: &str,
    ) -> (r: String)
        ensures
            r@ == rel_pagin_text(cursor is Some, order),
    {
        match (cursor.is_some(), order) {
            (true, Order::Asc) => String::from_str(
                "SELECT * FROM $table WHERE [$order_key] > $cursor AND in = $in ORDER BY [$order_key] ASC LIMIT $count;",
            ),
            (true, Order::Desc) => String::from_str(
                "SELECT * FROM $table WHERE [$order_key] < $cursor AND in = $in ORDER BY [$order_key] DESC LIMIT $count;",
            ),
            (false, Order::Asc) => String::from_str(
                "SELECT * FROM $table WHERE in = $in ORDER BY [$order_key] ASC LIMIT $count;",
            ),
            (false, Order::Desc) => String::from_str(
                "SELECT * FROM $table WHERE in = $in ORDER BY [$order_key] DESC LIMIT $count;",
            ),
        }
    }

    /// All of `$table` ordered by `$key`.
    pub fn all_by_order(_table: &str, order: Order, _key: &str) -> (r: String)
        ensures
            order == Order::Asc ==> r@ == "SELECT * FROM $table ORDER BY [$key] ASC;"@,
            order == Order::Desc ==> r@ == "SELECT * FROM $table ORDER BY [$key] DESC;"@,
    {
        match order {
            Order::Asc => String::from_str("SELECT * FROM $table ORDER BY [$key] ASC;"),
            Order::Desc => String::from_str("SELECT * FROM $table ORDER BY [$key] DESC;"),
        }
    }

    /// At most `$count` records of `$table`.
    pub fn limit(_table: &str, _count: i64) -> (r: String)
        ensures
            r@ == "SELECT * FROM $table LIMIT $count;"@,
    {
        String::from_str("SELECT * FROM $table LIMIT $count;")
    }

    /// Insert the rows `$data` into `$table`, ignoring rows whose key exists.
    pub fn insert(_table: &str) -> (r: String)
        ensures
            r@ == "INSERT IGNORE INTO $table $data;"@,
    {
        String::from_str("INSERT IGNORE INTO $table $data;")
    }

    /// Insert the rows `$data` into `$table`; for a row whose key exists,
    /// update the listed columns from it. The column names are placed in the
    /// text, so they must be field names of the model itself.
    pub fn insert_replace(_table: &str, keys: Vec<String>) -> (r: String)
        ensures
            r@ == insert_replace_text(keys@.map_values(|k: String| k@)),
    {
        let ghost kv = keys@.map_values(|k: String| k@);
        let mut sql = String::from_str("INSERT INTO $table $data ON DUPLICATE KEY UPDATE ");
        let mut idx: usize = 0;
        while idx < keys.len()
            invariant
                idx <= keys@.len(),
                kv == keys@.map_values(|k: String| k@),
                sql@ == "INSERT INTO $table $data ON DUPLICATE KEY UPDATE "@ + update_list(
                    kv.subrange(0, idx as int),
                ),
            decreases keys@.len() - idx,
        {
            let ghost before = sql@;
            if idx > 0 {
                sql.append(",");
            }
            sql.append(keys[idx].as_str());
            sql.append("=$input.");
            sql.append(keys[idx].as_str());
            proof {
                let pre = kv.subrange(0, idx as int);
                let post = kv.subrange(0, idx + 1);
                assert(post.drop_last() =~= pre);
                assert(post.last() == keys@[idx as int]@);
                if idx == 0 {
                    assert(update_list(pre) =~= Seq::<char>::empty());
                    assert(sql@ =~= "INSERT INTO $table $data ON DUPLICATE KEY UPDATE "@ + update_list(post));
                } else {
                    assert(sql@ =~= "INSERT INTO $table $data ON DUPLICATE KEY UPDATE "@ + update_list(post));
                }
            }
            idx = idx + 1;
        }
        sql.append(";");
        assert(kv.subrange(0, keys@.len() as int) =~= kv);
        sql
    }

    /// Set field `$key` of record `$id` to `$value`.
    pub fn upsert_set(_id: &str, _key: &str, _value: &str) -> (r: String)
        ensures
            r@ == "UPDATE $id SET [$key] = $value;"@,
    {
        String::from_str("UPDATE $id SET [$key] = $value;")
    }

    /// The key of the first record of `$table` whose field `$k` is `$v`.
    pub fn select_id_single(_table: &str) -> (r: String)
        ensures
            r@ == "RETURN (SELECT id FROM ONLY $table WHERE [$k] = $v LIMIT 1).id;"@,
    {
        String::from_str("RETURN (SELECT id FROM ONLY $table WHERE [$k] = $v LIMIT 1).id;")
    }

    /// Every key of `$table`.
    pub fn all_id(_table: &str) -> (r: String)
        ensures
            r@ == "RETURN (SELECT id FROM $table).id;"@,
    {
        String::from_str("RETURN (SELECT id FROM $table).id;")
    }

    /// The values of field `$k` across `$table`.
    pub fn single_field(_table: &str, _k: &str) -> (r: String)
        ensures
            r@ == "RETURN (SELECT VALUE [$k] FROM $table);"@,
    {
        String::from_str("RETURN (SELECT VALUE [$k] FROM $table);")
    }

    /// The values of field `$k` of the records `$ids`.
    pub fn single_field_by_ids(_ids: &Vec<RecordRef>, _k: &str) -> (r: String)
        ensures
            r@ == "RETURN (SELECT VALUE [$k] FROM $ids);"@,
    {
        String::from_str("RETURN (SELECT VALUE [$k] FROM $ids);")
    }

    /// One edge from `$in` to `$out` in relation table `$rel`, stamped now.
    pub fn relate(_self_id: &RecordRef, _target_id: &RecordRef, _rel: &str) -> (r: String)
        ensures
            r@ == "INSERT RELATION INTO $rel [{ in: $in, out: $out, created_at: time::now() }] RETURN NONE;"@,
    {
        String::from_str(
            "INSERT RELATION INTO $rel [{ in: $in, out: $out, created_at: time::now() }] RETURN NONE;",
        )
    }

    /// Remove the edges from `$in` to `$out` in `$rel`.
    pub fn unrelate(_self_id: &RecordRef, _target_id: &RecordRef, _rel: &str) -> (r: String)
        ensures
            r@ == "DELETE $rel WHERE in = $in AND out = $out RETURN NONE;"@,
    {
        String::from_str("DELETE $rel WHERE in = $in AND out = $out RETURN NONE;")
    }

    /// Remove every edge of `$rel` that leaves `$in`.
    pub fn unrelate_all(_self_id: &RecordRef, _rel: &str) -> (r: String)
        ensures
            r@ == "DELETE $rel WHERE in = $in RETURN NONE;"@,
    {
        String::from_str("DELETE $rel WHERE in = $in RETURN NONE;")
    }

    /// The targets in table `$out_table` of the edges of `$rel` that leave `$in`.
    pub fn rel_outs(_in_id: &RecordRef, _rel: &str, _out_table: &str) -> (r: String)
        ensures
            r@ == "RETURN (SELECT VALUE out FROM $rel WHERE in = $in AND record::tb(out) = $out_table);"@,
    {
        String::from_str(
            "RETURN (SELECT VALUE out FROM $rel WHERE in = $in AND record::tb(out) = $out_table);",
        )
    }

    /// The sources in table `$in_table` of the edges of `$rel` that reach `$out`.
    pub fn rel_ins(_out_id: &RecordRef, _rel: &str, _in_table: &str) -> (r: String)
        ensures
            r@ == "RETURN (SELECT VALUE in FROM $rel WHERE out = $out AND record::tb(in) = $in_table);"@,
    {
        String::from_str(
            "RETURN (SELECT VALUE in FROM $rel WHERE out = $out AND record::tb(in) = $in_table);",
        )
    }

    /// The key of the edge of `$rel` from `$in` to `$out`.
    pub fn rel_id(_self_id: &RecordRef, _rel: &str, _target_id: &RecordRef) -> (r: String)
        ensures
            r@ == "RETURN (SELECT * FROM ONLY $rel WHERE in = $in AND out = $out LIMIT 1).id;"@,
    {
        String::from_str("RETURN (SELECT * FROM ONLY $rel WHERE in = $in AND out = $out LIMIT 1).id;")
    }

    /// Create one record of `$table` from `$data` and answer only its key.
    pub fn create_return_id(_table: &str) -> (r: String)
        ensures
            r@ == "RETURN (CREATE ONLY $table CONTENT $data).id;"@,
    {
        String::from_str("RETURN (CREATE ONLY $table CONTENT $data).id;")
    }

    /// Delete the record `$record`.
    pub fn delete_record() -> (r: String)
        ensures
            r@ == "DELETE $record RETURN NONE;"@,
    {
        String::from_str("DELETE $record RETURN NONE;")
    }

    /// Delete every record of `$table`.
    pub fn delete_table() -> (r: String)
        ensures
            r@ == "DELETE $table RETURN NONE;"@,
    {
        String::from_str("DELETE $table RETURN NONE;")
    }

    /// The record `$record`, its key given as the bare string.
    pub fn select_by_string_id() -> (r: String)
        ensures
            r@ == "RETURN (SELECT *, type::string(record::id(id)) AS id FROM ONLY $record);"@,
    {
        String::from_str("RETURN (SELECT *, type::string(record::id(id)) AS id FROM ONLY $record);")
    }

    /// Every record of `$table`, keys given as bare strings.
    pub fn select_all_string_id() -> (r: String)
        ensures
            r@ == "SELECT *, type::string(record::id(id)) AS id FROM $table;"@,
    {
        String::from_str("SELECT *, type::string(record::id(id)) AS id FROM $table;")
    }

    /// At most `$count` records of `$table`, keys given as bare strings.
    pub fn select_limit_string_id() -> (r: String)
        ensures
            r@ == "SELECT *, type::string(record::id(id)) AS id FROM $table LIMIT $count;"@,
    {
        String::from_str("SELECT *, type::string(record::id(id)) AS id FROM $table LIMIT $count;")
    }

    /// The record `$record`, its key given as the bare string or integer.
    pub fn select_by_id() -> (r: String)
        ensures
            r@ == "RETURN (SELECT *, record::id(id) AS id FROM ONLY $record);"@,
    {
        String::from_str("RETURN (SELECT *, record::id(id) AS id FROM ONLY $record);")
    }

    /// Every record of `$table`, keys given as bare strings or integers.
    pub fn select_all_id() -> (r: String)
        ensures
            r@ == "SELECT *, record::id(id) AS id FROM $table;"@,
    {
        String::from_str("SELECT *, record::id(id) AS id FROM $table;")
    }

    /// At most `$count` records of `$table`, keys given as bare strings or integers.
    pub fn select_limit_id() -> (r: String)
        ensures
            r@ == "SELECT *, record::id(id) AS id FROM $table LIMIT $count;"@,
    {
        String::from_str("SELECT *, record::id(id) AS id FROM $table LIMIT $count;")
    }
}

} // verus!
