use appdb::error::DBError;
use appdb::graph::GraphRepo;
use appdb::id::{Id, RecordKey, RecordRef};
use appdb::query::{Order, QueryKind};
use appdb::repo::{PatchPlan, Repo};
use appdb::stmt::{Bind, TxStmt};

fn record(table: &str, key: &str) -> RecordRef {
    RecordRef {
        table: table.to_owned(),
        key: RecordKey::String(key.to_owned()),
    }
}

fn bound<'a>(stmt: &'a TxStmt, name: &str) -> Option<&'a Bind> {
    stmt.bindings()
        .iter()
        .find(|(k, _)| k == name)
        .map(|(_, v)| v)
}

#[test]
fn pagin_uses_bind_placeholders() {
    let sql = QueryKind::pagin(
        "user",
        10,
        Some("abc'; DELETE user; --".to_owned()),
        Order::Asc,
        "id",
    );
    assert!(sql.contains("$cursor"));
    assert!(sql.contains("LIMIT $count"));
}

#[test]
fn pagin_without_cursor_and_descending() {
    assert_eq!(
        QueryKind::pagin("user", 5, None, Order::Desc, "created_at"),
        "SELECT * FROM $table ORDER BY [$order_key] DESC LIMIT $count;"
    );
    assert_eq!(
        QueryKind::pagin("user", 5, Some("x".to_owned()), Order::Desc, "created_at"),
        "SELECT * FROM $table WHERE [$order_key] < $cursor ORDER BY [$order_key] DESC LIMIT $count;"
    );
}

#[test]
fn relation_lookups_use_bind_placeholders() {
    let in_id = record("user", "u1");
    let sql = QueryKind::rel_outs(&in_id, "follows", "user");
    assert!(sql.contains("FROM $rel"));
    assert!(sql.contains("record::tb(out) = $out_table"));
}

#[test]
fn relate_uses_relation_insert() {
    let in_id = record("task", "t1");
    let out_id = record("member", "m1");
    let sql = QueryKind::relate(&in_id, &out_id, "task_assignment");
    assert!(sql.starts_with("INSERT RELATION INTO $rel"));
}

#[test]
fn insert_replace_lists_columns() {
    assert_eq!(
        QueryKind::insert_replace("user", vec!["name".to_owned(), "age".to_owned()]),
        "INSERT INTO $table $data ON DUPLICATE KEY UPDATE name=$input.name,age=$input.age;"
    );
    assert_eq!(
        QueryKind::insert_replace("user", vec![]),
        "INSERT INTO $table $data ON DUPLICATE KEY UPDATE ;"
    );
}

#[test]
fn relate_statement_binds_relation_as_table() {
    let stmt = GraphRepo::relate_by_id(record("user", "alice"), record("user", "bob"), "follows");
    assert_eq!(stmt.bindings().len(), 3);
    assert_eq!(bound(&stmt, "rel"), Some(&Bind::Table("follows".to_owned())));
    assert_eq!(bound(&stmt, "in"), Some(&Bind::Record(record("user", "alice"))));
    assert_eq!(bound(&stmt, "out"), Some(&Bind::Record(record("user", "bob"))));
}

#[test]
fn hostile_relation_name_stays_a_bound_value() {
    let rel = "bad-name; DELETE it_record_user RETURN NONE;";
    let stmt = GraphRepo::unrelate_all(record("it_record_user", "x"), rel);
    assert!(!stmt.sql().contains("DELETE it_record_user"));
    assert_eq!(bound(&stmt, "rel"), Some(&Bind::Table(rel.to_owned())));
}

#[test]
fn outs_statement_filters_by_target_table() {
    let stmt = GraphRepo::outs(record("user", "alice"), "follows", "user");
    assert_eq!(
        stmt.sql(),
        "RETURN (SELECT VALUE out FROM $rel WHERE in = $in AND record::tb(out) = $out_table);"
    );
    assert_eq!(bound(&stmt, "out_table"), Some(&Bind::Text("user".to_owned())));
}

#[test]
fn select_record_id_rejects_unsafe_field_names() {
    let repo: Repo<()> = Repo::new("user");
    for bad in ["name;", "na-me", "1name", "", "name; DELETE user"] {
        match repo.select_record_id_stmt(bad, "v") {
            Err(DBError::InvalidIdentifier(name)) => assert_eq!(name, bad),
            other => panic!("expected invalid identifier, got {:?}", other.is_ok()),
        }
    }
}

#[test]
fn select_record_id_accepts_identifier_names() {
    let repo: Repo<()> = Repo::new("user");
    for good in ["name", "_name", "Name_2"] {
        let stmt = repo.select_record_id_stmt(good, "alice").expect("valid name");
        assert_eq!(
            stmt.sql(),
            format!("RETURN (SELECT id FROM ONLY $table WHERE {good} = $v LIMIT 1).id;")
        );
        assert_eq!(bound(&stmt, "v"), Some(&Bind::Text("alice".to_owned())));
        assert_eq!(bound(&stmt, "table"), Some(&Bind::Table("user".to_owned())));
    }
}

#[test]
fn insert_replace_statement_checks_columns() {
    let repo: Repo<()> = Repo::new("task");
    let stmt = repo
        .insert_replace_stmt(vec!["id".to_owned(), "title".to_owned()])
        .expect("valid columns");
    assert_eq!(
        stmt.sql(),
        "INSERT INTO $table $data ON DUPLICATE KEY UPDATE id=$input.id,title=$input.title;"
    );
    assert_eq!(
        repo.insert_replace_stmt(vec!["id".to_owned(), "x-y".to_owned()]).err(),
        Some(DBError::InvalidIdentifier("x-y".to_owned()))
    );
}

#[test]
fn clean_tolerates_missing_table_only() {
    assert_eq!(Repo::<()>::clean_outcome(Ok(())), Ok(()));
    assert_eq!(
        Repo::<()>::clean_outcome(Err("The table 'user' does not exist".to_owned())),
        Ok(())
    );
    assert_eq!(
        Repo::<()>::clean_outcome(Err("permission denied".to_owned())),
        Err(DBError::QueryResponse("permission denied".to_owned()))
    );
}

#[test]
fn write_and_lookup_outcomes() {
    assert_eq!(Repo::<u8>::created(Some(3), "create"), Ok(3));
    assert_eq!(
        Repo::<u8>::created(None, "create"),
        Err(DBError::EmptyResult("create"))
    );
    assert_eq!(Repo::<u8>::found(None), Err(DBError::NotFound));
    assert_eq!(Repo::<u8>::first_found(vec![4, 5]), Ok(4));
    assert_eq!(Repo::<u8>::first_found(vec![]), Err(DBError::NotFound));
}

#[test]
fn empty_patch_only_reads_back() {
    assert_eq!(Repo::<()>::patch_plan(0), PatchPlan::ReadBack);
    assert_eq!(Repo::<()>::patch_plan(2), PatchPlan::Apply);
}

#[test]
fn delete_by_key_binds_the_record() {
    let repo: Repo<()> = Repo::new("task");
    let stmt = repo.delete_by_key_stmt(Id::Number(42));
    assert_eq!(stmt.sql(), "DELETE $record RETURN NONE;");
    assert_eq!(
        bound(&stmt, "record"),
        Some(&Bind::Record(RecordRef {
            table: "task".to_owned(),
            key: RecordKey::Number(42)
        }))
    );
}

#[test]
fn bind_replaces_and_appends() {
    let stmt = TxStmt::new("RETURN $v;")
        .bind("v", Bind::Int(1))
        .bind("w", Bind::Int(2))
        .bind("v", Bind::Int(3));
    assert_eq!(stmt.sql(), "RETURN $v;");
    assert_eq!(stmt.bindings().len(), 2);
    assert_eq!(stmt.bindings()[0], ("v".to_owned(), Bind::Int(3)));
    assert_eq!(stmt.bindings()[1], ("w".to_owned(), Bind::Int(2)));
}
