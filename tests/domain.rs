use appdb::domain::{
    build_stats, clear_task_assignment_plan, normalize_status, set_many_task_status_plan,
    set_task_assignment_plan, Member, MetaKey, NewMemberInput, NewTaskInput, Rel, SignIn, Table,
    Task, TaskAssignment, TaskAssignmentSchema,
};
use appdb::naming::relation_name;
use appdb::repo::ModelMeta;
use appdb::schema::{is_schema_already_defined_error, SchemaDef, SchemaRegistry};
use appdb::id::{Id, RecordKey, RecordRef};
use appdb::query::Order;
use appdb::stmt::{Bind, TxStmt};

fn bound<'a>(stmt: &'a TxStmt, name: &str) -> Option<&'a Bind> {
    stmt.bindings()
        .iter()
        .find(|(k, _)| k == name)
        .map(|(_, v)| v)
}

fn task_record(id: &str) -> Bind {
    Bind::Record(RecordRef {
        table: "task".to_owned(),
        key: RecordKey::String(id.to_owned()),
    })
}

#[test]
fn status_is_normalized() {
    assert_eq!(normalize_status("  DOING "), Ok("doing"));
    assert_eq!(normalize_status("todo"), Ok("todo"));
    assert_eq!(normalize_status("Done\n"), Ok("done"));
    assert_eq!(
        normalize_status("later"),
        Err("invalid status `later`. expected one of: todo, doing, done".to_owned())
    );
}

#[test]
fn stats_count_by_status() {
    let members = vec![Member::new("mila", "Mila Chen", "Design")];
    let tasks = vec![
        Task::new(Id::from("a".to_owned()), "A", "", "todo", 1),
        Task::new(Id::from("b".to_owned()), "B", "", "doing", 2),
        Task::new(Id::from("c".to_owned()), "C", "", "doing", 3),
        Task::new(Id::from(4i64), "D", "", "blocked", 1),
    ];
    let stats = build_stats(&members, &tasks);
    assert_eq!(stats.total_members, 1);
    assert_eq!(stats.total_tasks, 4);
    assert_eq!(stats.todo_tasks, 1);
    assert_eq!(stats.doing_tasks, 2);
    assert_eq!(stats.done_tasks, 0);
}

#[test]
fn bulk_status_plan_skips_blank_and_repeated_ids() {
    let ids = vec![
        "a".to_owned(),
        " ".to_owned(),
        "b".to_owned(),
        "a".to_owned(),
    ];
    let plan = set_many_task_status_plan("task", &ids, "DONE", 99).expect("valid status");
    assert_eq!(plan.len(), 3);
    assert_eq!(bound(&plan[0], "task"), Some(&task_record("a")));
    assert_eq!(bound(&plan[1], "task"), Some(&task_record("b")));
    assert_eq!(bound(&plan[1], "status"), Some(&Bind::Text("done".to_owned())));
    assert_eq!(bound(&plan[1], "updated_at"), Some(&Bind::Int(99)));
    assert_eq!(plan[2].sql(), "RETURN $count;");
    assert_eq!(bound(&plan[2], "count"), Some(&Bind::Int(2)));
}

#[test]
fn bulk_status_plan_edge_cases() {
    assert_eq!(set_many_task_status_plan("task", &vec![], "nonsense", 1).map(|v| v.len()), Ok(0));
    assert!(set_many_task_status_plan("task", &vec!["a".to_owned()], "nonsense", 1).is_err());
    assert_eq!(
        set_many_task_status_plan("task", &vec!["  ".to_owned()], "todo", 1).map(|v| v.len()),
        Ok(0)
    );
}

#[test]
fn assignment_plans() {
    let plan = set_task_assignment_plan("task", "member", "task_assignment", "t1", "m1", 5);
    assert_eq!(plan.len(), 3);
    assert_eq!(bound(&plan[0], "owner_id"), Some(&Bind::Text("m1".to_owned())));
    assert_eq!(plan[1].sql(), "DELETE $rel WHERE in = $task RETURN NONE;");
    assert_eq!(bound(&plan[2], "rel"), Some(&Bind::Table("task_assignment".to_owned())));
    assert_eq!(
        bound(&plan[2], "member"),
        Some(&Bind::Record(RecordRef {
            table: "member".to_owned(),
            key: RecordKey::String("m1".to_owned())
        }))
    );
    let clear = clear_task_assignment_plan("task", "task_assignment", "t1", 6);
    assert_eq!(clear.len(), 2);
    assert_eq!(bound(&clear[0], "updated_at"), Some(&Bind::Int(6)));
    assert_eq!(bound(&clear[1], "task"), Some(&task_record("t1")));
}

#[test]
fn new_member_input_is_checked() {
    let ok = NewMemberInput {
        id: " mila ".to_owned(),
        name: "Mila".to_owned(),
        role: "Design".to_owned(),
    };
    assert_eq!(
        ok.checked(),
        Ok(("mila".to_owned(), "Mila".to_owned(), "Design".to_owned()))
    );
    let bad = NewMemberInput {
        id: "x".to_owned(),
        name: "  ".to_owned(),
        role: "r".to_owned(),
    };
    assert_eq!(bad.checked(), Err("member name cannot be empty".to_owned()));
}

#[test]
fn new_task_input_is_checked() {
    let mut input = NewTaskInput {
        id: "t".to_owned(),
        title: "Title".to_owned(),
        notes: " n ".to_owned(),
        status: "Todo".to_owned(),
        priority: 0,
    };
    assert_eq!(input.checked(), Err("priority must be >= 1".to_owned()));
    input.priority = 2;
    assert_eq!(
        input.checked(),
        Ok(("t".to_owned(), "Title".to_owned(), "n".to_owned(), "todo", 2))
    );
    input.id = "".to_owned();
    assert_eq!(input.checked(), Err("task id cannot be empty".to_owned()));
}

#[test]
fn key_names() {
    assert_eq!(MetaKey::SaveDir.as_str(), "save_dir");
    assert_eq!(MetaKey::from_str("first_launch"), Ok(MetaKey::FirstLaunch));
    assert_eq!(
        MetaKey::from_str("other"),
        Err("Unknown MetaKey: other".to_owned())
    );
    assert_eq!(Table::User.as_str(), "user");
    assert_eq!(Rel::SignIn.as_str(), "sign_in");
    assert_eq!(Order::Asc.as_str(), "ASC");
    assert_eq!(Order::Desc.as_str(), "DESC");
}

#[test]
fn member_and_task_constructors() {
    let m = Member::new("liam", "Liam Stone", "Engineering");
    assert_eq!(m.id, "liam");
    let t = Task::new(Id::Number(7), "T", "N", "doing", 3);
    assert_eq!(t.id, Id::Number(7));
    assert!(t.owner_id.is_none());
    assert_eq!(t.created_at, t.updated_at);
}

#[test]
fn board_names_and_schema() {
    assert_eq!(relation_name::<TaskAssignment>(), "task_assignment");
    assert_eq!(relation_name::<SignIn>(), "sign_in");
    assert_eq!(Member::table_name(), "member");
    assert_eq!(Task::table_name(), "task");
    let mut registry = SchemaRegistry::new();
    registry.submit(Member::schema());
    registry.submit(TaskAssignmentSchema::schema());
    assert_eq!(registry.len(), 2);
    assert!(registry.ddl(1).starts_with("DEFINE TABLE task_assignment TYPE RELATION"));
    assert!(is_schema_already_defined_error("Index 'x' ALREADY DEFINED"));
    assert!(is_schema_already_defined_error("The table 'user' already exists"));
    assert!(!is_schema_already_defined_error("Parse error: unexpected token"));
}
