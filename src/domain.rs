//! The task-board models built on the data layer: members, tasks and their
//! assignment edges, with the checks and statement plans of the board's
//! commands.
use vstd::prelude::*;
use crate::id::{Id, RecordKey, RecordRef};
use crate::naming::{default_table_name, RelationMeta};
use crate::repo::ModelMeta;
use crate::schema::SchemaDef;
use crate::stmt::{Bind, BindView, TxStmt};
use crate::text::{ascii_lowercase, lower_seq, trim_text, trimmed};

verus! {

pub const STATUS_TODO: &'static str = "todo";
pub const STATUS_DOING: &'static str = "doing";
pub const STATUS_DONE: &'static str = "done";

/// Relies on `std::time::SystemTime::now`: milliseconds since the Unix epoch
/// by the machine's clock (0 when the clock is before the epoch). Nothing is
/// promised of the value.
#[verifier::external_body]
pub fn now_timestamp_ms() -> i64 {
    std::time::SystemTime::now()
        .duration_since(std::time::UNIX_EPOCH)
        .unwrap_or_default()
        .as_millis() as i64
}

/// A member of the board.
#[derive(Debug, Clone)]
pub struct Member {
    pub id: String,
    pub name: String,
    pub role: String,
    pub created_at: i64,
}

impl Member {
    /// A member created now.
    pub fn new(id: &str, name: &str, role: &str) -> (r: Member)
        ensures
            r.id@ == id@,
            r.name@ == name@,
            r.role@ == role@,
    {
        Member {
            id: id.to_owned(),
            name: name.to_owned(),
            role: role.to_owned(),
            created_at: now_timestamp_ms(),
        }
    }
}

/// A task on the board.
#[derive(Debug, Clone)]
pub struct Task {
    pub id: Id,
    pub title: String,
    pub notes: String,
    pub status: String,
    pub priority: i64,
    pub owner_id: Option<String>,
    pub created_at: i64,
    pub updated_at: i64,
}

impl Task {
    /// An unassigned task created now.
    pub fn new(id: Id, title: &str, notes: &str, status: &str, priority: i64) -> (r: Task)
        ensures
            r.id == id,
            r.title@ == title@,
            r.notes@ == notes@,
            r.status@ == status@,
            r.priority == priority,
            r.owner_id is None,
            r.created_at == r.updated_at,
    {
        let now = now_timestamp_ms();
        Task {
            id,
            title: title.to_owned(),
            notes: notes.to_owned(),
            status: status.to_owned(),
            priority,
            owner_id: None,
            created_at: now,
            updated_at: now,
        }
    }
}

/// A user known by a string key.
#[derive(Debug, Clone)]
pub struct User {
    pub id: String,
}

/// The task-to-member assignment relation's schema owner.
pub struct TaskAssignmentSchema;

/// The relation from a user to a sign-in record.
pub struct SignIn;

/// The relation from a task to the member who owns it.
pub struct TaskAssignment;

impl RelationMeta for SignIn {
    fn relation_name() -> String {
        String::from_str("sign_in")
    }
}

impl RelationMeta for TaskAssignment {
    fn relation_name() -> String {
        default_table_name("TaskAssignment")
    }
}

impl ModelMeta for Member {
    fn table_name() -> String {
        default_table_name("Member")
    }
}

impl ModelMeta for Task {
    fn table_name() -> String {
        default_table_name("Task")
    }
}

impl SchemaDef for Member {
    fn schema() -> &'static str {
        "DEFINE TABLE member SCHEMAFULL;
DEFINE FIELD id ON TABLE member TYPE string;
DEFINE FIELD name ON TABLE member TYPE string;
DEFINE FIELD role ON TABLE member TYPE string;
DEFINE FIELD created_at ON TABLE member TYPE int;
DEFINE INDEX member_unique_id ON TABLE member FIELDS id UNIQUE;"
    }
}

impl SchemaDef for Task {
    fn schema() -> &'static str {
        "DEFINE TABLE task SCHEMAFULL;
DEFINE FIELD id ON TABLE task TYPE string | int;
DEFINE FIELD title ON TABLE task TYPE string;
DEFINE FIELD notes ON TABLE task TYPE string;
DEFINE FIELD status ON TABLE task TYPE string;
DEFINE FIELD priority ON TABLE task TYPE int;
DEFINE FIELD owner_id ON TABLE task TYPE option<string>;
DEFINE FIELD created_at ON TABLE task TYPE int;
DEFINE FIELD updated_at ON TABLE task TYPE int;
DEFINE INDEX task_unique_id ON TABLE task FIELDS id UNIQUE;"
    }
}

impl SchemaDef for User {
    fn schema() -> &'static str {
        "DEFINE INDEX unique_id ON TABLE user FIELDS id UNIQUE;"
    }
}

impl SchemaDef for TaskAssignmentSchema {
    fn schema() -> &'static str {
        "DEFINE TABLE task_assignment TYPE RELATION IN task OUT member;
DEFINE INDEX task_assignment_unique ON TABLE task_assignment FIELDS in, out UNIQUE;"
    }
}

/// The normalized form of a status: trimmed and ASCII lower-cased.
pub open spec fn status_key(status: Seq<char>) -> Seq<char> {
    lower_seq(trimmed(status))
}

/// The message for an unknown status.
pub open spec fn invalid_status_message(status: Seq<char>) -> Seq<char> {
    "invalid status `"@ + status + "`. expected one of: todo, doing, done"@
}

/// The canonical status that `status` names, ignoring surrounding white space
/// and ASCII case.
pub fn normalize_status(status: &str) -> (r: Result<&'static str, String>)
    ensures
        match normalize_status_spec(status@) {
            Some(canon) => r matches Ok(s) && s@ == canon,
            None => r matches Err(m) && m@ == invalid_status_message(status@),
        },
{
    let t = trim_text(status);
    let value = ascii_lowercase(t.as_str());
    let todo = String::from_str(STATUS_TODO);
    let doing = String::from_str(STATUS_DOING);
    let done = String::from_str(STATUS_DONE);
    if value == todo {
        Ok(STATUS_TODO)
    } else if value == doing {
        Ok(STATUS_DOING)
    } else if value == done {
        Ok(STATUS_DONE)
    } else {
        let mut m = String::from_str("invalid status `");
        m.append(status);
        m.append("`. expected one of: todo, doing, done");
        Err(m)
    }
}

/// Counts of the board's members and tasks.
#[derive(Debug, Clone, Copy, PartialEq, Eq)]
pub struct DemoStats {
    pub total_members: i64,
    pub total_tasks: i64,
    pub todo_tasks: i64,
    pub doing_tasks: i64,
    pub done_tasks: i64,
}

/// How many of `tasks` have status `status`.
pub open spec fn count_status(tasks: Seq<Task>, status: Seq<char>) -> nat
    decreases tasks.len(),
{
    if tasks.len() == 0 {
        0
    } else {
        count_status(tasks.drop_last(), status) + if tasks.last().status@ == status {
            1nat
        } else {
            0nat
        }
    }
}

proof fn lemma_count_status_bound(tasks: Seq<Task>, status: Seq<char>)
    ensures
        count_status(tasks, status) <= tasks.len(),
    decreases tasks.len(),
{
    if tasks.len() > 0 {
        lemma_count_status_bound(tasks.drop_last(), status);
    }
}

proof fn lemma_statuses_differ()
    ensures
        "todo"@ != "doing"@,
        "todo"@ != "done"@,
        "doing"@ != "done"@,
{
    reveal_strlit("todo");
    reveal_strlit("doing");
    reveal_strlit("done");
    assert("todo"@.len() == 4);
    assert("doing"@.len() == 5);
    assert("done"@.len() == 4);
    assert("todo"@[0] == 't');
    assert("done"@[0] == 'd');
}

/// The counts of `members` and of `tasks` by status.
pub fn build_stats(members: &Vec<Member>, tasks: &Vec<Task>) -> (r: DemoStats)
    requires
        members@.len() <= i64::MAX,
        tasks@.len() <= i64::MAX,
    ensures
        r.total_members == members@.len(),
        r.total_tasks == tasks@.len(),
        r.todo_tasks == count_status(tasks@, "todo"@),
        r.doing_tasks == count_status(tasks@, "doing"@),
        r.done_tasks == count_status(tasks@, "done"@),
{
    let todo = String::from_str(STATUS_TODO);
    let doing = String::from_str(STATUS_DOING);
    let done = String::from_str(STATUS_DONE);
    let mut n_todo: i64 = 0;
    let mut n_doing: i64 = 0;
    let mut n_done: i64 = 0;
    let mut i: usize = 0;
    while i < tasks.len()
        invariant
            tasks@.len() <= i64::MAX,
            i <= tasks@.len(),
            todo@ == "todo"@,
            doing@ == "doing"@,
            done@ == "done"@,
            n_todo == count_status(tasks@.subrange(0, i as int), "todo"@),
            n_doing == count_status(tasks@.subrange(0, i as int), "doing"@),
            n_done == count_status(tasks@.subrange(0, i as int), "done"@),
        decreases tasks@.len() - i,
    {
        proof {
            let p = tasks@.subrange(0, i + 1);
            assert(p.drop_last() =~= tasks@.subrange(0, i as int));
            lemma_count_status_bound(p.drop_last(), "todo"@);
            lemma_count_status_bound(p.drop_last(), "doing"@);
            lemma_count_status_bound(p.drop_last(), "done"@);
            lemma_statuses_differ();
        }
        if tasks[i].status == todo {
            n_todo = n_todo + 1;
        } else if tasks[i].status == doing {
            n_doing = n_doing + 1;
        } else if tasks[i].status == done {
            n_done = n_done + 1;
        }
        i = i + 1;
    }
    assert(tasks@.subrange(0, tasks@.len() as int) =~= tasks@);
    DemoStats {
        total_members: members.len() as i64,
        total_tasks: tasks.len() as i64,
        todo_tasks: n_todo,
        doing_tasks: n_doing,
        done_tasks: n_done,
    }
}

/// The record of table `table` whose key is the string `key`.
fn string_record(table: &str, key: &str) -> (r: RecordRef)
    ensures
        r.table@ == table@,
        r.key matches RecordKey::String(k) && k@ == key@,
{
    RecordRef { table: table.to_owned(), key: RecordKey::String(key.to_owned()) }
}

/// A text with nothing but white space.
pub open spec fn blank(s: Seq<char>) -> bool {
    trimmed(s).len() == 0
}

/// The ids in order of first appearance, blank ones left out.
pub open spec fn distinct_ids(ids: Seq<Seq<char>>) -> Seq<Seq<char>>
    decreases ids.len(),
{
    if ids.len() == 0 {
        Seq::empty()
    } else {
        let u = distinct_ids(ids.drop_last());
        let x = ids.last();
        if blank(x) || u.contains(x) {
            u
        } else {
            u.push(x)
        }
    }
}

/// The statement that sets one task's status.
pub open spec fn status_update_ok(s: TxStmt, table: Seq<char>, id: Seq<char>, status: Seq<char>, now: i64) -> bool {
    &&& s.sql_view() == "UPDATE $task MERGE { status: $status, updated_at: $updated_at } RETURN NONE;"@
    &&& s.binding_seq().len() == 3
    &&& s.binds_string_record("task"@, table, id)
    &&& s.binds("status"@, BindView::Text(status))
    &&& s.binds("updated_at"@, BindView::Int(now))
}

fn contains_string(seen: &Vec<String>, x: &String) -> (r: bool)
    ensures
        r == seen@.map_values(|s: String| s@).contains(x@),
{
    let mut i: usize = 0;
    while i < seen.len()
        invariant
            i <= seen@.len(),
            forall|j: int| 0 <= j < i ==> seen@[j]@ != x@,
        decreases seen@.len() - i,
    {
        if seen[i] == *x {
            assert(seen@.map_values(|s: String| s@)[i as int] == x@);
            return true;
        }
        i = i + 1;
    }
    proof {
        let sv = seen@.map_values(|s: String| s@);
        if sv.contains(x@) {
            let j = choose|j: int| 0 <= j < sv.len() && #[trigger] sv[j] == x@;
            assert(seen@[j]@ == x@);
        }
    }
    false
}

/// The statements that set the status of the tasks `task_ids` (of table
/// `task_table`) at time `now`: one per distinct non-blank id, in order, then
/// one that answers their number. Without ids there is nothing to do; an
/// unknown status is refused.
pub fn set_many_task_status_plan(task_table: &str, task_ids: &Vec<String>, status: &str, now: i64) -> (r: Result<Vec<TxStmt>, String>)
    ensures
        task_ids@.len() == 0 ==> (r matches Ok(v) && v@.len() == 0),
        task_ids@.len() > 0 ==> (match normalize_status_spec(status@) {
            None => r matches Err(m) && m@ == invalid_status_message(status@),
            Some(canon) => r matches Ok(v) && {
                let u = distinct_ids(task_ids@.map_values(|s: String| s@));
                &&& u.len() == 0 ==> v@.len() == 0
                &&& u.len() > 0 ==> {
                    &&& v@.len() == u.len() + 1
                    &&& forall|j: int| 0 <= j < u.len() ==> status_update_ok(#[trigger] v@[j], task_table@, u[j], canon, now)
                    &&& v@[u.len() as int].sql_view() == "RETURN $count;"@
                    &&& v@[u.len() as int].binding_seq().len() == 1
                    &&& v@[u.len() as int].binds("count"@, BindView::Int(u.len() as i64))
                }
            },
        }),
{
    if task_ids.len() == 0 {
        return Ok(Vec::new());
    }
    let normalized = match normalize_status(status) {
        Ok(s) => s,
        Err(m) => return Err(m),
    };
    let ghost idv = task_ids@.map_values(|s: String| s@);
    let mut seen: Vec<String> = Vec::new();
    let mut stmts: Vec<TxStmt> = Vec::new();
    let mut i: usize = 0;
    while i < task_ids.len()
        invariant
            idv == task_ids@.map_values(|s: String| s@),
            i <= task_ids@.len(),
            normalized@ == normalize_status_spec(status@)->0,
            seen@.map_values(|s: String| s@) == distinct_ids(idv.subrange(0, i as int)),
            stmts@.len() == seen@.len(),
            forall|j: int| 0 <= j < stmts@.len() ==> status_update_ok(#[trigger] stmts@[j], task_table@, seen@[j]@, normalized@, now),
        decreases task_ids@.len() - i,
    {
        let id = &task_ids[i];
        let ghost sv = seen@.map_values(|s: String| s@);
        proof {
            let p = idv.subrange(0, i + 1);
            assert(p.drop_last() =~= idv.subrange(0, i as int));
            assert(p.last() == id@);
        }
        let (a, e) = crate::text::trim_bounds(id.as_str());
        if a == e || contains_string(&seen, id) {
            // blank or seen before: nothing to add
        } else {
            let stmt = TxStmt::with_bindings(
                String::from_str("UPDATE $task MERGE { status: $status, updated_at: $updated_at } RETURN NONE;"),
                vec![
                    (String::from_str("task"), Bind::Record(string_record(task_table, id.as_str()))),
                    (String::from_str("status"), Bind::Text(normalized.to_owned())),
                    (String::from_str("updated_at"), Bind::Int(now)),
                ],
            );
            assert(stmt.binding_seq()[0].0@ == "task"@);
            assert(stmt.binding_seq()[1].0@ == "status"@);
            assert(stmt.binding_seq()[2].0@ == "updated_at"@);
            seen.push(id.clone());
            stmts.push(stmt);
            proof {
                assert(seen@.map_values(|s: String| s@) =~= sv.push(id@));
            }
        }
        i = i + 1;
    }
    assert(idv.subrange(0, task_ids@.len() as int) =~= idv);
    if stmts.len() == 0 {
        return Ok(stmts);
    }
    let count = stmts.len() as i64;
    let last = TxStmt::with_bindings(
        String::from_str("RETURN $count;"),
        vec![(String::from_str("count"), Bind::Int(count))],
    );
    assert(last.binding_seq()[0].0@ == "count"@);
    let ghost before = stmts@;
    stmts.push(last);
    proof {
        let u = distinct_ids(idv);
        assert forall|j: int| 0 <= j < u.len() implies status_update_ok(#[trigger] stmts@[j], task_table@, u[j], normalized@, now) by {
            assert(stmts@[j] == before[j]);
            assert(u[j] == seen@.map_values(|s: String| s@)[j]);
        }
    }
    Ok(stmts)
}

/// The canonical status that `status` names, if any.
pub open spec fn normalize_status_spec(status: Seq<char>) -> Option<Seq<char>> {
    if status_key(status) == "todo"@ {
        Some("todo"@)
    } else if status_key(status) == "doing"@ {
        Some("doing"@)
    } else if status_key(status) == "done"@ {
        Some("done"@)
    } else {
        None
    }
}

/// The statements that make `member_id` the owner of `task_id` at time
/// `now`: record the owner on the task, drop the task's edges in `rel`, and
/// add the one edge from the task to the member.
pub fn set_task_assignment_plan(
    task_table: &str,
    member_table: &str,
    rel: &str,
    task_id: &str,
    member_id: &str,
    now: i64,
) -> (r: Vec<TxStmt>)
    ensures
        r@.len() == 3,
        r@[0].sql_view() == "UPDATE $task MERGE { owner_id: $owner_id, updated_at: $updated_at } RETURN NONE;"@,
        r@[0].binding_seq().len() == 3,
        r@[0].binds_string_record("task"@, task_table@, task_id@),
        r@[0].binds("owner_id"@, BindView::Text(member_id@)),
        r@[0].binds("updated_at"@, BindView::Int(now)),
        r@[1].sql_view() == "DELETE $rel WHERE in = $task RETURN NONE;"@,
        r@[1].binding_seq().len() == 2,
        r@[1].binds("rel"@, BindView::Table(rel@)),
        r@[1].binds_string_record("task"@, task_table@, task_id@),
        r@[2].sql_view() == "INSERT RELATION INTO $rel [{ in: $task, out: $member, created_at: time::now() }] RETURN NONE;"@,
        r@[2].binding_seq().len() == 3,
        r@[2].binds("rel"@, BindView::Table(rel@)),
        r@[2].binds_string_record("task"@, task_table@, task_id@),
        r@[2].binds_string_record("member"@, member_table@, member_id@),
{
    let owner = TxStmt::with_bindings(
        String::from_str("UPDATE $task MERGE { owner_id: $owner_id, updated_at: $updated_at } RETURN NONE;"),
        vec![
            (String::from_str("task"), Bind::Record(string_record(task_table, task_id))),
            (String::from_str("owner_id"), Bind::Text(member_id.to_owned())),
            (String::from_str("updated_at"), Bind::Int(now)),
        ],
    );
    assert(owner.binding_seq()[0].0@ == "task"@);
    assert(owner.binding_seq()[1].0@ == "owner_id"@);
    assert(owner.binding_seq()[2].0@ == "updated_at"@);
    let unlink = clear_edges_stmt(task_table, rel, task_id);
    let link = TxStmt::with_bindings(
        String::from_str("INSERT RELATION INTO $rel [{ in: $task, out: $member, created_at: time::now() }] RETURN NONE;"),
        vec![
            (String::from_str("rel"), Bind::Table(rel.to_owned())),
            (String::from_str("task"), Bind::Record(string_record(task_table, task_id))),
            (String::from_str("member"), Bind::Record(string_record(member_table, member_id))),
        ],
    );
    assert(link.binding_seq()[0].0@ == "rel"@);
    assert(link.binding_seq()[1].0@ == "task"@);
    assert(link.binding_seq()[2].0@ == "member"@);
    vec![owner, unlink, link]
}

/// Drop every edge of `rel` that leaves the task `task_id`.
fn clear_edges_stmt(task_table: &str, rel: &str, task_id: &str) -> (r: TxStmt)
    ensures
        r.sql_view() == "DELETE $rel WHERE in = $task RETURN NONE;"@,
        r.binding_seq().len() == 2,
        r.binds("rel"@, BindView::Table(rel@)),
        r.binds_string_record("task"@, task_table@, task_id@),
{
    let r = TxStmt::with_bindings(
        String::from_str("DELETE $rel WHERE in = $task RETURN NONE;"),
        vec![
            (String::from_str("rel"), Bind::Table(rel.to_owned())),
            (String::from_str("task"), Bind::Record(string_record(task_table, task_id))),
        ],
    );
    assert(r.binding_seq()[0].0@ == "rel"@);
    assert(r.binding_seq()[1].0@ == "task"@);
    r
}

/// The statements that leave `task_id` without owner at time `now`: clear the
/// owner on the task and drop the task's edges in `rel`.
pub fn clear_task_assignment_plan(task_table: &str, rel: &str, task_id: &str, now: i64) -> (r: Vec<TxStmt>)
    ensures
        r@.len() == 2,
        r@[0].sql_view() == "UPDATE $task MERGE { owner_id: NONE, updated_at: $updated_at } RETURN NONE;"@,
        r@[0].binding_seq().len() == 2,
        r@[0].binds_string_record("task"@, task_table@, task_id@),
        r@[0].binds("updated_at"@, BindView::Int(now)),
        r@[1].sql_view() == "DELETE $rel WHERE in = $task RETURN NONE;"@,
        r@[1].binding_seq().len() == 2,
        r@[1].binds("rel"@, BindView::Table(rel@)),
        r@[1].binds_string_record("task"@, task_table@, task_id@),
{
    let owner = TxStmt::with_bindings(
        String::from_str("UPDATE $task MERGE { owner_id: NONE, updated_at: $updated_at } RETURN NONE;"),
        vec![
            (String::from_str("task"), Bind::Record(string_record(task_table, task_id))),
            (String::from_str("updated_at"), Bind::Int(now)),
        ],
    );
    assert(owner.binding_seq()[0].0@ == "task"@);
    assert(owner.binding_seq()[1].0@ == "updated_at"@);
    let unlink = clear_edges_stmt(task_table, rel, task_id);
    vec![owner, unlink]
}

/// The fields of a new member, as entered.
#[derive(Debug, Clone)]
pub struct NewMemberInput {
    pub id: String,
    pub name: String,
    pub role: String,
}

/// The fields of a new task, as entered.
#[derive(Debug, Clone)]
pub struct NewTaskInput {
    pub id: String,
    pub title: String,
    pub notes: String,
    pub status: String,
    pub priority: i64,
}

/// Which member a task goes to.
#[derive(Debug, Clone)]
pub struct AssignTaskInput {
    pub task_id: String,
    pub member_id: String,
}

/// Which task loses its owner.
#[derive(Debug, Clone)]
pub struct UnassignTaskInput {
    pub task_id: String,
}

/// A status for several tasks at once.
#[derive(Debug, Clone)]
pub struct BulkStatusInput {
    pub task_ids: Vec<String>,
    pub status: String,
}

/// One assignment edge, by the keys of its ends.
#[derive(Debug, Clone)]
pub struct TaskAssignmentView {
    pub task_id: String,
    pub member_id: String,
}

/// The whole board.
#[derive(Debug, Clone)]
pub struct TemplateDashboard {
    pub members: Vec<Member>,
    pub tasks: Vec<Task>,
    pub assignments: Vec<TaskAssignmentView>,
    pub stats: DemoStats,
}

/// Trims `value`, refusing it with `message` when nothing is left.
fn required(value: &str, message: &str) -> (r: Result<String, String>)
    ensures
        blank(value@) ==> (r matches Err(m) && m@ == message@),
        !blank(value@) ==> (r matches Ok(t) && t@ == trimmed(value@)),
{
    let t = trim_text(value);
    if t.unicode_len() == 0 {
        Err(message.to_owned())
    } else {
        Ok(t)
    }
}

impl NewMemberInput {
    /// The trimmed id, name and role; each must hold more than white space.
    pub fn checked(&self) -> (r: Result<(String, String, String), String>)
        ensures
            blank(self.id@) ==> (r matches Err(m) && m@ == "member id cannot be empty"@),
            !blank(self.id@) && blank(self.name@) ==> (r matches Err(m) && m@
                == "member name cannot be empty"@),
            !blank(self.id@) && !blank(self.name@) && blank(self.role@) ==> (r matches Err(m)
                && m@ == "member role cannot be empty"@),
            !blank(self.id@) && !blank(self.name@) && !blank(self.role@) ==> (r matches Ok(t)
                && t.0@ == trimmed(self.id@) && t.1@ == trimmed(self.name@) && t.2@ == trimmed(
                self.role@,
            )),
    {
        let id = required(self.id.as_str(), "member id cannot be empty")?;
        let name = required(self.name.as_str(), "member name cannot be empty")?;
        let role = required(self.role.as_str(), "member role cannot be empty")?;
        Ok((id, name, role))
    }
}

impl NewTaskInput {
    /// The trimmed id, title and notes, the canonical status and the
    /// priority; id and title must hold more than white space, the priority
    /// must be at least one, and the status must be known.
    pub fn checked(&self) -> (r: Result<(String, String, String, &'static str, i64), String>)
        ensures
            blank(self.id@) ==> (r matches Err(m) && m@ == "task id cannot be empty"@),
            !blank(self.id@) && blank(self.title@) ==> (r matches Err(m) && m@
                == "task title cannot be empty"@),
            !blank(self.id@) && !blank(self.title@) && self.priority < 1 ==> (r matches Err(m)
                && m@ == "priority must be >= 1"@),
            !blank(self.id@) && !blank(self.title@) && self.priority >= 1 ==> (match normalize_status_spec(self.status@) {
                None => r matches Err(m) && m@ == invalid_status_message(self.status@),
                Some(canon) => r matches Ok(t) && t.0@ == trimmed(self.id@) && t.1@ == trimmed(
                    self.title@,
                ) && t.2@ == trimmed(self.notes@) && t.3@ == canon && t.4 == self.priority,
            }),
    {
        let id = required(self.id.as_str(), "task id cannot be empty")?;
        let title = required(self.title.as_str(), "task title cannot be empty")?;
        if self.priority < 1 {
            return Err(String::from_str("priority must be >= 1"));
        }
        let status = normalize_status(self.status.as_str())?;
        Ok((id, title, trim_text(self.notes.as_str()), status, self.priority))
    }
}

/// Keys of the application's own settings.
#[derive(Debug, Clone, Copy, PartialEq, Eq)]
pub enum MetaKey {
    SaveDir,
    FirstLaunch,
}

impl MetaKey {
    /// The stored name of the key.
    pub fn as_str(self) -> (r: &'static str)
        ensures
            self == MetaKey::SaveDir ==> r@ == "save_dir"@,
            self == MetaKey::FirstLaunch ==> r@ == "first_launch"@,
    {
        match self {
            MetaKey::SaveDir => "save_dir",
            MetaKey::FirstLaunch => "first_launch",
        }
    }

    /// The key stored under the name `s`.
    pub fn from_str(s: &str) -> (r: Result<MetaKey, String>)
        ensures
            s@ == "save_dir"@ ==> r == Ok::<MetaKey, String>(MetaKey::SaveDir),
            s@ == "first_launch"@ ==> r == Ok::<MetaKey, String>(MetaKey::FirstLaunch),
            s@ != "save_dir"@ && s@ != "first_launch"@ ==> (r matches Err(m) && m@
                == "Unknown MetaKey: "@ + s@),
    {
        let key = s.to_owned();
        proof {
            reveal_strlit("save_dir");
            reveal_strlit("first_launch");
            assert("save_dir"@.len() != "first_launch"@.len());
        }
        if key == String::from_str("save_dir") {
            Ok(MetaKey::SaveDir)
        } else if key == String::from_str("first_launch") {
            Ok(MetaKey::FirstLaunch)
        } else {
            let mut m = String::from_str("Unknown MetaKey: ");
            m.append(s);
            Err(m)
        }
    }
}

/// A value that names a table.
pub trait TableName {
    /// The table's name.
    fn table_name(&self) -> &str;
}

/// The entity tables of the application.
#[derive(Debug, Clone, Copy, PartialEq, Eq)]
pub enum Table {
    User,
}

impl Table {
    /// The table's name.
    pub fn as_str(&self) -> (r: &'static str)
        ensures
            r@ == "user"@,
    {
        match self {
            Table::User => "user",
        }
    }
}

impl TableName for Table {
    fn table_name(&self) -> &str {
        self.as_str()
    }
}

/// The relation tables of the application.
#[derive(Debug, Clone, Copy, PartialEq, Eq)]
pub enum Rel {
    SignIn,
}

impl Rel {
    /// The relation's table name.
    pub fn as_str(&self) -> (r: &'static str)
        ensures
            r@ == "sign_in"@,
    {
        match self {
            Rel::SignIn => "sign_in",
        }
    }
}

impl TableName for Rel {
    fn table_name(&self) -> &str {
        self.as_str()
    }
}

} // verus!
