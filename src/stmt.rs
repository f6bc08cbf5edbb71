//! A statement and its named bindings, as handed to the store.
use vstd::prelude::*;
use crate::id::{Id, RecordKey, RecordRef};

verus! {

/// A value bound to a named parameter of a statement.
#[derive(Debug, Clone, PartialEq, Eq)]
pub enum Bind {
    /// A table reference (the store treats it differently from a string).
    Table(String),
    /// One composite record identifier.
    Record(RecordRef),
    /// A list of composite record identifiers.
    Records(Vec<RecordRef>),
    /// A bare key.
    Key(Id),
    /// A string value.
    Text(String),
    /// An integer value.
    Int(i64),
    /// The absent value.
    NoneValue,
}

/// What a bound value denotes, with strings taken by their characters.
pub enum BindView {
    Table(Seq<char>),
    Record(RecordRef),
    Records(Seq<RecordRef>),
    Key(Id),
    Text(Seq<char>),
    Int(i64),
    NoneValue,
}

impl Bind {
    pub open spec fn view(&self) -> BindView {
        match self {
            Bind::Table(t) => BindView::Table(t@),
            Bind::Record(r) => BindView::Record(*r),
            Bind::Records(rs) => BindView::Records(rs@),
            Bind::Key(k) => BindView::Key(*k),
            Bind::Text(s) => BindView::Text(s@),
            Bind::Int(n) => BindView::Int(*n),
            Bind::NoneValue => BindView::NoneValue,
        }
    }
}

/// The position of the first binding named `name`.
pub open spec fn key_pos(bs: Seq<(String, Bind)>, name: Seq<char>) -> Option<int>
    decreases bs.len(),
{
    if bs.len() == 0 {
        None
    } else {
        match key_pos(bs.drop_last(), name) {
            Some(i) => Some(i),
            None => if bs.last().0@ == name {
                Some(bs.len() - 1)
            } else {
                None
            },
        }
    }
}

proof fn lemma_key_pos_extends(bs: Seq<(String, Bind)>, k: int, name: Seq<char>)
    requires
        0 <= k <= bs.len(),
        key_pos(bs.subrange(0, k), name) is Some,
    ensures
        key_pos(bs, name) == key_pos(bs.subrange(0, k), name),
    decreases bs.len(),
{
    if k < bs.len() {
        assert(bs.drop_last().subrange(0, k) =~= bs.subrange(0, k));
        lemma_key_pos_extends(bs.drop_last(), k, name);
    } else {
        assert(bs.subrange(0, k) =~= bs);
    }
}

proof fn lemma_key_pos_found(bs: Seq<(String, Bind)>, name: Seq<char>)
    requires
        key_pos(bs, name) is Some,
    ensures
        0 <= key_pos(bs, name)->0 < bs.len(),
        bs[key_pos(bs, name)->0].0@ == name,
    decreases bs.len(),
{
    if key_pos(bs.drop_last(), name) is Some {
        lemma_key_pos_found(bs.drop_last(), name);
    }
}

/// One statement of the query language with its named bindings, kept in the
/// order in which they were first bound; a name is bound at most once.
pub struct TxStmt {
    sql: String,
    bindings: Vec<(String, Bind)>,
}

impl TxStmt {
    /// The statement text.
    pub closed spec fn sql_view(&self) -> Seq<char> {
        self.sql@
    }

    /// The bindings, in order.
    pub closed spec fn binding_seq(&self) -> Seq<(String, Bind)> {
        self.bindings@
    }

    /// The statement binds `name` to a value that denotes `value`.
    pub open spec fn binds(&self, name: Seq<char>, value: BindView) -> bool {
        exists|i: int|
            0 <= i < self.binding_seq().len() && #[trigger] self.binding_seq()[i].0@ == name
                && self.binding_seq()[i].1.view() == value
    }

    /// The statement binds `name` to the record of table `table` whose key is
    /// the string `key`.
    pub open spec fn binds_string_record(&self, name: Seq<char>, table: Seq<char>, key: Seq<char>) -> bool {
        exists|i: int|
            0 <= i < self.binding_seq().len() && #[trigger] self.binding_seq()[i].0@ == name
                && (self.binding_seq()[i].1 matches Bind::Record(r) && r.table@ == table
                && (r.key matches RecordKey::String(k) && k@ == key))
    }

    /// A statement with no bindings yet.
    pub fn new(sql: &str) -> (r: TxStmt)
        ensures
            r.sql_view() == sql@,
            r.binding_seq().len() == 0,
    {
        TxStmt { sql: sql.to_owned(), bindings: Vec::new() }
    }

    /// A statement from its text and its bindings, given in order.
    pub(crate) fn with_bindings(sql: String, bindings: Vec<(String, Bind)>) -> (r: TxStmt)
        ensures
            r.sql_view() == sql@,
            r.binding_seq() == bindings@,
    {
        TxStmt { sql, bindings }
    }

    /// The statement text.
    pub fn sql(&self) -> (r: &str)
        ensures
            r@ == self.sql_view(),
    {
        self.sql.as_str()
    }

    /// The bindings, in order.
    pub fn bindings(&self) -> (r: &Vec<(String, Bind)>)
        ensures
            r@ == self.binding_seq(),
    {
        &self.bindings
    }

    /// Binds `name` to `val`: a name bound before gets the new value in its
    /// place, a new name goes last.
    pub fn bind(self, name: &str, val: Bind) -> (r: TxStmt)
        ensures
            r.sql_view() == self.sql_view(),
            match key_pos(self.binding_seq(), name@) {
                Some(i) => r.binding_seq() == self.binding_seq().update(
                    i,
                    (self.binding_seq()[i].0, val),
                ),
                None => r.binding_seq().len() == self.binding_seq().len() + 1
                    && r.binding_seq().drop_last() == self.binding_seq()
                    && r.binding_seq().last().0@ == name@ && r.binding_seq().last().1 == val,
            },
    {
        let mut bindings = self.bindings;
        let key = name.to_owned();
        let n = bindings.len();
        let mut i: usize = 0;
        while i < n
            invariant
                n == bindings@.len(),
                bindings@ == self.bindings@,
                i <= n,
                key@ == name@,
                key_pos(bindings@.subrange(0, i as int), name@) is None,
            decreases n - i,
        {
            proof {
                assert(bindings@.subrange(0, i + 1).drop_last() =~= bindings@.subrange(0, i as int));
            }
            if bindings[i].0 == key {
                proof {
                    lemma_key_pos_extends(bindings@, i + 1, name@);
                }
                let (k, _) = bindings.remove(i);
                bindings.insert(i, (k, val));
                proof {
                    assert(bindings@ =~= self.bindings@.update(i as int, (self.bindings@[i as int].0, val)));
                }
                return TxStmt { sql: self.sql, bindings };
            }
            i = i + 1;
        }
        assert(bindings@.subrange(0, n as int) =~= bindings@);
        bindings.push((key, val));
        proof {
            assert(bindings@.drop_last() =~= self.bindings@);
        }
        TxStmt { sql: self.sql, bindings }
    }
}

} // verus!
