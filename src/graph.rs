//! Typed edges between records: the statements that create, remove and
//! traverse them. The relation name is always bound as a table-typed
//! parameter and never placed in statement text.
use vstd::prelude::*;
use crate::id::RecordRef;
use crate::query::QueryKind;
use crate::stmt::{Bind, BindView, TxStmt};

verus! {

/// Builds the statements of the graph operations.
pub struct GraphRepo;

impl GraphRepo {
    /// Create one edge from `in_id` to `out_id` in relation table `rel`,
    /// stamped with the store's current time.
    pub fn relate_by_id(in_id: RecordRef, out_id: RecordRef, rel: &str) -> (r: TxStmt)
        ensures
            r.sql_view() == "INSERT RELATION INTO $rel [{ in: $in, out: $out, created_at: time::now() }] RETURN NONE;"@,
            r.binding_seq().len() == 3,
            r.binds("rel"@, BindView::Table(rel@)),
            r.binds("in"@, BindView::Record(in_id)),
            r.binds("out"@, BindView::Record(out_id)),
    {
        let sql = QueryKind::relate(&in_id, &out_id, rel);
        let r = TxStmt::with_bindings(
            sql,
            vec![
                (String::from_str("rel"), Bind::Table(rel.to_owned())),
                (String::from_str("in"), Bind::Record(in_id)),
                (String::from_str("out"), Bind::Record(out_id)),
            ],
        );
        assert(r.binding_seq()[0].0@ == "rel"@);
        assert(r.binding_seq()[1].0@ == "in"@);
        assert(r.binding_seq()[2].0@ == "out"@);
        r
    }

    /// Remove the edges of `rel` from `self_id` to `target_id`.
    pub fn unrelate_by_id(self_id: RecordRef, target_id: RecordRef, rel: &str) -> (r: TxStmt)
        ensures
            r.sql_view() == "DELETE $rel WHERE in = $in AND out = $out RETURN NONE;"@,
            r.binding_seq().len() == 3,
            r.binds("rel"@, BindView::Table(rel@)),
            r.binds("in"@, BindView::Record(self_id)),
            r.binds("out"@, BindView::Record(target_id)),
    {
        let sql = QueryKind::unrelate(&self_id, &target_id, rel);
        let r = TxStmt::with_bindings(
            sql,
            vec![
                (String::from_str("rel"), Bind::Table(rel.to_owned())),
                (String::from_str("in"), Bind::Record(self_id)),
                (String::from_str("out"), Bind::Record(target_id)),
            ],
        );
        assert(r.binding_seq()[0].0@ == "rel"@);
        assert(r.binding_seq()[1].0@ == "in"@);
        assert(r.binding_seq()[2].0@ == "out"@);
        r
    }

    /// Remove every edge of `rel` that leaves `self_id`.
    pub fn unrelate_all(self_id: RecordRef, rel: &str) -> (r: TxStmt)
        ensures
            r.sql_view() == "DELETE $rel WHERE in = $in RETURN NONE;"@,
            r.binding_seq().len() == 2,
            r.binds("rel"@, BindView::Table(rel@)),
            r.binds("in"@, BindView::Record(self_id)),
    {
        let sql = QueryKind::unrelate_all(&self_id, rel);
        let r = TxStmt::with_bindings(
            sql,
            vec![
                (String::from_str("rel"), Bind::Table(rel.to_owned())),
                (String::from_str("in"), Bind::Record(self_id)),
            ],
        );
        assert(r.binding_seq()[0].0@ == "rel"@);
        assert(r.binding_seq()[1].0@ == "in"@);
        r
    }

    /// The targets, in table `out_table`, of the edges of `rel` that leave
    /// `in_id`.
    pub fn outs(in_id: RecordRef, rel: &str, out_table: &str) -> (r: TxStmt)
        ensures
            r.sql_view() == "RETURN (SELECT VALUE out FROM $rel WHERE in = $in AND record::tb(out) = $out_table);"@,
            r.binding_seq().len() == 3,
            r.binds("rel"@, BindView::Table(rel@)),
            r.binds("in"@, BindView::Record(in_id)),
            r.binds("out_table"@, BindView::Text(out_table@)),
    {
        let sql = QueryKind::rel_outs(&in_id, rel, out_table);
        let r = TxStmt::with_bindings(
            sql,
            vec![
                (String::from_str("rel"), Bind::Table(rel.to_owned())),
                (String::from_str("in"), Bind::Record(in_id)),
                (String::from_str("out_table"), Bind::Text(out_table.to_owned())),
            ],
        );
        assert(r.binding_seq()[0].0@ == "rel"@);
        assert(r.binding_seq()[1].0@ == "in"@);
        assert(r.binding_seq()[2].0@ == "out_table"@);
        r
    }

    /// The sources, in table `in_table`, of the edges of `rel` that reach
    /// `out_id`.
    pub fn ins(out_id: RecordRef, rel: &str, in_table: &str) -> (r: TxStmt)
        ensures
            r.sql_view() == "RETURN (SELECT VALUE in FROM $rel WHERE out = $out AND record::tb(in) = $in_table);"@,
            r.binding_seq().len() == 3,
            r.binds("rel"@, BindView::Table(rel@)),
            r.binds("out"@, BindView::Record(out_id)),
            r.binds("in_table"@, BindView::Text(in_table@)),
    {
        let sql = QueryKind::rel_ins(&out_id, rel, in_table);
        let r = TxStmt::with_bindings(
            sql,
            vec![
                (String::from_str("rel"), Bind::Table(rel.to_owned())),
                (String::from_str("out"), Bind::Record(out_id)),
                (String::from_str("in_table"), Bind::Text(in_table.to_owned())),
            ],
        );
        assert(r.binding_seq()[0].0@ == "rel"@);
        assert(r.binding_seq()[1].0@ == "out"@);
        assert(r.binding_seq()[2].0@ == "in_table"@);
        r
    }

    /// The key of the edge of `rel` from `in_id` to `out_id`.
    pub fn record_id(in_id: RecordRef, rel: &str, out_id: RecordRef) -> (r: TxStmt)
        ensures
            r.sql_view() == "RETURN (SELECT * FROM ONLY $rel WHERE in = $in AND out = $out LIMIT 1).id;"@,
            r.binding_seq().len() == 3,
            r.binds("rel"@, BindView::Table(rel@)),
            r.binds("in"@, BindView::Record(in_id)),
            r.binds("out"@, BindView::Record(out_id)),
    {
        let sql = QueryKind::rel_id(&in_id, rel, &out_id);
        let r = TxStmt::with_bindings(
            sql,
            vec![
                (String::from_str("rel"), Bind::Table(rel.to_owned())),
                (String::from_str("in"), Bind::Record(in_id)),
                (String::from_str("out"), Bind::Record(out_id)),
            ],
        );
        assert(r.binding_seq()[0].0@ == "rel"@);
        assert(r.binding_seq()[1].0@ == "in"@);
        assert(r.binding_seq()[2].0@ == "out"@);
        r
    }

    /// Bulk edge creation into `rel`; the caller binds the edges as `$data`.
    pub fn insert_relation(rel: &str) -> (r: TxStmt)
        ensures
            r.sql_view() == "INSERT RELATION INTO $rel $data;"@,
            r.binding_seq().len() == 1,
            r.binds("rel"@, BindView::Table(rel@)),
    {
        let r = TxStmt::with_bindings(
            String::from_str("INSERT RELATION INTO $rel $data;"),
            vec![(String::from_str("rel"), Bind::Table(rel.to_owned()))],
        );
        assert(r.binding_seq()[0].0@ == "rel"@);
        r
    }
}

} // verus!
