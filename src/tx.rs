//! The transaction runner as a sequence of decisions: begin, execute each
//! statement in order, commit. A failure anywhere ends the run before the
//! commit, so the store discards the transaction.
use vstd::prelude::*;
use crate::error::DBError;

verus! {

/// Where a transaction run stands.
#[derive(Debug, Clone, Copy, PartialEq, Eq)]
pub enum TxPhase {
    Beginning,
    /// Statement `i` is executing; statements before it succeeded.
    Running(usize),
    Committing,
    Finished,
}

/// What the caller reports after performing an action.
#[derive(Debug, Clone, PartialEq, Eq)]
pub enum TxEvent {
    Begun,
    BeginFailed(String),
    Executed,
    ExecFailed(String),
    Committed,
    CommitFailed(String),
}

/// Which result a successful run answers.
#[derive(Debug, Clone, Copy, PartialEq, Eq)]
pub enum TxOutcome {
    /// The result set of the statement at this position, the last one.
    LastResult(usize),
    /// There was no statement: the empty-result marker.
    Empty,
}

/// What the caller does next.
#[derive(Debug, PartialEq, Eq)]
pub enum TxAction {
    Begin,
    Execute(usize),
    Commit,
    Finish(Result<TxOutcome, DBError>),
}

/// One transaction run over `n_stmts` statements.
#[derive(Debug, Clone, Copy, PartialEq, Eq)]
pub struct TxRunner {
    pub phase: TxPhase,
    pub n_stmts: usize,
}

/// The run after finishing.
pub open spec fn tx_finished(run: TxRunner) -> TxRunner {
    TxRunner { phase: TxPhase::Finished, ..run }
}

/// The result of a committed run.
pub open spec fn committed_outcome(n_stmts: usize) -> TxOutcome {
    if n_stmts == 0 {
        TxOutcome::Empty
    } else {
        TxOutcome::LastResult((n_stmts - 1) as usize)
    }
}

/// The step after statement `i` succeeded.
pub open spec fn after_exec(run: TxRunner, i: usize) -> (TxRunner, TxAction) {
    if i + 1 == run.n_stmts {
        (TxRunner { phase: TxPhase::Committing, ..run }, TxAction::Commit)
    } else if i + 1 < run.n_stmts {
        (TxRunner { phase: TxPhase::Running((i + 1) as usize), ..run }, TxAction::Execute((i + 1) as usize))
    } else {
        (tx_finished(run), TxAction::Finish(Err(DBError::EmptyResult("transaction"))))
    }
}

/// The transition of a run on one event. An event that the phase does not
/// expect ends the run without a commit.
pub open spec fn tx_next(run: TxRunner, ev: TxEvent) -> (TxRunner, TxAction) {
    match (run.phase, ev) {
        (TxPhase::Beginning, TxEvent::Begun) => if run.n_stmts == 0 {
            (TxRunner { phase: TxPhase::Committing, ..run }, TxAction::Commit)
        } else {
            (TxRunner { phase: TxPhase::Running(0), ..run }, TxAction::Execute(0))
        },
        (TxPhase::Beginning, TxEvent::BeginFailed(m)) => (
            tx_finished(run),
            TxAction::Finish(Err(DBError::Surreal(m))),
        ),
        (TxPhase::Running(i), TxEvent::Executed) => after_exec(run, i),
        (TxPhase::Running(_), TxEvent::ExecFailed(m)) => (
            tx_finished(run),
            TxAction::Finish(Err(DBError::QueryResponse(m))),
        ),
        (TxPhase::Committing, TxEvent::Committed) => (
            tx_finished(run),
            TxAction::Finish(Ok(committed_outcome(run.n_stmts))),
        ),
        (TxPhase::Committing, TxEvent::CommitFailed(m)) => (
            tx_finished(run),
            TxAction::Finish(Err(DBError::Surreal(m))),
        ),
        _ => (tx_finished(run), TxAction::Finish(Err(DBError::EmptyResult("transaction")))),
    }
}

impl TxRunner {
    /// Starts a run over `n_stmts` statements: first begin the transaction.
    pub fn start(n_stmts: usize) -> (r: (TxRunner, TxAction))
        ensures
            r == (TxRunner { phase: TxPhase::Beginning, n_stmts }, TxAction::Begin),
    {
        (TxRunner { phase: TxPhase::Beginning, n_stmts }, TxAction::Begin)
    }

    fn finish(self, result: Result<TxOutcome, DBError>) -> (r: (TxRunner, TxAction))
        ensures
            r == (tx_finished(self), TxAction::Finish(result)),
    {
        (TxRunner { phase: TxPhase::Finished, ..self }, TxAction::Finish(result))
    }

    /// The next state and action after `ev`.
    pub fn step(self, ev: TxEvent) -> (r: (TxRunner, TxAction))
        ensures
            r == tx_next(self, ev),
    {
        match (self.phase, ev) {
            (TxPhase::Beginning, TxEvent::Begun) => {
                if self.n_stmts == 0 {
                    (TxRunner { phase: TxPhase::Committing, ..self }, TxAction::Commit)
                } else {
                    (TxRunner { phase: TxPhase::Running(0), ..self }, TxAction::Execute(0))
                }
            },
            (TxPhase::Beginning, TxEvent::BeginFailed(m)) => self.finish(Err(DBError::Surreal(m))),
            (TxPhase::Running(i), TxEvent::Executed) => {
                if i >= self.n_stmts {
                    self.finish(Err(DBError::EmptyResult("transaction")))
                } else if self.n_stmts - i == 1 {
                    (TxRunner { phase: TxPhase::Committing, ..self }, TxAction::Commit)
                } else {
                    (TxRunner { phase: TxPhase::Running(i + 1), ..self }, TxAction::Execute(i + 1))
                }
            },
            (TxPhase::Running(_), TxEvent::ExecFailed(m)) => self.finish(
                Err(DBError::QueryResponse(m)),
            ),
            (TxPhase::Committing, TxEvent::Committed) => {
                let outcome = if self.n_stmts == 0 {
                    TxOutcome::Empty
                } else {
                    TxOutcome::LastResult(self.n_stmts - 1)
                };
                self.finish(Ok(outcome))
            },
            (TxPhase::Committing, TxEvent::CommitFailed(m)) => self.finish(
                Err(DBError::Surreal(m)),
            ),
            _ => self.finish(Err(DBError::EmptyResult("transaction"))),
        }
    }
}

/// The commit is asked for only once every statement has succeeded: right
/// after the last statement executed, or right after the begin when there is
/// no statement.
pub proof fn lemma_commit_only_after_all_executed(run: TxRunner, ev: TxEvent)
    ensures
        tx_next(run, ev).1 == TxAction::Commit ==> ((run.n_stmts > 0 && run.phase
            == TxPhase::Running((run.n_stmts - 1) as usize) && ev == TxEvent::Executed) || (
        run.n_stmts == 0 && run.phase == TxPhase::Beginning && ev == TxEvent::Begun)),
{
}

/// A failing statement ends the run with its error, and a finished run never
/// asks for a commit or another statement, whatever is reported after.
pub proof fn lemma_failure_never_commits(run: TxRunner, i: usize, m: String, later: TxEvent)
    requires
        run.phase == TxPhase::Running(i),
    ensures
        tx_next(run, TxEvent::ExecFailed(m)) == (
            tx_finished(run),
            TxAction::Finish(Err(DBError::QueryResponse(m))),
        ),
        tx_next(tx_finished(run), later).1 matches TxAction::Finish(Err(_)),
{
}

/// Statements execute strictly in order: after statement `i` succeeds, the
/// next action is statement `i + 1` or, after the last, the commit.
pub proof fn lemma_statements_in_order(run: TxRunner, i: usize)
    requires
        run.phase == TxPhase::Running(i),
        i < run.n_stmts,
    ensures
        i + 1 < run.n_stmts ==> tx_next(run, TxEvent::Executed).1 == TxAction::Execute(
            (i + 1) as usize,
        ),
        i + 1 == run.n_stmts ==> tx_next(run, TxEvent::Executed).1 == TxAction::Commit,
{
}

} // verus!
