//! Store initialization as a sequence of decisions. The caller performs each
//! action (open the store, clear a stale lock, select the namespace, publish
//! the handle, apply one DDL fragment) and reports what happened.
use vstd::prelude::*;
use crate::error::DBError;
use crate::schema::{already_defined, is_schema_already_defined_error};

verus! {

/// Where an initialization stands.
#[derive(Debug, Clone, Copy, PartialEq, Eq)]
pub enum InitPhase {
    /// The first attempt to open the store.
    Opening,
    /// The first attempt failed; the lock is being checked.
    CheckingLock,
    /// A stale lock was removed; the one retry is running.
    Reopening,
    /// The namespace and database are being selected.
    SelectingNamespace,
    /// The handle is being published.
    Publishing,
    /// DDL fragment `i` is being applied.
    ApplyingSchema(usize),
    /// Nothing remains to do.
    Finished,
}

/// What the caller reports after performing an action.
#[derive(Debug, Clone, PartialEq, Eq)]
pub enum InitEvent {
    Opened,
    OpenFailed(String),
    /// The lock check ended; `removed` says whether a stale lock was removed.
    LockChecked { removed: bool },
    NamespaceSelected,
    NamespaceFailed(String),
    Published,
    /// The slot held a handle already.
    PublishRefused,
    DdlApplied,
    DdlFailed(String),
}

/// What the caller does next.
#[derive(Debug, PartialEq, Eq)]
pub enum InitAction {
    OpenStore,
    /// Remove the lock file if the process that it names is not running,
    /// and report whether it was removed.
    ClearStaleLock,
    SelectNamespace,
    PublishHandle,
    ApplyDdl(usize),
    Finish(Result<(), DBError>),
}

/// One initialization in progress.
#[derive(Debug, Clone, PartialEq, Eq)]
pub struct InitRun {
    pub phase: InitPhase,
    /// How many DDL fragments are applied after publication.
    pub n_ddl: usize,
    /// The failure of the first attempt to open, kept for the caller.
    pub first_error: Option<String>,
}

/// The state after finishing; the kept failure has been handed out.
pub open spec fn finished(run: InitRun) -> InitRun {
    InitRun { phase: InitPhase::Finished, n_ddl: run.n_ddl, first_error: None }
}

/// The step after DDL fragment `i` has been applied (or was there already).
pub open spec fn after_ddl(run: InitRun, i: usize) -> (InitRun, InitAction) {
    if i + 1 >= run.n_ddl {
        (finished(run), InitAction::Finish(Ok(())))
    } else {
        (InitRun { phase: InitPhase::ApplyingSchema((i + 1) as usize), ..run }, InitAction::ApplyDdl((i + 1) as usize))
    }
}

/// The error of a failed open: the first attempt's failure, else `fallback`.
pub open spec fn open_error(run: InitRun, fallback: DBError) -> DBError {
    match run.first_error {
        Some(m) => DBError::Surreal(m),
        None => fallback,
    }
}

/// The transition of an initialization on one event. An event that the phase
/// does not expect ends the run as not initialized.
pub open spec fn init_next(run: InitRun, ev: InitEvent) -> (InitRun, InitAction) {
    match (run.phase, ev) {
        (InitPhase::Opening, InitEvent::Opened) => (
            InitRun { phase: InitPhase::SelectingNamespace, ..run },
            InitAction::SelectNamespace,
        ),
        (InitPhase::Opening, InitEvent::OpenFailed(m)) => (
            InitRun { phase: InitPhase::CheckingLock, first_error: Some(m), ..run },
            InitAction::ClearStaleLock,
        ),
        (InitPhase::CheckingLock, InitEvent::LockChecked { removed }) => if removed {
            (InitRun { phase: InitPhase::Reopening, ..run }, InitAction::OpenStore)
        } else {
            (finished(run), InitAction::Finish(Err(open_error(run, DBError::NotInitialized))))
        },
        (InitPhase::Reopening, InitEvent::Opened) => (
            InitRun { phase: InitPhase::SelectingNamespace, ..run },
            InitAction::SelectNamespace,
        ),
        (InitPhase::Reopening, InitEvent::OpenFailed(m)) => (
            finished(run),
            InitAction::Finish(Err(open_error(run, DBError::Surreal(m)))),
        ),
        (InitPhase::SelectingNamespace, InitEvent::NamespaceSelected) => (
            InitRun { phase: InitPhase::Publishing, ..run },
            InitAction::PublishHandle,
        ),
        (InitPhase::SelectingNamespace, InitEvent::NamespaceFailed(m)) => (
            finished(run),
            InitAction::Finish(Err(DBError::Surreal(m))),
        ),
        (InitPhase::Publishing, InitEvent::Published) => if run.n_ddl == 0 {
            (finished(run), InitAction::Finish(Ok(())))
        } else {
            (InitRun { phase: InitPhase::ApplyingSchema(0), ..run }, InitAction::ApplyDdl(0))
        },
        (InitPhase::Publishing, InitEvent::PublishRefused) => (
            finished(run),
            InitAction::Finish(Err(DBError::AlreadyInitialized)),
        ),
        (InitPhase::ApplyingSchema(i), InitEvent::DdlApplied) => after_ddl(run, i),
        (InitPhase::ApplyingSchema(i), InitEvent::DdlFailed(m)) => if already_defined(m@) {
            after_ddl(run, i)
        } else {
            (finished(run), InitAction::Finish(Err(DBError::QueryResponse(m))))
        },
        _ => (finished(run), InitAction::Finish(Err(DBError::NotInitialized))),
    }
}

impl InitRun {
    /// Starts an initialization that will apply `n_ddl` fragments. Where the
    /// slot already holds a handle, it ends at once as already initialized.
    pub fn start(already_initialized: bool, n_ddl: usize) -> (r: (InitRun, InitAction))
        ensures
            already_initialized ==> r.0.phase == InitPhase::Finished && r.1 == InitAction::Finish(
                Err(DBError::AlreadyInitialized),
            ),
            !already_initialized ==> r.0.phase == InitPhase::Opening && r.1 == InitAction::OpenStore,
            r.0.n_ddl == n_ddl,
            r.0.first_error is None,
    {
        if already_initialized {
            (
                InitRun { phase: InitPhase::Finished, n_ddl, first_error: None },
                InitAction::Finish(Err(DBError::AlreadyInitialized)),
            )
        } else {
            (InitRun { phase: InitPhase::Opening, n_ddl, first_error: None }, InitAction::OpenStore)
        }
    }

    fn finish(self, result: Result<(), DBError>) -> (r: (InitRun, InitAction))
        ensures
            r == (finished(self), InitAction::Finish(result)),
    {
        (InitRun { phase: InitPhase::Finished, n_ddl: self.n_ddl, first_error: None }, InitAction::Finish(result))
    }

    fn fail_open(self, fallback: DBError) -> (r: (InitRun, InitAction))
        ensures
            r == (finished(self), InitAction::Finish(Err(open_error(self, fallback)))),
    {
        let n_ddl = self.n_ddl;
        let e = match self.first_error {
            Some(m) => DBError::Surreal(m),
            None => fallback,
        };
        (InitRun { phase: InitPhase::Finished, n_ddl, first_error: None }, InitAction::Finish(Err(e)))
    }

    fn ddl_done(self, i: usize) -> (r: (InitRun, InitAction))
        ensures
            r == after_ddl(self, i),
    {
        if i >= self.n_ddl || self.n_ddl - i <= 1 {
            self.finish(Ok(()))
        } else {
            (
                InitRun { phase: InitPhase::ApplyingSchema(i + 1), ..self },
                InitAction::ApplyDdl(i + 1),
            )
        }
    }

    /// The next state and action after `ev`.
    pub fn step(self, ev: InitEvent) -> (r: (InitRun, InitAction))
        ensures
            r == init_next(self, ev),
    {
        match (self.phase, ev) {
            (InitPhase::Opening, InitEvent::Opened) => (
                InitRun { phase: InitPhase::SelectingNamespace, ..self },
                InitAction::SelectNamespace,
            ),
            (InitPhase::Opening, InitEvent::OpenFailed(m)) => (
                InitRun { phase: InitPhase::CheckingLock, first_error: Some(m), ..self },
                InitAction::ClearStaleLock,
            ),
            (InitPhase::CheckingLock, InitEvent::LockChecked { removed }) => {
                if removed {
                    (InitRun { phase: InitPhase::Reopening, ..self }, InitAction::OpenStore)
                } else {
                    self.fail_open(DBError::NotInitialized)
                }
            },
            (InitPhase::Reopening, InitEvent::Opened) => (
                InitRun { phase: InitPhase::SelectingNamespace, ..self },
                InitAction::SelectNamespace,
            ),
            (InitPhase::Reopening, InitEvent::OpenFailed(m)) => self.fail_open(DBError::Surreal(m)),
            (InitPhase::SelectingNamespace, InitEvent::NamespaceSelected) => (
                InitRun { phase: InitPhase::Publishing, ..self },
                InitAction::PublishHandle,
            ),
            (InitPhase::SelectingNamespace, InitEvent::NamespaceFailed(m)) => self.finish(
                Err(DBError::Surreal(m)),
            ),
            (InitPhase::Publishing, InitEvent::Published) => {
                if self.n_ddl == 0 {
                    self.finish(Ok(()))
                } else {
                    (InitRun { phase: InitPhase::ApplyingSchema(0), ..self }, InitAction::ApplyDdl(0))
                }
            },
            (InitPhase::Publishing, InitEvent::PublishRefused) => self.finish(
                Err(DBError::AlreadyInitialized),
            ),
            (InitPhase::ApplyingSchema(i), InitEvent::DdlApplied) => self.ddl_done(i),
            (InitPhase::ApplyingSchema(i), InitEvent::DdlFailed(m)) => {
                if is_schema_already_defined_error(m.as_str()) {
                    self.ddl_done(i)
                } else {
                    self.finish(Err(DBError::QueryResponse(m)))
                }
            },
            _ => self.finish(Err(DBError::NotInitialized)),
        }
    }
}

/// A failed first open leads to a lock check. A lock that was not removed
/// ends the run with the first failure. After a stale lock was removed the
/// open is retried exactly once, and a failed retry also ends with the first
/// failure.
pub proof fn lemma_stale_lock_retry_once(n_ddl: usize, first: String, second: String)
    ensures
        ({
            let run = InitRun { phase: InitPhase::Opening, n_ddl, first_error: None };
            let (checking, act) = init_next(run, InitEvent::OpenFailed(first));
            &&& act == InitAction::ClearStaleLock
            &&& init_next(checking, InitEvent::LockChecked { removed: false }).1
                == InitAction::Finish(Err(DBError::Surreal(first)))
            &&& init_next(checking, InitEvent::LockChecked { removed: true }).1
                == InitAction::OpenStore
            &&& init_next(
                init_next(checking, InitEvent::LockChecked { removed: true }).0,
                InitEvent::OpenFailed(second),
            ).1 == InitAction::Finish(Err(DBError::Surreal(first)))
            &&& init_next(
                init_next(checking, InitEvent::LockChecked { removed: true }).0,
                InitEvent::OpenFailed(second),
            ).0.phase == InitPhase::Finished
        }),
{
}

/// Initialization reports success only on publication of the handle, when no
/// fragment is left, or on the last fragment being applied or found in place.
pub proof fn lemma_init_ok_only_when_complete(run: InitRun, ev: InitEvent)
    ensures
        init_next(run, ev).1 == InitAction::Finish(Ok(())) ==> ((run.phase == InitPhase::Publishing
            && ev == InitEvent::Published && run.n_ddl == 0) || exists|i: usize|
            run.phase == InitPhase::ApplyingSchema(i) && i + 1 >= run.n_ddl && (ev
                == InitEvent::DdlApplied || (ev matches InitEvent::DdlFailed(m) && already_defined(
                m@,
            )))),
{
    if init_next(run, ev).1 == InitAction::Finish(Ok(())) {
        match run.phase {
            InitPhase::ApplyingSchema(i) => {
                assert(i + 1 >= run.n_ddl);
            },
            _ => {},
        }
    }
}

} // verus!
