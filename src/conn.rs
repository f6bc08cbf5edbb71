//! The connection lifecycle: open options, the set-once slot that holds the
//! shared handle, and the recovery from a stale lock left by a crashed process.
use vstd::prelude::*;
use std::time::Duration;
use crate::error::DBError;

verus! {

/// How the embedded store is opened.
#[derive(Debug, Clone)]
pub struct InitDbOptions {
    pub versioned: bool,
    pub version_retention: Option<Duration>,
    pub query_timeout: Option<Duration>,
    pub transaction_timeout: Option<Duration>,
    pub changefeed_gc_interval: Option<Duration>,
    pub ast_payload: bool,
}

impl Default for InitDbOptions {
    /// No versioning, no timeouts, no retention, no payload trees.
    fn default() -> (r: Self)
        ensures
            !r.versioned,
            r.version_retention is None,
            r.query_timeout is None,
            r.transaction_timeout is None,
            r.changefeed_gc_interval is None,
            !r.ast_payload,
    {
        InitDbOptions {
            versioned: false,
            version_retention: None,
            query_timeout: None,
            transaction_timeout: None,
            changefeed_gc_interval: None,
            ast_payload: false,
        }
    }
}

impl InitDbOptions {
    /// Keep old versions of records.
    pub fn versioned(self, enabled: bool) -> (r: Self)
        ensures
            r == (InitDbOptions { versioned: enabled, ..self }),
    {
        InitDbOptions { versioned: enabled, ..self }
    }

    /// How long old versions are kept.
    pub fn version_retention(self, duration: Option<Duration>) -> (r: Self)
        ensures
            r == (InitDbOptions { version_retention: duration, ..self }),
    {
        InitDbOptions { version_retention: duration, ..self }
    }

    /// The longest a query may run.
    pub fn query_timeout(self, duration: Option<Duration>) -> (r: Self)
        ensures
            r == (InitDbOptions { query_timeout: duration, ..self }),
    {
        InitDbOptions { query_timeout: duration, ..self }
    }

    /// The longest a transaction may run.
    pub fn transaction_timeout(self, duration: Option<Duration>) -> (r: Self)
        ensures
            r == (InitDbOptions { transaction_timeout: duration, ..self }),
    {
        InitDbOptions { transaction_timeout: duration, ..self }
    }

    /// How often the change feed is collected.
    pub fn changefeed_gc_interval(self, duration: Option<Duration>) -> (r: Self)
        ensures
            r == (InitDbOptions { changefeed_gc_interval: duration, ..self }),
    {
        InitDbOptions { changefeed_gc_interval: duration, ..self }
    }

    /// Return parsed statement trees with responses.
    pub fn ast_payload(self, enabled: bool) -> (r: Self)
        ensures
            r == (InitDbOptions { ast_payload: enabled, ..self }),
    {
        InitDbOptions { ast_payload: enabled, ..self }
    }
}

/// What setting a slot that holds `content` answers.
pub open spec fn set_outcome<H>(content: Option<H>) -> Result<(), DBError> {
    if content is Some {
        Err(DBError::AlreadyInitialized)
    } else {
        Ok(())
    }
}

/// What a slot that holds `content` holds after being set to `h`.
pub open spec fn after_set<H>(content: Option<H>, h: H) -> Option<H> {
    if content is Some {
        content
    } else {
        Some(h)
    }
}

/// What reading a slot that holds `content` answers.
pub open spec fn get_outcome<H>(content: Option<H>) -> Result<H, DBError> {
    match content {
        Some(h) => Ok(h),
        None => Err(DBError::NotInitialized),
    }
}

/// The place of the shared store handle: set at most once, then read by
/// every operation.
pub struct DbSlot<H> {
    handle: Option<H>,
}

impl<H> DbSlot<H> {
    /// What the slot holds.
    pub closed spec fn content(&self) -> Option<H> {
        self.handle
    }

    /// An empty slot.
    pub fn new() -> (r: Self)
        ensures
            r.content() is None,
    {
        DbSlot { handle: None }
    }

    /// Whether a handle has been published.
    pub fn is_initialized(&self) -> (r: bool)
        ensures
            r == self.content() is Some,
    {
        self.handle.is_some()
    }

    /// Publishes `h`; a slot that holds a handle keeps it and answers
    /// "already initialized".
    pub fn set(&mut self, h: H) -> (r: Result<(), DBError>)
        ensures
            r == set_outcome(old(self).content()),
            final(self).content() == after_set(old(self).content(), h),
    {
        if self.handle.is_some() {
            Err(DBError::AlreadyInitialized)
        } else {
            self.handle = Some(h);
            Ok(())
        }
    }

    /// The published handle, or "not initialized".
    pub fn get(&self) -> (r: Result<&H, DBError>)
        ensures
            match self.content() {
                Some(h) => r == Ok::<&H, DBError>(&h),
                None => r == Err::<&H, DBError>(DBError::NotInitialized),
            },
    {
        match &self.handle {
            Some(h) => Ok(h),
            None => Err(DBError::NotInitialized),
        }
    }
}

/// Initialization is single-shot: reading before any publication answers
/// "not initialized", and once a handle is published a second publication
/// answers "already initialized" and leaves the first handle in place.
pub proof fn lemma_single_shot_init<H>(first: H, second: H)
    ensures
        get_outcome::<H>(None) == Err::<H, DBError>(DBError::NotInitialized),
        set_outcome::<H>(None) == Ok::<(), DBError>(()),
        set_outcome(after_set(None, first)) == Err::<(), DBError>(DBError::AlreadyInitialized),
        after_set(after_set(None, first), second) == Some(first),
        get_outcome(after_set(after_set(None, first), second)) == Ok::<H, DBError>(first),
{
}

} // verus!
