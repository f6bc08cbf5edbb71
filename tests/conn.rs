use std::time::Duration;

use appdb::conn::{DbSlot, InitDbOptions};
use appdb::error::DBError;
use appdb::init::{InitAction, InitEvent, InitPhase, InitRun};
use appdb::lock::{lock_is_stale, parse_lock_owner};

#[test]
fn default_init_options_are_non_versioned() {
    let options = InitDbOptions::default();
    assert!(!options.versioned);
    assert!(options.version_retention.is_none());
    assert!(options.query_timeout.is_none());
    assert!(options.transaction_timeout.is_none());
    assert!(options.changefeed_gc_interval.is_none());
    assert!(!options.ast_payload);
}

#[test]
fn init_options_builders_override_values() {
    let options = InitDbOptions::default()
        .versioned(true)
        .version_retention(Some(Duration::from_secs(60)))
        .query_timeout(Some(Duration::from_secs(3)))
        .transaction_timeout(Some(Duration::from_secs(9)))
        .changefeed_gc_interval(Some(Duration::from_secs(30)))
        .ast_payload(true);

    assert!(options.versioned);
    assert_eq!(options.version_retention, Some(Duration::from_secs(60)));
    assert_eq!(options.query_timeout, Some(Duration::from_secs(3)));
    assert_eq!(options.transaction_timeout, Some(Duration::from_secs(9)));
    assert_eq!(
        options.changefeed_gc_interval,
        Some(Duration::from_secs(30))
    );
    assert!(options.ast_payload);
}

#[test]
fn get_before_init_is_not_initialized() {
    let slot: DbSlot<u32> = DbSlot::new();
    assert!(!slot.is_initialized());
    assert_eq!(slot.get(), Err(DBError::NotInitialized));
}

#[test]
fn second_set_is_already_initialized_and_keeps_first() {
    let mut slot: DbSlot<u32> = DbSlot::new();
    assert_eq!(slot.set(7), Ok(()));
    assert_eq!(slot.set(9), Err(DBError::AlreadyInitialized));
    assert_eq!(slot.get(), Ok(&7));
}

#[test]
fn init_on_initialized_slot_finishes_already_initialized() {
    let (run, action) = InitRun::start(true, 3);
    assert_eq!(run.phase, InitPhase::Finished);
    assert_eq!(action, InitAction::Finish(Err(DBError::AlreadyInitialized)));
}

#[test]
fn init_happy_path_applies_every_fragment() {
    let (run, action) = InitRun::start(false, 2);
    assert_eq!(action, InitAction::OpenStore);
    let (run, action) = run.step(InitEvent::Opened);
    assert_eq!(action, InitAction::SelectNamespace);
    let (run, action) = run.step(InitEvent::NamespaceSelected);
    assert_eq!(action, InitAction::PublishHandle);
    let (run, action) = run.step(InitEvent::Published);
    assert_eq!(action, InitAction::ApplyDdl(0));
    let (run, action) = run.step(InitEvent::DdlFailed(
        "The table 'user' Already Exists".to_owned(),
    ));
    assert_eq!(action, InitAction::ApplyDdl(1));
    let (run, action) = run.step(InitEvent::DdlApplied);
    assert_eq!(action, InitAction::Finish(Ok(())));
    assert_eq!(run.phase, InitPhase::Finished);
}

#[test]
fn init_fails_hard_on_other_ddl_error() {
    let (run, _) = InitRun::start(false, 1);
    let (run, _) = run.step(InitEvent::Opened);
    let (run, _) = run.step(InitEvent::NamespaceSelected);
    let (run, _) = run.step(InitEvent::Published);
    let (_, action) = run.step(InitEvent::DdlFailed("Parse error".to_owned()));
    assert_eq!(
        action,
        InitAction::Finish(Err(DBError::QueryResponse("Parse error".to_owned())))
    );
}

#[test]
fn init_publish_race_is_already_initialized() {
    let (run, _) = InitRun::start(false, 0);
    let (run, _) = run.step(InitEvent::Opened);
    let (run, _) = run.step(InitEvent::NamespaceSelected);
    let (_, action) = run.step(InitEvent::PublishRefused);
    assert_eq!(action, InitAction::Finish(Err(DBError::AlreadyInitialized)));
}

#[test]
fn stale_lock_is_removed_and_open_retried_once() {
    // The lock names a process that is not running.
    assert!(lock_is_stale("4242\n", false));
    let (run, _) = InitRun::start(false, 0);
    let (run, action) = run.step(InitEvent::OpenFailed("locked".to_owned()));
    assert_eq!(action, InitAction::ClearStaleLock);
    let (run, action) = run.step(InitEvent::LockChecked { removed: true });
    assert_eq!(action, InitAction::OpenStore);
    assert_eq!(run.phase, InitPhase::Reopening);
    let (run, action) = run.step(InitEvent::Opened);
    assert_eq!(action, InitAction::SelectNamespace);
    let (_, action) = run.step(InitEvent::NamespaceSelected);
    assert_eq!(action, InitAction::PublishHandle);
}

#[test]
fn live_lock_is_kept_and_first_error_surfaces() {
    // The lock names a running process.
    assert!(!lock_is_stale("4242", true));
    let (run, _) = InitRun::start(false, 0);
    let (run, _) = run.step(InitEvent::OpenFailed("locked".to_owned()));
    let (_, action) = run.step(InitEvent::LockChecked { removed: false });
    assert_eq!(
        action,
        InitAction::Finish(Err(DBError::Surreal("locked".to_owned())))
    );
}

#[test]
fn failed_retry_surfaces_first_error() {
    let (run, _) = InitRun::start(false, 0);
    let (run, _) = run.step(InitEvent::OpenFailed("first".to_owned()));
    let (run, _) = run.step(InitEvent::LockChecked { removed: true });
    let (run, action) = run.step(InitEvent::OpenFailed("second".to_owned()));
    assert_eq!(action, InitAction::Finish(Err(DBError::Surreal("first".to_owned()))));
    assert_eq!(run.phase, InitPhase::Finished);
}

#[test]
fn lock_owner_parsing() {
    assert_eq!(parse_lock_owner("  1234 \n"), Some(1234));
    assert_eq!(parse_lock_owner("+17"), Some(17));
    assert_eq!(parse_lock_owner("4294967295"), Some(u32::MAX));
    assert_eq!(parse_lock_owner("4294967296"), None);
    assert_eq!(parse_lock_owner(""), None);
    assert_eq!(parse_lock_owner("+"), None);
    assert_eq!(parse_lock_owner("-1"), None);
    assert_eq!(parse_lock_owner("12a"), None);
    // Unreadable or garbled lock text names no process: the lock is stale.
    assert!(lock_is_stale("garbage", true));
}
