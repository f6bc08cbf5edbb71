use appdb::bulk::{concat_chunks, split_chunks, INSERT_CHUNK_SIZE};
use appdb::tx::{TxAction, TxEvent, TxOutcome, TxPhase, TxRunner};
use appdb::error::DBError;

fn lengths(parts: &[Vec<u32>]) -> Vec<usize> {
    parts.iter().map(|p| p.len()).collect()
}

#[test]
fn chunks_of_edge_lengths() {
    let size = INSERT_CHUNK_SIZE;
    for n in [0usize, 1, size - 1, size, size + 1, 3 * size] {
        let data: Vec<u32> = (0..n as u32).collect();
        let parts = split_chunks(data.clone(), size);
        assert_eq!(parts.len(), n.div_ceil(size));
        assert!(parts.iter().all(|p| !p.is_empty() && p.len() <= size));
        assert_eq!(concat_chunks(parts), data);
    }
}

#[test]
fn chunks_keep_order() {
    let parts = split_chunks(vec![1u32, 2, 3, 4, 5], 2);
    assert_eq!(parts, vec![vec![1, 2], vec![3, 4], vec![5]]);
    assert_eq!(lengths(&parts), vec![2, 2, 1]);
    assert_eq!(concat_chunks(parts), vec![1, 2, 3, 4, 5]);
}

#[test]
fn transaction_runs_in_order_and_commits() {
    let (run, action) = TxRunner::start(2);
    assert_eq!(action, TxAction::Begin);
    let (run, action) = run.step(TxEvent::Begun);
    assert_eq!(action, TxAction::Execute(0));
    let (run, action) = run.step(TxEvent::Executed);
    assert_eq!(action, TxAction::Execute(1));
    let (run, action) = run.step(TxEvent::Executed);
    assert_eq!(action, TxAction::Commit);
    let (run, action) = run.step(TxEvent::Committed);
    assert_eq!(action, TxAction::Finish(Ok(TxOutcome::LastResult(1))));
    assert_eq!(run.phase, TxPhase::Finished);
}

#[test]
fn transaction_failure_in_second_statement_never_commits() {
    // update task, delete old edges (fails: relation table missing), insert new edge
    let (run, _) = TxRunner::start(3);
    let (run, _) = run.step(TxEvent::Begun);
    let (run, action) = run.step(TxEvent::Executed);
    assert_eq!(action, TxAction::Execute(1));
    let (run, action) = run.step(TxEvent::ExecFailed(
        "The table 'task_assignment' does not exist".to_owned(),
    ));
    assert_eq!(
        action,
        TxAction::Finish(Err(DBError::QueryResponse(
            "The table 'task_assignment' does not exist".to_owned()
        )))
    );
    assert_eq!(run.phase, TxPhase::Finished);
    // Nothing reported afterwards leads to a commit.
    let (_, action) = run.step(TxEvent::Executed);
    assert!(matches!(action, TxAction::Finish(Err(_))));
}

#[test]
fn empty_transaction_commits_and_answers_marker() {
    let (run, _) = TxRunner::start(0);
    let (run, action) = run.step(TxEvent::Begun);
    assert_eq!(action, TxAction::Commit);
    let (_, action) = run.step(TxEvent::Committed);
    assert_eq!(action, TxAction::Finish(Ok(TxOutcome::Empty)));
}

#[test]
fn single_statement_run_answers_its_result() {
    // a single `RETURN $v;` statement: the run answers its result
    let (run, _) = TxRunner::start(1);
    let (run, action) = run.step(TxEvent::Begun);
    assert_eq!(action, TxAction::Execute(0));
    let (run, action) = run.step(TxEvent::Executed);
    assert_eq!(action, TxAction::Commit);
    let (_, action) = run.step(TxEvent::Committed);
    assert_eq!(action, TxAction::Finish(Ok(TxOutcome::LastResult(0))));
}
