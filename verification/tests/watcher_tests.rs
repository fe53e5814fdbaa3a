use polkabind::errors::Failure;
use polkabind::watcher::{watch, TransactionOutcome, WatchEvent, Watcher};

#[test]
fn happy_path_finalizes_successfully() {
    let r = watch(vec![WatchEvent::InBlock, WatchEvent::FinalizedOk]);
    assert_eq!(r, Ok(TransactionOutcome::FinalizedSuccess));
}

#[test]
fn dispatch_failure_is_a_finalized_failure_not_a_connection_error() {
    let r = watch(vec![
        WatchEvent::InBlock,
        WatchEvent::FinalizedFail("insufficient balance".to_string()),
    ]);
    assert_eq!(
        r,
        Ok(TransactionOutcome::FinalizedFailure("insufficient balance".to_string()))
    );
}

#[test]
fn rejection_before_inclusion_is_terminal() {
    let r = watch(vec![WatchEvent::Rejected("invalid transaction".to_string())]);
    assert_eq!(
        r,
        Ok(TransactionOutcome::RejectedBeforeInclusion("invalid transaction".to_string()))
    );
}

#[test]
fn timeout_before_terminal_is_a_finalization_failure() {
    assert_eq!(watch(vec![WatchEvent::TimedOut]), Err(Failure::Finalization));
    assert_eq!(
        watch(vec![WatchEvent::InBlock, WatchEvent::TimedOut]),
        Err(Failure::Finalization)
    );
}

#[test]
fn exhausted_events_without_terminal_state_report_failure() {
    assert_eq!(watch(vec![]), Err(Failure::Finalization));
    assert_eq!(watch(vec![WatchEvent::InBlock]), Err(Failure::Finalization));
}

#[test]
fn success_cannot_skip_inclusion() {
    // A finalization event while still merely submitted fits no edge of the
    // machine: it is ignored, and no terminal state is ever reached.
    assert_eq!(watch(vec![WatchEvent::FinalizedOk]), Err(Failure::Finalization));
}

#[test]
fn terminal_outcome_absorbs_later_events() {
    let r = watch(vec![
        WatchEvent::InBlock,
        WatchEvent::FinalizedOk,
        WatchEvent::FinalizedFail("late".to_string()),
    ]);
    assert_eq!(r, Ok(TransactionOutcome::FinalizedSuccess));
}

#[test]
fn incremental_watcher_follows_the_machine() {
    let mut w = Watcher::new();
    assert_eq!(*w.state(), TransactionOutcome::Submitted);
    assert!(!w.done());

    w.on_event(WatchEvent::FinalizedOk);
    assert_eq!(*w.state(), TransactionOutcome::Submitted);

    w.on_event(WatchEvent::InBlock);
    assert_eq!(*w.state(), TransactionOutcome::IncludedInBlock);
    assert!(!w.done());

    w.on_event(WatchEvent::FinalizedOk);
    assert_eq!(*w.state(), TransactionOutcome::FinalizedSuccess);
    assert!(w.done());

    w.on_event(WatchEvent::Rejected("late".to_string()));
    assert_eq!(*w.state(), TransactionOutcome::FinalizedSuccess);
}
