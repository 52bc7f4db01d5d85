use torrent_core::error::{StorageSite, TorrentError};
use torrent_core::workflow::{Action, Outcome, Step, Workflow, WorkflowKind};

fn run(kind: WorkflowKind, outcomes: &[Outcome]) -> Vec<Action> {
    let (mut w, first) = Workflow::start(kind);
    let mut actions = vec![first];
    for o in outcomes {
        let a = w.advance(*o);
        actions.push(a);
        if !matches!(a, Action::Run(_)) {
            break;
        }
    }
    actions
}

#[test]
fn removal_fails_at_notification_without_archiving() {
    let a = run(WorkflowKind::Remove, &[Outcome::Failed, Outcome::Done, Outcome::Done, Outcome::Done]);
    assert_eq!(
        a,
        vec![Action::Run(Step::Notify), Action::Rollback(TorrentError::StorageFailure(StorageSite::Notify))]
    );
}

#[test]
fn removal_runs_archive_delete_commit() {
    let a = run(WorkflowKind::Remove, &[Outcome::Done; 4]);
    assert_eq!(
        a,
        vec![
            Action::Run(Step::Notify),
            Action::Run(Step::Archive),
            Action::Run(Step::DeleteLive),
            Action::Run(Step::Commit),
            Action::Finish
        ]
    );
    let a = run(WorkflowKind::Remove, &[Outcome::Done, Outcome::Done, Outcome::Failed]);
    assert_eq!(a[3], Action::Rollback(TorrentError::StorageFailure(StorageSite::Delete)));
}

#[test]
fn creation_swallows_notification_failure() {
    let a = run(WorkflowKind::Create, &[Outcome::Done, Outcome::Done, Outcome::Failed, Outcome::Done]);
    assert_eq!(a[3], Action::Run(Step::Commit));
    assert_eq!(a[4], Action::Finish);
}

#[test]
fn creation_aborts_on_missing_group_and_failed_insert() {
    let a = run(WorkflowKind::Create, &[Outcome::Done, Outcome::NotFound]);
    assert_eq!(a[2], Action::Rollback(TorrentError::RecordNotFound));
    let a = run(WorkflowKind::Create, &[Outcome::Failed]);
    assert_eq!(a[1], Action::Rollback(TorrentError::StorageFailure(StorageSite::Create)));
    let a = run(WorkflowKind::Create, &[Outcome::Done, Outcome::Done, Outcome::Done, Outcome::Failed]);
    assert_eq!(a[4], Action::Rollback(TorrentError::StorageFailure(StorageSite::Commit)));
}

#[test]
fn fetch_commits_on_duplicate_activity() {
    let a = run(WorkflowKind::Fetch, &[Outcome::Done, Outcome::Duplicate, Outcome::Done, Outcome::Done]);
    assert_eq!(
        a,
        vec![
            Action::Run(Step::IncrementAndRead),
            Action::Run(Step::RecordActivity),
            Action::Run(Step::Personalize),
            Action::Run(Step::Commit),
            Action::Finish
        ]
    );
}

#[test]
fn fetch_errors() {
    let a = run(WorkflowKind::Fetch, &[Outcome::NotFound]);
    assert_eq!(a[1], Action::Rollback(TorrentError::RecordNotFound));
    let a = run(WorkflowKind::Fetch, &[Outcome::Done, Outcome::Failed]);
    assert_eq!(a[2], Action::Rollback(TorrentError::InvalidIdentifierOrRecord));
    let a = run(WorkflowKind::Fetch, &[Outcome::Done, Outcome::Done, Outcome::Failed]);
    assert_eq!(a[3], Action::Rollback(TorrentError::InvalidMetainfo));
}

#[test]
fn removal_of_missing_record_is_not_found() {
    let a = run(WorkflowKind::Remove, &[Outcome::Done, Outcome::NotFound]);
    assert_eq!(a[2], Action::Rollback(TorrentError::RecordNotFound));
    assert!(!a.contains(&Action::Run(Step::DeleteLive)));
}
