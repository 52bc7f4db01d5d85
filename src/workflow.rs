//! The decisions of the create, fetch and removal workflows. Each runs as
//! one storage transaction: the caller performs the step that the workflow
//! asks for, reports its outcome, and is told the next step, to commit, or
//! to roll back with the request's error.
use crate::error::{StorageSite, TorrentError};
use vstd::prelude::*;

verus! {

/// Which workflow runs.
#[derive(Clone, Copy, Debug, PartialEq, Eq, Structural)]
pub enum WorkflowKind {
    Create,
    Fetch,
    Remove,
}

/// One step performed inside the transaction.
#[derive(Clone, Copy, Debug, PartialEq, Eq, Structural)]
pub enum Step {
    /// Insert the new record.
    InsertRecord,
    /// Look up the catalog group that encloses the record.
    LookupGroup,
    /// Notify the subscribers of the group.
    Notify,
    /// Raise the record's fetch counter and read it back in one statement.
    IncrementAndRead,
    /// Add the (record, user) activity row unless it is present.
    RecordActivity,
    /// Build the personalized file.
    Personalize,
    /// Copy the record into the archive (`NotFound` when there is no such
    /// record).
    Archive,
    /// Delete the live record.
    DeleteLive,
    /// Commit the transaction.
    Commit,
}

/// How a step went.
#[derive(Clone, Copy, Debug, PartialEq, Eq, Structural)]
pub enum Outcome {
    Done,
    /// The row was already there (an insert that ignores duplicates).
    Duplicate,
    /// The referenced row does not exist.
    NotFound,
    Failed,
}

/// What the caller does next.
#[derive(Clone, Copy, Debug, PartialEq, Eq, Structural)]
pub enum Action {
    Run(Step),
    /// Roll the transaction back and report the error.
    Rollback(TorrentError),
    /// The transaction committed: report success.
    Finish,
}

/// A workflow in progress: which one, and the index of the step it waits on.
pub struct Workflow {
    pub kind: WorkflowKind,
    pub position: usize,
    pub finished: bool,
}

/// The steps of each workflow, in order; each ends with the commit.
pub open spec fn steps(kind: WorkflowKind) -> Seq<Step> {
    match kind {
        WorkflowKind::Create => seq![Step::InsertRecord, Step::LookupGroup, Step::Notify, Step::Commit],
        WorkflowKind::Fetch => seq![
            Step::IncrementAndRead,
            Step::RecordActivity,
            Step::Personalize,
            Step::Commit,
        ],
        WorkflowKind::Remove => seq![Step::Notify, Step::Archive, Step::DeleteLive, Step::Commit],
    }
}

/// The storage site that a failing step reports.
pub open spec fn site_of(step: Step) -> StorageSite {
    match step {
        Step::InsertRecord => StorageSite::Create,
        Step::LookupGroup => StorageSite::GroupLookup,
        Step::Notify => StorageSite::Notify,
        Step::IncrementAndRead => StorageSite::Fetch,
        Step::RecordActivity => StorageSite::Fetch,
        Step::Personalize => StorageSite::Fetch,
        Step::Archive => StorageSite::Delete,
        Step::DeleteLive => StorageSite::Delete,
        Step::Commit => StorageSite::Commit,
    }
}

/// `None` when the workflow goes on after `step` ended with `outcome`, else
/// the error it aborts with. The notification of an upload and a duplicate
/// activity row are benign; every other failure aborts. In particular an
/// activity row that cannot be written for another reason rolls the fetch
/// back, so the counter is never raised without a matching ledger row. A
/// missing record, or a missing group, is `RecordNotFound`.
pub open spec fn verdict(kind: WorkflowKind, step: Step, outcome: Outcome) -> Option<TorrentError> {
    match outcome {
        Outcome::Done => None,
        _ => if kind == WorkflowKind::Create && step == Step::Notify {
            None
        } else if step == Step::RecordActivity {
            if outcome == Outcome::Duplicate {
                None
            } else {
                Some(TorrentError::InvalidIdentifierOrRecord)
            }
        } else if step == Step::Personalize {
            Some(TorrentError::InvalidMetainfo)
        } else if outcome == Outcome::NotFound && (step == Step::IncrementAndRead || step
            == Step::LookupGroup || step == Step::Archive) {
            Some(TorrentError::RecordNotFound)
        } else {
            Some(TorrentError::StorageFailure(site_of(step)))
        },
    }
}

/// The action that follows the outcome of the step at `position`.
pub open spec fn next_action(kind: WorkflowKind, position: nat, outcome: Outcome) -> Action {
    let step = steps(kind)[position as int];
    match verdict(kind, step, outcome) {
        Some(e) => Action::Rollback(e),
        None => if step == Step::Commit {
            Action::Finish
        } else {
            Action::Run(steps(kind)[position + 1int])
        },
    }
}

/// The actions a workflow takes, from the step at `position`, when its
/// steps end with `outcomes` in turn; it stops at a rollback or a finish.
pub open spec fn trace_from(kind: WorkflowKind, position: nat, outcomes: Seq<Outcome>) -> Seq<Action>
    decreases outcomes.len(),
{
    if outcomes.len() == 0 || position >= 4 {
        Seq::empty()
    } else {
        let a = next_action(kind, position, outcomes[0]);
        match a {
            Action::Run(_) => seq![a] + trace_from(kind, position + 1, outcomes.drop_first()),
            _ => seq![a],
        }
    }
}

/// All actions of a workflow, the first step included.
pub open spec fn trace(kind: WorkflowKind, outcomes: Seq<Outcome>) -> Seq<Action> {
    seq![Action::Run(steps(kind)[0])] + trace_from(kind, 0, outcomes)
}

fn step_at(kind: WorkflowKind, position: usize) -> (r: Step)
    requires
        position < 4,
    ensures
        r == steps(kind)[position as int],
{
    match kind {
        WorkflowKind::Create => {
            if position == 0 {
                Step::InsertRecord
            } else if position == 1 {
                Step::LookupGroup
            } else if position == 2 {
                Step::Notify
            } else {
                Step::Commit
            }
        },
        WorkflowKind::Fetch => {
            if position == 0 {
                Step::IncrementAndRead
            } else if position == 1 {
                Step::RecordActivity
            } else if position == 2 {
                Step::Personalize
            } else {
                Step::Commit
            }
        },
        WorkflowKind::Remove => {
            if position == 0 {
                Step::Notify
            } else if position == 1 {
                Step::Archive
            } else if position == 2 {
                Step::DeleteLive
            } else {
                Step::Commit
            }
        },
    }
}

fn step_site(step: Step) -> (r: StorageSite)
    ensures
        r == site_of(step),
{
    match step {
        Step::InsertRecord => StorageSite::Create,
        Step::LookupGroup => StorageSite::GroupLookup,
        Step::Notify => StorageSite::Notify,
        Step::IncrementAndRead => StorageSite::Fetch,
        Step::RecordActivity => StorageSite::Fetch,
        Step::Personalize => StorageSite::Fetch,
        Step::Archive => StorageSite::Delete,
        Step::DeleteLive => StorageSite::Delete,
        Step::Commit => StorageSite::Commit,
    }
}

/// Whether the workflow goes on after `step` ended with `outcome`, or the
/// error it aborts with.
pub fn judge(kind: WorkflowKind, step: Step, outcome: Outcome) -> (r: Option<TorrentError>)
    ensures
        r == verdict(kind, step, outcome),
{
    match outcome {
        Outcome::Done => None,
        _ => {
            if kind == WorkflowKind::Create && step == Step::Notify {
                None
            } else if step == Step::RecordActivity {
                if outcome == Outcome::Duplicate {
                    None
                } else {
                    Some(TorrentError::InvalidIdentifierOrRecord)
                }
            } else if step == Step::Personalize {
                Some(TorrentError::InvalidMetainfo)
            } else if outcome == Outcome::NotFound && (step == Step::IncrementAndRead || step
                == Step::LookupGroup || step == Step::Archive) {
                Some(TorrentError::RecordNotFound)
            } else {
                Some(TorrentError::StorageFailure(step_site(step)))
            }
        },
    }
}

impl Workflow {
    /// Starts a workflow: its first step is to be run.
    pub fn start(kind: WorkflowKind) -> (r: (Workflow, Action))
        ensures
            r.0.kind == kind,
            r.0.position == 0,
            !r.0.finished,
            r.1 == Action::Run(steps(kind)[0]),
    {
        (Workflow { kind, position: 0, finished: false }, Action::Run(step_at(kind, 0)))
    }

    /// Takes the outcome of the current step and says what comes next.
    pub fn advance(&mut self, outcome: Outcome) -> (r: Action)
        requires
            !old(self).finished,
            old(self).position < 4,
        ensures
            r == next_action(old(self).kind, old(self).position as nat, outcome),
            final(self).kind == old(self).kind,
            r is Run ==> final(self).position == old(self).position + 1 && !final(self).finished
                && final(self).position < 4,
            !(r is Run) ==> final(self).finished,
    {
        let step = step_at(self.kind, self.position);
        match judge(self.kind, step, outcome) {
            Some(e) => {
                self.finished = true;
                Action::Rollback(e)
            },
            None => {
                if step == Step::Commit {
                    self.finished = true;
                    Action::Finish
                } else {
                    self.position = self.position + 1;
                    Action::Run(step_at(self.kind, self.position))
                }
            },
        }
    }
}

/// A removal whose notification fails rolls back at once: it never archives
/// or deletes the record, and never commits.
pub proof fn lemma_removal_atomicity(outcomes: Seq<Outcome>)
    requires
        outcomes.len() > 0,
        outcomes[0] != Outcome::Done,
    ensures
        trace(WorkflowKind::Remove, outcomes) == seq![
            Action::Run(Step::Notify),
            Action::Rollback(TorrentError::StorageFailure(StorageSite::Notify)),
        ],
        forall|i: int|
            0 <= i < trace(WorkflowKind::Remove, outcomes).len() ==> trace(
                WorkflowKind::Remove,
                outcomes,
            )[i] != Action::Run(Step::Archive) && trace(WorkflowKind::Remove, outcomes)[i]
                != Action::Run(Step::DeleteLive) && trace(WorkflowKind::Remove, outcomes)[i]
                != Action::Run(Step::Commit),
{
    assert(trace(WorkflowKind::Remove, outcomes) =~= seq![
        Action::Run(Step::Notify),
        Action::Rollback(TorrentError::StorageFailure(StorageSite::Notify)),
    ]);
}

/// Whatever the outcomes, a workflow commits only as its last action, and
/// never both rolls back and commits.
pub proof fn lemma_single_terminal(kind: WorkflowKind, position: nat, outcomes: Seq<Outcome>)
    requires
        position < 4,
    ensures
        forall|i: int|
            0 <= i < trace_from(kind, position, outcomes).len() - 1 ==> #[trigger] trace_from(
                kind,
                position,
                outcomes,
            )[i] is Run,
    decreases outcomes.len(),
{
    if outcomes.len() > 0 {
        let a = next_action(kind, position, outcomes[0]);
        if a is Run && position + 1 < 4 {
            lemma_single_terminal(kind, position + 1, outcomes.drop_first());
            let rest = trace_from(kind, position + 1, outcomes.drop_first());
            assert forall|i: int|
                0 <= i < trace_from(kind, position, outcomes).len() - 1 implies #[trigger] trace_from(
                kind,
                position,
                outcomes,
            )[i] is Run by {
                if i > 0 {
                    assert(trace_from(kind, position, outcomes)[i] == rest[i - 1]);
                }
            }
        }
    }
}

} // verus!
