//! The resource upload as a forward-only pipeline: store each file in order,
//! then the resource row, then the file rows. The first failure ends the run
//! and nothing already stored is undone.
use vstd::prelude::*;
use crate::upload::upload_succeeded;

verus! {

/// Where an upload run stands.
#[derive(Clone, Copy, Debug, PartialEq, Eq)]
pub enum UploadStage {
    /// Files `0..next` are stored; file `next` of `total` is being sent.
    StoringFiles { next: usize, total: usize },
    /// Every file is stored; the resource row is being inserted.
    InsertingResource,
    /// The resource row is stored; the file rows are being inserted.
    InsertingFileRows,
    /// Everything is stored.
    Done,
    /// A step failed; the run is over.
    Failed,
}

/// What the last outside step reported.
#[derive(Clone, Copy, Debug, PartialEq, Eq)]
pub enum UploadEvent {
    /// The object store answered a file upload with this status.
    FileSent { status: u16 },
    /// The row insert succeeded.
    RowsStored,
    /// The row insert failed.
    RowsFailed,
}

/// What the caller does next.
#[derive(Clone, Copy, Debug, PartialEq, Eq)]
pub enum UploadAction {
    SendFile { index: usize },
    InsertResource,
    InsertFileRows,
    ReturnResource,
    ReportUploadError { status: u16 },
    ReportStorageError,
    /// The event does not belong to the stage; nothing changes.
    Ignore,
}

pub open spec fn is_success_status(status: u16) -> bool {
    200 <= status <= 299
}

/// A stage that a run can be in.
pub open spec fn stage_wf(s: UploadStage) -> bool {
    s matches UploadStage::StoringFiles { next, total } ==> next < total
}

/// One step of a run.
pub open spec fn step_spec(s: UploadStage, e: UploadEvent) -> (UploadStage, UploadAction) {
    match (s, e) {
        (UploadStage::StoringFiles { next, total }, UploadEvent::FileSent { status }) => {
            if !is_success_status(status) {
                (UploadStage::Failed, UploadAction::ReportUploadError { status })
            } else if next + 1 < total {
                (
                    UploadStage::StoringFiles { next: (next + 1) as usize, total },
                    UploadAction::SendFile { index: (next + 1) as usize },
                )
            } else {
                (UploadStage::InsertingResource, UploadAction::InsertResource)
            }
        },
        (UploadStage::InsertingResource, UploadEvent::RowsStored) => (
            UploadStage::InsertingFileRows,
            UploadAction::InsertFileRows,
        ),
        (UploadStage::InsertingFileRows, UploadEvent::RowsStored) => (
            UploadStage::Done,
            UploadAction::ReturnResource,
        ),
        (UploadStage::InsertingResource, UploadEvent::RowsFailed) => (
            UploadStage::Failed,
            UploadAction::ReportStorageError,
        ),
        (UploadStage::InsertingFileRows, UploadEvent::RowsFailed) => (
            UploadStage::Failed,
            UploadAction::ReportStorageError,
        ),
        _ => (s, UploadAction::Ignore),
    }
}

/// The first stage and action of a run over `file_count` files.
pub fn start_upload(file_count: usize) -> (r: (UploadStage, UploadAction))
    requires
        file_count > 0,
    ensures
        r == (UploadStage::StoringFiles { next: 0, total: file_count }, UploadAction::SendFile {
            index: 0,
        }),
{
    (UploadStage::StoringFiles { next: 0, total: file_count }, UploadAction::SendFile { index: 0 })
}

/// The stage and action that follow `event` in `stage`.
pub fn next_upload_step(stage: UploadStage, event: UploadEvent) -> (r: (UploadStage, UploadAction))
    requires
        stage_wf(stage),
    ensures
        r == step_spec(stage, event),
        stage_wf(r.0),
{
    match (stage, event) {
        (UploadStage::StoringFiles { next, total }, UploadEvent::FileSent { status }) => {
            if !upload_succeeded(status) {
                (UploadStage::Failed, UploadAction::ReportUploadError { status })
            } else if next + 1 < total {
                (
                    UploadStage::StoringFiles { next: next + 1, total },
                    UploadAction::SendFile { index: next + 1 },
                )
            } else {
                (UploadStage::InsertingResource, UploadAction::InsertResource)
            }
        },
        (UploadStage::InsertingResource, UploadEvent::RowsStored) => (
            UploadStage::InsertingFileRows,
            UploadAction::InsertFileRows,
        ),
        (UploadStage::InsertingFileRows, UploadEvent::RowsStored) => (
            UploadStage::Done,
            UploadAction::ReturnResource,
        ),
        (UploadStage::InsertingResource, UploadEvent::RowsFailed) => (
            UploadStage::Failed,
            UploadAction::ReportStorageError,
        ),
        (UploadStage::InsertingFileRows, UploadEvent::RowsFailed) => (
            UploadStage::Failed,
            UploadAction::ReportStorageError,
        ),
        _ => (stage, UploadAction::Ignore),
    }
}

/// The stage after a sequence of events.
pub open spec fn run_spec(s: UploadStage, events: Seq<UploadEvent>) -> UploadStage
    decreases events.len(),
{
    if events.len() == 0 {
        s
    } else {
        run_spec(step_spec(s, events[0]).0, events.drop_first())
    }
}

/// How many of `events` are accepted file uploads.
pub open spec fn stored_files(events: Seq<UploadEvent>) -> nat
    decreases events.len(),
{
    if events.len() == 0 {
        0
    } else {
        (if events[0] matches UploadEvent::FileSent { status } && is_success_status(status) {
            1nat
        } else {
            0nat
        }) + stored_files(events.drop_first())
    }
}

/// How far a stage has come in storing files: the count of files stored so
/// far when still storing, all of them after.
pub open spec fn files_done(s: UploadStage, total: nat) -> nat {
    match s {
        UploadStage::StoringFiles { next, total: _ } => next as nat,
        UploadStage::Failed => 0,
        _ => total,
    }
}

proof fn lemma_run_progress(s: UploadStage, events: Seq<UploadEvent>, total: nat)
    requires
        stage_wf(s),
        s matches UploadStage::StoringFiles { next: _, total: t } ==> t == total,
        !(s is Failed),
    ensures
        run_spec(s, events) matches UploadStage::StoringFiles { next: _, total: t } ==> t == total,
        !(run_spec(s, events) is Failed) && !(run_spec(s, events) is StoringFiles) && (
        s is StoringFiles) ==> files_done(s, total) + stored_files(events) >= total,
    decreases events.len(),
{
    if events.len() > 0 {
        let n = step_spec(s, events[0]).0;
        if n is Failed {
            lemma_failed_stays(events.drop_first());
        } else {
            lemma_run_progress(n, events.drop_first(), total);
        }
    }
}

proof fn lemma_failed_stays(events: Seq<UploadEvent>)
    ensures
        run_spec(UploadStage::Failed, events) is Failed,
    decreases events.len(),
{
    if events.len() > 0 {
        lemma_failed_stays(events.drop_first());
    }
}

/// No row is written before every file is stored: a run over `total` files
/// that gets past storing files without failing has seen at least `total`
/// accepted uploads.
pub proof fn lemma_rows_after_all_files(total: usize, events: Seq<UploadEvent>)
    requires
        total > 0,
    ensures
        !(run_spec(UploadStage::StoringFiles { next: 0, total }, events) is Failed) && !(run_spec(
            UploadStage::StoringFiles { next: 0, total },
            events,
        ) is StoringFiles) ==> stored_files(events) >= total,
{
    lemma_run_progress(UploadStage::StoringFiles { next: 0, total }, events, total as nat);
}

/// A failed step ends the run: no later event leads anywhere.
pub proof fn lemma_failure_is_final(events: Seq<UploadEvent>)
    ensures
        run_spec(UploadStage::Failed, events) == UploadStage::Failed,
{
    lemma_failed_stays(events);
}

} // verus!
