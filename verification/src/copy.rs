//! The copy engine: a file is copied only when the equality oracle finds it
//! different, and its timestamps are then made those of the source.

use crate::equality::{files_equal, FileMetadata, FileState};
use crate::errors::SyncError;
use crate::protocol::{Observed, Step};
use crate::time::{set_file_times, time_value, FileTime, FileTimes, Precision, TimeValue};
use crate::time::{NANOS_PER_MICRO, NANOS_PER_SEC};
use vstd::prelude::*;

verus! {

/// One thing that the copy engine asks its driver to do.
#[derive(Clone, Copy, Debug, PartialEq, Eq, Structural)]
pub enum CopyTask {
    /// Ask the equality oracle whether source and target are equal.
    CheckEquality,
    /// Copy every byte of the source over the target, and record how many
    /// bytes were copied.
    CopyContents,
    /// Set the target's timestamps to those of the source.
    CopyTimes,
}

/// How far the synchronisation of one file has come.
#[derive(Debug, PartialEq, Eq)]
pub struct CopyProgress {
    /// What the equality oracle decided.
    pub equal: Observed<bool>,
    /// The number of bytes that the copy of the contents copied.
    pub copied: Observed<u64>,
    /// Whether the target's timestamps were set.
    pub times_copied: Observed<()>,
}

impl CopyProgress {
    /// The progress of a synchronisation that has not begun.
    pub open spec fn start() -> CopyProgress {
        CopyProgress {
            equal: Observed::NotYet,
            copied: Observed::NotYet,
            times_copied: Observed::NotYet,
        }
    }

    /// The progress of a synchronisation that has not begun.
    pub fn new() -> (progress: CopyProgress)
        ensures
            progress == CopyProgress::start(),
    {
        CopyProgress {
            equal: Observed::NotYet,
            copied: Observed::NotYet,
            times_copied: Observed::NotYet,
        }
    }
}

/// What the copy engine does once the files were found different: the
/// contents are copied first and the timestamps after, and the result is
/// the number of bytes copied.
pub open spec fn transfer_step(copied: Observed<u64>, times_copied: Observed<()>) -> Step<
    CopyTask,
    Result<u64, CopyTask>,
> {
    match copied {
        Observed::NotYet => Step::Next(CopyTask::CopyContents),
        Observed::Failed => Step::Done(Err(CopyTask::CopyContents)),
        Observed::Seen(bytes) => match times_copied {
            Observed::NotYet => Step::Next(CopyTask::CopyTimes),
            Observed::Failed => Step::Done(Err(CopyTask::CopyTimes)),
            Observed::Seen(_) => Step::Done(Ok(bytes)),
        },
    }
}

/// What the copy engine does at a given point. Equal files cost nothing;
/// different files are copied. A task that failed ends the
/// synchronisation with `Err`, which names it: nothing is copied when the
/// equality check failed, and no timestamps are set when the copy failed.
pub open spec fn copy_step(progress: CopyProgress) -> Step<CopyTask, Result<u64, CopyTask>> {
    match progress.equal {
        Observed::NotYet => Step::Next(CopyTask::CheckEquality),
        Observed::Failed => Step::Done(Err(CopyTask::CheckEquality)),
        Observed::Seen(true) => Step::Done(Ok(0)),
        Observed::Seen(false) => transfer_step(progress.copied, progress.times_copied),
    }
}

/// Names the next task in synchronising one file, or the number of bytes
/// that were copied.
///
/// Files that the oracle finds equal are left alone and count zero bytes.
/// The timestamps are set strictly after the contents are copied, since a
/// copy stamps the target with the time of the copy. The first task that
/// fails ends the synchronisation.
pub fn sync_file(progress: &CopyProgress) -> (step: Step<CopyTask, Result<u64, CopyTask>>)
    ensures
        step == copy_step(*progress),
{
    match progress.equal {
        Observed::NotYet => {
            return Step::Next(CopyTask::CheckEquality);
        },
        Observed::Failed => {
            return Step::Done(Err(CopyTask::CheckEquality));
        },
        Observed::Seen(true) => {
            return Step::Done(Ok(0));
        },
        Observed::Seen(false) => {},
    }
    let bytes = match progress.copied {
        Observed::NotYet => {
            return Step::Next(CopyTask::CopyContents);
        },
        Observed::Failed => {
            return Step::Done(Err(CopyTask::CopyContents));
        },
        Observed::Seen(bytes) => bytes,
    };
    match progress.times_copied {
        Observed::NotYet => Step::Next(CopyTask::CopyTimes),
        Observed::Failed => Step::Done(Err(CopyTask::CopyTimes)),
        Observed::Seen(_) => Step::Done(Ok(bytes)),
    }
}

/// The tasks come in one order: the contents are copied only after the
/// oracle has found the files different, and the timestamps are set only
/// after the contents were copied. A check that failed is never taken for
/// a difference.
pub proof fn lemma_tasks_are_ordered(progress: CopyProgress)
    ensures
        copy_step(progress) == Step::<CopyTask, Result<u64, CopyTask>>::Next(
            CopyTask::CopyContents,
        ) ==> progress.equal == Observed::Seen(false),
        copy_step(progress) == Step::<CopyTask, Result<u64, CopyTask>>::Next(CopyTask::CopyTimes)
            ==> progress.equal == Observed::Seen(false) && progress.copied is Seen,
        progress.equal is Failed ==> copy_step(progress) == Step::<
            CopyTask,
            Result<u64, CopyTask>,
        >::Done(Err(CopyTask::CheckEquality)),
{
}

/// Prepares the timestamps of the source, as its metadata reports them, for
/// setting them on the target.
pub fn copy_file_times(source: &FileMetadata, precision: Precision) -> (times: Result<
    FileTimes,
    SyncError,
>)
    ensures
        source.accessed.expressible() && source.modified.expressible() ==> times == Ok::<
            FileTimes,
            SyncError,
        >(
            FileTimes {
                accessed: time_value(source.accessed, precision),
                modified: time_value(source.modified, precision),
            },
        ),
        !source.accessed.expressible() ==> times == Err::<FileTimes, SyncError>(
            SyncError::SystemTime(source.accessed),
        ),
        source.accessed.expressible() && !source.modified.expressible() ==> times == Err::<
            FileTimes,
            SyncError,
        >(SyncError::SystemTime(source.modified)),
{
    set_file_times(&source.accessed, &source.modified, precision)
}

/// The timestamp that a file shows once the primitive has set it to `value`.
pub open spec fn time_set(value: TimeValue, precision: Precision) -> FileTime {
    FileTime {
        before_epoch: false,
        secs: value.secs as u64,
        nanos: match precision {
            Precision::Nanoseconds => value.subsec as u32,
            Precision::Microseconds => (value.subsec * NANOS_PER_MICRO) as u32,
        },
    }
}

/// Whether the primitive can set this timestamp without loss: always with
/// nanoseconds, and with microseconds when nothing finer is in it.
pub open spec fn kept_by(time: FileTime, precision: Precision) -> bool {
    match precision {
        Precision::Nanoseconds => true,
        Precision::Microseconds => time.nanos as int % NANOS_PER_MICRO as int == 0,
    }
}

/// The target as a byte copy of the source leaves it: the bytes and the
/// size of the source, under whatever timestamps the copy stamped.
pub open spec fn after_copy(source: FileState, stamped: FileTime) -> FileState {
    FileState {
        metadata: FileMetadata { len: source.metadata.len, modified: stamped, accessed: stamped },
        contents: source.contents,
    }
}

/// The file once its timestamps were set to `times`.
pub open spec fn after_times(file: FileState, times: FileTimes, precision: Precision) -> FileState {
    FileState {
        metadata: FileMetadata {
            len: file.metadata.len,
            modified: time_set(times.modified, precision),
            accessed: time_set(times.accessed, precision),
        },
        contents: file.contents,
    }
}

/// What the timestamp primitive is handed for the timestamps of `source`.
pub open spec fn times_of(source: FileMetadata, precision: Precision) -> FileTimes {
    FileTimes {
        accessed: time_value(source.accessed, precision),
        modified: time_value(source.modified, precision),
    }
}

/// The target, and the progress recorded, once one task was carried out on
/// a filesystem that does what it is asked: the oracle's answer is the
/// truth, a copy copies every byte, and the primitive sets the times it is
/// handed. Timestamps that are not expressible make the last task fail.
pub open spec fn performed(
    task: CopyTask,
    source: FileState,
    target: Option<FileState>,
    progress: CopyProgress,
    precision: Precision,
    stamped: FileTime,
) -> (Option<FileState>, CopyProgress) {
    match task {
        CopyTask::CheckEquality => (
            target,
            CopyProgress { equal: Observed::Seen(files_equal(source, target)), ..progress },
        ),
        CopyTask::CopyContents => (
            Some(after_copy(source, stamped)),
            CopyProgress { copied: Observed::Seen(source.metadata.len), ..progress },
        ),
        CopyTask::CopyTimes => if target.is_some() && source.metadata.accessed.expressible()
            && source.metadata.modified.expressible() {
            (
                Some(after_times(target.unwrap(), times_of(source.metadata, precision), precision)),
                CopyProgress { times_copied: Observed::Seen(()), ..progress },
            )
        } else {
            (target, CopyProgress { times_copied: Observed::Failed, ..progress })
        },
    }
}

/// The target and the result once a driver has carried out, one after the
/// other, the tasks that the copy engine names, from the given progress on
/// and for at most `tasks` of them. The result is `None` if the engine has
/// not finished by then.
pub open spec fn driven(
    source: FileState,
    target: Option<FileState>,
    progress: CopyProgress,
    precision: Precision,
    stamped: FileTime,
    tasks: nat,
) -> (Option<FileState>, Option<Result<u64, CopyTask>>)
    decreases tasks,
{
    match copy_step(progress) {
        Step::Done(result) => (target, Some(result)),
        Step::Next(task) => if tasks == 0 {
            (target, None)
        } else {
            let (changed, recorded) = performed(task, source, target, progress, precision, stamped);
            driven(source, changed, recorded, precision, stamped, (tasks - 1) as nat)
        },
    }
}

/// The target and the result of synchronising one file from the start.
/// `stamped` is the time that a copy leaves on the target.
pub open spec fn synchronised(
    source: FileState,
    target: Option<FileState>,
    precision: Precision,
    stamped: FileTime,
) -> (Option<FileState>, Option<Result<u64, CopyTask>>) {
    driven(source, target, CopyProgress::start(), precision, stamped, 3)
}

/// Whether the timestamps of a file can be set on another file without
/// loss at the given precision.
pub open spec fn times_transferable(file: FileState, precision: Precision) -> bool {
    &&& file.metadata.accessed.wf()
    &&& file.metadata.modified.wf()
    &&& file.metadata.accessed.expressible()
    &&& file.metadata.modified.expressible()
    &&& kept_by(file.metadata.accessed, precision)
    &&& kept_by(file.metadata.modified, precision)
}

/// A timestamp that the primitive can set without loss reads back as it was.
pub proof fn lemma_time_round_trip(time: FileTime, precision: Precision)
    requires
        time.wf(),
        time.expressible(),
        kept_by(time, precision),
    ensures
        time_set(time_value(time, precision), precision) == time,
{
    assert(NANOS_PER_SEC == 1_000_000_000 && NANOS_PER_MICRO == 1_000);
}

/// Equal files are left alone: the synchronisation ends after the oracle's
/// answer, with zero bytes and the target as it was.
pub proof fn lemma_equal_files_are_left_alone(
    source: FileState,
    target: Option<FileState>,
    precision: Precision,
    stamped: FileTime,
)
    requires
        files_equal(source, target),
    ensures
        synchronised(source, target, precision, stamped) == (
            target,
            Some(Ok::<u64, CopyTask>(0)),
        ),
{
    reveal_with_fuel(driven, 2);
}

/// Different files are copied and then stamped: the synchronisation ends
/// after three tasks with the size of the source as the bytes copied, and
/// the target then has the bytes of the source and the times that the
/// primitive was handed for the source.
pub proof fn lemma_different_files_are_copied(
    source: FileState,
    target: Option<FileState>,
    precision: Precision,
    stamped: FileTime,
)
    requires
        !files_equal(source, target),
        source.metadata.accessed.expressible(),
        source.metadata.modified.expressible(),
    ensures
        synchronised(source, target, precision, stamped) == (
            Some(
                after_times(
                    after_copy(source, stamped),
                    times_of(source.metadata, precision),
                    precision,
                ),
            ),
            Some(Ok::<u64, CopyTask>(source.metadata.len)),
        ),
{
    reveal_with_fuel(driven, 4);
}

/// After a file was synchronised, the target has the modification time, the
/// access time and the bytes of the source.
pub proof fn lemma_sync_transfers_times_and_contents(
    source: FileState,
    target: Option<FileState>,
    precision: Precision,
    stamped: FileTime,
)
    requires
        times_transferable(source, precision),
    ensures
        ({
            let synced = synchronised(source, target, precision, stamped).0;
            &&& synced.is_some()
            &&& synced.unwrap().metadata.modified == source.metadata.modified
            &&& synced.unwrap().contents == source.contents
            &&& !files_equal(source, target) ==> synced.unwrap().metadata.accessed
                == source.metadata.accessed
        }),
{
    lemma_time_round_trip(source.metadata.accessed, precision);
    lemma_time_round_trip(source.metadata.modified, precision);
    if files_equal(source, target) {
        lemma_equal_files_are_left_alone(source, target, precision, stamped);
    } else {
        lemma_different_files_are_copied(source, target, precision, stamped);
    }
}

/// Synchronising a file twice copies nothing the second time: after the
/// first synchronisation the files are equal, so the second one ends with
/// zero bytes and leaves the target as the first one left it.
pub proof fn lemma_second_sync_copies_nothing(
    source: FileState,
    target: Option<FileState>,
    precision: Precision,
    stamped: FileTime,
    restamped: FileTime,
)
    requires
        times_transferable(source, precision),
    ensures
        ({
            let synced = synchronised(source, target, precision, stamped).0;
            &&& files_equal(source, synced)
            &&& synchronised(source, synced, precision, restamped) == (
                synced,
                Some(Ok::<u64, CopyTask>(0)),
            )
        }),
{
    lemma_time_round_trip(source.metadata.accessed, precision);
    lemma_time_round_trip(source.metadata.modified, precision);
    if files_equal(source, target) {
        lemma_equal_files_are_left_alone(source, target, precision, stamped);
    } else {
        lemma_different_files_are_copied(source, target, precision, stamped);
    }
    let synced = synchronised(source, target, precision, stamped).0;
    lemma_equal_files_are_left_alone(source, synced, precision, restamped);
}

} // verus!
