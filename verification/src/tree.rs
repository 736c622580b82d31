//! The tree synchroniser: how a source and a target are to be synchronised,
//! what is done with each entry of a source tree, and what a walk amounts to.

use crate::errors::SyncError;
use crate::protocol::{Observed, Step};
use vstd::prelude::*;

verus! {

/// What a path is on the filesystem.
#[derive(Clone, Copy, Debug, PartialEq, Eq, Structural)]
pub enum PathKind {
    /// A regular file.
    File,
    /// A directory.
    Directory,
    /// Neither: nothing is there, or something that is no file and no
    /// directory.
    Other,
}

/// How a source is synchronised to a target.
#[derive(Clone, Copy, Debug, PartialEq, Eq, Structural)]
pub enum SyncMode {
    /// The source file is synchronised to the target file.
    File,
    /// The source file is synchronised to the file of its own name in the
    /// target directory.
    FileIntoDirectory,
    /// The source tree is walked and mirrored under the target.
    Tree,
}

/// The mode for a source and a target of the given kinds. There is none for
/// a source directory and a target file: a directory cannot be synchronised
/// onto a file.
pub open spec fn sync_mode(source: PathKind, target: PathKind) -> Option<SyncMode> {
    match (source, target) {
        (PathKind::File, PathKind::File) => Some(SyncMode::File),
        (PathKind::File, PathKind::Directory) => Some(SyncMode::FileIntoDirectory),
        (PathKind::Directory, PathKind::File) => None,
        _ => Some(SyncMode::Tree),
    }
}

/// Chooses how a source is synchronised to a target, from what the two
/// paths are.
///
/// A source directory and a target file are refused with
/// [`SyncError::InvalidUsage`] before anything is copied. Every other pair
/// has a mode; a target that does not exist yet is the root of a mirrored
/// tree.
pub fn sync(source: PathKind, target: PathKind) -> (mode: Result<SyncMode, SyncError>)
    ensures
        mode.is_ok() == sync_mode(source, target).is_some(),
        mode matches Ok(chosen) ==> Some(chosen) == sync_mode(source, target),
        mode matches Err(error) ==> error matches SyncError::InvalidUsage(message) && message@
            == "source is a directory but target is a file"@,
{
    match (source, target) {
        (PathKind::File, PathKind::File) => Ok(SyncMode::File),
        (PathKind::File, PathKind::Directory) => Ok(SyncMode::FileIntoDirectory),
        (PathKind::Directory, PathKind::File) => Err(
            SyncError::InvalidUsage("source is a directory but target is a file".to_owned()),
        ),
        _ => Ok(SyncMode::Tree),
    }
}

/// One thing that the walk asks its driver to do for an entry of the source
/// tree.
#[derive(Clone, Copy, Debug, PartialEq, Eq, Structural)]
pub enum EntryTask {
    /// Find out whether the entry's mirrored path exists.
    ProbeTarget,
    /// Create the directory at the entry's mirrored path.
    CreateDirectory,
    /// Synchronise the entry to the file at its mirrored path.
    SyncFile,
}

/// What came of one entry of the source tree.
#[derive(Clone, Copy, Debug, PartialEq, Eq, Structural)]
pub enum EntryOutcome {
    /// The entry is a file that was synchronised; this many bytes were
    /// copied, none if it was equal to its target already.
    Copied(u64),
    /// The entry is a directory that now exists under the target.
    DirectoryReady,
    /// The entry could not be read, or something done for it failed. It is
    /// skipped.
    Failed,
}

/// What is known of one entry while the walk deals with it.
#[derive(Debug, PartialEq, Eq)]
pub struct EntryProgress {
    /// Whether the entry is a directory.
    pub is_directory: bool,
    /// Whether the entry's mirrored path exists.
    pub target_exists: Observed<bool>,
    /// The bytes that the entry's task copied: those of the file's
    /// synchronisation, none for a directory that was created.
    pub performed: Observed<u64>,
}

impl EntryProgress {
    /// The progress for an entry that nothing was done with yet.
    pub open spec fn start(is_directory: bool) -> EntryProgress {
        EntryProgress { is_directory, target_exists: Observed::NotYet, performed: Observed::NotYet }
    }

    /// The progress for an entry that nothing was done with yet.
    pub fn new(is_directory: bool) -> (progress: EntryProgress)
        ensures
            progress == EntryProgress::start(is_directory),
    {
        EntryProgress { is_directory, target_exists: Observed::NotYet, performed: Observed::NotYet }
    }
}

/// What the walk does with a directory of the source tree: it is created
/// under the target unless it is there already.
pub open spec fn directory_step(target_exists: Observed<bool>, performed: Observed<u64>) -> Step<
    EntryTask,
    EntryOutcome,
> {
    match target_exists {
        Observed::NotYet => Step::Next(EntryTask::ProbeTarget),
        Observed::Failed => Step::Done(EntryOutcome::Failed),
        Observed::Seen(true) => Step::Done(EntryOutcome::DirectoryReady),
        Observed::Seen(false) => match performed {
            Observed::NotYet => Step::Next(EntryTask::CreateDirectory),
            Observed::Failed => Step::Done(EntryOutcome::Failed),
            Observed::Seen(_) => Step::Done(EntryOutcome::DirectoryReady),
        },
    }
}

/// What the walk does with an entry of the source tree that is no
/// directory: it is synchronised as a file.
pub open spec fn file_step(performed: Observed<u64>) -> Step<EntryTask, EntryOutcome> {
    match performed {
        Observed::NotYet => Step::Next(EntryTask::SyncFile),
        Observed::Failed => Step::Done(EntryOutcome::Failed),
        Observed::Seen(bytes) => Step::Done(EntryOutcome::Copied(bytes)),
    }
}

/// What the walk does with an entry. Whatever fails ends the entry, not the
/// walk.
pub open spec fn entry_step(progress: EntryProgress) -> Step<EntryTask, EntryOutcome> {
    if progress.is_directory {
        directory_step(progress.target_exists, progress.performed)
    } else {
        file_step(progress.performed)
    }
}

/// Names the next task for an entry of the source tree, or the entry's
/// outcome.
///
/// A directory is created at its mirrored path if nothing is there;
/// anything else is synchronised as a file. A task that failed makes the
/// entry's outcome [`EntryOutcome::Failed`].
pub fn walk_entry(progress: &EntryProgress) -> (step: Step<EntryTask, EntryOutcome>)
    ensures
        step == entry_step(*progress),
{
    if !progress.is_directory {
        return match progress.performed {
            Observed::NotYet => Step::Next(EntryTask::SyncFile),
            Observed::Failed => Step::Done(EntryOutcome::Failed),
            Observed::Seen(bytes) => Step::Done(EntryOutcome::Copied(bytes)),
        };
    }
    match progress.target_exists {
        Observed::NotYet => Step::Next(EntryTask::ProbeTarget),
        Observed::Failed => Step::Done(EntryOutcome::Failed),
        Observed::Seen(true) => Step::Done(EntryOutcome::DirectoryReady),
        Observed::Seen(false) => match progress.performed {
            Observed::NotYet => Step::Next(EntryTask::CreateDirectory),
            Observed::Failed => Step::Done(EntryOutcome::Failed),
            Observed::Seen(_) => Step::Done(EntryOutcome::DirectoryReady),
        },
    }
}

/// The bytes that one entry added to the target.
pub open spec fn entry_bytes(outcome: EntryOutcome) -> nat {
    match outcome {
        EntryOutcome::Copied(bytes) => bytes as nat,
        _ => 0,
    }
}

/// The bytes copied over a walk: the sum over its entries.
pub open spec fn bytes_copied(outcomes: Seq<EntryOutcome>) -> nat
    decreases outcomes.len(),
{
    if outcomes.len() == 0 {
        0
    } else {
        bytes_copied(outcomes.drop_last()) + entry_bytes(outcomes.last())
    }
}

/// The number of entries of a walk that failed.
pub open spec fn failures(outcomes: Seq<EntryOutcome>) -> nat
    decreases outcomes.len(),
{
    if outcomes.len() == 0 {
        0
    } else {
        failures(outcomes.drop_last()) + if outcomes.last() == EntryOutcome::Failed {
            1nat
        } else {
            0nat
        }
    }
}

/// What a walk amounts to.
#[derive(Clone, Copy, Debug, PartialEq, Eq, Structural)]
pub struct TreeReport {
    /// The bytes copied, over all entries.
    pub copied: u64,
    /// The number of entries that failed and were skipped.
    pub failed: usize,
}

/// Sums up a walk from the outcomes of its entries: the bytes that were
/// copied and the number of entries that failed. Failed entries count no
/// bytes and do not make the walk fail.
///
/// `None` exactly when the bytes copied do not fit a `u64`.
pub fn tally(outcomes: &[EntryOutcome]) -> (report: Option<TreeReport>)
    ensures
        report.is_some() == (bytes_copied(outcomes@) <= u64::MAX),
        report matches Some(sums) ==> sums.copied == bytes_copied(outcomes@) && sums.failed
            == failures(outcomes@),
{
    let mut copied: u64 = 0;
    let mut failed: usize = 0;
    let mut index: usize = 0;
    while index < outcomes.len()
        invariant
            index <= outcomes@.len(),
            copied == bytes_copied(outcomes@.take(index as int)),
            failed == failures(outcomes@.take(index as int)),
            failed <= index,
        decreases outcomes@.len() - index,
    {
        proof {
            assert(outcomes@.take(index + 1).drop_last() =~= outcomes@.take(index as int));
        }
        match outcomes[index] {
            EntryOutcome::Copied(bytes) => {
                match copied.checked_add(bytes) {
                    Some(sum) => {
                        copied = sum;
                    },
                    None => {
                        proof {
                            lemma_bytes_copied_grows(outcomes@, index + 1);
                        }
                        return None;
                    },
                }
            },
            EntryOutcome::DirectoryReady => {},
            EntryOutcome::Failed => {
                failed += 1;
            },
        }
        index += 1;
    }
    proof {
        assert(outcomes@.take(index as int) =~= outcomes@);
    }
    Some(TreeReport { copied, failed })
}

/// The bytes copied up to any point of a walk are no more than the bytes
/// copied over the whole of it.
pub proof fn lemma_bytes_copied_grows(outcomes: Seq<EntryOutcome>, upto: int)
    requires
        0 <= upto <= outcomes.len(),
    ensures
        bytes_copied(outcomes.take(upto)) <= bytes_copied(outcomes),
    decreases outcomes.len() - upto,
{
    if upto < outcomes.len() {
        assert(outcomes.take(upto + 1).drop_last() =~= outcomes.take(upto));
        lemma_bytes_copied_grows(outcomes, upto + 1);
    } else {
        assert(outcomes.take(upto) =~= outcomes);
    }
}

/// The bytes copied over two stretches of a walk add up.
pub proof fn lemma_bytes_copied_adds(first: Seq<EntryOutcome>, second: Seq<EntryOutcome>)
    ensures
        bytes_copied(first + second) == bytes_copied(first) + bytes_copied(second),
    decreases second.len(),
{
    if second.len() == 0 {
        assert(first + second =~= first);
    } else {
        assert((first + second).drop_last() =~= first + second.drop_last());
        lemma_bytes_copied_adds(first, second.drop_last());
    }
}

/// An entry that fails takes nothing from the walk: the bytes copied are
/// those of all the other entries, wherever in the walk the failure falls.
pub proof fn lemma_failed_entry_copies_nothing(
    before: Seq<EntryOutcome>,
    after: Seq<EntryOutcome>,
)
    ensures
        bytes_copied(before + seq![EntryOutcome::Failed] + after) == bytes_copied(before + after),
        failures(before + seq![EntryOutcome::Failed] + after) == failures(before + after) + 1,
{
    let failed = seq![EntryOutcome::Failed];
    lemma_bytes_copied_adds(before + failed, after);
    lemma_bytes_copied_adds(before, failed);
    lemma_bytes_copied_adds(before, after);
    assert(failed.drop_last() =~= Seq::<EntryOutcome>::empty());
    assert(bytes_copied(failed) == 0) by {
        reveal_with_fuel(bytes_copied, 2);
    }
    lemma_failures_add(before + failed, after);
    lemma_failures_add(before, failed);
    lemma_failures_add(before, after);
    assert(failures(failed) == 1) by {
        reveal_with_fuel(failures, 2);
    }
}

/// The failures of two stretches of a walk add up.
pub proof fn lemma_failures_add(first: Seq<EntryOutcome>, second: Seq<EntryOutcome>)
    ensures
        failures(first + second) == failures(first) + failures(second),
    decreases second.len(),
{
    if second.len() == 0 {
        assert(first + second =~= first);
    } else {
        assert((first + second).drop_last() =~= first + second.drop_last());
        lemma_failures_add(first, second.drop_last());
    }
}

} // verus!
