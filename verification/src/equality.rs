//! The equality oracle: whether a source file and a target file are the same,
//! decided from as little of the filesystem as will do.

use crate::protocol::{Observed, Step};
use crate::time::FileTime;
use vstd::prelude::*;

verus! {

/// What the filesystem reports of a file without reading it.
#[derive(Clone, Copy, Debug, PartialEq, Eq, Structural)]
pub struct FileMetadata {
    /// The size of the file in bytes.
    pub len: u64,
    /// When the file was last modified.
    pub modified: FileTime,
    /// When the file was last accessed.
    pub accessed: FileTime,
}

/// One observation of the filesystem that the oracle may ask for.
#[derive(Clone, Copy, Debug, PartialEq, Eq, Structural)]
pub enum Probe {
    /// Whether the target path exists.
    TargetExists,
    /// The metadata of the source file.
    SourceMetadata,
    /// The metadata of the target file.
    TargetMetadata,
    /// Whether the two files hold the same bytes.
    Contents,
}

/// What has been observed of a source file and a target file so far.
#[derive(Debug, PartialEq, Eq)]
pub struct Evidence {
    /// Whether the target path exists.
    pub target_exists: Observed<bool>,
    /// The metadata of the source file.
    pub source: Observed<FileMetadata>,
    /// The metadata of the target file.
    pub target: Observed<FileMetadata>,
    /// Whether the two files hold the same bytes.
    pub same_contents: Observed<bool>,
}

/// A file as the oracle sees it: its metadata and its bytes.
pub struct FileState {
    /// What the filesystem reports of the file.
    pub metadata: FileMetadata,
    /// The bytes of the file.
    pub contents: Seq<u8>,
}

/// Whether the cheap checks pass: the same size and the same modification
/// time, to the last nanosecond.
pub open spec fn metadata_match(source: FileMetadata, target: FileMetadata) -> bool {
    source.len == target.len && source.modified == target.modified
}

/// Two files are equal when the target exists and has the size, the
/// modification time and the bytes of the source. A target that does not
/// exist is `None`.
pub open spec fn files_equal(source: FileState, target: Option<FileState>) -> bool {
    match target {
        None => false,
        Some(target) => metadata_match(source.metadata, target.metadata) && source.contents
            == target.contents,
    }
}

impl Evidence {
    /// The evidence of a driver that has not looked at anything yet.
    pub open spec fn nothing() -> Evidence {
        Evidence {
            target_exists: Observed::NotYet,
            source: Observed::NotYet,
            target: Observed::NotYet,
            same_contents: Observed::NotYet,
        }
    }

    /// Whether everything that was seen is true of the given files. A
    /// target that does not exist is `None`.
    pub open spec fn truthful(self, source: FileState, target: Option<FileState>) -> bool {
        &&& self.target_exists matches Observed::Seen(exists) ==> exists == target.is_some()
        &&& self.source matches Observed::Seen(metadata) ==> metadata == source.metadata
        &&& self.target matches Observed::Seen(metadata) ==> target.is_some() && metadata
            == target.unwrap().metadata
        &&& self.same_contents matches Observed::Seen(same) ==> target.is_some() && same == (
        source.contents == target.unwrap().contents)
    }

    /// Whether every observation that was made succeeded.
    pub open spec fn unfailing(self) -> bool {
        &&& self.target_exists !is Failed
        &&& self.source !is Failed
        &&& self.target !is Failed
        &&& self.same_contents !is Failed
    }

    /// How many of the four observations are still open.
    pub open spec fn open_probes(self) -> nat {
        let a: nat = if self.target_exists.is_open() { 1 } else { 0 };
        let b: nat = if self.source.is_open() { 1 } else { 0 };
        let c: nat = if self.target.is_open() { 1 } else { 0 };
        let d: nat = if self.same_contents.is_open() { 1 } else { 0 };
        a + b + c + d
    }

    /// Whether `later` is this evidence with the outcome of `probe`
    /// recorded and nothing else changed.
    pub open spec fn answered(self, probe: Probe, later: Evidence) -> bool {
        match probe {
            Probe::TargetExists => !later.target_exists.is_open() && later == (Evidence {
                target_exists: later.target_exists,
                ..self
            }),
            Probe::SourceMetadata => !later.source.is_open() && later == (Evidence {
                source: later.source,
                ..self
            }),
            Probe::TargetMetadata => !later.target.is_open() && later == (Evidence {
                target: later.target,
                ..self
            }),
            Probe::Contents => !later.same_contents.is_open() && later == (Evidence {
                same_contents: later.same_contents,
                ..self
            }),
        }
    }

    /// Evidence with nothing observed.
    pub fn new() -> (evidence: Evidence)
        ensures
            evidence == Evidence::nothing(),
    {
        Evidence {
            target_exists: Observed::NotYet,
            source: Observed::NotYet,
            target: Observed::NotYet,
            same_contents: Observed::NotYet,
        }
    }
}

/// What the oracle does once it knows that the target exists and has the
/// metadata of both files.
pub open spec fn contents_step(
    source: FileMetadata,
    target: FileMetadata,
    same_contents: Observed<bool>,
) -> Step<Probe, Result<bool, Probe>> {
    if !metadata_match(source, target) {
        Step::Done(Ok(false))
    } else {
        match same_contents {
            Observed::NotYet => Step::Next(Probe::Contents),
            Observed::Failed => Step::Done(Err(Probe::Contents)),
            Observed::Seen(same) => Step::Done(Ok(same)),
        }
    }
}

/// What the oracle does once it knows that the target exists.
pub open spec fn metadata_step(evidence: Evidence) -> Step<Probe, Result<bool, Probe>> {
    match evidence.source {
        Observed::NotYet => Step::Next(Probe::SourceMetadata),
        Observed::Failed => Step::Done(Err(Probe::SourceMetadata)),
        Observed::Seen(source) => match evidence.target {
            Observed::NotYet => Step::Next(Probe::TargetMetadata),
            Observed::Failed => Step::Done(Err(Probe::TargetMetadata)),
            Observed::Seen(target) => contents_step(source, target, evidence.same_contents),
        },
    }
}

/// What the oracle does on given evidence. The checks run from the
/// cheapest to the dearest, and each observation is asked for only when the
/// ones before it have not settled the matter. An observation that was
/// asked for and failed ends the check with `Err`, which names it.
pub open spec fn equality_step(evidence: Evidence) -> Step<Probe, Result<bool, Probe>> {
    match evidence.target_exists {
        Observed::NotYet => Step::Next(Probe::TargetExists),
        Observed::Failed => Step::Done(Err(Probe::TargetExists)),
        Observed::Seen(false) => Step::Done(Ok(false)),
        Observed::Seen(true) => metadata_step(evidence),
    }
}

/// Decides whether two files are equal, or names the observation that is
/// needed to decide.
///
/// A target that does not exist is unequal to any source, and nothing more
/// is looked at. Otherwise the files are equal when they have the same
/// size, the same modification time and the same contents; the contents are
/// asked for only when size and modification time agree. The check fails,
/// with the observation that failed, as soon as one that it asked for has
/// failed.
pub fn is_equals(evidence: &Evidence) -> (step: Step<Probe, Result<bool, Probe>>)
    ensures
        step == equality_step(*evidence),
{
    match evidence.target_exists {
        Observed::NotYet => {
            return Step::Next(Probe::TargetExists);
        },
        Observed::Failed => {
            return Step::Done(Err(Probe::TargetExists));
        },
        Observed::Seen(false) => {
            return Step::Done(Ok(false));
        },
        Observed::Seen(true) => {},
    }
    let source = match evidence.source {
        Observed::NotYet => {
            return Step::Next(Probe::SourceMetadata);
        },
        Observed::Failed => {
            return Step::Done(Err(Probe::SourceMetadata));
        },
        Observed::Seen(metadata) => metadata,
    };
    let target = match evidence.target {
        Observed::NotYet => {
            return Step::Next(Probe::TargetMetadata);
        },
        Observed::Failed => {
            return Step::Done(Err(Probe::TargetMetadata));
        },
        Observed::Seen(metadata) => metadata,
    };
    if source.len != target.len || source.modified != target.modified {
        return Step::Done(Ok(false));
    }
    match evidence.same_contents {
        Observed::NotYet => Step::Next(Probe::Contents),
        Observed::Failed => Step::Done(Err(Probe::Contents)),
        Observed::Seen(same) => Step::Done(Ok(same)),
    }
}

/// Whatever the oracle decides on truthful evidence is the truth about the
/// files.
pub proof fn lemma_decision_is_sound(
    evidence: Evidence,
    source: FileState,
    target: Option<FileState>,
)
    requires
        evidence.truthful(source, target),
    ensures
        equality_step(evidence) matches Step::Done(Ok(equal)) ==> equal == files_equal(
            source,
            target,
        ),
{
}

/// The oracle asks only for what it has not been told, and each outcome
/// recorded leaves fewer observations open: a driver that records what it
/// is asked for is handed a result after at most four observations.
pub proof fn lemma_each_answer_is_progress(evidence: Evidence, probe: Probe, later: Evidence)
    requires
        equality_step(evidence) == Step::<Probe, Result<bool, Probe>>::Next(probe),
        evidence.answered(probe, later),
    ensures
        later.open_probes() < evidence.open_probes(),
        evidence.open_probes() <= 4,
{
}

/// The check fails only on an observation that failed, and while no
/// observation has failed it does not fail.
pub proof fn lemma_failure_is_an_observation_that_failed(evidence: Evidence)
    ensures
        equality_step(evidence) matches Step::Done(Err(probe)) ==> match probe {
            Probe::TargetExists => evidence.target_exists is Failed,
            Probe::SourceMetadata => evidence.source is Failed,
            Probe::TargetMetadata => evidence.target is Failed,
            Probe::Contents => evidence.same_contents is Failed,
        },
        evidence.unfailing() ==> !(equality_step(evidence) matches Step::Done(Err(_))),
{
}

/// Files of the same size, the same modification time and the same bytes
/// are equal: on truthful evidence the oracle never decides otherwise, and
/// with all four observations seen it decides that they are.
pub proof fn lemma_identical_files_are_equal(
    evidence: Evidence,
    source: FileState,
    target: FileState,
)
    requires
        evidence.truthful(source, Some(target)),
        source.metadata.len == target.metadata.len,
        source.metadata.modified == target.metadata.modified,
        source.contents == target.contents,
    ensures
        equality_step(evidence) matches Step::Done(Ok(equal)) ==> equal,
        evidence.unfailing() && evidence.open_probes() == 0 ==> equality_step(evidence)
            == Step::<Probe, Result<bool, Probe>>::Done(Ok(true)),
{
}

/// Files that differ in their modification time are unequal, though size and
/// bytes agree: on truthful evidence the oracle never decides otherwise,
/// and it decides so once it has seen that the target exists and has seen
/// both files' metadata, without asking for the contents.
pub proof fn lemma_modified_time_decides(
    evidence: Evidence,
    source: FileState,
    target: FileState,
)
    requires
        evidence.truthful(source, Some(target)),
        source.metadata.len == target.metadata.len,
        source.metadata.modified != target.metadata.modified,
        source.contents == target.contents,
    ensures
        equality_step(evidence) matches Step::Done(Ok(equal)) ==> !equal,
        evidence.target_exists is Seen && evidence.source is Seen && evidence.target is Seen
            ==> equality_step(evidence) == Step::<Probe, Result<bool, Probe>>::Done(Ok(false)),
{
}

/// Files that differ in their bytes are unequal, though size and
/// modification time agree: on truthful evidence the oracle never decides
/// otherwise, and with all four observations seen it decides so.
pub proof fn lemma_contents_decide(evidence: Evidence, source: FileState, target: FileState)
    requires
        evidence.truthful(source, Some(target)),
        source.metadata.len == target.metadata.len,
        source.metadata.modified == target.metadata.modified,
        source.contents != target.contents,
    ensures
        equality_step(evidence) matches Step::Done(Ok(equal)) ==> !equal,
        evidence.unfailing() && evidence.open_probes() == 0 ==> equality_step(evidence)
            == Step::<Probe, Result<bool, Probe>>::Done(Ok(false)),
{
}

/// A target that does not exist is unequal to any source, whatever else was
/// recorded, and its metadata is never asked for: the oracle asks for
/// metadata or contents only once it has seen that the target exists.
pub proof fn lemma_missing_target_is_unequal(evidence: Evidence)
    ensures
        evidence.target_exists == Observed::Seen(false) ==> equality_step(evidence) == Step::<
            Probe,
            Result<bool, Probe>,
        >::Done(Ok(false)),
        equality_step(evidence) matches Step::Next(probe) ==> probe == Probe::TargetExists
            || evidence.target_exists == Observed::Seen(true),
{
}

} // verus!
