//! Comparing the contents of two files chunk by chunk, in lockstep.

use vstd::prelude::*;
use vstd::slice::slice_subrange;

verus! {

/// The number of bytes asked of each file in one step of a comparison.
pub const CHUNK_SIZE: usize = 512;

/// What one pair of chunks, read at the same step from the two files, tells
/// about the files.
#[derive(Clone, Copy, Debug, PartialEq, Eq, Structural)]
pub enum ChunkVerdict {
    /// Both files ended at this step: nothing read so far differed.
    Finished,
    /// The chunks differ in length or in content: the files differ.
    Differ,
    /// The chunks are the same and hold data: the comparison goes on.
    Matched,
}

/// The verdict on one pair of chunks.
pub open spec fn chunk_verdict(source: Seq<u8>, target: Seq<u8>) -> ChunkVerdict {
    if source.len() == 0 && target.len() == 0 {
        ChunkVerdict::Finished
    } else if source == target {
        ChunkVerdict::Matched
    } else {
        ChunkVerdict::Differ
    }
}

/// The outcome of a lockstep comparison that starts at pair `step` of the
/// chunks read from each file: decided by the first pair from there on that
/// is not a match, and open (`None`) while every pair read has matched.
pub open spec fn lockstep_from(source: Seq<Seq<u8>>, target: Seq<Seq<u8>>, step: int) -> Option<
    bool,
>
    decreases source.len() - step,
{
    if step < 0 || step >= source.len() || step >= target.len() {
        None
    } else {
        match chunk_verdict(source[step], target[step]) {
            ChunkVerdict::Finished => Some(true),
            ChunkVerdict::Differ => Some(false),
            ChunkVerdict::Matched => lockstep_from(source, target, step + 1),
        }
    }
}

/// The outcome of a lockstep comparison over the chunks read from each file.
pub open spec fn lockstep(source: Seq<Seq<u8>>, target: Seq<Seq<u8>>) -> Option<bool> {
    lockstep_from(source, target, 0)
}

/// The chunk that a read of at most [`CHUNK_SIZE`] bytes yields from `data`
/// at `offset`; empty at and after the end of the data.
pub open spec fn chunk_from(data: Seq<u8>, offset: int) -> Seq<u8> {
    if offset >= data.len() {
        Seq::empty()
    } else if offset + CHUNK_SIZE <= data.len() {
        data.subrange(offset, offset + CHUNK_SIZE)
    } else {
        data.subrange(offset, data.len() as int)
    }
}

/// The chunks that reading `data` in full steps yields, one after the other,
/// followed by the empty reads at its end.
pub open spec fn reads(data: Seq<u8>) -> Seq<Seq<u8>> {
    Seq::new(data.len() / (CHUNK_SIZE as nat) + 2, |step: int| chunk_from(data, step * CHUNK_SIZE))
}

/// Whether two byte strings are the same.
pub fn bytes_equal(left: &[u8], right: &[u8]) -> (same: bool)
    ensures
        same == (left@ == right@),
{
    if left.len() != right.len() {
        return false;
    }
    let mut index: usize = 0;
    while index < left.len()
        invariant
            index <= left.len(),
            left.len() == right.len(),
            forall|i: int| 0 <= i < index ==> left@[i] == right@[i],
        decreases left.len() - index,
    {
        if left[index] != right[index] {
            return false;
        }
        index += 1;
    }
    assert(left@ =~= right@);
    true
}

/// Decides what the pair of chunks read at one step of a comparison tells
/// about the files.
///
/// A comparison of two streamed files reads a chunk from each at every step
/// and takes the next step only while the chunks match.
pub fn compare_chunks(source: &[u8], target: &[u8]) -> (verdict: ChunkVerdict)
    ensures
        verdict == chunk_verdict(source@, target@),
{
    if source.len() == 0 && target.len() == 0 {
        ChunkVerdict::Finished
    } else if bytes_equal(source, target) {
        ChunkVerdict::Matched
    } else {
        ChunkVerdict::Differ
    }
}

/// Reads the next chunk of `data` at `offset`.
fn read_chunk(data: &[u8], offset: usize) -> (chunk: &[u8])
    requires
        offset <= data@.len(),
    ensures
        chunk@ == chunk_from(data@, offset as int),
{
    let end = if data.len() - offset >= CHUNK_SIZE {
        offset + CHUNK_SIZE
    } else {
        data.len()
    };
    let chunk = slice_subrange(data, offset, end);
    assert(chunk@ =~= chunk_from(data@, offset as int));
    chunk
}

/// Whether two byte strings have the same contents, decided by comparing
/// them chunk by chunk in lockstep and stopping at the first pair of chunks
/// that differs.
pub fn have_same_contents(source: &[u8], target: &[u8]) -> (same: bool)
    ensures
        same == (source@ == target@),
        Some(same) == lockstep(reads(source@), reads(target@)),
{
    proof {
        assert(source@.subrange(0, 0) =~= target@.subrange(0, 0));
        lemma_lockstep_decides_equality(source@, target@, 0);
    }
    let mut offset: usize = 0;
    loop
        invariant
            offset <= source@.len(),
            offset <= target@.len(),
            lockstep(reads(source@), reads(target@)) == Some(source@ == target@),
            source@.subrange(0, offset as int) == target@.subrange(0, offset as int),
        decreases source@.len() - offset,
    {
        let source_chunk = read_chunk(source, offset);
        let target_chunk = read_chunk(target, offset);
        match compare_chunks(source_chunk, target_chunk) {
            ChunkVerdict::Finished => {
                assert(source@ =~= source@.subrange(0, offset as int));
                assert(target@ =~= target@.subrange(0, offset as int));
                return true;
            },
            ChunkVerdict::Differ => {
                assert(source@ == target@ ==> chunk_from(source@, offset as int) == chunk_from(
                    target@,
                    offset as int,
                ));
                return false;
            },
            ChunkVerdict::Matched => {
                let read = source_chunk.len();
                assert(read == source_chunk@.len() && read <= source.len() - offset);
                let advanced = offset + read;
                assert(source@.subrange(0, advanced as int) =~= source@.subrange(0, offset as int)
                    + source_chunk@);
                assert(target@.subrange(0, advanced as int) =~= target@.subrange(0, offset as int)
                    + target_chunk@);
                offset = advanced;
            },
        }
    }
}

/// Whatever is read afterwards, a lockstep comparison is decided by the first
/// pair of chunks that differs: if every pair before pair `first` matched and
/// pair `first` differs, the files are reported as different.
pub proof fn lemma_first_difference_decides(
    source: Seq<Seq<u8>>,
    target: Seq<Seq<u8>>,
    first: int,
)
    requires
        0 <= first < source.len(),
        first < target.len(),
        forall|step: int|
            0 <= step < first ==> chunk_verdict(#[trigger] source[step], target[step])
                == ChunkVerdict::Matched,
        chunk_verdict(source[first], target[first]) == ChunkVerdict::Differ,
    ensures
        lockstep(source, target) == Some(false),
{
    lemma_difference_decides_from(source, target, 0, first);
}

proof fn lemma_difference_decides_from(
    source: Seq<Seq<u8>>,
    target: Seq<Seq<u8>>,
    step: int,
    first: int,
)
    requires
        0 <= step <= first < source.len(),
        first < target.len(),
        forall|i: int|
            step <= i < first ==> chunk_verdict(#[trigger] source[i], target[i])
                == ChunkVerdict::Matched,
        chunk_verdict(source[first], target[first]) == ChunkVerdict::Differ,
    ensures
        lockstep_from(source, target, step) == Some(false),
    decreases first - step,
{
    if step < first {
        lemma_difference_decides_from(source, target, step + 1, first);
    }
}

/// A lockstep comparison reports two files as the same only if they are:
/// whatever the sizes of the chunks that were read, up to the step `end` at
/// which both files ended, every chunk read from the one is the chunk read
/// from the other.
pub proof fn lemma_same_means_same_chunks(source: Seq<Seq<u8>>, target: Seq<Seq<u8>>) -> (end:
    int)
    requires
        lockstep(source, target) == Some(true),
    ensures
        0 <= end < source.len(),
        end < target.len(),
        source[end].len() == 0,
        target[end].len() == 0,
        source.take(end) == target.take(end),
{
    let end = lemma_same_from(source, target, 0);
    assert(source.take(end) =~= target.take(end));
    end
}

proof fn lemma_same_from(source: Seq<Seq<u8>>, target: Seq<Seq<u8>>, step: int) -> (end: int)
    requires
        0 <= step,
        lockstep_from(source, target, step) == Some(true),
    ensures
        step <= end < source.len(),
        end < target.len(),
        source[end].len() == 0,
        target[end].len() == 0,
        forall|i: int| step <= i < end ==> source[i] == target[i],
    decreases source.len() - step,
{
    if chunk_verdict(source[step], target[step]) == ChunkVerdict::Finished {
        step
    } else {
        lemma_same_from(source, target, step + 1)
    }
}

/// Read in full steps, two byte strings that agree on their first `step`
/// chunks are reported as the same by the rest of a lockstep comparison
/// exactly when they are the same.
pub proof fn lemma_lockstep_decides_equality(source: Seq<u8>, target: Seq<u8>, step: int)
    requires
        0 <= step,
        step * CHUNK_SIZE <= source.len(),
        step * CHUNK_SIZE <= target.len(),
        source.subrange(0, step * CHUNK_SIZE) == target.subrange(0, step * CHUNK_SIZE),
    ensures
        lockstep_from(reads(source), reads(target), step) == Some(source == target),
    decreases source.len() - step * CHUNK_SIZE,
{
    let offset = step * CHUNK_SIZE;
    let source_chunk = chunk_from(source, offset);
    let target_chunk = chunk_from(target, offset);
    let source_reads = reads(source);
    let target_reads = reads(target);
    assert(step < source_reads.len() && source_reads[step] == source_chunk);
    assert(step < target_reads.len() && target_reads[step] == target_chunk);
    assert(lockstep_from(source_reads, target_reads, step) == match chunk_verdict(
        source_chunk,
        target_chunk,
    ) {
        ChunkVerdict::Finished => Some(true),
        ChunkVerdict::Differ => Some(false),
        ChunkVerdict::Matched => lockstep_from(source_reads, target_reads, step + 1),
    });
    match chunk_verdict(source_chunk, target_chunk) {
        ChunkVerdict::Finished => {
            assert(source =~= source.subrange(0, offset));
            assert(target =~= target.subrange(0, offset));
        },
        ChunkVerdict::Differ => {},
        ChunkVerdict::Matched => {
            let next = offset + CHUNK_SIZE;
            assert(source.subrange(0, offset + source_chunk.len()) =~= source.subrange(0, offset)
                + source_chunk);
            assert(target.subrange(0, offset + target_chunk.len()) =~= target.subrange(0, offset)
                + target_chunk);
            if source_chunk.len() == CHUNK_SIZE {
                lemma_lockstep_decides_equality(source, target, step + 1);
            } else {
                assert(source =~= source.subrange(0, offset + source_chunk.len()));
                assert(target =~= target.subrange(0, offset + target_chunk.len()));
                assert(source_reads[step + 1] == chunk_from(source, next));
                assert(target_reads[step + 1] == chunk_from(target, next));
            }
        },
    }
}

} // verus!
