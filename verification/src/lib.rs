//! One-directional file synchronisation: the decisions of the engine, free of I/O.
//!
//! A driver owns the filesystem. It asks the functions here what to do next,
//! performs that one operation, records what came of it, and asks again.

pub mod contents;
pub mod copy;
pub mod equality;
pub mod errors;
pub mod paths;
pub mod protocol;
pub mod time;
pub mod tree;

pub use crate::contents::{
    bytes_equal, compare_chunks, have_same_contents, ChunkVerdict, CHUNK_SIZE,
};
pub use crate::copy::{copy_file_times, sync_file, CopyProgress, CopyTask};
pub use crate::equality::{is_equals, Evidence, FileMetadata, Probe};
pub use crate::errors::SyncError;
pub use crate::paths::{mirrored_path, path_in_directory, FilePath};
pub use crate::protocol::{Observed, Step};
pub use crate::time::{
    primitive_outcome, set_file_times, FileTime, FileTimes, Precision, TimeValue,
};
pub use crate::tree::{
    sync, tally, walk_entry, EntryOutcome, EntryProgress, EntryTask, PathKind, SyncMode,
    TreeReport,
};
