//! The engine driven over a filesystem held in memory: each test performs
//! what the engine names on that filesystem and reports what it observed.

use fsync::{
    compare_chunks, copy_file_times, is_equals, mirrored_path, path_in_directory,
    primitive_outcome, set_file_times, sync, sync_file, tally, walk_entry, ChunkVerdict,
    CopyProgress, CopyTask, EntryOutcome, EntryProgress, EntryTask, Evidence, FileMetadata,
    FilePath, FileTime, Observed, PathKind, Precision, Probe, Step, SyncError, SyncMode,
    CHUNK_SIZE,
};
use std::collections::BTreeMap;

#[derive(Clone, Debug, PartialEq)]
enum Node {
    Directory,
    File { contents: Vec<u8>, modified: FileTime, accessed: FileTime, readable: bool },
}

#[derive(Debug, PartialEq)]
enum Failure {
    Engine(SyncError),
    NotFound,
    PermissionDenied,
    IsADirectory,
}

struct Disk {
    nodes: BTreeMap<Vec<Vec<u8>>, Node>,
    now: FileTime,
    copies: usize,
    metadata_reads: Vec<Vec<Vec<u8>>>,
    content_reads: usize,
}

fn observe<T>(result: Result<T, Failure>, failure: &mut Option<Failure>) -> Observed<T> {
    match result {
        Ok(seen) => Observed::Seen(seen),
        Err(error) => {
            *failure = Some(error);
            Observed::Failed
        }
    }
}

fn at(secs: u64) -> FileTime {
    FileTime { before_epoch: false, secs, nanos: 0 }
}

fn path(text: &str) -> FilePath {
    let mut components: Vec<Vec<u8>> = Vec::new();
    if text.starts_with('/') {
        components.push(b"/".to_vec());
    }
    for part in text.split('/') {
        if !part.is_empty() {
            components.push(part.as_bytes().to_vec());
        }
    }
    FilePath { components, directory: false }
}

impl Disk {
    fn new() -> Disk {
        Disk {
            nodes: BTreeMap::new(),
            now: at(2_000_000_000),
            copies: 0,
            metadata_reads: Vec::new(),
            content_reads: 0,
        }
    }

    fn directory(&mut self, at_path: &str) {
        self.nodes.insert(path(at_path).components, Node::Directory);
    }

    fn read_file(&self, at_path: &FilePath) -> Result<&Vec<u8>, Failure> {
        if at_path.directory {
            return Err(Failure::IsADirectory);
        }
        match self.nodes.get(&at_path.components) {
            Some(Node::File { contents, readable: true, .. }) => Ok(contents),
            Some(Node::File { readable: false, .. }) => Err(Failure::PermissionDenied),
            _ => Err(Failure::NotFound),
        }
    }

    fn kind(&self, at_path: &FilePath) -> PathKind {
        match self.nodes.get(&at_path.components) {
            Some(Node::File { .. }) => PathKind::File,
            Some(Node::Directory) => PathKind::Directory,
            None => PathKind::Other,
        }
    }

    fn is_present(&self, at_path: &FilePath) -> bool {
        match self.nodes.get(&at_path.components) {
            Some(Node::Directory) => true,
            Some(Node::File { .. }) => !at_path.directory,
            None => false,
        }
    }

    fn metadata(&mut self, at_path: &FilePath) -> Result<FileMetadata, Failure> {
        self.metadata_reads.push(at_path.components.clone());
        match self.nodes.get(&at_path.components) {
            Some(Node::File { contents, modified, accessed, .. }) => Ok(FileMetadata {
                len: contents.len() as u64,
                modified: *modified,
                accessed: *accessed,
            }),
            Some(Node::Directory) => {
                Ok(FileMetadata { len: 0, modified: self.now, accessed: self.now })
            }
            None => Err(Failure::NotFound),
        }
    }

    fn copy(&mut self, source: &FilePath, target: &FilePath) -> Result<u64, Failure> {
        let contents = self.read_file(source)?.clone();
        if target.directory || self.kind(target) == PathKind::Directory {
            return Err(Failure::IsADirectory);
        }
        let bytes = contents.len() as u64;
        self.copies += 1;
        self.nodes.insert(
            target.components.clone(),
            Node::File { contents, modified: self.now, accessed: self.now, readable: true },
        );
        Ok(bytes)
    }

    fn set_times(&mut self, at_path: &FilePath, atime: &FileTime, mtime: &FileTime) -> Result<(), Failure> {
        let times = set_file_times(atime, mtime, Precision::Nanoseconds).map_err(Failure::Engine)?;
        let status = match self.nodes.get_mut(&at_path.components) {
            Some(Node::File { modified, accessed, .. }) => {
                *accessed = FileTime {
                    before_epoch: false,
                    secs: times.accessed.secs as u64,
                    nanos: times.accessed.subsec as u32,
                };
                *modified = FileTime {
                    before_epoch: false,
                    secs: times.modified.secs as u64,
                    nanos: times.modified.subsec as u32,
                };
                0
            }
            _ => -1,
        };
        primitive_outcome(status, 9).map_err(Failure::Engine)
    }

    fn copy_times(&mut self, source: &FilePath, target: &FilePath) -> Result<(), Failure> {
        let metadata = self.metadata(source)?;
        let times = copy_file_times(&metadata, Precision::Nanoseconds).map_err(Failure::Engine)?;
        let atime = FileTime {
            before_epoch: false,
            secs: times.accessed.secs as u64,
            nanos: times.accessed.subsec as u32,
        };
        let mtime = FileTime {
            before_epoch: false,
            secs: times.modified.secs as u64,
            nanos: times.modified.subsec as u32,
        };
        self.set_times(target, &atime, &mtime)
    }

    fn have_same_contents(&mut self, source: &FilePath, target: &FilePath) -> Result<bool, Failure> {
        self.content_reads += 1;
        let source = self.read_file(source)?;
        let target = self.read_file(target)?;
        let mut offset = 0;
        loop {
            let source_chunk = &source[offset.min(source.len())..(offset + CHUNK_SIZE).min(source.len())];
            let target_chunk = &target[offset.min(target.len())..(offset + CHUNK_SIZE).min(target.len())];
            match compare_chunks(source_chunk, target_chunk) {
                ChunkVerdict::Finished => return Ok(true),
                ChunkVerdict::Differ => return Ok(false),
                ChunkVerdict::Matched => offset += CHUNK_SIZE,
            }
        }
    }

    fn is_equals(&mut self, source: &FilePath, target: &FilePath) -> Result<bool, Failure> {
        let mut evidence = Evidence::new();
        let mut failure = None;
        loop {
            match is_equals(&evidence) {
                Step::Done(Ok(equal)) => return Ok(equal),
                Step::Done(Err(_)) => return Err(failure.unwrap()),
                Step::Next(Probe::TargetExists) => {
                    evidence.target_exists = Observed::Seen(self.is_present(target))
                }
                Step::Next(Probe::SourceMetadata) => {
                    evidence.source = observe(self.metadata(source), &mut failure)
                }
                Step::Next(Probe::TargetMetadata) => {
                    evidence.target = observe(self.metadata(target), &mut failure)
                }
                Step::Next(Probe::Contents) => {
                    evidence.same_contents =
                        observe(self.have_same_contents(source, target), &mut failure)
                }
            }
        }
    }

    fn sync_file(&mut self, source: &FilePath, target: &FilePath) -> Result<u64, Failure> {
        let mut progress = CopyProgress::new();
        let mut failure = None;
        loop {
            match sync_file(&progress) {
                Step::Done(Ok(bytes)) => return Ok(bytes),
                Step::Done(Err(_)) => return Err(failure.unwrap()),
                Step::Next(CopyTask::CheckEquality) => {
                    progress.equal = observe(self.is_equals(source, target), &mut failure)
                }
                Step::Next(CopyTask::CopyContents) => {
                    progress.copied = observe(self.copy(source, target), &mut failure)
                }
                Step::Next(CopyTask::CopyTimes) => {
                    progress.times_copied = observe(self.copy_times(source, target), &mut failure)
                }
            }
        }
    }

    fn sync_entry(&mut self, source: &FilePath, entry: &FilePath, target: &FilePath) -> EntryOutcome {
        let mirrored = mirrored_path(source, entry, target).unwrap();
        let mut progress = EntryProgress::new(self.kind(entry) == PathKind::Directory);
        loop {
            match walk_entry(&progress) {
                Step::Done(outcome) => return outcome,
                Step::Next(EntryTask::ProbeTarget) => {
                    progress.target_exists = Observed::Seen(self.is_present(&mirrored))
                }
                Step::Next(EntryTask::CreateDirectory) => {
                    self.nodes.insert(mirrored.components.clone(), Node::Directory);
                    progress.performed = Observed::Seen(0);
                }
                Step::Next(EntryTask::SyncFile) => {
                    progress.performed = observe(self.sync_file(entry, &mirrored), &mut None)
                }
            }
        }
    }

    fn sync(&mut self, source: &FilePath, target: &FilePath) -> Result<u64, Failure> {
        match sync(self.kind(source), self.kind(target)).map_err(Failure::Engine)? {
            SyncMode::File => self.sync_file(source, target),
            SyncMode::FileIntoDirectory => {
                let inside = path_in_directory(source, target).unwrap();
                self.sync_file(source, &inside)
            }
            SyncMode::Tree => {
                let entries: Vec<Vec<Vec<u8>>> = self
                    .nodes
                    .keys()
                    .filter(|entry| entry.starts_with(&source.components))
                    .cloned()
                    .collect();
                let mut outcomes = Vec::new();
                for entry in entries {
                    let entry = FilePath { components: entry, directory: false };
                    outcomes.push(self.sync_entry(source, &entry, target));
                }
                Ok(tally(&outcomes).unwrap().copied)
            }
        }
    }
}

fn create_test_file(disk: &mut Disk, at_path: &str, buf: &[u8], time: &FileTime) -> Result<(), Failure> {
    disk.nodes.insert(
        path(at_path).components,
        Node::File { contents: buf.to_vec(), modified: disk.now, accessed: disk.now, readable: true },
    );
    disk.set_times(&path(at_path), time, time)
}

#[test]
fn equals_files_are_equals() {
    let mut disk = Disk::new();
    let test_time = at(1509062400);
    create_test_file(&mut disk, "/tmp/a.txt", b"avocado", &test_time).unwrap();
    create_test_file(&mut disk, "/tmp/b.txt", b"avocado", &test_time).unwrap();

    assert!(disk.is_equals(&path("/tmp/a.txt"), &path("/tmp/b.txt")).unwrap());
}

#[test]
fn files_with_same_contents_but_different_mtime_not_are_equals() {
    let mut disk = Disk::new();
    let test_time_a = at(1509062400);
    let test_time_b = at(1509068400);
    create_test_file(&mut disk, "/tmp/c.txt", b"avocado", &test_time_a).unwrap();
    create_test_file(&mut disk, "/tmp/d.txt", b"avocado", &test_time_b).unwrap();

    assert!(!disk.is_equals(&path("/tmp/c.txt"), &path("/tmp/d.txt")).unwrap());
}

#[test]
fn files_with_different_contents_and_same_mtime_not_are_equals() {
    let mut disk = Disk::new();
    let test_time = at(1509062400);
    create_test_file(&mut disk, "/tmp/e.txt", b"avocado", &test_time).unwrap();
    create_test_file(&mut disk, "/tmp/f.txt", b"banana", &test_time).unwrap();

    assert!(!disk.is_equals(&path("/tmp/e.txt"), &path("/tmp/f.txt")).unwrap());
}

#[test]
fn test_set_file_times() {
    let atime = at(1509062400);
    let mtime = at(1509105600);

    let mut disk = Disk::new();
    disk.directory("test_set_file_times");
    create_test_file(&mut disk, "./test_files/a.txt", b"a", &at(1)).unwrap();
    disk.copy(&path("./test_files/a.txt"), &path("test_set_file_times/a.txt")).unwrap();

    disk.set_times(&path("./test_files/a.txt"), &atime, &mtime).unwrap();
    let metadata = disk.metadata(&path("./test_files/a.txt")).unwrap();
    assert_eq!(metadata.accessed, atime);
    assert_eq!(metadata.modified, mtime);
}

#[test]
fn same_size_and_mtime_but_other_bytes_are_not_equal() {
    let mut disk = Disk::new();
    let test_time = at(1509062400);
    create_test_file(&mut disk, "/tmp/g.txt", b"avocado", &test_time).unwrap();
    create_test_file(&mut disk, "/tmp/h.txt", b"avocadO", &test_time).unwrap();

    assert!(!disk.is_equals(&path("/tmp/g.txt"), &path("/tmp/h.txt")).unwrap());
    assert_eq!(disk.content_reads, 1);
}

#[test]
fn contents_are_not_read_when_mtime_differs() {
    let mut disk = Disk::new();
    create_test_file(&mut disk, "/tmp/c.txt", b"avocado", &at(1509062400)).unwrap();
    create_test_file(&mut disk, "/tmp/d.txt", b"avocado", &at(1509068400)).unwrap();
    disk.metadata_reads.clear();

    assert!(!disk.is_equals(&path("/tmp/c.txt"), &path("/tmp/d.txt")).unwrap());
    assert_eq!(disk.content_reads, 0);
    assert_eq!(disk.metadata_reads.len(), 2);
}

#[test]
fn nanoseconds_of_mtime_matter() {
    let mut disk = Disk::new();
    let coarse = FileTime { before_epoch: false, secs: 1509062400, nanos: 0 };
    let fine = FileTime { before_epoch: false, secs: 1509062400, nanos: 1 };
    create_test_file(&mut disk, "/tmp/c.txt", b"avocado", &coarse).unwrap();
    create_test_file(&mut disk, "/tmp/d.txt", b"avocado", &fine).unwrap();

    assert!(!disk.is_equals(&path("/tmp/c.txt"), &path("/tmp/d.txt")).unwrap());
}

#[test]
fn missing_target_is_unequal_and_no_metadata_is_read() {
    let mut disk = Disk::new();
    create_test_file(&mut disk, "/tmp/a.txt", b"avocado", &at(1509062400)).unwrap();
    disk.metadata_reads.clear();

    assert_eq!(disk.is_equals(&path("/tmp/a.txt"), &path("/tmp/none.txt")), Ok(false));
    assert!(disk.metadata_reads.is_empty());
    assert_eq!(disk.is_equals(&path("/tmp/gone.txt"), &path("/tmp/none.txt")), Ok(false));
}

#[test]
fn missing_source_fails_the_check_when_target_exists() {
    let mut disk = Disk::new();
    create_test_file(&mut disk, "/tmp/b.txt", b"avocado", &at(1509062400)).unwrap();

    assert_eq!(disk.is_equals(&path("/tmp/none.txt"), &path("/tmp/b.txt")), Err(Failure::NotFound));
    assert_eq!(disk.sync_file(&path("/tmp/none.txt"), &path("/tmp/b.txt")), Err(Failure::NotFound));
    assert_eq!(disk.copies, 0);
}

#[test]
fn second_sync_of_a_file_copies_nothing() {
    let mut disk = Disk::new();
    create_test_file(&mut disk, "/tmp/a.txt", b"avocado", &at(1509062400)).unwrap();

    assert_eq!(disk.sync_file(&path("/tmp/a.txt"), &path("/tmp/b.txt")), Ok(7));
    let synced = disk.nodes.get(&path("/tmp/b.txt").components).cloned();
    assert_eq!(disk.sync_file(&path("/tmp/a.txt"), &path("/tmp/b.txt")), Ok(0));
    assert_eq!(disk.copies, 1);
    assert_eq!(disk.nodes.get(&path("/tmp/b.txt").components).cloned(), synced);
}

#[test]
fn sync_of_a_file_transfers_times_and_contents() {
    let mut disk = Disk::new();
    let time = FileTime { before_epoch: false, secs: 1509062400, nanos: 987_654_321 };
    create_test_file(&mut disk, "/tmp/a.txt", b"avocado", &time).unwrap();
    create_test_file(&mut disk, "/tmp/b.txt", b"banana", &at(5)).unwrap();

    assert_eq!(disk.sync_file(&path("/tmp/a.txt"), &path("/tmp/b.txt")), Ok(7));
    let source = disk.metadata(&path("/tmp/a.txt")).unwrap();
    let target = disk.metadata(&path("/tmp/b.txt")).unwrap();
    assert_eq!(target.modified, source.modified);
    assert_eq!(target.accessed, source.accessed);
    assert_eq!(target.modified, time);
    assert_eq!(disk.have_same_contents(&path("/tmp/a.txt"), &path("/tmp/b.txt")), Ok(true));
    assert_eq!(disk.is_equals(&path("/tmp/a.txt"), &path("/tmp/b.txt")), Ok(true));
}

#[test]
fn sync_of_a_file_with_a_time_before_the_epoch_fails_after_the_copy() {
    let mut disk = Disk::new();
    let early = FileTime { before_epoch: true, secs: 10, nanos: 0 };
    disk.nodes.insert(
        path("/tmp/old.txt").components,
        Node::File { contents: b"avocado".to_vec(), modified: early, accessed: at(3), readable: true },
    );

    assert_eq!(
        disk.sync_file(&path("/tmp/old.txt"), &path("/tmp/new.txt")),
        Err(Failure::Engine(SyncError::SystemTime(early)))
    );
    assert_eq!(disk.copies, 1);
}

#[test]
fn tree_is_mirrored_under_a_target_that_does_not_exist() {
    let mut disk = Disk::new();
    let time = at(1509062400);
    disk.directory("/source");
    disk.directory("/source/sub");
    create_test_file(&mut disk, "/source/x.txt", b"avocado", &time).unwrap();
    create_test_file(&mut disk, "/source/sub/y.txt", b"banana", &at(1509068400)).unwrap();

    assert_eq!(disk.sync(&path("/source"), &path("/target")), Ok(13));

    assert_eq!(disk.kind(&path("/target")), PathKind::Directory);
    assert_eq!(disk.kind(&path("/target/sub")), PathKind::Directory);
    assert_eq!(
        disk.nodes.get(&path("/target/x.txt").components),
        Some(&Node::File { contents: b"avocado".to_vec(), modified: time, accessed: time, readable: true })
    );
    assert_eq!(disk.read_file(&path("/target/sub/y.txt")), Ok(&b"banana".to_vec()));
    assert_eq!(disk.metadata(&path("/target/sub/y.txt")).unwrap().modified, at(1509068400));
    assert_eq!(disk.is_equals(&path("/source/x.txt"), &path("/target/x.txt")), Ok(true));
    assert_eq!(disk.is_equals(&path("/source/sub/y.txt"), &path("/target/sub/y.txt")), Ok(true));

    assert_eq!(disk.sync(&path("/source"), &path("/target")), Ok(0));
    assert_eq!(disk.copies, 2);
}

#[test]
fn tree_sync_into_an_existing_directory_copies_only_what_differs() {
    let mut disk = Disk::new();
    let time = at(1509062400);
    disk.directory("/source");
    disk.directory("/target");
    create_test_file(&mut disk, "/source/x.txt", b"avocado", &time).unwrap();
    create_test_file(&mut disk, "/source/z.txt", b"cherry", &time).unwrap();
    create_test_file(&mut disk, "/target/x.txt", b"avocado", &time).unwrap();
    create_test_file(&mut disk, "/target/kept.txt", b"kept", &time).unwrap();

    assert_eq!(disk.sync(&path("/source"), &path("/target")), Ok(6));
    assert_eq!(disk.copies, 1);
    assert_eq!(disk.read_file(&path("/target/kept.txt")), Ok(&b"kept".to_vec()));
    assert_eq!(disk.read_file(&path("/target/z.txt")), Ok(&b"cherry".to_vec()));
}

#[test]
fn tree_sync_goes_on_after_an_unreadable_file() {
    let mut disk = Disk::new();
    let time = at(1509062400);
    disk.directory("/source");
    create_test_file(&mut disk, "/source/a.txt", b"avocado", &time).unwrap();
    disk.nodes.insert(
        path("/source/b.txt").components,
        Node::File { contents: b"secret".to_vec(), modified: time, accessed: time, readable: false },
    );
    create_test_file(&mut disk, "/source/c.txt", b"cherry", &time).unwrap();

    assert_eq!(disk.sync(&path("/source"), &path("/target")), Ok(13));
    assert!(disk.is_present(&path("/target/a.txt")));
    assert!(!disk.is_present(&path("/target/b.txt")));
    assert!(disk.is_present(&path("/target/c.txt")));
}

#[test]
fn directory_onto_a_file_is_invalid_usage_and_copies_nothing() {
    let mut disk = Disk::new();
    disk.directory("/source");
    create_test_file(&mut disk, "/source/x.txt", b"avocado", &at(1509062400)).unwrap();
    create_test_file(&mut disk, "/file.txt", b"banana", &at(1509062400)).unwrap();
    let before = disk.nodes.clone();

    assert_eq!(
        disk.sync(&path("/source"), &path("/file.txt")),
        Err(Failure::Engine(SyncError::InvalidUsage(
            "source is a directory but target is a file".to_string()
        )))
    );
    assert_eq!(disk.copies, 0);
    assert_eq!(disk.nodes, before);
}

#[test]
fn file_onto_a_file_is_synchronised_directly() {
    let mut disk = Disk::new();
    create_test_file(&mut disk, "/a.txt", b"avocado", &at(1509062400)).unwrap();
    create_test_file(&mut disk, "/b.txt", b"banana", &at(1509068400)).unwrap();

    assert_eq!(disk.sync(&path("/a.txt"), &path("/b.txt")), Ok(7));
    assert_eq!(disk.read_file(&path("/b.txt")), Ok(&b"avocado".to_vec()));
    assert_eq!(disk.sync(&path("/a.txt"), &path("/b.txt")), Ok(0));
}

#[test]
fn file_onto_nothing_is_walked_and_not_copied() {
    let mut disk = Disk::new();
    create_test_file(&mut disk, "/a.txt", b"avocado", &at(1509062400)).unwrap();

    assert_eq!(disk.sync(&path("/a.txt"), &path("/missing")), Ok(0));
    assert_eq!(disk.copies, 0);
    assert!(!disk.is_present(&path("/missing")));
}

#[test]
fn source_that_is_not_there_copies_nothing() {
    let mut disk = Disk::new();
    disk.directory("/target");

    assert_eq!(disk.sync(&path("/missing"), &path("/target")), Ok(0));
    assert_eq!(disk.copies, 0);
}

#[test]
fn file_into_a_directory_keeps_its_name() {
    let mut disk = Disk::new();
    disk.directory("/target");
    create_test_file(&mut disk, "/some/a.txt", b"avocado", &at(1509062400)).unwrap();

    assert_eq!(disk.sync(&path("/some/a.txt"), &path("/target")), Ok(7));
    assert_eq!(disk.read_file(&path("/target/a.txt")), Ok(&b"avocado".to_vec()));
    assert_eq!(disk.metadata(&path("/target/a.txt")).unwrap().modified, at(1509062400));
}

#[test]
fn streamed_comparison_stops_at_the_first_chunk_that_differs() {
    let mut left = vec![7u8; 3 * CHUNK_SIZE];
    let right = left.clone();
    left[CHUNK_SIZE + 5] = 8;

    let mut steps = 0;
    let mut offset = 0;
    let verdict = loop {
        steps += 1;
        let end = (offset + CHUNK_SIZE).min(left.len());
        match compare_chunks(&left[offset.min(end)..end], &right[offset.min(end)..end]) {
            ChunkVerdict::Matched => offset += CHUNK_SIZE,
            other => break other,
        }
    };
    assert_eq!(verdict, ChunkVerdict::Differ);
    assert_eq!(steps, 2);
}
