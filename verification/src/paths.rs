//! Paths as the engine sees them, and the mirroring of a source tree onto a
//! target root.

use crate::contents::bytes_equal;
use vstd::prelude::*;
use vstd::slice::slice_to_vec;

verus! {

/// A path, held as its components from the outermost to the innermost. A
/// component is the bytes of one name; the root of the filesystem is the
/// component `/`.
#[derive(Debug, PartialEq, Eq)]
pub struct FilePath {
    /// The components of the path, outermost first.
    pub components: Vec<Vec<u8>>,
    /// Whether the path ends in a separator, so that it can name nothing
    /// but a directory.
    pub directory: bool,
}

impl View for FilePath {
    type V = Seq<Seq<u8>>;

    open spec fn view(&self) -> Seq<Seq<u8>> {
        self.components@.map_values(|component: Vec<u8>| component@)
    }
}

/// Whether a component names a file or a directory, rather than the root
/// (`/`), the current directory (`.`) or the parent directory (`..`).
pub open spec fn is_name(component: Seq<u8>) -> bool {
    &&& component.len() > 0
    &&& component != seq![0x2fu8]
    &&& component != seq![0x2eu8]
    &&& component != seq![0x2eu8, 0x2eu8]
}

/// The last component of a path, where it is a name.
pub open spec fn file_name_of(path: Seq<Seq<u8>>) -> Option<Seq<u8>> {
    if path.len() > 0 && is_name(path.last()) {
        Some(path.last())
    } else {
        None
    }
}

/// Whether `base` is the beginning of `path`, component by component.
pub open spec fn starts_with(path: Seq<Seq<u8>>, base: Seq<Seq<u8>>) -> bool {
    base.len() <= path.len() && path.subrange(0, base.len() as int) == base
}

/// Whether a path joined from a base and `relative` ends in a separator:
/// it does when `relative` does, and when `relative` is empty, since the
/// separator that joins the two is then the end of the path.
pub open spec fn joined_as_directory(relative: Seq<Seq<u8>>, relative_directory: bool) -> bool {
    relative_directory || relative.len() == 0
}

/// The path that mirrors `entry` under `target_root`: what `entry` adds to
/// `source_root`, added to `target_root`. There is none for an entry that
/// does not lie under `source_root`.
pub open spec fn mirror(
    source_root: Seq<Seq<u8>>,
    entry: Seq<Seq<u8>>,
    target_root: Seq<Seq<u8>>,
) -> Option<Seq<Seq<u8>>> {
    if starts_with(entry, source_root) {
        Some(target_root + entry.skip(source_root.len() as int))
    } else {
        None
    }
}

/// Whether a component is a name (see [`is_name`]).
pub fn component_is_name(component: &[u8]) -> (name: bool)
    ensures
        name == is_name(component@),
{
    let length = component.len();
    if length == 0 {
        false
    } else if length == 1 {
        assert(component@ =~= seq![component@[0]]);
        assert(seq![0x2fu8][0] == 0x2fu8 && seq![0x2eu8][0] == 0x2eu8);
        component[0] != 0x2f && component[0] != 0x2e
    } else if length == 2 {
        assert(component@ =~= seq![component@[0], component@[1]]);
        assert(seq![0x2eu8, 0x2eu8][0] == 0x2eu8 && seq![0x2eu8, 0x2eu8][1] == 0x2eu8);
        !(component[0] == 0x2e && component[1] == 0x2e)
    } else {
        assert(seq![0x2fu8].len() == 1 && seq![0x2eu8].len() == 1 && seq![0x2eu8, 0x2eu8].len()
            == 2);
        true
    }
}

impl FilePath {
    /// The path with no components.
    pub fn new() -> (path: FilePath)
        ensures
            path@ == Seq::<Seq<u8>>::empty(),
            !path.directory,
    {
        let path = FilePath { components: Vec::new(), directory: false };
        assert(path@ =~= Seq::<Seq<u8>>::empty());
        path
    }

    /// The number of components.
    pub fn len(&self) -> (length: usize)
        ensures
            length == self@.len(),
    {
        self.components.len()
    }

    /// Adds one component at the inner end. The path then ends in that
    /// component, not in a separator.
    pub fn push(&mut self, component: &[u8])
        ensures
            final(self)@ == old(self)@.push(component@),
            !final(self).directory,
    {
        self.components.push(slice_to_vec(component));
        self.directory = false;
        assert(self@ =~= old(self)@.push(component@));
    }

    /// The last component of the path, if there is one and it is a name.
    pub fn file_name(&self) -> (name: Option<Vec<u8>>)
        ensures
            name.is_some() == file_name_of(self@).is_some(),
            name matches Some(bytes) ==> Some(bytes@) == file_name_of(self@),
    {
        let length = self.components.len();
        if length == 0 {
            return None;
        }
        let last = self.components[length - 1].as_slice();
        assert(last@ == self@.last());
        if component_is_name(last) {
            Some(slice_to_vec(last))
        } else {
            None
        }
    }

    /// Whether `base` is the beginning of this path.
    pub fn starts_with(&self, base: &FilePath) -> (under: bool)
        ensures
            under == starts_with(self@, base@),
    {
        if base.components.len() > self.components.len() {
            return false;
        }
        let mut index: usize = 0;
        while index < base.components.len()
            invariant
                index <= base.components.len() <= self.components.len(),
                forall|i: int| 0 <= i < index ==> self@[i] == base@[i],
            decreases base.components.len() - index,
        {
            if !bytes_equal(self.components[index].as_slice(), base.components[index].as_slice()) {
                assert(self@.subrange(0, base@.len() as int)[index as int] == self@[index as int]);
                return false;
            }
            index += 1;
        }
        assert(self@.subrange(0, base@.len() as int) =~= base@);
        true
    }

    /// This path with `relative` added at the inner end. Joined with an
    /// empty path, this path ends in the separator and names a directory.
    pub fn join(&self, relative: &FilePath) -> (joined: FilePath)
        ensures
            joined@ == self@ + relative@,
            joined.directory == joined_as_directory(relative@, relative.directory),
    {
        let mut joined = FilePath::new();
        joined.extend_from(self, 0);
        joined.extend_from(relative, 0);
        joined.directory = relative.directory || relative.components.len() == 0;
        assert(self@.skip(0) =~= self@ && relative@.skip(0) =~= relative@);
        joined
    }

    /// What this path adds to `base`, if `base` is its beginning.
    pub fn strip_prefix(&self, base: &FilePath) -> (rest: Option<FilePath>)
        ensures
            rest.is_some() == starts_with(self@, base@),
            rest matches Some(relative) ==> relative@ == self@.skip(base@.len() as int)
                && relative.directory == self.directory,
    {
        if !self.starts_with(base) {
            return None;
        }
        let mut relative = FilePath::new();
        relative.extend_from(self, base.components.len());
        relative.directory = self.directory;
        Some(relative)
    }

    /// Adds the components of `other` from index `from` on.
    fn extend_from(&mut self, other: &FilePath, from: usize)
        requires
            from <= other@.len(),
        ensures
            final(self)@ == old(self)@ + other@.skip(from as int),
    {
        let mut index: usize = from;
        while index < other.components.len()
            invariant
                from <= index <= other.components.len(),
                self@ == old(self)@ + other@.subrange(from as int, index as int),
            decreases other.components.len() - index,
        {
            self.push(other.components[index].as_slice());
            assert(other@.subrange(from as int, index + 1) =~= other@.subrange(
                from as int,
                index as int,
            ).push(other@[index as int]));
            index += 1;
        }
        assert(other@.subrange(from as int, index as int) =~= other@.skip(from as int));
    }
}

/// The target path of a source entry in a tree synchronisation: the entry's
/// path below the source root, joined to the target root. `None` for an
/// entry that does not lie under the source root.
///
/// The source root itself is mirrored to the target root as a directory.
pub fn mirrored_path(source_root: &FilePath, entry: &FilePath, target_root: &FilePath) -> (target:
    Option<FilePath>)
    ensures
        target.is_some() == mirror(source_root@, entry@, target_root@).is_some(),
        target matches Some(path) ==> Some(path@) == mirror(source_root@, entry@, target_root@)
            && path.directory == joined_as_directory(
            entry@.skip(source_root@.len() as int),
            entry.directory,
        ),
{
    match entry.strip_prefix(source_root) {
        None => None,
        Some(relative) => Some(target_root.join(&relative)),
    }
}

/// The target path of a source file that is synchronised into a directory:
/// the directory's path with the file's name added. `None` for a source
/// path that does not end in a name.
pub fn path_in_directory(source: &FilePath, directory: &FilePath) -> (target: Option<FilePath>)
    ensures
        target.is_some() == file_name_of(source@).is_some(),
        target matches Some(path) ==> path@ == directory@.push(file_name_of(source@).unwrap())
            && !path.directory,
{
    match source.file_name() {
        None => None,
        Some(name) => {
            let mut target = FilePath::new();
            target.extend_from(directory, 0);
            target.push(name.as_slice());
            assert(directory@.skip(0) =~= directory@);
            Some(target)
        },
    }
}

/// Every entry under the source root has one mirrored path, which lies
/// under the target root and adds to it what the entry adds to the source
/// root.
pub proof fn lemma_mirror_keeps_relative_path(
    source_root: Seq<Seq<u8>>,
    entry: Seq<Seq<u8>>,
    target_root: Seq<Seq<u8>>,
)
    requires
        starts_with(entry, source_root),
    ensures
        mirror(source_root, entry, target_root).is_some(),
        starts_with(mirror(source_root, entry, target_root).unwrap(), target_root),
        mirror(source_root, entry, target_root).unwrap().skip(target_root.len() as int)
            == entry.skip(source_root.len() as int),
{
    let mirrored = target_root + entry.skip(source_root.len() as int);
    assert(mirrored.subrange(0, target_root.len() as int) =~= target_root);
    assert(mirrored.skip(target_root.len() as int) =~= entry.skip(source_root.len() as int));
}

/// Two entries under the source root that are mirrored to the same path are
/// the same entry.
pub proof fn lemma_mirror_is_injective(
    source_root: Seq<Seq<u8>>,
    first: Seq<Seq<u8>>,
    second: Seq<Seq<u8>>,
    target_root: Seq<Seq<u8>>,
)
    requires
        starts_with(first, source_root),
        starts_with(second, source_root),
        mirror(source_root, first, target_root) == mirror(source_root, second, target_root),
    ensures
        first == second,
{
    lemma_mirror_keeps_relative_path(source_root, first, target_root);
    lemma_mirror_keeps_relative_path(source_root, second, target_root);
    assert(first =~= source_root + first.skip(source_root.len() as int));
    assert(second =~= source_root + second.skip(source_root.len() as int));
}

} // verus!
