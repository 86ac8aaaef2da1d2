use vstd::prelude::*;

verus! {

/// What is known of a file or directory: whether it is one or the other, its
/// size in bytes, and whether it is read-only.
#[derive(Debug, Clone, Copy, PartialEq, Eq, Structural)]
pub struct Metadata {
    is_dir: bool,
    is_file: bool,
    len: u64,
    read_only: bool,
}

impl Metadata {
    pub closed spec fn spec_is_dir(&self) -> bool {
        self.is_dir
    }

    pub closed spec fn spec_is_file(&self) -> bool {
        self.is_file
    }

    pub closed spec fn spec_len(&self) -> u64 {
        self.len
    }

    pub closed spec fn spec_read_only(&self) -> bool {
        self.read_only
    }

    pub fn new(is_dir: bool, is_file: bool, len: u64, read_only: bool) -> (r: Metadata)
        ensures
            r.spec_is_dir() == is_dir,
            r.spec_is_file() == is_file,
            r.spec_len() == len,
            r.spec_read_only() == read_only,
    {
        Metadata { is_dir, is_file, len, read_only }
    }

    pub fn is_dir(&self) -> (r: bool)
        ensures
            r == self.spec_is_dir(),
    {
        self.is_dir
    }

    pub fn is_file(&self) -> (r: bool)
        ensures
            r == self.spec_is_file(),
    {
        self.is_file
    }

    pub fn len(&self) -> (r: u64)
        ensures
            r == self.spec_len(),
    {
        self.len
    }

    pub fn is_read_only(&self) -> (r: bool)
        ensures
            r == self.spec_read_only(),
    {
        self.read_only
    }
}

/// What a path names on disk at the moment it is looked at.
#[derive(Debug, Clone, Copy, PartialEq, Eq, Structural)]
pub enum EntryKind {
    Missing,
    File,
    Directory,
}

impl EntryKind {
    /// The kind of an entry from whether it exists and whether it is a
    /// directory.
    pub fn classify(exists: bool, is_dir: bool) -> (r: EntryKind)
        ensures
            !exists ==> r == EntryKind::Missing,
            exists && is_dir ==> r == EntryKind::Directory,
            exists && !is_dir ==> r == EntryKind::File,
    {
        if !exists {
            EntryKind::Missing
        } else if is_dir {
            EntryKind::Directory
        } else {
            EntryKind::File
        }
    }
}

/// The native removal to perform on a path.
#[derive(Debug, Clone, Copy, PartialEq, Eq, Structural)]
pub enum Removal {
    /// Nothing is to be removed; the operation succeeds at once.
    Nothing,
    /// Remove a single file.
    File,
    /// Remove a directory, which must be empty.
    EmptyDirectory,
    /// Remove a directory with everything below it.
    Tree,
}

/// What a plain removal does: a directory is removed only when empty, anything
/// else is removed as a file, which fails where nothing exists.
pub open spec fn spec_rm_plan(kind: EntryKind) -> Removal {
    match kind {
        EntryKind::Directory => Removal::EmptyDirectory,
        _ => Removal::File,
    }
}

/// What a recursive removal does: nothing where the path does not exist, the
/// file where it names one, and the whole tree where it names a directory.
pub open spec fn spec_rmrf_plan(kind: EntryKind) -> Removal {
    match kind {
        EntryKind::Missing => Removal::Nothing,
        EntryKind::File => Removal::File,
        EntryKind::Directory => Removal::Tree,
    }
}

/// The removal that `rm` performs on an entry of the given kind.
pub fn rm_plan(kind: EntryKind) -> (r: Removal)
    ensures
        r == spec_rm_plan(kind),
        r != Removal::Tree,
        r != Removal::Nothing,
{
    match kind {
        EntryKind::Directory => Removal::EmptyDirectory,
        _ => Removal::File,
    }
}

/// The removal that `rmrf` performs on an entry of the given kind.
pub fn rmrf_plan(kind: EntryKind) -> (r: Removal)
    ensures
        r == spec_rmrf_plan(kind),
        kind == EntryKind::Missing <==> r == Removal::Nothing,
{
    match kind {
        EntryKind::Missing => Removal::Nothing,
        EntryKind::File => Removal::File,
        EntryKind::Directory => Removal::Tree,
    }
}

} // verus!
