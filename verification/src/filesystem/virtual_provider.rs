//! A virtual filesystem held entirely in memory.

use vstd::prelude::*;

use crate::path::{PathModel, SysPath};

verus! {

/// Provides access to a virtual filesystem.
pub struct Virtual {
    root: VirtualEntry,
}

struct VirtualEntry {
    path: SysPath,
    contents: VirtualContents,
}

enum VirtualContents {
    Directory(VirtualDirectory),
    File(VirtualFile),
}

/// A directory of a virtual filesystem.
pub struct VirtualDirectory {
    entries: Vec<VirtualEntry>,
}

/// A file of a virtual filesystem, holding its contents directly.
pub struct VirtualFile {
    contents: Vec<u8>,
}

impl Virtual {
    /// The path at which the virtual tree is rooted.
    pub closed spec fn spec_root_path(&self) -> PathModel {
        self.root.path@
    }

    /// Whether the root of the tree is a directory with no entries.
    pub closed spec fn spec_root_is_empty_dir(&self) -> bool {
        match self.root.contents {
            VirtualContents::Directory(d) => d.entries@.len() == 0,
            VirtualContents::File(_) => false,
        }
    }

    /// Creates a new virtual filesystem: an empty directory at the
    /// filesystem root.
    pub fn new() -> (r: Virtual)
        ensures
            r.spec_root_path().absolute,
            r.spec_root_path().parts == Seq::<Seq<char>>::empty(),
            r.spec_root_is_empty_dir(),
    {
        Virtual {
            root: VirtualEntry {
                path: SysPath::root(),
                contents: VirtualContents::Directory(VirtualDirectory::new()),
            },
        }
    }
}

impl VirtualDirectory {
    /// Creates a directory with no entries.
    fn new() -> (d: VirtualDirectory)
        ensures
            d.entries@.len() == 0,
    {
        VirtualDirectory { entries: Vec::new() }
    }
}

impl VirtualFile {
    /// Creates a file with no contents.
    #[allow(dead_code)]
    fn new() -> (f: VirtualFile)
        ensures
            f.contents@.len() == 0,
    {
        VirtualFile { contents: Vec::new() }
    }
}

/// A virtual file handle.
pub struct File;

/// An iterator-like handle over the entries of a virtual directory.
pub struct ReadDir;

/// Metadata of a virtual filesystem entry.
pub struct Metadata;

/// Permissions of a virtual filesystem entry.
pub struct Permissions;

} // verus!
