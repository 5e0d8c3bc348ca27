//! Filesystem provider types: open modes, file types, and the traits that
//! concrete providers implement.

mod local_provider;
mod virtual_provider;

pub use self::local_provider::Local;
pub use self::virtual_provider::Virtual;
pub use self::virtual_provider::VirtualDirectory;
pub use self::virtual_provider::VirtualFile;

use vstd::prelude::*;

use crate::error::IoError;
use crate::fs::OpenOptions;

verus! {

/// Enumerates the ways in which a file can be opened.
#[derive(Clone, Copy, Debug, PartialEq, Eq, Structural)]
pub enum OpenMode {
    /// Open for reading, starting at the beginning of the file.
    Read,
    /// Open for writing, starting at the beginning of the file.  Deletes any
    /// existing contents.
    Write,
    /// Open for writing, starting at the end of the file.
    Append,
    /// Open for both reading and writing, starting at the beginning of the
    /// file.
    ReadWrite,
}

impl OpenMode {
    /// The option flags this mode stands for: reading opens the file as it
    /// is; every writing mode creates a missing file; plain writing
    /// truncates, appending appends.
    pub fn to_open_options(&self) -> (r: OpenOptions)
        ensures
            r.spec_read() == (*self == OpenMode::Read || *self == OpenMode::ReadWrite),
            r.spec_write() == (*self != OpenMode::Read),
            r.spec_append() == (*self == OpenMode::Append),
            r.spec_truncate() == (*self == OpenMode::Write),
            r.spec_create() == (*self != OpenMode::Read),
            !r.spec_create_new(),
    {
        let mut o = OpenOptions::new();
        match self {
            OpenMode::Read => {
                o.read(true);
            },
            OpenMode::Write => {
                o.write(true);
                o.create(true);
                o.truncate(true);
            },
            OpenMode::Append => {
                o.write(true);
                o.append(true);
                o.create(true);
            },
            OpenMode::ReadWrite => {
                o.read(true);
                o.write(true);
                o.create(true);
            },
        }
        o
    }
}

/// Represents a file on the filesystem.
pub trait File {
    /// Attempts to sync all OS-internal metadata to disk.
    fn sync_all(&self) -> Result<(), IoError>;

    /// Similar to `sync_all`, except that file metadata may not be
    /// synchronized.
    fn sync_data(&self) -> Result<(), IoError>;
}

/// Represents metadata for a file.
pub trait Metadata {
    /// Representation of file permissions.
    type P: Permissions;

    /// Returns the file type for this metadata.
    fn file_type(&self) -> FileType;

    /// Returns whether this metadata is for a directory.
    fn is_dir(&self) -> bool;

    /// Returns whether this metadata is for a regular file.
    fn is_file(&self) -> bool;

    /// Returns the size of the file, in bytes, this metadata is for.
    fn len(&self) -> u64;

    /// Returns the permissions of the file this metadata is for.
    fn permissions(&self) -> Self::P;
}

/// Represents the permissions of a file.
pub trait Permissions {
    /// Returns whether these permissions describe a readonly file.
    fn readonly(&self) -> bool;
}

/// Represents the type of a file.
#[derive(Debug, PartialEq, Eq, Hash, Clone, Copy)]
pub struct FileType {
    is_dir: bool,
    is_file: bool,
    is_symlink: bool,
}

impl FileType {
    /// Whether this file type is a directory.
    pub closed spec fn spec_is_dir(&self) -> bool {
        self.is_dir
    }

    /// Whether this file type is a regular file.
    pub closed spec fn spec_is_file(&self) -> bool {
        self.is_file
    }

    /// Whether this file type is a symbolic link.
    pub closed spec fn spec_is_symlink(&self) -> bool {
        self.is_symlink
    }

    /// Builds a file type from its three flags, as the native filesystem
    /// reports them.
    pub fn new(is_dir: bool, is_file: bool, is_symlink: bool) -> (r: FileType)
        ensures
            r.spec_is_dir() == is_dir,
            r.spec_is_file() == is_file,
            r.spec_is_symlink() == is_symlink,
    {
        FileType { is_dir, is_file, is_symlink }
    }

    /// Tests whether this file type represents a directory.
    pub fn is_dir(&self) -> (r: bool)
        ensures
            r == self.spec_is_dir(),
    {
        self.is_dir
    }

    /// Tests whether this file type represents a regular file.
    pub fn is_file(&self) -> (r: bool)
        ensures
            r == self.spec_is_file(),
    {
        self.is_file
    }

    /// Tests whether this file type represents a symbolic link.
    pub fn is_symlink(&self) -> (r: bool)
        ensures
            r == self.spec_is_symlink(),
    {
        self.is_symlink
    }
}

} // verus!
