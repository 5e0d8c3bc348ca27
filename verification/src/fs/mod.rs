//! Filesystem manipulation: open-mode flags and the path confiner.
//!
//! The confiner in [`confine`] is the heart of the sandboxed filesystem; the
//! types here describe how files are opened once a path has been confined.

pub mod confine;
mod native;

use vstd::prelude::*;

pub use self::confine::{Confiner, Resolution};
pub use self::native::NativeFs;

verus! {

/// Options and flags which can be used to configure how a file is opened.
#[derive(Debug)]
pub struct OpenOptions {
    read: bool,
    write: bool,
    append: bool,
    truncate: bool,
    create: bool,
    create_new: bool,
}

impl Default for OpenOptions {
    fn default() -> (r: OpenOptions)
        ensures
            !r.spec_read(),
            !r.spec_write(),
            !r.spec_append(),
            !r.spec_truncate(),
            !r.spec_create(),
            !r.spec_create_new(),
    {
        OpenOptions {
            read: false,
            write: false,
            append: false,
            truncate: false,
            create: false,
            create_new: false,
        }
    }
}

impl OpenOptions {
    /// Whether read access is requested.
    pub closed spec fn spec_read(&self) -> bool {
        self.read
    }

    /// Whether write access is requested.
    pub closed spec fn spec_write(&self) -> bool {
        self.write
    }

    /// Whether writes should append.
    pub closed spec fn spec_append(&self) -> bool {
        self.append
    }

    /// Whether an existing file should be truncated.
    pub closed spec fn spec_truncate(&self) -> bool {
        self.truncate
    }

    /// Whether a missing file should be created.
    pub closed spec fn spec_create(&self) -> bool {
        self.create
    }

    /// Whether the file must be newly created.
    pub closed spec fn spec_create_new(&self) -> bool {
        self.create_new
    }

    /// Creates a blank new set of options ready for configuration.
    ///
    /// All options are initially set to `false`.
    pub fn new() -> (r: OpenOptions)
        ensures
            !r.spec_read(),
            !r.spec_write(),
            !r.spec_append(),
            !r.spec_truncate(),
            !r.spec_create(),
            !r.spec_create_new(),
    {
        Default::default()
    }

    /// Sets the option for read access.
    pub fn read(&mut self, read: bool) -> (r: &mut OpenOptions)
        ensures
            *final(self) == *final(r),
            r.spec_read() == read,
            r.spec_write() == old(self).spec_write(),
            r.spec_append() == old(self).spec_append(),
            r.spec_truncate() == old(self).spec_truncate(),
            r.spec_create() == old(self).spec_create(),
            r.spec_create_new() == old(self).spec_create_new(),
    {
        self.read = read;
        self
    }

    /// Sets the option for write access.
    pub fn write(&mut self, write: bool) -> (r: &mut OpenOptions)
        ensures
            *final(self) == *final(r),
            r.spec_write() == write,
            r.spec_read() == old(self).spec_read(),
            r.spec_append() == old(self).spec_append(),
            r.spec_truncate() == old(self).spec_truncate(),
            r.spec_create() == old(self).spec_create(),
            r.spec_create_new() == old(self).spec_create_new(),
    {
        self.write = write;
        self
    }

    /// Sets the option for the append mode.
    pub fn append(&mut self, append: bool) -> (r: &mut OpenOptions)
        ensures
            *final(self) == *final(r),
            r.spec_append() == append,
            r.spec_read() == old(self).spec_read(),
            r.spec_write() == old(self).spec_write(),
            r.spec_truncate() == old(self).spec_truncate(),
            r.spec_create() == old(self).spec_create(),
            r.spec_create_new() == old(self).spec_create_new(),
    {
        self.append = append;
        self
    }

    /// Sets the option for truncating a previous file.
    pub fn truncate(&mut self, truncate: bool) -> (r: &mut OpenOptions)
        ensures
            *final(self) == *final(r),
            r.spec_truncate() == truncate,
            r.spec_read() == old(self).spec_read(),
            r.spec_write() == old(self).spec_write(),
            r.spec_append() == old(self).spec_append(),
            r.spec_create() == old(self).spec_create(),
            r.spec_create_new() == old(self).spec_create_new(),
    {
        self.truncate = truncate;
        self
    }

    /// Sets the option for creating a new file if it does not yet exist.
    pub fn create(&mut self, create: bool) -> (r: &mut OpenOptions)
        ensures
            *final(self) == *final(r),
            r.spec_create() == create,
            r.spec_read() == old(self).spec_read(),
            r.spec_write() == old(self).spec_write(),
            r.spec_append() == old(self).spec_append(),
            r.spec_truncate() == old(self).spec_truncate(),
            r.spec_create_new() == old(self).spec_create_new(),
    {
        self.create = create;
        self
    }

    /// Sets the option to always create a new file.
    pub fn create_new(&mut self, create_new: bool) -> (r: &mut OpenOptions)
        ensures
            *final(self) == *final(r),
            r.spec_create_new() == create_new,
            r.spec_read() == old(self).spec_read(),
            r.spec_write() == old(self).spec_write(),
            r.spec_append() == old(self).spec_append(),
            r.spec_truncate() == old(self).spec_truncate(),
            r.spec_create() == old(self).spec_create(),
    {
        self.create_new = create_new;
        self
    }

    /// Returns whether read access is requested.
    pub fn is_read(&self) -> (r: bool)
        ensures
            r == self.spec_read(),
    {
        self.read
    }

    /// Returns whether write access is requested.
    pub fn is_write(&self) -> (r: bool)
        ensures
            r == self.spec_write(),
    {
        self.write
    }

    /// Returns whether writes should append.
    pub fn is_append(&self) -> (r: bool)
        ensures
            r == self.spec_append(),
    {
        self.append
    }

    /// Returns whether an existing file should be truncated.
    pub fn is_truncate(&self) -> (r: bool)
        ensures
            r == self.spec_truncate(),
    {
        self.truncate
    }

    /// Returns whether a missing file should be created.
    pub fn is_create(&self) -> (r: bool)
        ensures
            r == self.spec_create(),
    {
        self.create
    }

    /// Returns whether the file must be newly created.
    pub fn is_create_new(&self) -> (r: bool)
        ensures
            r == self.spec_create_new(),
    {
        self.create_new
    }
}

} // verus!
