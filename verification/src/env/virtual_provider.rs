//! A virtual process environment.

use vstd::prelude::*;

use crate::error::IoError;
use crate::path::{clone_strings, PathModel, SysPath};

verus! {

/// Provides access to a virtual environment, which can be configured
/// independently from the local system.
pub struct Virtual {
    args: Vec<String>,
    current_dir: SysPath,
}

impl Virtual {
    /// The configured program arguments.
    pub closed spec fn spec_args(&self) -> Seq<Seq<char>> {
        self.args.deep_view()
    }

    /// The configured working directory.
    pub closed spec fn spec_current_dir(&self) -> PathModel {
        self.current_dir@
    }

    /// Creates a new virtual environment: no arguments, and the filesystem
    /// root as the working directory.
    pub fn new() -> (r: Virtual)
        ensures
            r.spec_args() == Seq::<Seq<char>>::empty(),
            r.spec_current_dir().absolute,
            r.spec_current_dir().parts == Seq::<Seq<char>>::empty(),
    {
        let r = Virtual { args: Vec::new(), current_dir: SysPath::root() };
        proof {
            assert(r.spec_args() =~= Seq::<Seq<char>>::empty());
        }
        r
    }

    /// Sets the arguments.
    pub fn set_args(&mut self, args: Vec<String>)
        ensures
            final(self).spec_args() == args.deep_view(),
            final(self).spec_current_dir() == old(self).spec_current_dir(),
    {
        self.args = args;
    }

    /// Returns the configured arguments.
    pub fn args(&self) -> (r: Vec<String>)
        ensures
            r.deep_view() == self.spec_args(),
    {
        clone_strings(&self.args)
    }

    /// Returns the configured working directory.
    pub fn current_dir(&self) -> (r: Result<SysPath, IoError>)
        ensures
            r matches Ok(p) && p@ == self.spec_current_dir(),
    {
        Ok(self.current_dir.clone())
    }

    /// Changes the configured working directory.
    pub fn set_current_dir(&mut self, path: &SysPath) -> (r: Result<(), IoError>)
        ensures
            r == Ok::<(), IoError>(()),
            final(self).spec_current_dir() == path@,
            final(self).spec_args() == old(self).spec_args(),
    {
        self.current_dir = path.clone();
        Ok(())
    }
}

} // verus!
