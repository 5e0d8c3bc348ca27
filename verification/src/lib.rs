//! Providers of I/O facilities for testable programs.
//!
//! The heart of the crate is a sandboxed filesystem: a session owns a unique
//! temporary directory that acts as the root of a private filesystem, and a
//! path confiner maps every caller-supplied path onto a verified location
//! inside that root, rejecting any path that would resolve outside it.  The
//! confiner lives in [`fs::confine`] and is a pure computation over the path
//! model in [`path`]; the thin shell that owns the real directory and calls
//! the native filesystem stays outside this library.
//!
//! Around that core, the crate keeps small in-memory stand-ins for the
//! standard streams ([`std_streams`], [`stream`]), a virtual process
//! environment ([`env`]), and a replaying reader ([`utils`]), all with
//! verified contracts so tests can drive a program's I/O deterministically.

pub mod env;
pub mod error;
pub mod filesystem;
pub mod fs;
pub mod path;
pub mod std_streams;
pub mod stream;
pub mod utils;

pub use error::{ErrorKind, IoError, PathError};
pub use fs::confine::{Confiner, Resolution};
pub use fs::{NativeFs, OpenOptions};
pub use path::SysPath;
pub use std_streams::{SimulatedStdStreams, StdStreams};
