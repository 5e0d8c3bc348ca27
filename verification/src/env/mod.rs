//! Inspection and manipulation of a process's environment.
//!
//! [`Virtual`] is a verified in-memory environment that can be configured
//! independently from the local system; [`Local`] and [`NativeEnv`] are the
//! handles that the surrounding program attaches the real environment calls
//! to.

mod local_provider;
mod native;
mod virtual_provider;

pub use self::local_provider::Local;
pub use self::native::NativeEnv;
pub use self::virtual_provider::Virtual;
