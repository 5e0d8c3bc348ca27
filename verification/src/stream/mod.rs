//! Providers of input/output/error streams.
//!
//! [`Virtual`] keeps all three streams in memory: input is queued with
//! [`Virtual::write_input`], and output is observed with
//! [`Virtual::read_output`] and [`Virtual::read_error`].  [`logger::Logger`]
//! plays back pre-specified input and records output.

pub mod logger;
mod virtual_provider;

pub use self::logger::Logger;
pub use self::virtual_provider::ChunkPipe;
pub use self::virtual_provider::Virtual;
