//! Ownership-checked handles, string and option marshalling, and the error
//! taxonomy for a handle-based native print system.
//!
//! The native entry points themselves are reached by the embedding program;
//! every function here works on plain values: a handle is its address, a
//! native string is the bytes in front of its terminator.

pub mod backend;
pub mod common;
pub mod discovery;
pub mod error;
pub mod frontend;
pub mod job;
pub mod printer;
pub mod settings;
pub mod text;
pub mod util;

pub use backend::Backend;
pub use common::version;
pub use frontend::Frontend;
pub use job::PrintJob;
pub use printer::Printer;
pub use settings::{Media, Options, Settings};
