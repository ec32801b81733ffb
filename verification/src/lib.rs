//! Control core for a desktop front end that launches, supervises and stops a
//! single long-running external transcoding worker.
//!
//! The crate verifies the three parts of the core: the command builder, which
//! turns an immutable [`settings::Settings`] snapshot into the worker's
//! argument vector and `PATH` overlay; the process handle registry, which
//! enforces the single-instance rule over the one handle slot and decides
//! which lifecycle events are emitted; and the small decision functions behind
//! the binary lookup and file-selection commands. The unverified shell around
//! the crate performs the actual spawning, killing and dialogs, and feeds the
//! outcomes back into the registry's transition functions.

pub mod builder;
pub mod dialog;
pub mod lookup;
pub mod registry;
pub mod settings;

pub use settings::Settings;
