//! The error taxonomy of the library.

use vstd::prelude::*;

verus! {

/// Every failure the library or its callers can report.
///
/// `Io`, `Serde` and the generic `Compose`/`Tmux` variants carry a
/// human-readable message supplied by the caller that observed the
/// failure. `NoComposeFiles` and `TmuxNotFound` are distinguished,
/// expected conditions that callers treat as benign or as actionable
/// guidance rather than as errors.
#[derive(Debug, PartialEq, Eq)]
pub enum CoreError {
    /// A file read or write failed.
    Io(String),
    /// The registry document could not be serialized or deserialized.
    Serde(String),
    /// No data directory could be resolved for the registry.
    NoRegistryPath,
    /// The compose tool was invoked and failed.
    Compose(String),
    /// Discovery found no compose files for the repository.
    NoComposeFiles,
    /// The terminal multiplexer binary is not on the search path.
    TmuxNotFound,
    /// The terminal multiplexer was invoked and failed.
    Tmux(String),
}

} // verus!
