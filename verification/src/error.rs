//! Error taxonomy of the runtime.
//!
//! Four families are kept apart, because they are handled differently:
//! load-time failures ([`BuildError`]) abort startup and are never retried;
//! guest-signaled outcomes ([`Error`]) are ordinary results of a handler call;
//! host-detected faults ([`HostFault`]) mean a guest bug or an ABI mismatch and
//! are scoped to the single invocation; and [`PrepareError`] covers the
//! per-invocation setup that runs before any guest code. Messages from the
//! underlying engine are carried as plain strings so a collaborator can report
//! a kind and a message without further conversion.

use vstd::prelude::*;

verus! {

/// The guest-signaled outcome tag of a handler call: the guest itself reports
/// whether the failure is the client's fault or the server's.
#[derive(Clone, Copy, PartialEq, Eq, Structural, Debug)]
pub enum Error {
    ClientError,
    ServerError,
}

/// A fault that the host detects during one invocation: the guest trapped, or
/// the bytes it handed back do not follow the ABI (an out-of-range pointer or
/// length, a payload that is not UTF-8, or an unknown discriminant or tag).
#[derive(Debug)]
pub enum HostFault {
    /// The guest call trapped (panic, out-of-bounds access, stack exhaustion);
    /// carries the trap's message.
    Trap(String),
    /// A pointer/length pair in the result record points outside guest memory.
    OutOfBounds,
    /// The success payload is not valid UTF-8.
    InvalidUtf8,
    /// The result record's discriminant or error tag has no defined meaning.
    InvalidVariant,
}

/// A fatal load-time failure: these abort startup and are never retried.
#[derive(Debug)]
pub enum BuildError {
    /// The execution engine rejected its configuration.
    EngineInit(String),
    /// A capability provider could not initialize.
    CapabilityInit(String),
    /// The module bytes could not be read, parsed or validated; carries the
    /// component identifier and source path for reporting.
    Compile { id: String, path: String, cause: String },
    /// An import the module declares could not be resolved at pre-instantiation.
    Preinstantiate(String),
    /// The instance lacks one of the exports the calling convention needs.
    MissingExport(String),
}

/// A failure while building the fresh per-invocation state.
#[derive(Debug)]
pub enum PrepareError {
    /// The task or temp directory could not be opened, or the fresh WASI
    /// context refused it as a preopened directory.
    DirectoryOpen(String),
    /// Instantiating the pre-linked template trapped or failed.
    Instantiate(String),
}

/// A failure while assembling the runtime configuration from key/value pairs.
#[derive(Clone, Copy, PartialEq, Eq, Structural, Debug)]
pub enum ConfigError {
    /// No task-root entry was present.
    MissingTaskRoot,
    /// No handler-file entry was present.
    MissingHandler,
    /// The maximum-concurrency entry is not a decimal number that fits in 32 bits.
    InvalidMaxConcurrency,
}

} // verus!
