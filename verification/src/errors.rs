//! Error taxonomy of the cache pipeline.

use vstd::prelude::*;

verus! {

/// Whether a fetch failure is worth retrying.
#[derive(Debug, Clone, PartialEq, Eq, Structural)]
pub enum FetchErrorKind {
    /// The source was unreachable or refused the request for now; a later
    /// attempt may succeed.
    Transient,
    /// The source answered and the file is not there; retrying is
    /// pointless.
    NotFound,
}

/// Why a derivation from a lower-tier artifact failed.  Both kinds are
/// permanent for the input that caused them.
#[derive(Debug, Clone, PartialEq, Eq, Structural)]
pub enum DerivationErrorKind {
    /// The input bytes are not a well-formed object.
    Malformed,
    /// The input is well formed but of a format the deriver does not
    /// handle.
    Unsupported,
}

/// Why a cache operation failed.
///
/// An ordinary cache miss is never an error: it is the expected trigger
/// for the producer path.
#[derive(Debug, Clone)]
pub enum CacheError {
    /// Accumulating provenance text failed.  Text accumulation is an
    /// in-memory append, so this is effectively unreachable in normal
    /// operation; it exists so that a failure propagates as a value
    /// instead of a panic.
    KeyBuildFailure,
    /// A disk read or write failed in a way distinct from an ordinary
    /// miss, described by the carried message.
    CacheIoFailure(String),
    /// The remote source could not provide the file.
    FetchFailure(FetchErrorKind),
    /// A lower-tier artifact could not be turned into the derived one.
    DerivationFailure(DerivationErrorKind),
}

/// Why the process could not start serving.
#[derive(Debug, Clone)]
pub enum CliError {
    /// The configuration could not be loaded; the message says why.
    ConfigParsing(String),
    /// A cache directory could not be prepared; the message carries the
    /// underlying I/O error's description.
    CacheIo(String),
}

} // verus!
