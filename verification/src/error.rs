use vstd::prelude::*;

verus! {

/// Why a single file or request was rejected.  Every rejection is
/// isolated to the file it concerns; none aborts a surrounding loop.
#[derive(Debug, Clone, PartialEq, Eq, Structural)]
pub enum FileError {
    /// A filename held a character outside the accepted set.
    InvalidFilename,
    /// The stream-embedded metadata field could not be decoded.
    InvalidMetadata,
    /// An endpoint identifier was not of the form `app.proxy.broker`.
    InvalidBeamId,
    /// A destination fragment could not be combined into an identifier.
    InvalidDestination,
}

/// Why a tunnel request was refused before any outbound work.
#[derive(Debug, Clone, PartialEq, Eq, Structural)]
pub enum TunnelReject {
    /// The request's Basic-auth password differed from the configured key.
    Unauthorized,
    /// The destination path segment could not be combined into an identifier.
    BadDestination,
}

} // verus!
