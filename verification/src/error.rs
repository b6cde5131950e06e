//! Failure taxonomy for one resolution cycle.

use vstd::prelude::*;

verus! {

/// Everything that can go wrong while resolving one repository.
///
/// Nothing is silently recovered: each failure kind is surfaced to the
/// caller, which decides the user-visible behaviour.
#[derive(Clone, Copy, Debug, PartialEq, Eq, Structural)]
pub enum FetchError {
    /// Building the outbound client failed (an invalid header value).
    ConfigurationError,
    /// The remote API answered with a non-success status; carries the status.
    UpstreamFailure(u16),
    /// The response body was not syntactically valid JSON.
    DecodingFailure,
    /// The body was valid JSON but did not satisfy the required-field
    /// contract of the repository schema (or was not a JSON object at all).
    SchemaFailure,
    /// The outbound call itself failed below the HTTP layer.
    TransportFailure,
}

} // verus!
