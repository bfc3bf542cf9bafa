use vstd::prelude::*;

verus! {

/// Everything that can go wrong while talking to the exchange.
///
/// Each failure keeps its own kind so that a caller can tell a
/// configuration mistake from a network fault, a bad HTTP status or a
/// malformed body, rather than collapsing them into one "no result"
/// signal.
#[derive(Debug, Clone, Copy, PartialEq, Eq, Structural)]
pub enum Error {
    /// A request was attempted before an API key was configured.
    MissingApiKey,
    /// The transport collaborator failed to complete the request.
    Transport,
    /// The server answered with a non-success HTTP status.
    HttpStatus(u16),
    /// The response body was not valid JSON for the expected record.
    Decode,
    /// A text did not name any known indicator type.
    UnknownIndicatorType,
}

} // verus!
