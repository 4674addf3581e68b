use vstd::prelude::*;

verus! {

/// Everything that can abort a negotiation run.
///
/// Every error aborts the current `negotiate` call immediately and is
/// surfaced to the caller unchanged; the core retries nothing on its own.
#[derive(Clone, Copy, Debug, PartialEq, Eq, Structural)]
pub enum ModemError {
    /// The transport failed to read or write.
    IO,
    /// The fixed response buffer filled up before a terminator appeared.
    DigestOverflow,
    /// The modem explicitly reported an ERROR response.
    ResponseIndicatesFailure,
    /// A command could not be rendered within the encoder's buffer.
    CommandEncodingFailed,
    /// A completed response did not match the shape expected for its step.
    ResponseParseFailed,
}

} // verus!
