use vstd::prelude::*;

verus! {

/// Every way an operation of the engine can be refused.
///
/// An error is terminal for the invocation that raised it: the host aborts
/// the whole transaction, no state written by the failed operation survives,
/// and the error reaches the caller verbatim.
#[derive(Clone, Copy, Debug, PartialEq, Eq, Structural)]
pub enum Error {
    /// No stream is registered under the given id.
    StreamNotExist,
    /// The signer is not the party the operation belongs to, or the host's
    /// signature-verification primitive rejected the instruction.
    NotAuthorized,
    /// A self-authorized instruction carried a nonce other than 0.
    IncorrectNonceForInvoker,
    /// A delegated instruction's nonce does not match the stored one.
    IncorrectNonce,
    /// The stream was already cancelled.
    StreamCancelled,
    /// The stream's terms do not allow cancellation.
    StreamNotCancellable,
    /// The full amount has already been withdrawn.
    StreamDone,
}

} // verus!
