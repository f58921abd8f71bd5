use vstd::prelude::*;

verus! {

/// The failure taxonomy of the instruction processor.
///
/// Every failure is fatal to the whole batch: there is no local recovery and
/// no partial success. A downstream primitive's own rejection is propagated
/// verbatim by the driver that performs the invocations and therefore has no
/// variant here.
#[derive(Clone, Copy, Debug, PartialEq, Eq, Structural)]
pub enum ProcessError {
    /// The instruction payload is malformed or truncated.
    DecodeError,
    /// The account list length does not match the length implied by the
    /// transfer count.
    AccountCountMismatch,
    /// A fixed-role account's key does not match the expected well-known
    /// program identity.
    InvalidProgramIdentity,
    /// A required signer flag is absent on an authority or source account.
    MissingSignature,
}

} // verus!
