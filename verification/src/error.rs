use vstd::prelude::*;

verus! {

/// Every way a review invocation can fail.  Each error is fatal to the
/// current invocation: nothing is retried and nothing is rolled back.
#[derive(Clone, Copy, Debug, PartialEq, Eq, Structural)]
pub enum ReviewError {
    /// The instruction buffer could not be decoded against the schema.
    MalformedInstruction,
    /// The leading discriminant byte names no known command.
    UnknownInstruction,
    /// Fewer addressed accounts were supplied than the command needs.
    MissingAccount,
    /// No discriminant byte yields a usable derived address.
    AddressDerivationExhausted,
    /// The host refused or failed the storage-creation request.
    ProvisionError,
    /// The encoded record would not fit the slot it must be written to.
    BufferTooSmall,
    /// A record could not be re-encoded under the schema.
    EncodeError,
    /// Stored bytes violate the record schema.
    DecodeError,
}

} // verus!
