use vstd::prelude::*;

verus! {

/// Why an entry point refused to act. Every failure leaves the caller's
/// state exactly as it was: the entry points mutate nothing on an `Err`.
#[derive(Clone, Copy, Debug, PartialEq, Eq, Structural)]
pub enum ErrorCode {
    /// A quantity or identity precondition on the asset failed: the source
    /// token account does not hold exactly one unit, or the supplied
    /// accounts do not match the listing record.
    InvalidItem,
    /// The transfer instruction could not be assembled from the given
    /// account set: the delegated signing seeds do not re-derive the
    /// authorizing address.
    TransferBuilderFailed,
    /// A caller-supplied authorization payload entry is malformed (a
    /// seed list or Merkle proof with impossible shape or byte lengths).
    PayloadConversionFailed,
}

} // verus!
