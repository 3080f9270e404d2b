use vstd::prelude::*;

verus! {

/// Every way an invocation of the clicker core can fail.
///
/// The engine is fail-fast: the first violated precondition aborts the whole
/// invocation and no account record is written, so a half-applied state is
/// never observable.
#[derive(Clone, Copy, Debug, PartialEq, Eq, Structural)]
pub enum ClickerError {
    /// The instruction bytes are not a recognized command encoding.
    DecodeError,
    /// A supplied account does not sit at its required derived address.
    AddressMismatch,
    /// InitUser targeted a slot that is already allocated.
    AlreadyInitialized,
    /// Stored bytes do not deserialize as a user-state record.
    CorruptState,
    /// The upgrade cost exceeds the click balance.
    NotEnoughToUpgrade,
    /// The transfer amount exceeds the sender's click balance.
    NotEnoughToTransfer,
    /// An upgrade variation outside the two known upgrade paths.
    InvalidVariation,
    /// Too few accounts were supplied for the command.
    MissingAccount,
    /// An arithmetic step would exceed its field's range.
    Overflow,
}

} // verus!
