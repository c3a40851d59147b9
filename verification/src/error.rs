//! The errors that the programs report.

use vstd::prelude::*;

verus! {

/// Why an instruction was refused. A refused instruction changes nothing.
#[derive(Clone, Copy, Debug, PartialEq, Eq, Structural)]
pub enum ErrorCode {
    /// The deposit is below the minimum of 100 whole tokens.
    InsufficientDeposit,
    /// The record was claimed before.
    AlreadyClaimed,
    /// The depositor already has a deposit under this nonce.
    DuplicateDeposit,
    /// The searcher already has a search under this nonce.
    DuplicateSearch,
    /// The signer is not the authority, or not the owner of the record.
    Unauthorized,
    /// A counter would pass `u64::MAX`.
    ArithmeticOverflow,
    /// The mint would pass the supply cap.
    MaxSupplyExceeded,
    /// The new supply cap is below the one in force.
    CannotDecreaseMaxSupply,
    /// The token mint is not the one that the supply state was set up for.
    InvalidMint,
    /// The token account does not belong to the signer.
    InvalidHoldingAccount,
    /// No address can be derived from the seeds.
    AddressDerivationExhausted,
    /// The account to set up exists already.
    AlreadyInitialized,
    /// Another program refused what it was invoked for; its code is kept as it came.
    InvocationFailed(u64),
}

} // verus!
