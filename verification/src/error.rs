//! The closed set of failures that the transfer pipeline reports.

use vstd::prelude::*;

verus! {

/// Why a transfer did not go through. Each variant carries the values that
/// broke the precondition, so that a caller can report them.
#[derive(Clone, Debug, PartialEq, Eq)]
pub enum TransferError {
    /// The text is not an account identifier: after an optional `0x` marker
    /// it does not hold exactly forty hexadecimal digits.
    InvalidAddress { input: String },
    /// The signing identity derives another account than the declared sender.
    IdentityMismatch { signer: [u8; 20], sender: [u8; 20] },
    /// The chain that answered is not the one the transfer is meant for.
    WrongNetwork { expected: u64, actual: u64 },
    /// The amount is no exact decimal numeral of the unit.
    AmountParseError { input: String },
    /// The signer could not produce a signature for the draft.
    SigningFailed,
    /// The network refused the signed payload; the reason is its own.
    SubmitError { reason: String },
    /// A receipt query failed; the fate of the transaction is unknown.
    PollError { reason: String },
}

/// The stages of the pipeline, in the order in which a transfer passes them.
#[derive(Clone, Copy, Debug, PartialEq, Eq)]
pub enum Stage {
    AddressValidator,
    BuilderAndSigner,
    Broadcaster,
    ConfirmationPoller,
}

impl TransferError {
    /// The stage that reports this failure.
    pub open spec fn stage_of(self) -> Stage {
        match self {
            TransferError::InvalidAddress { .. } => Stage::AddressValidator,
            TransferError::IdentityMismatch { .. } => Stage::BuilderAndSigner,
            TransferError::WrongNetwork { .. } => Stage::BuilderAndSigner,
            TransferError::AmountParseError { .. } => Stage::BuilderAndSigner,
            TransferError::SigningFailed => Stage::BuilderAndSigner,
            TransferError::SubmitError { .. } => Stage::Broadcaster,
            TransferError::PollError { .. } => Stage::ConfirmationPoller,
        }
    }

    /// The stage that reports this failure.
    pub fn stage(&self) -> (r: Stage)
        ensures
            r == self.stage_of(),
    {
        match self {
            TransferError::InvalidAddress { .. } => Stage::AddressValidator,
            TransferError::IdentityMismatch { .. } => Stage::BuilderAndSigner,
            TransferError::WrongNetwork { .. } => Stage::BuilderAndSigner,
            TransferError::AmountParseError { .. } => Stage::BuilderAndSigner,
            TransferError::SigningFailed => Stage::BuilderAndSigner,
            TransferError::SubmitError { .. } => Stage::Broadcaster,
            TransferError::PollError { .. } => Stage::ConfirmationPoller,
        }
    }
}

} // verus!
