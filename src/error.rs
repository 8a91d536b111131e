use vstd::prelude::*;

verus! {

/// The closed set of conditions on which a request is refused.
#[derive(Clone, Copy, Debug, PartialEq, Eq, Structural)]
pub enum CustomError {
    /// The signer is not the owner recorded in the configuration.
    Unauthorized,
    /// The payment amount does not fit in 64 bits.
    Overflow,
    /// The receiving account is not the canonical associated account.
    InvalidATA,
    /// The custody account holds another asset than the declared mint.
    InvalidMint,
    /// The custody account is not owned by the derived authority.
    InvalidAuthority,
    /// The requested amount is zero.
    InvalidAmount,
    /// The payout account differs from the configured recipient.
    InvalidSolRecipient,
    /// The sale is paused.
    SalePaused,
}

impl CustomError {
    /// The human-readable message of the condition.
    pub fn message(&self) -> (r: &'static str) {
        match self {
            CustomError::Unauthorized => "You are not authorized to update the price.",
            CustomError::Overflow => "Overflow occurred while calculating SOL cost.",
            CustomError::InvalidATA => "Associated Token Account does not match expected address.",
            CustomError::InvalidMint => "SPL Token mint does not match expected mint.",
            CustomError::InvalidAuthority => "Seller SPL token account is not owned by PDA authority.",
            CustomError::InvalidAmount => "Invalid token amount specified.",
            CustomError::InvalidSolRecipient => "SOL recipient does not match configuration.",
            CustomError::SalePaused => "Token sale is currently paused.",
        }
    }
}

} // verus!
