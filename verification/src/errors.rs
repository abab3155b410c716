//! The closed error taxonomy: every way a transfer request can be refused.

use vstd::prelude::*;

verus! {

/// Why a transfer request was refused.  The taxonomy is flat and closed:
/// any of these is terminal for the invocation, nothing is retried, and a
/// refusal leaves both balances untouched.
#[derive(Clone, Copy, Debug, PartialEq, Eq, Structural)]
pub enum PaymentError {
    /// The requested amount was zero.
    InvalidAmount,
    /// The source balance was below the requested amount.
    InsufficientFunds,
    /// The source, destination, or supplied mint references disagree.
    MintMismatch,
    /// The signer is not the recorded owner of the source account.
    InvalidOwner,
    /// The caller's claimed decimal precision differs from the mint's.
    InvalidDecimals,
}

impl PaymentError {
    /// The human-readable message attached to this error kind.
    pub fn message(&self) -> (r: &'static str)
        ensures
            *self is InvalidAmount ==> r@ == "Invalid amount: amount must be greater than 0"@,
            *self is InsufficientFunds ==> r@ == "Insufficient funds: sender does not have enough tokens"@,
            *self is MintMismatch ==> r@ == "Mint mismatch: source and destination accounts must use the same token mint"@,
            *self is InvalidOwner ==> r@ == "Invalid owner: signer is not the owner of the source token account"@,
            *self is InvalidDecimals ==> r@ == "Invalid decimals: provided decimals do not match the mint"@,
    {
        match self {
            PaymentError::InvalidAmount => "Invalid amount: amount must be greater than 0",
            PaymentError::InsufficientFunds => "Insufficient funds: sender does not have enough tokens",
            PaymentError::MintMismatch => "Mint mismatch: source and destination accounts must use the same token mint",
            PaymentError::InvalidOwner => "Invalid owner: signer is not the owner of the source token account",
            PaymentError::InvalidDecimals => "Invalid decimals: provided decimals do not match the mint",
        }
    }
}

} // verus!
