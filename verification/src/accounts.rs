//! The data model: addresses, token accounts, mints, and the values the
//! instruction handlers produce.
//!
//! Every entity here is a request-scoped view over externally owned storage:
//! the core owns no persistent state.  Addresses are 32-byte ledger keys,
//! held as four 64-bit words so that equality is plain structural equality.

use vstd::prelude::*;

verus! {

/// A 32-byte ledger address, as four little-endian 64-bit words.
///
/// The core only ever compares addresses for equality (mint against mint,
/// recorded owner against signer); it never derives or arithmetically
/// manipulates them.
#[derive(Clone, Copy, Debug, PartialEq, Eq, Structural)]
pub struct Address {
    pub w0: u64,
    pub w1: u64,
    pub w2: u64,
    pub w3: u64,
}

/// A token account: a balance of one fungible-token type, held for one
/// owning authority.  Balances are mutated only through the accounting
/// layer's transfer primitive, never directly by the handlers.
#[derive(Clone, Copy, Debug, PartialEq, Eq, Structural)]
pub struct TokenAccount {
    /// The authority whose approval is required to debit this account.
    pub owner: Address,
    /// The mint (token type) this account's balance is denominated in.
    pub mint: Address,
    /// The current balance, in the mint's base units.
    pub balance: u64,
}

/// The fixed attributes of a token type that the checked path reads.
#[derive(Clone, Copy, Debug, PartialEq, Eq, Structural)]
pub struct Mint {
    /// The mint's own ledger address.
    pub address: Address,
    /// The recorded decimal precision of the token.
    pub decimals: u8,
}

/// The accounts presented to the plain transfer instruction.
#[derive(Clone, Copy, Debug, PartialEq, Eq, Structural)]
pub struct TransferTokens {
    /// The authenticated signer authorizing the debit.
    pub from_authority: Address,
    /// The account to debit; must be owned by `from_authority`.
    pub from_token_account: TokenAccount,
    /// The account to credit.
    pub to_token_account: TokenAccount,
    /// The receiving authority, recorded in the audit event; not checked.
    pub to_authority: Address,
}

/// The accounts presented to the decimal-checked transfer instruction.
#[derive(Clone, Copy, Debug, PartialEq, Eq, Structural)]
pub struct TransferTokensChecked {
    /// The authenticated signer authorizing the debit.
    pub from_authority: Address,
    /// The account to debit; must be owned by `from_authority` and bound
    /// to `mint`.
    pub from_token_account: TokenAccount,
    /// The account to credit; must be bound to `mint`.
    pub to_token_account: TokenAccount,
    /// The mint both accounts must be denominated in, carrying the decimal
    /// precision the caller's claim is held against.
    pub mint: Mint,
    /// The receiving authority, recorded in the audit event; not checked.
    pub to_authority: Address,
}

/// The accounts presented to the read-only payment-info query.
#[derive(Clone, Copy, Debug, PartialEq, Eq, Structural)]
pub struct GetPaymentInfo {
    pub from_token_account: TokenAccount,
    pub to_token_account: TokenAccount,
    pub mint: Mint,
}

/// A read-only snapshot of the state a transfer would run against.
///
/// `is_valid_transfer` is advisory only: it reports mint agreement, not
/// balance sufficiency or ownership, and state may change between the query
/// and any later transfer.
#[derive(Clone, Copy, Debug, PartialEq, Eq, Structural)]
pub struct PaymentInfo {
    pub from_balance: u64,
    pub to_balance: u64,
    pub mint: Address,
    pub decimals: u8,
    pub is_valid_transfer: bool,
}

/// The audit record of one successful transfer, created exactly once per
/// success and handed to the host for emission to the append-only log.
#[derive(Clone, Copy, Debug, PartialEq, Eq, Structural)]
pub struct TokenTransferEvent {
    /// The authority that authorized the debit.
    pub from: Address,
    /// The receiving authority named in the request.
    pub to: Address,
    /// The mint the moved value is denominated in.
    pub mint: Address,
    /// The amount moved, in the mint's base units.
    pub amount: u64,
    /// The host clock's value at execution time; supplied by the host, not
    /// by the requesting caller.
    pub timestamp: i64,
}

} // verus!
