//! The validator: pure predicate checks run before any balance mutation.
//!
//! Each check is total and side-effect free, and its contract pins the
//! result exactly: `Ok` on precisely the passing inputs, the one matching
//! error kind on the rest.

use vstd::prelude::*;

use crate::accounts::Address;
use crate::errors::PaymentError;

verus! {

/// Refuses a zero amount.  Amounts are unsigned, so zero is the sole
/// rejected boundary.
pub fn check_amount_positive(amount: u64) -> (r: Result<(), PaymentError>)
    ensures
        r == (if amount > 0 {
            Result::<(), PaymentError>::Ok(())
        } else {
            Result::<(), PaymentError>::Err(PaymentError::InvalidAmount)
        }),
{
    if amount > 0 {
        Ok(())
    } else {
        Err(PaymentError::InvalidAmount)
    }
}

/// Refuses a transfer between accounts denominated in different mints,
/// which would silently misprice value.
pub fn check_mints_match(source_mint: Address, destination_mint: Address) -> (r: Result<
    (),
    PaymentError,
>)
    ensures
        r == (if source_mint == destination_mint {
            Result::<(), PaymentError>::Ok(())
        } else {
            Result::<(), PaymentError>::Err(PaymentError::MintMismatch)
        }),
{
    if source_mint == destination_mint {
        Ok(())
    } else {
        Err(PaymentError::MintMismatch)
    }
}

/// Refuses an account whose mint field differs from the explicitly supplied
/// mint reference (checked path only); this binds the decimals check to the
/// correct mint.
pub fn check_mint_matches_expected(account_mint: Address, expected_mint: Address) -> (r: Result<
    (),
    PaymentError,
>)
    ensures
        r == (if account_mint == expected_mint {
            Result::<(), PaymentError>::Ok(())
        } else {
            Result::<(), PaymentError>::Err(PaymentError::MintMismatch)
        }),
{
    if account_mint == expected_mint {
        Ok(())
    } else {
        Err(PaymentError::MintMismatch)
    }
}

/// Refuses a debit larger than the balance observed at invocation time.
pub fn check_sufficient_balance(source_balance: u64, amount: u64) -> (r: Result<
    (),
    PaymentError,
>)
    ensures
        r == (if source_balance >= amount {
            Result::<(), PaymentError>::Ok(())
        } else {
            Result::<(), PaymentError>::Err(PaymentError::InsufficientFunds)
        }),
{
    if source_balance >= amount {
        Ok(())
    } else {
        Err(PaymentError::InsufficientFunds)
    }
}

/// The authorization gate: only the recorded owner of the source account
/// may initiate a debit from it.
pub fn check_ownership(source_account_owner: Address, signer: Address) -> (r: Result<
    (),
    PaymentError,
>)
    ensures
        r == (if source_account_owner == signer {
            Result::<(), PaymentError>::Ok(())
        } else {
            Result::<(), PaymentError>::Err(PaymentError::InvalidOwner)
        }),
{
    if source_account_owner == signer {
        Ok(())
    } else {
        Err(PaymentError::InvalidOwner)
    }
}

/// Refuses a caller whose claimed decimal precision disagrees with the
/// mint's recorded precision (checked path only); protects against
/// decimal-confusion attacks.
pub fn check_decimals_match(mint_decimals: u8, supplied_decimals: u8) -> (r: Result<
    (),
    PaymentError,
>)
    ensures
        r == (if mint_decimals == supplied_decimals {
            Result::<(), PaymentError>::Ok(())
        } else {
            Result::<(), PaymentError>::Err(PaymentError::InvalidDecimals)
        }),
{
    if mint_decimals == supplied_decimals {
        Ok(())
    } else {
        Err(PaymentError::InvalidDecimals)
    }
}

} // verus!
