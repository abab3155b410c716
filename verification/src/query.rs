//! The read-only payment-info query: a snapshot of the state a transfer
//! would run against, computed without mutating or authorizing anything.

use vstd::prelude::*;

use crate::accounts::GetPaymentInfo;
use crate::accounts::PaymentInfo;

verus! {

/// The snapshot the query derives from the presented accounts: the two
/// balances, the supplied mint's address and precision, and the advisory
/// `is_valid_transfer` flag, true exactly when both accounts are
/// denominated in the supplied mint.
pub open spec fn payment_info_of(accounts: GetPaymentInfo) -> PaymentInfo {
    PaymentInfo {
        from_balance: accounts.from_token_account.balance,
        to_balance: accounts.to_token_account.balance,
        mint: accounts.mint.address,
        decimals: accounts.mint.decimals,
        is_valid_transfer: accounts.from_token_account.mint == accounts.to_token_account.mint
            && accounts.from_token_account.mint == accounts.mint.address,
    }
}

/// The payment-info query.  It mutates nothing and emits nothing; the
/// result is a pure function of the presented accounts, so repeated calls
/// over unchanged state return identical snapshots.
///
/// `is_valid_transfer` is advisory only: it reports mint agreement and says
/// nothing about balance sufficiency or ownership.
pub fn get_payment_info(accounts: &GetPaymentInfo) -> (r: PaymentInfo)
    ensures
        r == payment_info_of(*accounts),
{
    PaymentInfo {
        from_balance: accounts.from_token_account.balance,
        to_balance: accounts.to_token_account.balance,
        mint: accounts.mint.address,
        decimals: accounts.mint.decimals,
        is_valid_transfer: accounts.from_token_account.mint == accounts.to_token_account.mint
            && accounts.from_token_account.mint == accounts.mint.address,
    }
}

/// Law (idempotence): the query is deterministic in the observed state —
/// two queries over the same accounts and mint yield identical snapshots.
pub proof fn lemma_payment_info_deterministic(first: GetPaymentInfo, second: GetPaymentInfo)
    requires
        first == second,
    ensures
        payment_info_of(first) == payment_info_of(second),
{
}

} // verus!
