//! The transfer handlers: a fixed chain of checks, then the balance
//! movement the accounting layer performs on the handler's behalf.
//!
//! Each handler's behaviour is pinned by a spec-level decision function
//! (`plain_transfer_error`, `checked_transfer_error`) giving the first
//! failing check in the order the program runs them: the account-binding
//! checks (ownership, and mint binding on the checked path) come first,
//! because the account layer enforces them before the handler body runs;
//! then the handler body's own checks in their written order.

use vstd::prelude::*;

use crate::accounts::Mint;
use crate::accounts::TokenAccount;
use crate::accounts::TokenTransferEvent;
use crate::accounts::TransferTokens;
use crate::accounts::TransferTokensChecked;
use crate::errors::PaymentError;
use crate::validate::check_amount_positive;
use crate::validate::check_decimals_match;
use crate::validate::check_mint_matches_expected;
use crate::validate::check_mints_match;
use crate::validate::check_ownership;
use crate::validate::check_sufficient_balance;

verus! {

/// The source account after a debit of `amount`.
pub open spec fn debited(account: TokenAccount, amount: u64) -> TokenAccount {
    TokenAccount {
        owner: account.owner,
        mint: account.mint,
        balance: (account.balance - amount) as u64,
    }
}

/// The destination account after a credit of `amount`.
pub open spec fn credited(account: TokenAccount, amount: u64) -> TokenAccount {
    TokenAccount {
        owner: account.owner,
        mint: account.mint,
        balance: (account.balance + amount) as u64,
    }
}

/// The first check a plain transfer request fails, or `None` when every
/// check passes: ownership (enforced at account binding, before the
/// handler body), then amount positivity, mint agreement, and balance
/// sufficiency.
pub open spec fn plain_transfer_error(accounts: TransferTokens, amount: u64) -> Option<
    PaymentError,
> {
    if accounts.from_token_account.owner != accounts.from_authority {
        Some(PaymentError::InvalidOwner)
    } else if amount == 0 {
        Some(PaymentError::InvalidAmount)
    } else if accounts.from_token_account.mint != accounts.to_token_account.mint {
        Some(PaymentError::MintMismatch)
    } else if accounts.from_token_account.balance < amount {
        Some(PaymentError::InsufficientFunds)
    } else {
        None
    }
}

/// Whether a plain transfer request passes every check.
pub open spec fn plain_transfer_allowed(accounts: TransferTokens, amount: u64) -> bool {
    plain_transfer_error(accounts, amount) is None
}

/// The audit event a successful plain transfer produces.
pub open spec fn plain_transfer_event(
    accounts: TransferTokens,
    amount: u64,
    now: i64,
) -> TokenTransferEvent {
    TokenTransferEvent {
        from: accounts.from_authority,
        to: accounts.to_authority,
        mint: accounts.from_token_account.mint,
        amount: amount,
        timestamp: now,
    }
}

/// The first check a decimal-checked transfer request fails, or `None`
/// when every check passes: ownership and the binding of both accounts to
/// the supplied mint (enforced at account binding, before the handler
/// body), then amount positivity, decimals agreement, and balance
/// sufficiency.
pub open spec fn checked_transfer_error(
    accounts: TransferTokensChecked,
    amount: u64,
    decimals: u8,
) -> Option<PaymentError> {
    if accounts.from_token_account.owner != accounts.from_authority {
        Some(PaymentError::InvalidOwner)
    } else if accounts.from_token_account.mint != accounts.mint.address {
        Some(PaymentError::MintMismatch)
    } else if accounts.to_token_account.mint != accounts.mint.address {
        Some(PaymentError::MintMismatch)
    } else if amount == 0 {
        Some(PaymentError::InvalidAmount)
    } else if accounts.mint.decimals != decimals {
        Some(PaymentError::InvalidDecimals)
    } else if accounts.from_token_account.balance < amount {
        Some(PaymentError::InsufficientFunds)
    } else {
        None
    }
}

/// Whether a decimal-checked transfer request passes every check.
pub open spec fn checked_transfer_allowed(
    accounts: TransferTokensChecked,
    amount: u64,
    decimals: u8,
) -> bool {
    checked_transfer_error(accounts, amount, decimals) is None
}

/// The audit event a successful decimal-checked transfer produces.
pub open spec fn checked_transfer_event(
    accounts: TransferTokensChecked,
    amount: u64,
    now: i64,
) -> TokenTransferEvent {
    TokenTransferEvent {
        from: accounts.from_authority,
        to: accounts.to_authority,
        mint: accounts.mint.address,
        amount: amount,
        timestamp: now,
    }
}

/// The balance movement of the accounting layer's plain transfer
/// primitive: debit the source, credit the destination, touch nothing
/// else.  The primitive is all-or-nothing; its effect is modelled here so
/// the handlers' contracts can speak of the post-state.
pub fn transfer_plain(from: &mut TokenAccount, to: &mut TokenAccount, amount: u64)
    requires
        old(from).balance >= amount,
        old(to).balance + amount <= u64::MAX,
    ensures
        *final(from) == debited(*old(from), amount),
        *final(to) == credited(*old(to), amount),
{
    from.balance = from.balance - amount;
    to.balance = to.balance + amount;
}

/// The balance movement of the accounting layer's decimal-checked transfer
/// primitive.  The accounting layer re-verifies the mint binding and the
/// decimal precision as a second line of defence; those re-checks appear
/// here as preconditions the handler has already established.
pub fn transfer_checked(
    from: &mut TokenAccount,
    to: &mut TokenAccount,
    mint: &Mint,
    amount: u64,
    decimals: u8,
)
    requires
        old(from).mint == mint.address,
        old(to).mint == mint.address,
        mint.decimals == decimals,
        old(from).balance >= amount,
        old(to).balance + amount <= u64::MAX,
    ensures
        *final(from) == debited(*old(from), amount),
        *final(to) == credited(*old(to), amount),
{
    from.balance = from.balance - amount;
    to.balance = to.balance + amount;
}

/// The plain transfer instruction: validate, then move `amount` from the
/// source account to the destination account, and report the audit event
/// for the host to emit.  `now` is the host clock's value at execution
/// time.
///
/// The precondition reflects the ledger's supply bound: the two balances
/// together fit in 64 bits, so a permitted credit cannot overflow.  On any
/// refusal the accounts are left exactly as presented.
pub fn transfer_tokens(accounts: &mut TransferTokens, amount: u64, now: i64) -> (r: Result<
    TokenTransferEvent,
    PaymentError,
>)
    requires
        old(accounts).from_token_account.balance + old(accounts).to_token_account.balance
            <= u64::MAX,
    ensures
        (match r {
            Result::Ok(event) => {
                &&& plain_transfer_allowed(*old(accounts), amount)
                &&& final(accounts).from_token_account == debited(
                    old(accounts).from_token_account,
                    amount,
                )
                &&& final(accounts).to_token_account == credited(
                    old(accounts).to_token_account,
                    amount,
                )
                &&& final(accounts).from_authority == old(accounts).from_authority
                &&& final(accounts).to_authority == old(accounts).to_authority
                &&& event == plain_transfer_event(*old(accounts), amount, now)
            },
            Result::Err(e) => {
                &&& plain_transfer_error(*old(accounts), amount) == Some(e)
                &&& *final(accounts) == *old(accounts)
            },
        }),
{
    if let Err(e) = check_ownership(accounts.from_token_account.owner, accounts.from_authority) {
        return Err(e);
    }
    if let Err(e) = check_amount_positive(amount) {
        return Err(e);
    }
    if let Err(e) = check_mints_match(
        accounts.from_token_account.mint,
        accounts.to_token_account.mint,
    ) {
        return Err(e);
    }
    if let Err(e) = check_sufficient_balance(accounts.from_token_account.balance, amount) {
        return Err(e);
    }
    let event = TokenTransferEvent {
        from: accounts.from_authority,
        to: accounts.to_authority,
        mint: accounts.from_token_account.mint,
        amount: amount,
        timestamp: now,
    };
    transfer_plain(&mut accounts.from_token_account, &mut accounts.to_token_account, amount);
    Ok(event)
}

/// The decimal-checked transfer instruction: validate (including the
/// binding of both accounts to the supplied mint and the caller's claimed
/// decimal precision), then move `amount` and report the audit event.
/// `now` is the host clock's value at execution time.
///
/// The precondition reflects the ledger's supply bound: the two balances
/// together fit in 64 bits, so a permitted credit cannot overflow.  On any
/// refusal the accounts are left exactly as presented.
pub fn transfer_tokens_checked(
    accounts: &mut TransferTokensChecked,
    amount: u64,
    decimals: u8,
    now: i64,
) -> (r: Result<TokenTransferEvent, PaymentError>)
    requires
        old(accounts).from_token_account.balance + old(accounts).to_token_account.balance
            <= u64::MAX,
    ensures
        (match r {
            Result::Ok(event) => {
                &&& checked_transfer_allowed(*old(accounts), amount, decimals)
                &&& final(accounts).from_token_account == debited(
                    old(accounts).from_token_account,
                    amount,
                )
                &&& final(accounts).to_token_account == credited(
                    old(accounts).to_token_account,
                    amount,
                )
                &&& final(accounts).from_authority == old(accounts).from_authority
                &&& final(accounts).to_authority == old(accounts).to_authority
                &&& final(accounts).mint == old(accounts).mint
                &&& event == checked_transfer_event(*old(accounts), amount, now)
            },
            Result::Err(e) => {
                &&& checked_transfer_error(*old(accounts), amount, decimals) == Some(e)
                &&& *final(accounts) == *old(accounts)
            },
        }),
{
    if let Err(e) = check_ownership(accounts.from_token_account.owner, accounts.from_authority) {
        return Err(e);
    }
    if let Err(e) = check_mint_matches_expected(
        accounts.from_token_account.mint,
        accounts.mint.address,
    ) {
        return Err(e);
    }
    if let Err(e) = check_mint_matches_expected(
        accounts.to_token_account.mint,
        accounts.mint.address,
    ) {
        return Err(e);
    }
    if let Err(e) = check_amount_positive(amount) {
        return Err(e);
    }
    if let Err(e) = check_decimals_match(accounts.mint.decimals, decimals) {
        return Err(e);
    }
    if let Err(e) = check_sufficient_balance(accounts.from_token_account.balance, amount) {
        return Err(e);
    }
    let event = TokenTransferEvent {
        from: accounts.from_authority,
        to: accounts.to_authority,
        mint: accounts.mint.address,
        amount: amount,
        timestamp: now,
    };
    let mint = Mint { address: accounts.mint.address, decimals: accounts.mint.decimals };
    transfer_checked(
        &mut accounts.from_token_account,
        &mut accounts.to_token_account,
        &mint,
        amount,
        decimals,
    );
    Ok(event)
}

/// Law: a zero amount is refused as `InvalidAmount` regardless of the
/// balances or the mints, once ownership admits the request.
pub proof fn lemma_zero_amount_rejected_plain(accounts: TransferTokens, amount: u64)
    requires
        accounts.from_token_account.owner == accounts.from_authority,
        amount == 0,
    ensures
        plain_transfer_error(accounts, amount) == Some(PaymentError::InvalidAmount),
{
}

/// Law: a zero amount is refused as `InvalidAmount` regardless of the
/// balances, once ownership and the mint bindings admit the request.
pub proof fn lemma_zero_amount_rejected_checked(
    accounts: TransferTokensChecked,
    amount: u64,
    decimals: u8,
)
    requires
        accounts.from_token_account.owner == accounts.from_authority,
        accounts.from_token_account.mint == accounts.mint.address,
        accounts.to_token_account.mint == accounts.mint.address,
        amount == 0,
    ensures
        checked_transfer_error(accounts, amount, decimals) == Some(PaymentError::InvalidAmount),
{
}

/// Law: a plain transfer between accounts of different mints is refused as
/// `MintMismatch`; by the handler's contract, a refusal leaves both
/// balances exactly as presented.
pub proof fn lemma_mint_mismatch_rejected(accounts: TransferTokens, amount: u64)
    requires
        accounts.from_token_account.owner == accounts.from_authority,
        amount > 0,
        accounts.from_token_account.mint != accounts.to_token_account.mint,
    ensures
        plain_transfer_error(accounts, amount) == Some(PaymentError::MintMismatch),
{
}

/// Law: a request to move more than the source holds is refused as
/// `InsufficientFunds`; by the handler's contract no event is produced on
/// a refusal.
pub proof fn lemma_insufficient_funds_rejected_plain(accounts: TransferTokens, amount: u64)
    requires
        accounts.from_token_account.owner == accounts.from_authority,
        amount > 0,
        accounts.from_token_account.mint == accounts.to_token_account.mint,
        accounts.from_token_account.balance < amount,
    ensures
        plain_transfer_error(accounts, amount) == Some(PaymentError::InsufficientFunds),
{
}

/// Law: on the checked path too, a request to move more than the source
/// holds is refused as `InsufficientFunds`.
pub proof fn lemma_insufficient_funds_rejected_checked(
    accounts: TransferTokensChecked,
    amount: u64,
    decimals: u8,
)
    requires
        accounts.from_token_account.owner == accounts.from_authority,
        accounts.from_token_account.mint == accounts.mint.address,
        accounts.to_token_account.mint == accounts.mint.address,
        amount > 0,
        accounts.mint.decimals == decimals,
        accounts.from_token_account.balance < amount,
    ensures
        checked_transfer_error(accounts, amount, decimals) == Some(PaymentError::InsufficientFunds),
{
}

/// Law: a signer who is not the recorded owner of the source account is
/// refused as `InvalidOwner` before any other check is considered — no
/// assumption on the amount, balances, or mints is needed.
pub proof fn lemma_wrong_owner_rejected_plain(accounts: TransferTokens, amount: u64)
    requires
        accounts.from_token_account.owner != accounts.from_authority,
    ensures
        plain_transfer_error(accounts, amount) == Some(PaymentError::InvalidOwner),
{
}

/// Law: the checked path refuses a non-owner signer the same way, before
/// any other check is considered.
pub proof fn lemma_wrong_owner_rejected_checked(
    accounts: TransferTokensChecked,
    amount: u64,
    decimals: u8,
)
    requires
        accounts.from_token_account.owner != accounts.from_authority,
    ensures
        checked_transfer_error(accounts, amount, decimals) == Some(PaymentError::InvalidOwner),
{
}

/// Law: on the checked path, a claimed decimal precision that differs from
/// the mint's recorded precision is refused as `InvalidDecimals`, even
/// when balances and mints otherwise agree.
pub proof fn lemma_decimals_mismatch_rejected(
    accounts: TransferTokensChecked,
    amount: u64,
    decimals: u8,
)
    requires
        accounts.from_token_account.owner == accounts.from_authority,
        accounts.from_token_account.mint == accounts.mint.address,
        accounts.to_token_account.mint == accounts.mint.address,
        amount > 0,
        accounts.mint.decimals != decimals,
    ensures
        checked_transfer_error(accounts, amount, decimals) == Some(PaymentError::InvalidDecimals),
{
}

/// Law (conservation): a permitted transfer moves value without creating
/// or destroying it — the two balances sum to the same total before and
/// after.
pub proof fn lemma_transfer_conserves_total(from: TokenAccount, to: TokenAccount, amount: u64)
    requires
        from.balance >= amount,
        to.balance + amount <= u64::MAX,
    ensures
        debited(from, amount).balance + credited(to, amount).balance == from.balance + to.balance,
{
}

/// Law: a transfer never changes who owns either account or which mint
/// either account is denominated in — only the two balances move.
pub proof fn lemma_transfer_preserves_identity(from: TokenAccount, to: TokenAccount, amount: u64)
    ensures
        debited(from, amount).owner == from.owner,
        debited(from, amount).mint == from.mint,
        credited(to, amount).owner == to.owner,
        credited(to, amount).mint == to.mint,
{
}

} // verus!
