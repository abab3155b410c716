use dapptokens::get_payment_info;
use dapptokens::transfer_tokens;
use dapptokens::transfer_tokens_checked;
use dapptokens::Address;
use dapptokens::GetPaymentInfo;
use dapptokens::Mint;
use dapptokens::PaymentError;
use dapptokens::PaymentInfo;
use dapptokens::TokenAccount;
use dapptokens::TransferTokens;
use dapptokens::TransferTokensChecked;

fn addr(tag: u64) -> Address {
    Address { w0: tag, w1: 0, w2: 0, w3: 0 }
}

fn account(owner: Address, mint: Address, balance: u64) -> TokenAccount {
    TokenAccount { owner, mint, balance }
}

fn plain_request(from_balance: u64, to_balance: u64) -> TransferTokens {
    let mint = addr(7);
    TransferTokens {
        from_authority: addr(1),
        from_token_account: account(addr(1), mint, from_balance),
        to_token_account: account(addr(2), mint, to_balance),
        to_authority: addr(2),
    }
}

fn checked_request(from_balance: u64, to_balance: u64, decimals: u8) -> TransferTokensChecked {
    let mint = addr(7);
    TransferTokensChecked {
        from_authority: addr(1),
        from_token_account: account(addr(1), mint, from_balance),
        to_token_account: account(addr(2), mint, to_balance),
        mint: Mint { address: mint, decimals },
        to_authority: addr(2),
    }
}

#[test]
fn zero_amount_is_invalid_on_plain_path() {
    let mut accounts = plain_request(100, 5);
    let before = accounts;
    let r = transfer_tokens(&mut accounts, 0, 1000);
    assert_eq!(r, Err(PaymentError::InvalidAmount));
    assert_eq!(accounts, before);
}

#[test]
fn zero_amount_is_invalid_on_checked_path() {
    let mut accounts = checked_request(100, 5, 6);
    let before = accounts;
    let r = transfer_tokens_checked(&mut accounts, 0, 6, 1000);
    assert_eq!(r, Err(PaymentError::InvalidAmount));
    assert_eq!(accounts, before);
}

#[test]
fn differing_mints_are_refused_and_balances_stand() {
    let mut accounts = plain_request(100, 5);
    accounts.to_token_account.mint = addr(8);
    let before = accounts;
    let r = transfer_tokens(&mut accounts, 10, 1000);
    assert_eq!(r, Err(PaymentError::MintMismatch));
    assert_eq!(accounts.from_token_account.balance, 100);
    assert_eq!(accounts.to_token_account.balance, 5);
    assert_eq!(accounts, before);
}

#[test]
fn mint_not_bound_to_source_is_refused_on_checked_path() {
    let mut accounts = checked_request(100, 5, 6);
    accounts.from_token_account.mint = addr(8);
    let r = transfer_tokens_checked(&mut accounts, 10, 6, 1000);
    assert_eq!(r, Err(PaymentError::MintMismatch));
}

#[test]
fn mint_not_bound_to_destination_is_refused_on_checked_path() {
    let mut accounts = checked_request(100, 5, 6);
    accounts.to_token_account.mint = addr(8);
    let r = transfer_tokens_checked(&mut accounts, 10, 6, 1000);
    assert_eq!(r, Err(PaymentError::MintMismatch));
}

#[test]
fn insufficient_balance_is_refused_and_no_event_is_produced() {
    let mut accounts = plain_request(30, 5);
    let before = accounts;
    let r = transfer_tokens(&mut accounts, 31, 1000);
    assert_eq!(r, Err(PaymentError::InsufficientFunds));
    assert_eq!(accounts, before);
}

#[test]
fn insufficient_balance_is_refused_on_checked_path() {
    let mut accounts = checked_request(30, 5, 6);
    let r = transfer_tokens_checked(&mut accounts, 31, 6, 1000);
    assert_eq!(r, Err(PaymentError::InsufficientFunds));
}

#[test]
fn non_owner_signer_is_refused_before_anything_else() {
    let mut accounts = plain_request(100, 5);
    accounts.from_authority = addr(9);
    let before = accounts;
    // Even a zero amount reports the ownership failure: the account-binding
    // check runs before the amount check.
    let r = transfer_tokens(&mut accounts, 0, 1000);
    assert_eq!(r, Err(PaymentError::InvalidOwner));
    assert_eq!(accounts, before);
}

#[test]
fn non_owner_signer_is_refused_on_checked_path() {
    let mut accounts = checked_request(100, 5, 6);
    accounts.from_authority = addr(9);
    let r = transfer_tokens_checked(&mut accounts, 0, 6, 1000);
    assert_eq!(r, Err(PaymentError::InvalidOwner));
}

#[test]
fn wrong_decimals_claim_is_refused_even_when_all_else_agrees() {
    let mut accounts = checked_request(100, 5, 6);
    let before = accounts;
    let r = transfer_tokens_checked(&mut accounts, 10, 5, 1000);
    assert_eq!(r, Err(PaymentError::InvalidDecimals));
    assert_eq!(accounts, before);
}

#[test]
fn plain_transfer_moves_forty_of_one_hundred() {
    let mut accounts = plain_request(100, 0);
    let r = transfer_tokens(&mut accounts, 40, 123456789);
    let event = r.expect("a fully valid transfer must succeed");
    assert_eq!(accounts.from_token_account.balance, 60);
    assert_eq!(accounts.to_token_account.balance, 40);
    assert_eq!(event.amount, 40);
    assert_eq!(event.from, addr(1));
    assert_eq!(event.to, addr(2));
    assert_eq!(event.mint, addr(7));
    assert_eq!(event.timestamp, 123456789);
}

#[test]
fn checked_transfer_drains_the_source_and_a_repeat_is_refused() {
    let mut accounts = checked_request(50, 0, 6);
    let r = transfer_tokens_checked(&mut accounts, 50, 6, 2000);
    let event = r.expect("a fully valid checked transfer must succeed");
    assert_eq!(accounts.from_token_account.balance, 0);
    assert_eq!(accounts.to_token_account.balance, 50);
    assert_eq!(event.amount, 50);
    let again = transfer_tokens_checked(&mut accounts, 50, 6, 2001);
    assert_eq!(again, Err(PaymentError::InsufficientFunds));
    assert_eq!(accounts.from_token_account.balance, 0);
    assert_eq!(accounts.to_token_account.balance, 50);
}

#[test]
fn successful_transfers_conserve_the_combined_balance() {
    let mut accounts = plain_request(75, 20);
    let total_before: u64 = accounts.from_token_account.balance + accounts.to_token_account.balance;
    transfer_tokens(&mut accounts, 33, 1000).expect("valid transfer");
    let total_after: u64 = accounts.from_token_account.balance + accounts.to_token_account.balance;
    assert_eq!(total_before, total_after);

    let mut checked = checked_request(600, 400, 2);
    let checked_before: u64 = checked.from_token_account.balance + checked.to_token_account.balance;
    transfer_tokens_checked(&mut checked, 599, 2, 1000).expect("valid checked transfer");
    let checked_after: u64 = checked.from_token_account.balance + checked.to_token_account.balance;
    assert_eq!(checked_before, checked_after);
}

#[test]
fn transfer_of_the_largest_representable_amount_succeeds() {
    let mut accounts = plain_request(u64::MAX, 0);
    transfer_tokens(&mut accounts, u64::MAX, 1).expect("valid transfer");
    assert_eq!(accounts.from_token_account.balance, 0);
    assert_eq!(accounts.to_token_account.balance, u64::MAX);
}

#[test]
fn payment_info_reports_the_observed_state() {
    let mint = addr(7);
    let accounts = GetPaymentInfo {
        from_token_account: account(addr(1), mint, 100),
        to_token_account: account(addr(2), mint, 25),
        mint: Mint { address: mint, decimals: 9 },
    };
    let info = get_payment_info(&accounts);
    let expected = PaymentInfo {
        from_balance: 100,
        to_balance: 25,
        mint,
        decimals: 9,
        is_valid_transfer: true,
    };
    assert_eq!(info, expected);
}

#[test]
fn payment_info_flags_mint_disagreement() {
    let accounts = GetPaymentInfo {
        from_token_account: account(addr(1), addr(7), 100),
        to_token_account: account(addr(2), addr(8), 25),
        mint: Mint { address: addr(7), decimals: 9 },
    };
    let info = get_payment_info(&accounts);
    assert!(!info.is_valid_transfer);
}

#[test]
fn payment_info_flags_a_foreign_mint_reference() {
    let accounts = GetPaymentInfo {
        from_token_account: account(addr(1), addr(7), 100),
        to_token_account: account(addr(2), addr(7), 25),
        mint: Mint { address: addr(8), decimals: 9 },
    };
    let info = get_payment_info(&accounts);
    assert!(!info.is_valid_transfer);
}

#[test]
fn repeated_queries_over_unchanged_state_are_identical() {
    let mint = addr(7);
    let accounts = GetPaymentInfo {
        from_token_account: account(addr(1), mint, 100),
        to_token_account: account(addr(2), mint, 25),
        mint: Mint { address: mint, decimals: 9 },
    };
    let first = get_payment_info(&accounts);
    let second = get_payment_info(&accounts);
    assert_eq!(first, second);
}
