//! Validation core for a fungible-token payment program.
//!
//! Three entry points mirror the program's instruction surface: a plain
//! transfer, a decimal-checked transfer, and a read-only payment-info query.
//! Each transfer handler runs a fixed chain of predicate checks over the
//! presented accounts and, only when every check passes, applies the balance
//! movement that the token-accounting layer performs on its behalf.  The
//! host-side glue (account deserialization, the cross-program call itself,
//! event emission) lives outside this crate; what is verified here is the
//! decision logic: which requests are refused, with which error, and what a
//! permitted transfer does to the two balances.

pub mod accounts;
pub mod errors;
pub mod query;
pub mod transfer;
pub mod validate;

pub use accounts::Address;
pub use accounts::GetPaymentInfo;
pub use accounts::Mint;
pub use accounts::PaymentInfo;
pub use accounts::TokenAccount;
pub use accounts::TokenTransferEvent;
pub use accounts::TransferTokens;
pub use accounts::TransferTokensChecked;
pub use errors::PaymentError;
pub use query::get_payment_info;
pub use transfer::transfer_tokens;
pub use transfer::transfer_tokens_checked;
