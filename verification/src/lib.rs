//! Payments on the XRP Ledger that are signed without network access.
//!
//! Parameters are gathered over one connection, the payment is signed
//! offline with them, and the signed payment is submitted over a second
//! connection. This library holds every decision of that sequence: when
//! parameters may be signed with, what is signed, what the network's answer
//! to a submission means, and the order of it all. It opens no connection
//! itself; the caller carries out the requests that it names.

pub mod decimal;
pub mod error;
pub mod offline_signing;
pub mod signer;
pub mod text;
pub mod verification;
pub mod wallet;
pub mod workflow;

pub use error::RippleError;
pub use wallet::{create_test_wallet, wallet_from_seed};
