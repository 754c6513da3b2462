//! Accounts and the seeds that control them.

use crate::error::RippleError;
use crate::signer::{
    base58check_payload, create_wallet, derive_classic_address, derived_classic_address,
    seed_payload_readable, seed_readable,
};
use vstd::prelude::*;

verus! {

/// An account, with the seed that controls it. The seed is secret.
#[derive(Debug, Clone, PartialEq, Eq)]
pub struct WalletIdentity {
    /// The seed from which the account's keys are derived.
    pub seed: String,
    /// The address that names the account in public.
    pub classic_address: String,
}

impl WalletIdentity {
    /// The address is the one that the seed yields.
    pub open spec fn well_formed(&self) -> bool {
        &&& seed_payload_readable(base58check_payload(self.seed@))
        &&& derived_classic_address(self.seed@) == Some(self.classic_address@)
    }
}

/// What is said of a secret from which no wallet can be derived. The secret
/// itself is never quoted.
pub open spec fn no_wallet_text() -> Seq<char> {
    "No wallet can be derived from the secret"@
}

/// The classic address of the account that `seed` controls, or a wallet
/// error where no wallet can be derived from `seed`. No copy of the seed is made.
pub fn classic_address_from_seed(seed: &str) -> (r: Result<String, RippleError>)
    ensures
        r is Ok <==> seed_payload_readable(base58check_payload(seed@)) && derived_classic_address(
            seed@,
        ) is Some,
        r matches Ok(address) ==> derived_classic_address(seed@) == Some(address@),
        r matches Err(e) ==> e matches RippleError::Wallet(m) && m@ == no_wallet_text(),
{
    if seed_readable(seed) {
        if let Some(address) = derive_classic_address(seed) {
            return Ok(address);
        }
    }
    Err(RippleError::Wallet(String::from_str("No wallet can be derived from the secret")))
}

/// The account that `seed` controls, or a wallet error where no wallet can
/// be derived from `seed`.
pub fn wallet_from_seed(seed: &str) -> (r: Result<WalletIdentity, RippleError>)
    ensures
        r is Ok <==> seed_payload_readable(base58check_payload(seed@)) && derived_classic_address(
            seed@,
        ) is Some,
        r matches Ok(wallet) ==> wallet.seed@ == seed@ && wallet.well_formed(),
        r matches Err(e) ==> e matches RippleError::Wallet(m) && m@ == no_wallet_text(),
{
    match classic_address_from_seed(seed) {
        Ok(classic_address) => Ok(WalletIdentity { seed: String::from_str(seed), classic_address }),
        Err(e) => Err(e),
    }
}

/// A new account under a seed drawn at random, or a wallet error where the
/// ledger library could not make one. An account that is returned can be
/// had again from its seed.
pub fn create_test_wallet() -> (r: Result<WalletIdentity, RippleError>)
    ensures
        r matches Ok(wallet) ==> wallet.well_formed(),
        r matches Err(e) ==> e is Wallet,
{
    match create_wallet() {
        Ok((seed, classic_address)) => Ok(WalletIdentity { seed, classic_address }),
        Err(e) => Err(RippleError::from(e)),
    }
}

} // verus!
