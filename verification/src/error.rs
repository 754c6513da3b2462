//! The library's error type.

use vstd::prelude::*;
use vstd::std_specs::convert::FromSpecImpl;
use xrpl::asynch::clients::exceptions::XRPLClientException;
use xrpl::asynch::exceptions::XRPLHelperException;
use xrpl::wallet::exceptions::XRPLWalletException;

verus! {

/// An error of the ledger library's transaction helpers, carried through unread.
#[verifier::external_type_specification]
#[verifier::external_body]
pub struct ExXRPLHelperException(XRPLHelperException);

/// An error of the ledger library's wallet derivation, carried through unread.
#[verifier::external_type_specification]
#[verifier::external_body]
pub struct ExXRPLWalletException(XRPLWalletException);

/// An error of the ledger library's network client, carried through unread.
#[verifier::external_type_specification]
#[verifier::external_body]
pub struct ExXRPLClientException(XRPLClientException);

/// What went wrong, by the part of the system that failed, with a message.
#[derive(Debug)]
pub enum RippleError {
    /// The ledger library failed, or answered what was not asked for.
    XRPLClient(String),
    /// The network did not take a transaction.
    Transaction(String),
    /// A settled transaction lacks what is needed to check it.
    Verification(String),
    /// A secret does not yield an account.
    Wallet(String),
    /// The network could not be reached, or a request to it failed.
    Network(String),
    /// An input breaks a rule of this library.
    InvalidInput(String),
}

impl RippleError {
    /// The message that the error carries.
    pub open spec fn detail(&self) -> Seq<char> {
        match self {
            RippleError::XRPLClient(msg) => msg@,
            RippleError::Transaction(msg) => msg@,
            RippleError::Verification(msg) => msg@,
            RippleError::Wallet(msg) => msg@,
            RippleError::Network(msg) => msg@,
            RippleError::InvalidInput(msg) => msg@,
        }
    }

    /// The words that introduce the message, by the kind of error.
    pub open spec fn heading(&self) -> Seq<char> {
        match self {
            RippleError::XRPLClient(_) => "XRPL Client Error: "@,
            RippleError::Transaction(_) => "Transaction Error: "@,
            RippleError::Verification(_) => "Verification Error: "@,
            RippleError::Wallet(_) => "Wallet Error: "@,
            RippleError::Network(_) => "Network Error: "@,
            RippleError::InvalidInput(_) => "Invalid Input: "@,
        }
    }

    /// The error as one line of text: its heading, then its message.
    pub fn to_string(&self) -> (s: String)
        ensures
            s@ == self.heading() + self.detail(),
    {
        match self {
            RippleError::XRPLClient(msg) => String::from_str("XRPL Client Error: ").concat(
                msg.as_str(),
            ),
            RippleError::Transaction(msg) => String::from_str("Transaction Error: ").concat(
                msg.as_str(),
            ),
            RippleError::Verification(msg) => String::from_str("Verification Error: ").concat(
                msg.as_str(),
            ),
            RippleError::Wallet(msg) => String::from_str("Wallet Error: ").concat(msg.as_str()),
            RippleError::Network(msg) => String::from_str("Network Error: ").concat(msg.as_str()),
            RippleError::InvalidInput(msg) => String::from_str("Invalid Input: ").concat(
                msg.as_str(),
            ),
        }
    }
}

/// The debug rendering of a transaction helper error, as
/// `<XRPLHelperException as Debug>::fmt` writes it. Nothing is claimed of the text.
#[verifier::external_body]
fn helper_exception_text(err: &XRPLHelperException) -> String {
    format!("{:?}", err)
}

/// The debug rendering of a wallet error, as
/// `<XRPLWalletException as Debug>::fmt` writes it. Nothing is claimed of the text.
#[verifier::external_body]
fn wallet_exception_text(err: &XRPLWalletException) -> String {
    format!("{:?}", err)
}

/// The debug rendering of a client error, as
/// `<XRPLClientException as Debug>::fmt` writes it. Nothing is claimed of the text.
#[verifier::external_body]
fn client_exception_text(err: &XRPLClientException) -> String {
    format!("{:?}", err)
}

impl From<XRPLHelperException> for RippleError {
    fn from(err: XRPLHelperException) -> (r: Self)
        ensures
            r is XRPLClient,
    {
        RippleError::XRPLClient(helper_exception_text(&err))
    }
}

impl FromSpecImpl<XRPLHelperException> for RippleError {
    open spec fn obeys_from_spec() -> bool {
        false
    }

    open spec fn from_spec(v: XRPLHelperException) -> Self {
        arbitrary()
    }
}

impl From<XRPLWalletException> for RippleError {
    fn from(err: XRPLWalletException) -> (r: Self)
        ensures
            r is Wallet,
    {
        RippleError::Wallet(wallet_exception_text(&err))
    }
}

impl FromSpecImpl<XRPLWalletException> for RippleError {
    open spec fn obeys_from_spec() -> bool {
        false
    }

    open spec fn from_spec(v: XRPLWalletException) -> Self {
        arbitrary()
    }
}

impl From<XRPLClientException> for RippleError {
    fn from(err: XRPLClientException) -> (r: Self)
        ensures
            r is XRPLClient,
    {
        RippleError::XRPLClient(client_exception_text(&err))
    }
}

impl FromSpecImpl<XRPLClientException> for RippleError {
    open spec fn obeys_from_spec() -> bool {
        false
    }

    open spec fn from_spec(v: XRPLClientException) -> Self {
        arbitrary()
    }
}

} // verus!
