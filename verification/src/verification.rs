//! Checking a settled transaction against the transfer that was meant.

use crate::error::RippleError;
use crate::text::same_text;
use vstd::prelude::*;

verus! {

/// The amount of a settled transaction, as the ledger reports it.
#[derive(Debug, Clone, PartialEq, Eq)]
pub enum SettledAmount {
    /// The transaction reports no amount.
    Missing,
    /// A text: drops of the native currency.
    Drops(String),
    /// An object: an issued currency. Each field is `None` where the object
    /// lacks it or holds something other than a text.
    Issued { currency: Option<String>, value: Option<String>, issuer: Option<String> },
    /// Neither a text nor an object.
    Other,
}

/// What is read of a settled transaction. A field is `None` where the
/// transaction lacks it or holds something other than a text.
#[derive(Debug, Clone, PartialEq, Eq)]
pub struct SettledTransaction {
    pub transaction_type: Option<String>,
    pub account: Option<String>,
    pub destination: Option<String>,
    pub amount: SettledAmount,
}

/// The judgement on a settled transaction: whether it is the transfer that
/// was meant, or the text of what it lacks.
///
/// The checks run in this order, and the first that decides ends them:
///   1. anything but a payment is not the transfer;
///   2. the sender must be there, and be `expected_from`;
///   3. the receiver must be there, and be `expected_to`;
///   4. the amount must be there;
///   5. drops are the transfer only where no currency is expected, and the
///      amount is `expected_amount`;
///   6. an issued amount is the transfer only where a currency is expected;
///      then currency, value and issuer must all be there, and be the expected
///      currency, `expected_amount`, and the sender;
///   7. an amount of any other shape is not the transfer.
pub open spec fn transfer_verdict(
    tx: SettledTransaction,
    expected_from: Seq<char>,
    expected_to: Seq<char>,
    expected_amount: Seq<char>,
    currency_code: Option<Seq<char>>,
) -> Result<bool, Seq<char>> {
    if !(tx.transaction_type matches Some(kind) && kind@ == "Payment"@) {
        Ok(false)
    } else if tx.account is None {
        Err("Account field not found"@)
    } else if tx.account->0@ != expected_from {
        Ok(false)
    } else if tx.destination is None {
        Err("Destination field not found"@)
    } else if tx.destination->0@ != expected_to {
        Ok(false)
    } else {
        match tx.amount {
            SettledAmount::Missing => Err("Amount field not found"@),
            SettledAmount::Drops(drops) => Ok(currency_code is None && drops@ == expected_amount),
            SettledAmount::Issued { currency, value, issuer } => {
                if currency_code is None {
                    Ok(false)
                } else if currency is None {
                    Err("Currency field not found"@)
                } else if value is None {
                    Err("Value field not found"@)
                } else if issuer is None {
                    Err("Issuer field not found"@)
                } else {
                    Ok(
                        currency->0@ == currency_code->0 && value->0@ == expected_amount
                            && issuer->0@ == expected_from,
                    )
                }
            },
            SettledAmount::Other => Ok(false),
        }
    }
}

/// Whether `result` reports `verdict`: the judgement itself, or a
/// verification error with the text of what the transaction lacks.
pub open spec fn reports_verdict(
    result: Result<bool, RippleError>,
    verdict: Result<bool, Seq<char>>,
) -> bool {
    match verdict {
        Ok(same) => result matches Ok(found) && found == same,
        Err(text) => result matches Err(RippleError::Verification(m)) && m@ == text,
    }
}

/// A verification error with `text` as its message.
fn lacking(text: &str) -> (r: Result<bool, RippleError>)
    ensures
        r matches Err(RippleError::Verification(m)) && m@ == text@,
{
    Err(RippleError::Verification(String::from_str(text)))
}

/// Tells whether the settled transaction `tx` is the payment of
/// `expected_amount` from `expected_from` to `expected_to`: in drops where
/// `currency_code` is absent, and else in that currency as issued by the sender.
pub fn verify_transfer(
    tx: &SettledTransaction,
    expected_from: &str,
    expected_to: &str,
    expected_amount: &str,
    currency_code: Option<&str>,
) -> (r: Result<bool, RippleError>)
    ensures
        reports_verdict(
            r,
            transfer_verdict(
                *tx,
                expected_from@,
                expected_to@,
                expected_amount@,
                match currency_code {
                    Some(code) => Some(code@),
                    None => None,
                },
            ),
        ),
{
    match &tx.transaction_type {
        Some(kind) => {
            if !same_text(kind.as_str(), "Payment") {
                return Ok(false);
            }
        },
        None => {
            return Ok(false);
        },
    }
    let actual_from = match &tx.account {
        Some(account) => account,
        None => {
            return lacking("Account field not found");
        },
    };
    if !same_text(actual_from.as_str(), expected_from) {
        return Ok(false);
    }
    let actual_to = match &tx.destination {
        Some(destination) => destination,
        None => {
            return lacking("Destination field not found");
        },
    };
    if !same_text(actual_to.as_str(), expected_to) {
        return Ok(false);
    }
    match &tx.amount {
        SettledAmount::Missing => lacking("Amount field not found"),
        SettledAmount::Drops(drops) => {
            if currency_code.is_some() {
                return Ok(false);
            }
            Ok(same_text(drops.as_str(), expected_amount))
        },
        SettledAmount::Issued { currency, value, issuer } => {
            let expected_currency = match currency_code {
                Some(code) => code,
                None => {
                    return Ok(false);
                },
            };
            let actual_currency = match currency {
                Some(currency) => currency,
                None => {
                    return lacking("Currency field not found");
                },
            };
            let actual_amount = match value {
                Some(value) => value,
                None => {
                    return lacking("Value field not found");
                },
            };
            let actual_issuer = match issuer {
                Some(issuer) => issuer,
                None => {
                    return lacking("Issuer field not found");
                },
            };
            if !same_text(actual_currency.as_str(), expected_currency) {
                return Ok(false);
            }
            if !same_text(actual_amount.as_str(), expected_amount) {
                return Ok(false);
            }
            Ok(same_text(actual_issuer.as_str(), expected_from))
        },
        SettledAmount::Other => Ok(false),
    }
}

} // verus!
