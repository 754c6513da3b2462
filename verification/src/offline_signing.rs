//! Parameters for transactions that are signed without network access:
//! what they hold, when they are safe to sign with, and how they are gathered.

use crate::decimal::{decimal_text, format_u64, lemma_parse_decimal_text, parse_u32, parse_u32_spec};
use crate::error::RippleError;
use crate::text::{contains, contains_text};
use crate::signer::{
    base58check_payload, derived_classic_address, payment_is_readable, payment_readable,
    seed_payload_readable, sign_payment, signed_payment_blob,
};
use crate::wallet::{classic_address_from_seed, no_wallet_text};
use vstd::prelude::*;

verus! {

/// A signed transaction is eligible for this many ledgers after the one that
/// was current when its parameters were gathered (about 50 seconds).
pub const TRANSACTION_EXPIRY_LEDGERS: u32 = 10;

/// The lowest fee, in drops, that a transaction may offer.
pub const MINIMUM_FEE_DROPS: u32 = 12;

/// Why a set of parameters must not be signed with.
#[derive(Debug, Clone, Copy, PartialEq, Eq, Structural)]
pub enum SecurityViolation {
    /// No expiration is set: the transaction would stay valid for ever.
    MissingExpiration,
    /// The ledger has already reached the expiration.
    Expired { current_ledger: u32, expiration: u32 },
    /// The fee is not an unsigned 32-bit decimal text.
    MalformedFee,
    /// The fee is a number, but below the minimum.
    FeeBelowMinimum { fee_drops: u32 },
}

impl SecurityViolation {
    /// The violation in words.
    pub open spec fn message_text(self) -> Seq<char> {
        match self {
            SecurityViolation::MissingExpiration =>
                "Transaction must have expiration (last_ledger_sequence) for security"@,
            SecurityViolation::Expired { current_ledger, expiration } =>
                "Transaction expired: current ledger "@ + decimal_text(current_ledger as nat)
                    + " >= expiration "@ + decimal_text(expiration as nat),
            SecurityViolation::MalformedFee => "Fee must be valid numeric string"@,
            SecurityViolation::FeeBelowMinimum { fee_drops } =>
                "Fee "@ + decimal_text(fee_drops as nat) + " drops is below minimum "@
                    + decimal_text(MINIMUM_FEE_DROPS as nat),
        }
    }

    /// The violation in words.
    pub fn message(&self) -> (s: String)
        ensures
            s@ == self.message_text(),
    {
        match self {
            SecurityViolation::MissingExpiration => String::from_str(
                "Transaction must have expiration (last_ledger_sequence) for security",
            ),
            SecurityViolation::Expired { current_ledger, expiration } => {
                let mut s = String::from_str("Transaction expired: current ledger ");
                s.append(format_u64(*current_ledger as u64).as_str());
                s.append(" >= expiration ");
                s.append(format_u64(*expiration as u64).as_str());
                s
            },
            SecurityViolation::MalformedFee => String::from_str("Fee must be valid numeric string"),
            SecurityViolation::FeeBelowMinimum { fee_drops } => {
                let mut s = String::from_str("Fee ");
                s.append(format_u64(*fee_drops as u64).as_str());
                s.append(" drops is below minimum ");
                s.append(format_u64(MINIMUM_FEE_DROPS as u64).as_str());
                s
            },
        }
    }

    /// The violation as an error of the library: invalid input, with the
    /// violation's words as its message.
    pub fn into_error(self) -> (e: RippleError)
        ensures
            e matches RippleError::InvalidInput(m) && m@ == self.message_text(),
    {
        RippleError::InvalidInput(self.message())
    }
}

/// What a transaction needs from the network before it can be signed offline.
#[derive(Debug, Clone, PartialEq, Eq)]
pub struct OfflineTransactionParams {
    /// The account's next sequence number.
    pub sequence: u32,
    /// The fee in drops, as a decimal text.
    pub fee: String,
    /// The last ledger in which the transaction may be included.
    pub last_ledger_sequence: u32,
    /// The validated ledger that was current when the parameters were gathered.
    pub current_ledger_index: u32,
}

/// The parameters as plain values.
pub ghost struct ParamsView {
    pub sequence: u32,
    pub fee: Seq<char>,
    pub last_ledger_sequence: u32,
    pub current_ledger_index: u32,
}

impl View for OfflineTransactionParams {
    type V = ParamsView;

    open spec fn view(&self) -> ParamsView {
        ParamsView {
            sequence: self.sequence,
            fee: self.fee@,
            last_ledger_sequence: self.last_ledger_sequence,
            current_ledger_index: self.current_ledger_index,
        }
    }
}

/// The expiration lies after `current_ledger`, where one is given.
pub open spec fn window_open(last_ledger_sequence: u32, current_ledger: Option<u32>) -> bool {
    &&& last_ledger_sequence != 0
    &&& current_ledger matches Some(current) ==> current < last_ledger_sequence
}

/// The rules for parameters, in order; the first that is broken decides.
///   1. an expiration is set;
///   2. the ledger given, if any, has not reached it;
///   3. the fee is an unsigned 32-bit decimal text;
///   4. the fee is at least the minimum.
pub open spec fn validation_outcome(params: ParamsView, current_ledger: Option<u32>) -> Result<
    (),
    SecurityViolation,
> {
    if params.last_ledger_sequence == 0 {
        Err(SecurityViolation::MissingExpiration)
    } else if current_ledger is Some && current_ledger->0 >= params.last_ledger_sequence {
        Err(
            SecurityViolation::Expired {
                current_ledger: current_ledger->0,
                expiration: params.last_ledger_sequence,
            },
        )
    } else {
        match parse_u32_spec(params.fee) {
            None => Err(SecurityViolation::MalformedFee),
            Some(fee_drops) => if fee_drops < MINIMUM_FEE_DROPS {
                Err(SecurityViolation::FeeBelowMinimum { fee_drops })
            } else {
                Ok(())
            },
        }
    }
}

/// The ledgers that are left until the expiration, seen from `current_ledger`:
/// zero or less once the expiration is reached.
pub open spec fn ledgers_remaining(params: ParamsView, current_ledger: u32) -> int {
    params.last_ledger_sequence - current_ledger
}

/// The parameters that gathering yields for an account whose next sequence
/// number is `sequence`, seen at validated ledger `current_ledger_index`.
pub open spec fn gathered_params(sequence: u32, current_ledger_index: u32) -> ParamsView
    recommends
        current_ledger_index + TRANSACTION_EXPIRY_LEDGERS <= u32::MAX,
{
    ParamsView {
        sequence,
        fee: decimal_text(MINIMUM_FEE_DROPS as nat),
        last_ledger_sequence: (current_ledger_index + TRANSACTION_EXPIRY_LEDGERS) as u32,
        current_ledger_index,
    }
}

impl OfflineTransactionParams {
    /// The expiration is the ledger seen at gathering plus the expiry window.
    /// Gathering yields parameters of which this holds.
    pub open spec fn well_formed(&self) -> bool {
        self.last_ledger_sequence == self.current_ledger_index + TRANSACTION_EXPIRY_LEDGERS
    }

    /// Checks the parameters against the rules of `validation_outcome`. With
    /// `current_ledger` absent the expiration is only required to be set.
    pub fn validate_security(&self, current_ledger: Option<u32>) -> (r: Result<
        (),
        SecurityViolation,
    >)
        ensures
            r == validation_outcome(self@, current_ledger),
            self.last_ledger_sequence == 0 ==> r == Err::<(), _>(
                SecurityViolation::MissingExpiration,
            ),
            self.last_ledger_sequence != 0 && current_ledger is Some && current_ledger->0
                >= self.last_ledger_sequence ==> r == Err::<(), _>(
                SecurityViolation::Expired {
                    current_ledger: current_ledger->0,
                    expiration: self.last_ledger_sequence,
                },
            ),
            window_open(self.last_ledger_sequence, current_ledger) && parse_u32_spec(self.fee@)
                is None ==> r == Err::<(), _>(SecurityViolation::MalformedFee),
            window_open(self.last_ledger_sequence, current_ledger) && parse_u32_spec(self.fee@)
                is Some && parse_u32_spec(self.fee@)->0 < MINIMUM_FEE_DROPS ==> r == Err::<(), _>(
                SecurityViolation::FeeBelowMinimum { fee_drops: parse_u32_spec(self.fee@)->0 },
            ),
            window_open(self.last_ledger_sequence, current_ledger) && parse_u32_spec(self.fee@)
                is Some && parse_u32_spec(self.fee@)->0 >= MINIMUM_FEE_DROPS ==> r is Ok,
    {
        if self.last_ledger_sequence == 0 {
            return Err(SecurityViolation::MissingExpiration);
        }
        if let Some(current) = current_ledger {
            if current >= self.last_ledger_sequence {
                return Err(
                    SecurityViolation::Expired {
                        current_ledger: current,
                        expiration: self.last_ledger_sequence,
                    },
                );
            }
        }
        let fee_drops = match parse_u32(self.fee.as_str()) {
            Some(fee_drops) => fee_drops,
            None => {
                return Err(SecurityViolation::MalformedFee);
            },
        };
        if fee_drops < MINIMUM_FEE_DROPS {
            return Err(SecurityViolation::FeeBelowMinimum { fee_drops });
        }
        Ok(())
    }

    /// How many ledgers are left until the expiration, seen from
    /// `current_ledger`: negative once the expiration has passed.
    pub fn remaining_ledgers(&self, current_ledger: u32) -> (r: i64)
        ensures
            r == self.last_ledger_sequence - current_ledger,
            r == ledgers_remaining(self@, current_ledger),
    {
        self.last_ledger_sequence as i64 - current_ledger as i64
    }
}

/// Parameters for the next transaction of an account whose next sequence
/// number is `sequence`, as seen at validated ledger `current_ledger_index`:
/// the minimum fee, and an expiration one expiry window after that ledger.
///
/// The result passes validation against `current_ledger_index`. Where the
/// ledger index is so high that no later expiration can be written down, no
/// expiration can be set, and gathering fails with `MissingExpiration`.
pub fn gather_transaction_params(sequence: u32, current_ledger_index: u32) -> (r: Result<
    OfflineTransactionParams,
    SecurityViolation,
>)
    ensures
        current_ledger_index + TRANSACTION_EXPIRY_LEDGERS <= u32::MAX ==> r is Ok,
        current_ledger_index + TRANSACTION_EXPIRY_LEDGERS > u32::MAX ==> r == Err::<
            OfflineTransactionParams,
            _,
        >(SecurityViolation::MissingExpiration),
        r matches Ok(params) ==> {
            &&& params@ == gathered_params(sequence, current_ledger_index)
            &&& params.well_formed()
            &&& validation_outcome(params@, Some(current_ledger_index)) is Ok
            &&& validation_outcome(params@, None) is Ok
        },
{
    let last_ledger_sequence = match current_ledger_index.checked_add(TRANSACTION_EXPIRY_LEDGERS) {
        Some(last) => last,
        None => {
            return Err(SecurityViolation::MissingExpiration);
        },
    };
    let params = OfflineTransactionParams {
        sequence,
        fee: format_u64(MINIMUM_FEE_DROPS as u64),
        last_ledger_sequence,
        current_ledger_index,
    };
    proof {
        lemma_parse_decimal_text(MINIMUM_FEE_DROPS);
    }
    match params.validate_security(Some(current_ledger_index)) {
        Ok(()) => Ok(params),
        Err(violation) => Err(violation),
    }
}

/// Parameters that pass against a ledger also pass where none is given: what
/// was checked at gathering need not fail at signing for want of a ledger.
pub proof fn lemma_valid_without_ledger(params: ParamsView, current_ledger: u32)
    requires
        validation_outcome(params, Some(current_ledger)) is Ok,
    ensures
        validation_outcome(params, None) is Ok,
{
}

/// Parameters grow invalid only as ledgers pass: what passes at a ledger
/// passed at every earlier one.
pub proof fn lemma_valid_at_earlier_ledgers(params: ParamsView, earlier: u32, later: u32)
    requires
        earlier <= later,
        validation_outcome(params, Some(later)) is Ok,
    ensures
        validation_outcome(params, Some(earlier)) is Ok,
{
}

/// With an expiration set, validation finds the parameters expired at a
/// ledger exactly when no ledger remains from there.
pub proof fn lemma_expired_when_none_remain(params: ParamsView, current_ledger: u32)
    requires
        params.last_ledger_sequence != 0,
    ensures
        validation_outcome(params, Some(current_ledger)) is Err && validation_outcome(
            params,
            Some(current_ledger),
        )->Err_0 is Expired <==> ledgers_remaining(params, current_ledger) <= 0,
{
}

/// Gathered parameters leave exactly the expiry window, seen from the ledger
/// at which they were gathered.
pub proof fn lemma_gathered_window(sequence: u32, current_ledger_index: u32)
    requires
        current_ledger_index + TRANSACTION_EXPIRY_LEDGERS <= u32::MAX,
    ensures
        ledgers_remaining(gathered_params(sequence, current_ledger_index), current_ledger_index)
            == TRANSACTION_EXPIRY_LEDGERS,
        validation_outcome(gathered_params(sequence, current_ledger_index), Some(current_ledger_index))
            is Ok,
{
    lemma_parse_decimal_text(MINIMUM_FEE_DROPS);
}

/// What a payment delivers: drops of the native currency, or an amount of a
/// currency that an account has issued.
#[derive(Debug, Clone, PartialEq, Eq)]
pub enum PaymentAmount {
    /// A whole number of drops, as a decimal text.
    Native { drops: String },
    /// `value` units of `currency` as issued by the account `issuer`.
    Issued { currency: String, issuer: String, value: String },
}

/// A payment amount as plain values.
pub ghost enum AmountView {
    Native { drops: Seq<char> },
    Issued { currency: Seq<char>, issuer: Seq<char>, value: Seq<char> },
}

impl View for PaymentAmount {
    type V = AmountView;

    open spec fn view(&self) -> AmountView {
        match self {
            PaymentAmount::Native { drops } => AmountView::Native { drops: drops@ },
            PaymentAmount::Issued { currency, issuer, value } => AmountView::Issued {
                currency: currency@,
                issuer: issuer@,
                value: value@,
            },
        }
    }
}

/// How an attempt to sign a payment ends.
pub ghost enum SigningOutcome {
    /// The parameters break a rule; nothing was derived or signed.
    Rejected(SecurityViolation),
    /// No wallet can be derived from the secret.
    BadSecret,
    /// The payment holds a text that the ledger library cannot be handed.
    Unreadable,
    /// The ledger library refused to build, sign or encode the payment.
    Failed,
    /// The signed payment, encoded.
    Signed(Seq<char>),
}

/// What is said of a payment with a text that the ledger library cannot be handed.
pub open spec fn unreadable_payment_text() -> Seq<char> {
    "Payment holds an address or an amount that is not well-formed"@
}

/// How signing a payment of `amount` to `to_address` with `user_secret` and
/// `params` ends. The parameters are checked first, without a current ledger;
/// then the secret must yield an account, and the texts of the payment must
/// be such as the ledger library can be handed; then the payment from the
/// account that the secret yields is built from exactly these values, and
/// signed and encoded.
pub open spec fn signing_outcome(
    user_secret: Seq<char>,
    to_address: Seq<char>,
    amount: AmountView,
    params: ParamsView,
) -> SigningOutcome {
    match validation_outcome(params, None) {
        Err(violation) => SigningOutcome::Rejected(violation),
        Ok(_) => if !seed_payload_readable(base58check_payload(user_secret))
            || derived_classic_address(user_secret) is None {
            SigningOutcome::BadSecret
        } else if !payment_readable(
            derived_classic_address(user_secret)->0,
            to_address,
            amount,
            params.fee,
        ) {
            SigningOutcome::Unreadable
        } else {
            match signed_payment_blob(
                user_secret,
                derived_classic_address(user_secret)->0,
                to_address,
                amount,
                params.fee,
                params.sequence,
                params.last_ledger_sequence,
            ) {
                Some(blob) => SigningOutcome::Signed(blob),
                None => SigningOutcome::Failed,
            }
        },
    }
}

/// Whether `result` reports `outcome`: the blob where the payment was signed,
/// and otherwise the error that stands for the way it ended.
pub open spec fn reports_signing(result: Result<String, RippleError>, outcome: SigningOutcome) -> bool {
    match outcome {
        SigningOutcome::Rejected(violation) => result matches Err(RippleError::InvalidInput(m))
            && m@ == violation.message_text(),
        SigningOutcome::BadSecret => result matches Err(RippleError::Wallet(m)) && m@
            == no_wallet_text(),
        SigningOutcome::Unreadable => result matches Err(RippleError::InvalidInput(m)) && m@
            == unreadable_payment_text(),
        SigningOutcome::Failed => result matches Err(RippleError::XRPLClient(_)),
        SigningOutcome::Signed(blob) => result matches Ok(text) && text@ == blob,
    }
}

/// Signing is repeatable: two results that report the signing of the same
/// payment with the same secret and parameters succeed or fail together, and
/// where they succeed they are the same text.
pub proof fn lemma_signing_repeatable(
    first: Result<String, RippleError>,
    second: Result<String, RippleError>,
    user_secret: Seq<char>,
    to_address: Seq<char>,
    amount: AmountView,
    params: ParamsView,
)
    requires
        reports_signing(first, signing_outcome(user_secret, to_address, amount, params)),
        reports_signing(second, signing_outcome(user_secret, to_address, amount, params)),
    ensures
        first is Ok <==> second is Ok,
        first is Ok && second is Ok ==> first->Ok_0@ == second->Ok_0@,
{
}

/// Whatever was signed had passed validation: a signing that ends in a blob
/// was given parameters with an expiration and with a fee at or above the minimum.
pub proof fn lemma_signed_means_validated(
    user_secret: Seq<char>,
    to_address: Seq<char>,
    amount: AmountView,
    params: ParamsView,
)
    requires
        signing_outcome(user_secret, to_address, amount, params) is Signed,
    ensures
        params.last_ledger_sequence != 0,
        parse_u32_spec(params.fee) is Some,
        parse_u32_spec(params.fee)->0 >= MINIMUM_FEE_DROPS,
        derived_classic_address(user_secret) is Some,
{
}

/// Signs a payment of `amount` to `to_address` with the key that
/// `user_secret` yields, using the sequence number, fee and expiration of
/// `params`, and returns the signed payment in its canonical encoding.
///
/// No network is involved. The parameters are validated before anything is
/// derived from the secret, so a payment without expiration or with too low a
/// fee is never signed.
pub fn offline_sign_transaction(
    user_secret: &str,
    to_address: &str,
    amount: PaymentAmount,
    params: OfflineTransactionParams,
) -> (r: Result<String, RippleError>)
    ensures
        reports_signing(r, signing_outcome(user_secret@, to_address@, amount@, params@)),
        validation_outcome(params@, None) is Err ==> r is Err,
{
    if let Err(violation) = params.validate_security(None) {
        return Err(violation.into_error());
    }
    let account = match classic_address_from_seed(user_secret) {
        Ok(account) => account,
        Err(e) => {
            return Err(e);
        },
    };
    if !payment_is_readable(account.as_str(), to_address, &amount, params.fee.as_str()) {
        return Err(
            RippleError::InvalidInput(
                String::from_str("Payment holds an address or an amount that is not well-formed"),
            ),
        );
    }
    match sign_payment(
        user_secret,
        account.as_str(),
        to_address,
        amount,
        params.fee.as_str(),
        params.sequence,
        params.last_ledger_sequence,
    ) {
        Ok(blob) => Ok(blob),
        Err(e) => Err(RippleError::from(e)),
    }
}

/// What the network answered to the submission of a signed transaction.
#[derive(Debug, Clone, PartialEq, Eq)]
pub enum SubmitReply {
    /// The answer to a submission: the engine's classification of the
    /// transaction, and the identifier in the echoed transaction, if any.
    Submit { engine_result: String, tx_hash: Option<String> },
    /// An answer of another kind.
    Unexpected,
}

/// The engine result tells of a transaction that came after its expiration:
/// it holds one of the markers `EXPIRED` and `LATE`, in upper case.
pub open spec fn tells_of_expiry(engine_result: Seq<char>) -> bool {
    contains_text(engine_result, "EXPIRED"@) || contains_text(engine_result, "LATE"@)
}

/// How a submission ended, by what the network answered.
pub ghost enum SubmissionOutcome {
    /// The answer was not one to a submission.
    Unexpected,
    /// The engine result tells of an expired transaction.
    Expired { engine_result: Seq<char> },
    /// No identifier came back with the answer.
    MissingHash,
    /// The network took the transaction, under this identifier.
    Accepted { tx_hash: Seq<char> },
}

/// How a submission ended. The markers of expiry decide before the
/// identifier is looked at: an answer that tells of expiry is a failure even
/// where the network sent an identifier with it.
pub open spec fn submission_outcome(reply: SubmitReply) -> SubmissionOutcome {
    match reply {
        SubmitReply::Unexpected => SubmissionOutcome::Unexpected,
        SubmitReply::Submit { engine_result, tx_hash } => if tells_of_expiry(engine_result@) {
            SubmissionOutcome::Expired { engine_result: engine_result@ }
        } else {
            match tx_hash {
                None => SubmissionOutcome::MissingHash,
                Some(hash) => SubmissionOutcome::Accepted { tx_hash: hash@ },
            }
        },
    }
}

/// Whether `result` reports `outcome`: the identifier where the network took
/// the transaction, and otherwise the error that stands for the way it ended.
pub open spec fn reports_submission(
    result: Result<String, RippleError>,
    outcome: SubmissionOutcome,
) -> bool {
    match outcome {
        SubmissionOutcome::Unexpected => result matches Err(RippleError::XRPLClient(m)) && m@
            == "Unexpected response type for submit request"@,
        SubmissionOutcome::Expired { engine_result } => result matches Err(
            RippleError::Transaction(m),
        ) && m@ == "Transaction expired: "@ + engine_result,
        SubmissionOutcome::MissingHash => result matches Err(RippleError::Transaction(m)) && m@
            == "No transaction hash in response"@,
        SubmissionOutcome::Accepted { tx_hash } => result matches Ok(hash) && hash@ == tx_hash,
    }
}

/// Decides what the network's answer to a submission means: the
/// transaction's identifier, or the reason why there is none.
pub fn classify_submission(reply: SubmitReply) -> (r: Result<String, RippleError>)
    ensures
        reports_submission(r, submission_outcome(reply)),
        r is Ok <==> submission_outcome(reply) is Accepted,
{
    match reply {
        SubmitReply::Unexpected => Err(
            RippleError::XRPLClient(
                String::from_str("Unexpected response type for submit request"),
            ),
        ),
        SubmitReply::Submit { engine_result, tx_hash } => {
            if contains(engine_result.as_str(), "EXPIRED") || contains(
                engine_result.as_str(),
                "LATE",
            ) {
                let mut message = String::from_str("Transaction expired: ");
                message.append(engine_result.as_str());
                return Err(RippleError::Transaction(message));
            }
            match tx_hash {
                Some(hash) => Ok(hash),
                None => Err(
                    RippleError::Transaction(String::from_str("No transaction hash in response")),
                ),
            }
        },
    }
}

} // verus!
