//! The offline payment workflow as a state machine.
//!
//! A payment is gathered for over one connection, signed without any, and
//! submitted over a second one. Every decision of that sequence is taken by
//! `workflow_step`; the caller only performs the network request that each
//! action names and hands back what the network said.

use crate::decimal::{decimal_text, format_u64};
use crate::error::RippleError;
use crate::offline_signing::{
    classify_submission, gather_transaction_params, gathered_params, offline_sign_transaction,
    reports_signing, reports_submission, signing_outcome, submission_outcome, AmountView,
    PaymentAmount, SecurityViolation, SigningOutcome, SubmitReply, TRANSACTION_EXPIRY_LEDGERS,
};
use crate::signer::{base58check_payload, derived_classic_address, seed_payload_readable};
use crate::wallet::{classic_address_from_seed, no_wallet_text};
use vstd::prelude::*;

verus! {

/// What is to be paid.
#[derive(Debug, Clone, PartialEq, Eq)]
pub enum PaymentRequest {
    /// A number of drops of the native currency.
    Xrp { amount_drops: u64 },
    /// `amount` units of the currency `currency_code` that the paying account issues.
    Token { currency_code: String, amount: String },
}

/// The two connections of the workflow.
#[derive(Debug, Clone, Copy, PartialEq, Eq, Structural)]
pub enum Connection {
    /// The connection over which parameters are gathered.
    Online,
    /// The connection over which the signed transaction is submitted.
    Submission,
}

/// Where a workflow stands.
#[derive(Debug)]
pub enum WorkflowState {
    /// Nothing has happened yet.
    Start,
    /// The current ledger has been asked for, to gather parameters.
    AwaitingGatherLedger { address: String },
    /// The account's sequence number has been asked for.
    AwaitingAccountSequence { address: String, current_ledger_index: u32 },
    /// The payment is signed; the current ledger has been asked for once more.
    AwaitingSubmitLedger { signed_blob: String },
    /// The signed payment has been handed out for submission.
    AwaitingSubmitReply,
    /// The workflow has ended.
    Done,
}

/// What the caller reports to the workflow.
#[derive(Debug)]
pub enum WorkflowEvent {
    /// The workflow is to begin.
    Started,
    /// The network told the index of the latest validated ledger.
    LedgerIndex(u32),
    /// The network told the account's next sequence number.
    AccountSequence(u32),
    /// The network answered the submission.
    SubmitReplied(SubmitReply),
    /// The request that the last action named could not be carried out.
    NetworkFailed(String),
}

/// What the caller is to do next.
#[derive(Debug)]
pub enum WorkflowAction {
    /// Ask for the index of the latest validated ledger.
    QueryLedger { connection: Connection },
    /// Ask, over the online connection, for the next sequence number of `address`.
    QueryAccountSequence { address: String },
    /// Submit the signed payment over the submission connection, once.
    Submit { signed_blob: String },
    /// The network took the payment under this identifier.
    Finish { tx_hash: String },
    /// The workflow failed; no payment is to be assumed.
    Abort { error: RippleError },
}

/// What is said of an event that does not answer the request that is pending.
pub open spec fn out_of_turn_text() -> Seq<char> {
    "Event does not answer the pending request"@
}

/// The amount of the payment that `request` asks for, paid by the account `source`.
/// A token is one that the paying account itself issues.
pub open spec fn requested_amount(request: PaymentRequest, source: Seq<char>) -> AmountView {
    match request {
        PaymentRequest::Xrp { amount_drops } => AmountView::Native {
            drops: decimal_text(amount_drops as nat),
        },
        PaymentRequest::Token { currency_code, amount } => AmountView::Issued {
            currency: currency_code@,
            issuer: source,
            value: amount@,
        },
    }
}

/// The step that the workflow takes in `state` on `event`, for a payment of
/// `request` to `to_address` with the secret `user_secret`: `next` is the
/// state it reaches and `action` what it asks of the caller.
///
///   - On `Started` the paying account is derived from the secret, and the
///     current ledger asked for over the online connection.
///   - With the ledger index the account's sequence number is asked for.
///   - With the sequence number the parameters are gathered and validated, and
///     the payment is signed; then the current ledger is asked for over the
///     submission connection.
///   - With that answer, whatever the index, the signed payment is handed out
///     for submission.
///   - The network's answer to the submission decides the end.
///
/// A failure of the network in any waiting state ends the workflow with a
/// network error that carries the caller's message; so does every event that
/// does not answer the pending request, with an error of its own.
pub open spec fn step_taken(
    state: WorkflowState,
    event: WorkflowEvent,
    user_secret: Seq<char>,
    to_address: Seq<char>,
    request: PaymentRequest,
    next: WorkflowState,
    action: WorkflowAction,
) -> bool {
    match (state, event) {
        (WorkflowState::Start, WorkflowEvent::Started) => {
            if seed_payload_readable(base58check_payload(user_secret)) && derived_classic_address(
                user_secret,
            ) is Some {
                &&& next matches WorkflowState::AwaitingGatherLedger { address }
                &&& Some(address@) == derived_classic_address(user_secret)
                &&& action matches WorkflowAction::QueryLedger { connection }
                &&& connection == Connection::Online
            } else {
                &&& next is Done
                &&& action matches WorkflowAction::Abort { error }
                &&& error matches RippleError::Wallet(m)
                &&& m@ == no_wallet_text()
            }
        },
        (WorkflowState::AwaitingGatherLedger { address }, WorkflowEvent::LedgerIndex(index)) => {
            &&& next matches WorkflowState::AwaitingAccountSequence {
                address: kept,
                current_ledger_index,
            }
            &&& kept@ == address@
            &&& current_ledger_index == index
            &&& action matches WorkflowAction::QueryAccountSequence { address: asked }
            &&& asked@ == address@
        },
        (
            WorkflowState::AwaitingAccountSequence { address, current_ledger_index },
            WorkflowEvent::AccountSequence(sequence),
        ) => {
            if current_ledger_index + TRANSACTION_EXPIRY_LEDGERS > u32::MAX {
                &&& next is Done
                &&& action matches WorkflowAction::Abort { error }
                &&& error matches RippleError::InvalidInput(m)
                &&& m@ == SecurityViolation::MissingExpiration.message_text()
            } else {
                let outcome = signing_outcome(
                    user_secret,
                    to_address,
                    requested_amount(request, address@),
                    gathered_params(sequence, current_ledger_index),
                );
                match outcome {
                    SigningOutcome::Signed(blob) => {
                        &&& next matches WorkflowState::AwaitingSubmitLedger { signed_blob }
                        &&& signed_blob@ == blob
                        &&& action matches WorkflowAction::QueryLedger { connection }
                        &&& connection == Connection::Submission
                    },
                    _ => {
                        &&& next is Done
                        &&& action matches WorkflowAction::Abort { error }
                        &&& reports_signing(Err(error), outcome)
                    },
                }
            }
        },
        (WorkflowState::AwaitingSubmitLedger { signed_blob }, WorkflowEvent::LedgerIndex(_)) => {
            &&& next is AwaitingSubmitReply
            &&& action matches WorkflowAction::Submit { signed_blob: handed }
            &&& handed@ == signed_blob@
        },
        (WorkflowState::AwaitingSubmitReply, WorkflowEvent::SubmitReplied(reply)) => {
            &&& next is Done
            &&& match action {
                WorkflowAction::Finish { tx_hash } => reports_submission(
                    Ok(tx_hash),
                    submission_outcome(reply),
                ),
                WorkflowAction::Abort { error } => reports_submission(
                    Err(error),
                    submission_outcome(reply),
                ),
                _ => false,
            }
        },
        (WorkflowState::AwaitingGatherLedger { .. }, WorkflowEvent::NetworkFailed(message))
        | (WorkflowState::AwaitingAccountSequence { .. }, WorkflowEvent::NetworkFailed(message))
        | (WorkflowState::AwaitingSubmitLedger { .. }, WorkflowEvent::NetworkFailed(message))
        | (WorkflowState::AwaitingSubmitReply, WorkflowEvent::NetworkFailed(message)) => {
            &&& next is Done
            &&& action matches WorkflowAction::Abort { error }
            &&& error matches RippleError::Network(m)
            &&& m@ == message@
        },
        _ => {
            &&& next is Done
            &&& action matches WorkflowAction::Abort { error }
            &&& error matches RippleError::InvalidInput(m)
            &&& m@ == out_of_turn_text()
        },
    }
}

/// The most steps that a workflow can still take from `state`. Every step
/// takes it down: a workflow ends after five answers at the latest, and asks
/// for one submission at most.
pub open spec fn steps_left(state: WorkflowState) -> nat {
    match state {
        WorkflowState::Start => 5,
        WorkflowState::AwaitingGatherLedger { .. } => 4,
        WorkflowState::AwaitingAccountSequence { .. } => 3,
        WorkflowState::AwaitingSubmitLedger { .. } => 2,
        WorkflowState::AwaitingSubmitReply => 1,
        WorkflowState::Done => 0,
    }
}

/// `blob` is the payment that `request` asks for, from the account that
/// `user_secret` controls to `to_address`, signed with the parameters that
/// gathering yields for `sequence` at ledger `ledger`.
pub open spec fn signed_with(
    blob: Seq<char>,
    user_secret: Seq<char>,
    to_address: Seq<char>,
    request: PaymentRequest,
    sequence: u32,
    ledger: u32,
) -> bool {
    &&& ledger + TRANSACTION_EXPIRY_LEDGERS <= u32::MAX
    &&& derived_classic_address(user_secret) is Some
    &&& signing_outcome(
        user_secret,
        to_address,
        requested_amount(request, derived_classic_address(user_secret)->0),
        gathered_params(sequence, ledger),
    ) == SigningOutcome::Signed(blob)
}

/// What holds of every state that a workflow reaches from its start: the
/// address it keeps is that of the account which the secret controls, and the
/// blob it keeps is the requested payment, signed with gathered parameters.
pub open spec fn state_sound(
    state: WorkflowState,
    user_secret: Seq<char>,
    to_address: Seq<char>,
    request: PaymentRequest,
) -> bool {
    match state {
        WorkflowState::AwaitingGatherLedger { address } => derived_classic_address(user_secret)
            == Some(address@),
        WorkflowState::AwaitingAccountSequence { address, .. } => derived_classic_address(
            user_secret,
        ) == Some(address@),
        WorkflowState::AwaitingSubmitLedger { signed_blob } => exists|sequence: u32, ledger: u32|
            signed_with(signed_blob@, user_secret, to_address, request, sequence, ledger),
        _ => true,
    }
}

/// Every step keeps the workflow sound, the start is sound, and nothing is
/// handed out for submission but the requested payment, signed with gathered
/// parameters: no other blob ever leaves a workflow that began at its start.
pub proof fn lemma_step_keeps_soundness(
    state: WorkflowState,
    event: WorkflowEvent,
    user_secret: Seq<char>,
    to_address: Seq<char>,
    request: PaymentRequest,
    next: WorkflowState,
    action: WorkflowAction,
)
    requires
        state_sound(state, user_secret, to_address, request),
        step_taken(state, event, user_secret, to_address, request, next, action),
    ensures
        state_sound(WorkflowState::Start, user_secret, to_address, request),
        state_sound(next, user_secret, to_address, request),
        action matches WorkflowAction::Submit { signed_blob } ==> exists|sequence: u32, ledger: u32|
            signed_with(signed_blob@, user_secret, to_address, request, sequence, ledger),
        action matches WorkflowAction::QueryAccountSequence { address } ==> derived_classic_address(
            user_secret,
        ) == Some(address@),
{
    match (state, event) {
        (
            WorkflowState::AwaitingAccountSequence { address, current_ledger_index },
            WorkflowEvent::AccountSequence(sequence),
        ) => {
            if let WorkflowState::AwaitingSubmitLedger { signed_blob } = next {
                assert(signed_with(
                    signed_blob@,
                    user_secret,
                    to_address,
                    request,
                    sequence,
                    current_ledger_index,
                ));
            }
        },
        (WorkflowState::AwaitingSubmitLedger { signed_blob }, WorkflowEvent::LedgerIndex(_)) => {
            let (sequence, ledger) = choose|sequence: u32, ledger: u32|
                signed_with(signed_blob@, user_secret, to_address, request, sequence, ledger);
            if let WorkflowAction::Submit { signed_blob: handed } = action {
                assert(signed_with(handed@, user_secret, to_address, request, sequence, ledger));
            }
        },
        _ => {},
    }
}

/// The end of a workflow on an event that does not answer the pending request.
fn out_of_turn() -> (r: (WorkflowState, WorkflowAction))
    ensures
        r.0 is Done,
        r.1 matches WorkflowAction::Abort { error } && error matches RippleError::InvalidInput(m)
            && m@ == out_of_turn_text(),
{
    (
        WorkflowState::Done,
        WorkflowAction::Abort {
            error: RippleError::InvalidInput(
                String::from_str("Event does not answer the pending request"),
            ),
        },
    )
}

/// The end of a workflow on a failure of the network.
fn network_failed(message: String) -> (r: (WorkflowState, WorkflowAction))
    ensures
        r.0 is Done,
        r.1 matches WorkflowAction::Abort { error } && error matches RippleError::Network(m) && m@
            == message@,
{
    (WorkflowState::Done, WorkflowAction::Abort { error: RippleError::Network(message) })
}

/// The amount of the payment that `request` asks for, paid by the account `source`.
fn amount_of(request: &PaymentRequest, source: String) -> (amount: PaymentAmount)
    ensures
        amount@ == requested_amount(*request, source@),
{
    match request {
        PaymentRequest::Xrp { amount_drops } => PaymentAmount::Native {
            drops: format_u64(*amount_drops),
        },
        PaymentRequest::Token { currency_code, amount } => PaymentAmount::Issued {
            currency: currency_code.clone(),
            issuer: source,
            value: amount.clone(),
        },
    }
}

/// Gathers the parameters for `sequence` and `current_ledger_index`, then
/// signs the payment that `request` asks for.
fn gather_and_sign(
    address: String,
    current_ledger_index: u32,
    sequence: u32,
    user_secret: &str,
    to_address: &str,
    request: &PaymentRequest,
) -> (r: (WorkflowState, WorkflowAction))
    ensures
        step_taken(
            WorkflowState::AwaitingAccountSequence { address, current_ledger_index },
            WorkflowEvent::AccountSequence(sequence),
            user_secret@,
            to_address@,
            *request,
            r.0,
            r.1,
        ),
{
    let params = match gather_transaction_params(sequence, current_ledger_index) {
        Ok(params) => params,
        Err(violation) => {
            return (WorkflowState::Done, WorkflowAction::Abort { error: violation.into_error() });
        },
    };
    let amount = amount_of(request, address);
    match offline_sign_transaction(user_secret, to_address, amount, params) {
        Ok(signed_blob) => (
            WorkflowState::AwaitingSubmitLedger { signed_blob },
            WorkflowAction::QueryLedger { connection: Connection::Submission },
        ),
        Err(error) => (WorkflowState::Done, WorkflowAction::Abort { error }),
    }
}

/// Takes one step of the workflow: decides, from where the workflow stands
/// and what the caller reports, where it stands next and what the caller is
/// to do. The secret is read for deriving the account and for signing, and is
/// kept in no state and in no action.
pub fn workflow_step(
    state: WorkflowState,
    event: WorkflowEvent,
    user_secret: &str,
    to_address: &str,
    request: &PaymentRequest,
) -> (r: (WorkflowState, WorkflowAction))
    ensures
        step_taken(state, event, user_secret@, to_address@, *request, r.0, r.1),
        r.1 is Abort || r.1 is Finish <==> r.0 is Done,
        state is Done ==> r.0 is Done && r.1 is Abort,
        !(state is Done) ==> steps_left(r.0) < steps_left(state),
        r.1 is Submit ==> state is AwaitingSubmitLedger && r.0 is AwaitingSubmitReply,
        r.1 is Finish ==> state is AwaitingSubmitReply,
{
    match (state, event) {
        (WorkflowState::Start, WorkflowEvent::Started) => {
            match classic_address_from_seed(user_secret) {
                Ok(address) => (
                    WorkflowState::AwaitingGatherLedger { address },
                    WorkflowAction::QueryLedger { connection: Connection::Online },
                ),
                Err(error) => (WorkflowState::Done, WorkflowAction::Abort { error }),
            }
        },
        (WorkflowState::AwaitingGatherLedger { address }, WorkflowEvent::LedgerIndex(index)) => {
            let asked = address.clone();
            (
                WorkflowState::AwaitingAccountSequence { address, current_ledger_index: index },
                WorkflowAction::QueryAccountSequence { address: asked },
            )
        },
        (
            WorkflowState::AwaitingAccountSequence { address, current_ledger_index },
            WorkflowEvent::AccountSequence(sequence),
        ) => gather_and_sign(
            address,
            current_ledger_index,
            sequence,
            user_secret,
            to_address,
            request,
        ),
        (WorkflowState::AwaitingSubmitLedger { signed_blob }, WorkflowEvent::LedgerIndex(_)) => (
            WorkflowState::AwaitingSubmitReply,
            WorkflowAction::Submit { signed_blob },
        ),
        (WorkflowState::AwaitingSubmitReply, WorkflowEvent::SubmitReplied(reply)) => {
            match classify_submission(reply) {
                Ok(tx_hash) => (WorkflowState::Done, WorkflowAction::Finish { tx_hash }),
                Err(error) => (WorkflowState::Done, WorkflowAction::Abort { error }),
            }
        },
        (WorkflowState::AwaitingGatherLedger { .. }, WorkflowEvent::NetworkFailed(message)) => {
            network_failed(message)
        },
        (WorkflowState::AwaitingAccountSequence { .. }, WorkflowEvent::NetworkFailed(message)) => {
            network_failed(message)
        },
        (WorkflowState::AwaitingSubmitLedger { .. }, WorkflowEvent::NetworkFailed(message)) => {
            network_failed(message)
        },
        (WorkflowState::AwaitingSubmitReply, WorkflowEvent::NetworkFailed(message)) => {
            network_failed(message)
        },
        _ => out_of_turn(),
    }
}

} // verus!
