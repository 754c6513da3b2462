use ripple_task::verification::{verify_transfer, SettledAmount, SettledTransaction};
use ripple_task::RippleError;

const FROM: &str = "rHb9CJAWyB4rj91VRWn96DkukG4bwdtyTh";
const TO: &str = "r9cZA1mLK5R5Am25ArfXFmqgNwjZgnfk59";

fn text(s: &str) -> Option<String> {
    Some(s.to_string())
}

fn payment(amount: SettledAmount) -> SettledTransaction {
    SettledTransaction {
        transaction_type: text("Payment"),
        account: text(FROM),
        destination: text(TO),
        amount,
    }
}

fn issued(currency: &str, value: &str, issuer: &str) -> SettledAmount {
    SettledAmount::Issued { currency: text(currency), value: text(value), issuer: text(issuer) }
}

fn message_of(result: Result<bool, RippleError>) -> String {
    match result {
        Err(RippleError::Verification(message)) => message,
        other => panic!("{:?}", other),
    }
}

#[test]
fn matching_drops_payment_is_verified() {
    let tx = payment(SettledAmount::Drops("100".to_string()));
    assert_eq!(verify_transfer(&tx, FROM, TO, "100", None).unwrap(), true);
}

#[test]
fn matching_issued_payment_is_verified() {
    let tx = payment(issued("TST", "100", FROM));
    assert_eq!(verify_transfer(&tx, FROM, TO, "100", Some("TST")).unwrap(), true);
}

#[test]
fn anything_but_a_payment_is_not_the_transfer() {
    let mut tx = payment(SettledAmount::Drops("100".to_string()));
    tx.transaction_type = text("TrustSet");
    assert_eq!(verify_transfer(&tx, FROM, TO, "100", None).unwrap(), false);
    tx.transaction_type = None;
    assert_eq!(verify_transfer(&tx, FROM, TO, "100", None).unwrap(), false);
    tx.account = None;
    assert_eq!(verify_transfer(&tx, FROM, TO, "100", None).unwrap(), false);
}

#[test]
fn another_sender_or_receiver_is_not_the_transfer() {
    let tx = payment(SettledAmount::Drops("100".to_string()));
    assert_eq!(verify_transfer(&tx, TO, TO, "100", None).unwrap(), false);
    assert_eq!(verify_transfer(&tx, FROM, FROM, "100", None).unwrap(), false);
}

#[test]
fn missing_sender_or_receiver_is_an_error() {
    let mut tx = payment(SettledAmount::Drops("100".to_string()));
    tx.account = None;
    assert_eq!(message_of(verify_transfer(&tx, FROM, TO, "100", None)), "Account field not found");
    let mut tx = payment(SettledAmount::Drops("100".to_string()));
    tx.destination = None;
    assert_eq!(
        message_of(verify_transfer(&tx, FROM, TO, "100", None)),
        "Destination field not found"
    );
    assert_eq!(verify_transfer(&tx, TO, TO, "100", None).unwrap(), false);
}

#[test]
fn missing_amount_is_an_error() {
    let tx = payment(SettledAmount::Missing);
    assert_eq!(message_of(verify_transfer(&tx, FROM, TO, "100", None)), "Amount field not found");
    assert_eq!(
        message_of(verify_transfer(&tx, FROM, TO, "100", Some("TST"))),
        "Amount field not found"
    );
}

#[test]
fn drops_do_not_answer_an_expected_currency() {
    let tx = payment(SettledAmount::Drops("100".to_string()));
    assert_eq!(verify_transfer(&tx, FROM, TO, "100", Some("TST")).unwrap(), false);
}

#[test]
fn another_number_of_drops_is_not_the_transfer() {
    let tx = payment(SettledAmount::Drops("100".to_string()));
    assert_eq!(verify_transfer(&tx, FROM, TO, "101", None).unwrap(), false);
    assert_eq!(verify_transfer(&tx, FROM, TO, "0100", None).unwrap(), false);
}

#[test]
fn issued_amount_does_not_answer_expected_drops() {
    let tx = payment(issued("TST", "100", FROM));
    assert_eq!(verify_transfer(&tx, FROM, TO, "100", None).unwrap(), false);
    let tx = payment(SettledAmount::Issued { currency: None, value: None, issuer: None });
    assert_eq!(verify_transfer(&tx, FROM, TO, "100", None).unwrap(), false);
}

#[test]
fn issued_amount_must_hold_all_three_fields() {
    let tx = payment(SettledAmount::Issued { currency: None, value: None, issuer: None });
    assert_eq!(
        message_of(verify_transfer(&tx, FROM, TO, "100", Some("TST"))),
        "Currency field not found"
    );
    let tx = payment(SettledAmount::Issued { currency: text("TST"), value: None, issuer: None });
    assert_eq!(
        message_of(verify_transfer(&tx, FROM, TO, "100", Some("TST"))),
        "Value field not found"
    );
    let tx = payment(SettledAmount::Issued { currency: text("XXX"), value: text("1"), issuer: None });
    assert_eq!(
        message_of(verify_transfer(&tx, FROM, TO, "100", Some("TST"))),
        "Issuer field not found"
    );
}

#[test]
fn issued_amount_must_match_in_currency_value_and_issuer() {
    let tx = payment(issued("USD", "100", FROM));
    assert_eq!(verify_transfer(&tx, FROM, TO, "100", Some("TST")).unwrap(), false);
    let tx = payment(issued("TST", "99", FROM));
    assert_eq!(verify_transfer(&tx, FROM, TO, "100", Some("TST")).unwrap(), false);
    let tx = payment(issued("TST", "100", TO));
    assert_eq!(verify_transfer(&tx, FROM, TO, "100", Some("TST")).unwrap(), false);
}

#[test]
fn amount_of_another_shape_is_not_the_transfer() {
    let tx = payment(SettledAmount::Other);
    assert_eq!(verify_transfer(&tx, FROM, TO, "100", None).unwrap(), false);
    assert_eq!(verify_transfer(&tx, FROM, TO, "100", Some("TST")).unwrap(), false);
}
