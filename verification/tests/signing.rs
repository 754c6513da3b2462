use ripple_task::offline_signing::{offline_sign_transaction, OfflineTransactionParams, PaymentAmount};
use ripple_task::signer::{
    address_readable, amount_is_readable, payment_is_readable, seed_readable, value_is_readable,
};
use ripple_task::wallet::{classic_address_from_seed, create_test_wallet, wallet_from_seed};
use ripple_task::RippleError;
use serde_json::Value;

const SECP256K1_SEED: &str = "snoPBrXtMeMyMHUVTgbuqAfg1SUTb";
const SECP256K1_ADDRESS: &str = "rHb9CJAWyB4rj91VRWn96DkukG4bwdtyTh";
const ED25519_SEED: &str = "sEdSKaCy2JT7JaM7v95H9SxkhP9wS2r";
const ED25519_ADDRESS: &str = "rLUEXYuLiQptky37CqLcm9USQpPiz5rkpD";
const DESTINATION: &str = "r9cZA1mLK5R5Am25ArfXFmqgNwjZgnfk59";

fn gathered() -> OfflineTransactionParams {
    OfflineTransactionParams {
        sequence: 5,
        fee: "12".to_string(),
        last_ledger_sequence: 1010,
        current_ledger_index: 1000,
    }
}

fn drops(n: &str) -> PaymentAmount {
    PaymentAmount::Native { drops: n.to_string() }
}

fn encode_base58(payload: &[u8], prefix: &[u8], length: Option<usize>) -> Result<String, String> {
    xrpl::core::addresscodec::utils::encode_base58(payload, prefix, length)
        .map_err(|e| format!("{:?}", e))
}

fn decode(blob: &str) -> Result<Value, String> {
    xrpl::core::binarycodec::decode(blob).map_err(|e| format!("{:?}", e))
}

fn encode_for_signing(record: &Value) -> Result<String, String> {
    xrpl::core::binarycodec::encode_for_signing(record).map_err(|e| format!("{:?}", e))
}

fn is_valid_message(message: &[u8], signature: &str, public_key: &str) -> bool {
    xrpl::core::keypairs::is_valid_message(message, signature, public_key)
}

fn bytes_of_hex(hex: &str) -> Vec<u8> {
    let digits: Vec<u8> = hex.chars().map(|c| c.to_digit(16).unwrap() as u8).collect();
    digits.chunks(2).map(|pair| pair[0] * 16 + pair[1]).collect()
}

fn signature_holds(blob: &str) -> bool {
    let mut record = decode(blob).unwrap();
    let fields = record.as_object_mut().unwrap();
    let signature = fields.remove("TxnSignature").unwrap();
    let public_key = fields.get("SigningPubKey").unwrap().as_str().unwrap().to_string();
    let signed_bytes = bytes_of_hex(&encode_for_signing(&record).unwrap());
    is_valid_message(&signed_bytes, signature.as_str().unwrap(), &public_key)
}

#[test]
fn wallet_from_seed_derives_the_address() {
    let wallet = wallet_from_seed(SECP256K1_SEED).unwrap();
    assert_eq!(wallet.classic_address, SECP256K1_ADDRESS);
    assert_eq!(wallet.seed, SECP256K1_SEED);
    let wallet = wallet_from_seed(ED25519_SEED).unwrap();
    assert_eq!(wallet.classic_address, ED25519_ADDRESS);
}

#[test]
fn address_is_derived_without_the_wallet() {
    assert_eq!(classic_address_from_seed(SECP256K1_SEED).unwrap(), SECP256K1_ADDRESS);
    assert_eq!(classic_address_from_seed(ED25519_SEED).unwrap(), ED25519_ADDRESS);
    assert!(classic_address_from_seed("snoPBrXtMeMyMHUVTgbuqAfg1SUTc").is_err());
}

#[test]
fn wallet_error_does_not_quote_the_secret() {
    for secret in ["", "s3cr3t with a bad character !", "snoPBrXtMeMyMHUVTgbuqAfg1SUTc"] {
        let error = wallet_from_seed(secret).unwrap_err();
        assert_eq!(error.to_string(), "Wallet Error: No wallet can be derived from the secret");
        let error =
            offline_sign_transaction(secret, DESTINATION, drops("100"), gathered()).unwrap_err();
        assert_eq!(error.to_string(), "Wallet Error: No wallet can be derived from the secret");
    }
}

#[test]
fn wallet_from_seed_refuses_what_is_no_seed() {
    for text in ["", "not a seed", SECP256K1_ADDRESS, "snoPBrXtMeMyMHUVTgbuqAfg1SUTc"] {
        let error = wallet_from_seed(text).unwrap_err();
        assert!(matches!(error, RippleError::Wallet(_)), "{:?}", text);
    }
}

#[test]
fn wallet_from_seed_refuses_an_encoding_that_is_too_short() {
    for payload in [vec![], vec![0x21u8], vec![0x01u8, 0xE1]] {
        let text = encode_base58(&payload, &[], Some(payload.len())).unwrap();
        assert!(!seed_readable(&text));
        let error = wallet_from_seed(&text).unwrap_err();
        assert!(matches!(error, RippleError::Wallet(_)));
    }
}

#[test]
fn seeds_and_addresses_of_full_length_are_readable() {
    assert!(seed_readable(SECP256K1_SEED));
    assert!(seed_readable(ED25519_SEED));
    assert!(seed_readable("no encoding at all"));
    assert!(address_readable(DESTINATION));
    assert!(address_readable(SECP256K1_ADDRESS));
    assert!(address_readable(""));
    assert!(address_readable("no encoding at all"));
    assert!(address_readable("XVLhHMPHU98es4dbozjVtdWzVrDjtV18pX8yuPT7y4xaEHi"));
}

#[test]
fn addresses_with_a_truncated_payload_are_not_readable() {
    let empty = encode_base58(&[], &[], Some(0)).unwrap();
    assert!(!address_readable(&empty));
    let one = encode_base58(&[0x00], &[], Some(1)).unwrap();
    assert!(!address_readable(&one));
    let main_prefix = encode_base58(&[0x05, 0x44], &[], Some(2)).unwrap();
    assert!(!address_readable(&main_prefix));
    let mut short = vec![0x04u8, 0x93];
    short.extend_from_slice(&[7u8; 28]);
    let test_prefix = encode_base58(&short, &[], Some(30)).unwrap();
    assert!(!address_readable(&test_prefix));
    let other = encode_base58(&[0x05, 0x45], &[], Some(2)).unwrap();
    assert!(address_readable(&other));
    let mut full = vec![0x05u8, 0x44];
    full.extend_from_slice(&[7u8; 29]);
    let long_enough = encode_base58(&full, &[], Some(31)).unwrap();
    assert!(address_readable(&long_enough));
}

#[test]
fn amounts_are_readable_by_their_issuer() {
    assert!(amount_is_readable(&drops("100")));
    let issued = PaymentAmount::Issued {
        currency: "TST".to_string(),
        issuer: SECP256K1_ADDRESS.to_string(),
        value: "100".to_string(),
    };
    assert!(amount_is_readable(&issued));
    let truncated = PaymentAmount::Issued {
        currency: "TST".to_string(),
        issuer: encode_base58(&[0x05, 0x44], &[], Some(2)).unwrap(),
        value: "100".to_string(),
    };
    assert!(!amount_is_readable(&truncated));
}

#[test]
fn created_wallet_can_be_had_again_from_its_seed() {
    let created = create_test_wallet().unwrap();
    let again = wallet_from_seed(&created.seed).unwrap();
    assert_eq!(created, again);
    assert!(created.classic_address.starts_with('r'));
}

#[test]
fn payment_of_100_drops_decodes_to_what_was_signed() {
    let blob = offline_sign_transaction(SECP256K1_SEED, DESTINATION, drops("100"), gathered()).unwrap();
    let record = decode(&blob).unwrap();
    assert_eq!(record["TransactionType"], "Payment");
    assert_eq!(record["Amount"], "100");
    assert_eq!(record["Sequence"], 5);
    assert_eq!(record["LastLedgerSequence"], 1010);
    assert_eq!(record["Fee"], "12");
    assert_eq!(record["Account"], SECP256K1_ADDRESS);
    assert_eq!(record["Destination"], DESTINATION);
}

#[test]
fn signed_blob_is_upper_case_hexadecimal() {
    let blob = offline_sign_transaction(SECP256K1_SEED, DESTINATION, drops("100"), gathered()).unwrap();
    assert!(!blob.is_empty());
    assert!(blob.chars().all(|c| c.is_ascii_digit() || ('A'..='F').contains(&c)));
    assert_ne!(blob, SECP256K1_SEED);
    assert_ne!(blob, DESTINATION);
}

#[test]
fn other_optional_fields_are_left_out() {
    let blob = offline_sign_transaction(SECP256K1_SEED, DESTINATION, drops("100"), gathered()).unwrap();
    let record = decode(&blob).unwrap();
    let fields = record.as_object().unwrap();
    for name in ["DestinationTag", "SourceTag", "SendMax", "DeliverMin", "Memos", "Paths", "InvoiceID", "TicketSequence", "AccountTxnID", "Signers"] {
        assert!(!fields.contains_key(name), "{}", name);
    }
    assert!(fields.contains_key("TxnSignature"));
    assert!(fields.contains_key("SigningPubKey"));
}

#[test]
fn round_trip_recovers_every_field_for_drops() {
    let params = OfflineTransactionParams {
        sequence: 4_000_000_000,
        fee: "250".to_string(),
        last_ledger_sequence: 77_000_123,
        current_ledger_index: 77_000_113,
    };
    let blob = offline_sign_transaction(ED25519_SEED, DESTINATION, drops("123456789"), params).unwrap();
    let record = decode(&blob).unwrap();
    assert_eq!(record["Account"], ED25519_ADDRESS);
    assert_eq!(record["Destination"], DESTINATION);
    assert_eq!(record["Amount"], "123456789");
    assert_eq!(record["Sequence"], 4_000_000_000u32);
    assert_eq!(record["Fee"], "250");
    assert_eq!(record["LastLedgerSequence"], 77_000_123);
}

#[test]
fn round_trip_recovers_every_field_for_an_issued_currency() {
    let amount = PaymentAmount::Issued {
        currency: "TST".to_string(),
        issuer: SECP256K1_ADDRESS.to_string(),
        value: "100".to_string(),
    };
    let blob = offline_sign_transaction(SECP256K1_SEED, DESTINATION, amount, gathered()).unwrap();
    let record = decode(&blob).unwrap();
    assert_eq!(record["TransactionType"], "Payment");
    assert_eq!(record["Account"], SECP256K1_ADDRESS);
    assert_eq!(record["Destination"], DESTINATION);
    assert_eq!(record["Amount"]["currency"], "TST");
    assert_eq!(record["Amount"]["issuer"], SECP256K1_ADDRESS);
    assert_eq!(record["Amount"]["value"], "100");
    assert_eq!(record["Sequence"], 5);
    assert_eq!(record["Fee"], "12");
    assert_eq!(record["LastLedgerSequence"], 1010);
}

#[test]
fn signing_twice_gives_valid_signatures_over_the_same_payload() {
    for seed in [SECP256K1_SEED, ED25519_SEED] {
        let first = offline_sign_transaction(seed, DESTINATION, drops("100"), gathered()).unwrap();
        let second = offline_sign_transaction(seed, DESTINATION, drops("100"), gathered()).unwrap();
        assert!(signature_holds(&first));
        assert!(signature_holds(&second));
        let mut one = decode(&first).unwrap();
        let mut two = decode(&second).unwrap();
        one.as_object_mut().unwrap().remove("TxnSignature");
        two.as_object_mut().unwrap().remove("TxnSignature");
        assert_eq!(one, two);
        assert_eq!(first, second);
    }
}

#[test]
fn signature_does_not_hold_for_a_changed_payment() {
    let blob = offline_sign_transaction(SECP256K1_SEED, DESTINATION, drops("100"), gathered()).unwrap();
    let mut record = decode(&blob).unwrap();
    let fields = record.as_object_mut().unwrap();
    let signature = fields.remove("TxnSignature").unwrap();
    let public_key = fields.get("SigningPubKey").unwrap().as_str().unwrap().to_string();
    fields.insert("Sequence".to_string(), Value::from(6));
    let changed = bytes_of_hex(&encode_for_signing(&record).unwrap());
    assert!(!is_valid_message(&changed, signature.as_str().unwrap(), &public_key));
}

#[test]
fn another_sequence_or_fee_gives_another_valid_blob() {
    let base = offline_sign_transaction(SECP256K1_SEED, DESTINATION, drops("100"), gathered()).unwrap();
    let mut params = gathered();
    params.sequence = 6;
    let next = offline_sign_transaction(SECP256K1_SEED, DESTINATION, drops("100"), params).unwrap();
    let mut params = gathered();
    params.fee = "13".to_string();
    let dearer = offline_sign_transaction(SECP256K1_SEED, DESTINATION, drops("100"), params).unwrap();
    assert_ne!(base, next);
    assert_ne!(base, dearer);
    assert_ne!(next, dearer);
    assert!(signature_holds(&next));
    assert!(signature_holds(&dearer));
    assert_eq!(decode(&next).unwrap()["Sequence"], 6);
    assert_eq!(decode(&dearer).unwrap()["Fee"], "13");
}

#[test]
fn parameters_without_expiration_are_never_signed() {
    let mut params = gathered();
    params.last_ledger_sequence = 0;
    let error = offline_sign_transaction(SECP256K1_SEED, DESTINATION, drops("100"), params).unwrap_err();
    assert!(matches!(error, RippleError::InvalidInput(_)));
    assert_eq!(
        error.to_string(),
        "Invalid Input: Transaction must have expiration (last_ledger_sequence) for security"
    );
}

#[test]
fn parameters_with_a_low_or_malformed_fee_are_never_signed() {
    let mut params = gathered();
    params.fee = "11".to_string();
    let error = offline_sign_transaction(SECP256K1_SEED, DESTINATION, drops("100"), params).unwrap_err();
    assert_eq!(error.to_string(), "Invalid Input: Fee 11 drops is below minimum 12");
    let mut params = gathered();
    params.fee = "twelve".to_string();
    let error = offline_sign_transaction(SECP256K1_SEED, DESTINATION, drops("100"), params).unwrap_err();
    assert_eq!(error.to_string(), "Invalid Input: Fee must be valid numeric string");
}

#[test]
fn validation_comes_before_the_secret_is_looked_at() {
    let mut params = gathered();
    params.last_ledger_sequence = 0;
    let error = offline_sign_transaction("no seed", DESTINATION, drops("100"), params).unwrap_err();
    assert!(matches!(error, RippleError::InvalidInput(_)));
}

#[test]
fn signing_offline_does_not_check_the_ledger() {
    let params = OfflineTransactionParams {
        sequence: 5,
        fee: "12".to_string(),
        last_ledger_sequence: 3,
        current_ledger_index: 1000,
    };
    let blob = offline_sign_transaction(SECP256K1_SEED, DESTINATION, drops("100"), params).unwrap();
    assert_eq!(decode(&blob).unwrap()["LastLedgerSequence"], 3);
}

#[test]
fn malformed_secret_is_a_wallet_error() {
    for secret in ["", "no seed", SECP256K1_ADDRESS] {
        let error = offline_sign_transaction(secret, DESTINATION, drops("100"), gathered()).unwrap_err();
        assert!(matches!(error, RippleError::Wallet(_)), "{:?}", secret);
    }
    let short = encode_base58(&[0x21], &[], Some(1)).unwrap();
    let error = offline_sign_transaction(&short, DESTINATION, drops("100"), gathered()).unwrap_err();
    assert!(matches!(error, RippleError::Wallet(_)));
}

#[test]
fn truncated_destination_is_invalid_input() {
    let truncated = encode_base58(&[0x05, 0x44, 1, 2, 3], &[], Some(5)).unwrap();
    let error = offline_sign_transaction(SECP256K1_SEED, &truncated, drops("100"), gathered()).unwrap_err();
    assert_eq!(
        error.to_string(),
        "Invalid Input: Payment holds an address or an amount that is not well-formed"
    );
}

#[test]
fn truncated_issuer_is_invalid_input() {
    let amount = PaymentAmount::Issued {
        currency: "TST".to_string(),
        issuer: encode_base58(&[], &[], Some(0)).unwrap(),
        value: "100".to_string(),
    };
    let error = offline_sign_transaction(SECP256K1_SEED, DESTINATION, amount, gathered()).unwrap_err();
    assert_eq!(
        error.to_string(),
        "Invalid Input: Payment holds an address or an amount that is not well-formed"
    );
}

#[test]
fn payment_that_the_ledger_library_refuses_is_a_client_error() {
    let error = offline_sign_transaction(SECP256K1_SEED, "not an address", drops("100"), gathered()).unwrap_err();
    assert!(matches!(error, RippleError::XRPLClient(_)));
    let error = offline_sign_transaction(SECP256K1_SEED, DESTINATION, tokens("a hundred"), gathered()).unwrap_err();
    assert!(matches!(error, RippleError::XRPLClient(_)));
    let error = offline_sign_transaction(SECP256K1_SEED, SECP256K1_ADDRESS, drops("100"), gathered()).unwrap_err();
    assert!(matches!(error, RippleError::XRPLClient(_)));
}

#[test]
fn extended_destination_is_taken_apart() {
    let extended = xrpl::core::addresscodec::classic_address_to_xaddress(DESTINATION, Some(7), false).unwrap();
    let blob = offline_sign_transaction(SECP256K1_SEED, &extended, drops("100"), gathered()).unwrap();
    let record = decode(&blob).unwrap();
    assert_eq!(record["Destination"], DESTINATION);
    assert_eq!(record["DestinationTag"], 7);
    assert!(signature_holds(&blob));
}

fn tokens(value: &str) -> PaymentAmount {
    PaymentAmount::Issued {
        currency: "TST".to_string(),
        issuer: SECP256K1_ADDRESS.to_string(),
        value: value.to_string(),
    }
}

#[test]
fn exponents_of_up_to_four_digits_are_small() {
    let values = [
        "", "100", "1.5", "1e80", "1E80", "1e-96", "1e+80", "1e9999", "1E-9999", "1.25e-096",
        "1e-00010", "1e0000000000099", "1e+0000000009999", "e", "1e", "1e-", "e12", "1e5e1",
    ];
    for value in values {
        assert!(value_is_readable(value), "{:?}", value);
        assert!(amount_is_readable(&tokens(value)), "{:?}", value);
    }
}

#[test]
fn larger_exponents_are_not_small() {
    let values = [
        "1e10000", "1E-10000", "1e+10000", "1e999999999", "1e-999999999", "1e2147483648",
        "1e00000000000000000099999999999", "e12345", "1e5e12345", "1e12345e5", "1e1x345",
    ];
    for value in values {
        assert!(!value_is_readable(value), "{:?}", value);
        assert!(!amount_is_readable(&tokens(value)), "{:?}", value);
    }
}

#[test]
fn digits_may_span_thirty_eight_places() {
    let thirty_eight = "9".repeat(38);
    let spread = format!("1{}1", "0".repeat(36));
    let padded = format!("000{}000", thirty_eight);
    let small = format!("0.{}1{}1", "0".repeat(60), "0".repeat(36));
    let round = format!("1{}", "0".repeat(50));
    let tiny = format!("0.{}1", "0".repeat(90));
    let pointed = format!("{}.{}", "1".repeat(19), "1".repeat(19));
    for value in [thirty_eight, spread, padded, small, round, tiny, pointed] {
        assert!(value_is_readable(&value), "{:?}", value);
    }
}

#[test]
fn digits_that_span_more_places_are_not_readable() {
    let forty = format!("1{}1", "0".repeat(38));
    let pointed = format!("1.{}1", "0".repeat(39));
    let thirty_nine = "9".repeat(39);
    let split = format!("{}.{}", "1".repeat(20), "1".repeat(19));
    let signed = format!("-1{}1e5", "0".repeat(37));
    for value in [forty, pointed, thirty_nine, split, signed] {
        assert!(!value_is_readable(&value), "{:?}", value);
        assert!(!amount_is_readable(&tokens(&value)), "{:?}", value);
    }
}

#[test]
fn value_with_digits_beyond_128_bits_is_invalid_input() {
    let forty = format!("1{}1", "0".repeat(38));
    let pointed = format!("1.{}1", "0".repeat(39));
    for value in [forty, pointed] {
        let error =
            offline_sign_transaction(SECP256K1_SEED, DESTINATION, tokens(&value), gathered()).unwrap_err();
        assert_eq!(
            error.to_string(),
            "Invalid Input: Payment holds an address or an amount that is not well-formed"
        );
    }
}

#[test]
fn value_written_out_with_many_zeros_is_signed() {
    let round = format!("1{}", "0".repeat(50));
    let blob = offline_sign_transaction(SECP256K1_SEED, DESTINATION, tokens(&round), gathered()).unwrap();
    assert_eq!(decode(&blob).unwrap()["Amount"]["value"], "1e+50");
    let tiny = format!("0.{}1", "0".repeat(40));
    let blob = offline_sign_transaction(SECP256K1_SEED, DESTINATION, tokens(&tiny), gathered()).unwrap();
    assert_eq!(decode(&blob).unwrap()["Amount"]["value"], "1E-41");
}

#[test]
fn exponent_with_leading_zeros_is_signed() {
    let blob =
        offline_sign_transaction(SECP256K1_SEED, DESTINATION, tokens("1e-00010"), gathered()).unwrap();
    assert_eq!(decode(&blob).unwrap()["Amount"]["value"], "1E-10");
    let blob =
        offline_sign_transaction(SECP256K1_SEED, DESTINATION, tokens("15e+0002"), gathered()).unwrap();
    assert_eq!(decode(&blob).unwrap()["Amount"]["value"], "1500");
}

#[test]
fn drops_and_fee_are_plain_numbers_of_32_bits() {
    for text in ["0", "100", "+100", "0012", "4294967295"] {
        assert!(amount_is_readable(&drops(text)), "{:?}", text);
        assert!(payment_is_readable(SECP256K1_ADDRESS, DESTINATION, &drops("1"), text), "{:?}", text);
    }
    for text in ["", "a hundred", "1e5", "1e-999999999", "1.0", "-1", "4294967296"] {
        assert!(!amount_is_readable(&drops(text)), "{:?}", text);
        assert!(!payment_is_readable(SECP256K1_ADDRESS, DESTINATION, &drops("1"), text), "{:?}", text);
    }
}

#[test]
fn drops_that_are_no_number_are_invalid_input() {
    for text in ["", "a hundred", "1e5", "1e-999999999", "1.0", "-1", "4294967296"] {
        let error =
            offline_sign_transaction(SECP256K1_SEED, DESTINATION, drops(text), gathered()).unwrap_err();
        assert_eq!(
            error.to_string(),
            "Invalid Input: Payment holds an address or an amount that is not well-formed"
        );
    }
}

#[test]
fn drops_and_fee_are_read_as_the_encoder_reads_them() {
    let truncated = encode_base58(&[0x05], &[], Some(1)).unwrap();
    assert!(!amount_is_readable(&drops(&truncated)));
    assert!(payment_is_readable(SECP256K1_ADDRESS, DESTINATION, &drops("100"), "12"));
    assert!(!payment_is_readable(SECP256K1_ADDRESS, DESTINATION, &drops("100"), &truncated));
    assert!(!payment_is_readable(SECP256K1_ADDRESS, DESTINATION, &drops(&truncated), "12"));
    assert!(!payment_is_readable(SECP256K1_ADDRESS, &truncated, &drops("100"), "12"));
    assert!(!payment_is_readable(&truncated, DESTINATION, &drops("100"), "12"));
    let error =
        offline_sign_transaction(SECP256K1_SEED, DESTINATION, drops(&truncated), gathered()).unwrap_err();
    assert_eq!(
        error.to_string(),
        "Invalid Input: Payment holds an address or an amount that is not well-formed"
    );
}

#[test]
fn value_with_a_huge_exponent_is_invalid_input() {
    for value in ["1e10000", "1e999999999", "1e-999999999", "1e2147483648", "1e00000000000000000099999999999"] {
        let error =
            offline_sign_transaction(SECP256K1_SEED, DESTINATION, tokens(value), gathered()).unwrap_err();
        assert_eq!(
            error.to_string(),
            "Invalid Input: Payment holds an address or an amount that is not well-formed"
        );
    }
}

#[test]
fn value_in_scientific_notation_is_signed() {
    let blob = offline_sign_transaction(SECP256K1_SEED, DESTINATION, tokens("1.5e3"), gathered()).unwrap();
    assert_eq!(decode(&blob).unwrap()["Amount"]["value"], "1500");
    let blob = offline_sign_transaction(SECP256K1_SEED, DESTINATION, tokens("1e80"), gathered()).unwrap();
    assert!(signature_holds(&blob));
}

#[test]
fn value_beyond_the_ledgers_range_is_a_client_error() {
    for value in ["1e9999", "1e-9999", "1e0000000000099", "not a number", ""] {
        let error =
            offline_sign_transaction(SECP256K1_SEED, DESTINATION, tokens(value), gathered()).unwrap_err();
        assert!(matches!(error, RippleError::XRPLClient(_)), "{:?}", value);
    }
}

#[test]
fn extended_destination_without_a_tag_is_taken_apart() {
    for test_network in [false, true] {
        let extended =
            xrpl::core::addresscodec::classic_address_to_xaddress(DESTINATION, None, test_network)
                .unwrap();
        assert!(address_readable(&extended));
        let blob =
            offline_sign_transaction(SECP256K1_SEED, &extended, drops("100"), gathered()).unwrap();
        let record = decode(&blob).unwrap();
        assert_eq!(record["Destination"], DESTINATION);
        assert!(record.get("DestinationTag").is_none());
        assert!(signature_holds(&blob));
    }
}

#[test]
fn extended_issuer_does_not_stop_the_library() {
    let extended =
        xrpl::core::addresscodec::classic_address_to_xaddress(SECP256K1_ADDRESS, Some(3), false)
            .unwrap();
    let amount = PaymentAmount::Issued {
        currency: "TST".to_string(),
        issuer: extended,
        value: "100".to_string(),
    };
    assert!(amount_is_readable(&amount));
    let result = offline_sign_transaction(SECP256K1_SEED, DESTINATION, amount, gathered());
    assert!(matches!(result, Err(RippleError::XRPLClient(_))));
}

#[test]
fn hexadecimal_destination_is_read_as_an_account() {
    let blob = offline_sign_transaction(
        SECP256K1_SEED,
        "5E7B112523F68D2F5E879DB4EAC51C6698A69304",
        drops("100"),
        gathered(),
    )
    .unwrap();
    assert_eq!(decode(&blob).unwrap()["Destination"], DESTINATION);
}

#[test]
fn fee_with_a_sign_or_leading_zeros_is_handed_on() {
    let extended =
        xrpl::core::addresscodec::classic_address_to_xaddress(DESTINATION, Some(7), false).unwrap();
    for fee in ["+12", "0012", "000000000000000000000000000000000000000000000012", "4294967295"] {
        for destination in [DESTINATION, extended.as_str()] {
            let mut params = gathered();
            params.fee = fee.to_string();
            let result = offline_sign_transaction(SECP256K1_SEED, destination, tokens("1.5"), params);
            match result {
                Ok(blob) => assert!(signature_holds(&blob)),
                Err(error) => assert!(matches!(error, RippleError::XRPLClient(_)), "{:?}", error),
            }
        }
    }
}
