//! The calls into the ledger library: key derivation, signing and encoding.
//!
//! The functions marked `external_body` are not proved. Each states what the
//! ledger library's source shows of the call it makes, and the rest of the
//! crate is verified against these statements.
//!
//! The ledger library does not return for every text. Its decoders index
//! into decoded bytes before they check how many there are, and its encoder
//! tries every text of a transaction as an extended address. The value of an
//! issued amount is written out in full, whatever its exponent, and its
//! digits are taken for a number of 128 bits. The guards at the end of this
//! file, which are verified, keep such texts away from it.

use crate::decimal::{parse_u32, parse_u32_spec};
use crate::offline_signing::{AmountView, PaymentAmount};
use crate::text::chars_of;
use vstd::prelude::*;
use xrpl::asynch::exceptions::XRPLHelperException;
use xrpl::asynch::transaction::sign;
use xrpl::models::transactions::payment::Payment;
use xrpl::models::{Amount, IssuedCurrencyAmount, XRPAmount};
use xrpl::wallet::exceptions::XRPLWalletException;
use xrpl::wallet::Wallet;

verus! {

/// The bytes that `text` stands for as base58 in the ledger's alphabet with a
/// four-byte checksum, the checksum taken off; `None` where `text` is no such
/// encoding.
pub uninterp spec fn base58check_payload(text: Seq<char>) -> Option<Seq<u8>>;

/// The classic address of the account that the seed `seed` controls; `None`
/// where the ledger library derives no wallet from the text. That is so where
/// the text is not the encoding of a seed, and also for a seed whose key the
/// ledger library cannot read back.
pub uninterp spec fn derived_classic_address(seed: Seq<char>) -> Option<Seq<char>>;

/// The canonical encoding, in upper-case hexadecimal, of the signed payment
///   - from the account `account` to `destination`,
///   - delivering `amount`, offering `fee` drops,
///   - with sequence number `sequence`, eligible up to ledger `last_ledger_sequence`,
///   - every other optional field left out,
/// signed with the key that `seed` yields; `None` where the ledger library
/// refuses to build, sign or encode that payment.
pub uninterp spec fn signed_payment_blob(
    seed: Seq<char>,
    account: Seq<char>,
    destination: Seq<char>,
    amount: AmountView,
    fee: Seq<char>,
    sequence: u32,
    last_ledger_sequence: u32,
) -> Option<Seq<char>>;

/// The seed decoder may read `payload`. It compares the first three bytes of
/// a decoded payload with its prefixes before it looks at the length, so a
/// shorter payload must not reach it.
pub open spec fn seed_payload_readable(payload: Option<Seq<u8>>) -> bool {
    payload matches Some(bytes) ==> bytes.len() >= 3
}

/// The two bytes that open the payload of an extended address, on the main
/// network or on a test network.
pub open spec fn extended_address_prefix(first: u8, second: u8) -> bool {
    (first == 0x05 && second == 0x44) || (first == 0x04 && second == 0x93)
}

/// The address decoder may read `payload`. It takes a payload that opens like
/// an extended address apart by fixed positions, up to the thirty-first byte,
/// before it looks at the length.
pub open spec fn address_payload_readable(payload: Option<Seq<u8>>) -> bool {
    payload matches Some(bytes) ==> bytes.len() >= 31 || (bytes.len() >= 2
        && !extended_address_prefix(bytes[0], bytes[1]))
}

/// The address decoder may read `text`.
pub open spec fn text_readable(text: Seq<char>) -> bool {
    address_payload_readable(base58check_payload(text))
}

/// The most digits that the digits of a value may span, from its first
/// digit that is not zero to its last: a number of so many digits fits in 128
/// bits.
pub const SIGNIFICANT_DIGITS: usize = 38;

/// The most digits that an exponent may have after its sign and leading zeros.
pub const EXPONENT_DIGITS: usize = 4;

/// The most characters that a value may have. The ledger library counts the
/// digits of a value in 32 bits.
pub const VALUE_CHARS: usize = 1_000_000_000;

/// `c` marks the start of an exponent.
pub open spec fn is_exponent_mark(c: char) -> bool {
    c == 'e' || c == 'E'
}

/// The place of the first exponent mark in `value` at or after `from`; the
/// length of `value` where there is none.
pub open spec fn mark_from(value: Seq<char>, from: int) -> int
    decreases value.len() - from,
{
    if from < 0 || from >= value.len() {
        value.len() as int
    } else if is_exponent_mark(value[from]) {
        from
    } else {
        mark_from(value, from + 1)
    }
}

/// The place of the first exponent mark in `value`; its length where it has none.
pub open spec fn exponent_mark(value: Seq<char>) -> int {
    mark_from(value, 0)
}

/// `c` is a digit other than zero.
pub open spec fn nonzero_digit(c: char) -> bool {
    '1' <= c <= '9'
}

/// The zeros at the end of the digits of `s`, other characters passed over.
pub open spec fn pending_zeros(s: Seq<char>) -> nat
    decreases s.len(),
{
    if s.len() == 0 {
        0
    } else if s.last() == '0' {
        pending_zeros(s.drop_last()) + 1
    } else if nonzero_digit(s.last()) {
        0
    } else {
        pending_zeros(s.drop_last())
    }
}

/// How many digits the digits of `s` span from the first that is not zero to
/// the last that is not zero, other characters passed over: the length of the
/// number that they make once zeros are dropped at both ends.
pub open spec fn significant_digits(s: Seq<char>) -> nat
    decreases s.len(),
{
    if s.len() == 0 {
        0
    } else if nonzero_digit(s.last()) {
        if significant_digits(s.drop_last()) > 0 {
            significant_digits(s.drop_last()) + pending_zeros(s.drop_last()) + 1
        } else {
            1
        }
    } else {
        significant_digits(s.drop_last())
    }
}

/// Where the digits of the exponent of `value` begin: after the first
/// exponent mark and one sign, if there is one.
pub open spec fn exponent_start(value: Seq<char>) -> int {
    let mark = exponent_mark(value);
    if mark + 1 < value.len() && (value[mark + 1] == '+' || value[mark + 1] == '-') {
        mark + 2
    } else {
        mark + 1
    }
}

/// Whatever exponent `value` has is small: after its sign and leading zeros
/// at most four characters follow, which is to say that all but its last
/// four characters are zeros. The ledger library writes a value out with
/// all the zeros that its exponent asks for; a larger exponent keeps it busy
/// beyond any use, or overflows its arithmetic.
pub open spec fn exponent_small(value: Seq<char>) -> bool {
    forall|i: int|
        exponent_start(value) <= i < value.len() - EXPONENT_DIGITS ==> (#[trigger] value[i]) == '0'
}

/// The ledger library may read `value` as the value of an issued amount: it
/// is not too long, the digits before its exponent make a number of at most
/// thirty-eight digits once zeros are dropped at both ends, and its exponent
/// is small.
pub open spec fn value_readable(value: Seq<char>) -> bool {
    &&& value.len() <= VALUE_CHARS
    &&& significant_digits(value.take(exponent_mark(value))) <= SIGNIFICANT_DIGITS
    &&& exponent_small(value)
}

/// The ledger library may read `text` as a number of drops: the address
/// decoder may read it, and it is an unsigned 32-bit decimal text. The ledger
/// library takes no other text for the drops of a payment, and reads a fee
/// with the same decimal arithmetic as a value.
pub open spec fn drops_readable(text: Seq<char>) -> bool {
    text_readable(text) && parse_u32_spec(text) is Some
}

/// The ledger library may read `amount`: its drops, or its issuer as the
/// address decoder reads it and the value of an issued amount.
pub open spec fn amount_readable(amount: AmountView) -> bool {
    match amount {
        AmountView::Native { drops } => drops_readable(drops),
        AmountView::Issued { issuer, value, .. } => text_readable(issuer) && value_readable(value),
    }
}

/// The ledger library may read the payment. The encoder hands every text
/// that stands directly in a transaction to the address decoder, to see
/// whether it is an extended address: the account, the destination, the fee
/// and the drops. The issuer of an issued amount is read as an address where
/// the amount is encoded. (The other texts of a signed payment are made by
/// the ledger library itself.)
pub open spec fn payment_readable(
    account: Seq<char>,
    destination: Seq<char>,
    amount: AmountView,
    fee: Seq<char>,
) -> bool {
    text_readable(account) && text_readable(destination) && drops_readable(fee) && amount_readable(
        amount,
    )
}

/// Calls `xrpl::core::addresscodec::utils::decode_base58` with an empty
/// prefix, which decodes `text` as base58 in the ledger's alphabet, checks and
/// removes the checksum and returns all bytes that are left.
#[verifier::external_body]
pub(crate) fn decode_base58check(text: &str) -> (r: Option<Vec<u8>>)
    ensures
        r is Some <==> base58check_payload(text@) is Some,
        r matches Some(bytes) ==> base58check_payload(text@) == Some(bytes@),
{
    xrpl::core::addresscodec::utils::decode_base58(text, &[]).ok()
}

/// Calls `xrpl::wallet::Wallet::new` with sequence 0 and hands back the
/// wallet's classic address, or nothing where the call fails. The address is
/// derived from the seed alone: the seed is decoded, the key pair derived
/// from it by the algorithm that the seed names, and the address computed
/// from the public key. What the call says of a failure is dropped here: it
/// may quote from the seed.
#[verifier::external_body]
pub(crate) fn derive_classic_address(seed: &str) -> (r: Option<String>)
    requires
        seed_payload_readable(base58check_payload(seed@)),
    ensures
        r is Some <==> derived_classic_address(seed@) is Some,
        r matches Some(address) ==> derived_classic_address(seed@) == Some(address@),
{
    Wallet::new(seed, 0).ok().map(|wallet| wallet.classic_address.clone())
}

/// Calls `xrpl::wallet::Wallet::create` with no algorithm named, which draws
/// a fresh seed at random and builds the wallet from it with `Wallet::new`,
/// and hands back the seed and the classic address. Which seed comes is open;
/// the address is the one that the seed yields, and the seed is the encoding
/// of a prefix and sixteen bytes.
#[verifier::external_body]
pub(crate) fn create_wallet() -> (r: Result<(String, String), XRPLWalletException>)
    ensures
        r matches Ok(pair) ==> seed_payload_readable(base58check_payload(pair.0@))
            && derived_classic_address(pair.0@) == Some(pair.1@),
{
    let wallet = Wallet::create(None)?;
    Ok((wallet.seed.clone(), wallet.classic_address.clone()))
}

/// Signs the payment with `xrpl::asynch::transaction::sign` (single
/// signature). What it needs is made from the arguments: the wallet with
/// `xrpl::wallet::Wallet::new`, the payment with
/// `xrpl::models::transactions::payment::Payment::new`. What comes back is
/// turned into text with `xrpl::core::binarycodec::encode`. All of them are
/// functions of their arguments: both signature schemes take their nonce from
/// the key and the message.
///
/// Signing reads the seed with the seed decoder; signing and encoding read
/// the account, the destination, the fee, the drops and the issuer with the
/// address decoder, and take the fee, the drops and the value of an issued
/// amount for decimal numbers. Texts on which these panic or do not end are
/// kept out by `requires`.
#[verifier::external_body]
pub(crate) fn sign_payment(
    seed: &str,
    account: &str,
    destination: &str,
    amount: PaymentAmount,
    fee: &str,
    sequence: u32,
    last_ledger_sequence: u32,
) -> (r: Result<String, XRPLHelperException>)
    requires
        seed_payload_readable(base58check_payload(seed@)),
        payment_readable(account@, destination@, amount@, fee@),
    ensures
        r is Ok <==> signed_payment_blob(
            seed@,
            account@,
            destination@,
            amount@,
            fee@,
            sequence,
            last_ledger_sequence,
        ) is Some,
        r matches Ok(blob) ==> signed_payment_blob(
            seed@,
            account@,
            destination@,
            amount@,
            fee@,
            sequence,
            last_ledger_sequence,
        ) == Some(blob@),
{
    let wallet = Wallet::new(seed, 0)?;
    let amount = match amount {
        PaymentAmount::Native { drops } => Amount::XRPAmount(XRPAmount(drops.into())),
        PaymentAmount::Issued { currency, issuer, value } => Amount::IssuedCurrencyAmount(
            IssuedCurrencyAmount::new(currency.into(), issuer.into(), value.into())),
    };
    let mut payment = Payment::new(account.to_string().into(), None,
        Some(XRPAmount(fee.to_string().into())), None, Some(last_ledger_sequence), None,
        Some(sequence), None, None, None, amount, destination.to_string().into(),
        None, None, None, None, None);
    sign(&mut payment, &wallet, false)?;
    Ok(xrpl::core::binarycodec::encode(&payment)?)
}

/// Whether the seed decoder may be handed `seed`.
pub fn seed_readable(seed: &str) -> (ok: bool)
    ensures
        ok == seed_payload_readable(base58check_payload(seed@)),
{
    match decode_base58check(seed) {
        Some(bytes) => bytes.len() >= 3,
        None => true,
    }
}

/// Whether the address decoder may be handed `text`.
pub fn address_readable(text: &str) -> (ok: bool)
    ensures
        ok == text_readable(text@),
{
    match decode_base58check(text) {
        Some(bytes) => {
            if bytes.len() >= 31 {
                true
            } else if bytes.len() >= 2 {
                let first = bytes[0];
                let second = bytes[1];
                !((first == 0x05 && second == 0x44) || (first == 0x04 && second == 0x93))
            } else {
                false
            }
        },
        None => true,
    }
}

/// Whether the ledger library may be handed `value` as the value of an
/// issued amount.
pub fn value_is_readable(value: &str) -> (ok: bool)
    ensures
        ok == value_readable(value@),
{
    let chars = chars_of(value);
    let n = chars.len();
    if n > VALUE_CHARS {
        return false;
    }
    let mut mark: usize = 0;
    loop
        invariant
            mark <= n,
            n == chars.len(),
            chars@ == value@,
            mark_from(value@, 0) == mark_from(value@, mark as int),
        ensures
            mark <= n,
            exponent_mark(value@) == mark,
        decreases n - mark,
    {
        if mark == n {
            break ;
        }
        let c = chars[mark];
        if c == 'e' || c == 'E' {
            break ;
        }
        mark = mark + 1;
    }
    let ghost base = value@.take(mark as int);
    let mut count: usize = 0;
    let mut pending: usize = 0;
    let mut i: usize = 0;
    while i < mark
        invariant
            i <= mark <= n,
            n == chars.len(),
            chars@ == value@,
            base == value@.take(mark as int),
            count == significant_digits(base.take(i as int)),
            pending == pending_zeros(base.take(i as int)),
            count + pending <= i,
        decreases mark - i,
    {
        let c = chars[i];
        proof {
            assert(base.take(i + 1).drop_last() =~= base.take(i as int));
            assert(base.take(i + 1).last() == c);
        }
        if c == '0' {
            pending = pending + 1;
        } else if '1' <= c && c <= '9' {
            if count > 0 {
                count = count + pending + 1;
            } else {
                count = 1;
            }
            pending = 0;
        }
        i = i + 1;
    }
    assert(base.take(mark as int) =~= base);
    if count > SIGNIFICANT_DIGITS {
        return false;
    }
    if mark < n && n > EXPONENT_DIGITS {
        let start: usize = if mark + 1 < n && (chars[mark + 1] == '+' || chars[mark + 1] == '-') {
            mark + 2
        } else {
            mark + 1
        };
        let end: usize = n - EXPONENT_DIGITS;
        let mut j: usize = start;
        while j < end
            invariant
                start <= j,
                end == n - EXPONENT_DIGITS,
                n == chars.len(),
                chars@ == value@,
                start == exponent_start(value@),
                forall|k: int| start <= k < j ==> (#[trigger] value@[k]) == '0',
            decreases end - j,
        {
            if chars[j] != '0' {
                return false;
            }
            j = j + 1;
        }
    }
    true
}

/// Whether the ledger library may be handed `text` as a number of drops.
pub fn drops_are_readable(text: &str) -> (ok: bool)
    ensures
        ok == drops_readable(text@),
{
    address_readable(text) && parse_u32(text).is_some()
}

/// Whether the ledger library may be handed `amount`.
pub fn amount_is_readable(amount: &PaymentAmount) -> (ok: bool)
    ensures
        ok == amount_readable(amount@),
{
    match amount {
        PaymentAmount::Native { drops } => drops_are_readable(drops.as_str()),
        PaymentAmount::Issued { issuer, value, .. } => address_readable(issuer.as_str())
            && value_is_readable(value.as_str()),
    }
}

/// Whether the ledger library may be handed the payment.
pub fn payment_is_readable(
    account: &str,
    destination: &str,
    amount: &PaymentAmount,
    fee: &str,
) -> (ok: bool)
    ensures
        ok == payment_readable(account@, destination@, amount@, fee@),
{
    address_readable(account) && address_readable(destination) && drops_are_readable(fee)
        && amount_is_readable(amount)
}

} // verus!
