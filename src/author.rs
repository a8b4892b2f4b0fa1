//! Author key material: the 32-byte secret that signs document entries,
//! the public id derived from it, and their hexadecimal text form.
use vstd::prelude::*;
use crate::buffer::TextArg;
use crate::error::{ArgName, BridgeError};

verus! {

/// An author's secret signing key.
#[derive(Clone, Copy, Debug)]
pub struct IrohAuthorSecret {
    pub bytes: [u8; 32],
}

/// An author's public id, derived from the secret.
#[derive(Clone, Copy, Debug)]
pub struct IrohAuthorId {
    pub bytes: [u8; 32],
}

pub open spec fn hex_digits() -> Seq<char> {
    seq!['0', '1', '2', '3', '4', '5', '6', '7', '8', '9', 'a', 'b', 'c', 'd', 'e', 'f']
}

pub open spec fn is_hex_digit(c: char) -> bool {
    ('0' <= c && c <= '9') || ('a' <= c && c <= 'f') || ('A' <= c && c <= 'F')
}

/// The value of a hexadecimal digit of either case.
pub open spec fn hex_value(c: char) -> int {
    if '0' <= c && c <= '9' {
        c as int - '0' as int
    } else if 'a' <= c && c <= 'f' {
        c as int - 'a' as int + 10
    } else {
        c as int - 'A' as int + 10
    }
}

/// Text that decodes: an even number of hexadecimal digits.
pub open spec fn valid_hex(s: Seq<char>) -> bool {
    &&& s.len() % 2 == 0
    &&& forall|i: int| 0 <= i < s.len() ==> is_hex_digit(#[trigger] s[i])
}

/// One byte for each pair of digits, the first digit the high one.
pub open spec fn decode_hex(s: Seq<char>) -> Seq<u8> {
    Seq::new(s.len() / 2, |i: int| (16 * hex_value(s[2 * i]) + hex_value(s[2 * i + 1])) as u8)
}

/// Two lowercase digits for each byte, the high one first.
pub open spec fn encode_hex(b: Seq<u8>) -> Seq<char> {
    Seq::new(
        2 * b.len(),
        |i: int|
            if i % 2 == 0 {
                hex_digits()[(b[i / 2] / 16) as int]
            } else {
                hex_digits()[(b[i / 2] % 16) as int]
            },
    )
}

#[verifier::external_type_specification]
#[verifier::external_body]
pub struct ExFromHexError(hex::FromHexError);

/// Relies on `hex::decode`: an even number of hexadecimal digits of either
/// case decodes to one byte per pair, high digit first; any other text is
/// an error (odd length, or a byte that is not a digit).
#[verifier::external_body]
fn hex_decode(text: &str) -> (r: Result<Vec<u8>, hex::FromHexError>)
    ensures
        r is Ok == valid_hex(text@),
        r is Ok ==> r->Ok_0@ == decode_hex(text@),
{
    hex::decode(text)
}

/// Relies on `hex::FromHexError`'s `Display`, for the description of a
/// decoding failure.
#[verifier::external_body]
fn hex_error_text(e: &hex::FromHexError) -> String {
    e.to_string()
}

/// Relies on `hex::encode`: two lowercase digits per byte, high digit
/// first.
#[verifier::external_body]
fn hex_encode(bytes: &[u8; 32]) -> (r: String)
    ensures
        r@ == encode_hex(bytes@),
{
    hex::encode(bytes)
}

/// Writes a secret as 64 lowercase hexadecimal digits.
pub fn iroh_author_secret_to_hex(secret: IrohAuthorSecret) -> (r: String)
    ensures
        r@ == encode_hex(secret.bytes@),
{
    hex_encode(&secret.bytes)
}

/// Writes an author id as 64 lowercase hexadecimal digits.
pub fn iroh_author_id_to_hex(id: IrohAuthorId) -> (r: String)
    ensures
        r@ == encode_hex(id.bytes@),
{
    hex_encode(&id.bytes)
}

/// Reads a secret from its hexadecimal text: null, non-UTF-8, non-hex text
/// and text of any length other than 64 digits are each reported.
pub fn author_secret_from_hex(secret_hex: TextArg) -> (r: Result<IrohAuthorSecret, BridgeError>)
    ensures
        secret_hex is Null ==> r == Err::<IrohAuthorSecret, BridgeError>(
            BridgeError::NullArgument(ArgName::SecretHex),
        ),
        secret_hex is NotUtf8 ==> r == Err::<IrohAuthorSecret, BridgeError>(
            BridgeError::InvalidUtf8(ArgName::SecretHex, secret_hex->NotUtf8_0),
        ),
        secret_hex is Text ==> ({
            let s = secret_hex->Text_0@;
            &&& !valid_hex(s) ==> r is Err && r->Err_0 is InvalidHex
            &&& valid_hex(s) && decode_hex(s).len() != 32 ==> r == Err::<IrohAuthorSecret, BridgeError>(
                BridgeError::InvalidSecretLength((s.len() / 2) as usize),
            )
            &&& valid_hex(s) && decode_hex(s).len() == 32 ==> r is Ok && r->Ok_0.bytes@ == decode_hex(s)
        }),
{
    let text = match secret_hex {
        TextArg::Null => {
            return Err(BridgeError::NullArgument(ArgName::SecretHex));
        },
        TextArg::NotUtf8(d) => {
            return Err(BridgeError::InvalidUtf8(ArgName::SecretHex, d));
        },
        TextArg::Text(s) => s,
    };
    let decoded = match hex_decode(text.as_str()) {
        Ok(v) => v,
        Err(e) => {
            return Err(BridgeError::InvalidHex(hex_error_text(&e)));
        },
    };
    if decoded.len() != 32 {
        return Err(BridgeError::InvalidSecretLength(decoded.len()));
    }
    let mut bytes = [0u8; 32];
    let mut i: usize = 0;
    while i < 32
        invariant
            i <= 32,
            decoded@.len() == 32,
            forall|j: int| 0 <= j < i ==> bytes@[j] == decoded@[j],
        decreases 32 - i,
    {
        bytes[i] = decoded[i];
        i += 1;
    }
    assert(bytes@ =~= decoded@);
    Ok(IrohAuthorSecret { bytes })
}

proof fn lemma_digit_value(d: int)
    requires
        0 <= d < 16,
    ensures
        is_hex_digit(hex_digits()[d]),
        hex_value(hex_digits()[d]) == d,
{
    if d < 10 {
        assert(hex_digits()[d] as int == '0' as int + d) by {
            if d == 0 {} else if d == 1 {} else if d == 2 {} else if d == 3 {} else if d == 4 {}
            else if d == 5 {} else if d == 6 {} else if d == 7 {} else if d == 8 {} else {}
        }
    } else {
        assert(hex_digits()[d] as int == 'a' as int + d - 10) by {
            if d == 10 {} else if d == 11 {} else if d == 12 {} else if d == 13 {} else if d == 14 {}
            else {}
        }
    }
}

/// Hexadecimal text written for any bytes reads back as those bytes.
pub proof fn law_hex_round_trip(b: Seq<u8>)
    ensures
        valid_hex(encode_hex(b)),
        decode_hex(encode_hex(b)) == b,
{
    let s = encode_hex(b);
    assert forall|i: int| 0 <= i < s.len() implies is_hex_digit(#[trigger] s[i]) by {
        if i % 2 == 0 {
            lemma_digit_value((b[i / 2] / 16) as int);
        } else {
            lemma_digit_value((b[i / 2] % 16) as int);
        }
    }
    assert forall|i: int| 0 <= i < b.len() implies #[trigger] decode_hex(s)[i] == b[i] by {
        assert((2 * i) / 2 == i);
        assert((2 * i + 1) / 2 == i);
        assert((2 * i) % 2 == 0);
        assert((2 * i + 1) % 2 == 1);
        lemma_digit_value((b[i] / 16) as int);
        lemma_digit_value((b[i] % 16) as int);
        assert(16 * (b[i] / 16) + b[i] % 16 == b[i]);
    }
    assert(decode_hex(s) =~= b);
}

/// A secret written as hexadecimal text reads back as the same secret.
pub proof fn law_secret_hex_round_trip(secret: IrohAuthorSecret)
    ensures
        valid_hex(encode_hex(secret.bytes@)),
        decode_hex(encode_hex(secret.bytes@)) == secret.bytes@,
        decode_hex(encode_hex(secret.bytes@)).len() == 32,
{
    law_hex_round_trip(secret.bytes@);
}

} // verus!
