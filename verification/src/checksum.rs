//! Integrity of an image: it is trusted only if its SHA-256 digest is the
//! one the catalog announced, given in hexadecimal.

use sha2::Digest;
use sha2::Sha256;
use vstd::prelude::*;

verus! {

/// `std::io::Error`: why an operation on a file, a mount or a process failed.
/// It is carried as it came; nothing here looks inside it.
#[verifier::external_type_specification]
#[verifier::external_body]
pub struct ExIoError(std::io::Error);

/// Why an image was not accepted.
#[derive(Debug)]
pub enum ValidateError {
    /// The image could not be read to the end.
    Io(std::io::Error),
    /// The expected digest is not an even number of hexadecimal digits.
    InvalidInput,
    /// The image has another digest than the expected one.
    Mismatch,
}

/// The value of a hexadecimal digit. Both cases of the letters count.
pub open spec fn digit_value(c: char) -> Option<u8> {
    if '0' <= c <= '9' {
        Some((c as u8 - 0x30) as u8)
    } else if 'a' <= c <= 'f' {
        Some((c as u8 - 0x61 + 10) as u8)
    } else if 'A' <= c <= 'F' {
        Some((c as u8 - 0x41 + 10) as u8)
    } else {
        None
    }
}

/// Whether `text` writes a sequence of bytes in hexadecimal: two digits for
/// each byte, nothing else.
pub open spec fn is_hex(text: Seq<char>) -> bool {
    &&& text.len() % 2 == 0
    &&& forall|i: int| 0 <= i < text.len() ==> digit_value(#[trigger] text[i]) is Some
}

/// The bytes that `text` writes in hexadecimal, the high digit of each first.
pub open spec fn hex_bytes(text: Seq<char>) -> Seq<u8> {
    Seq::new(
        text.len() / 2,
        |i: int|
            (digit_value(text[2 * i]).unwrap() * 16 + digit_value(text[2 * i + 1]).unwrap()) as u8,
    )
}

/// What is decided for an image with the digest `found` when the digest
/// `expected` was announced.
pub open spec fn verdict(found: Seq<u8>, expected: Seq<char>) -> Result<(), ValidateError> {
    if !is_hex(expected) {
        Err(ValidateError::InvalidInput)
    } else if hex_bytes(expected) == found {
        Ok(())
    } else {
        Err(ValidateError::Mismatch)
    }
}

fn digit(byte: u8) -> (value: Option<u8>)
    ensures
        forall|c: char|
            '\0' <= c <= '\u{7f}' && c as u8 == byte ==> value == #[trigger] digit_value(c),
{
    if 0x30 <= byte && byte <= 0x39 {
        Some(byte - 0x30)
    } else if 0x61 <= byte && byte <= 0x66 {
        Some(byte - 0x61 + 10)
    } else if 0x41 <= byte && byte <= 0x46 {
        Some(byte - 0x41 + 10)
    } else {
        None
    }
}

/// Reads `text` as bytes written in hexadecimal.
pub fn decode_hex(text: &str) -> (bytes: Option<Vec<u8>>)
    ensures
        bytes is Some <==> is_hex(text@),
        bytes is Some ==> bytes->Some_0@ == hex_bytes(text@),
{
    if !text.is_ascii() {
        return None;
    }
    let raw = text.as_bytes();
    proof {
        vstd::string::is_ascii_spec_bytes(text);
    }
    let count = raw.len();
    if count % 2 != 0 {
        return None;
    }
    let mut bytes: Vec<u8> = Vec::new();
    let mut at: usize = 0;
    while at < count
        invariant
            at <= count,
            at % 2 == 0,
            count % 2 == 0,
            count == text@.len(),
            raw@.len() == count,
            forall|i: int| 0 <= i < count ==> raw@[i] == text@[i] as u8,
            vstd::string::is_ascii(text),
            forall|i: int| 0 <= i < at ==> digit_value(#[trigger] text@[i]) is Some,
            bytes@.len() == at / 2,
            forall|k: int| 0 <= k < bytes@.len() ==> bytes@[k] == hex_bytes(text@)[k],
        decreases count - at,
    {
        let high = digit(raw[at]);
        let low = digit(raw[at + 1]);
        match (high, low) {
            (Some(high), Some(low)) => {
                bytes.push(high * 16 + low);
                at = at + 2;
            },
            _ => {
                return None;
            },
        }
    }
    Some(bytes)
}

/// Decides whether an image with the digest `found` passes, `expected` being
/// the announced digest in hexadecimal.
pub fn validate_digest(found: &[u8], expected: &str) -> (result: Result<(), ValidateError>)
    ensures
        result == verdict(found@, expected@),
{
    match decode_hex(expected) {
        None => Err(ValidateError::InvalidInput),
        Some(bytes) => {
            if same_bytes(bytes.as_slice(), found) {
                Ok(())
            } else {
                Err(ValidateError::Mismatch)
            }
        },
    }
}

fn same_bytes(left: &[u8], right: &[u8]) -> (same: bool)
    ensures
        same == (left@ == right@),
{
    if left.len() != right.len() {
        return false;
    }
    let mut at: usize = 0;
    while at < left.len()
        invariant
            at <= left.len(),
            left.len() == right.len(),
            forall|i: int| 0 <= i < at ==> left@[i] == right@[i],
        decreases left.len() - at,
    {
        if left[at] != right[at] {
            return false;
        }
        at = at + 1;
    }
    assert(left@ =~= right@);
    true
}

/// The SHA-256 digest of a sequence of bytes.
pub uninterp spec fn sha256_of(data: Seq<u8>) -> Seq<u8>;

/// `sha2::Sha256::digest`: the SHA-256 digest of `data`, a function of the
/// bytes alone, 32 bytes long.
#[verifier::external_body]
fn sha256(data: &[u8]) -> (digest: Vec<u8>)
    ensures
        digest@ == sha256_of(data@),
        digest@.len() == 32,
{
    Sha256::digest(data).to_vec()
}

/// Decides whether the image `content` passes, `expected` being the announced
/// digest in hexadecimal.
pub fn validate_checksum(content: &[u8], expected: &str) -> (result: Result<(), ValidateError>)
    ensures
        result == verdict(sha256_of(content@), expected@),
{
    let found = sha256(content);
    validate_digest(found.as_slice(), expected)
}

/// The digit that writes a value below sixteen, letters in lower case.
pub open spec fn digit_char(value: int) -> char {
    if value == 0 {
        '0'
    } else if value == 1 {
        '1'
    } else if value == 2 {
        '2'
    } else if value == 3 {
        '3'
    } else if value == 4 {
        '4'
    } else if value == 5 {
        '5'
    } else if value == 6 {
        '6'
    } else if value == 7 {
        '7'
    } else if value == 8 {
        '8'
    } else if value == 9 {
        '9'
    } else if value == 10 {
        'a'
    } else if value == 11 {
        'b'
    } else if value == 12 {
        'c'
    } else if value == 13 {
        'd'
    } else if value == 14 {
        'e'
    } else {
        'f'
    }
}

/// `bytes` written in hexadecimal, two digits for each byte, the high digit
/// first.
pub open spec fn hex_text(bytes: Seq<u8>) -> Seq<char> {
    Seq::new(
        2 * bytes.len(),
        |i: int|
            if i % 2 == 0 {
                digit_char(bytes[i / 2] as int / 16)
            } else {
                digit_char(bytes[i / 2] as int % 16)
            },
    )
}

/// Writing bytes in hexadecimal and reading them back gives the same bytes.
pub proof fn hex_round_trip(bytes: Seq<u8>)
    ensures
        is_hex(hex_text(bytes)),
        hex_bytes(hex_text(bytes)) == bytes,
{
    let text = hex_text(bytes);
    assert forall|i: int| 0 <= i < text.len() implies digit_value(#[trigger] text[i]) is Some by {
        let byte = bytes[i / 2] as int;
        assert(0 <= byte / 16 < 16 && 0 <= byte % 16 < 16);
    }
    assert forall|k: int| 0 <= k < bytes.len() implies #[trigger] hex_bytes(text)[k]
        == bytes[k] by {
        let byte = bytes[k] as int;
        assert(0 <= byte / 16 < 16 && 0 <= byte % 16 < 16);
        assert(text[2 * k] == digit_char(byte / 16));
        assert(text[2 * k + 1] == digit_char(byte % 16));
        assert(digit_value(text[2 * k]).unwrap() == byte / 16);
        assert(digit_value(text[2 * k + 1]).unwrap() == byte % 16);
        assert(byte == 16 * (byte / 16) + byte % 16);
    }
    assert(hex_bytes(text) =~= bytes);
}

/// An image passes when the announced digest is its own, and no image with
/// another digest passes in its place.
pub proof fn passes_exactly_own_digest(found: Seq<u8>, announced: Seq<u8>)
    ensures
        verdict(found, hex_text(announced)) is Ok <==> found == announced,
        found != announced ==> verdict(found, hex_text(announced)) == Err::<(), ValidateError>(
            ValidateError::Mismatch,
        ),
{
    hex_round_trip(announced);
}

/// Content is accepted against its own SHA-256 digest written in hexadecimal.
pub proof fn content_passes_own_checksum(content: Seq<u8>)
    ensures
        verdict(sha256_of(content), hex_text(sha256_of(content))) is Ok,
{
    hex_round_trip(sha256_of(content));
}

} // verus!
