//! SHA-512, HMAC-SHA512 and lowercase hex encoding, as provided by rust-crypto
//! and hex.
use vstd::prelude::*;
use vstd::utf8::encode_utf8;
use crypto::digest::Digest;
use crypto::hmac::Hmac;
use crypto::mac::Mac;
use crypto::sha2::Sha512;

verus! {

/// The SHA-512 digest of a byte sequence.
pub uninterp spec fn sha512_of(data: Seq<u8>) -> Seq<u8>;

/// The HMAC-SHA512 code of `message` under `key`.
pub uninterp spec fn hmac_sha512_of(key: Seq<u8>, message: Seq<u8>) -> Seq<u8>;

/// The lowercase hexadecimal digit for a value below 16.
pub open spec fn hex_digit(n: u8) -> char {
    if n < 10 {
        (48 + n) as char
    } else {
        (87 + n) as char
    }
}

/// Whether `c` is one of `0-9a-f`.
pub open spec fn is_lower_hex_digit(c: char) -> bool {
    ('0' <= c && c <= '9') || ('a' <= c && c <= 'f')
}

/// Each byte as two lowercase hex digits, high nibble first.
pub open spec fn hex_lower(bytes: Seq<u8>) -> Seq<char> {
    Seq::new(
        2 * bytes.len(),
        |i: int|
            if i % 2 == 0 {
                hex_digit(bytes[i / 2] / 16)
            } else {
                hex_digit(bytes[i / 2] % 16)
            },
    )
}

/// Every character is a lowercase hex digit.
pub open spec fn all_lower_hex(s: Seq<char>) -> bool {
    forall|i: int| 0 <= i < s.len() ==> is_lower_hex_digit(#[trigger] s[i])
}

/// Hex text has two digits per byte, all of them lowercase hex digits.
pub proof fn lemma_hex_lower(bytes: Seq<u8>)
    ensures
        hex_lower(bytes).len() == 2 * bytes.len(),
        all_lower_hex(hex_lower(bytes)),
{
    let h = hex_lower(bytes);
    assert forall|i: int| 0 <= i < h.len() implies is_lower_hex_digit(#[trigger] h[i]) by {
        let b = bytes[i / 2];
        let n: u8 = if i % 2 == 0 { b / 16 } else { b % 16 };
        assert(n < 16);
        assert(h[i] == hex_digit(n));
    }
}

/// Relies on rust-crypto's `Sha512` through `Digest::input_str` and
/// `Digest::result_str`: the digest (64 bytes) of the string's UTF-8 bytes,
/// written as lowercase hex.
#[verifier::external_body]
pub(crate) fn sha512_hex(s: &str) -> (r: String)
    ensures
        r@ == hex_lower(sha512_of(encode_utf8(s@))),
        r@.len() == 128,
{
    let mut hash = Sha512::new();
    hash.input_str(s);
    hash.result_str()
}

/// Relies on rust-crypto's `Hmac<Sha512>` (`Hmac::new`, `Mac::input`,
/// `Mac::result`, `MacResult::code`): the 64-byte code of `message` under `key`.
#[verifier::external_body]
pub(crate) fn hmac_sha512(key: &[u8], message: &[u8]) -> (r: Vec<u8>)
    ensures
        r@ == hmac_sha512_of(key@, message@),
        r@.len() == 64,
{
    let mut mac = Hmac::new(Sha512::new(), key);
    mac.input(message);
    mac.result().code().to_vec()
}

/// Relies on `hex::encode`: two lowercase digits per byte, high nibble first.
#[verifier::external_body]
pub(crate) fn hex_encode(bytes: &[u8]) -> (r: String)
    ensures
        r@ == hex_lower(bytes@),
{
    hex::encode(bytes)
}

} // verus!
