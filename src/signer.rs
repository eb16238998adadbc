//! Token derivation and request signatures.
use vstd::prelude::*;
use vstd::string::*;
use vstd::utf8::{encode_utf8, encode_utf8_decode_utf8};
use crate::digest::{
    all_lower_hex, hex_encode, hex_lower, hmac_sha512, hmac_sha512_of, lemma_hex_lower,
    sha512_hex, sha512_of,
};
use crate::error::BlihErr;
use crate::json_text::{flat_object_text, JsonObject};

verus! {

/// Spaces per level in every JSON text that the service receives.
pub const INDENT: u16 = 4;

/// The token derived from a password: the lowercase hex SHA-512 digest of
/// its UTF-8 bytes.
pub open spec fn token_of(password: Seq<char>) -> Seq<char> {
    hex_lower(sha512_of(encode_utf8(password)))
}

/// The view of an optional object.
pub open spec fn payload_view(payload: Option<JsonObject>) -> Option<Seq<(Seq<char>, Seq<char>)>> {
    match payload {
        Some(o) => Some(o@),
        None => None,
    }
}

/// The text that a signature covers: the user name, followed by the payload
/// as pretty JSON when there is one.
pub open spec fn signed_text(user: Seq<char>, payload: Option<Seq<(Seq<char>, Seq<char>)>>) -> Seq<
    char,
> {
    match payload {
        Some(es) => user + flat_object_text(es, INDENT as nat, 0),
        None => user,
    }
}

/// The signature of a request: HMAC-SHA512 keyed by the token's bytes over
/// the bytes of the signed text, in lowercase hex.
pub open spec fn signature_of(
    token: Seq<char>,
    user: Seq<char>,
    payload: Option<Seq<(Seq<char>, Seq<char>)>>,
) -> Seq<char> {
    hex_lower(hmac_sha512_of(encode_utf8(token), encode_utf8(signed_text(user, payload))))
}

/// Derives the long-lived token from a password.
pub fn derive_token(password: &str) -> (r: String)
    ensures
        r@ == token_of(password@),
        r@.len() == 128,
        all_lower_hex(r@),
{
    let r = sha512_hex(password);
    proof {
        lemma_hex_lower(sha512_of(encode_utf8(password@)));
    }
    r
}

/// Signs a request for `user` with `token`, covering `payload` when present.
pub fn sign(token: &Option<String>, user: &Option<String>, payload: &Option<JsonObject>) -> (r:
    Result<String, BlihErr>)
    ensures
        token.is_none() ==> r == Err::<String, BlihErr>(BlihErr::NoTokenProvided),
        token.is_some() && user.is_none() ==> r == Err::<String, BlihErr>(
            BlihErr::NoUserNameProvided,
        ),
        token.is_some() && user.is_some() ==> r.is_ok() && r.unwrap()@ == signature_of(
            token.unwrap()@,
            user.unwrap()@,
            payload_view(*payload),
        ) && r.unwrap()@.len() == 128 && all_lower_hex(r.unwrap()@),
{
    let key = match token {
        Some(t) => t.as_str().as_bytes(),
        None => return Err(BlihErr::NoTokenProvided),
    };
    let mut text = match user {
        Some(u) => u.clone(),
        None => return Err(BlihErr::NoUserNameProvided),
    };
    match payload {
        Some(p) => {
            let body = p.pretty(INDENT);
            text.append(body.as_str());
        },
        None => {},
    }
    assert(text@ == signed_text(user.unwrap()@, payload_view(*payload)));
    let code = hmac_sha512(key, text.as_str().as_bytes());
    let r = hex_encode(code.as_slice());
    proof {
        lemma_hex_lower(code@);
    }
    Ok(r)
}

/// Equal passwords give equal tokens.
pub proof fn derive_token_is_deterministic(a: Seq<char>, b: Seq<char>)
    requires
        a == b,
    ensures
        token_of(a) == token_of(b),
{
}

/// A signature is a function of the token, the user name and the payload.
pub proof fn sign_is_deterministic(
    token: Seq<char>,
    user: Seq<char>,
    p: Option<Seq<(Seq<char>, Seq<char>)>>,
    q: Option<Seq<(Seq<char>, Seq<char>)>>,
)
    requires
        p == q,
    ensures
        signature_of(token, user, p) == signature_of(token, user, q),
{
}

/// A request with an empty object as payload covers more than one without a
/// payload: the text and the bytes that the code is computed over differ.
pub proof fn empty_payload_is_covered(user: Seq<char>)
    ensures
        signed_text(user, None) != signed_text(user, Some(Seq::empty())),
        encode_utf8(signed_text(user, None)) != encode_utf8(
            signed_text(user, Some(Seq::empty())),
        ),
{
    let e = Seq::<(Seq<char>, Seq<char>)>::empty();
    assert(flat_object_text(e, INDENT as nat, 0).len() == 2);
    assert(signed_text(user, Some(e)).len() == user.len() + 2);
    encode_utf8_decode_utf8(signed_text(user, None));
    encode_utf8_decode_utf8(signed_text(user, Some(e)));
}

} // verus!
