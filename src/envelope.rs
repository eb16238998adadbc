//! The signed JSON envelope sent as a request body: `{user, signature, data?}`.
use vstd::prelude::*;
use crate::json_text::{flat_object_text, json_quote, object_text, pairs_view, write_object, JsonObject};
use crate::signer::{payload_view, INDENT};

verus! {

/// The envelope's members, each with its value already written as JSON: the
/// user, the signature, and the payload under `data` when there is one.
pub open spec fn envelope_members(
    user: Seq<char>,
    signature: Seq<char>,
    data: Option<Seq<(Seq<char>, Seq<char>)>>,
) -> Seq<(Seq<char>, Seq<char>)> {
    let head = seq![("user"@, json_quote(user)), ("signature"@, json_quote(signature))];
    match data {
        Some(es) => head.push(("data"@, flat_object_text(es, INDENT as nat, 1))),
        None => head,
    }
}

/// The envelope as the pretty JSON text that the service receives.
pub open spec fn envelope_text(
    user: Seq<char>,
    signature: Seq<char>,
    data: Option<Seq<(Seq<char>, Seq<char>)>>,
) -> Seq<char> {
    object_text(envelope_members(user, signature, data), INDENT as nat, 0)
}

/// Builds the request body for `user`, carrying `signature` verbatim and the
/// payload under `data` exactly when there is one.
pub fn build_envelope(user: &str, signature: &str, payload: &Option<JsonObject>) -> (r: String)
    ensures
        r@ == envelope_text(user@, signature@, payload_view(*payload)),
{
    let mut members: Vec<(String, String)> = Vec::new();
    members.push((String::from_str("user"), crate::json_text::quote(user)));
    members.push((String::from_str("signature"), crate::json_text::quote(signature)));
    match payload {
        Some(p) => {
            members.push((String::from_str("data"), p.pretty_at(INDENT, 1)));
        },
        None => {},
    }
    let r = write_object(&members, INDENT, 0);
    assert(pairs_view(members@) =~= envelope_members(user@, signature@, payload_view(*payload)));
    r
}

/// The envelope holds the keys `user` and `signature`, and `data` exactly
/// when a payload is given; `user` and `signature` carry their source values
/// and `data` the payload itself.
pub proof fn envelope_keys(
    user: Seq<char>,
    signature: Seq<char>,
    data: Option<Seq<(Seq<char>, Seq<char>)>>,
)
    ensures
        envelope_members(user, signature, data).len() == if data.is_some() {
            3int
        } else {
            2int
        },
        envelope_members(user, signature, data)[0] == ("user"@, json_quote(user)),
        envelope_members(user, signature, data)[1] == ("signature"@, json_quote(signature)),
        data.is_some() ==> envelope_members(user, signature, data)[2] == ("data"@,
        flat_object_text(data.unwrap(), INDENT as nat, 1)),
{
}

} // verus!
