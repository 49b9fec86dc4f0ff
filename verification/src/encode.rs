//! Trusted bindings to the outside encoders: form/query encoding of
//! key-value pairs and field extraction from a token-endpoint JSON body.
//!
//! These are the only items of the crate whose contracts Verus believes
//! without proof.

use vstd::prelude::*;

verus! {

/// The form/query encoding of a list of key-value pairs, exactly as
/// `serde_urlencoded` produces it (keys and values percent-encoded, pairs
/// joined by `&`, key and value joined by `=`).
pub uninterp spec fn urlencoded_of(pairs: Seq<(Seq<char>, Seq<char>)>) -> Seq<char>;

/// The character-level view of a list of string pairs.
pub open spec fn spec_pairs_view(pairs: Seq<(String, String)>) -> Seq<(Seq<char>, Seq<char>)> {
    pairs.map_values(|p: (String, String)| (p.0@, p.1@))
}

/// Relies on serde_urlencoded::to_string: the encoding depends on the
/// pairs alone, and encoding a sequence of string pairs never fails (its
/// serializer appends each string pair to the output unconditionally).
#[verifier::external_body]
pub(crate) fn urlencode_pairs(pairs: &Vec<(String, String)>) -> (r: String)
    ensures
        r@ == urlencoded_of(spec_pairs_view(pairs@)),
{
    serde_urlencoded::to_string(pairs).unwrap()
}

/// The credential fields carried by a token-endpoint JSON body, if it is a
/// well-formed JSON object with the expected field types: access token,
/// lifetime in seconds, optional refresh token, and the scope string.
pub uninterp spec fn token_body_fields(body: Seq<u8>) -> Option<
    (Seq<char>, u64, Option<Seq<char>>, Seq<char>),
>;

/// The character-level view of an extracted field tuple.
pub open spec fn spec_fields_view(f: (String, u64, Option<String>, String)) -> (
    Seq<char>,
    u64,
    Option<Seq<char>>,
    Seq<char>,
) {
    (
        f.0@,
        f.1,
        match f.2 {
            Some(s) => Some(s@),
            None => None,
        },
        f.3@,
    )
}

/// Relies on serde_json::from_slice and serde_json::Value's accessors:
/// which fields a JSON document holds is a function of the bytes alone.  A
/// missing or null refresh token yields `None`; any other malformation of
/// the body or of the consumed fields yields no result.
#[verifier::external_body]
pub(crate) fn parse_token_body(body: &Vec<u8>) -> (r: Option<(String, u64, Option<String>, String)>)
    ensures
        match r {
            Some(f) => token_body_fields(body@) == Some(spec_fields_view(f)),
            None => token_body_fields(body@) is None,
        },
{
    let v: serde_json::Value = serde_json::from_slice(body).ok()?;
    let access = v.get("access_token")?.as_str()?.to_owned();
    let expires = v.get("expires_in")?.as_u64()?;
    let refresh = match v.get("refresh_token") {
        None => None,
        Some(x) if x.is_null() => None,
        Some(x) => Some(x.as_str()?.to_owned()),
    };
    let scope = v.get("scope")?.as_str()?.to_owned();
    Some((access, expires, refresh, scope))
}

} // verus!
