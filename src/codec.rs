use vstd::prelude::*;

verus! {

/// The standard base64 text of `b`, with padding.
pub uninterp spec fn base64_of(b: Seq<u8>) -> Seq<char>;

/// The bytes that a base58 text stands for, if it is base58.
pub uninterp spec fn base58_decoded(s: Seq<char>) -> Option<Seq<u8>>;

/// The base58 text of `b`.
pub uninterp spec fn base58_of(b: Seq<u8>) -> Seq<char>;

/// The text that `b` encodes, if it is valid UTF-8.
pub uninterp spec fn utf8_decoded(b: Seq<u8>) -> Option<Seq<char>>;

/// `n` as eight little-endian bytes.
pub open spec fn le_u64_bytes(n: nat) -> Seq<u8> {
    Seq::new(8, |i: int| ((n / pow256(i)) % 256) as u8)
}

pub open spec fn pow256(i: int) -> nat
    decreases i,
{
    if i <= 0 { 1 } else { 256 * pow256(i - 1) }
}

/// The compact binary form of an optional byte string (the same bytes as for
/// an optional text with those UTF-8 bytes): a tag byte, then for a present
/// value its length as a `u64` and its bytes.
pub open spec fn option_frame(v: Option<Seq<u8>>) -> Seq<u8> {
    match v {
        None => seq![0u8],
        Some(b) => seq![1u8].add(le_u64_bytes(b.len())).add(b),
    }
}

pub open spec fn opt_bytes_view(v: Option<Vec<u8>>) -> Option<Seq<u8>> {
    match v {
        Some(b) => Some(b@),
        None => None,
    }
}

/// The token under which a uri travels through plain text.
pub open spec fn uri_token_of(uri: Seq<u8>) -> Seq<char> {
    base64_of(option_frame(Some(uri)))
}

/// Relies on base64::encode: the standard alphabet, padded.
#[verifier::external_body]
fn base64_encode(b: &Vec<u8>) -> (r: String)
    ensures
        r@ == base64_of(b@),
{
    base64::encode(b)
}

/// Relies on base64::decode: it gives back the bytes whose standard encoding
/// the input is.
#[verifier::external_body]
fn base64_decode(s: &str) -> (r: Option<Vec<u8>>)
    ensures
        forall|b: Seq<u8>| s@ == #[trigger] base64_of(b) ==> opt_bytes_view(r) == Some(b),
{
    base64::decode(s).ok()
}

/// Relies on bincode::serialize with its default options (fixed-width
/// little-endian lengths); writing into a `Vec` does not fail.
#[verifier::external_body]
fn bincode_serialize(v: &Option<Vec<u8>>) -> (r: Result<Vec<u8>, ()>)
    ensures
        r is Ok,
        r is Ok ==> r->Ok_0@ == option_frame(opt_bytes_view(*v)),
{
    bincode::serialize(v).map_err(|_| ())
}

/// Relies on bincode::deserialize with its default options: it reads back
/// what bincode::serialize wrote, ignoring any bytes after it.
#[verifier::external_body]
fn bincode_deserialize(b: &Vec<u8>) -> (r: Option<Option<Vec<u8>>>)
    ensures
        forall|v: Option<Seq<u8>>| b@ == #[trigger] option_frame(v) ==> r is Some && opt_bytes_view(r->0) == v,
{
    bincode::deserialize::<Option<Vec<u8>>>(b).ok()
}

/// Relies on bs58::decode(..).into_vec(): the bytes of a base58 text.
#[verifier::external_body]
pub(crate) fn base58_decode(s: &str) -> (r: Option<Vec<u8>>)
    ensures
        opt_bytes_view(r) == base58_decoded(s@),
{
    bs58::decode(s).into_vec().ok()
}

/// Relies on bs58::encode(..).into_string(): the base58 text of bytes.
#[verifier::external_body]
pub(crate) fn base58_encode(b: &Vec<u8>) -> (r: String)
    ensures
        r@ == base58_of(b@),
{
    bs58::encode(b).into_string()
}

/// Relies on String::from_utf8: the text, when the bytes are valid UTF-8.
#[verifier::external_body]
pub(crate) fn utf8_text(b: Vec<u8>) -> (r: Option<String>)
    ensures
        match r {
            Some(s) => utf8_decoded(b@) == Some(s@),
            None => utf8_decoded(b@) is None,
        },
{
    String::from_utf8(b).ok()
}

/// Turns a uri into an opaque token safe for plain text: the base64 of the
/// compact binary form of the uri as a present optional value.
pub fn encode_uri_token(uri: &Vec<u8>) -> (r: String)
    ensures
        r@ == uri_token_of(uri@),
{
    let framed = match bincode_serialize(&Some(uri.clone())) {
        Ok(b) => b,
        Err(_) => Vec::new(),
    };
    base64_encode(&framed)
}

/// Reads a uri token back: the optional uri it carries, or `None` when the
/// token is not base64 of such a frame. A token made from a uri gives that
/// uri back.
pub fn decode_uri_token(token: &str) -> (r: Option<Option<Vec<u8>>>)
    ensures
        forall|uri: Seq<u8>| token@ == #[trigger] uri_token_of(uri) ==>
            r is Some && opt_bytes_view(r->0) == Some(uri),
{
    match base64_decode(token) {
        None => None,
        Some(bytes) => bincode_deserialize(&bytes),
    }
}

} // verus!
