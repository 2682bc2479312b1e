//! Whether direnv has changed the environment, read from the value of
//! `DIRENV_DIFF`: URL-safe base64 of zlib-compressed JSON whose `p` object
//! lists the variables direnv set.
use vstd::prelude::*;
use crate::text::opt_bytes;

verus! {

/// What `str::trim` leaves of a string.
pub uninterp spec fn trimmed(s: Seq<char>) -> Seq<char>;

/// The bytes that URL-safe base64 text decodes to, `None` where it is not
/// valid.
pub uninterp spec fn base64_url_decoded(s: Seq<char>) -> Option<Seq<u8>>;

/// The bytes that a zlib stream inflates to, `None` where it is not valid.
pub uninterp spec fn zlib_inflated(b: Seq<u8>) -> Option<Seq<u8>>;

/// The number of entries of the object under `key` at the top of a JSON
/// document; `None` where the document does not parse, has no such key,
/// or the value there is not an object.
pub uninterp spec fn json_object_len(doc: Seq<u8>, key: Seq<char>) -> Option<nat>;

/// Relies on `str::trim`: the string without leading and trailing
/// whitespace.
#[verifier::external_body]
fn trim(s: &str) -> (r: &str)
    ensures
        r@ == trimmed(s@),
{
    s.trim()
}

/// Relies on `base64::Engine::decode` with the URL-safe alphabet.
#[verifier::external_body]
fn decode_base64(s: &str) -> (r: Option<Vec<u8>>)
    ensures
        opt_bytes(r) == base64_url_decoded(s@),
{
    base64::Engine::decode(&base64::engine::general_purpose::URL_SAFE, s).ok()
}

/// Relies on `flate2::read::ZlibDecoder`, read to its end.
#[verifier::external_body]
fn inflate(b: &[u8]) -> (r: Option<Vec<u8>>)
    ensures
        opt_bytes(r) == zlib_inflated(b@),
{
    let mut out = Vec::new();
    std::io::Read::read_to_end(&mut flate2::read::ZlibDecoder::new(b), &mut out).ok().map(|_| out)
}

/// Relies on `simd_json::to_tape` and the tape's `get`, `as_object` and
/// `len`: the size of the object under `key`.
#[verifier::external_body]
fn object_len(doc: Vec<u8>, key: &str) -> (r: Option<usize>)
    ensures
        match r {
            Option::Some(n) => json_object_len(doc@, key@) == Option::Some(n as nat),
            Option::None => json_object_len(doc@, key@) == Option::<nat>::None,
        },
{
    let mut doc = doc;
    let tape = simd_json::to_tape(&mut doc).ok()?;
    tape.as_value().get(key)?.as_object().map(|object| object.len())
}

/// Whether direnv changed anything, from the size of the `p` object.
pub open spec fn active_of(len: Option<nat>) -> Option<bool> {
    match len {
        Option::Some(n) => Option::Some(n > 0),
        Option::None => Option::None,
    }
}

/// The JSON document that a `DIRENV_DIFF` value holds.
pub open spec fn diff_document(diff: Seq<char>) -> Option<Seq<u8>> {
    match base64_url_decoded(trimmed(diff)) {
        Option::Some(b) => zlib_inflated(b),
        Option::None => Option::None,
    }
}

/// Whether direnv changed anything, as a `DIRENV_DIFF` value records it.
pub open spec fn diff_active(diff: Seq<char>) -> Option<bool> {
    match diff_document(diff) {
        Option::Some(doc) => active_of(json_object_len(doc, "p"@)),
        Option::None => Option::None,
    }
}

/// Whether direnv changed anything, from the size of the `p` object:
/// `None` where there is none.
pub fn detect_active(len: Option<usize>) -> (r: Option<bool>)
    ensures
        r == active_of(
            match len {
                Option::Some(n) => Option::Some(n as nat),
                Option::None => Option::None,
            },
        ),
{
    match len {
        Option::Some(n) => Option::Some(n > 0),
        Option::None => Option::None,
    }
}

/// The JSON document that a `DIRENV_DIFF` value holds.
pub fn decode(diff: &str) -> (r: Option<Vec<u8>>)
    ensures
        opt_bytes(r) == diff_document(diff@),
{
    match decode_base64(trim(diff)) {
        Option::Some(compressed) => inflate(compressed.as_slice()),
        Option::None => Option::None,
    }
}

/// Whether direnv changed anything, as the `DIRENV_DIFF` value `diff`
/// records it; `None` where it cannot be read.
pub fn is_active(diff: &str) -> (r: Option<bool>)
    ensures
        r == diff_active(diff@),
{
    match decode(diff) {
        Option::Some(doc) => detect_active(object_len(doc, "p")),
        Option::None => Option::None,
    }
}

} // verus!
