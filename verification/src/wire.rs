//! The calls into `postcard`, the serde format in which packets travel.
//!
//! Every call here encodes or decodes a tuple of plain values; a struct with
//! the same fields in the same order has the same `postcard` form. The bytes
//! of each encoding are written out below; what decoding gives on arbitrary
//! bytes is given a name, and the contracts state the fact that callers rely
//! on: decoding an encoding gives back the values.

use vstd::prelude::*;
use vstd::utf8::encode_utf8;

verus! {

/// The error that every fallible `postcard` call returns.
#[verifier::external_type_specification]
#[verifier::external_body]
pub struct ExPostcardError(postcard::Error);

/// The unsigned LEB128 varint in which `postcard` writes integers wider
/// than a byte, and lengths: seven bits per byte, the least significant
/// first, with the high bit set on every byte but the last.
pub open spec fn varint(n: nat) -> Seq<u8>
    decreases n,
{
    if n < 128 {
        seq![n as u8]
    } else {
        seq![(n % 128 + 128) as u8] + varint(n / 128)
    }
}

/// A `bool` as `postcard` writes it: one byte, 1 or 0.
pub open spec fn bool_byte(b: bool) -> u8 {
    if b {
        1
    } else {
        0
    }
}

/// A string as `postcard` writes it: its UTF-8 length as a varint, then its
/// UTF-8 bytes.
pub open spec fn postcard_str(text: Seq<char>) -> Seq<u8> {
    varint(encode_utf8(text).len()) + encode_utf8(text)
}

/// The `postcard` encoding of `(protocol_version, kind, payload)`: the
/// version byte, the kind as a varint, the payload's length as a varint and
/// the payload bytes.
pub open spec fn postcard_envelope_bytes(version: u8, kind: u16, payload: Seq<u8>) -> Seq<u8> {
    seq![version] + varint(kind as nat) + varint(payload.len()) + payload
}

/// What `postcard` decodes from `bytes` as `(u8, u16, Vec<u8>)`, if anything.
pub uninterp spec fn postcard_envelope_fields(bytes: Seq<u8>) -> Option<(u8, u16, Seq<u8>)>;

/// The `postcard` encoding of a deploy request's fields
/// `(rev, dry_run, clean_substituters)`: the string, then the two flags.
pub open spec fn postcard_request_bytes(rev: Seq<char>, dry_run: bool, clean_substituters: bool) -> Seq<u8> {
    postcard_str(rev) + seq![bool_byte(dry_run), bool_byte(clean_substituters)]
}

/// What `postcard` decodes from `bytes` as `(String, bool, bool)`, if anything.
pub uninterp spec fn postcard_request_fields(bytes: Seq<u8>) -> Option<(Seq<char>, bool, bool)>;

/// The `postcard` encoding of a deploy acceptance's one field, `message`.
pub open spec fn postcard_accepted_bytes(message: Seq<char>) -> Seq<u8> {
    postcard_str(message)
}

/// What `postcard` decodes from `bytes` as `(String,)`, if anything.
pub uninterp spec fn postcard_accepted_fields(bytes: Seq<u8>) -> Option<Seq<char>>;

/// Calls `postcard::to_stdvec` on `(version, kind, payload)`. It succeeds:
/// the vector flavor's pushes never fail and every length is known. The bytes
/// are that tuple's encoding as written out above, and decoding them as the
/// same tuple type gives the tuple back.
#[verifier::external_body]
pub(crate) fn encode_envelope_fields(version: u8, kind: u16, payload: &[u8]) -> (bytes: Result<Vec<u8>, postcard::Error>)
    ensures
        bytes is Ok,
        bytes matches Ok(b) ==> b@ == postcard_envelope_bytes(version, kind, payload@),
        bytes matches Ok(b) ==> postcard_envelope_fields(b@) == Some((version, kind, payload@)),
{
    postcard::to_stdvec(&(version, kind, payload))
}

/// Calls `postcard::from_bytes` for `(u8, u16, Vec<u8>)`: the outcome is what
/// `postcard` decodes from the bytes (bytes after the tuple are ignored).
#[verifier::external_body]
pub(crate) fn decode_envelope_fields(bytes: &[u8]) -> (fields: Result<(u8, u16, Vec<u8>), postcard::Error>)
    ensures
        fields is Ok || postcard_envelope_fields(bytes@) is None,
        fields matches Ok((v, k, p)) ==> postcard_envelope_fields(bytes@) == Some((v, k, p@)),
{
    postcard::from_bytes::<(u8, u16, Vec<u8>)>(bytes)
}

/// Calls `postcard::to_stdvec` on `(rev, dry_run, clean_substituters)`. It
/// succeeds: the vector flavor's pushes never fail and every length is known.
/// The bytes are that tuple's encoding as written out above, and decoding
/// them as the same tuple type gives the tuple back.
#[verifier::external_body]
pub(crate) fn encode_request_fields(rev: &str, dry_run: bool, clean_substituters: bool) -> (bytes: Result<Vec<u8>, postcard::Error>)
    ensures
        bytes is Ok,
        bytes matches Ok(b) ==> b@ == postcard_request_bytes(rev@, dry_run, clean_substituters),
        bytes matches Ok(b) ==> postcard_request_fields(b@) == Some((rev@, dry_run, clean_substituters)),
{
    postcard::to_stdvec(&(rev, dry_run, clean_substituters))
}

/// Calls `postcard::from_bytes` for `(String, bool, bool)`: the outcome is
/// what `postcard` decodes from the bytes.
#[verifier::external_body]
pub(crate) fn decode_request_fields(bytes: &[u8]) -> (fields: Result<(String, bool, bool), postcard::Error>)
    ensures
        fields is Ok || postcard_request_fields(bytes@) is None,
        fields matches Ok((r, d, c)) ==> postcard_request_fields(bytes@) == Some((r@, d, c)),
{
    postcard::from_bytes::<(String, bool, bool)>(bytes)
}

/// Calls `postcard::to_stdvec` on `(message,)`. It succeeds: the vector
/// flavor's pushes never fail and every length is known. The bytes are that
/// tuple's encoding as written out above, and decoding them as the same tuple
/// type gives the message back.
#[verifier::external_body]
pub(crate) fn encode_accepted_fields(message: &str) -> (bytes: Result<Vec<u8>, postcard::Error>)
    ensures
        bytes is Ok,
        bytes matches Ok(b) ==> b@ == postcard_accepted_bytes(message@),
        bytes matches Ok(b) ==> postcard_accepted_fields(b@) == Some(message@),
{
    postcard::to_stdvec(&(message,))
}

/// Calls `postcard::from_bytes` for `(String,)`: the outcome is what
/// `postcard` decodes from the bytes.
#[verifier::external_body]
pub(crate) fn decode_accepted_fields(bytes: &[u8]) -> (decoded: Result<String, postcard::Error>)
    ensures
        decoded is Ok || postcard_accepted_fields(bytes@) is None,
        decoded matches Ok(text) ==> postcard_accepted_fields(bytes@) == Some(text@),
{
    postcard::from_bytes::<(String,)>(bytes).map(|fields| fields.0)
}

} // verus!
