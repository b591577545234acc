//! The payload codec: serializes a clipboard message (text and capture
//! time) to the byte buffer carried on the clipboard characteristic, and
//! parses such a buffer back.
//!
//! The wire encoding is canonical and deterministic, field order content
//! then timestamp: an 8-byte little-endian length prefix holding the
//! byte length of the UTF-8 content, the content bytes, then the
//! timestamp (seconds since the Unix epoch) as 8 little-endian bytes.
//! Whatever `encode` produces, `decode` accepts; both ends of the bridge
//! use this one encoding, the single interoperability surface.

use vstd::bytes::{spec_u64_from_le_bytes, spec_u64_to_le_bytes, u64_from_le_bytes, u64_to_le_bytes};
use vstd::prelude::*;
use vstd::slice::{slice_subrange, slice_to_vec};
use vstd::utf8::{decode_utf8, encode_utf8, valid_utf8};

use crate::errors::DecodeError;

verus! {

/// A clipboard message: the clipboard text and the time it was captured,
/// in seconds since the Unix epoch.  Constructed fresh for every
/// outbound send and never mutated afterwards.
#[derive(Clone, Debug, PartialEq)]
pub struct ClipboardMessage {
    pub content: String,
    pub timestamp: u64,
}

/// The framing around the content bytes: an 8-byte length prefix and an
/// 8-byte timestamp trailer.
pub const FRAME_OVERHEAD: usize = 16;

/// The canonical wire encoding of a message.
pub open spec fn spec_encode(content: Seq<char>, timestamp: u64) -> Seq<u8> {
    spec_u64_to_le_bytes(encode_utf8(content).len() as u64) + encode_utf8(content)
        + spec_u64_to_le_bytes(timestamp)
}

/// What decoding a buffer yields: the content and timestamp of a
/// well-formed buffer, or the exact error kind of a malformed one.
pub open spec fn spec_decode(bytes: Seq<u8>) -> Result<(Seq<char>, u64), DecodeError> {
    if bytes.len() < FRAME_OVERHEAD {
        Err(DecodeError::Truncated)
    } else if spec_u64_from_le_bytes(bytes.subrange(0, 8)) != bytes.len() - FRAME_OVERHEAD {
        Err(DecodeError::LengthMismatch)
    } else if !valid_utf8(bytes.subrange(8, bytes.len() - 8)) {
        Err(DecodeError::InvalidText)
    } else {
        Ok(
            (
                decode_utf8(bytes.subrange(8, bytes.len() - 8)),
                spec_u64_from_le_bytes(bytes.subrange(bytes.len() - 8, bytes.len() as int)),
            ),
        )
    }
}

/// Relies on `std::time::SystemTime::now` and `duration_since`: seconds
/// since the Unix epoch, zero if the host clock reads before the epoch.
/// Nothing is assumed of the value.
#[verifier::external_body]
fn current_unix_seconds() -> u64 {
    match std::time::SystemTime::now().duration_since(std::time::UNIX_EPOCH) {
        Ok(elapsed) => elapsed.as_secs(),
        Err(_) => 0,
    }
}

/// Relies on `String::from_utf8`: it succeeds exactly on valid UTF-8
/// input, and the characters of the result are the UTF-8 decoding of
/// the input bytes.
#[verifier::external_body]
fn string_from_utf8(bytes: Vec<u8>) -> (r: Option<String>)
    ensures
        match r {
            Some(s) => valid_utf8(bytes@) && s@ == decode_utf8(bytes@),
            None => !valid_utf8(bytes@),
        },
{
    String::from_utf8(bytes).ok()
}

/// Serializes clipboard text with the given capture time.
pub fn encode_with_timestamp(content: &str, timestamp: u64) -> (r: Vec<u8>)
    ensures
        r@ == spec_encode(content@, timestamp),
{
    let body: &[u8] = content.as_bytes();
    let length: usize = body.len();
    let mut out: Vec<u8> = u64_to_le_bytes(length as u64);
    let mut content_bytes: Vec<u8> = slice_to_vec(body);
    out.append(&mut content_bytes);
    let mut trailer: Vec<u8> = u64_to_le_bytes(timestamp);
    out.append(&mut trailer);
    proof {
        assert(out@ =~= spec_encode(content@, timestamp));
    }
    out
}

/// Serializes a message.
pub fn encode_message(message: &ClipboardMessage) -> (r: Vec<u8>)
    ensures
        r@ == spec_encode(message.content@, message.timestamp),
{
    encode_with_timestamp(message.content.as_str(), message.timestamp)
}

/// Builds a message from the clipboard text, stamped with the current
/// Unix time, and serializes it.
pub fn encode(content: &str) -> (r: Vec<u8>)
    ensures
        exists|timestamp: u64| r@ == spec_encode(content@, timestamp),
{
    let timestamp = current_unix_seconds();
    let out = encode_with_timestamp(content, timestamp);
    proof {
        assert(out@ == spec_encode(content@, timestamp));
    }
    out
}

/// Parses a wire buffer back into a message.  A truncated or otherwise
/// malformed buffer is reported as the matching [`DecodeError`] kind;
/// nothing partially populated is ever returned.
pub fn decode(bytes: &[u8]) -> (r: Result<ClipboardMessage, DecodeError>)
    ensures
        match r {
            Ok(message) => spec_decode(bytes@) == Ok::<_, DecodeError>(
                (message.content@, message.timestamp),
            ),
            Err(error) => spec_decode(bytes@) == Err::<(Seq<char>, u64), _>(error),
        },
{
    let total = bytes.len();
    if total < FRAME_OVERHEAD {
        return Err(DecodeError::Truncated);
    }
    let declared = u64_from_le_bytes(slice_subrange(bytes, 0, 8));
    if declared != (total - FRAME_OVERHEAD) as u64 {
        return Err(DecodeError::LengthMismatch);
    }
    let content_bytes: Vec<u8> = slice_to_vec(slice_subrange(bytes, 8, total - 8));
    match string_from_utf8(content_bytes) {
        Some(content) => {
            let timestamp = u64_from_le_bytes(slice_subrange(bytes, total - 8, total));
            Ok(ClipboardMessage { content, timestamp })
        },
        None => Err(DecodeError::InvalidText),
    }
}

/// Each scalar encodes to at most four bytes, so the encoding of a text
/// is at most four times its character count.
pub proof fn lemma_encode_utf8_length(chars: Seq<char>)
    ensures
        encode_utf8(chars).len() <= 4 * chars.len(),
    decreases chars.len(),
{
    if chars.len() > 0 {
        lemma_encode_utf8_length(chars.drop_first());
    }
}

/// Law (round trip): decoding a buffer produced by encoding given
/// content with a fixed timestamp yields exactly that content and that
/// timestamp.
pub proof fn lemma_encode_decode(content: Seq<char>, timestamp: u64)
    requires
        encode_utf8(content).len() <= u64::MAX,
    ensures
        spec_decode(spec_encode(content, timestamp)) == Ok::<_, DecodeError>((content, timestamp)),
{
    broadcast use vstd::utf8::encode_utf8_valid_utf8, vstd::utf8::encode_utf8_decode_utf8;

    vstd::bytes::lemma_auto_spec_u64_to_from_le_bytes();
    let bytes = spec_encode(content, timestamp);
    let body = encode_utf8(content);
    assert(bytes.len() == 16 + body.len());
    assert(bytes.subrange(0, 8) =~= spec_u64_to_le_bytes(body.len() as u64));
    assert(bytes.subrange(8, bytes.len() - 8) =~= body);
    assert(bytes.subrange(bytes.len() - 8, bytes.len() as int) =~= spec_u64_to_le_bytes(timestamp));
}

/// Law (only encodings decode): a buffer that decodes is, byte for
/// byte, the encoding of the message it decodes to; every buffer that is
/// not an exact encoding fails.
pub proof fn lemma_decode_encode(bytes: Seq<u8>, content: Seq<char>, timestamp: u64)
    requires
        spec_decode(bytes) == Ok::<_, DecodeError>((content, timestamp)),
    ensures
        bytes == spec_encode(content, timestamp),
{
    broadcast use vstd::utf8::decode_utf8_encode_utf8;

    vstd::bytes::lemma_auto_spec_u64_to_from_le_bytes();
    let body = bytes.subrange(8, bytes.len() - 8);
    assert(encode_utf8(content) == body);
    assert(spec_u64_to_le_bytes(spec_u64_from_le_bytes(bytes.subrange(0, 8))) == bytes.subrange(
        0,
        8,
    ));
    assert(spec_u64_to_le_bytes(
        spec_u64_from_le_bytes(bytes.subrange(bytes.len() - 8, bytes.len() as int)),
    ) == bytes.subrange(bytes.len() - 8, bytes.len() as int));
    assert(bytes =~= spec_encode(content, timestamp));
}

/// Law (truncation): no strict prefix of an encoded buffer decodes;
/// cutting an encoded message anywhere is always reported as an error.
pub proof fn lemma_decode_truncated(content: Seq<char>, timestamp: u64, cut: int)
    requires
        encode_utf8(content).len() <= u64::MAX,
        0 <= cut < spec_encode(content, timestamp).len(),
    ensures
        spec_decode(spec_encode(content, timestamp).subrange(0, cut)) is Err,
{
    vstd::bytes::lemma_auto_spec_u64_to_from_le_bytes();
    let bytes = spec_encode(content, timestamp);
    let body = encode_utf8(content);
    assert(bytes.len() == 16 + body.len());
    let prefix = bytes.subrange(0, cut);
    if cut >= 16 {
        assert(prefix.subrange(0, 8) =~= bytes.subrange(0, 8));
        assert(bytes.subrange(0, 8) =~= spec_u64_to_le_bytes(body.len() as u64));
        assert(spec_u64_from_le_bytes(prefix.subrange(0, 8)) == body.len());
        assert(prefix.len() - 16 < body.len());
    }
}

} // verus!
