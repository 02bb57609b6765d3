//! The fixed-size wire codec of the native transport.
//!
//! The native service carries each message in a buffer of [`BUFFER_SIZE`]
//! bytes: the content's UTF-8 bytes, then a zero terminator, then zero
//! padding. Encoding rejects content that does not fit or embeds the
//! terminator; decoding reads up to the first zero byte and yields nothing
//! when those bytes are not valid UTF-8 (a lossy, by-design policy: a
//! malformed buffer counts as "no message").

use vstd::prelude::*;
use vstd::utf8::{decode_utf8, encode_utf8, encode_utf8_decode_utf8, encode_utf8_valid_utf8,
    valid_utf8};
use crate::message::{content_bytes_valid, now_timestamp, string_from_utf8,
    timestamp_in_chrono_range, timestamp_representable, DDSMessage, BUFFER_SIZE,
    MAX_CONTENT_BYTES};
use crate::DdsError;

verus! {

/// The wire image of content whose UTF-8 bytes fit the buffer: the bytes,
/// padded with zeros to [`BUFFER_SIZE`].
pub open spec fn encoded_buffer(content: Seq<char>) -> Seq<u8> {
    encode_utf8(content) + Seq::new((BUFFER_SIZE - encode_utf8(content).len()) as nat, |i: int| 0u8)
}

/// Index of the first zero byte, or the length when there is none.
pub open spec fn first_zero(bytes: Seq<u8>) -> int
    decreases bytes.len(),
{
    if bytes.len() == 0 {
        0
    } else if bytes[0] == 0u8 {
        0
    } else {
        1 + first_zero(bytes.drop_first())
    }
}

/// The content bytes of a received buffer: everything before the first zero.
pub open spec fn wire_prefix(bytes: Seq<u8>) -> Seq<u8> {
    bytes.subrange(0, first_zero(bytes))
}

/// A position whose byte is zero, with no zero before it, is `first_zero`.
pub proof fn lemma_first_zero_at(bytes: Seq<u8>, k: int)
    requires
        0 <= k <= bytes.len(),
        forall|i: int| 0 <= i < k ==> bytes[i] != 0u8,
        k < bytes.len() ==> bytes[k] == 0u8,
    ensures
        first_zero(bytes) == k,
    decreases bytes.len(),
{
    if bytes.len() == 0 {
    } else if k == 0 {
    } else {
        assert forall|i: int| 0 <= i < k - 1 implies bytes.drop_first()[i] != 0u8 by {
            assert(bytes.drop_first()[i] == bytes[i + 1]);
        }
        if k < bytes.len() {
            assert(bytes.drop_first()[k - 1] == bytes[k]);
        }
        lemma_first_zero_at(bytes.drop_first(), k - 1);
    }
}

/// Encodes message content into the fixed wire buffer.
///
/// Succeeds exactly on valid content: at most [`MAX_CONTENT_BYTES`] bytes of
/// UTF-8 with no embedded zero byte. Longer content is rejected, never
/// truncated.
pub fn encode_content(content: &str) -> (r: Result<Vec<u8>, DdsError>)
    ensures
        r is Ok <==> content_bytes_valid(encode_utf8(content@)),
        r matches Ok(buf) ==> buf@ == encoded_buffer(content@),
        r matches Err(e) ==> e == DdsError::Serialization,
{
    let bytes: &[u8] = content.as_bytes();
    if bytes.len() > MAX_CONTENT_BYTES {
        return Err(DdsError::Serialization);
    }
    let n = bytes.len();
    let mut buf: Vec<u8> = Vec::with_capacity(BUFFER_SIZE);
    let mut i: usize = 0;
    while i < n
        invariant
            n == bytes@.len() <= MAX_CONTENT_BYTES,
            bytes@ == encode_utf8(content@),
            0 <= i <= n,
            buf@ == bytes@.subrange(0, i as int),
            forall|j: int| 0 <= j < i ==> bytes@[j] != 0u8,
        decreases n - i,
    {
        let b = bytes[i];
        if b == 0 {
            return Err(DdsError::Serialization);
        }
        buf.push(b);
        assert(buf@ =~= bytes@.subrange(0, i + 1));
        i += 1;
    }
    assert(buf@ =~= bytes@);
    while buf.len() < BUFFER_SIZE
        invariant
            bytes@.len() <= buf@.len() <= BUFFER_SIZE,
            buf@.subrange(0, bytes@.len() as int) == bytes@,
            forall|j: int| bytes@.len() <= j < buf@.len() ==> buf@[j] == 0u8,
        decreases BUFFER_SIZE - buf@.len(),
    {
        buf.push(0);
        assert(buf@.subrange(0, bytes@.len() as int) =~= bytes@);
    }
    assert(buf@ =~= encoded_buffer(content@));
    Ok(buf)
}

/// Decodes a received wire buffer back to text.
///
/// Reads the bytes before the first zero; yields `None` when they are not
/// valid UTF-8.
pub fn decode_content(buf: &[u8]) -> (r: Option<String>)
    ensures
        r is Some <==> valid_utf8(wire_prefix(buf@)),
        r matches Some(s) ==> encode_utf8(s@) == wire_prefix(buf@) && s@ == decode_utf8(
            wire_prefix(buf@),
        ),
{
    let mut k: usize = 0;
    while k < buf.len() && buf[k] != 0
        invariant
            0 <= k <= buf@.len(),
            forall|i: int| 0 <= i < k ==> buf@[i] != 0u8,
        decreases buf@.len() - k,
    {
        k += 1;
    }
    proof {
        lemma_first_zero_at(buf@, k as int);
    }
    let mut prefix: Vec<u8> = Vec::with_capacity(k);
    let mut i: usize = 0;
    while i < k
        invariant
            0 <= i <= k <= buf@.len(),
            prefix@ == buf@.subrange(0, i as int),
        decreases k - i,
    {
        prefix.push(buf[i]);
        assert(prefix@ =~= buf@.subrange(0, i + 1));
        i += 1;
    }
    assert(prefix@ == wire_prefix(buf@));
    match string_from_utf8(prefix) {
        Some(s) => {
            proof {
                encode_utf8_decode_utf8(s@);
            }
            Some(s)
        },
        None => None,
    }
}

/// Decodes a received wire buffer and its timestamp into a message.
///
/// A timestamp outside the representable range of the date library is
/// replaced by the current time; a buffer whose content bytes are not valid
/// UTF-8 yields no message.
pub fn decode_message(buf: &[u8], timestamp: i64) -> (r: Option<DDSMessage>)
    ensures
        r is Some <==> valid_utf8(wire_prefix(buf@)),
        r matches Some(m) ==> m@.content == decode_utf8(wire_prefix(buf@)) && (
        timestamp_in_chrono_range(timestamp as int) ==> m@.timestamp == timestamp as int),
{
    match decode_content(buf) {
        Some(content) => {
            let ts = if timestamp_representable(timestamp) {
                timestamp
            } else {
                now_timestamp()
            };
            Some(DDSMessage::with_timestamp(content, ts))
        },
        None => None,
    }
}

/// Maps the native create call's outcome: a null handle means the transport
/// could not be initialized — the failure the selector catches to fall back
/// on the mock.
pub fn map_create_outcome(handle_is_null: bool) -> (r: Result<(), DdsError>)
    ensures
        r is Ok <==> !handle_is_null,
        r matches Err(e) ==> e == DdsError::Initialization,
{
    if handle_is_null {
        Err(DdsError::Initialization)
    } else {
        Ok(())
    }
}

/// Maps the native publish call's status code: zero is success, anything
/// else a transport error.
pub fn map_publish_status(status: i32) -> (r: Result<(), DdsError>)
    ensures
        r is Ok <==> status == 0,
        r matches Err(e) ==> e == DdsError::Transport,
{
    if status == 0 {
        Ok(())
    } else {
        Err(DdsError::Transport)
    }
}

/// Valid content round-trips through the wire codec exactly: the encoded
/// buffer's terminated prefix is the content's own bytes, those bytes are
/// valid UTF-8, and decoding them yields the identical character sequence.
pub proof fn lemma_codec_round_trip(content: Seq<char>)
    requires
        content_bytes_valid(encode_utf8(content)),
    ensures
        wire_prefix(encoded_buffer(content)) == encode_utf8(content),
        valid_utf8(wire_prefix(encoded_buffer(content))),
        decode_utf8(wire_prefix(encoded_buffer(content))) == content,
{
    let eb = encode_utf8(content);
    let buf = encoded_buffer(content);
    assert(buf.len() == BUFFER_SIZE);
    assert(buf[eb.len() as int] == 0u8);
    lemma_first_zero_at(buf, eb.len() as int);
    assert(wire_prefix(buf) =~= eb);
    encode_utf8_valid_utf8(content);
    encode_utf8_decode_utf8(content);
}

} // verus!
