//! The message data model: a timestamped unit of content.
//!
//! Content travels over the native transport in a fixed 256-byte buffer that
//! ends at the first zero byte, so valid content is at most 255 bytes of
//! UTF-8 with no embedded zero byte. Both backends enforce the same ceiling
//! so that they behave alike.

use vstd::prelude::*;
use vstd::utf8::{encode_utf8, valid_utf8};

verus! {

/// Capacity of the native transport's fixed message buffer, in bytes.
pub const BUFFER_SIZE: usize = 256;

/// Largest number of content bytes a message may carry: one byte of the
/// fixed buffer is reserved for the terminator.
pub const MAX_CONTENT_BYTES: usize = 255;

/// The byte sequences the transports accept as message content: at most
/// [`MAX_CONTENT_BYTES`] long, with no embedded zero byte (the wire format's
/// terminator).
pub open spec fn content_bytes_valid(bytes: Seq<u8>) -> bool {
    &&& bytes.len() <= MAX_CONTENT_BYTES
    &&& forall|i: int| 0 <= i < bytes.len() ==> bytes[i] != 0u8
}

/// Mathematical model of a [`DDSMessage`]: its content as a character
/// sequence and its timestamp in whole seconds.
pub struct MsgView {
    pub content: Seq<char>,
    pub timestamp: int,
}

/// Whether a message (by its model) may be carried by either backend.
pub open spec fn msg_valid(m: MsgView) -> bool {
    content_bytes_valid(encode_utf8(m.content))
}

/// A timestamped unit of message content.
#[derive(Debug)]
pub struct DDSMessage {
    pub content: String,
    /// Seconds since the Unix epoch, assigned when the message is built.
    pub timestamp: i64,
}

impl View for DDSMessage {
    type V = MsgView;

    open spec fn view(&self) -> MsgView {
        MsgView { content: self.content@, timestamp: self.timestamp as int }
    }
}

impl DDSMessage {
    /// Builds a message carrying `content`, stamped with the given time.
    pub fn with_timestamp(content: String, timestamp: i64) -> (r: Self)
        ensures
            r@.content == content@,
            r@.timestamp == timestamp as int,
    {
        DDSMessage { content, timestamp }
    }

    /// Builds a message carrying `content`, stamped with the current time.
    pub fn new(content: String) -> (r: Self)
        ensures
            r@.content == content@,
    {
        let timestamp = now_timestamp();
        DDSMessage { content, timestamp }
    }

    /// An exact copy; the queues store one copy per insertion.
    pub fn duplicate(&self) -> (r: Self)
        ensures
            r@ == self@,
    {
        DDSMessage { content: self.content.clone(), timestamp: self.timestamp }
    }
}

/// Whether a string is acceptable message content, by the rule of
/// [`content_bytes_valid`].
pub fn content_valid(content: &str) -> (r: bool)
    ensures
        r == content_bytes_valid(encode_utf8(content@)),
{
    let bytes: &[u8] = content.as_bytes();
    if bytes.len() > MAX_CONTENT_BYTES {
        return false;
    }
    let n = bytes.len();
    let mut i: usize = 0;
    while i < n
        invariant
            n == bytes@.len(),
            0 <= i <= n,
            bytes@ == encode_utf8(content@),
            forall|j: int| 0 <= j < i ==> bytes@[j] != 0u8,
        decreases n - i,
    {
        if bytes[i] == 0 {
            return false;
        }
        i += 1;
    }
    true
}

/// The views of a sequence of messages, element for element.
pub open spec fn views_of(s: Seq<DDSMessage>) -> Seq<MsgView> {
    Seq::new(s.len(), |i: int| s[i]@)
}

/// Relies on `std::time::SystemTime::now`: the current wall-clock time,
/// reduced to whole seconds since the Unix epoch. A clock set before the
/// epoch reads as zero rather than aborting (the date library's own "now"
/// panics on such a clock), and a reading too large for the result type
/// saturates. Nothing can be promised of a clock reading.
#[verifier::external_body]
pub(crate) fn now_timestamp() -> i64 {
    match std::time::SystemTime::now().duration_since(std::time::UNIX_EPOCH) {
        Ok(since_epoch) => i64::try_from(since_epoch.as_secs()).unwrap_or(i64::MAX),
        Err(_) => 0,
    }
}

/// Whether a seconds-since-epoch value lies in the range the date library
/// can represent.
pub uninterp spec fn timestamp_in_chrono_range(secs: int) -> bool;

/// Relies on `chrono::DateTime::from_timestamp`: it returns `Some` exactly
/// when the seconds value is in range, and that depends on the value alone.
#[verifier::external_body]
pub(crate) fn timestamp_representable(secs: i64) -> (r: bool)
    ensures
        r == timestamp_in_chrono_range(secs as int),
{
    chrono::DateTime::from_timestamp(secs, 0).is_some()
}

/// Relies on `String::from_utf8`: it succeeds exactly on valid UTF-8 input,
/// and the returned string holds those same bytes.
#[verifier::external_body]
pub(crate) fn string_from_utf8(bytes: Vec<u8>) -> (r: Option<String>)
    ensures
        r is Some <==> valid_utf8(bytes@),
        r matches Some(s) ==> encode_utf8(s@) == bytes@,
{
    String::from_utf8(bytes).ok()
}

} // verus!
