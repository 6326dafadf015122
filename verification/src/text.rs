//! Text buffers exchanged with the player: bounded, zero-terminated, expected to be UTF-8.

use crate::error::{ErrorKind, Failure, NowPlayingError};
use vstd::prelude::*;
use vstd::utf8::*;

verus! {

/// Capacity, in bytes, of every text buffer exchanged with the player, terminator included.
pub const BUFFER_CAPACITY: usize = 256;

/// Number of bytes in front of the first zero byte of `bytes`; all of them where none is zero.
pub open spec fn text_len(bytes: Seq<u8>) -> int {
    match bytes.index_of_first(0u8) {
        Some(at) => at,
        None => bytes.len() as int,
    }
}

/// The part of a buffer that can hold text: its first `BUFFER_CAPACITY - 1` bytes, so that
/// within the capacity a byte is left for the terminator.
pub open spec fn bounded(buffer: Seq<u8>) -> Seq<u8> {
    if buffer.len() < BUFFER_CAPACITY {
        buffer
    } else {
        buffer.take(BUFFER_CAPACITY - 1)
    }
}

/// The text that a buffer holds: the bytes of its bounded part in front of the first zero byte.
pub open spec fn buffer_text(buffer: Seq<u8>) -> Seq<u8> {
    bounded(buffer).take(text_len(bounded(buffer)))
}

/// `n` is the length of the text in `bytes`: no zero byte in front of it, and a zero byte
/// or the end of `bytes` at it.
pub open spec fn ends_text_at(bytes: Seq<u8>, n: int) -> bool {
    &&& 0 <= n <= bytes.len()
    &&& forall|i: int| 0 <= i < n ==> bytes[i] != 0
    &&& n < bytes.len() ==> bytes[n] == 0
}

/// `text_len` is the one position at which the text of `bytes` ends.
pub proof fn lemma_text_len_unique(bytes: Seq<u8>, n: int)
    requires
        ends_text_at(bytes, n),
    ensures
        text_len(bytes) == n,
{
    bytes.index_of_first_ensures(0u8);
    if bytes.index_of_first(0u8) is None {
        if n < bytes.len() {
            assert(bytes.contains(0u8));
        }
    }
}

/// The text of a buffer is a beginning of the buffer that is shorter than the capacity and
/// holds no zero byte; it ends in front of a zero byte or where the bounded part ends.
pub proof fn buffer_text_is_bounded(buffer: Seq<u8>)
    ensures
        buffer_text(buffer).len() < BUFFER_CAPACITY,
        buffer_text(buffer).len() <= buffer.len(),
        buffer_text(buffer) == buffer.take(buffer_text(buffer).len() as int),
        forall|i: int| 0 <= i < buffer_text(buffer).len() ==> buffer_text(buffer)[i] != 0,
        buffer_text(buffer).len() < bounded(buffer).len() ==> buffer[buffer_text(buffer).len() as int]
            == 0,
{
    let part = bounded(buffer);
    part.index_of_first_ensures(0u8);
    let n = text_len(part);
    assert(0 <= n <= part.len());
    assert(part.take(n) =~= buffer.take(n));
}

/// Counts the bytes in front of the first zero byte.
pub fn leading_text_len(bytes: &[u8]) -> (n: usize)
    ensures
        n == text_len(bytes@),
{
    let mut i: usize = 0;
    while i < bytes.len() && bytes[i] != 0
        invariant
            0 <= i <= bytes.len(),
            forall|j: int| 0 <= j < i ==> bytes@[j] != 0,
        decreases bytes.len() - i,
    {
        i += 1;
    }
    proof {
        lemma_text_len_unique(bytes@, i as int);
    }
    i
}

/// Copies out the text that a buffer holds.
pub fn text_of_buffer(buffer: &[u8]) -> (text: Vec<u8>)
    ensures
        text@ == buffer_text(buffer@),
        text.len() < BUFFER_CAPACITY,
{
    let limit: usize = if buffer.len() < BUFFER_CAPACITY {
        buffer.len()
    } else {
        BUFFER_CAPACITY - 1
    };
    let ghost part = bounded(buffer@);
    let mut text: Vec<u8> = Vec::new();
    let mut i: usize = 0;
    while i < limit && buffer[i] != 0
        invariant
            0 <= i <= limit,
            limit == part.len(),
            limit <= buffer.len(),
            part == bounded(buffer@),
            forall|j: int| 0 <= j < limit ==> part[j] == buffer@[j],
            forall|j: int| 0 <= j < i ==> part[j] != 0,
            text@ == part.take(i as int),
        decreases limit - i,
    {
        text.push(buffer[i]);
        assert(text@ == part.take(i + 1));
        i += 1;
    }
    proof {
        lemma_text_len_unique(part, i as int);
        buffer_text_is_bounded(buffer@);
    }
    text
}

/// The message with which the standard library's UTF-8 check turns down `bytes`.
pub uninterp spec fn utf8_failure_text(bytes: Seq<u8>) -> Seq<char>;

/// What decoding a buffer gives: the characters that its text encodes, or the encoding
/// failure where the text is not UTF-8.
pub open spec fn decoded(buffer: Seq<u8>) -> Result<Seq<char>, Failure> {
    let text = buffer_text(buffer);
    if valid_utf8(text) {
        Ok(decode_utf8(text))
    } else {
        Err(Failure { kind: ErrorKind::Encoding, message: utf8_failure_text(text) })
    }
}

/// A decoded text encodes to the very bytes that the buffer holds as its text: it fits the
/// capacity with room for the terminator, and holds no zero byte.
pub proof fn decoded_text_fits(buffer: Seq<u8>)
    ensures
        decoded(buffer) matches Ok(text) ==> {
            &&& encode_utf8(text) == buffer_text(buffer)
            &&& encode_utf8(text).len() < BUFFER_CAPACITY
            &&& !encode_utf8(text).contains(0u8)
        },
{
    broadcast use decode_utf8_encode_utf8;

    buffer_text_is_bounded(buffer);
}

/// A rendered text or a failure, as a mathematical value.
pub open spec fn outcome_view(outcome: Result<String, NowPlayingError>) -> Result<
    Seq<char>,
    Failure,
> {
    match outcome {
        Ok(text) => Ok(text@),
        Err(error) => Err(error@),
    }
}

/// Calls `std::str::from_utf8` and makes an owned value of either result. Trusted: the call
/// succeeds exactly on well-formed UTF-8 and then gives the characters that the bytes
/// encode; otherwise it gives the text that `Utf8Error` displays, which depends on the
/// bytes alone.
#[verifier::external_body]
fn string_from_utf8(bytes: &[u8]) -> (converted: Result<String, String>)
    ensures
        converted is Ok <==> valid_utf8(bytes@),
        converted matches Ok(text) ==> text@ == decode_utf8(bytes@),
        converted matches Err(reason) ==> reason@ == utf8_failure_text(bytes@),
{
    match std::str::from_utf8(bytes) {
        Ok(text) => Ok(String::from(text)),
        Err(error) => Err(format!("{}", error)),
    }
}

/// Decodes the text that a buffer holds.
///
/// Fails with an encoding error exactly when the bytes in front of the terminator are not
/// well-formed UTF-8.
pub fn decode_buffer(buffer: &[u8]) -> (outcome: Result<String, NowPlayingError>)
    ensures
        outcome_view(outcome) == decoded(buffer@),
{
    let text = text_of_buffer(buffer);
    match string_from_utf8(text.as_slice()) {
        Ok(text) => Ok(text),
        Err(reason) => Err(NowPlayingError::encoding(reason)),
    }
}

} // verus!
