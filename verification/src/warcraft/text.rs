//! NUL-terminated UTF-8 strings inside a packet.

use vstd::prelude::*;
use vstd::string::StringSliceAdditionalSpecFns;
use vstd::utf8::decode_utf8;
use vstd::utf8::decode_utf8_encode_utf8;
use vstd::utf8::encode_scalar;
use vstd::utf8::encode_utf8;
use vstd::utf8::encode_utf8_decode_utf8;
use vstd::utf8::valid_utf8;

verus! {

/// Where the first zero byte at or after `start` stands; the length of `bytes`
/// when there is none.
pub open spec fn nul_index(bytes: Seq<u8>, start: int) -> int
    decreases bytes.len() - start,
{
    if start < 0 || start >= bytes.len() {
        bytes.len() as int
    } else if bytes[start] == 0 {
        start
    } else {
        nul_index(bytes, start + 1)
    }
}

/// `end` is the first zero byte of `bytes` at or after `start`.
pub open spec fn is_first_nul(bytes: Seq<u8>, start: int, end: int) -> bool {
    &&& 0 <= start <= end < bytes.len()
    &&& bytes[end] == 0
    &&& forall|j: int| start <= j < end ==> bytes[j] != 0
}

/// No byte of `bytes` from `start` on is zero.
pub open spec fn has_no_nul_from(bytes: Seq<u8>, start: int) -> bool {
    forall|j: int| start <= j < bytes.len() ==> bytes[j] != 0
}

/// No character of `text` is NUL.
pub open spec fn has_no_nul_char(text: Seq<char>) -> bool {
    forall|i: int| 0 <= i < text.len() ==> text[i] != '\0'
}

/// `nul_index` finds the first zero byte when there is one, and runs to the
/// end when there is none.
pub proof fn lemma_nul_index(bytes: Seq<u8>, start: int)
    requires
        0 <= start <= bytes.len(),
    ensures
        start <= nul_index(bytes, start) <= bytes.len(),
        nul_index(bytes, start) < bytes.len() ==> is_first_nul(
            bytes,
            start,
            nul_index(bytes, start),
        ),
        nul_index(bytes, start) == bytes.len() ==> has_no_nul_from(bytes, start),
    decreases bytes.len() - start,
{
    if start < bytes.len() && bytes[start] != 0 {
        lemma_nul_index(bytes, start + 1);
    }
}

/// The first zero byte is the one `nul_index` names.
pub proof fn lemma_first_nul_is_nul_index(bytes: Seq<u8>, start: int, end: int)
    requires
        is_first_nul(bytes, start, end),
    ensures
        nul_index(bytes, start) == end,
    decreases end - start,
{
    if start < end {
        lemma_first_nul_is_nul_index(bytes, start + 1, end);
    }
}

/// The first zero byte is found from the bytes up to it alone: a buffer that
/// agrees with `a` from `start` up to the first zero byte of `a` has its own
/// first zero byte at the same place.
pub proof fn lemma_nul_index_of_agreeing(a: Seq<u8>, b: Seq<u8>, start: int)
    requires
        0 <= start,
        nul_index(a, start) < a.len(),
        nul_index(a, start) < b.len(),
        forall|j: int| start <= j <= nul_index(a, start) ==> a[j] == b[j],
    ensures
        nul_index(b, start) == nul_index(a, start),
{
    lemma_nul_index(a, start);
    lemma_first_nul_is_nul_index(b, start, nul_index(a, start));
}

/// The first zero byte of a buffer from `start` on is the first zero byte of
/// what the buffer holds from `start` on.
pub proof fn lemma_nul_index_of_tail(bytes: Seq<u8>, start: int)
    requires
        0 <= start <= bytes.len(),
    ensures
        nul_index(bytes, start) == start + nul_index(
            bytes.subrange(start, bytes.len() as int),
            0,
        ),
{
    let tail = bytes.subrange(start, bytes.len() as int);
    let end = nul_index(tail, 0);
    lemma_nul_index(tail, 0);
    lemma_nul_index(bytes, start);
    if end < tail.len() {
        assert forall|j: int| start <= j < start + end implies bytes[j] != 0 by {
            assert(bytes[j] == tail[j - start]);
        }
        assert(bytes[start + end] == tail[end]);
        lemma_first_nul_is_nul_index(bytes, start, start + end);
    } else if nul_index(bytes, start) < bytes.len() {
        assert(tail[nul_index(bytes, start) - start] == 0);
    }
}

/// Only NUL is written with a zero byte: the encoding of a character holds a
/// zero byte exactly when the character is NUL.
proof fn lemma_zero_byte_of_scalar(c: char)
    ensures
        encode_scalar(c as u32).len() >= 1,
        c == '\0' ==> encode_scalar(c as u32)[0] == 0,
        c != '\0' ==> has_no_nul_from(encode_scalar(c as u32), 0),
{
    let v = c as u32;
    assert(v <= 0x7f ==> ((v & 0x7f) as u8 == 0 <==> v == 0)) by (bit_vector);
    assert(0xc0u8 | ((v >> 6) & 0x1f) as u8 != 0) by (bit_vector);
    assert(0xe0u8 | ((v >> 12) & 0x0f) as u8 != 0) by (bit_vector);
    assert(0xf0u8 | ((v >> 18) & 0x7) as u8 != 0) by (bit_vector);
    assert(0x80u8 | (v & 0x3f) as u8 != 0) by (bit_vector);
    assert(0x80u8 | ((v >> 6) & 0x3f) as u8 != 0) by (bit_vector);
    assert(0x80u8 | ((v >> 12) & 0x3f) as u8 != 0) by (bit_vector);
}

/// A text holds no NUL exactly when its UTF-8 bytes hold no zero byte.
pub proof fn lemma_nul_char_is_zero_byte(text: Seq<char>)
    ensures
        has_no_nul_char(text) <==> has_no_nul_from(encode_utf8(text), 0),
    decreases text.len(),
{
    if text.len() > 0 {
        let head = encode_scalar(text[0] as u32);
        let rest = text.drop_first();
        let tail = encode_utf8(rest);
        lemma_zero_byte_of_scalar(text[0]);
        lemma_nul_char_is_zero_byte(rest);
        assert(encode_utf8(text) == head + tail);
        if has_no_nul_char(text) {
            assert forall|i: int| 0 <= i < rest.len() implies rest[i] != '\0' by {
                assert(rest[i] == text[i + 1]);
            }
            assert forall|j: int| 0 <= j < (head + tail).len() implies (head + tail)[j] != 0 by {
                if j >= head.len() {
                    assert((head + tail)[j] == tail[j - head.len()]);
                }
            }
        }
        if has_no_nul_from(head + tail, 0) {
            assert((head + tail)[0] == head[0]);
            assert forall|j: int| 0 <= j < tail.len() implies tail[j] != 0 by {
                assert(tail[j] == (head + tail)[j + head.len()]);
            }
            assert forall|i: int| 0 <= i < text.len() implies text[i] != '\0' by {
                if i > 0 {
                    assert(text[i] == rest[i - 1]);
                }
            }
        }
    }
}

/// The text of the NUL-terminated string that `bytes` begins with: the bytes
/// before the first zero byte, read as UTF-8. There is none when no zero byte
/// ends the string or when those bytes are not well-formed UTF-8.
pub open spec fn c_string(bytes: Seq<u8>) -> Option<Seq<char>> {
    let end = nul_index(bytes, 0);
    if end < bytes.len() && valid_utf8(bytes.subrange(0, end)) {
        Some(decode_utf8(bytes.subrange(0, end)))
    } else {
        None
    }
}

/// The text of a NUL-terminated string holds no NUL, and as UTF-8 it is the
/// bytes before the terminator.
pub proof fn lemma_c_string_holds_no_nul(bytes: Seq<u8>)
    requires
        c_string(bytes) is Some,
    ensures
        has_no_nul_char(c_string(bytes)->Some_0),
        encode_utf8(c_string(bytes)->Some_0) == bytes.subrange(0, nul_index(bytes, 0)),
{
    let end = nul_index(bytes, 0);
    let text = c_string(bytes)->Some_0;
    lemma_nul_index(bytes, 0);
    decode_utf8_encode_utf8(bytes.subrange(0, end));
    lemma_nul_char_is_zero_byte(text);
}

/// A NUL-terminated string is read from the bytes up to its terminator alone.
pub proof fn lemma_c_string_of_agreeing(a: Seq<u8>, b: Seq<u8>)
    requires
        nul_index(a, 0) < a.len(),
        nul_index(a, 0) < b.len(),
        forall|j: int| 0 <= j <= nul_index(a, 0) ==> a[j] == b[j],
    ensures
        c_string(b) == c_string(a),
{
    lemma_nul_index(a, 0);
    lemma_nul_index_of_agreeing(a, b, 0);
    assert(b.subrange(0, nul_index(a, 0)) =~= a.subrange(0, nul_index(a, 0)));
}

/// Finds the first zero byte at or after `start`.
pub fn find_nul(bytes: &[u8], start: usize) -> (end: usize)
    requires
        start <= bytes@.len(),
    ensures
        end == nul_index(bytes@, start as int),
        start <= end <= bytes@.len(),
{
    let mut end: usize = start;
    while end < bytes.len() && bytes[end] != 0
        invariant
            start <= end <= bytes@.len(),
            nul_index(bytes@, start as int) == nul_index(bytes@, end as int),
        decreases bytes@.len() - end,
    {
        end += 1;
    }
    end
}

/// `core::str::from_utf8`: it accepts a byte slice exactly when the bytes are
/// well-formed UTF-8, and the text it then returns is made of those very
/// bytes.
#[verifier::external_body]
fn utf8_text(bytes: &[u8]) -> (text: Option<&str>)
    ensures
        text is Some <==> valid_utf8(bytes@),
        text matches Some(s) ==> s.spec_bytes() == bytes@,
{
    match core::str::from_utf8(bytes) {
        Ok(s) => Some(s),
        Err(_) => None,
    }
}

/// Whether no character of `text` is NUL.
pub fn holds_no_nul(text: &str) -> (ok: bool)
    ensures
        ok == has_no_nul_char(text@),
{
    let bytes = text.as_bytes();
    let end = find_nul(bytes, 0);
    proof {
        lemma_nul_index(bytes@, 0);
        lemma_nul_char_is_zero_byte(text@);
    }
    end == bytes.len()
}

/// Reads the NUL-terminated UTF-8 string that `response` begins with.
pub fn extract_string(response: &[u8]) -> (text: Option<String>)
    ensures
        text is Some <==> c_string(response@) is Some,
        text matches Some(s) ==> c_string(response@) == Some(s@),
{
    let end = find_nul(response, 0);
    if end >= response.len() {
        return None;
    }
    match utf8_text(&response[0..end]) {
        Some(s) => {
            proof {
                encode_utf8_decode_utf8(s@);
            }
            Some(s.to_owned())
        },
        None => None,
    }
}

} // verus!
