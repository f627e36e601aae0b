//! Text handling on UTF-8 byte offsets: slicing between character
//! boundaries, trimming, and reading decimal digits.

use vstd::prelude::*;
use vstd::utf8::*;

verus! {

/// True when `(start, end)` is a range of whole characters inside the UTF-8
/// encoding of `text`.
pub open spec fn is_char_range(text: Seq<char>, start: usize, end: usize) -> bool {
    let bytes = encode_utf8(text);
    &&& start <= end <= bytes.len()
    &&& is_char_boundary(bytes, start as int)
    &&& is_char_boundary(bytes, end as int)
}

/// The characters that the bytes `start..end` of the UTF-8 encoding of `text`
/// encode.
pub open spec fn byte_slice(text: Seq<char>, start: int, end: int) -> Seq<char> {
    decode_utf8(encode_utf8(text).subrange(start, end))
}

/// A character boundary of a text is also one of each prefix that reaches it.
proof fn lemma_boundary_in_prefix(bytes: Seq<u8>, start: int, end: int)
    requires
        valid_utf8(bytes),
        0 <= start <= end <= bytes.len(),
        is_char_boundary(bytes, start),
        is_char_boundary(bytes, end),
    ensures
        valid_utf8(bytes.subrange(0, end)),
        is_char_boundary(bytes.subrange(0, end), start),
{
    let head = bytes.subrange(0, end);
    valid_utf8_split(bytes, end);
    if start < end {
        is_char_boundary_iff_not_is_continuation_byte(bytes, start);
        is_char_boundary_iff_not_is_continuation_byte(head, start);
    } else {
        is_char_boundary_start_end_of_seq(head);
    }
}

/// The part of `text` that the bytes `start..end` hold, where that is a
/// range of whole characters.
pub open spec fn sliced(text: Seq<char>, start: usize, end: usize) -> Option<Seq<char>> {
    if is_char_range(text, start, end) {
        Some(byte_slice(text, start as int, end as int))
    } else {
        None
    }
}

/// The part of `text` between the byte offsets `start` and `end`; `None`
/// unless they are in order, inside the text and on character boundaries.
pub fn slice<'a>(text: &'a str, start: usize, end: usize) -> (part: Option<&'a str>)
    ensures
        text_view(part) == sliced(text@, start, end),
{
    if start > end || end > text.as_bytes().len() {
        return None;
    }
    if !text.is_char_boundary(start) || !text.is_char_boundary(end) {
        return None;
    }
    proof {
        encode_utf8_valid_utf8(text@);
        lemma_boundary_in_prefix(encode_utf8(text@), start as int, end as int);
    }
    let (head, _) = text.split_at(end);
    let (_, part) = head.split_at(start);
    proof {
        assert(encode_utf8(part@) =~= encode_utf8(text@).subrange(start as int, end as int));
        encode_utf8_decode_utf8(part@);
    }
    Some(part)
}

/// True when `c` is whitespace as `str::trim` understands it: a character
/// that Unicode classifies as `White_Space`.
pub uninterp spec fn is_whitespace(c: char) -> bool;

/// `text` without the whitespace it begins with.
pub open spec fn trim_start(text: Seq<char>) -> Seq<char>
    decreases text.len(),
{
    if text.len() > 0 && is_whitespace(text.first()) {
        trim_start(text.drop_first())
    } else {
        text
    }
}

/// `text` without the whitespace it ends with.
pub open spec fn trim_end(text: Seq<char>) -> Seq<char>
    decreases text.len(),
{
    if text.len() > 0 && is_whitespace(text.last()) {
        trim_end(text.drop_last())
    } else {
        text
    }
}

/// `text` without leading and trailing whitespace.
pub open spec fn trimmed(text: Seq<char>) -> Seq<char> {
    trim_end(trim_start(text))
}

/// Calls `str::trim`.
///
/// Trusted: the result is the text without the whitespace characters at its
/// two ends. That it then neither begins nor ends with one follows from the
/// first clause and is listed for the reader.
#[verifier::external_body]
pub(crate) fn trim(text: &str) -> (inner: &str)
    ensures
        inner@ == trimmed(text@),
        inner@.len() > 0 ==> !is_whitespace(inner@.first()) && !is_whitespace(inner@.last()),
{
    text.trim()
}

/// The view of an optional text.
pub open spec fn text_view(text: Option<&str>) -> Option<Seq<char>> {
    match text {
        Some(t) => Some(t@),
        None => None,
    }
}

/// True for the ASCII digits `0` to `9`.
pub open spec fn is_digit(byte: u8) -> bool {
    0x30 <= byte <= 0x39
}

/// True when every byte is an ASCII digit.
pub open spec fn all_digits(bytes: Seq<u8>) -> bool {
    forall|i: int| 0 <= i < bytes.len() ==> is_digit(#[trigger] bytes[i])
}

/// The number that a run of ASCII digits writes in base ten.
pub open spec fn digits_value(digits: Seq<u8>) -> nat
    decreases digits.len(),
{
    if digits.len() == 0 {
        0
    } else {
        10 * digits_value(digits.drop_last()) + (digits.last() - 0x30) as nat
    }
}

/// The value of a non-empty run of ASCII digits that fits in 32 bits; `None`
/// for anything else.
pub open spec fn decimal(digits: Seq<u8>) -> Option<u32> {
    if digits.len() > 0 && all_digits(digits) && digits_value(digits) <= u32::MAX {
        Some(digits_value(digits) as u32)
    } else {
        None
    }
}

/// A run of digits is worth at least as much as each of its prefixes.
proof fn lemma_prefix_value(digits: Seq<u8>, count: int)
    requires
        all_digits(digits),
        0 <= count <= digits.len(),
    ensures
        digits_value(digits.subrange(0, count)) <= digits_value(digits),
    decreases digits.len() - count,
{
    if count == digits.len() {
        assert(digits.subrange(0, count) =~= digits);
    } else {
        let shorter = digits.drop_last();
        lemma_prefix_value(shorter, count);
        assert(shorter.subrange(0, count) =~= digits.subrange(0, count));
    }
}

/// Reads a run of ASCII digits as an unsigned decimal number.
pub fn parse_decimal(digits: &[u8]) -> (value: Option<u32>)
    ensures
        value == decimal(digits@),
{
    if digits.len() == 0 {
        return None;
    }
    let mut value: u32 = 0;
    let mut i: usize = 0;
    while i < digits.len()
        invariant
            0 <= i <= digits@.len(),
            all_digits(digits@.subrange(0, i as int)),
            value == digits_value(digits@.subrange(0, i as int)),
        decreases digits@.len() - i,
    {
        let byte: u8 = digits[i];
        if byte < 0x30 || byte > 0x39 {
            return None;
        }
        let next: u64 = value as u64 * 10 + (byte - 0x30) as u64;
        proof {
            let seen = digits@.subrange(0, i + 1);
            assert(seen.drop_last() =~= digits@.subrange(0, i as int));
            if all_digits(digits@) {
                lemma_prefix_value(digits@, i + 1);
            }
        }
        if next > u32::MAX as u64 {
            return None;
        }
        value = next as u32;
        i += 1;
    }
    assert(digits@.subrange(0, i as int) =~= digits@);
    Some(value)
}

/// The whitespace at the front of a text is gone after `trim_start`.
proof fn lemma_trim_start_begins_clean(text: Seq<char>)
    ensures
        trim_start(text).len() > 0 ==> !is_whitespace(trim_start(text).first()),
    decreases text.len(),
{
    if text.len() > 0 && is_whitespace(text.first()) {
        lemma_trim_start_begins_clean(text.drop_first());
    }
}

/// `trim_end` leaves no whitespace at the end, and keeps a first character
/// that is no whitespace.
proof fn lemma_trim_end_ends_clean(text: Seq<char>)
    ensures
        trim_end(text).len() > 0 ==> !is_whitespace(trim_end(text).last()),
        text.len() > 0 && !is_whitespace(text.first()) ==> trim_end(text).len() > 0
            && trim_end(text).first() == text.first(),
    decreases text.len(),
{
    if text.len() > 0 && is_whitespace(text.last()) {
        lemma_trim_end_ends_clean(text.drop_last());
    }
}

/// A trimmed text neither begins nor ends with whitespace.
pub proof fn trimmed_has_clean_ends(text: Seq<char>)
    ensures
        trimmed(text).len() > 0 ==> !is_whitespace(trimmed(text).first()) && !is_whitespace(
            trimmed(text).last(),
        ),
{
    lemma_trim_start_begins_clean(text);
    lemma_trim_end_ends_clean(trim_start(text));
}

/// Trimming a trimmed text changes nothing.
pub proof fn trimmed_twice(text: Seq<char>)
    ensures
        trimmed(trimmed(text)) == trimmed(text),
{
    trimmed_has_clean_ends(text);
}

/// Cutting a text at two character boundaries loses nothing: the three parts
/// put together are the text.
pub proof fn byte_slices_partition(text: Seq<char>, start: usize, end: usize)
    requires
        is_char_range(text, start, end),
    ensures
        text == byte_slice(text, 0, start as int) + byte_slice(text, start as int, end as int)
            + byte_slice(text, end as int, encode_utf8(text).len() as int),
{
    let bytes = encode_utf8(text);
    let head = bytes.subrange(0, end as int);
    encode_utf8_valid_utf8(text);
    encode_utf8_decode_utf8(text);
    lemma_boundary_in_prefix(bytes, start as int, end as int);
    decode_utf8_split(bytes, end as int);
    decode_utf8_split(head, start as int);
    assert(head.subrange(0, start as int) =~= bytes.subrange(0, start as int));
    assert(head.subrange(start as int, head.len() as int) =~= bytes.subrange(
        start as int,
        end as int,
    ));
}

/// In a text of ASCII characters a byte offset is a character index: the
/// bytes `start..end` hold the characters `start..end`.
pub proof fn ascii_byte_slice_is_subrange(text: Seq<char>, start: int, end: int)
    requires
        is_ascii_chars(text),
        0 <= start <= end <= text.len(),
    ensures
        byte_slice(text, start, end) == text.subrange(start, end),
{
    let part = text.subrange(start, end);
    is_ascii_chars_encode_utf8(text);
    is_ascii_chars_encode_utf8(part);
    assert(encode_utf8(text).subrange(start, end) =~= encode_utf8(part));
    encode_utf8_decode_utf8(part);
}

} // verus!
