//! Bytes in and bytes out: the primitive forms every message is made of, what
//! it means to read one back, and how much of a frame it takes.

use vstd::prelude::*;
use vstd::slice::*;
use vstd::utf8::*;

use crate::error::ProtocolError;
use crate::limits::{MAX_FRAME_LEN, MAX_POST_BODY_LEN, MAX_STRING_LEN};

verus! {

/// What reading yields: the value and the bytes after it, or the refusal.
pub type Parsed<T> = Result<(T, Seq<u8>), ProtocolError>;

// ---------------------------------------------------------------------------
// Concatenation, normalised in either direction.

pub broadcast proof fn lemma_concat_to_the_right(a: Seq<u8>, b: Seq<u8>, c: Seq<u8>)
    ensures
        #[trigger] ((a + b) + c) == a + (b + c),
{
    assert((a + b) + c =~= a + (b + c));
}

pub broadcast proof fn lemma_concat_to_the_left(a: Seq<u8>, b: Seq<u8>, c: Seq<u8>)
    ensures
        #[trigger] (a + (b + c)) == (a + b) + c,
{
    assert((a + b) + c =~= a + (b + c));
}

pub broadcast proof fn lemma_concat_nothing(a: Seq<u8>)
    ensures
        #[trigger] (a + Seq::<u8>::empty()) == a,
{
    assert(a + Seq::<u8>::empty() =~= a);
}

pub broadcast proof fn lemma_nothing_concat(a: Seq<u8>)
    ensures
        #[trigger] (Seq::<u8>::empty() + a) == a,
{
    assert(Seq::<u8>::empty() + a =~= a);
}

// ---------------------------------------------------------------------------
// Integers, most significant byte first.

#[verifier::opaque]
pub open spec fn be16(value: u16) -> Seq<u8> {
    seq![(value / 256) as u8, (value % 256) as u8]
}

#[verifier::opaque]
pub open spec fn be32(value: u32) -> Seq<u8> {
    be16((value / 0x1_0000) as u16) + be16((value % 0x1_0000) as u16)
}

#[verifier::opaque]
pub open spec fn be64(value: u64) -> Seq<u8> {
    be32((value / 0x1_0000_0000) as u32) + be32((value % 0x1_0000_0000) as u32)
}

/// The two's complement bits of a signed word.
pub open spec fn bits_of_i32(value: i32) -> u32 {
    if value >= 0 {
        value as u32
    } else {
        (value + 0x1_0000_0000) as u32
    }
}

pub open spec fn i32_of_bits(bits: u32) -> i32 {
    if bits < 0x8000_0000 {
        bits as i32
    } else {
        (bits - 0x1_0000_0000) as i32
    }
}

/// The two's complement bits of a signed half word.
pub open spec fn bits_of_i16(value: i16) -> u16 {
    if value >= 0 {
        value as u16
    } else {
        (value + 0x1_0000) as u16
    }
}

pub open spec fn i16_of_bits(bits: u16) -> i16 {
    if bits < 0x8000 {
        bits as i16
    } else {
        (bits - 0x1_0000) as i16
    }
}

pub open spec fn flag_byte(flag: bool) -> u8 {
    if flag {
        1
    } else {
        0
    }
}

#[verifier::opaque]
pub open spec fn parse_u8(s: Seq<u8>) -> Parsed<u8> {
    if s.len() < 1 {
        Err(ProtocolError::Truncated)
    } else {
        Ok((s[0], s.skip(1)))
    }
}

#[verifier::opaque]
pub open spec fn parse_u16(s: Seq<u8>) -> Parsed<u16> {
    if s.len() < 2 {
        Err(ProtocolError::Truncated)
    } else {
        Ok(((s[0] * 0x100 + s[1]) as u16, s.skip(2)))
    }
}

#[verifier::opaque]
pub open spec fn parse_u32(s: Seq<u8>) -> Parsed<u32> {
    if s.len() < 4 {
        Err(ProtocolError::Truncated)
    } else {
        Ok(((s[0] * 0x100_0000 + s[1] * 0x1_0000 + s[2] * 0x100 + s[3]) as u32, s.skip(4)))
    }
}

#[verifier::opaque]
pub open spec fn parse_u64(s: Seq<u8>) -> Parsed<u64> {
    if s.len() < 8 {
        Err(ProtocolError::Truncated)
    } else {
        let high = s[0] * 0x100_0000 + s[1] * 0x1_0000 + s[2] * 0x100 + s[3];
        let low = s[4] * 0x100_0000 + s[5] * 0x1_0000 + s[6] * 0x100 + s[7];
        Ok(((high * 0x1_0000_0000 + low) as u64, s.skip(8)))
    }
}

/// A yes or no: any byte but zero and one is refused under `name`.
pub open spec fn parse_flag(s: Seq<u8>, name: &'static str) -> Parsed<bool> {
    match parse_u8(s) {
        Err(e) => Err(e),
        Ok((byte, s)) => if byte == 0 {
            Ok((false, s))
        } else if byte == 1 {
            Ok((true, s))
        } else {
            Err(ProtocolError::InvalidValue(name))
        },
    }
}

/// Exactly `count` bytes.
#[verifier::opaque]
pub open spec fn parse_bytes(s: Seq<u8>, count: int) -> Parsed<Seq<u8>> {
    if s.len() < count {
        Err(ProtocolError::Truncated)
    } else {
        Ok((s.take(count), s.skip(count)))
    }
}

pub broadcast proof fn lemma_be16_len(value: u16)
    ensures
        (#[trigger] be16(value)).len() == 2,
{
    reveal(be16);
}

pub broadcast proof fn lemma_be32_len(value: u32)
    ensures
        (#[trigger] be32(value)).len() == 4,
{
    reveal(be32);
    reveal(be16);
}

pub broadcast proof fn lemma_be64_len(value: u64)
    ensures
        (#[trigger] be64(value)).len() == 8,
{
    reveal(be64);
    reveal(be32);
    reveal(be16);
}

pub broadcast proof fn lemma_parse_u8(value: u8, rest: Seq<u8>)
    ensures
        #[trigger] parse_u8(seq![value] + rest) == Ok::<_, ProtocolError>((value, rest)),
{
    reveal(parse_u8);
    assert((seq![value] + rest).skip(1) =~= rest);
}

pub broadcast proof fn lemma_parse_u16(value: u16, rest: Seq<u8>)
    ensures
        #[trigger] parse_u16(be16(value) + rest) == Ok::<_, ProtocolError>((value, rest)),
{
    reveal(parse_u16);
    reveal(be16);
    assert((be16(value) + rest).skip(2) =~= rest);
}

pub broadcast proof fn lemma_parse_u32(value: u32, rest: Seq<u8>)
    ensures
        #[trigger] parse_u32(be32(value) + rest) == Ok::<_, ProtocolError>((value, rest)),
{
    reveal(parse_u32);
    reveal(be32);
    reveal(be16);
    assert((be32(value) + rest).skip(4) =~= rest);
}

pub broadcast proof fn lemma_parse_u64(value: u64, rest: Seq<u8>)
    ensures
        #[trigger] parse_u64(be64(value) + rest) == Ok::<_, ProtocolError>((value, rest)),
{
    reveal(parse_u64);
    reveal(be64);
    reveal(be32);
    reveal(be16);
    assert((be64(value) + rest).skip(8) =~= rest);
}

pub broadcast proof fn lemma_parse_bytes(bytes: Seq<u8>, rest: Seq<u8>)
    ensures
        #[trigger] parse_bytes(bytes + rest, bytes.len() as int) == Ok::<_, ProtocolError>(
            (bytes, rest),
        ),
{
    reveal(parse_bytes);
    assert((bytes + rest).take(bytes.len() as int) =~= bytes);
    assert((bytes + rest).skip(bytes.len() as int) =~= rest);
}

// ---------------------------------------------------------------------------
// Text.

/// The bytes a text takes, without its length prefix.
pub open spec fn utf8_len(text: Seq<char>) -> int {
    encode_utf8(text).len() as int
}

/// A text takes bytes exactly when it has characters.
pub proof fn lemma_nonempty(text: Seq<char>)
    ensures
        utf8_len(text) == 0 <==> text.len() == 0,
{
    if text.len() > 0 {
        assert(encode_utf8(text) == encode_scalar(text[0] as u32) + encode_utf8(
            text.drop_first(),
        ));
    }
}

/// Whether a text is short enough to be a label on the wire.
pub open spec fn text_fits(text: Seq<char>) -> bool {
    utf8_len(text) <= MAX_STRING_LEN
}

/// Whether a text is short enough to be a request body on the wire.
pub open spec fn body_fits(text: Seq<char>) -> bool {
    utf8_len(text) <= MAX_POST_BODY_LEN
}

/// A label: its length in two bytes, then its UTF-8.
#[verifier::opaque]
pub open spec fn text_bytes(text: Seq<char>) -> Seq<u8> {
    be16(utf8_len(text) as u16) + encode_utf8(text)
}

/// A request body, which may be far larger than a label.
#[verifier::opaque]
pub open spec fn body_bytes(text: Seq<char>) -> Seq<u8> {
    be32(utf8_len(text) as u32) + encode_utf8(text)
}

pub open spec fn parse_utf8(s: Seq<u8>, count: int) -> Parsed<Seq<char>> {
    match parse_bytes(s, count) {
        Err(e) => Err(e),
        Ok((bytes, s)) => if valid_utf8(bytes) {
            Ok((decode_utf8(bytes), s))
        } else {
            Err(ProtocolError::InvalidUtf8)
        },
    }
}

#[verifier::opaque]
pub open spec fn parse_text(s: Seq<u8>) -> Parsed<Seq<char>> {
    match parse_u16(s) {
        Err(e) => Err(e),
        Ok((count, s)) => if count > MAX_STRING_LEN {
            Err(ProtocolError::StringTooLarge)
        } else {
            parse_utf8(s, count as int)
        },
    }
}

#[verifier::opaque]
pub open spec fn parse_body(s: Seq<u8>) -> Parsed<Seq<char>> {
    match parse_u32(s) {
        Err(e) => Err(e),
        Ok((count, s)) => if count > MAX_POST_BODY_LEN {
            Err(ProtocolError::StringTooLarge)
        } else {
            parse_utf8(s, count as int)
        },
    }
}

pub broadcast proof fn lemma_text_len(text: Seq<char>)
    requires
        text_fits(text),
    ensures
        (#[trigger] text_bytes(text)).len() == 2 + utf8_len(text),
{
    reveal(text_bytes);
    lemma_be16_len(utf8_len(text) as u16);
}

pub broadcast proof fn lemma_body_len(text: Seq<char>)
    requires
        body_fits(text),
    ensures
        (#[trigger] body_bytes(text)).len() == 4 + utf8_len(text),
{
    reveal(body_bytes);
    lemma_be32_len(utf8_len(text) as u32);
}

pub broadcast proof fn lemma_parse_text(text: Seq<char>, rest: Seq<u8>)
    requires
        text_fits(text),
    ensures
        #[trigger] parse_text(text_bytes(text) + rest) == Ok::<_, ProtocolError>((text, rest)),
{
    reveal(parse_text);
    reveal(text_bytes);
    broadcast use {lemma_concat_to_the_right, lemma_parse_u16, lemma_parse_bytes};

    encode_utf8_valid_utf8(text);
    encode_utf8_decode_utf8(text);
}

pub broadcast proof fn lemma_parse_body(text: Seq<char>, rest: Seq<u8>)
    requires
        body_fits(text),
    ensures
        #[trigger] parse_body(body_bytes(text) + rest) == Ok::<_, ProtocolError>((text, rest)),
{
    reveal(parse_body);
    reveal(body_bytes);
    broadcast use {lemma_concat_to_the_right, lemma_parse_u32, lemma_parse_bytes};

    encode_utf8_valid_utf8(text);
    encode_utf8_decode_utf8(text);
}

/// What reading back what was written needs: every primitive form read in turn.
pub broadcast group group_reading {
    lemma_concat_to_the_right,
    lemma_nothing_concat,
    lemma_parse_u8,
    lemma_parse_u16,
    lemma_parse_u32,
    lemma_parse_u64,
    lemma_parse_bytes,
    lemma_parse_text,
    lemma_parse_body,
}

/// What counting what was written needs.
pub broadcast group group_lengths {
    lemma_be16_len,
    lemma_be32_len,
    lemma_be64_len,
    lemma_text_len,
    lemma_body_len,
}

/// What appending piece by piece needs.
pub broadcast group group_writing {
    lemma_concat_to_the_left,
    lemma_concat_nothing,
}

// ---------------------------------------------------------------------------
// Writing, and counting before writing.

/// A running length after `additional` more bytes, refused past one frame.
pub open spec fn grown(
    total: Result<int, ProtocolError>,
    additional: int,
) -> Result<int, ProtocolError> {
    match total {
        Err(e) => Err(e),
        Ok(total) => if total + additional > MAX_FRAME_LEN {
            Err(ProtocolError::FrameTooLarge)
        } else {
            Ok(total + additional)
        },
    }
}

/// A running length after one label.
pub open spec fn grown_text(
    total: Result<int, ProtocolError>,
    text: Seq<char>,
) -> Result<int, ProtocolError> {
    match total {
        Err(e) => Err(e),
        Ok(_) => if text_fits(text) {
            grown(total, 2 + utf8_len(text))
        } else {
            Err(ProtocolError::StringTooLarge)
        },
    }
}

/// A running length after one label, if there is one.
pub open spec fn grown_optional_text(
    total: Result<int, ProtocolError>,
    text: Option<Seq<char>>,
) -> Result<int, ProtocolError> {
    match text {
        None => total,
        Some(text) => grown_text(total, text),
    }
}

/// A running length after one request body.
pub open spec fn grown_body(
    total: Result<int, ProtocolError>,
    text: Seq<char>,
) -> Result<int, ProtocolError> {
    match total {
        Err(e) => Err(e),
        Ok(_) => if body_fits(text) {
            grown(total, 4 + utf8_len(text))
        } else {
            Err(ProtocolError::StringTooLarge)
        },
    }
}

/// Whether a count came out as its model says.
pub open spec fn counts(
    result: Result<usize, ProtocolError>,
    expected: Result<int, ProtocolError>,
) -> bool {
    match (result, expected) {
        (Ok(total), Ok(model)) => total == model && total <= MAX_FRAME_LEN,
        (Err(error), Err(refusal)) => error == refusal,
        _ => false,
    }
}

pub fn add_encoded_len(total: usize, additional: usize) -> (result: Result<usize, ProtocolError>)
    ensures
        counts(result, grown(Ok(total as int), additional as int)),
{
    if total > MAX_FRAME_LEN || additional > MAX_FRAME_LEN - total {
        Err(ProtocolError::FrameTooLarge)
    } else {
        Ok(total + additional)
    }
}

/// The length of a text in bytes.
pub fn byte_len(text: &str) -> (length: usize)
    ensures
        length == utf8_len(text@),
{
    text.as_bytes().len()
}

pub fn add_text_len(total: usize, text: &str) -> (result: Result<usize, ProtocolError>)
    ensures
        counts(result, grown_text(Ok(total as int), text@)),
{
    let length: usize = byte_len(text);
    if length > MAX_STRING_LEN {
        return Err(ProtocolError::StringTooLarge);
    }
    add_encoded_len(total, 2 + length)
}

pub fn add_body_len(total: usize, text: &str) -> (result: Result<usize, ProtocolError>)
    ensures
        counts(result, grown_body(Ok(total as int), text@)),
{
    let length: usize = byte_len(text);
    if length > MAX_POST_BODY_LEN {
        return Err(ProtocolError::StringTooLarge);
    }
    add_encoded_len(total, 4 + length)
}

pub fn push_u8(output: &mut Vec<u8>, value: u8)
    ensures
        final(output)@ == old(output)@ + seq![value],
{
    output.push(value);
    assert(output@ =~= old(output)@ + seq![value]);
}

pub fn push_u16(output: &mut Vec<u8>, value: u16)
    ensures
        final(output)@ == old(output)@ + be16(value),
{
    reveal(be16);
    output.push((value / 256) as u8);
    output.push((value % 256) as u8);
    assert(output@ =~= old(output)@ + be16(value));
}

pub fn push_u32(output: &mut Vec<u8>, value: u32)
    ensures
        final(output)@ == old(output)@ + be32(value),
{
    reveal(be32);
    broadcast use group_writing;

    push_u16(output, (value / 0x1_0000) as u16);
    push_u16(output, (value % 0x1_0000) as u16);
}

pub fn push_u64(output: &mut Vec<u8>, value: u64)
    ensures
        final(output)@ == old(output)@ + be64(value),
{
    reveal(be64);
    broadcast use group_writing;

    push_u32(output, (value / 0x1_0000_0000) as u32);
    push_u32(output, (value % 0x1_0000_0000) as u32);
}

pub fn push_flag(output: &mut Vec<u8>, flag: bool)
    ensures
        final(output)@ == old(output)@ + seq![flag_byte(flag)],
{
    push_u8(
        output,
        if flag {
            1
        } else {
            0
        },
    );
}

pub fn push_bytes(output: &mut Vec<u8>, bytes: &[u8])
    ensures
        final(output)@ == old(output)@ + bytes@,
{
    output.extend_from_slice(bytes);
    assert(output@ =~= old(output)@ + bytes@);
}

/// Writes a label that has room for its length.
pub fn push_text(output: &mut Vec<u8>, text: &str)
    requires
        text_fits(text@),
    ensures
        final(output)@ == old(output)@ + text_bytes(text@),
{
    reveal(text_bytes);
    broadcast use group_writing;

    let bytes = text.as_bytes();
    push_u16(output, bytes.len() as u16);
    push_bytes(output, bytes);
}

/// Writes a label, or nothing when it is too long.
pub fn push_string(output: &mut Vec<u8>, text: &str) -> (result: Result<(), ProtocolError>)
    ensures
        result == if text_fits(text@) {
            Ok(())
        } else {
            Err(ProtocolError::StringTooLarge)
        },
        final(output)@ == if text_fits(text@) {
            old(output)@ + text_bytes(text@)
        } else {
            old(output)@
        },
{
    if byte_len(text) > MAX_STRING_LEN {
        return Err(ProtocolError::StringTooLarge);
    }
    push_text(output, text);
    Ok(())
}

/// Writes a request body that has room for its length.
pub fn push_body(output: &mut Vec<u8>, text: &str)
    requires
        body_fits(text@),
    ensures
        final(output)@ == old(output)@ + body_bytes(text@),
{
    reveal(body_bytes);
    broadcast use group_writing;

    let bytes = text.as_bytes();
    push_u32(output, bytes.len() as u32);
    push_bytes(output, bytes);
}

/// Writes a request body, or nothing when it is too long.
pub fn push_long_string(output: &mut Vec<u8>, text: &str) -> (result: Result<(), ProtocolError>)
    ensures
        result == if body_fits(text@) {
            Ok(())
        } else {
            Err(ProtocolError::StringTooLarge)
        },
        final(output)@ == if body_fits(text@) {
            old(output)@ + body_bytes(text@)
        } else {
            old(output)@
        },
{
    if byte_len(text) > MAX_POST_BODY_LEN {
        return Err(ProtocolError::StringTooLarge);
    }
    push_body(output, text);
    Ok(())
}

/// The two's complement bits of a signed word.
pub fn word_bits(value: i32) -> (bits: u32)
    ensures
        bits == bits_of_i32(value),
{
    if value >= 0 {
        value as u32
    } else {
        (value as i64 + 0x1_0000_0000) as u32
    }
}

/// The two's complement bits of a signed half word.
pub fn half_bits(value: i16) -> (bits: u16)
    ensures
        bits == bits_of_i16(value),
{
    if value >= 0 {
        value as u16
    } else {
        (value as i32 + 0x1_0000) as u16
    }
}

// ---------------------------------------------------------------------------
// Reading.

/// The error of [`std::str::from_utf8`], carried and never looked into.
#[verifier::external_type_specification]
#[verifier::external_body]
pub struct ExUtf8Error(std::str::Utf8Error);

/// [`std::str::from_utf8`]: a slice that is UTF-8 is handed back as the text
/// with exactly those bytes, and any other slice is an error.
pub assume_specification[ std::str::from_utf8 ](bytes: &[u8]) -> (result: Result<
    &str,
    std::str::Utf8Error,
>)
    ensures
        match result {
            Ok(text) => valid_utf8(bytes@) && encode_utf8(text@) == bytes@,
            Err(_) => !valid_utf8(bytes@),
        },
;

/// Whether a read did what its model says: the value and what is left after
/// it, or the same refusal.
pub open spec fn reads<T: View>(
    result: Result<T, ProtocolError>,
    left: Seq<u8>,
    parsed: Parsed<T::V>,
) -> bool {
    match (result, parsed) {
        (Ok(value), Ok((model, rest))) => value@ == model && left == rest,
        (Err(error), Err(expected)) => error == expected,
        _ => false,
    }
}

/// The same, for a value that is its own model.
pub open spec fn yields<T>(
    result: Result<T, ProtocolError>,
    left: Seq<u8>,
    parsed: Parsed<T>,
) -> bool {
    match (result, parsed) {
        (Ok(value), Ok((model, rest))) => value == model && left == rest,
        (Err(error), Err(expected)) => error == expected,
        _ => false,
    }
}

/// The model of a value that may be missing.
pub open spec fn model_of<T: View>(value: Option<T>) -> Option<T::V> {
    match value {
        None => None,
        Some(value) => Some(value@),
    }
}

/// The same, for a value that may be missing.
pub open spec fn finds<T: View>(
    result: Result<Option<T>, ProtocolError>,
    left: Seq<u8>,
    parsed: Parsed<Option<T::V>>,
) -> bool {
    match (result, parsed) {
        (Ok(value), Ok((model, rest))) => model_of(value) == model && left == rest,
        (Err(error), Err(expected)) => error == expected,
        _ => false,
    }
}

/// A cursor over one payload. Its view is what has not been read yet.
pub struct Reader<'a> {
    bytes: &'a [u8],
    offset: usize,
}

impl<'a> View for Reader<'a> {
    type V = Seq<u8>;

    closed spec fn view(&self) -> Seq<u8> {
        self.bytes@.skip(self.offset as int)
    }
}

impl<'a> Reader<'a> {
    #[verifier::type_invariant]
    spec fn is_within(self) -> bool {
        self.offset <= self.bytes@.len()
    }

    pub fn new(bytes: &'a [u8]) -> (reader: Self)
        ensures
            reader@ == bytes@,
    {
        let reader = Reader { bytes, offset: 0 };
        assert(reader@ =~= bytes@);
        reader
    }

    /// Reads exactly `length` bytes, or none.
    pub fn take(&mut self, length: usize) -> (result: Result<&'a [u8], ProtocolError>)
        ensures
            reads(result, final(self)@, parse_bytes(old(self)@, length as int)),
            result is Err ==> final(self)@ == old(self)@,
    {
        proof {
            use_type_invariant(&*self);
            reveal(parse_bytes);
        }
        if length > self.bytes.len() - self.offset {
            return Err(ProtocolError::Truncated);
        }
        let end: usize = self.offset + length;
        let slice = slice_subrange(self.bytes, self.offset, end);
        proof {
            assert(slice@ =~= old(self)@.take(length as int));
        }
        self.offset = end;
        assert(self@ =~= old(self)@.skip(length as int));
        Ok(slice)
    }

    pub fn u8(&mut self) -> (result: Result<u8, ProtocolError>)
        ensures
            reads(result, final(self)@, parse_u8(old(self)@)),
            result is Err ==> final(self)@ == old(self)@,
    {
        proof {
            reveal(parse_u8);
            reveal(parse_bytes);
        }
        let bytes = self.take(1)?;
        Ok(bytes[0])
    }

    pub fn u16(&mut self) -> (result: Result<u16, ProtocolError>)
        ensures
            reads(result, final(self)@, parse_u16(old(self)@)),
            result is Err ==> final(self)@ == old(self)@,
    {
        proof {
            reveal(parse_u16);
            reveal(parse_bytes);
        }
        let bytes = self.take(2)?;
        Ok(bytes[0] as u16 * 0x100 + bytes[1] as u16)
    }

    pub fn u32(&mut self) -> (result: Result<u32, ProtocolError>)
        ensures
            reads(result, final(self)@, parse_u32(old(self)@)),
            result is Err ==> final(self)@ == old(self)@,
    {
        proof {
            reveal(parse_u32);
            reveal(parse_bytes);
        }
        let bytes = self.take(4)?;
        Ok(
            bytes[0] as u32 * 0x100_0000 + bytes[1] as u32 * 0x1_0000 + bytes[2] as u32 * 0x100
                + bytes[3] as u32,
        )
    }

    pub fn u64(&mut self) -> (result: Result<u64, ProtocolError>)
        ensures
            reads(result, final(self)@, parse_u64(old(self)@)),
            result is Err ==> final(self)@ == old(self)@,
    {
        proof {
            reveal(parse_u64);
            reveal(parse_bytes);
        }
        let bytes = self.take(8)?;
        let high: u64 = bytes[0] as u64 * 0x100_0000 + bytes[1] as u64 * 0x1_0000 + bytes[2] as u64
            * 0x100 + bytes[3] as u64;
        let low: u64 = bytes[4] as u64 * 0x100_0000 + bytes[5] as u64 * 0x1_0000 + bytes[6] as u64
            * 0x100 + bytes[7] as u64;
        Ok(high * 0x1_0000_0000 + low)
    }

    /// Reads a yes or no, refusing any other byte under `name`.
    pub fn flag(&mut self, name: &'static str) -> (result: Result<bool, ProtocolError>)
        ensures
            reads(result, final(self)@, parse_flag(old(self)@, name)),
    {
        let byte: u8 = self.u8()?;
        if byte == 0 {
            Ok(false)
        } else if byte == 1 {
            Ok(true)
        } else {
            Err(ProtocolError::InvalidValue(name))
        }
    }

    fn utf8(&mut self, length: usize) -> (result: Result<String, ProtocolError>)
        ensures
            reads(result, final(self)@, parse_utf8(old(self)@, length as int)),
    {
        let bytes = self.take(length)?;
        match std::str::from_utf8(bytes) {
            Ok(text) => {
                proof {
                    encode_utf8_decode_utf8(text@);
                }
                Ok(text.to_owned())
            },
            Err(_) => Err(ProtocolError::InvalidUtf8),
        }
    }

    /// Reads a label.
    pub fn string(&mut self) -> (result: Result<String, ProtocolError>)
        ensures
            reads(result, final(self)@, parse_text(old(self)@)),
    {
        reveal(parse_text);
        let length: usize = self.u16()? as usize;
        if length > MAX_STRING_LEN {
            return Err(ProtocolError::StringTooLarge);
        }
        self.utf8(length)
    }

    /// Reads a request body.
    pub fn long_string(&mut self) -> (result: Result<String, ProtocolError>)
        ensures
            reads(result, final(self)@, parse_body(old(self)@)),
    {
        reveal(parse_body);
        let length: u32 = self.u32()?;
        if length > MAX_POST_BODY_LEN as u32 {
            return Err(ProtocolError::StringTooLarge);
        }
        self.utf8(length as usize)
    }

    /// Reads exactly `length` bytes into a vector of their own.
    pub fn vec(&mut self, length: usize) -> (result: Result<Vec<u8>, ProtocolError>)
        ensures
            reads(result, final(self)@, parse_bytes(old(self)@, length as int)),
    {
        let bytes = self.take(length)?;
        Ok(slice_to_vec(bytes))
    }

    pub fn is_finished(&self) -> (finished: bool)
        ensures
            finished == (self@.len() == 0),
    {
        proof {
            use_type_invariant(self);
        }
        self.offset == self.bytes.len()
    }

    /// How many bytes have not been read yet.
    pub fn remaining(&self) -> (count: usize)
        ensures
            count == self@.len(),
    {
        proof {
            use_type_invariant(self);
        }
        self.bytes.len() - self.offset
    }
}

/// The signed word with these two's complement bits.
pub fn signed_word(bits: u32) -> (value: i32)
    ensures
        value == i32_of_bits(bits),
{
    if bits < 0x8000_0000 {
        bits as i32
    } else {
        (bits as i64 - 0x1_0000_0000) as i32
    }
}

/// The signed half word with these two's complement bits.
pub fn signed_half(bits: u16) -> (value: i16)
    ensures
        value == i16_of_bits(bits),
{
    if bits < 0x8000 {
        bits as i16
    } else {
        (bits as i32 - 0x1_0000) as i16
    }
}

} // verus!
