//! Byte forms of option values.
//!
//! An option travels as raw bytes with a length. Integers and floats take
//! four bytes, least significant first; a boolean takes one; a string is
//! held as its bytes followed by a single zero byte.

use vstd::prelude::*;

verus! {

/// Width in bytes of an integer or float option.
pub const WORD_WIDTH: usize = 4;

/// Width in bytes of a boolean option.
pub const BOOL_WIDTH: usize = 1;

/// The four bytes of a 32-bit word, least significant first.
pub open spec fn word_bytes(w: u32) -> Seq<u8> {
    seq![
        (w as int % 256) as u8,
        (w as int / 256 % 256) as u8,
        (w as int / 65536 % 256) as u8,
        (w as int / 16777216) as u8,
    ]
}

/// The number that four bytes spell, least significant first.
pub open spec fn word_value(b: Seq<u8>) -> int
    recommends
        b.len() == 4,
{
    b[0] as int + 256 * (b[1] as int) + 65536 * (b[2] as int) + 16777216 * (b[3] as int)
}

/// The two's complement word of a signed integer.
pub open spec fn int_word(v: i32) -> u32 {
    if v >= 0 {
        v as u32
    } else {
        (v as int + 4294967296) as u32
    }
}

/// The signed integer that a two's complement word stands for.
pub open spec fn word_int(w: u32) -> i32 {
    if w < 2147483648 {
        w as i32
    } else {
        (w as int - 4294967296) as i32
    }
}

/// The four bytes of a signed integer option.
pub open spec fn int_bytes(v: i32) -> Seq<u8> {
    word_bytes(int_word(v))
}

/// The single byte of a boolean option: one for true, zero for false.
pub open spec fn bool_bytes(v: bool) -> Seq<u8> {
    seq![if v { 1u8 } else { 0u8 }]
}

/// Whether a byte string can be held as a C string: no zero byte inside.
pub open spec fn is_c_text(text: Seq<u8>) -> bool {
    forall|i: int| 0 <= i < text.len() ==> text[i] != 0
}

/// A byte string followed by its terminator.
pub open spec fn c_text(text: Seq<u8>) -> Seq<u8> {
    text.push(0u8)
}

/// Whether a buffer holds a C string: it ends in a zero byte, and no other
/// byte of it is zero.
pub open spec fn is_c_string(buffer: Seq<u8>) -> bool {
    &&& buffer.len() > 0
    &&& buffer.last() == 0
    &&& is_c_text(buffer.drop_last())
}

/// Encodes a 32-bit word, least significant byte first.
pub fn encode_word(w: u32) -> (bytes: Vec<u8>)
    ensures
        bytes@ == word_bytes(w),
{
    let mut bytes: Vec<u8> = Vec::with_capacity(WORD_WIDTH);
    bytes.push((w % 256) as u8);
    bytes.push((w / 256 % 256) as u8);
    bytes.push((w / 65536 % 256) as u8);
    bytes.push((w / 16777216) as u8);
    assert(bytes@ =~= word_bytes(w));
    bytes
}

/// Decodes a 32-bit word from its four bytes.
pub fn decode_word(bytes: &[u8]) -> (w: u32)
    requires
        bytes@.len() == 4,
    ensures
        w == word_value(bytes@),
{
    let b0: u32 = bytes[0] as u32;
    let b1: u32 = bytes[1] as u32;
    let b2: u32 = bytes[2] as u32;
    let b3: u32 = bytes[3] as u32;
    b0 + 256 * b1 + 65536 * b2 + 16777216 * b3
}

/// Encodes a signed integer option.
pub fn encode_int(v: i32) -> (bytes: Vec<u8>)
    ensures
        bytes@ == int_bytes(v),
{
    let w: u32 = if v >= 0 {
        v as u32
    } else {
        (v as i64 + 4294967296) as u32
    };
    encode_word(w)
}

/// Decodes a signed integer option from its four bytes.
pub fn decode_int(bytes: &[u8]) -> (v: i32)
    requires
        bytes@.len() == 4,
    ensures
        v == word_int(word_value(bytes@) as u32),
{
    let w: u32 = decode_word(bytes);
    if w < 2147483648 {
        w as i32
    } else {
        (w as i64 - 4294967296) as i32
    }
}

/// Encodes a boolean option.
pub fn encode_bool(v: bool) -> (bytes: Vec<u8>)
    ensures
        bytes@ == bool_bytes(v),
{
    let mut bytes: Vec<u8> = Vec::with_capacity(BOOL_WIDTH);
    bytes.push(if v { 1u8 } else { 0u8 });
    assert(bytes@ =~= bool_bytes(v));
    bytes
}

/// Decodes a boolean option from its byte, as C reads it: any byte but zero
/// is true.
pub fn decode_bool(bytes: &[u8]) -> (v: bool)
    requires
        bytes@.len() == 1,
    ensures
        v == (bytes@[0] != 0),
{
    bytes[0] != 0
}

/// Tells whether a byte string has no zero byte inside.
pub fn holds_no_nul(text: &[u8]) -> (ok: bool)
    ensures
        ok == is_c_text(text@),
{
    let mut i: usize = 0;
    while i < text.len()
        invariant
            i <= text@.len(),
            forall|j: int| 0 <= j < i ==> text@[j] != 0,
        decreases text@.len() - i,
    {
        if text[i] == 0 {
            return false;
        }
        i += 1;
    }
    true
}

/// Copies a byte string into a fresh buffer and terminates it.
pub fn terminate(text: &[u8]) -> (buffer: Vec<u8>)
    ensures
        buffer@ == c_text(text@),
        is_c_text(text@) ==> is_c_string(buffer@),
{
    let mut buffer: Vec<u8> = Vec::new();
    let mut i: usize = 0;
    while i < text.len()
        invariant
            i <= text@.len(),
            buffer@ == text@.subrange(0, i as int),
        decreases text@.len() - i,
    {
        buffer.push(text[i]);
        assert(buffer@ =~= text@.subrange(0, i + 1));
        i += 1;
    }
    buffer.push(0u8);
    assert(buffer@ =~= c_text(text@));
    assert(buffer@.drop_last() =~= text@);
    buffer
}

} // verus!
