//! The wire format delegates: how lengths, discriminants and characters are
//! laid out. The encoder and the decoder ask a delegate and never fix a width
//! themselves.

use crate::order::Endian;
use vstd::layout::size_of;
use vstd::prelude::*;

verus! {

broadcast use vstd::layout::layout_of_primitives;

/// A structural marker as the unsigned number that goes on the wire. The
/// variant fixes how many bytes the number takes.
#[derive(Clone, Copy, Debug, PartialEq, Eq, Structural)]
pub enum Token {
    /// One byte.
    U8(u8),
    /// Two bytes.
    U16(u16),
    /// Four bytes.
    U32(u32),
    /// Eight bytes.
    U64(u64),
}

impl Token {
    /// The number of bytes that the token takes.
    pub open spec fn width(self) -> nat {
        match self {
            Token::U8(_) => 1,
            Token::U16(_) => 2,
            Token::U32(_) => 4,
            Token::U64(_) => 8,
        }
    }

    /// The number that the token carries.
    pub open spec fn number(self) -> nat {
        match self {
            Token::U8(v) => v as nat,
            Token::U16(v) => v as nat,
            Token::U32(v) => v as nat,
            Token::U64(v) => v as nat,
        }
    }

    /// The bytes of the token in the given order. A single byte stands for
    /// itself in either order.
    pub open spec fn bytes(self, order: Endian) -> Seq<u8> {
        match self {
            Token::U8(v) => seq![v],
            _ => order.bytes(self.number(), self.width()),
        }
    }
}

/// Whether `code` is a Unicode scalar value: a code point up to `0x10FFFF`
/// that is no surrogate.
pub open spec fn is_char_code(code: u32) -> bool {
    code <= 0xD7FF || (0xE000 <= code && code <= 0x10FFFF)
}

/// `core::char::from_u32`: the character with the given code, and `None`
/// exactly for a code that is no Unicode scalar value.
pub assume_specification[ core::char::from_u32 ](i: u32) -> (r: Option<char>)
    ensures
        match r {
            Some(c) => is_char_code(i) && c as u32 == i,
            None => !is_char_code(i),
        },
;

/// How the encoder lays out structural markers.
///
/// The spec functions are the model that the contracts speak of. An
/// implementation states them; one that does not leaves them unspecified.
pub trait BinarySerializerDelegate {
    /// The token of an option or variant discriminant.
    open spec fn variant_token(v: u32) -> Token {
        arbitrary()
    }

    /// The token of the length of a string, a byte string, a sequence or a map.
    open spec fn length_token(v: usize) -> Token {
        arbitrary()
    }

    /// The token of the length of a streamed sequence.
    open spec fn sequence_length_token(v: usize) -> Token {
        arbitrary()
    }

    /// The token of a character.
    open spec fn char_token(v: char) -> Token {
        arbitrary()
    }

    fn encode_variant(v: u32) -> (r: Token)
        ensures
            r == Self::variant_token(v),
    ;

    fn encode_length(v: usize) -> (r: Token)
        ensures
            r == Self::length_token(v),
    ;

    fn encode_sequence_length(v: usize) -> (r: Token)
        ensures
            r == Self::sequence_length_token(v),
    ;

    fn encode_char(v: char) -> (r: Token)
        ensures
            r == Self::char_token(v),
    ;
}

/// The token of a length in the default dialect: a number of the width of a
/// machine word.
pub open spec fn word_token(v: usize) -> Token {
    if size_of::<usize>() == 8 {
        Token::U64(v as u64)
    } else if size_of::<usize>() == 4 {
        Token::U32(v as u32)
    } else {
        Token::U16(v as u16)
    }
}

/// Lays `v` out at the width of a machine word.
pub fn encode_word(v: usize) -> (r: Token)
    ensures
        r == word_token(v),
{
    let width = core::mem::size_of::<usize>();
    if width == 8 {
        Token::U64(v as u64)
    } else if width == 4 {
        Token::U32(v as u32)
    } else {
        Token::U16(v as u16)
    }
}

/// The default dialect: four bytes for a discriminant and for a character,
/// a machine word for a length.
pub struct DefaultBinarySerializerDelegate;

impl BinarySerializerDelegate for DefaultBinarySerializerDelegate {
    open spec fn variant_token(v: u32) -> Token {
        Token::U32(v)
    }

    open spec fn length_token(v: usize) -> Token {
        word_token(v)
    }

    open spec fn sequence_length_token(v: usize) -> Token {
        word_token(v)
    }

    open spec fn char_token(v: char) -> Token {
        Token::U32(v as u32)
    }

    fn encode_variant(v: u32) -> (r: Token) {
        Token::U32(v)
    }

    fn encode_length(v: usize) -> (r: Token) {
        encode_word(v)
    }

    fn encode_sequence_length(v: usize) -> (r: Token) {
        encode_word(v)
    }

    fn encode_char(v: char) -> (r: Token) {
        Token::U32(v as u32)
    }
}

/// How the decoder reads structural markers.
///
/// The spec functions are the model that the contracts speak of. An
/// implementation states them; one that does not leaves them unspecified.
/// Each `decode_` function is handed exactly as many bytes as the matching
/// `_size` function asks for.
pub trait BinaryDeserializerDelegate {
    /// The number of bytes of a discriminant.
    open spec fn variant_width() -> usize {
        arbitrary()
    }

    /// The number of bytes of a length.
    open spec fn length_width() -> usize {
        arbitrary()
    }

    /// The number of bytes of the length of a streamed sequence; 0 where the
    /// wire holds none.
    open spec fn sequence_length_width() -> usize {
        arbitrary()
    }

    /// The number of bytes of a character.
    open spec fn char_width() -> usize {
        arbitrary()
    }

    /// The discriminant that `bytes` stand for.
    open spec fn variant_value(order: Endian, bytes: Seq<u8>) -> u32 {
        arbitrary()
    }

    /// The length that `bytes` stand for.
    open spec fn length_value(order: Endian, bytes: Seq<u8>) -> usize {
        arbitrary()
    }

    /// The length of a streamed sequence that `bytes` stand for; `None` where
    /// the sequence runs until the transport has no more bytes.
    open spec fn sequence_length_value(order: Endian, bytes: Seq<u8>) -> Option<usize> {
        arbitrary()
    }

    /// The character that `bytes` stand for, or the code that is no character.
    open spec fn char_value(order: Endian, bytes: Seq<u8>) -> Result<char, u32> {
        arbitrary()
    }

    fn variant_size() -> (r: usize)
        ensures
            r == Self::variant_width(),
    ;

    fn length_size() -> (r: usize)
        ensures
            r == Self::length_width(),
    ;

    fn sequence_length_size() -> (r: usize)
        ensures
            r == Self::sequence_length_width(),
    ;

    fn char_size() -> (r: usize)
        ensures
            r == Self::char_width(),
    ;

    fn decode_variant(order: Endian, bytes: &[u8]) -> (r: u32)
        requires
            bytes@.len() == Self::variant_width(),
        ensures
            r == Self::variant_value(order, bytes@),
    ;

    fn decode_length(order: Endian, bytes: &[u8]) -> (r: usize)
        requires
            bytes@.len() == Self::length_width(),
        ensures
            r == Self::length_value(order, bytes@),
    ;

    fn decode_sequence_length(order: Endian, bytes: &[u8]) -> (r: Option<usize>)
        requires
            bytes@.len() == Self::sequence_length_width(),
        ensures
            r == Self::sequence_length_value(order, bytes@),
    ;

    fn decode_char(order: Endian, bytes: &[u8]) -> (r: Result<char, u32>)
        requires
            bytes@.len() == Self::char_width(),
        ensures
            r == Self::char_value(order, bytes@),
    ;
}

/// The character with the given code, or the code itself where it is no
/// Unicode scalar value.
pub open spec fn char_of_code(code: u32) -> Result<char, u32> {
    if is_char_code(code) {
        Ok(code as char)
    } else {
        Err(code)
    }
}

/// The length that a machine word of bytes spells.
pub open spec fn word_value(order: Endian, bytes: Seq<u8>) -> usize {
    if size_of::<usize>() == 8 {
        order.u64_at(bytes) as usize
    } else if size_of::<usize>() == 4 {
        order.u32_at(bytes) as usize
    } else {
        order.u16_at(bytes) as usize
    }
}

/// The default dialect: four bytes for a discriminant and for a character, a
/// machine word for a length, and no length before a streamed sequence.
pub struct DefaultBinaryDeserializerDelegate;

impl BinaryDeserializerDelegate for DefaultBinaryDeserializerDelegate {
    open spec fn variant_width() -> usize {
        4
    }

    open spec fn length_width() -> usize {
        size_of::<usize>() as usize
    }

    open spec fn sequence_length_width() -> usize {
        0
    }

    open spec fn char_width() -> usize {
        4
    }

    open spec fn variant_value(order: Endian, bytes: Seq<u8>) -> u32 {
        order.u32_at(bytes)
    }

    open spec fn length_value(order: Endian, bytes: Seq<u8>) -> usize {
        word_value(order, bytes)
    }

    open spec fn sequence_length_value(order: Endian, bytes: Seq<u8>) -> Option<usize> {
        None
    }

    open spec fn char_value(order: Endian, bytes: Seq<u8>) -> Result<char, u32> {
        char_of_code(order.u32_at(bytes))
    }

    fn variant_size() -> (r: usize) {
        core::mem::size_of::<u32>()
    }

    fn length_size() -> (r: usize) {
        core::mem::size_of::<usize>()
    }

    fn sequence_length_size() -> (r: usize) {
        0
    }

    fn char_size() -> (r: usize) {
        core::mem::size_of::<u32>()
    }

    fn decode_variant(order: Endian, bytes: &[u8]) -> (r: u32) {
        order.read_u32(bytes)
    }

    fn decode_length(order: Endian, bytes: &[u8]) -> (r: usize) {
        let width = Self::length_size();
        if width == 8 {
            order.read_u64(bytes) as usize
        } else if width == 4 {
            order.read_u32(bytes) as usize
        } else {
            order.read_u16(bytes) as usize
        }
    }

    fn decode_sequence_length(order: Endian, bytes: &[u8]) -> (r: Option<usize>) {
        None
    }

    fn decode_char(order: Endian, bytes: &[u8]) -> (r: Result<char, u32>) {
        let code = order.read_u32(bytes);
        match core::char::from_u32(code) {
            Some(c) => {
                proof {
                    vstd::utf8::char_u32_cast(c, code);
                }
                Ok(c)
            },
            None => Err(code),
        }
    }
}

} // verus!
