//! What holds of the encoder and the decoder together.
//!
//! Each law is stated over the spec functions that the contracts of the two
//! use: the bytes that an encoding operation adds, and what the matching
//! decoding operation makes of the bytes before it.

use crate::de::{BinaryDeserializer, SequenceAccess};
use crate::delegate::{
    BinaryDeserializerDelegate, BinarySerializerDelegate, DefaultBinaryDeserializerDelegate,
    DefaultBinarySerializerDelegate, char_of_code, is_char_code, word_token, word_value,
};
use crate::err::DisplayCollector;
use crate::io::{Read, Write};
use crate::order::{lemma_spans, Endian};
use crate::ser::{BinarySerializer, SerializerError};
use vstd::layout::size_of;
use vstd::prelude::*;
use vstd::utf8::{decode_utf8, encode_utf8, valid_utf8};

verus! {

broadcast use vstd::layout::layout_of_primitives;

/// Determinism: two encoders that hold the same bytes and take the same
/// value hold the same bytes afterwards. The bytes that an operation adds are
/// a function of the value, the byte order and the delegate alone, so both
/// encoders are handed the same `bytes`.
pub proof fn law_encoding_is_determined<W, H, D>(
    first: BinarySerializer<W, H, D>,
    second: BinarySerializer<W, H, D>,
    first_out: Result<BinarySerializer<W, H, D>, SerializerError<W::Error, D>>,
    second_out: Result<BinarySerializer<W, H, D>, SerializerError<W::Error, D>>,
    bytes: Seq<u8>,
) where W: Write, H: BinarySerializerDelegate, D: DisplayCollector
    requires
        first.written() == second.written(),
        BinarySerializer::appends(&first, first_out, bytes),
        BinarySerializer::appends(&second, second_out, bytes),
    ensures
        first_out matches Ok(a) ==> (second_out matches Ok(b) ==> a.written() == b.written()),
{
}

/// Round trip of a boolean: the byte that the encoder writes for `v`,
/// whatever follows it, is read as `v`, and what follows is left.
pub proof fn law_bool_round_trip(v: bool, rest: Seq<u8>)
    ensures
        ({
            let wire = seq![if v {
                1u8
            } else {
                0u8
            }] + rest;
            &&& wire.len() >= 1
            &&& (wire[0] != 0) == v
            &&& wire.skip(1) == rest
        }),
{
    let wire = seq![if v {
        1u8
    } else {
        0u8
    }] + rest;
    assert(wire.skip(1) =~= rest);
}

/// Round trip of an unsigned byte.
pub proof fn law_u8_round_trip(v: u8, rest: Seq<u8>)
    ensures
        ({
            let wire = seq![v] + rest;
            &&& wire.len() >= 1
            &&& wire[0] == v
            &&& wire.skip(1) == rest
        }),
{
    assert((seq![v] + rest).skip(1) =~= rest);
}

/// Round trip of a signed byte: it is written in two's complement and read
/// back from it.
pub proof fn law_i8_round_trip(v: i8, rest: Seq<u8>)
    ensures
        ({
            let wire = seq![v as u8] + rest;
            &&& wire.len() >= 1
            &&& wire[0] as i8 == v
            &&& wire.skip(1) == rest
        }),
{
    assert((seq![v as u8] + rest).skip(1) =~= rest);
    assert((v as u8) as i8 == v) by (bit_vector);
}

/// What the round trip of a number of `width` bytes rests on: the bytes that
/// are laid out for `v`, whatever follows them, spell `v` again, and what
/// follows is left.
pub proof fn lemma_number_round_trip(order: Endian, v: nat, width: nat, rest: Seq<u8>)
    requires
        v < crate::order::span(width),
    ensures
        ({
            let wire = order.bytes(v, width) + rest;
            &&& wire.len() >= width
            &&& wire.subrange(0, width as int) == order.bytes(v, width)
            &&& order.value(wire.subrange(0, width as int)) == v
            &&& wire.skip(width as int) == rest
        }),
{
    let wire = order.bytes(v, width) + rest;
    order.lemma_bytes_len(v, width);
    order.lemma_value_of_bytes(v, width);
    assert(wire.subrange(0, width as int) =~= order.bytes(v, width));
    assert(wire.skip(width as int) =~= rest);
}

/// Round trip of a 16-bit unsigned number, in either byte order.
pub proof fn law_u16_round_trip(order: Endian, v: u16, rest: Seq<u8>)
    ensures
        ({
            let wire = order.bytes(v as nat, 2) + rest;
            &&& wire.len() >= 2
            &&& order.u16_at(wire) == v
            &&& wire.skip(2) == rest
        }),
{
    lemma_spans();
    lemma_number_round_trip(order, v as nat, 2, rest);
}

/// Round trip of a 32-bit unsigned number, in either byte order.
pub proof fn law_u32_round_trip(order: Endian, v: u32, rest: Seq<u8>)
    ensures
        ({
            let wire = order.bytes(v as nat, 4) + rest;
            &&& wire.len() >= 4
            &&& order.u32_at(wire) == v
            &&& wire.skip(4) == rest
        }),
{
    lemma_spans();
    lemma_number_round_trip(order, v as nat, 4, rest);
}

/// Round trip of a 64-bit unsigned number, in either byte order.
pub proof fn law_u64_round_trip(order: Endian, v: u64, rest: Seq<u8>)
    ensures
        ({
            let wire = order.bytes(v as nat, 8) + rest;
            &&& wire.len() >= 8
            &&& order.u64_at(wire) == v
            &&& wire.skip(8) == rest
        }),
{
    lemma_spans();
    lemma_number_round_trip(order, v as nat, 8, rest);
}

/// Round trip of a 16-bit signed number, in either byte order.
pub proof fn law_i16_round_trip(order: Endian, v: i16, rest: Seq<u8>)
    ensures
        ({
            let wire = order.bytes(v as u16 as nat, 2) + rest;
            &&& wire.len() >= 2
            &&& order.u16_at(wire) as i16 == v
            &&& wire.skip(2) == rest
        }),
{
    law_u16_round_trip(order, v as u16, rest);
    assert((v as u16) as i16 == v) by (bit_vector);
}

/// Round trip of a 32-bit signed number, in either byte order.
pub proof fn law_i32_round_trip(order: Endian, v: i32, rest: Seq<u8>)
    ensures
        ({
            let wire = order.bytes(v as u32 as nat, 4) + rest;
            &&& wire.len() >= 4
            &&& order.u32_at(wire) as i32 == v
            &&& wire.skip(4) == rest
        }),
{
    law_u32_round_trip(order, v as u32, rest);
    assert((v as u32) as i32 == v) by (bit_vector);
}

/// Round trip of a 64-bit signed number, in either byte order.
pub proof fn law_i64_round_trip(order: Endian, v: i64, rest: Seq<u8>)
    ensures
        ({
            let wire = order.bytes(v as u64 as nat, 8) + rest;
            &&& wire.len() >= 8
            &&& order.u64_at(wire) as i64 == v
            &&& wire.skip(8) == rest
        }),
{
    law_u64_round_trip(order, v as u64, rest);
    assert((v as u64) as i64 == v) by (bit_vector);
}

/// Round trip of a character in the default dialect: the decoder's delegate
/// makes the character again of what the encoder's delegate wrote.
pub proof fn law_char_round_trip(order: Endian, v: char, rest: Seq<u8>)
    ensures
        ({
            let wire = DefaultBinarySerializerDelegate::char_token(v).bytes(order) + rest;
            &&& wire.len() >= DefaultBinaryDeserializerDelegate::char_width()
            &&& DefaultBinaryDeserializerDelegate::char_value(
                order,
                wire.subrange(0, DefaultBinaryDeserializerDelegate::char_width() as int),
            ) == Ok::<char, u32>(v)
            &&& wire.skip(DefaultBinaryDeserializerDelegate::char_width() as int) == rest
        }),
{
    let code = v as u32;
    let wire = order.bytes(code as nat, 4) + rest;
    law_u32_round_trip(order, code, rest);
    assert(wire.subrange(0, 4).subrange(0, 4) =~= wire.subrange(0, 4));
    assert(order.u32_at(wire.subrange(0, 4)) == code);
    vstd::utf8::char_u32_cast(v, code);
    assert(is_char_code(code));
}

/// Round trip of a discriminant in the default dialect: of an option, where
/// 0 stands for absent and 1 for present, and of a variant, whose index the
/// decoder reads as a plain 32-bit number.
pub proof fn law_variant_round_trip(order: Endian, v: u32, rest: Seq<u8>)
    ensures
        ({
            let wire = DefaultBinarySerializerDelegate::variant_token(v).bytes(order) + rest;
            &&& wire.len() >= DefaultBinaryDeserializerDelegate::variant_width()
            &&& DefaultBinaryDeserializerDelegate::variant_value(
                order,
                wire.subrange(0, DefaultBinaryDeserializerDelegate::variant_width() as int),
            ) == v
            &&& order.u32_at(wire) == v
            &&& wire.skip(DefaultBinaryDeserializerDelegate::variant_width() as int) == rest
        }),
{
    let wire = order.bytes(v as nat, 4) + rest;
    law_u32_round_trip(order, v, rest);
    assert(wire.subrange(0, 4).subrange(0, 4) =~= wire.subrange(0, 4));
}

/// Round trip of a length in the default dialect: a machine word on either
/// side.
pub proof fn law_length_round_trip(order: Endian, v: usize, rest: Seq<u8>)
    ensures
        ({
            let wire = DefaultBinarySerializerDelegate::length_token(v).bytes(order) + rest;
            let width = DefaultBinaryDeserializerDelegate::length_width();
            &&& wire.len() >= width
            &&& DefaultBinaryDeserializerDelegate::length_value(
                order,
                wire.subrange(0, width as int),
            ) == v
            &&& wire.skip(width as int) == rest
        }),
{
    let wire = word_token(v).bytes(order) + rest;
    if size_of::<usize>() == 8 {
        law_u64_round_trip(order, v as u64, rest);
        assert(wire.subrange(0, 8).subrange(0, 8) =~= wire.subrange(0, 8));
    } else {
        assert(size_of::<usize>() == 4);
        law_u32_round_trip(order, v as u32, rest);
        assert(wire.subrange(0, 4).subrange(0, 4) =~= wire.subrange(0, 4));
    }
}

/// Round trip of a byte string in the default dialect: a decoder that has
/// before it what the encoder wrote for `v`, whatever follows, finds the
/// length token and the bytes in full, and the bytes are `v`.
pub proof fn law_bytes_round_trip<'de, R, D>(
    d: BinaryDeserializer<'de, R, DefaultBinaryDeserializerDelegate, D>,
    v: Seq<u8>,
    rest: Seq<u8>,
) where R: Read<'de>, D: DisplayCollector
    requires
        v.len() <= usize::MAX,
        d.remaining() == DefaultBinarySerializerDelegate::length_token(v.len() as usize).bytes(
            d.byte_order(),
        ) + v + rest,
    ensures
        d.holds_payload(),
        d.announced() == v.len(),
        d.payload() == v,
        d.remaining().skip(DefaultBinaryDeserializerDelegate::length_width() + d.announced())
            == rest,
{
    let order = d.byte_order();
    let width = DefaultBinaryDeserializerDelegate::length_width();
    let token = DefaultBinarySerializerDelegate::length_token(v.len() as usize).bytes(order);
    law_length_round_trip(order, v.len() as usize, v + rest);
    assert(token + v + rest =~= token + (v + rest));
    assert(d.remaining().skip(width as int) =~= v + rest);
    assert(d.payload() =~= v);
    assert(d.remaining().skip(width + v.len()) =~= rest);
}

/// Round trip of a string in the default dialect: the bytes that the encoder
/// writes for `v` are found in full by the decoder, are valid UTF-8, and
/// decode to `v`.
pub proof fn law_str_round_trip<'de, R, D>(
    d: BinaryDeserializer<'de, R, DefaultBinaryDeserializerDelegate, D>,
    v: Seq<char>,
    rest: Seq<u8>,
) where R: Read<'de>, D: DisplayCollector
    requires
        encode_utf8(v).len() <= usize::MAX,
        d.remaining() == DefaultBinarySerializerDelegate::length_token(
            encode_utf8(v).len() as usize,
        ).bytes(d.byte_order()) + encode_utf8(v) + rest,
    ensures
        d.holds_payload(),
        valid_utf8(d.payload()),
        decode_utf8(d.payload()) == v,
        d.remaining().skip(DefaultBinaryDeserializerDelegate::length_width() + d.announced())
            == rest,
{
    law_bytes_round_trip(d, encode_utf8(v), rest);
    vstd::utf8::encode_utf8_valid_utf8(v);
    vstd::utf8::encode_utf8_decode_utf8(v);
}

/// A streamed sequence in the default dialect has no length on the wire: the
/// first pull consumes nothing, and an element is due exactly while the reader
/// has bytes.
pub proof fn law_streamed_sequence_runs_to_the_end<'de, R, D>(
    before: BinaryDeserializer<'de, R, DefaultBinaryDeserializerDelegate, D>,
    after: BinaryDeserializer<'de, R, DefaultBinaryDeserializerDelegate, D>,
    cursor: SequenceAccess,
    r: Result<bool, crate::de::DeserializerError<R::Error, D>>,
) where R: Read<'de>, D: DisplayCollector
    requires
        cursor.pulls(&SequenceAccess::streamed(), &after, &before, r),
    ensures
        r matches Ok(element) && element == (before.remaining().len() > 0),
        after.remaining() == before.remaining(),
        cursor.len is None,
        !cursor.pending,
{
    assert(before.remaining().skip(0) =~= before.remaining());
}

/// Length accounting: a cursor over `n` elements yields an element at each
/// of the first `n` pulls and at none after them, whatever the reader holds
/// (`left` is the number of bytes that it has at the pull).
pub proof fn law_length_accounting(n: usize, k: nat, left: nat)
    ensures
        SequenceAccess::counted(n).after(k) == SequenceAccess::counted(
            if k <= n {
                (n - k) as usize
            } else {
                0
            },
        ),
        SequenceAccess::counted(n).after(k).due(left) <==> k < n,
    decreases k,
{
    if k > 0 {
        law_length_accounting(n, (k - 1) as nat, left);
    }
}

} // verus!
