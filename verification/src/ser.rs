//! The encoder: writes a value, one kind at a time.
//!
//! Every operation takes the encoder and gives it back, so that the writer
//! runs through a chain of calls. A value of the caller's own is handed in as
//! a function from encoder to encoder, which writes that value.

use crate::delegate::{BinarySerializerDelegate, Token};
use crate::err::{DisplayCollector, ErrorAdapter};
use crate::io::Write;
use crate::order::Endian;
use core::convert::Infallible;
use core::marker::PhantomData;
use either::Either;
use vstd::prelude::*;
use vstd::std_specs::convert::IntoSpec;
use vstd::utf8::encode_utf8;

verus! {

/// A failure of the encoder itself. There is none: whatever fails while
/// encoding is a failure of the writer or an error of the caller's own, so the
/// one variant holds a value that cannot be made.
#[derive(Debug)]
pub enum BinarySerializerError {
    Never(Infallible),
}

/// The error type of an encoder over a writer whose own error is `T`.
pub type SerializerError<T, D> = ErrorAdapter<Either<BinarySerializerError, T>, D>;

/// The encoder: a writer, a byte order and, as types, the delegate that lays
/// out structural markers and the collector of custom errors.
pub struct BinarySerializer<W, H, D> where
    W: Write,
    H: BinarySerializerDelegate,
    D: DisplayCollector,
 {
    write: W,
    order: Endian,
    phantom_data: PhantomData<(H, D)>,
}

impl<W, H, D> BinarySerializer<W, H, D> where
    W: Write,
    H: BinarySerializerDelegate,
    D: DisplayCollector,
 {
    /// The writer under the encoder.
    pub closed spec fn sink(&self) -> W {
        self.write
    }

    /// The byte order of fixed-width numbers.
    pub closed spec fn byte_order(&self) -> Endian {
        self.order
    }

    /// Every byte that the writer has taken so far.
    pub open spec fn written(&self) -> Seq<u8> {
        self.sink().written()
    }

    /// Whether `e` is a failure of the writer.
    pub open spec fn is_transport(e: SerializerError<W::Error, D>) -> bool {
        e matches ErrorAdapter::Inner(Either::Right(_))
    }

    /// `self` is `before` after `bytes` were written.
    pub open spec fn extends(&self, before: &Self, bytes: Seq<u8>) -> bool {
        &&& self.written() == before.written() + bytes
        &&& self.byte_order() == before.byte_order()
    }

    /// `r` is what writing `bytes` gives: the encoder with exactly these
    /// bytes added, or a failure of the writer, which a reliable writer never
    /// gives.
    pub open spec fn appends(
        before: &Self,
        r: Result<Self, SerializerError<W::Error, D>>,
        bytes: Seq<u8>,
    ) -> bool {
        match r {
            Ok(after) => after.extends(before, bytes),
            Err(e) => Self::is_transport(e) && !W::reliable(),
        }
    }

    /// An encoder that writes to `write` in the given byte order.
    pub fn new<WW: Into<W>>(write: WW, order: Endian) -> (r: Self)
        ensures
            WW::obeys_into_spec() ==> r.sink() == write.into_spec(),
            r.byte_order() == order,
    {
        BinarySerializer { write: write.into(), order, phantom_data: PhantomData }
    }

    /// The writer, with what was written to it.
    pub fn consume(self) -> (r: W)
        ensures
            r == self.sink(),
    {
        self.write
    }

    /// Hands `bytes` to the writer in one piece.
    pub fn emit(self, bytes: &[u8]) -> (r: Result<Self, SerializerError<W::Error, D>>)
        ensures
            Self::appends(&self, r, bytes@),
    {
        let mut mut_self = self;
        match mut_self.write.write(bytes) {
            Ok(()) => Ok(mut_self),
            Err(e) => Err(ErrorAdapter::Inner(Either::Right(e))),
        }
    }

    /// One byte: 1 for `true`, 0 for `false`.
    pub fn serialize_bool(self, v: bool) -> (r: Result<Self, SerializerError<W::Error, D>>)
        ensures
            Self::appends(
                &self,
                r,
                seq![if v {
                    1u8
                } else {
                    0u8
                }],
            ),
    {
        self.serialize_i8(
            if v {
                1
            } else {
                0
            },
        )
    }

    /// One byte: the number in two's complement.
    pub fn serialize_i8(self, v: i8) -> (r: Result<Self, SerializerError<W::Error, D>>)
        ensures
            Self::appends(&self, r, seq![v as u8]),
    {
        self.serialize_u8(v as u8)
    }

    /// Two bytes in the encoder's byte order: the number in two's complement.
    pub fn serialize_i16(self, v: i16) -> (r: Result<Self, SerializerError<W::Error, D>>)
        ensures
            Self::appends(&self, r, self.byte_order().bytes(v as u16 as nat, 2)),
    {
        self.serialize_u16(v as u16)
    }

    /// Four bytes in the encoder's byte order: the number in two's complement.
    pub fn serialize_i32(self, v: i32) -> (r: Result<Self, SerializerError<W::Error, D>>)
        ensures
            Self::appends(&self, r, self.byte_order().bytes(v as u32 as nat, 4)),
    {
        self.serialize_u32(v as u32)
    }

    /// Eight bytes in the encoder's byte order: the number in two's
    /// complement.
    pub fn serialize_i64(self, v: i64) -> (r: Result<Self, SerializerError<W::Error, D>>)
        ensures
            Self::appends(&self, r, self.byte_order().bytes(v as u64 as nat, 8)),
    {
        self.serialize_u64(v as u64)
    }

    /// One byte.
    pub fn serialize_u8(self, v: u8) -> (r: Result<Self, SerializerError<W::Error, D>>)
        ensures
            Self::appends(&self, r, seq![v]),
    {
        let buffer: [u8; 1] = [v];
        assert(buffer@ =~= seq![v]);
        self.emit(buffer.as_slice())
    }

    /// Two bytes in the encoder's byte order.
    pub fn serialize_u16(self, v: u16) -> (r: Result<Self, SerializerError<W::Error, D>>)
        ensures
            Self::appends(&self, r, self.byte_order().bytes(v as nat, 2)),
    {
        let buffer = self.order.write_u16(v);
        self.emit(buffer.as_slice())
    }

    /// Four bytes in the encoder's byte order.
    pub fn serialize_u32(self, v: u32) -> (r: Result<Self, SerializerError<W::Error, D>>)
        ensures
            Self::appends(&self, r, self.byte_order().bytes(v as nat, 4)),
    {
        let buffer = self.order.write_u32(v);
        self.emit(buffer.as_slice())
    }

    /// Eight bytes in the encoder's byte order.
    pub fn serialize_u64(self, v: u64) -> (r: Result<Self, SerializerError<W::Error, D>>)
        ensures
            Self::appends(&self, r, self.byte_order().bytes(v as nat, 8)),
    {
        let buffer = self.order.write_u64(v);
        self.emit(buffer.as_slice())
    }

    /// A structural marker, at the width that its token has.
    pub fn serialize_token(self, token: Token) -> (r: Result<Self, SerializerError<W::Error, D>>)
        ensures
            Self::appends(&self, r, token.bytes(self.byte_order())),
    {
        match token {
            Token::U8(v) => self.serialize_u8(v),
            Token::U16(v) => self.serialize_u16(v),
            Token::U32(v) => self.serialize_u32(v),
            Token::U64(v) => self.serialize_u64(v),
        }
    }

    /// A character: the token that the delegate makes of it.
    pub fn serialize_char(self, v: char) -> (r: Result<Self, SerializerError<W::Error, D>>)
        ensures
            Self::appends(&self, r, H::char_token(v).bytes(self.byte_order())),
    {
        self.serialize_token(H::encode_char(v))
    }

    /// An absent option: the discriminant 0 and nothing else.
    pub fn serialize_none(self) -> (r: Result<Self, SerializerError<W::Error, D>>)
        ensures
            Self::appends(&self, r, H::variant_token(0).bytes(self.byte_order())),
    {
        self.serialize_token(H::encode_variant(0))
    }

    /// A unit takes no bytes.
    pub fn serialize_unit(self) -> (r: Result<Self, SerializerError<W::Error, D>>)
        ensures
            r == Ok::<Self, SerializerError<W::Error, D>>(self),
    {
        Ok(self)
    }

    /// A unit struct takes no bytes; its name is not written.
    pub fn serialize_unit_struct(self, name: &str) -> (r: Result<
        Self,
        SerializerError<W::Error, D>,
    >)
        ensures
            r == Ok::<Self, SerializerError<W::Error, D>>(self),
    {
        let _ = name;
        Ok(self)
    }

    /// A unit variant: its index as a discriminant. Neither name is written.
    pub fn serialize_unit_variant(self, name: &str, variant_index: u32, variant: &str) -> (r:
        Result<Self, SerializerError<W::Error, D>>)
        ensures
            Self::appends(&self, r, H::variant_token(variant_index).bytes(self.byte_order())),
    {
        let _ = name;
        let _ = variant;
        self.serialize_token(H::encode_variant(variant_index))
    }

    /// The format is binary.
    pub fn is_human_readable(&self) -> (r: bool)
        ensures
            !r,
    {
        false
    }
}

impl<W, H, D> BinarySerializer<W, H, D> where
    W: Write,
    H: BinarySerializerDelegate,
    D: DisplayCollector,
 {
    /// `r` is what writing `bytes` and then the value of `value` gives: a
    /// failure of the writer at the bytes, which a reliable writer never
    /// gives, or whatever `value` makes of the encoder that holds them.
    pub open spec fn appends_then<F: FnOnce(Self) -> Result<Self, SerializerError<W::Error, D>>>(
        before: &Self,
        r: Result<Self, SerializerError<W::Error, D>>,
        bytes: Seq<u8>,
        value: F,
    ) -> bool {
        ||| r matches Err(e) && Self::is_transport(e) && !W::reliable()
        ||| exists|middle: Self| #[trigger]
            middle.extends(before, bytes) && call_ensures(value, (middle,), r)
    }

    /// A present option: the discriminant 1, then the value.
    pub fn serialize_some<F>(self, value: F) -> (r: Result<Self, SerializerError<W::Error, D>>)
        where F: FnOnce(Self) -> Result<Self, SerializerError<W::Error, D>>
        requires
            forall|s: Self| call_requires(value, (s,)),
        ensures
            Self::appends_then(&self, r, H::variant_token(1).bytes(self.byte_order()), value),
    {
        match self.serialize_token(H::encode_variant(1)) {
            Ok(s) => value(s),
            Err(e) => Err(e),
        }
    }

    /// A newtype struct is its one field: the value and nothing else.
    pub fn serialize_newtype_struct<F>(self, name: &str, value: F) -> (r: Result<
        Self,
        SerializerError<W::Error, D>,
    >) where F: FnOnce(Self) -> Result<Self, SerializerError<W::Error, D>>
        requires
            call_requires(value, (self,)),
        ensures
            call_ensures(value, (self,), r),
    {
        let _ = name;
        value(self)
    }

    /// A newtype variant: its index as a discriminant, then the value.
    /// Neither name is written.
    pub fn serialize_newtype_variant<F>(
        self,
        name: &str,
        variant_index: u32,
        variant: &str,
        value: F,
    ) -> (r: Result<Self, SerializerError<W::Error, D>>) where
        F: FnOnce(Self) -> Result<Self, SerializerError<W::Error, D>>,

        requires
            forall|s: Self| call_requires(value, (s,)),
        ensures
            Self::appends_then(
                &self,
                r,
                H::variant_token(variant_index).bytes(self.byte_order()),
                value,
            ),
    {
        let _ = name;
        let _ = variant;
        match self.serialize_token(H::encode_variant(variant_index)) {
            Ok(s) => value(s),
            Err(e) => Err(e),
        }
    }

    /// The bytes that stand before the elements of a sequence or a map: the
    /// length token where a length is declared, else nothing.
    pub open spec fn prefix(&self, len: Option<usize>) -> Seq<u8> {
        match len {
            Some(len) => H::length_token(len).bytes(self.byte_order()),
            None => Seq::empty(),
        }
    }

    /// `r` is the open container that `opened` is meant to give after `bytes`
    /// were written: `state` reads the encoder out of a container.
    pub open spec fn opens<C>(
        before: &Self,
        r: Result<C, SerializerError<W::Error, D>>,
        bytes: Seq<u8>,
        state: spec_fn(C) -> Option<Self>,
    ) -> bool {
        match r {
            Ok(container) => state(container) matches Some(after) && after.extends(before, bytes),
            Err(e) => Self::is_transport(e) && !W::reliable(),
        }
    }

    /// Starts a sequence: the length token where `len` is given, then the
    /// elements, which the caller writes through what is returned.
    pub fn serialize_seq(self, len: Option<usize>) -> (r: Result<
        BinarySerializeSeq<W, H, D>,
        SerializerError<W::Error, D>,
    >)
        ensures
            Self::opens(&self, r, self.prefix(len), |c: BinarySerializeSeq<W, H, D>| c.state()),
            len is None ==> r is Ok,
    {
        let maybe_self = match len {
            Some(len) => self.serialize_token(H::encode_length(len)),
            None => {
                assert(self.written() + Seq::<u8>::empty() =~= self.written());
                Ok(self)
            },
        };
        match maybe_self {
            Ok(x) => Ok(BinarySerializeSeq { raw: Ok(x) }),
            Err(e) => Err(e),
        }
    }
}

/// An open sequence: the encoder while all went well, and nothing once an
/// element has failed.
pub struct BinarySerializeSeq<W, H, D> where
    W: Write,
    H: BinarySerializerDelegate,
    D: DisplayCollector,
 {
    raw: Result<BinarySerializer<W, H, D>, Option<SerializerError<W::Error, D>>>,
}

impl<W, H, D> BinarySerializeSeq<W, H, D> where
    W: Write,
    H: BinarySerializerDelegate,
    D: DisplayCollector,
 {
    /// The encoder, while no element has failed.
    pub closed spec fn state(&self) -> Option<BinarySerializer<W, H, D>> {
        match self.raw {
            Ok(s) => Some(s),
            Err(_) => None,
        }
    }

    /// Whether the sequence is open: no element has failed.
    pub fn is_open(&self) -> (r: bool)
        ensures
            r == self.state() is Some,
    {
        self.raw.is_ok()
    }

    /// `self` and `r` are what writing one element into `before` gives: the
    /// element's encoder is what `value` makes of the sequence's, and an
    /// element that fails closes the sequence for good.
    pub open spec fn takes<F>(
        &self,
        before: &Self,
        r: Result<(), SerializerError<W::Error, D>>,
        value: F,
    ) -> bool where
        F: FnOnce(BinarySerializer<W, H, D>) -> Result<
            BinarySerializer<W, H, D>,
            SerializerError<W::Error, D>,
        >,
     {
        exists|out: Result<BinarySerializer<W, H, D>, SerializerError<W::Error, D>>|
            #![trigger call_ensures(value, (before.state()->Some_0,), out)]
            call_ensures(value, (before.state()->Some_0,), out) && match out {
                Ok(next) => r is Ok && self.state() == Some(next),
                Err(e) => r == Err::<(), _>(e) && self.state() is None,
            }
    }

    /// Writes one element. The sequence must be open: after an element has
    /// failed, nothing more can be written to it.
    pub fn serialize_element<F>(&mut self, value: F) -> (r: Result<
        (),
        SerializerError<W::Error, D>,
    >) where
        F: FnOnce(BinarySerializer<W, H, D>) -> Result<
            BinarySerializer<W, H, D>,
            SerializerError<W::Error, D>,
        >,

        requires
            old(self).state() is Some,
            call_requires(value, (old(self).state()->Some_0,)),
        ensures
            final(self).takes(old(self), r, value),
    {
        let mut temp: Result<BinarySerializer<W, H, D>, Option<SerializerError<W::Error, D>>> =
            Err(None);
        core::mem::swap(&mut temp, &mut self.raw);
        match temp {
            Ok(s) => match value(s) {
                Ok(next) => {
                    self.raw = Ok(next);
                    Ok(())
                },
                Err(e) => Err(e),
            },
            Err(_) => vstd::pervasive::unreached(),
        }
    }

    /// Closes the sequence and gives the encoder back. The sequence must be
    /// open.
    pub fn end(self) -> (r: Result<BinarySerializer<W, H, D>, SerializerError<W::Error, D>>)
        requires
            self.state() is Some,
        ensures
            r == Ok::<_, SerializerError<W::Error, D>>(self.state()->Some_0),
    {
        match self.raw {
            Ok(s) => Ok(s),
            Err(_) => vstd::pervasive::unreached(),
        }
    }
}

impl<W, H, D> BinarySerializer<W, H, D> where
    W: Write,
    H: BinarySerializerDelegate,
    D: DisplayCollector,
 {
    /// A string: its bytes in UTF-8, written as a byte string.
    pub fn serialize_str(self, v: &str) -> (r: Result<Self, SerializerError<W::Error, D>>)
        ensures
            Self::appends(
                &self,
                r,
                self.prefix(Some(encode_utf8(v@).len() as usize)) + encode_utf8(v@),
            ),
    {
        self.serialize_bytes(v.as_bytes())
    }

    /// A byte string: the token of its length, then the bytes, each written
    /// as an element of a sequence.
    pub fn serialize_bytes(self, v: &[u8]) -> (r: Result<Self, SerializerError<W::Error, D>>)
        ensures
            Self::appends(&self, r, self.prefix(Some(v@.len() as usize)) + v@),
    {
        let ghost start = self;
        let ghost head = self.prefix(Some(v.len()));
        let mut seq = match self.serialize_seq(Some(v.len())) {
            Ok(seq) => seq,
            Err(e) => {
                return Err(e);
            },
        };
        assert(head + v@.subrange(0, 0) =~= head);
        let mut index: usize = 0;
        while index < v.len()
            invariant
                index <= v@.len(),
                seq.state() matches Some(s) && s.extends(
                    &start,
                    head + v@.subrange(0, index as int),
                ),
            decreases v@.len() - index,
        {
            let byte = v[index];
            let ghost before = seq;
            let element = |s: BinarySerializer<W, H, D>| -> (out: Result<
                BinarySerializer<W, H, D>,
                SerializerError<W::Error, D>,
            >)
                ensures
                    Self::appends(&s, out, seq![byte]),
                { s.serialize_u8(byte) };
            let step = seq.serialize_element(element);
            proof {
                let out = choose|
                    out: Result<BinarySerializer<W, H, D>, SerializerError<W::Error, D>>,
                |
                    call_ensures(element, (before.state()->Some_0,), out) && match out {
                        Ok(next) => step is Ok && seq.state() == Some(next),
                        Err(e) => step == Err::<(), _>(e) && seq.state() is None,
                    };
                assert(Self::appends(&before.state()->Some_0, out, seq![byte]));
                assert(start.written() + (head + v@.subrange(0, index as int)) + seq![byte]
                    =~= start.written() + (head + v@.subrange(0, index + 1)));
            }
            match step {
                Ok(()) => {},
                Err(e) => {
                    return Err(e);
                },
            }
            index += 1;
        }
        assert(v@.subrange(0, index as int) =~= v@);
        seq.end()
    }
}

impl<W, H, D> BinarySerializer<W, H, D> where
    W: Write,
    H: BinarySerializerDelegate,
    D: DisplayCollector,
 {
    /// Starts a tuple: nothing stands before its elements, since the decoder
    /// knows how many there are.
    pub fn serialize_tuple(self, len: usize) -> (r: Result<
        BinarySerializeTuple<W, H, D>,
        SerializerError<W::Error, D>,
    >)
        ensures
            r matches Ok(c) && c.state() == Some(self),
    {
        let _ = len;
        let sequence = BinarySerializeSeq { raw: Ok(self) };
        Ok(BinarySerializeTuple { sequence })
    }

    /// Starts a tuple struct: nothing stands before its fields, and its name
    /// is not written.
    pub fn serialize_tuple_struct(self, name: &str, len: usize) -> (r: Result<
        BinarySerializeTupleStruct<W, H, D>,
        SerializerError<W::Error, D>,
    >)
        ensures
            r matches Ok(c) && c.state() == Some(self),
    {
        let _ = name;
        let _ = len;
        let sequence = BinarySerializeSeq { raw: Ok(self) };
        Ok(BinarySerializeTupleStruct { sequence })
    }

    /// Starts a tuple variant: its index as a discriminant, then the fields.
    /// Neither name is written.
    pub fn serialize_tuple_variant(
        self,
        name: &str,
        variant_index: u32,
        variant: &str,
        len: usize,
    ) -> (r: Result<BinarySerializeTupleVariant<W, H, D>, SerializerError<W::Error, D>>)
        ensures
            Self::opens(
                &self,
                r,
                H::variant_token(variant_index).bytes(self.byte_order()),
                |c: BinarySerializeTupleVariant<W, H, D>| c.state(),
            ),
    {
        let _ = name;
        let _ = variant;
        let _ = len;
        match self.serialize_token(H::encode_variant(variant_index)) {
            Ok(x) => {
                let sequence = BinarySerializeSeq { raw: Ok(x) };
                Ok(BinarySerializeTupleVariant { sequence })
            },
            Err(e) => Err(e),
        }
    }

    /// Starts a map: the length token where `len` is given, then each key
    /// followed by its value.
    pub fn serialize_map(self, len: Option<usize>) -> (r: Result<
        BinarySerializeMap<W, H, D>,
        SerializerError<W::Error, D>,
    >)
        ensures
            Self::opens(&self, r, self.prefix(len), |c: BinarySerializeMap<W, H, D>| c.state()),
            len is None ==> r is Ok,
    {
        let maybe_self = match len {
            Some(len) => self.serialize_token(H::encode_length(len)),
            None => {
                assert(self.written() + Seq::<u8>::empty() =~= self.written());
                Ok(self)
            },
        };
        match maybe_self {
            Ok(x) => {
                let sequence = BinarySerializeSeq { raw: Ok(x) };
                Ok(BinarySerializeMap { sequence })
            },
            Err(e) => Err(e),
        }
    }

    /// Starts a struct: nothing stands before its fields, and no name is
    /// written.
    pub fn serialize_struct(self, name: &str, len: usize) -> (r: Result<
        BinarySerializeStruct<W, H, D>,
        SerializerError<W::Error, D>,
    >)
        ensures
            r matches Ok(c) && c.state() == Some(self),
    {
        let _ = name;
        let _ = len;
        let sequence = BinarySerializeSeq { raw: Ok(self) };
        Ok(BinarySerializeStruct { sequence })
    }

    /// Starts a struct variant: its index as a discriminant, then the fields.
    /// No name is written.
    pub fn serialize_struct_variant(
        self,
        name: &str,
        variant_index: u32,
        variant: &str,
        len: usize,
    ) -> (r: Result<BinarySerializeStructVariant<W, H, D>, SerializerError<W::Error, D>>)
        ensures
            Self::opens(
                &self,
                r,
                H::variant_token(variant_index).bytes(self.byte_order()),
                |c: BinarySerializeStructVariant<W, H, D>| c.state(),
            ),
    {
        let _ = name;
        let _ = variant;
        let _ = len;
        match self.serialize_token(H::encode_variant(variant_index)) {
            Ok(x) => {
                let sequence = BinarySerializeSeq { raw: Ok(x) };
                Ok(BinarySerializeStructVariant { sequence })
            },
            Err(e) => Err(e),
        }
    }
}

/// An open tuple.
pub struct BinarySerializeTuple<W, H, D> where
    W: Write,
    H: BinarySerializerDelegate,
    D: DisplayCollector,
 {
    sequence: BinarySerializeSeq<W, H, D>,
}

impl<W, H, D> BinarySerializeTuple<W, H, D> where
    W: Write,
    H: BinarySerializerDelegate,
    D: DisplayCollector,
 {
    /// The encoder, while no part has failed.
    pub closed spec fn state(&self) -> Option<BinarySerializer<W, H, D>> {
        self.sequence.state()
    }

    /// Whether the container is open: no part has failed.
    pub fn is_open(&self) -> (r: bool)
        ensures
            r == self.state() is Some,
    {
        self.sequence.is_open()
    }

    /// `self` and `r` are what writing one part into `before` gives: the
    /// part's encoder is what `value` makes of the container's, and a part
    /// that fails closes the container for good.
    pub open spec fn takes<F>(
        &self,
        before: &Self,
        r: Result<(), SerializerError<W::Error, D>>,
        value: F,
    ) -> bool where
        F: FnOnce(BinarySerializer<W, H, D>) -> Result<
            BinarySerializer<W, H, D>,
            SerializerError<W::Error, D>,
        >,
     {
        exists|out: Result<BinarySerializer<W, H, D>, SerializerError<W::Error, D>>|
            #![trigger call_ensures(value, (before.state()->Some_0,), out)]
            call_ensures(value, (before.state()->Some_0,), out) && match out {
                Ok(next) => r is Ok && self.state() == Some(next),
                Err(e) => r == Err::<(), _>(e) && self.state() is None,
            }
    }

    /// Writes the next element.
    pub fn serialize_element<F>(&mut self, value: F) -> (r: Result<
        (),
        SerializerError<W::Error, D>,
    >) where
        F: FnOnce(BinarySerializer<W, H, D>) -> Result<
            BinarySerializer<W, H, D>,
            SerializerError<W::Error, D>,
        >,

        requires
            old(self).state() is Some,
            call_requires(value, (old(self).state()->Some_0,)),
        ensures
            final(self).takes(old(self), r, value),
    {
        let ghost before = self.sequence;
        let r = self.sequence.serialize_element(value);
        proof {
            let out = choose|
                out: Result<BinarySerializer<W, H, D>, SerializerError<W::Error, D>>,
            |
                call_ensures(value, (before.state()->Some_0,), out) && match out {
                    Ok(next) => r is Ok && self.sequence.state() == Some(next),
                    Err(e) => r == Err::<(), _>(e) && self.sequence.state() is None,
                };
            assert(call_ensures(value, (old(self).state()->Some_0,), out));
        }
        r
    }

    /// Closes the container and gives the encoder back. The container must
    /// be open.
    pub fn end(self) -> (r: Result<BinarySerializer<W, H, D>, SerializerError<W::Error, D>>)
        requires
            self.state() is Some,
        ensures
            r == Ok::<_, SerializerError<W::Error, D>>(self.state()->Some_0),
    {
        self.sequence.end()
    }
}

/// An open tuple struct.
pub struct BinarySerializeTupleStruct<W, H, D> where
    W: Write,
    H: BinarySerializerDelegate,
    D: DisplayCollector,
 {
    sequence: BinarySerializeSeq<W, H, D>,
}

impl<W, H, D> BinarySerializeTupleStruct<W, H, D> where
    W: Write,
    H: BinarySerializerDelegate,
    D: DisplayCollector,
 {
    /// The encoder, while no part has failed.
    pub closed spec fn state(&self) -> Option<BinarySerializer<W, H, D>> {
        self.sequence.state()
    }

    /// Whether the container is open: no part has failed.
    pub fn is_open(&self) -> (r: bool)
        ensures
            r == self.state() is Some,
    {
        self.sequence.is_open()
    }

    /// `self` and `r` are what writing one part into `before` gives: the
    /// part's encoder is what `value` makes of the container's, and a part
    /// that fails closes the container for good.
    pub open spec fn takes<F>(
        &self,
        before: &Self,
        r: Result<(), SerializerError<W::Error, D>>,
        value: F,
    ) -> bool where
        F: FnOnce(BinarySerializer<W, H, D>) -> Result<
            BinarySerializer<W, H, D>,
            SerializerError<W::Error, D>,
        >,
     {
        exists|out: Result<BinarySerializer<W, H, D>, SerializerError<W::Error, D>>|
            #![trigger call_ensures(value, (before.state()->Some_0,), out)]
            call_ensures(value, (before.state()->Some_0,), out) && match out {
                Ok(next) => r is Ok && self.state() == Some(next),
                Err(e) => r == Err::<(), _>(e) && self.state() is None,
            }
    }

    /// Writes the next field.
    pub fn serialize_field<F>(&mut self, value: F) -> (r: Result<
        (),
        SerializerError<W::Error, D>,
    >) where
        F: FnOnce(BinarySerializer<W, H, D>) -> Result<
            BinarySerializer<W, H, D>,
            SerializerError<W::Error, D>,
        >,

        requires
            old(self).state() is Some,
            call_requires(value, (old(self).state()->Some_0,)),
        ensures
            final(self).takes(old(self), r, value),
    {
        let ghost before = self.sequence;
        let r = self.sequence.serialize_element(value);
        proof {
            let out = choose|
                out: Result<BinarySerializer<W, H, D>, SerializerError<W::Error, D>>,
            |
                call_ensures(value, (before.state()->Some_0,), out) && match out {
                    Ok(next) => r is Ok && self.sequence.state() == Some(next),
                    Err(e) => r == Err::<(), _>(e) && self.sequence.state() is None,
                };
            assert(call_ensures(value, (old(self).state()->Some_0,), out));
        }
        r
    }

    /// Closes the container and gives the encoder back. The container must
    /// be open.
    pub fn end(self) -> (r: Result<BinarySerializer<W, H, D>, SerializerError<W::Error, D>>)
        requires
            self.state() is Some,
        ensures
            r == Ok::<_, SerializerError<W::Error, D>>(self.state()->Some_0),
    {
        self.sequence.end()
    }
}

/// An open tuple variant.
pub struct BinarySerializeTupleVariant<W, H, D> where
    W: Write,
    H: BinarySerializerDelegate,
    D: DisplayCollector,
 {
    sequence: BinarySerializeSeq<W, H, D>,
}

impl<W, H, D> BinarySerializeTupleVariant<W, H, D> where
    W: Write,
    H: BinarySerializerDelegate,
    D: DisplayCollector,
 {
    /// The encoder, while no part has failed.
    pub closed spec fn state(&self) -> Option<BinarySerializer<W, H, D>> {
        self.sequence.state()
    }

    /// Whether the container is open: no part has failed.
    pub fn is_open(&self) -> (r: bool)
        ensures
            r == self.state() is Some,
    {
        self.sequence.is_open()
    }

    /// `self` and `r` are what writing one part into `before` gives: the
    /// part's encoder is what `value` makes of the container's, and a part
    /// that fails closes the container for good.
    pub open spec fn takes<F>(
        &self,
        before: &Self,
        r: Result<(), SerializerError<W::Error, D>>,
        value: F,
    ) -> bool where
        F: FnOnce(BinarySerializer<W, H, D>) -> Result<
            BinarySerializer<W, H, D>,
            SerializerError<W::Error, D>,
        >,
     {
        exists|out: Result<BinarySerializer<W, H, D>, SerializerError<W::Error, D>>|
            #![trigger call_ensures(value, (before.state()->Some_0,), out)]
            call_ensures(value, (before.state()->Some_0,), out) && match out {
                Ok(next) => r is Ok && self.state() == Some(next),
                Err(e) => r == Err::<(), _>(e) && self.state() is None,
            }
    }

    /// Writes the next field.
    pub fn serialize_field<F>(&mut self, value: F) -> (r: Result<
        (),
        SerializerError<W::Error, D>,
    >) where
        F: FnOnce(BinarySerializer<W, H, D>) -> Result<
            BinarySerializer<W, H, D>,
            SerializerError<W::Error, D>,
        >,

        requires
            old(self).state() is Some,
            call_requires(value, (old(self).state()->Some_0,)),
        ensures
            final(self).takes(old(self), r, value),
    {
        let ghost before = self.sequence;
        let r = self.sequence.serialize_element(value);
        proof {
            let out = choose|
                out: Result<BinarySerializer<W, H, D>, SerializerError<W::Error, D>>,
            |
                call_ensures(value, (before.state()->Some_0,), out) && match out {
                    Ok(next) => r is Ok && self.sequence.state() == Some(next),
                    Err(e) => r == Err::<(), _>(e) && self.sequence.state() is None,
                };
            assert(call_ensures(value, (old(self).state()->Some_0,), out));
        }
        r
    }

    /// Closes the container and gives the encoder back. The container must
    /// be open.
    pub fn end(self) -> (r: Result<BinarySerializer<W, H, D>, SerializerError<W::Error, D>>)
        requires
            self.state() is Some,
        ensures
            r == Ok::<_, SerializerError<W::Error, D>>(self.state()->Some_0),
    {
        self.sequence.end()
    }
}

/// An open map: keys and values are written in turn.
pub struct BinarySerializeMap<W, H, D> where
    W: Write,
    H: BinarySerializerDelegate,
    D: DisplayCollector,
 {
    sequence: BinarySerializeSeq<W, H, D>,
}

impl<W, H, D> BinarySerializeMap<W, H, D> where
    W: Write,
    H: BinarySerializerDelegate,
    D: DisplayCollector,
 {
    /// The encoder, while no part has failed.
    pub closed spec fn state(&self) -> Option<BinarySerializer<W, H, D>> {
        self.sequence.state()
    }

    /// Whether the container is open: no part has failed.
    pub fn is_open(&self) -> (r: bool)
        ensures
            r == self.state() is Some,
    {
        self.sequence.is_open()
    }

    /// `self` and `r` are what writing one part into `before` gives: the
    /// part's encoder is what `value` makes of the container's, and a part
    /// that fails closes the container for good.
    pub open spec fn takes<F>(
        &self,
        before: &Self,
        r: Result<(), SerializerError<W::Error, D>>,
        value: F,
    ) -> bool where
        F: FnOnce(BinarySerializer<W, H, D>) -> Result<
            BinarySerializer<W, H, D>,
            SerializerError<W::Error, D>,
        >,
     {
        exists|out: Result<BinarySerializer<W, H, D>, SerializerError<W::Error, D>>|
            #![trigger call_ensures(value, (before.state()->Some_0,), out)]
            call_ensures(value, (before.state()->Some_0,), out) && match out {
                Ok(next) => r is Ok && self.state() == Some(next),
                Err(e) => r == Err::<(), _>(e) && self.state() is None,
            }
    }

    /// Writes the key of the next entry.
    pub fn serialize_key<F>(&mut self, value: F) -> (r: Result<
        (),
        SerializerError<W::Error, D>,
    >) where
        F: FnOnce(BinarySerializer<W, H, D>) -> Result<
            BinarySerializer<W, H, D>,
            SerializerError<W::Error, D>,
        >,

        requires
            old(self).state() is Some,
            call_requires(value, (old(self).state()->Some_0,)),
        ensures
            final(self).takes(old(self), r, value),
    {
        let ghost before = self.sequence;
        let r = self.sequence.serialize_element(value);
        proof {
            let out = choose|
                out: Result<BinarySerializer<W, H, D>, SerializerError<W::Error, D>>,
            |
                call_ensures(value, (before.state()->Some_0,), out) && match out {
                    Ok(next) => r is Ok && self.sequence.state() == Some(next),
                    Err(e) => r == Err::<(), _>(e) && self.sequence.state() is None,
                };
            assert(call_ensures(value, (old(self).state()->Some_0,), out));
        }
        r
    }

    /// Writes the value of the entry whose key was written last.
    pub fn serialize_value<F>(&mut self, value: F) -> (r: Result<
        (),
        SerializerError<W::Error, D>,
    >) where
        F: FnOnce(BinarySerializer<W, H, D>) -> Result<
            BinarySerializer<W, H, D>,
            SerializerError<W::Error, D>,
        >,

        requires
            old(self).state() is Some,
            call_requires(value, (old(self).state()->Some_0,)),
        ensures
            final(self).takes(old(self), r, value),
    {
        let ghost before = self.sequence;
        let r = self.sequence.serialize_element(value);
        proof {
            let out = choose|
                out: Result<BinarySerializer<W, H, D>, SerializerError<W::Error, D>>,
            |
                call_ensures(value, (before.state()->Some_0,), out) && match out {
                    Ok(next) => r is Ok && self.sequence.state() == Some(next),
                    Err(e) => r == Err::<(), _>(e) && self.sequence.state() is None,
                };
            assert(call_ensures(value, (old(self).state()->Some_0,), out));
        }
        r
    }

    /// Closes the container and gives the encoder back. The container must
    /// be open.
    pub fn end(self) -> (r: Result<BinarySerializer<W, H, D>, SerializerError<W::Error, D>>)
        requires
            self.state() is Some,
        ensures
            r == Ok::<_, SerializerError<W::Error, D>>(self.state()->Some_0),
    {
        self.sequence.end()
    }
}

/// An open struct.
pub struct BinarySerializeStruct<W, H, D> where
    W: Write,
    H: BinarySerializerDelegate,
    D: DisplayCollector,
 {
    sequence: BinarySerializeSeq<W, H, D>,
}

impl<W, H, D> BinarySerializeStruct<W, H, D> where
    W: Write,
    H: BinarySerializerDelegate,
    D: DisplayCollector,
 {
    /// The encoder, while no part has failed.
    pub closed spec fn state(&self) -> Option<BinarySerializer<W, H, D>> {
        self.sequence.state()
    }

    /// Whether the container is open: no part has failed.
    pub fn is_open(&self) -> (r: bool)
        ensures
            r == self.state() is Some,
    {
        self.sequence.is_open()
    }

    /// `self` and `r` are what writing one part into `before` gives: the
    /// part's encoder is what `value` makes of the container's, and a part
    /// that fails closes the container for good.
    pub open spec fn takes<F>(
        &self,
        before: &Self,
        r: Result<(), SerializerError<W::Error, D>>,
        value: F,
    ) -> bool where
        F: FnOnce(BinarySerializer<W, H, D>) -> Result<
            BinarySerializer<W, H, D>,
            SerializerError<W::Error, D>,
        >,
     {
        exists|out: Result<BinarySerializer<W, H, D>, SerializerError<W::Error, D>>|
            #![trigger call_ensures(value, (before.state()->Some_0,), out)]
            call_ensures(value, (before.state()->Some_0,), out) && match out {
                Ok(next) => r is Ok && self.state() == Some(next),
                Err(e) => r == Err::<(), _>(e) && self.state() is None,
            }
    }

    /// Writes the next field; its name is not written.
    pub fn serialize_field<F>(&mut self, key: &str, value: F) -> (r: Result<
        (),
        SerializerError<W::Error, D>,
    >) where
        F: FnOnce(BinarySerializer<W, H, D>) -> Result<
            BinarySerializer<W, H, D>,
            SerializerError<W::Error, D>,
        >,

        requires
            old(self).state() is Some,
            call_requires(value, (old(self).state()->Some_0,)),
        ensures
            final(self).takes(old(self), r, value),
    {
        let _ = key;
        let ghost before = self.sequence;
        let r = self.sequence.serialize_element(value);
        proof {
            let out = choose|
                out: Result<BinarySerializer<W, H, D>, SerializerError<W::Error, D>>,
            |
                call_ensures(value, (before.state()->Some_0,), out) && match out {
                    Ok(next) => r is Ok && self.sequence.state() == Some(next),
                    Err(e) => r == Err::<(), _>(e) && self.sequence.state() is None,
                };
            assert(call_ensures(value, (old(self).state()->Some_0,), out));
        }
        r
    }

    /// Closes the container and gives the encoder back. The container must
    /// be open.
    pub fn end(self) -> (r: Result<BinarySerializer<W, H, D>, SerializerError<W::Error, D>>)
        requires
            self.state() is Some,
        ensures
            r == Ok::<_, SerializerError<W::Error, D>>(self.state()->Some_0),
    {
        self.sequence.end()
    }
}

/// An open struct variant.
pub struct BinarySerializeStructVariant<W, H, D> where
    W: Write,
    H: BinarySerializerDelegate,
    D: DisplayCollector,
 {
    sequence: BinarySerializeSeq<W, H, D>,
}

impl<W, H, D> BinarySerializeStructVariant<W, H, D> where
    W: Write,
    H: BinarySerializerDelegate,
    D: DisplayCollector,
 {
    /// The encoder, while no part has failed.
    pub closed spec fn state(&self) -> Option<BinarySerializer<W, H, D>> {
        self.sequence.state()
    }

    /// Whether the container is open: no part has failed.
    pub fn is_open(&self) -> (r: bool)
        ensures
            r == self.state() is Some,
    {
        self.sequence.is_open()
    }

    /// `self` and `r` are what writing one part into `before` gives: the
    /// part's encoder is what `value` makes of the container's, and a part
    /// that fails closes the container for good.
    pub open spec fn takes<F>(
        &self,
        before: &Self,
        r: Result<(), SerializerError<W::Error, D>>,
        value: F,
    ) -> bool where
        F: FnOnce(BinarySerializer<W, H, D>) -> Result<
            BinarySerializer<W, H, D>,
            SerializerError<W::Error, D>,
        >,
     {
        exists|out: Result<BinarySerializer<W, H, D>, SerializerError<W::Error, D>>|
            #![trigger call_ensures(value, (before.state()->Some_0,), out)]
            call_ensures(value, (before.state()->Some_0,), out) && match out {
                Ok(next) => r is Ok && self.state() == Some(next),
                Err(e) => r == Err::<(), _>(e) && self.state() is None,
            }
    }

    /// Writes the next field; its name is not written.
    pub fn serialize_field<F>(&mut self, key: &str, value: F) -> (r: Result<
        (),
        SerializerError<W::Error, D>,
    >) where
        F: FnOnce(BinarySerializer<W, H, D>) -> Result<
            BinarySerializer<W, H, D>,
            SerializerError<W::Error, D>,
        >,

        requires
            old(self).state() is Some,
            call_requires(value, (old(self).state()->Some_0,)),
        ensures
            final(self).takes(old(self), r, value),
    {
        let _ = key;
        let ghost before = self.sequence;
        let r = self.sequence.serialize_element(value);
        proof {
            let out = choose|
                out: Result<BinarySerializer<W, H, D>, SerializerError<W::Error, D>>,
            |
                call_ensures(value, (before.state()->Some_0,), out) && match out {
                    Ok(next) => r is Ok && self.sequence.state() == Some(next),
                    Err(e) => r == Err::<(), _>(e) && self.sequence.state() is None,
                };
            assert(call_ensures(value, (old(self).state()->Some_0,), out));
        }
        r
    }

    /// Closes the container and gives the encoder back. The container must
    /// be open.
    pub fn end(self) -> (r: Result<BinarySerializer<W, H, D>, SerializerError<W::Error, D>>)
        requires
            self.state() is Some,
        ensures
            r == Ok::<_, SerializerError<W::Error, D>>(self.state()->Some_0),
    {
        self.sequence.end()
    }
}

} // verus!
