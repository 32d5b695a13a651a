//! The decoder: reads a value of a known shape, one kind at a time.
//!
//! Nothing on the wire says what comes next, so the caller asks for each kind
//! in the order in which it was written.

use crate::delegate::BinaryDeserializerDelegate;
use crate::err::{decimal, decimal_text, DisplayCollector, ErrorAdapter};
use crate::io::Read;
use crate::order::Endian;
use core::marker::PhantomData;
use core::str::Utf8Error;
use either::Either;
use std::string::FromUtf8Error;
use vstd::prelude::*;
use vstd::string::StringExecFns;
use vstd::utf8::{decode_utf8, encode_utf8, valid_utf8};

verus! {

/// What `core::str::from_utf8` reports of bytes that are no UTF-8.
#[verifier::external_type_specification]
#[verifier::external_body]
pub struct ExUtf8Error(Utf8Error);

/// What `String::from_utf8` reports of bytes that are no UTF-8.
#[verifier::external_type_specification]
#[verifier::external_body]
pub struct ExFromUtf8Error(FromUtf8Error);

/// `core::str::from_utf8`: the same bytes seen as a string, exactly where
/// they are valid UTF-8.
pub assume_specification<'a>[ core::str::from_utf8 ](v: &'a [u8]) -> (r: Result<&'a str, Utf8Error>)
    ensures
        r is Ok <==> valid_utf8(v@),
        r matches Ok(s) ==> encode_utf8(s@) == v@,
;

/// `String::from_utf8`: the same bytes as a string, exactly where they are
/// valid UTF-8.
pub assume_specification[ String::from_utf8 ](vec: Vec<u8>) -> (r: Result<String, FromUtf8Error>)
    ensures
        r is Ok <==> valid_utf8(vec@),
        r matches Ok(s) ==> encode_utf8(s@) == vec@,
;

/// A failure of the decoder itself.
#[derive(Debug)]
pub enum BinaryDeserializerError {
    /// The bytes of an owned string are no UTF-8.
    FromUtf8Error(FromUtf8Error),
    /// A character code that is no Unicode scalar value.
    WrongChar(u32),
    /// The bytes of a borrowed string are no UTF-8.
    Utf8Error(Utf8Error),
    /// An option discriminant that is neither 0 nor 1.
    UnexpectedVariant(u32),
    /// The operation needs a format that describes itself.
    NotSupported,
    /// A borrowed value was asked of a reader that does not lend.
    CannotReadBorrowed,
}

/// `format!("{}", e)`, which is std's `Display` for `Utf8Error`. Nothing is
/// stated of the text.
#[verifier::external_body]
fn utf8_error_text(e: &Utf8Error) -> String {
    format!("{}", e)
}

/// `format!("{}", e)`, which is std's `Display` for `FromUtf8Error`. Nothing
/// is stated of the text.
#[verifier::external_body]
fn from_utf8_error_text(e: &FromUtf8Error) -> String {
    format!("{}", e)
}

impl BinaryDeserializerError {
    /// The text of the error, where the library words it. The text of the two
    /// UTF-8 failures is that of the standard library and not stated here.
    pub open spec fn text(&self) -> Option<Seq<char>> {
        match self {
            BinaryDeserializerError::FromUtf8Error(_) => None,
            BinaryDeserializerError::WrongChar(code) => Some(
                "wrong char code: "@ + decimal(*code as nat),
            ),
            BinaryDeserializerError::Utf8Error(_) => None,
            BinaryDeserializerError::UnexpectedVariant(code) => Some(
                "unexpected variant code: "@ + decimal(*code as nat),
            ),
            BinaryDeserializerError::NotSupported => Some("not supported"@),
            BinaryDeserializerError::CannotReadBorrowed => Some("cannot read borrowed"@),
        }
    }

    /// The text of the error.
    pub fn message(&self) -> (r: String)
        ensures
            self.text() matches Some(text) ==> r@ == text,
    {
        match self {
            BinaryDeserializerError::FromUtf8Error(e) => from_utf8_error_text(e),
            BinaryDeserializerError::WrongChar(code) => String::from_str(
                "wrong char code: ",
            ).concat(decimal_text(*code as u64).as_str()),
            BinaryDeserializerError::Utf8Error(e) => utf8_error_text(e),
            BinaryDeserializerError::UnexpectedVariant(code) => String::from_str(
                "unexpected variant code: ",
            ).concat(decimal_text(*code as u64).as_str()),
            BinaryDeserializerError::NotSupported => String::from_str("not supported"),
            BinaryDeserializerError::CannotReadBorrowed => String::from_str(
                "cannot read borrowed",
            ),
        }
    }
}

/// The bytes that a read gave: a region of the reader's own storage, or a
/// copy staged in a buffer.
#[derive(Debug)]
pub enum Fetched<'de> {
    /// Lent by the reader; nothing was copied.
    Borrowed(&'de [u8]),
    /// Copied out of the reader.
    Owned(Vec<u8>),
}

impl<'de> View for Fetched<'de> {
    type V = Seq<u8>;

    open spec fn view(&self) -> Seq<u8> {
        match self {
            Fetched::Borrowed(bytes) => bytes@,
            Fetched::Owned(bytes) => bytes@,
        }
    }
}

impl<'de> Fetched<'de> {
    /// The bytes, wherever they are held.
    pub fn as_slice(&self) -> (r: &[u8])
        ensures
            r@ == self@,
    {
        match self {
            Fetched::Borrowed(bytes) => bytes,
            Fetched::Owned(bytes) => bytes.as_slice(),
        }
    }

    /// The bytes as a vector: the staged copy itself, or a copy of what was
    /// lent.
    pub fn into_vec(self) -> (r: Vec<u8>)
        ensures
            r@ == self@,
    {
        match self {
            Fetched::Borrowed(bytes) => vstd::slice::slice_to_vec(bytes),
            Fetched::Owned(bytes) => bytes,
        }
    }
}

/// A vector of `length` zero bytes.
fn zeroed(length: usize) -> (r: Vec<u8>)
    ensures
        r@.len() == length,
        forall|i: int| 0 <= i < length ==> r@[i] == 0u8,
{
    let mut buffer: Vec<u8> = Vec::new();
    let mut i: usize = 0;
    while i < length
        invariant
            i <= length,
            buffer@.len() == i,
            forall|k: int| 0 <= k < i ==> buffer@[k] == 0u8,
        decreases length - i,
    {
        buffer.push(0);
        i += 1;
    }
    buffer
}

/// The error type of a decoder over a reader whose own error is `T`.
pub type DeserializerError<T, D> = ErrorAdapter<Either<BinaryDeserializerError, T>, D>;

/// The decoder: a reader, a byte order and, as types, the delegate that
/// reads structural markers and the collector of custom errors.
pub struct BinaryDeserializer<'de, R, H, D> where
    R: Read<'de>,
    H: BinaryDeserializerDelegate,
    D: DisplayCollector,
 {
    read: R,
    order: Endian,
    phantom_data: PhantomData<&'de mut (H, D)>,
}

impl<'de, R, H, D> BinaryDeserializer<'de, R, H, D> where
    R: Read<'de>,
    H: BinaryDeserializerDelegate,
    D: DisplayCollector,
 {
    /// The reader under the decoder.
    pub closed spec fn source(&self) -> R {
        self.read
    }

    /// The byte order of fixed-width numbers.
    pub closed spec fn byte_order(&self) -> Endian {
        self.order
    }

    /// The bytes that have not been decoded yet.
    pub open spec fn remaining(&self) -> Seq<u8> {
        self.source().remaining()
    }

    /// Whether the reader lends its storage.
    pub open spec fn borrows(&self) -> bool {
        self.source().borrows()
    }

    /// `self` is `before` after exactly `count` bytes were consumed.
    pub open spec fn advanced(&self, before: &Self, count: int) -> bool {
        &&& self.remaining() =~= before.remaining().skip(count)
        &&& self.borrows() == before.borrows()
        &&& self.byte_order() == before.byte_order()
    }

    /// A decoder that reads from `read` in the given byte order.
    pub fn new(read: R, order: Endian) -> (r: Self)
        ensures
            r.source() == read,
            r.byte_order() == order,
    {
        BinaryDeserializer { read, order, phantom_data: PhantomData }
    }

    /// The reader, with what is left in it.
    pub fn into_inner(self) -> (r: R)
        ensures
            r == self.source(),
    {
        self.read
    }

    /// Consumes `length` bytes: lent where the reader lends, staged in a
    /// fresh buffer where it does not. A failed read consumes nothing.
    pub fn fetch(&mut self, length: usize) -> (r: Result<Fetched<'de>, R::Error>)
        ensures
            match r {
                Ok(bytes) => {
                    &&& length <= old(self).remaining().len()
                    &&& bytes@ == old(self).remaining().subrange(0, length as int)
                    &&& bytes is Borrowed <==> old(self).borrows()
                    &&& final(self).advanced(old(self), length as int)
                },
                Err(e) => {
                    &&& length > old(self).remaining().len()
                    &&& e == R::shortfall(old(self).remaining().len(), length)
                    &&& final(self).advanced(old(self), 0)
                },
            },
    {
        match self.read.read(length) {
            Some(Ok(bytes)) => Ok(Fetched::Borrowed(bytes)),
            Some(Err(e)) => Err(e),
            None => {
                let mut buffer = zeroed(length);
                match self.read.read_in_buffer(&mut buffer, length) {
                    Ok(()) => {
                        assert(buffer@ =~= old(self).remaining().subrange(0, length as int));
                        Ok(Fetched::Owned(buffer))
                    },
                    Err(e) => Err(e),
                }
            },
        }
    }
}

impl<'de, R, H, D> BinaryDeserializer<'de, R, H, D> where
    R: Read<'de>,
    H: BinaryDeserializerDelegate,
    D: DisplayCollector,
 {
    /// The error that wraps a failure of the decoder itself.
    pub open spec fn codec(e: BinaryDeserializerError) -> DeserializerError<R::Error, D> {
        ErrorAdapter::Inner(Either::Left(e))
    }

    /// The error that wraps a failure of the reader.
    pub open spec fn transport(e: R::Error) -> DeserializerError<R::Error, D> {
        ErrorAdapter::Inner(Either::Right(e))
    }

    /// The next `width` bytes.
    pub open spec fn head(&self, width: int) -> Seq<u8> {
        self.remaining().subrange(0, width)
    }

    /// The error of a read of `width` bytes when fewer remain.
    pub open spec fn short(&self, width: usize) -> DeserializerError<R::Error, D> {
        Self::transport(R::shortfall(self.remaining().len(), width))
    }

    /// `self` and `r` are what reading a value of exactly `width` bytes out of
    /// `before` gives: the value and `width` bytes consumed where that many
    /// remained, else the reader's error and nothing consumed.
    pub open spec fn reads<V>(
        &self,
        before: &Self,
        r: Result<V, DeserializerError<R::Error, D>>,
        width: usize,
        value: V,
    ) -> bool {
        match r {
            Ok(v) => {
                &&& before.remaining().len() >= width
                &&& v == value
                &&& self.advanced(before, width as int)
            },
            Err(e) => {
                &&& before.remaining().len() < width
                &&& e == before.short(width)
                &&& self.advanced(before, 0)
            },
        }
    }

    /// Always fails: nothing on the wire says of what kind the next value is.
    pub fn deserialize_any(&mut self) -> (r: Result<(), DeserializerError<R::Error, D>>)
        ensures
            r == Err::<(), _>(Self::codec(BinaryDeserializerError::NotSupported)),
            *final(self) == *old(self),
    {
        Err(ErrorAdapter::Inner(Either::Left(BinaryDeserializerError::NotSupported)))
    }

    /// One byte: zero is `false`, anything else `true`.
    pub fn deserialize_bool(&mut self) -> (r: Result<bool, DeserializerError<R::Error, D>>)
        ensures
            final(self).reads(old(self), r, 1, old(self).remaining()[0] != 0),
    {
        match self.fetch(1) {
            Ok(bytes) => Ok(bytes.as_slice()[0] != 0),
            Err(e) => Err(ErrorAdapter::Inner(Either::Right(e))),
        }
    }

    /// One byte, read as a signed number.
    pub fn deserialize_i8(&mut self) -> (r: Result<i8, DeserializerError<R::Error, D>>)
        ensures
            final(self).reads(old(self), r, 1, old(self).remaining()[0] as i8),
    {
        match self.fetch(1) {
            Ok(bytes) => Ok(bytes.as_slice()[0] as i8),
            Err(e) => Err(ErrorAdapter::Inner(Either::Right(e))),
        }
    }

    /// Two bytes in the decoder's byte order, read as a signed number.
    pub fn deserialize_i16(&mut self) -> (r: Result<i16, DeserializerError<R::Error, D>>)
        ensures
            final(self).reads(
                old(self),
                r,
                2,
                old(self).byte_order().u16_at(old(self).remaining()) as i16,
            ),
    {
        match self.fetch(2) {
            Ok(bytes) => {
                assert(bytes@.subrange(0, 2) =~= old(self).remaining().subrange(0, 2));
                Ok(self.order.read_u16(bytes.as_slice()) as i16)
            },
            Err(e) => Err(ErrorAdapter::Inner(Either::Right(e))),
        }
    }

    /// Four bytes in the decoder's byte order, read as a signed number.
    pub fn deserialize_i32(&mut self) -> (r: Result<i32, DeserializerError<R::Error, D>>)
        ensures
            final(self).reads(
                old(self),
                r,
                4,
                old(self).byte_order().u32_at(old(self).remaining()) as i32,
            ),
    {
        match self.fetch(4) {
            Ok(bytes) => {
                assert(bytes@.subrange(0, 4) =~= old(self).remaining().subrange(0, 4));
                Ok(self.order.read_u32(bytes.as_slice()) as i32)
            },
            Err(e) => Err(ErrorAdapter::Inner(Either::Right(e))),
        }
    }

    /// Eight bytes in the decoder's byte order, read as a signed number.
    pub fn deserialize_i64(&mut self) -> (r: Result<i64, DeserializerError<R::Error, D>>)
        ensures
            final(self).reads(
                old(self),
                r,
                8,
                old(self).byte_order().u64_at(old(self).remaining()) as i64,
            ),
    {
        match self.fetch(8) {
            Ok(bytes) => {
                assert(bytes@.subrange(0, 8) =~= old(self).remaining().subrange(0, 8));
                Ok(self.order.read_u64(bytes.as_slice()) as i64)
            },
            Err(e) => Err(ErrorAdapter::Inner(Either::Right(e))),
        }
    }

    /// One byte.
    pub fn deserialize_u8(&mut self) -> (r: Result<u8, DeserializerError<R::Error, D>>)
        ensures
            final(self).reads(old(self), r, 1, old(self).remaining()[0]),
    {
        match self.fetch(1) {
            Ok(bytes) => Ok(bytes.as_slice()[0]),
            Err(e) => Err(ErrorAdapter::Inner(Either::Right(e))),
        }
    }

    /// Two bytes in the decoder's byte order.
    pub fn deserialize_u16(&mut self) -> (r: Result<u16, DeserializerError<R::Error, D>>)
        ensures
            final(self).reads(
                old(self),
                r,
                2,
                old(self).byte_order().u16_at(old(self).remaining()),
            ),
    {
        match self.fetch(2) {
            Ok(bytes) => {
                assert(bytes@.subrange(0, 2) =~= old(self).remaining().subrange(0, 2));
                Ok(self.order.read_u16(bytes.as_slice()))
            },
            Err(e) => Err(ErrorAdapter::Inner(Either::Right(e))),
        }
    }

    /// Four bytes in the decoder's byte order.
    pub fn deserialize_u32(&mut self) -> (r: Result<u32, DeserializerError<R::Error, D>>)
        ensures
            final(self).reads(
                old(self),
                r,
                4,
                old(self).byte_order().u32_at(old(self).remaining()),
            ),
    {
        match self.fetch(4) {
            Ok(bytes) => {
                assert(bytes@.subrange(0, 4) =~= old(self).remaining().subrange(0, 4));
                Ok(self.order.read_u32(bytes.as_slice()))
            },
            Err(e) => Err(ErrorAdapter::Inner(Either::Right(e))),
        }
    }

    /// Eight bytes in the decoder's byte order.
    pub fn deserialize_u64(&mut self) -> (r: Result<u64, DeserializerError<R::Error, D>>)
        ensures
            final(self).reads(
                old(self),
                r,
                8,
                old(self).byte_order().u64_at(old(self).remaining()),
            ),
    {
        match self.fetch(8) {
            Ok(bytes) => {
                assert(bytes@.subrange(0, 8) =~= old(self).remaining().subrange(0, 8));
                Ok(self.order.read_u64(bytes.as_slice()))
            },
            Err(e) => Err(ErrorAdapter::Inner(Either::Right(e))),
        }
    }
}

impl<'de, R, H, D> BinaryDeserializer<'de, R, H, D> where
    R: Read<'de>,
    H: BinaryDeserializerDelegate,
    D: DisplayCollector,
 {
    /// The length that the next length token announces.
    pub open spec fn announced(&self) -> usize {
        H::length_value(self.byte_order(), self.head(H::length_width() as int))
    }

    /// The bytes that follow the next length token, as many as it announces.
    pub open spec fn payload(&self) -> Seq<u8> {
        self.remaining().subrange(
            H::length_width() as int,
            H::length_width() + self.announced(),
        )
    }

    /// Whether the next length token and the bytes that it announces are
    /// there in full.
    pub open spec fn holds_payload(&self) -> bool {
        &&& self.remaining().len() >= H::length_width()
        &&& self.remaining().len() - H::length_width() >= self.announced()
    }

    /// `self` and `e` are how reading a length token and its payload out of
    /// `before` fails for want of bytes: at the token, with nothing consumed,
    /// or at the payload, with the token consumed.
    pub open spec fn runs_short(&self, before: &Self, e: DeserializerError<R::Error, D>) -> bool {
        if before.remaining().len() < H::length_width() {
            &&& e == before.short(H::length_width())
            &&& self.advanced(before, 0)
        } else {
            &&& e == Self::transport(
                R::shortfall(
                    (before.remaining().len() - H::length_width()) as nat,
                    before.announced(),
                ),
            )
            &&& self.advanced(before, H::length_width() as int)
        }
    }

    /// A character: as many bytes as the delegate asks for, decoded by the
    /// delegate. A code that is no character is reported with the code.
    pub fn deserialize_char(&mut self) -> (r: Result<char, DeserializerError<R::Error, D>>)
        ensures
            match r {
                Ok(c) => {
                    &&& old(self).remaining().len() >= H::char_width()
                    &&& H::char_value(
                        old(self).byte_order(),
                        old(self).head(H::char_width() as int),
                    ) == Ok::<char, u32>(c)
                    &&& final(self).advanced(old(self), H::char_width() as int)
                },
                Err(e) => if old(self).remaining().len() < H::char_width() {
                    &&& e == old(self).short(H::char_width())
                    &&& final(self).advanced(old(self), 0)
                } else {
                    &&& H::char_value(
                        old(self).byte_order(),
                        old(self).head(H::char_width() as int),
                    ) matches Err(code)
                    &&& e == Self::codec(BinaryDeserializerError::WrongChar(code))
                    &&& final(self).advanced(old(self), H::char_width() as int)
                },
            },
    {
        match self.fetch(H::char_size()) {
            Ok(bytes) => match H::decode_char(self.order, bytes.as_slice()) {
                Ok(c) => Ok(c),
                Err(code) => Err(
                    ErrorAdapter::Inner(Either::Left(BinaryDeserializerError::WrongChar(code))),
                ),
            },
            Err(e) => Err(ErrorAdapter::Inner(Either::Right(e))),
        }
    }

    /// A string that is lent by the reader: a length token, then that many
    /// bytes, which must be UTF-8. Only a reader that lends can give one.
    pub fn deserialize_str(&mut self) -> (r: Result<&'de str, DeserializerError<R::Error, D>>)
        ensures
            match r {
                Ok(text) => {
                    &&& old(self).borrows()
                    &&& old(self).holds_payload()
                    &&& valid_utf8(old(self).payload())
                    &&& encode_utf8(text@) == old(self).payload()
                    &&& text@ == decode_utf8(old(self).payload())
                    &&& final(self).advanced(
                        old(self),
                        H::length_width() + old(self).announced(),
                    )
                },
                Err(e) => if !old(self).borrows() {
                    &&& e == Self::codec(BinaryDeserializerError::CannotReadBorrowed)
                    &&& final(self).advanced(old(self), 0)
                } else if !old(self).holds_payload() {
                    final(self).runs_short(old(self), e)
                } else {
                    &&& !valid_utf8(old(self).payload())
                    &&& e matches ErrorAdapter::Inner(
                        Either::Left(BinaryDeserializerError::Utf8Error(_)),
                    )
                    &&& final(self).advanced(
                        old(self),
                        H::length_width() + old(self).announced(),
                    )
                },
            },
    {
        let length = match self.read.read(H::length_size()) {
            Some(Ok(bytes)) => H::decode_length(self.order, bytes),
            Some(Err(e)) => {
                return Err(ErrorAdapter::Inner(Either::Right(e)));
            },
            None => {
                return Err(
                    ErrorAdapter::Inner(Either::Left(BinaryDeserializerError::CannotReadBorrowed)),
                );
            },
        };
        match self.read.read(length) {
            Some(Ok(bytes)) => {
                assert(bytes@ =~= old(self).payload());
                match core::str::from_utf8(bytes) {
                    Ok(text) => {
                        proof {
                            vstd::utf8::encode_utf8_decode_utf8(text@);
                        }
                        Ok(text)
                    },
                    Err(e) => Err(
                        ErrorAdapter::Inner(Either::Left(BinaryDeserializerError::Utf8Error(e))),
                    ),
                }
            },
            Some(Err(e)) => Err(ErrorAdapter::Inner(Either::Right(e))),
            None => Err(
                ErrorAdapter::Inner(Either::Left(BinaryDeserializerError::CannotReadBorrowed)),
            ),
        }
    }

    /// A string of its own: a length token, then that many bytes, which must
    /// be UTF-8. The bytes are copied, so any reader can give one.
    pub fn deserialize_string(&mut self) -> (r: Result<String, DeserializerError<R::Error, D>>)
        ensures
            match r {
                Ok(text) => {
                    &&& old(self).holds_payload()
                    &&& valid_utf8(old(self).payload())
                    &&& encode_utf8(text@) == old(self).payload()
                    &&& text@ == decode_utf8(old(self).payload())
                    &&& final(self).advanced(
                        old(self),
                        H::length_width() + old(self).announced(),
                    )
                },
                Err(e) => if !old(self).holds_payload() {
                    final(self).runs_short(old(self), e)
                } else {
                    &&& !valid_utf8(old(self).payload())
                    &&& e matches ErrorAdapter::Inner(
                        Either::Left(BinaryDeserializerError::FromUtf8Error(_)),
                    )
                    &&& final(self).advanced(
                        old(self),
                        H::length_width() + old(self).announced(),
                    )
                },
            },
    {
        match self.deserialize_byte_buf() {
            Ok(bytes) => match String::from_utf8(bytes) {
                Ok(text) => {
                    proof {
                        vstd::utf8::encode_utf8_decode_utf8(text@);
                    }
                    Ok(text)
                },
                Err(e) => Err(
                    ErrorAdapter::Inner(Either::Left(BinaryDeserializerError::FromUtf8Error(e))),
                ),
            },
            Err(e) => Err(e),
        }
    }

    /// A byte string that is lent by the reader: a length token, then that
    /// many bytes. Only a reader that lends can give one.
    pub fn deserialize_bytes(&mut self) -> (r: Result<&'de [u8], DeserializerError<R::Error, D>>)
        ensures
            match r {
                Ok(bytes) => {
                    &&& old(self).borrows()
                    &&& old(self).holds_payload()
                    &&& bytes@ == old(self).payload()
                    &&& final(self).advanced(
                        old(self),
                        H::length_width() + old(self).announced(),
                    )
                },
                Err(e) => if !old(self).borrows() {
                    &&& e == Self::codec(BinaryDeserializerError::CannotReadBorrowed)
                    &&& final(self).advanced(old(self), 0)
                } else {
                    &&& !old(self).holds_payload()
                    &&& final(self).runs_short(old(self), e)
                },
            },
    {
        let length = match self.read.read(H::length_size()) {
            Some(Ok(bytes)) => H::decode_length(self.order, bytes),
            Some(Err(e)) => {
                return Err(ErrorAdapter::Inner(Either::Right(e)));
            },
            None => {
                return Err(
                    ErrorAdapter::Inner(Either::Left(BinaryDeserializerError::CannotReadBorrowed)),
                );
            },
        };
        match self.read.read(length) {
            Some(Ok(bytes)) => {
                assert(bytes@ =~= old(self).payload());
                Ok(bytes)
            },
            Some(Err(e)) => Err(ErrorAdapter::Inner(Either::Right(e))),
            None => Err(
                ErrorAdapter::Inner(Either::Left(BinaryDeserializerError::CannotReadBorrowed)),
            ),
        }
    }

    /// A byte string of its own: a length token, then that many bytes. The
    /// bytes are copied, so any reader can give one.
    pub fn deserialize_byte_buf(&mut self) -> (r: Result<Vec<u8>, DeserializerError<R::Error, D>>)
        ensures
            match r {
                Ok(bytes) => {
                    &&& old(self).holds_payload()
                    &&& bytes@ == old(self).payload()
                    &&& final(self).advanced(
                        old(self),
                        H::length_width() + old(self).announced(),
                    )
                },
                Err(e) => {
                    &&& !old(self).holds_payload()
                    &&& final(self).runs_short(old(self), e)
                },
            },
    {
        let length = match self.fetch(H::length_size()) {
            Ok(bytes) => H::decode_length(self.order, bytes.as_slice()),
            Err(e) => {
                return Err(ErrorAdapter::Inner(Either::Right(e)));
            },
        };
        match self.fetch(length) {
            Ok(bytes) => {
                assert(bytes@ =~= old(self).payload());
                Ok(bytes.into_vec())
            },
            Err(e) => Err(ErrorAdapter::Inner(Either::Right(e))),
        }
    }

    /// The discriminant of an option: `false` for 0, where nothing follows,
    /// and `true` for 1, where the value follows. Any other discriminant is
    /// reported with its number.
    pub fn deserialize_option(&mut self) -> (r: Result<bool, DeserializerError<R::Error, D>>)
        ensures
            match r {
                Ok(present) => {
                    &&& old(self).remaining().len() >= H::variant_width()
                    &&& old(self).tag() == (if present {
                        1u32
                    } else {
                        0u32
                    })
                    &&& final(self).advanced(old(self), H::variant_width() as int)
                },
                Err(e) => if old(self).remaining().len() < H::variant_width() {
                    &&& e == old(self).short(H::variant_width())
                    &&& final(self).advanced(old(self), 0)
                } else {
                    &&& old(self).tag() > 1
                    &&& e == Self::codec(
                        BinaryDeserializerError::UnexpectedVariant(old(self).tag()),
                    )
                    &&& final(self).advanced(old(self), H::variant_width() as int)
                },
            },
    {
        match self.fetch(H::variant_size()) {
            Ok(bytes) => {
                let variant = H::decode_variant(self.order, bytes.as_slice());
                if variant == 0 {
                    Ok(false)
                } else if variant == 1 {
                    Ok(true)
                } else {
                    Err(
                        ErrorAdapter::Inner(
                            Either::Left(BinaryDeserializerError::UnexpectedVariant(variant)),
                        ),
                    )
                }
            },
            Err(e) => Err(ErrorAdapter::Inner(Either::Right(e))),
        }
    }

    /// The discriminant that the next variant token spells.
    pub open spec fn tag(&self) -> u32 {
        H::variant_value(self.byte_order(), self.head(H::variant_width() as int))
    }
}

impl<'de, R, H, D> BinaryDeserializer<'de, R, H, D> where
    R: Read<'de>,
    H: BinaryDeserializerDelegate,
    D: DisplayCollector,
 {
    /// A decoder over the same reader for the time of the borrow. What it
    /// consumes is consumed from `self`.
    pub fn split(&mut self) -> (r: BinaryDeserializer<'de, &mut R, H, D>)
        ensures
            r.remaining() == old(self).remaining(),
            r.borrows() == old(self).borrows(),
            r.byte_order() == old(self).byte_order(),
            final(self).byte_order() == old(self).byte_order(),
            final(self).source() == *final(r.source()),
    {
        BinaryDeserializer { read: &mut self.read, order: self.order, phantom_data: PhantomData }
    }

    /// A unit takes no bytes.
    pub fn deserialize_unit(&mut self) -> (r: Result<(), DeserializerError<R::Error, D>>)
        ensures
            r is Ok,
            *final(self) == *old(self),
    {
        Ok(())
    }

    /// A unit struct takes no bytes; its name is not on the wire.
    pub fn deserialize_unit_struct(&mut self, name: &str) -> (r: Result<
        (),
        DeserializerError<R::Error, D>,
    >)
        ensures
            r is Ok,
            *final(self) == *old(self),
    {
        let _ = name;
        Ok(())
    }

    /// A newtype struct is its one field: nothing stands before it, and the
    /// caller decodes the field next.
    pub fn deserialize_newtype_struct(&mut self, name: &str) -> (r: Result<
        (),
        DeserializerError<R::Error, D>,
    >)
        ensures
            r is Ok,
            *final(self) == *old(self),
    {
        let _ = name;
        Ok(())
    }

    /// The cursor over a sequence whose length, if the wire holds one, is
    /// read at the first pull.
    pub fn deserialize_seq(&mut self) -> (r: SequenceAccess)
        ensures
            r == SequenceAccess::streamed(),
            *final(self) == *old(self),
    {
        SequenceAccess::new()
    }

    /// The cursor over the `len` elements of a tuple.
    pub fn deserialize_tuple(&mut self, len: usize) -> (r: SequenceAccess)
        ensures
            r == SequenceAccess::counted(len),
            *final(self) == *old(self),
    {
        SequenceAccess::new_with_length(len)
    }

    /// The cursor over the `len` fields of a tuple struct; its name is not on
    /// the wire.
    pub fn deserialize_tuple_struct(&mut self, name: &str, len: usize) -> (r: SequenceAccess)
        ensures
            r == SequenceAccess::counted(len),
            *final(self) == *old(self),
    {
        let _ = name;
        self.deserialize_tuple(len)
    }

    /// The cursor over a map, whose keys and values come in turn: first a key,
    /// then its value, then the next key.
    pub fn deserialize_map(&mut self) -> (r: SequenceAccess)
        ensures
            r == SequenceAccess::streamed(),
            *final(self) == *old(self),
    {
        SequenceAccess::new()
    }

    /// The cursor over the fields of a struct, one pull for each name in
    /// `fields`; neither the struct's name nor the fields' are on the wire.
    pub fn deserialize_struct(&mut self, name: &str, fields: &[&str]) -> (r: SequenceAccess)
        ensures
            r == SequenceAccess::counted(fields@.len() as usize),
            *final(self) == *old(self),
    {
        let _ = name;
        self.deserialize_tuple(fields.len())
    }

    /// The index of the variant that follows: four bytes in the decoder's byte
    /// order. The caller then decodes the variant's content with
    /// `unit_variant`, `newtype_variant`, `tuple_variant` or `struct_variant`.
    pub fn deserialize_enum(&mut self, name: &str, variants: &[&str]) -> (r: Result<
        u32,
        DeserializerError<R::Error, D>,
    >)
        ensures
            final(self).reads(
                old(self),
                r,
                4,
                old(self).byte_order().u32_at(old(self).remaining()),
            ),
    {
        let _ = name;
        let _ = variants;
        self.variant_seed()
    }

    /// The index of a variant: a plain 32-bit number, whatever the delegate
    /// says of discriminants.
    pub fn variant_seed(&mut self) -> (r: Result<u32, DeserializerError<R::Error, D>>)
        ensures
            final(self).reads(
                old(self),
                r,
                4,
                old(self).byte_order().u32_at(old(self).remaining()),
            ),
    {
        self.deserialize_u32()
    }

    /// A unit variant has no content.
    pub fn unit_variant(&mut self) -> (r: Result<(), DeserializerError<R::Error, D>>)
        ensures
            r is Ok,
            *final(self) == *old(self),
    {
        Ok(())
    }

    /// A newtype variant is its one field: nothing stands before it, and the
    /// caller decodes the field next.
    pub fn newtype_variant(&mut self) -> (r: Result<(), DeserializerError<R::Error, D>>)
        ensures
            r is Ok,
            *final(self) == *old(self),
    {
        Ok(())
    }

    /// The cursor over the `len` fields of a tuple variant.
    pub fn tuple_variant(&mut self, len: usize) -> (r: SequenceAccess)
        ensures
            r == SequenceAccess::counted(len),
            *final(self) == *old(self),
    {
        self.deserialize_tuple(len)
    }

    /// The cursor over the fields of a struct variant, one pull for each name
    /// in `fields`.
    pub fn struct_variant(&mut self, fields: &[&str]) -> (r: SequenceAccess)
        ensures
            r == SequenceAccess::counted(fields@.len() as usize),
            *final(self) == *old(self),
    {
        self.deserialize_tuple(fields.len())
    }

    /// Always fails: the wire holds no names.
    pub fn deserialize_identifier(&mut self) -> (r: Result<(), DeserializerError<R::Error, D>>)
        ensures
            r == Err::<(), _>(Self::codec(BinaryDeserializerError::NotSupported)),
            *final(self) == *old(self),
    {
        Err(ErrorAdapter::Inner(Either::Left(BinaryDeserializerError::NotSupported)))
    }

    /// Always fails: a value cannot be skipped without knowing its kind.
    pub fn deserialize_ignored_any(&mut self) -> (r: Result<(), DeserializerError<R::Error, D>>)
        ensures
            r == Err::<(), _>(Self::codec(BinaryDeserializerError::NotSupported)),
            *final(self) == *old(self),
    {
        Err(ErrorAdapter::Inner(Either::Left(BinaryDeserializerError::NotSupported)))
    }

    /// The format is binary.
    pub fn is_human_readable(&self) -> (r: bool)
        ensures
            !r,
    {
        false
    }
}

/// The cursor over the elements of a container: how many are still to come,
/// where that is known.
#[derive(Debug, Clone, Copy, PartialEq, Eq, Structural)]
pub struct SequenceAccess {
    /// The number of elements still to come; `None` where the elements run
    /// until the reader has no more bytes.
    pub len: Option<usize>,
    /// Whether the length token of a streamed sequence is still to be read.
    pub pending: bool,
}

impl SequenceAccess {
    /// The cursor over a sequence whose length is read at the first pull.
    pub open spec fn streamed() -> Self {
        SequenceAccess { len: None, pending: true }
    }

    /// The cursor over exactly `length` elements.
    pub open spec fn counted(length: usize) -> Self {
        SequenceAccess { len: Some(length), pending: false }
    }

    /// A cursor over a sequence whose length is read at the first pull.
    pub fn new() -> (r: Self)
        ensures
            r == Self::streamed(),
    {
        SequenceAccess { len: None, pending: true }
    }

    /// A cursor over exactly `length` elements.
    pub fn new_with_length(length: usize) -> (r: Self)
        ensures
            r == Self::counted(length),
    {
        SequenceAccess { len: Some(length), pending: false }
    }

    /// Whether a pull yields an element, once the length is settled: with a
    /// count, while the count is above zero, whatever the reader holds;
    /// without one, while the reader has bytes. `left` is the number of bytes
    /// that the reader has.
    pub open spec fn due(&self, left: nat) -> bool {
        match self.len {
            Some(n) => n > 0,
            None => left > 0,
        }
    }

    /// The cursor after one pull, once the length is settled: a count above
    /// zero is one less.
    pub open spec fn advance(&self) -> Self {
        match self.len {
            Some(n) => Self::counted(
                if n > 0 {
                    (n - 1) as usize
                } else {
                    0
                },
            ),
            None => SequenceAccess { len: None, pending: false },
        }
    }

    /// The cursor after `k` pulls, once the length is settled.
    pub open spec fn after(&self, k: nat) -> Self
        decreases k,
    {
        if k == 0 {
            *self
        } else {
            self.after((k - 1) as nat).advance()
        }
    }

    /// `self`, `d` and `r` are what a pull on `before` and `d_before` gives.
    ///
    /// The first pull on a streamed sequence reads the sequence's length
    /// token, as wide as the delegate says, and settles the length by it; if
    /// the token is not there in full, the pull fails and nothing changes.
    /// Every other pull leaves the decoder alone.
    pub open spec fn pulls<'de, R, H, D>(
        &self,
        before: &Self,
        d: &BinaryDeserializer<'de, R, H, D>,
        d_before: &BinaryDeserializer<'de, R, H, D>,
        r: Result<bool, DeserializerError<R::Error, D>>,
    ) -> bool where R: Read<'de>, H: BinaryDeserializerDelegate, D: DisplayCollector {
        if before.pending {
            match r {
                Ok(element) => {
                    let settled = SequenceAccess { len: d_before.sequence_length(), pending: false };
                    &&& d_before.remaining().len() >= H::sequence_length_width()
                    &&& d.advanced(d_before, H::sequence_length_width() as int)
                    &&& element == settled.due(d.remaining().len())
                    &&& *self == settled.advance()
                },
                Err(e) => {
                    &&& d_before.remaining().len() < H::sequence_length_width()
                    &&& e == d_before.short(H::sequence_length_width())
                    &&& d.advanced(d_before, 0)
                    &&& *self == *before
                },
            }
        } else {
            &&& r matches Ok(element) && element == before.due(d_before.remaining().len())
            &&& *self == before.advance()
            &&& d.advanced(d_before, 0)
        }
    }

    /// Whether a pull that succeeds yields an element.
    pub open spec fn has_next<'de, R, H, D>(&self, d: &BinaryDeserializer<'de, R, H, D>) -> bool where
        R: Read<'de>,
        H: BinaryDeserializerDelegate,
        D: DisplayCollector,
     {
        if self.pending {
            d.remaining().len() >= H::sequence_length_width() ==> (SequenceAccess {
                len: d.sequence_length(),
                pending: false,
            }).due((d.remaining().len() - H::sequence_length_width()) as nat)
        } else {
            self.due(d.remaining().len())
        }
    }

    /// Asks whether another element is due, and counts it where it is. The
    /// caller decodes the element next, from the same decoder.
    pub fn next_element<'de, R, H, D>(
        &mut self,
        d: &mut BinaryDeserializer<'de, R, H, D>,
    ) -> (r: Result<bool, DeserializerError<R::Error, D>>) where
        R: Read<'de>,
        H: BinaryDeserializerDelegate,
        D: DisplayCollector,

        ensures
            final(self).pulls(old(self), final(d), old(d), r),
    {
        if self.pending {
            match d.fetch(H::sequence_length_size()) {
                Ok(bytes) => {
                    self.len = H::decode_sequence_length(d.order, bytes.as_slice());
                    self.pending = false;
                },
                Err(e) => {
                    return Err(ErrorAdapter::Inner(Either::Right(e)));
                },
            }
        }
        match self.len {
            Some(length) => {
                if length > 0 {
                    self.len = Some(length - 1);
                    Ok(true)
                } else {
                    Ok(false)
                }
            },
            None => match d.read.is() {
                Some(()) => Ok(true),
                None => Ok(false),
            },
        }
    }

    /// Asks whether another entry of a map is due. The caller decodes the
    /// key next, and then calls `next_value`.
    pub fn next_key<'de, R, H, D>(&mut self, d: &mut BinaryDeserializer<'de, R, H, D>) -> (r:
        Result<bool, DeserializerError<R::Error, D>>) where
        R: Read<'de>,
        H: BinaryDeserializerDelegate,
        D: DisplayCollector,

        ensures
            final(self).pulls(old(self), final(d), old(d), r),
    {
        self.next_element(d)
    }

    /// Counts the value of the entry whose key was decoded last. The caller
    /// decodes the value next. A value must be due: a map whose last key has
    /// no value cannot be decoded.
    pub fn next_value<'de, R, H, D>(&mut self, d: &mut BinaryDeserializer<'de, R, H, D>) -> (r:
        Result<(), DeserializerError<R::Error, D>>) where
        R: Read<'de>,
        H: BinaryDeserializerDelegate,
        D: DisplayCollector,

        requires
            old(self).has_next(old(d)),
        ensures
            final(self).pulls(
                old(self),
                final(d),
                old(d),
                match r {
                    Ok(()) => Ok(true),
                    Err(e) => Err(e),
                },
            ),
    {
        match self.next_element(d) {
            Ok(_) => Ok(()),
            Err(e) => Err(e),
        }
    }
}

impl<'de, R, H, D> BinaryDeserializer<'de, R, H, D> where
    R: Read<'de>,
    H: BinaryDeserializerDelegate,
    D: DisplayCollector,
 {
    /// The length that the next sequence length token announces; `None` where
    /// the sequence runs until the reader has no more bytes.
    pub open spec fn sequence_length(&self) -> Option<usize> {
        H::sequence_length_value(
            self.byte_order(),
            self.head(H::sequence_length_width() as int),
        )
    }
}

} // verus!
