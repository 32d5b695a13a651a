//! The byte transport: where decoded bytes come from and encoded bytes go.
//!
//! A reader either lends a region of its own storage, which costs no copy, or
//! stages bytes into a buffer of the caller. A writer takes bytes as a whole or
//! refuses them.

use crate::err::{decimal, decimal_text};
use core::ops::Range;
use vstd::prelude::*;
use vstd::slice::slice_subrange;
use vstd::string::StringExecFns;

verus! {

/// A read asked for more bytes than were left, or a write for more room than
/// was left: `missing.start` is what was there and `missing.end` what was asked.
#[derive(Debug, PartialEq, Eq)]
pub struct IoError {
    pub missing: Range<usize>,
}

impl IoError {
    /// The text of the error.
    pub open spec fn text(&self) -> Seq<char> {
        "failed to read "@ + decimal(self.missing.start as nat) + ".."@ + decimal(
            self.missing.end as nat,
        )
    }

    /// The text of the error: the range of bytes that was not there.
    pub fn message(&self) -> (r: String)
        ensures
            r@ == self.text(),
    {
        let start = decimal_text(self.missing.start as u64);
        let end = decimal_text(self.missing.end as u64);
        String::from_str("failed to read ").concat(start.as_str()).concat("..").concat(
            end.as_str(),
        )
    }
}

/// A source of bytes that are consumed from the front.
///
/// The spec functions are the model that the contracts speak of. An
/// implementation states them; one that does not leaves them unspecified.
pub trait Read<'de> {
    /// What a read reports when fewer bytes remain than it asked for.
    type Error;

    /// The bytes that have not been consumed yet, next first.
    open spec fn remaining(&self) -> Seq<u8> {
        arbitrary()
    }

    /// Whether `read` lends regions of the source's own storage. A source that
    /// does not is read through `read_in_buffer` alone.
    open spec fn borrows(&self) -> bool {
        arbitrary()
    }

    /// The error of a read of `length` bytes when only `available` remain.
    open spec fn shortfall(available: nat, length: usize) -> Self::Error {
        arbitrary()
    }

    /// Consumes `length` bytes and lends them, if the source lends at all.
    /// `None` says that it does not; a failed read consumes nothing.
    fn read(&mut self, length: usize) -> (r: Option<Result<&'de [u8], Self::Error>>)
        ensures
            final(self).borrows() == old(self).borrows(),
            r is Some <==> old(self).borrows(),
            match r {
                Some(Ok(bytes)) => {
                    &&& length <= old(self).remaining().len()
                    &&& bytes@ == old(self).remaining().subrange(0, length as int)
                    &&& final(self).remaining() == old(self).remaining().skip(length as int)
                },
                Some(Err(e)) => {
                    &&& length > old(self).remaining().len()
                    &&& e == Self::shortfall(old(self).remaining().len(), length)
                    &&& final(self).remaining() == old(self).remaining()
                },
                None => final(self).remaining() == old(self).remaining(),
            },
    ;

    /// Consumes `length` bytes and copies them to the front of `buffer`, whose
    /// other bytes stay. A failed read consumes nothing.
    fn read_in_buffer(&mut self, buffer: &mut Vec<u8>, length: usize) -> (r: Result<
        (),
        Self::Error,
    >)
        requires
            length <= old(buffer)@.len(),
        ensures
            final(self).borrows() == old(self).borrows(),
            final(buffer)@.len() == old(buffer)@.len(),
            match r {
                Ok(()) => {
                    &&& length <= old(self).remaining().len()
                    &&& final(buffer)@ == old(self).remaining().subrange(0, length as int) + old(
                        buffer,
                    )@.skip(length as int)
                    &&& final(self).remaining() == old(self).remaining().skip(length as int)
                },
                Err(e) => {
                    &&& length > old(self).remaining().len()
                    &&& e == Self::shortfall(old(self).remaining().len(), length)
                    &&& final(self).remaining() == old(self).remaining()
                },
            },
    ;

    /// `Some` while bytes remain.
    fn is(&self) -> (r: Option<()>)
        ensures
            r is Some <==> self.remaining().len() > 0,
    ;
}

impl<'a, 'de, R> Read<'de> for &'a mut R where R: Read<'de> {
    type Error = R::Error;

    open spec fn remaining(&self) -> Seq<u8> {
        (**self).remaining()
    }

    open spec fn borrows(&self) -> bool {
        (**self).borrows()
    }

    open spec fn shortfall(available: nat, length: usize) -> Self::Error {
        R::shortfall(available, length)
    }

    fn read(&mut self, length: usize) -> (r: Option<Result<&'de [u8], Self::Error>>) {
        (&mut **self).read(length)
    }

    fn read_in_buffer(&mut self, buffer: &mut Vec<u8>, length: usize) -> (r: Result<
        (),
        Self::Error,
    >) {
        (&mut **self).read_in_buffer(buffer, length)
    }

    fn is(&self) -> (r: Option<()>) {
        (&**self).is()
    }
}

/// A reader over a slice. It lends regions of the slice itself, for as long as
/// the slice lives.
pub struct SliceReader<'de> {
    rest: &'de [u8],
}

impl<'de> SliceReader<'de> {
    /// A reader that has all of `bytes` before it.
    pub fn new(bytes: &'de [u8]) -> (r: Self)
        ensures
            r.remaining() == bytes@,
            r.borrows(),
    {
        SliceReader { rest: bytes }
    }

    /// The part of the slice that has not been consumed.
    pub fn as_slice(&self) -> (r: &'de [u8])
        ensures
            r@ == self.remaining(),
    {
        self.rest
    }
}

impl<'de> Read<'de> for SliceReader<'de> {
    type Error = IoError;

    closed spec fn remaining(&self) -> Seq<u8> {
        self.rest@
    }

    open spec fn borrows(&self) -> bool {
        true
    }

    open spec fn shortfall(available: nat, length: usize) -> IoError {
        IoError { missing: (available as usize)..length }
    }

    fn read(&mut self, length: usize) -> (r: Option<Result<&'de [u8], IoError>>) {
        let limit = self.rest.len();
        if limit < length {
            Some(Err(IoError { missing: limit..length }))
        } else {
            let bytes = slice_subrange(self.rest, 0, length);
            self.rest = slice_subrange(self.rest, length, limit);
            Some(Ok(bytes))
        }
    }

    fn read_in_buffer(&mut self, buffer: &mut Vec<u8>, length: usize) -> (r: Result<
        (),
        IoError,
    >) {
        let limit = self.rest.len();
        if limit < length {
            Err(IoError { missing: limit..length })
        } else {
            copy_to_front(buffer, self.rest, length);
            self.rest = slice_subrange(self.rest, length, limit);
            Ok(())
        }
    }

    fn is(&self) -> (r: Option<()>) {
        if self.rest.len() != 0 {
            Some(())
        } else {
            None
        }
    }
}

/// Copies the first `length` bytes of `source` over the first `length` bytes
/// of `buffer`.
fn copy_to_front(buffer: &mut Vec<u8>, source: &[u8], length: usize)
    requires
        length <= old(buffer)@.len(),
        length <= source@.len(),
    ensures
        final(buffer)@ == source@.subrange(0, length as int) + old(buffer)@.skip(length as int),
{
    let mut i: usize = 0;
    while i < length
        invariant
            i <= length,
            length <= source@.len(),
            buffer@.len() == old(buffer)@.len(),
            length <= buffer@.len(),
            forall|k: int| 0 <= k < i ==> buffer@[k] == source@[k],
            forall|k: int| i <= k < buffer@.len() ==> buffer@[k] == old(buffer)@[k],
        decreases length - i,
    {
        buffer.set(i, source[i]);
        i += 1;
    }
    assert(buffer@ =~= source@.subrange(0, length as int) + old(buffer)@.skip(length as int));
}

/// A reader that never lends: each read is staged through the caller's buffer.
pub struct ReadWrapper<T> {
    pub raw: T,
}

impl<T> ReadWrapper<T> {
    /// The source that the wrapper held, with what it has left.
    pub fn into_inner(self) -> (r: T)
        ensures
            r == self.raw,
    {
        self.raw
    }
}

impl<T> From<T> for ReadWrapper<T> {
    fn from(v: T) -> (r: Self) {
        ReadWrapper { raw: v }
    }
}

impl<T> vstd::std_specs::convert::FromSpecImpl<T> for ReadWrapper<T> {
    open spec fn obeys_from_spec() -> bool {
        true
    }

    open spec fn from_spec(v: T) -> Self {
        ReadWrapper { raw: v }
    }
}

impl<'de, 'a> Read<'de> for ReadWrapper<&'a [u8]> {
    type Error = IoError;

    open spec fn remaining(&self) -> Seq<u8> {
        self.raw@
    }

    open spec fn borrows(&self) -> bool {
        false
    }

    open spec fn shortfall(available: nat, length: usize) -> IoError {
        IoError { missing: (available as usize)..length }
    }

    fn read(&mut self, length: usize) -> (r: Option<Result<&'de [u8], IoError>>) {
        None
    }

    fn read_in_buffer(&mut self, buffer: &mut Vec<u8>, length: usize) -> (r: Result<
        (),
        IoError,
    >) {
        let limit = self.raw.len();
        if limit < length {
            Err(IoError { missing: limit..length })
        } else {
            copy_to_front(buffer, self.raw, length);
            self.raw = slice_subrange(self.raw, length, limit);
            Ok(())
        }
    }

    fn is(&self) -> (r: Option<()>) {
        if self.raw.len() != 0 {
            Some(())
        } else {
            None
        }
    }
}

/// A sink of bytes.
///
/// The spec function is the model that the contracts speak of. An
/// implementation states it; one that does not leaves it unspecified.
pub trait Write {
    /// What a refused write reports.
    type Error;

    /// Every byte that the sink has taken so far, oldest first.
    open spec fn written(&self) -> Seq<u8> {
        arbitrary()
    }

    /// Whether a sink of this type takes every write, as one that grows does.
    open spec fn reliable() -> bool {
        arbitrary()
    }

    /// Appends `bytes` as a whole, or fails. When a write fails is for the
    /// sink to say; a reliable one never does.
    fn write(&mut self, bytes: &[u8]) -> (r: Result<(), Self::Error>)
        ensures
            r is Ok ==> final(self).written() == old(self).written() + bytes@,
            Self::reliable() ==> r is Ok,
    ;
}

/// A writer over a sink that grows as needed.
pub struct WriteWrapper<T> {
    pub raw: T,
}

impl<T> WriteWrapper<T> {
    /// The sink that the wrapper held, with what was written to it.
    pub fn into_inner(self) -> (r: T)
        ensures
            r == self.raw,
    {
        self.raw
    }
}

impl<T> From<T> for WriteWrapper<T> {
    fn from(v: T) -> (r: Self) {
        WriteWrapper { raw: v }
    }
}

impl<T> vstd::std_specs::convert::FromSpecImpl<T> for WriteWrapper<T> {
    open spec fn obeys_from_spec() -> bool {
        true
    }

    open spec fn from_spec(v: T) -> Self {
        WriteWrapper { raw: v }
    }
}

impl Write for WriteWrapper<Vec<u8>> {
    type Error = IoError;

    open spec fn written(&self) -> Seq<u8> {
        self.raw@
    }

    open spec fn reliable() -> bool {
        true
    }

    fn write(&mut self, bytes: &[u8]) -> (r: Result<(), IoError>)
        ensures
            r is Ok,
    {
        self.raw.extend_from_slice(bytes);
        assert(self.raw@ =~= old(self).raw@ + bytes@);
        Ok(())
    }
}

/// A writer over storage of a fixed size: it takes bytes until the storage is
/// full and refuses, as a whole, a write that does not fit.
pub struct BoundedBuffer {
    data: Vec<u8>,
    capacity: usize,
}

impl BoundedBuffer {
    /// The number of bytes that the buffer can still take.
    pub closed spec fn room(&self) -> usize {
        if self.data@.len() <= self.capacity {
            (self.capacity - self.data@.len()) as usize
        } else {
            0
        }
    }

    /// The bytes taken so far.
    pub closed spec fn contents(&self) -> Seq<u8> {
        self.data@
    }

    /// An empty buffer that can hold `capacity` bytes.
    pub fn new(capacity: usize) -> (r: Self)
        ensures
            r.written() == Seq::<u8>::empty(),
            r.room() == capacity,
    {
        BoundedBuffer { data: Vec::new(), capacity }
    }

    /// The number of bytes taken so far.
    pub fn position(&self) -> (r: usize)
        ensures
            r == self.written().len(),
    {
        self.data.len()
    }

    /// The bytes taken so far.
    pub fn into_inner(self) -> (r: Vec<u8>)
        ensures
            r@ == self.written(),
    {
        self.data
    }
}

impl Write for BoundedBuffer {
    type Error = IoError;

    open spec fn written(&self) -> Seq<u8> {
        self.contents()
    }

    open spec fn reliable() -> bool {
        false
    }

    fn write(&mut self, bytes: &[u8]) -> (r: Result<(), IoError>)
        ensures
            match r {
                Ok(()) => {
                    &&& bytes@.len() <= old(self).room()
                    &&& final(self).room() == old(self).room() - bytes@.len()
                },
                Err(e) => {
                    &&& bytes@.len() > old(self).room()
                    &&& e == (IoError { missing: old(self).room()..(bytes@.len() as usize) })
                    &&& *final(self) == *old(self)
                },
            },
    {
        let used = self.data.len();
        let limit: usize = if used <= self.capacity {
            self.capacity - used
        } else {
            0
        };
        let length = bytes.len();
        if limit < length {
            Err(IoError { missing: limit..length })
        } else {
            self.data.extend_from_slice(bytes);
            assert(self.data@ =~= old(self).data@ + bytes@);
            Ok(())
        }
    }
}

} // verus!
