//! A compact binary encoding of structured values, and its decoding.
//!
//! The encoder and the decoder walk a value one kind at a time; a delegate
//! decides how lengths, discriminants and characters are laid out, and a reader
//! or writer moves the bytes. Nothing on the wire names a field or a type: the
//! decoder must ask for the kinds in the order in which they were written.

use vstd::prelude::*;

pub mod de;
pub mod delegate;
pub mod err;
pub mod io;
pub mod laws;
pub mod order;
pub mod ser;

pub use self::de::BinaryDeserializer;
pub use self::de::BinaryDeserializerError;
pub use self::de::Fetched;
pub use self::de::SequenceAccess;
pub use self::delegate::BinaryDeserializerDelegate;
pub use self::delegate::BinarySerializerDelegate;
pub use self::delegate::DefaultBinaryDeserializerDelegate;
pub use self::delegate::DefaultBinarySerializerDelegate;
pub use self::delegate::Token;
pub use self::err::DisplayCollector;
pub use self::err::ErrorAdapter;
pub use self::io::BoundedBuffer;
pub use self::io::IoError;
pub use self::io::Read;
pub use self::io::ReadWrapper;
pub use self::io::SliceReader;
pub use self::io::Write;
pub use self::io::WriteWrapper;
pub use self::order::Endian;
pub use self::ser::BinarySerializeMap;
pub use self::ser::BinarySerializeSeq;
pub use self::ser::BinarySerializeStruct;
pub use self::ser::BinarySerializeStructVariant;
pub use self::ser::BinarySerializeTuple;
pub use self::ser::BinarySerializeTupleStruct;
pub use self::ser::BinarySerializeTupleVariant;
pub use self::ser::BinarySerializer;
pub use self::ser::BinarySerializerError;

verus! {

/// The encoder of the default dialect.
pub type DefaultBinarySerializer<W, D> = BinarySerializer<W, DefaultBinarySerializerDelegate, D>;

/// The decoder of the default dialect.
pub type DefaultBinaryDeserializer<'de, R, D> = BinaryDeserializer<
    'de,
    R,
    DefaultBinaryDeserializerDelegate,
    D,
>;

} // verus!
