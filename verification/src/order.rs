//! Byte order: how a fixed-width integer is laid out in bytes.
//!
//! The laying out itself is done by the `byteorder` crate; this module says, as
//! spec functions over `Seq<u8>`, what those bytes are.

use byteorder::ByteOrder;
use vstd::prelude::*;

verus! {

/// The order in which the bytes of an integer stand on the wire.
#[derive(Clone, Copy, Debug, PartialEq, Eq, Structural)]
pub enum Endian {
    /// Least significant byte first.
    Little,
    /// Most significant byte first.
    Big,
}

/// The number that `bytes` spell when the first byte is the least significant.
pub open spec fn le_value(bytes: Seq<u8>) -> nat
    decreases bytes.len(),
{
    if bytes.len() == 0 {
        0
    } else {
        bytes[0] as nat + 256 * le_value(bytes.drop_first())
    }
}

/// The number that `bytes` spell when the last byte is the least significant.
pub open spec fn be_value(bytes: Seq<u8>) -> nat
    decreases bytes.len(),
{
    if bytes.len() == 0 {
        0
    } else {
        256 * be_value(bytes.drop_last()) + bytes.last() as nat
    }
}

/// The `width` low bytes of `v`, least significant first.
pub open spec fn le_bytes(v: nat, width: nat) -> Seq<u8>
    decreases width,
{
    if width == 0 {
        Seq::empty()
    } else {
        seq![(v % 256) as u8] + le_bytes(v / 256, (width - 1) as nat)
    }
}

/// The `width` low bytes of `v`, most significant first.
pub open spec fn be_bytes(v: nat, width: nat) -> Seq<u8>
    decreases width,
{
    if width == 0 {
        Seq::empty()
    } else {
        be_bytes(v / 256, (width - 1) as nat).push((v % 256) as u8)
    }
}

/// The number of values that `width` bytes can tell apart: 256 to the power `width`.
pub open spec fn span(width: nat) -> nat
    decreases width,
{
    if width == 0 {
        1
    } else {
        256 * span((width - 1) as nat)
    }
}

/// `le_bytes` gives exactly `width` bytes.
pub proof fn lemma_le_bytes_len(v: nat, width: nat)
    ensures
        le_bytes(v, width).len() == width,
    decreases width,
{
    if width > 0 {
        lemma_le_bytes_len(v / 256, (width - 1) as nat);
    }
}

/// `be_bytes` gives exactly `width` bytes.
pub proof fn lemma_be_bytes_len(v: nat, width: nat)
    ensures
        be_bytes(v, width).len() == width,
    decreases width,
{
    if width > 0 {
        lemma_be_bytes_len(v / 256, (width - 1) as nat);
    }
}

/// Reading back what `le_bytes` laid out gives the number again, as far as it fits.
pub proof fn lemma_le_value_of_bytes(v: nat, width: nat)
    requires
        v < span(width),
    ensures
        le_value(le_bytes(v, width)) == v,
    decreases width,
{
    if width > 0 {
        let rest = le_bytes(v / 256, (width - 1) as nat);
        let all = le_bytes(v, width);
        assert(v / 256 < span((width - 1) as nat)) by (nonlinear_arith)
            requires
                v < 256 * span((width - 1) as nat),
        ;
        lemma_le_value_of_bytes(v / 256, (width - 1) as nat);
        lemma_le_bytes_len(v / 256, (width - 1) as nat);
        assert(all.drop_first() =~= rest);
        assert(all[0] == (v % 256) as u8);
        assert(v == (v % 256) + 256 * (v / 256)) by (nonlinear_arith);
    }
}

/// Reading back what `be_bytes` laid out gives the number again, as far as it fits.
pub proof fn lemma_be_value_of_bytes(v: nat, width: nat)
    requires
        v < span(width),
    ensures
        be_value(be_bytes(v, width)) == v,
    decreases width,
{
    if width > 0 {
        let rest = be_bytes(v / 256, (width - 1) as nat);
        let all = be_bytes(v, width);
        assert(v / 256 < span((width - 1) as nat)) by (nonlinear_arith)
            requires
                v < 256 * span((width - 1) as nat),
        ;
        lemma_be_value_of_bytes(v / 256, (width - 1) as nat);
        lemma_be_bytes_len(v / 256, (width - 1) as nat);
        assert(all.drop_last() =~= rest);
        assert(all.last() == (v % 256) as u8);
        assert(v == (v % 256) + 256 * (v / 256)) by (nonlinear_arith);
    }
}

/// The spans of the widths that the wire uses.
pub proof fn lemma_spans()
    ensures
        span(1) == 0x100,
        span(2) == 0x1_0000,
        span(4) == 0x1_0000_0000,
        span(8) == 0x1_0000_0000_0000_0000,
{
    reveal_with_fuel(span, 9);
}

/// `byteorder::LittleEndian::read_u16`: the number spelt by the first two
/// bytes, least significant first. The outside function panics on a shorter
/// slice, which `requires` leaves out.
#[verifier::external_body]
fn le_read_u16(bytes: &[u8]) -> (r: u16)
    requires
        bytes@.len() >= 2,
    ensures
        r as nat == le_value(bytes@.subrange(0, 2)),
{
    byteorder::LittleEndian::read_u16(bytes)
}

/// `byteorder::LittleEndian::read_u32`: the number spelt by the first four
/// bytes, least significant first.
#[verifier::external_body]
fn le_read_u32(bytes: &[u8]) -> (r: u32)
    requires
        bytes@.len() >= 4,
    ensures
        r as nat == le_value(bytes@.subrange(0, 4)),
{
    byteorder::LittleEndian::read_u32(bytes)
}

/// `byteorder::LittleEndian::read_u64`: the number spelt by the first eight
/// bytes, least significant first.
#[verifier::external_body]
fn le_read_u64(bytes: &[u8]) -> (r: u64)
    requires
        bytes@.len() >= 8,
    ensures
        r as nat == le_value(bytes@.subrange(0, 8)),
{
    byteorder::LittleEndian::read_u64(bytes)
}

/// `byteorder::BigEndian::read_u16`: the number spelt by the first two bytes,
/// most significant first.
#[verifier::external_body]
fn be_read_u16(bytes: &[u8]) -> (r: u16)
    requires
        bytes@.len() >= 2,
    ensures
        r as nat == be_value(bytes@.subrange(0, 2)),
{
    byteorder::BigEndian::read_u16(bytes)
}

/// `byteorder::BigEndian::read_u32`: the number spelt by the first four bytes,
/// most significant first.
#[verifier::external_body]
fn be_read_u32(bytes: &[u8]) -> (r: u32)
    requires
        bytes@.len() >= 4,
    ensures
        r as nat == be_value(bytes@.subrange(0, 4)),
{
    byteorder::BigEndian::read_u32(bytes)
}

/// `byteorder::BigEndian::read_u64`: the number spelt by the first eight
/// bytes, most significant first.
#[verifier::external_body]
fn be_read_u64(bytes: &[u8]) -> (r: u64)
    requires
        bytes@.len() >= 8,
    ensures
        r as nat == be_value(bytes@.subrange(0, 8)),
{
    byteorder::BigEndian::read_u64(bytes)
}

/// `byteorder::LittleEndian::write_u16`: fills the buffer with the two bytes
/// of `v`, least significant first.
#[verifier::external_body]
fn le_write_u16(buffer: &mut [u8; 2], v: u16)
    ensures
        final(buffer)@ == le_bytes(v as nat, 2),
{
    byteorder::LittleEndian::write_u16(buffer, v)
}

/// `byteorder::LittleEndian::write_u32`: fills the buffer with the four bytes
/// of `v`, least significant first.
#[verifier::external_body]
fn le_write_u32(buffer: &mut [u8; 4], v: u32)
    ensures
        final(buffer)@ == le_bytes(v as nat, 4),
{
    byteorder::LittleEndian::write_u32(buffer, v)
}

/// `byteorder::LittleEndian::write_u64`: fills the buffer with the eight
/// bytes of `v`, least significant first.
#[verifier::external_body]
fn le_write_u64(buffer: &mut [u8; 8], v: u64)
    ensures
        final(buffer)@ == le_bytes(v as nat, 8),
{
    byteorder::LittleEndian::write_u64(buffer, v)
}

/// `byteorder::BigEndian::write_u16`: fills the buffer with the two bytes of
/// `v`, most significant first.
#[verifier::external_body]
fn be_write_u16(buffer: &mut [u8; 2], v: u16)
    ensures
        final(buffer)@ == be_bytes(v as nat, 2),
{
    byteorder::BigEndian::write_u16(buffer, v)
}

/// `byteorder::BigEndian::write_u32`: fills the buffer with the four bytes of
/// `v`, most significant first.
#[verifier::external_body]
fn be_write_u32(buffer: &mut [u8; 4], v: u32)
    ensures
        final(buffer)@ == be_bytes(v as nat, 4),
{
    byteorder::BigEndian::write_u32(buffer, v)
}

/// `byteorder::BigEndian::write_u64`: fills the buffer with the eight bytes
/// of `v`, most significant first.
#[verifier::external_body]
fn be_write_u64(buffer: &mut [u8; 8], v: u64)
    ensures
        final(buffer)@ == be_bytes(v as nat, 8),
{
    byteorder::BigEndian::write_u64(buffer, v)
}

/// `byteorder::NativeEndian::read_u16`: the number spelt by the first two
/// bytes in the order of the machine that runs the call, which is one of the
/// two orders.
#[verifier::external_body]
fn native_read_u16(bytes: &[u8]) -> (r: u16)
    requires
        bytes@.len() >= 2,
    ensures
        r as nat == le_value(bytes@.subrange(0, 2)) || r as nat == be_value(
            bytes@.subrange(0, 2),
        ),
{
    byteorder::NativeEndian::read_u16(bytes)
}

impl Endian {
    /// The number that `bytes` spell in this order.
    pub open spec fn value(self, bytes: Seq<u8>) -> nat {
        match self {
            Endian::Little => le_value(bytes),
            Endian::Big => be_value(bytes),
        }
    }

    /// The `width` low bytes of `v` in this order.
    pub open spec fn bytes(self, v: nat, width: nat) -> Seq<u8> {
        match self {
            Endian::Little => le_bytes(v, width),
            Endian::Big => be_bytes(v, width),
        }
    }

    /// The 16-bit number that the first two bytes spell in this order.
    pub open spec fn u16_at(self, bytes: Seq<u8>) -> u16 {
        #[verifier::truncate]
        (self.value(bytes.subrange(0, 2)) as u16)
    }

    /// The 32-bit number that the first four bytes spell in this order.
    pub open spec fn u32_at(self, bytes: Seq<u8>) -> u32 {
        #[verifier::truncate]
        (self.value(bytes.subrange(0, 4)) as u32)
    }

    /// The 64-bit number that the first eight bytes spell in this order.
    pub open spec fn u64_at(self, bytes: Seq<u8>) -> u64 {
        #[verifier::truncate]
        (self.value(bytes.subrange(0, 8)) as u64)
    }

    /// The order that a probe stands for: the probe is what the bytes `[1, 0]`
    /// spell as a 16-bit number, which is 1 exactly where the first byte is the
    /// least significant.
    pub fn from_probe(probe: u16) -> (r: Endian)
        ensures
            r == (if probe == 1 {
                Endian::Little
            } else {
                Endian::Big
            }),
    {
        if probe == 1 {
            Endian::Little
        } else {
            Endian::Big
        }
    }

    /// The order of the machine that runs the call. Which of the two it is
    /// depends on the machine, so nothing is stated of it.
    pub fn native() -> Endian {
        let probe: [u8; 2] = [1, 0];
        Endian::from_probe(native_read_u16(probe.as_slice()))
    }

    /// Reads a 16-bit number from the first two bytes.
    pub fn read_u16(self, bytes: &[u8]) -> (r: u16)
        requires
            bytes@.len() >= 2,
        ensures
            r == self.u16_at(bytes@),
    {
        match self {
            Endian::Little => le_read_u16(bytes),
            Endian::Big => be_read_u16(bytes),
        }
    }

    /// Reads a 32-bit number from the first four bytes.
    pub fn read_u32(self, bytes: &[u8]) -> (r: u32)
        requires
            bytes@.len() >= 4,
        ensures
            r == self.u32_at(bytes@),
    {
        match self {
            Endian::Little => le_read_u32(bytes),
            Endian::Big => be_read_u32(bytes),
        }
    }

    /// Reads a 64-bit number from the first eight bytes.
    pub fn read_u64(self, bytes: &[u8]) -> (r: u64)
        requires
            bytes@.len() >= 8,
        ensures
            r == self.u64_at(bytes@),
    {
        match self {
            Endian::Little => le_read_u64(bytes),
            Endian::Big => be_read_u64(bytes),
        }
    }

    /// The two bytes of `v` in this order.
    pub fn write_u16(self, v: u16) -> (r: [u8; 2])
        ensures
            r@ == self.bytes(v as nat, 2),
    {
        let mut buffer: [u8; 2] = [0; 2];
        match self {
            Endian::Little => le_write_u16(&mut buffer, v),
            Endian::Big => be_write_u16(&mut buffer, v),
        }
        buffer
    }

    /// The four bytes of `v` in this order.
    pub fn write_u32(self, v: u32) -> (r: [u8; 4])
        ensures
            r@ == self.bytes(v as nat, 4),
    {
        let mut buffer: [u8; 4] = [0; 4];
        match self {
            Endian::Little => le_write_u32(&mut buffer, v),
            Endian::Big => be_write_u32(&mut buffer, v),
        }
        buffer
    }

    /// The eight bytes of `v` in this order.
    pub fn write_u64(self, v: u64) -> (r: [u8; 8])
        ensures
            r@ == self.bytes(v as nat, 8),
    {
        let mut buffer: [u8; 8] = [0; 8];
        match self {
            Endian::Little => le_write_u64(&mut buffer, v),
            Endian::Big => be_write_u64(&mut buffer, v),
        }
        buffer
    }

    /// `bytes` gives exactly `width` bytes.
    pub proof fn lemma_bytes_len(self, v: nat, width: nat)
        ensures
            self.bytes(v, width).len() == width,
    {
        lemma_le_bytes_len(v, width);
        lemma_be_bytes_len(v, width);
    }

    /// Reading back what was laid out gives the number again, as far as it
    /// fits the width.
    pub proof fn lemma_value_of_bytes(self, v: nat, width: nat)
        requires
            v < span(width),
        ensures
            self.value(self.bytes(v, width)) == v,
    {
        lemma_le_value_of_bytes(v, width);
        lemma_be_value_of_bytes(v, width);
    }
}

} // verus!
