use tirse::BinaryDeserializerDelegate;
use tirse::BinarySerializerDelegate;
use tirse::BinaryDeserializer;
use tirse::BinarySerializer;
use tirse::DefaultBinaryDeserializer;
use tirse::DefaultBinarySerializer;
use tirse::Endian;
use tirse::ReadWrapper;
use tirse::SliceReader;
use tirse::Token;
use tirse::WriteWrapper;

type Ser = DefaultBinarySerializer<WriteWrapper<Vec<u8>>, String>;
type De<'a> = DefaultBinaryDeserializer<'a, SliceReader<'a>, String>;
type Staged<'a> = DefaultBinaryDeserializer<'a, ReadWrapper<&'a [u8]>, String>;

fn ser(order: Endian) -> Ser {
    Ser::new(Vec::new(), order)
}

fn bytes_of(s: Ser) -> Vec<u8> {
    s.consume().into_inner()
}

fn de(bytes: &[u8], order: Endian) -> De<'_> {
    De::new(SliceReader::new(bytes), order)
}

fn staged(bytes: &[u8], order: Endian) -> Staged<'_> {
    Staged::new(ReadWrapper::from(bytes), order)
}

const ORDERS: [Endian; 2] = [Endian::Little, Endian::Big];

#[test]
fn bool_round_trip() {
    for order in ORDERS {
        for v in [false, true] {
            let wire = bytes_of(ser(order).serialize_bool(v).unwrap());
            assert_eq!(wire, vec![v as u8]);
            let mut d = de(&wire, order);
            assert_eq!(d.deserialize_bool().unwrap(), v);
            assert!(d.into_inner().as_slice().is_empty());
        }
    }
}

#[test]
fn bool_reads_any_nonzero_byte_as_true() {
    assert!(de(&[7], Endian::Little).deserialize_bool().unwrap());
}

#[test]
fn u8_and_i8_round_trip() {
    for order in ORDERS {
        for v in [0u8, 1, 127, 128, 255] {
            let wire = bytes_of(ser(order).serialize_u8(v).unwrap());
            assert_eq!(wire, vec![v]);
            assert_eq!(de(&wire, order).deserialize_u8().unwrap(), v);
        }
        for v in [i8::MIN, -1, 0, 1, i8::MAX] {
            let wire = bytes_of(ser(order).serialize_i8(v).unwrap());
            assert_eq!(wire.len(), 1);
            assert_eq!(de(&wire, order).deserialize_i8().unwrap(), v);
        }
    }
}

#[test]
fn u16_and_i16_round_trip() {
    for order in ORDERS {
        for v in [0u16, 1, 0x1234, u16::MAX] {
            let wire = bytes_of(ser(order).serialize_u16(v).unwrap());
            assert_eq!(wire.len(), 2);
            assert_eq!(de(&wire, order).deserialize_u16().unwrap(), v);
        }
        for v in [i16::MIN, -2, 0, 300, i16::MAX] {
            let wire = bytes_of(ser(order).serialize_i16(v).unwrap());
            assert_eq!(de(&wire, order).deserialize_i16().unwrap(), v);
        }
    }
}

#[test]
fn u32_and_i32_round_trip() {
    for order in ORDERS {
        for v in [0u32, 17, 0x1234_5678, u32::MAX] {
            let wire = bytes_of(ser(order).serialize_u32(v).unwrap());
            assert_eq!(wire.len(), 4);
            assert_eq!(de(&wire, order).deserialize_u32().unwrap(), v);
        }
        for v in [i32::MIN, -1, 0, 70_000, i32::MAX] {
            let wire = bytes_of(ser(order).serialize_i32(v).unwrap());
            assert_eq!(de(&wire, order).deserialize_i32().unwrap(), v);
        }
    }
}

#[test]
fn u64_and_i64_round_trip() {
    for order in ORDERS {
        for v in [0u64, 5, 0x0102_0304_0506_0708, u64::MAX] {
            let wire = bytes_of(ser(order).serialize_u64(v).unwrap());
            assert_eq!(wire.len(), 8);
            assert_eq!(de(&wire, order).deserialize_u64().unwrap(), v);
        }
        for v in [i64::MIN, -1, 0, 1 << 40, i64::MAX] {
            let wire = bytes_of(ser(order).serialize_i64(v).unwrap());
            assert_eq!(de(&wire, order).deserialize_i64().unwrap(), v);
        }
    }
}

#[test]
fn fixed_width_layout_follows_the_byte_order() {
    assert_eq!(
        bytes_of(ser(Endian::Little).serialize_u16(0x0102).unwrap()),
        vec![2, 1]
    );
    assert_eq!(
        bytes_of(ser(Endian::Big).serialize_u16(0x0102).unwrap()),
        vec![1, 2]
    );
    assert_eq!(
        bytes_of(ser(Endian::Little).serialize_u32(0x0102_0304).unwrap()),
        vec![4, 3, 2, 1]
    );
    assert_eq!(
        bytes_of(ser(Endian::Big).serialize_u32(0x0102_0304).unwrap()),
        vec![1, 2, 3, 4]
    );
    assert_eq!(
        bytes_of(ser(Endian::Little).serialize_u64(0x0102_0304_0506_0708).unwrap()),
        vec![8, 7, 6, 5, 4, 3, 2, 1]
    );
    assert_eq!(
        bytes_of(ser(Endian::Big).serialize_u64(0x0102_0304_0506_0708).unwrap()),
        vec![1, 2, 3, 4, 5, 6, 7, 8]
    );
    assert_eq!(
        bytes_of(ser(Endian::Big).serialize_i16(-2).unwrap()),
        vec![0xFF, 0xFE]
    );
}

#[test]
fn fixed_width_reading_follows_the_byte_order() {
    let wire = [1u8, 2, 3, 4, 5, 6, 7, 8];
    assert_eq!(de(&wire, Endian::Little).deserialize_u16().unwrap(), 0x0201);
    assert_eq!(de(&wire, Endian::Big).deserialize_u16().unwrap(), 0x0102);
    assert_eq!(
        de(&wire, Endian::Little).deserialize_u32().unwrap(),
        0x0403_0201
    );
    assert_eq!(de(&wire, Endian::Big).deserialize_u32().unwrap(), 0x0102_0304);
    assert_eq!(
        de(&wire, Endian::Little).deserialize_u64().unwrap(),
        0x0807_0605_0403_0201
    );
    assert_eq!(
        de(&wire, Endian::Big).deserialize_u64().unwrap(),
        0x0102_0304_0506_0708
    );
}

#[test]
fn endian_reads_and_writes_directly() {
    let wire = [1u8, 2, 3, 4, 5, 6, 7, 8, 9];
    assert_eq!(Endian::Little.read_u16(&wire), 0x0201);
    assert_eq!(Endian::Big.read_u16(&wire), 0x0102);
    assert_eq!(Endian::Little.read_u32(&wire), 0x0403_0201);
    assert_eq!(Endian::Big.read_u32(&wire), 0x0102_0304);
    assert_eq!(Endian::Little.read_u64(&wire), 0x0807_0605_0403_0201);
    assert_eq!(Endian::Big.read_u64(&wire), 0x0102_0304_0506_0708);
    assert_eq!(Endian::Little.write_u16(0x0102), [2, 1]);
    assert_eq!(Endian::Big.write_u16(0x0102), [1, 2]);
    assert_eq!(Endian::Little.write_u32(0x0102_0304), [4, 3, 2, 1]);
    assert_eq!(Endian::Big.write_u32(0x0102_0304), [1, 2, 3, 4]);
    assert_eq!(
        Endian::Little.write_u64(0x0102_0304_0506_0708),
        [8, 7, 6, 5, 4, 3, 2, 1]
    );
    assert_eq!(
        Endian::Big.write_u64(0x0102_0304_0506_0708),
        [1, 2, 3, 4, 5, 6, 7, 8]
    );
}

#[test]
fn native_order_is_the_order_of_the_machine() {
    let expected = if 1u16.to_ne_bytes() == [1, 0] {
        Endian::Little
    } else {
        Endian::Big
    };
    assert_eq!(Endian::native(), expected);
    assert_eq!(Endian::from_probe(1), Endian::Little);
    assert_eq!(Endian::from_probe(256), Endian::Big);
}

#[test]
fn float_bits_round_trip() {
    for order in ORDERS {
        for v in [0.0f32, -0.0, 0.4, 7.5, f32::INFINITY, f32::NEG_INFINITY, f32::NAN] {
            let wire = bytes_of(ser(order).serialize_u32(v.to_bits()).unwrap());
            let back = f32::from_bits(de(&wire, order).deserialize_u32().unwrap());
            assert_eq!(back.to_bits(), v.to_bits());
        }
        for v in [0.0f64, 1.5e300, f64::INFINITY, f64::NAN, f64::MIN_POSITIVE] {
            let wire = bytes_of(ser(order).serialize_u64(v.to_bits()).unwrap());
            let back = f64::from_bits(de(&wire, order).deserialize_u64().unwrap());
            assert_eq!(back.to_bits(), v.to_bits());
        }
    }
}

#[test]
fn char_round_trip() {
    for order in ORDERS {
        for v in ['a', '\0', 'é', '\u{D7FF}', '\u{E000}', '\u{10FFFF}'] {
            let wire = bytes_of(ser(order).serialize_char(v).unwrap());
            assert_eq!(wire.len(), 4);
            assert_eq!(de(&wire, order).deserialize_char().unwrap(), v);
        }
    }
    assert_eq!(
        bytes_of(ser(Endian::Little).serialize_char('a').unwrap()),
        vec![97, 0, 0, 0]
    );
}

#[test]
fn str_round_trip() {
    for order in ORDERS {
        for v in ["", "here", "grüße, мир", "\u{10FFFF}"] {
            let wire = bytes_of(ser(order).serialize_str(v).unwrap());
            assert_eq!(wire.len(), 8 + v.len());
            assert_eq!(&wire[8..], v.as_bytes());
            let mut d = de(&wire, order);
            assert_eq!(d.deserialize_str().unwrap(), v);
            assert!(d.into_inner().as_slice().is_empty());
            assert_eq!(de(&wire, order).deserialize_string().unwrap(), v);
            assert_eq!(staged(&wire, order).deserialize_string().unwrap(), v);
        }
    }
}

#[test]
fn bytes_round_trip() {
    for order in ORDERS {
        for v in [&[][..], &[0u8][..], &[1, 2, 3, 255][..]] {
            let wire = bytes_of(ser(order).serialize_bytes(v).unwrap());
            assert_eq!(wire.len(), 8 + v.len());
            assert_eq!(de(&wire, order).deserialize_bytes().unwrap(), v);
            assert_eq!(de(&wire, order).deserialize_byte_buf().unwrap(), v);
            assert_eq!(staged(&wire, order).deserialize_byte_buf().unwrap(), v);
        }
    }
}

#[test]
fn big_endian_length_prefix() {
    let wire = bytes_of(ser(Endian::Big).serialize_str("hi").unwrap());
    assert_eq!(wire, vec![0, 0, 0, 0, 0, 0, 0, 2, b'h', b'i']);
}

#[test]
fn option_none_is_the_discriminant_alone() {
    let wire = bytes_of(ser(Endian::Little).serialize_none().unwrap());
    assert_eq!(wire, vec![0, 0, 0, 0]);
    let mut d = de(&wire, Endian::Little);
    assert!(!d.deserialize_option().unwrap());
    assert!(d.into_inner().as_slice().is_empty());
}

#[test]
fn option_some_is_the_discriminant_and_the_value() {
    let wire = bytes_of(
        ser(Endian::Little)
            .serialize_some(|s| s.serialize_u8(5))
            .unwrap(),
    );
    assert_eq!(wire, vec![1, 0, 0, 0, 5]);
    let mut d = de(&wire, Endian::Little);
    assert!(d.deserialize_option().unwrap());
    assert_eq!(d.deserialize_u8().unwrap(), 5);
}

#[test]
fn nested_option_round_trip() {
    for order in ORDERS {
        let wire = bytes_of(
            ser(order)
                .serialize_some(|s| s.serialize_some(|s| s.serialize_i16(-3)))
                .unwrap(),
        );
        let mut d = de(&wire, order);
        assert!(d.deserialize_option().unwrap());
        assert!(d.deserialize_option().unwrap());
        assert_eq!(d.deserialize_i16().unwrap(), -3);

        let wire = bytes_of(ser(order).serialize_some(|s| s.serialize_none()).unwrap());
        let mut d = de(&wire, order);
        assert!(d.deserialize_option().unwrap());
        assert!(!d.deserialize_option().unwrap());
        assert!(d.into_inner().as_slice().is_empty());
    }
}

#[test]
fn unit_kinds_take_no_bytes() {
    let s = ser(Endian::Little).serialize_unit().unwrap();
    let s = s.serialize_unit_struct("Marker").unwrap();
    let s = s.serialize_newtype_struct("Wrap", |s| s.serialize_unit()).unwrap();
    assert!(bytes_of(s).is_empty());
    let mut d = de(&[], Endian::Little);
    d.deserialize_unit().unwrap();
    d.deserialize_unit_struct("Marker").unwrap();
    d.deserialize_newtype_struct("Wrap").unwrap();
}

#[test]
fn newtype_struct_is_its_field() {
    let wire = bytes_of(
        ser(Endian::Little)
            .serialize_newtype_struct("Meters", |s| s.serialize_u16(9))
            .unwrap(),
    );
    assert_eq!(wire, vec![9, 0]);
    let mut d = de(&wire, Endian::Little);
    d.deserialize_newtype_struct("Meters").unwrap();
    assert_eq!(d.deserialize_u16().unwrap(), 9);
}

#[test]
fn tuple_round_trip() {
    for order in ORDERS {
        let mut t = ser(order).serialize_tuple(2).unwrap();
        t.serialize_element(|s| s.serialize_u8(7)).unwrap();
        t.serialize_element(|s| s.serialize_str("x")).unwrap();
        let wire = bytes_of(t.end().unwrap());
        assert_eq!(wire.len(), 1 + 8 + 1);

        let mut d = de(&wire, order);
        let mut cursor = d.deserialize_tuple(2);
        assert!(cursor.next_element(&mut d).unwrap());
        assert_eq!(d.deserialize_u8().unwrap(), 7);
        assert!(cursor.next_element(&mut d).unwrap());
        assert_eq!(d.deserialize_str().unwrap(), "x");
        assert!(!cursor.next_element(&mut d).unwrap());
    }
}

#[test]
fn tuple_struct_round_trip() {
    let mut t = ser(Endian::Big).serialize_tuple_struct("Pair", 2).unwrap();
    t.serialize_field(|s| s.serialize_u16(1)).unwrap();
    t.serialize_field(|s| s.serialize_u16(2)).unwrap();
    let wire = bytes_of(t.end().unwrap());
    assert_eq!(wire, vec![0, 1, 0, 2]);

    let mut d = de(&wire, Endian::Big);
    let mut cursor = d.deserialize_tuple_struct("Pair", 2);
    assert!(cursor.next_element(&mut d).unwrap());
    assert_eq!(d.deserialize_u16().unwrap(), 1);
    assert!(cursor.next_element(&mut d).unwrap());
    assert_eq!(d.deserialize_u16().unwrap(), 2);
    assert!(!cursor.next_element(&mut d).unwrap());
}

#[test]
fn empty_struct_round_trip() {
    let s = ser(Endian::Little).serialize_struct("Empty", 0).unwrap();
    let wire = bytes_of(s.end().unwrap());
    assert!(wire.is_empty());
    let mut d = de(&wire, Endian::Little);
    let mut cursor = d.deserialize_struct("Empty", &[]);
    assert!(!cursor.next_element(&mut d).unwrap());
}

#[test]
fn unit_variant_round_trip() {
    let wire = bytes_of(
        ser(Endian::Little)
            .serialize_unit_variant("Shape", 2, "Dot")
            .unwrap(),
    );
    assert_eq!(wire, vec![2, 0, 0, 0]);
    let mut d = de(&wire, Endian::Little);
    assert_eq!(d.deserialize_enum("Shape", &["A", "B", "Dot"]).unwrap(), 2);
    d.unit_variant().unwrap();
    assert!(d.into_inner().as_slice().is_empty());
}

#[test]
fn newtype_variant_round_trip() {
    let wire = bytes_of(
        ser(Endian::Little)
            .serialize_newtype_variant("Shape", 1, "Circle", |s| s.serialize_u32(40))
            .unwrap(),
    );
    assert_eq!(wire, vec![1, 0, 0, 0, 40, 0, 0, 0]);
    let mut d = de(&wire, Endian::Little);
    assert_eq!(d.deserialize_enum("Shape", &["Dot", "Circle"]).unwrap(), 1);
    d.newtype_variant().unwrap();
    assert_eq!(d.deserialize_u32().unwrap(), 40);
}

#[test]
fn tuple_variant_round_trip() {
    let mut t = ser(Endian::Little)
        .serialize_tuple_variant("Shape", 3, "Rect", 2)
        .unwrap();
    t.serialize_field(|s| s.serialize_u8(4)).unwrap();
    t.serialize_field(|s| s.serialize_u8(6)).unwrap();
    let wire = bytes_of(t.end().unwrap());
    assert_eq!(wire, vec![3, 0, 0, 0, 4, 6]);

    let mut d = de(&wire, Endian::Little);
    assert_eq!(d.variant_seed().unwrap(), 3);
    let mut cursor = d.tuple_variant(2);
    assert!(cursor.next_element(&mut d).unwrap());
    assert_eq!(d.deserialize_u8().unwrap(), 4);
    assert!(cursor.next_element(&mut d).unwrap());
    assert_eq!(d.deserialize_u8().unwrap(), 6);
    assert!(!cursor.next_element(&mut d).unwrap());
}

#[test]
fn struct_variant_round_trip() {
    let mut t = ser(Endian::Big)
        .serialize_struct_variant("Shape", 0, "Line", 2)
        .unwrap();
    t.serialize_field("from", |s| s.serialize_i8(-1)).unwrap();
    t.serialize_field("to", |s| s.serialize_i8(1)).unwrap();
    let wire = bytes_of(t.end().unwrap());
    assert_eq!(wire, vec![0, 0, 0, 0, 0xFF, 1]);

    let mut d = de(&wire, Endian::Big);
    assert_eq!(d.deserialize_enum("Shape", &["Line"]).unwrap(), 0);
    let mut cursor = d.struct_variant(&["from", "to"]);
    assert!(cursor.next_element(&mut d).unwrap());
    assert_eq!(d.deserialize_i8().unwrap(), -1);
    assert!(cursor.next_element(&mut d).unwrap());
    assert_eq!(d.deserialize_i8().unwrap(), 1);
    assert!(!cursor.next_element(&mut d).unwrap());
}

#[test]
fn streamed_sequence_round_trip() {
    for order in ORDERS {
        for items in [vec![], vec![3u16], vec![1, 2, 0xFFFF]] {
            let mut seq = ser(order).serialize_seq(None).unwrap();
            for item in &items {
                seq.serialize_element(|s| s.serialize_u16(*item)).unwrap();
            }
            let wire = bytes_of(seq.end().unwrap());
            assert_eq!(wire.len(), 2 * items.len());

            let mut d = de(&wire, order);
            let mut cursor = d.deserialize_seq();
            let mut back = Vec::new();
            while cursor.next_element(&mut d).unwrap() {
                back.push(d.deserialize_u16().unwrap());
            }
            assert_eq!(back, items);
        }
    }
}

#[test]
fn streamed_map_round_trip() {
    let entries = [(1u8, "one"), (2, "two")];
    let mut map = ser(Endian::Little).serialize_map(None).unwrap();
    for (key, value) in entries {
        map.serialize_key(|s| s.serialize_u8(key)).unwrap();
        map.serialize_value(|s| s.serialize_str(value)).unwrap();
    }
    let wire = bytes_of(map.end().unwrap());

    let mut d = de(&wire, Endian::Little);
    let mut cursor = d.deserialize_map();
    let mut back = Vec::new();
    while cursor.next_key(&mut d).unwrap() {
        let key = d.deserialize_u8().unwrap();
        cursor.next_value(&mut d).unwrap();
        let value = d.deserialize_str().unwrap();
        back.push((key, value));
    }
    assert_eq!(back, entries);
}

#[test]
fn declared_length_stands_before_the_elements() {
    let mut seq = ser(Endian::Little).serialize_seq(Some(2)).unwrap();
    seq.serialize_element(|s| s.serialize_u8(9)).unwrap();
    seq.serialize_element(|s| s.serialize_u8(8)).unwrap();
    let wire = bytes_of(seq.end().unwrap());
    assert_eq!(wire, vec![2, 0, 0, 0, 0, 0, 0, 0, 9, 8]);

    let map = ser(Endian::Big).serialize_map(Some(0)).unwrap();
    assert_eq!(bytes_of(map.end().unwrap()), vec![0; 8]);
}

/// A dialect whose sequences carry their length as a 16-bit number.
pub struct Counted;

impl BinarySerializerDelegate for Counted {
    fn encode_variant(v: u32) -> Token {
        Token::U8(v as u8)
    }

    fn encode_length(v: usize) -> Token {
        Token::U16(v as u16)
    }

    fn encode_sequence_length(v: usize) -> Token {
        Token::U16(v as u16)
    }

    fn encode_char(v: char) -> Token {
        Token::U32(v as u32)
    }
}

impl BinaryDeserializerDelegate for Counted {
    fn variant_size() -> usize {
        1
    }

    fn length_size() -> usize {
        2
    }

    fn sequence_length_size() -> usize {
        2
    }

    fn char_size() -> usize {
        4
    }

    fn decode_variant(_order: Endian, bytes: &[u8]) -> u32 {
        bytes[0] as u32
    }

    fn decode_length(order: Endian, bytes: &[u8]) -> usize {
        order.read_u16(bytes) as usize
    }

    fn decode_sequence_length(order: Endian, bytes: &[u8]) -> Option<usize> {
        Some(order.read_u16(bytes) as usize)
    }

    fn decode_char(order: Endian, bytes: &[u8]) -> Result<char, u32> {
        let code = order.read_u32(bytes);
        char::from_u32(code).ok_or(code)
    }
}

type CountedSer = BinarySerializer<WriteWrapper<Vec<u8>>, Counted, String>;
type CountedDe<'a> = BinaryDeserializer<'a, SliceReader<'a>, Counted, String>;

#[test]
fn counted_sequence_round_trip_in_another_dialect() {
    for order in ORDERS {
        let items = [10u8, 20, 30];
        let mut seq = CountedSer::new(Vec::new(), order)
            .serialize_seq(Some(items.len()))
            .unwrap();
        for item in items {
            seq.serialize_element(|s| s.serialize_u8(item)).unwrap();
        }
        let s = seq.end().unwrap().serialize_u8(99).unwrap();
        let wire = s.consume().into_inner();
        assert_eq!(wire.len(), 2 + 3 + 1);

        let mut d = CountedDe::new(SliceReader::new(&wire), order);
        let mut cursor = d.deserialize_seq();
        let mut back = Vec::new();
        while cursor.next_element(&mut d).unwrap() {
            back.push(d.deserialize_u8().unwrap());
        }
        assert_eq!(back, items);
        assert_eq!(d.deserialize_u8().unwrap(), 99);
    }
}

#[test]
fn another_dialect_changes_the_token_widths() {
    let s = CountedSer::new(Vec::new(), Endian::Big);
    let s = s.serialize_none().unwrap();
    let s = s.serialize_str("ab").unwrap();
    let s = s.serialize_unit_variant("E", 3, "V").unwrap();
    let wire = s.consume().into_inner();
    assert_eq!(wire, vec![0, 0, 2, b'a', b'b', 3]);

    let mut d = CountedDe::new(SliceReader::new(&wire), Endian::Big);
    assert!(!d.deserialize_option().unwrap());
    assert_eq!(d.deserialize_str().unwrap(), "ab");
}

#[test]
fn encoding_twice_gives_the_same_bytes() {
    fn encode(order: Endian) -> Vec<u8> {
        let s = ser(order).serialize_str("again").unwrap();
        let s = s.serialize_i64(-77).unwrap();
        let s = s.serialize_some(|s| s.serialize_char('z')).unwrap();
        let mut t = s.serialize_tuple(2).unwrap();
        t.serialize_element(|s| s.serialize_bool(true)).unwrap();
        t.serialize_element(|s| s.serialize_bytes(&[1, 2])).unwrap();
        bytes_of(t.end().unwrap())
    }
    for order in ORDERS {
        assert_eq!(encode(order), encode(order));
    }
}

#[test]
fn both_kinds_are_binary() {
    assert!(!ser(Endian::Little).is_human_readable());
    assert!(!de(&[], Endian::Little).is_human_readable());
}
