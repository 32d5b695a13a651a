use either::Either;
use tirse::BinaryDeserializerError;
use tirse::BoundedBuffer;
use tirse::DefaultBinaryDeserializer;
use tirse::DefaultBinarySerializer;
use tirse::DisplayCollector;
use tirse::Endian;
use tirse::ErrorAdapter;
use tirse::Fetched;
use tirse::IoError;
use tirse::Read;
use tirse::ReadWrapper;
use tirse::SequenceAccess;
use tirse::SliceReader;
use tirse::Write;
use tirse::WriteWrapper;

type De<'a> = DefaultBinaryDeserializer<'a, SliceReader<'a>, String>;
type Staged<'a> = DefaultBinaryDeserializer<'a, ReadWrapper<&'a [u8]>, String>;
type Bounded = DefaultBinarySerializer<BoundedBuffer, String>;

fn de(bytes: &[u8]) -> De<'_> {
    De::new(SliceReader::new(bytes), Endian::Little)
}

fn staged(bytes: &[u8]) -> Staged<'_> {
    Staged::new(ReadWrapper::from(bytes), Endian::Little)
}

fn transport<T>(r: Result<T, ErrorAdapter<Either<BinaryDeserializerError, IoError>, String>>) -> IoError {
    match r {
        Err(ErrorAdapter::Inner(Either::Right(e))) => e,
        Err(other) => panic!("not a transport error: {:?}", other),
        Ok(_) => panic!("no error"),
    }
}

fn codec<T>(
    r: Result<T, ErrorAdapter<Either<BinaryDeserializerError, IoError>, String>>,
) -> BinaryDeserializerError {
    match r {
        Err(ErrorAdapter::Inner(Either::Left(e))) => e,
        Err(other) => panic!("not a codec error: {:?}", other),
        Ok(_) => panic!("no error"),
    }
}

#[test]
fn short_input_fails_and_consumes_nothing() {
    let wire = [1u8, 2, 3];
    let mut d = de(&wire);
    assert_eq!(transport(d.deserialize_u32()), IoError { missing: 3..4 });
    assert_eq!(transport(d.deserialize_u64()), IoError { missing: 3..8 });
    assert_eq!(transport(d.deserialize_char()), IoError { missing: 3..4 });
    assert_eq!(transport(d.deserialize_option()), IoError { missing: 3..4 });
    assert_eq!(transport(d.deserialize_str()), IoError { missing: 3..8 });
    assert_eq!(transport(d.deserialize_enum("E", &[])), IoError { missing: 3..4 });
    assert_eq!(d.deserialize_u16().unwrap(), 0x0201);
    assert_eq!(d.deserialize_u8().unwrap(), 3);
    assert_eq!(transport(d.deserialize_u8()), IoError { missing: 0..1 });
    assert_eq!(transport(d.deserialize_bool()), IoError { missing: 0..1 });
}

#[test]
fn short_input_fails_on_a_staging_reader_too() {
    let wire = [1u8, 2, 3];
    let mut d = staged(&wire);
    assert_eq!(transport(d.deserialize_i32()), IoError { missing: 3..4 });
    assert_eq!(transport(d.deserialize_string()), IoError { missing: 3..8 });
    assert_eq!(d.deserialize_i16().unwrap(), 0x0201);
    assert_eq!(d.into_inner().into_inner(), &[3u8][..]);
}

#[test]
fn short_payload_fails_after_the_length() {
    let wire = [5u8, 0, 0, 0, 0, 0, 0, 0, b'a', b'b'];
    let mut d = de(&wire);
    assert_eq!(transport(d.deserialize_str()), IoError { missing: 2..5 });
    assert_eq!(d.into_inner().as_slice(), b"ab");

    let mut d = staged(&wire);
    assert_eq!(transport(d.deserialize_byte_buf()), IoError { missing: 2..5 });
    assert_eq!(d.into_inner().into_inner(), b"ab");
}

#[test]
fn unexpected_option_discriminant_is_reported_with_its_number() {
    let wire = [2u8, 0, 0, 0, 9];
    let mut d = de(&wire);
    match codec(d.deserialize_option()) {
        BinaryDeserializerError::UnexpectedVariant(code) => assert_eq!(code, 2),
        other => panic!("{:?}", other),
    }
    assert_eq!(d.into_inner().as_slice(), &[9]);

    let wire = [0xFFu8, 0xFF, 0xFF, 0xFF];
    match codec(de(&wire).deserialize_option()) {
        BinaryDeserializerError::UnexpectedVariant(code) => assert_eq!(code, u32::MAX),
        other => panic!("{:?}", other),
    }
}

#[test]
fn invalid_char_code_is_reported_with_its_number() {
    for code in [0xD800u32, 0xDFFF, 0x11_0000, u32::MAX] {
        let wire = code.to_le_bytes();
        match codec(de(&wire).deserialize_char()) {
            BinaryDeserializerError::WrongChar(found) => assert_eq!(found, code),
            other => panic!("{:?}", other),
        }
    }
}

#[test]
fn invalid_utf8_is_an_error() {
    let wire = [2u8, 0, 0, 0, 0, 0, 0, 0, 0xC3, 0x28, 7];
    let mut d = de(&wire);
    assert!(matches!(
        codec(d.deserialize_str()),
        BinaryDeserializerError::Utf8Error(_)
    ));
    assert_eq!(d.into_inner().as_slice(), &[7]);
    assert!(matches!(
        codec(de(&wire).deserialize_string()),
        BinaryDeserializerError::FromUtf8Error(_)
    ));
    assert!(matches!(
        codec(staged(&wire).deserialize_string()),
        BinaryDeserializerError::FromUtf8Error(_)
    ));
    assert_eq!(de(&wire).deserialize_bytes().unwrap(), &[0xC3, 0x28]);
}

#[test]
fn self_describing_operations_are_not_supported() {
    let wire = [1u8, 2, 3];
    let mut d = de(&wire);
    assert!(matches!(
        codec(d.deserialize_any()),
        BinaryDeserializerError::NotSupported
    ));
    assert!(matches!(
        codec(d.deserialize_identifier()),
        BinaryDeserializerError::NotSupported
    ));
    assert!(matches!(
        codec(d.deserialize_ignored_any()),
        BinaryDeserializerError::NotSupported
    ));
    assert_eq!(d.into_inner().as_slice(), &wire);
}

#[test]
fn borrowed_values_need_a_reader_that_lends() {
    let wire = [1u8, 0, 0, 0, 0, 0, 0, 0, b'a'];
    let mut d = staged(&wire);
    assert!(matches!(
        codec(d.deserialize_str()),
        BinaryDeserializerError::CannotReadBorrowed
    ));
    assert!(matches!(
        codec(d.deserialize_bytes()),
        BinaryDeserializerError::CannotReadBorrowed
    ));
    assert_eq!(d.deserialize_string().unwrap(), "a");
}

#[test]
fn borrowed_string_is_a_region_of_the_input() {
    let wire = [9u8, 4, 0, 0, 0, 0, 0, 0, 0, b'h', b'e', b'r', b'e', 9];
    let mut d = de(&wire);
    assert_eq!(d.deserialize_u8().unwrap(), 9);
    let text = d.deserialize_str().unwrap();
    assert_eq!(text, "here");
    assert_eq!(text.as_ptr(), wire[9..].as_ptr());
    assert_eq!(d.deserialize_u8().unwrap(), 9);

    let mut d = de(&wire[1..]);
    let bytes = d.deserialize_bytes().unwrap();
    assert_eq!(bytes, b"here");
    assert_eq!(bytes.as_ptr(), wire[9..].as_ptr());
}

#[test]
fn owned_string_is_a_copy_with_the_same_content() {
    let wire = [4u8, 0, 0, 0, 0, 0, 0, 0, b'h', b'e', b'r', b'e'];
    let text = staged(&wire).deserialize_string().unwrap();
    assert_eq!(text, "here");
    assert_ne!(text.as_ptr(), wire[8..].as_ptr());
    let bytes = staged(&wire).deserialize_byte_buf().unwrap();
    assert_eq!(bytes, b"here");
}

#[test]
fn fetch_lends_or_stages() {
    let wire = [1u8, 2, 3];
    let mut d = de(&wire);
    match d.fetch(2).unwrap() {
        Fetched::Borrowed(bytes) => {
            assert_eq!(bytes, &[1, 2]);
            assert_eq!(bytes.as_ptr(), wire.as_ptr());
        }
        Fetched::Owned(_) => panic!("copied"),
    }
    assert_eq!(d.fetch(2).unwrap_err(), IoError { missing: 1..2 });
    assert_eq!(d.fetch(0).unwrap().as_slice(), &[] as &[u8]);
    assert_eq!(d.fetch(1).unwrap().into_vec(), vec![3]);

    let mut d = staged(&wire);
    match d.fetch(2).unwrap() {
        Fetched::Owned(bytes) => assert_eq!(bytes, vec![1, 2]),
        Fetched::Borrowed(_) => panic!("lent"),
    }
    assert_eq!(d.fetch(1).unwrap().as_slice(), &[3]);
}

#[test]
fn slice_reader_reads_from_the_front() {
    let data = [1u8, 2, 3, 4];
    let mut r = SliceReader::new(&data);
    assert_eq!(r.is(), Some(()));
    assert_eq!(r.read(0).unwrap().unwrap(), &[] as &[u8]);
    assert_eq!(r.as_slice(), &data);
    assert_eq!(r.read(1).unwrap().unwrap(), &[1]);
    let mut buffer = vec![9, 9, 9];
    r.read_in_buffer(&mut buffer, 2).unwrap();
    assert_eq!(buffer, vec![2, 3, 9]);
    assert_eq!(r.read(2).unwrap().unwrap_err(), IoError { missing: 1..2 });
    assert_eq!(
        r.read_in_buffer(&mut buffer, 3).unwrap_err(),
        IoError { missing: 1..3 }
    );
    assert_eq!(buffer, vec![2, 3, 9]);
    assert_eq!(r.read(1).unwrap().unwrap(), &[4]);
    assert_eq!(r.is(), None);
}

#[test]
fn reader_behind_a_reference_reads_the_same_source() {
    let data = [1u8, 2, 3];
    let mut r = SliceReader::new(&data);
    {
        let mut inner = &mut r;
        assert_eq!(Read::read(&mut inner, 2).unwrap().unwrap(), &[1, 2]);
        assert_eq!(Read::is(&inner), Some(()));
    }
    assert_eq!(r.as_slice(), &[3]);
}

#[test]
fn split_decoder_consumes_from_its_parent() {
    let wire = [1u8, 2, 3];
    let mut d = de(&wire);
    assert_eq!(d.split().deserialize_u8().unwrap(), 1);
    assert_eq!(d.split().split().deserialize_u8().unwrap(), 2);
    assert_eq!(d.deserialize_u8().unwrap(), 3);
}

#[test]
fn read_wrapper_never_lends() {
    let data = [1u8, 2, 3];
    let mut r = ReadWrapper::from(&data[..]);
    assert!(r.read(1).is_none());
    assert!(r.read(9).is_none());
    let mut buffer = vec![0; 2];
    r.read_in_buffer(&mut buffer, 2).unwrap();
    assert_eq!(buffer, vec![1, 2]);
    assert_eq!(r.is(), Some(()));
    assert_eq!(
        r.read_in_buffer(&mut buffer, 2).unwrap_err(),
        IoError { missing: 1..2 }
    );
    r.read_in_buffer(&mut buffer, 1).unwrap();
    assert_eq!(buffer, vec![3, 2]);
    assert_eq!(r.is(), None);
    assert!(r.into_inner().is_empty());
}

#[test]
fn write_wrapper_grows() {
    let mut w = WriteWrapper::from(vec![7u8]);
    w.write(&[1, 2]).unwrap();
    w.write(&[]).unwrap();
    w.write(&[3]).unwrap();
    assert_eq!(w.into_inner(), vec![7, 1, 2, 3]);
}

#[test]
fn bounded_buffer_refuses_what_does_not_fit() {
    let mut w = BoundedBuffer::new(3);
    assert_eq!(w.position(), 0);
    w.write(&[1, 2]).unwrap();
    assert_eq!(w.write(&[3, 4]).unwrap_err(), IoError { missing: 1..2 });
    assert_eq!(w.position(), 2);
    w.write(&[3]).unwrap();
    assert_eq!(w.write(&[4]).unwrap_err(), IoError { missing: 0..1 });
    w.write(&[]).unwrap();
    assert_eq!(w.position(), 3);
    assert_eq!(w.into_inner(), vec![1, 2, 3]);
}

#[test]
fn encoder_surfaces_the_writer_error() {
    let s = Bounded::new(BoundedBuffer::new(5), Endian::Little);
    let s = s.serialize_u32(1).unwrap();
    match s.serialize_u16(2) {
        Err(ErrorAdapter::Inner(Either::Right(e))) => assert_eq!(e, IoError { missing: 1..2 }),
        _ => panic!("no transport error"),
    }

    let s = Bounded::new(BoundedBuffer::new(9), Endian::Little);
    match s.serialize_str("ab") {
        Err(ErrorAdapter::Inner(Either::Right(e))) => assert_eq!(e, IoError { missing: 0..1 }),
        _ => panic!("no transport error"),
    }

    let s = Bounded::new(BoundedBuffer::new(3), Endian::Little);
    assert!(s.serialize_some(|s| s.serialize_u8(1)).is_err());
    let s = Bounded::new(BoundedBuffer::new(3), Endian::Little);
    assert!(s.serialize_seq(Some(1)).is_err());
}

#[test]
fn element_that_fails_closes_the_sequence() {
    let s = Bounded::new(BoundedBuffer::new(1), Endian::Little);
    let mut seq = s.serialize_seq(None).unwrap();
    seq.serialize_element(|s| s.serialize_u8(1)).unwrap();
    match seq.serialize_element(|s| s.serialize_u8(2)) {
        Err(ErrorAdapter::Inner(Either::Right(e))) => assert_eq!(e, IoError { missing: 0..1 }),
        _ => panic!("no transport error"),
    }
}

#[test]
fn element_can_fail_with_an_error_of_the_caller() {
    let s = DefaultBinarySerializer::<WriteWrapper<Vec<u8>>, String>::new(
        Vec::new(),
        Endian::Little,
    );
    let mut fields = s.serialize_struct("Checked", 1).unwrap();
    match fields.serialize_field("x", |_| Err(ErrorAdapter::custom("x is out of range"))) {
        Err(ErrorAdapter::Other(text)) => assert_eq!(text, "x is out of range"),
        _ => panic!("no custom error"),
    }
}

#[test]
fn counted_cursor_yields_exactly_its_count() {
    for n in [0usize, 1, 3] {
        for wire in [&[][..], &[1u8, 2, 3, 4, 5][..]] {
            let mut d = de(wire);
            let mut cursor = d.deserialize_tuple(n);
            for _ in 0..n {
                assert!(cursor.next_element(&mut d).unwrap());
            }
            assert!(!cursor.next_element(&mut d).unwrap());
            assert!(!cursor.next_element(&mut d).unwrap());
            assert_eq!(cursor, SequenceAccess::new_with_length(0));
            assert_eq!(d.into_inner().as_slice(), wire);
        }
    }
}

#[test]
fn counted_cursor_counts_down() {
    let mut d = de(&[]);
    let mut cursor = SequenceAccess::new_with_length(2);
    assert_eq!(cursor.len, Some(2));
    assert!(cursor.next_key(&mut d).unwrap());
    assert_eq!(cursor.len, Some(1));
    cursor.next_value(&mut d).unwrap();
    assert_eq!(cursor.len, Some(0));
    assert!(!cursor.next_key(&mut d).unwrap());
}

#[test]
fn streamed_cursor_runs_until_the_reader_is_empty() {
    let wire = [1u8, 2];
    let mut d = de(&wire);
    let mut cursor = SequenceAccess::new();
    assert!(cursor.pending);
    assert!(cursor.next_element(&mut d).unwrap());
    assert!(!cursor.pending);
    assert_eq!(cursor.len, None);
    assert!(cursor.next_element(&mut d).unwrap());
    d.deserialize_u16().unwrap();
    assert!(!cursor.next_element(&mut d).unwrap());

    let mut d = de(&[]);
    let mut cursor = d.deserialize_seq();
    assert!(!cursor.next_element(&mut d).unwrap());
}

#[test]
fn custom_error_keeps_the_message() {
    let e: ErrorAdapter<IoError, String> = ErrorAdapter::custom("field out of range");
    match &e {
        ErrorAdapter::Other(text) => assert_eq!(text, "field out of range"),
        ErrorAdapter::Inner(_) => panic!("inner"),
    }
    assert_eq!(
        e.message(|inner| inner.message(), |other| other.clone()),
        "field out of range"
    );
    assert_eq!(String::display("kept"), "kept");

    let e: ErrorAdapter<IoError, String> = ErrorAdapter::Inner(IoError { missing: 2..7 });
    assert_eq!(
        e.message(|inner| inner.message(), |other| other.clone()),
        "failed to read 2..7"
    );
}

#[test]
fn error_messages() {
    assert_eq!(IoError { missing: 0..10 }.message(), "failed to read 0..10");
    assert_eq!(
        IoError { missing: 3..18446744073709551615 }.message(),
        "failed to read 3..18446744073709551615"
    );
    assert_eq!(
        BinaryDeserializerError::WrongChar(55296).message(),
        "wrong char code: 55296"
    );
    assert_eq!(
        BinaryDeserializerError::UnexpectedVariant(2).message(),
        "unexpected variant code: 2"
    );
    assert_eq!(BinaryDeserializerError::NotSupported.message(), "not supported");
    assert_eq!(
        BinaryDeserializerError::CannotReadBorrowed.message(),
        "cannot read borrowed"
    );
    let bad = [0xFFu8];
    let utf8 = std::str::from_utf8(&bad).unwrap_err();
    assert_eq!(
        BinaryDeserializerError::Utf8Error(utf8).message(),
        utf8.to_string()
    );
    let from_utf8 = String::from_utf8(bad.to_vec()).unwrap_err();
    assert_eq!(
        BinaryDeserializerError::FromUtf8Error(from_utf8.clone()).message(),
        from_utf8.to_string()
    );
}
