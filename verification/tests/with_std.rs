use tirse::DefaultBinaryDeserializer;
use tirse::DefaultBinarySerializer;
use tirse::Endian;
use tirse::SliceReader;
use tirse::WriteWrapper;

type SerializerIntoVec = DefaultBinarySerializer<WriteWrapper<Vec<u8>>, String>;
type DeserializeFromSlice<'a> = DefaultBinaryDeserializer<'a, SliceReader<'a>, String>;

#[test]
fn test_str() {
    let v = vec![];
    let serializer = SerializerIntoVec::new(v, Endian::native());
    let v = serializer.serialize_str("here").unwrap().consume().into_inner();

    assert_eq!(
        v,
        vec![4, 0, 0, 0, 0, 0, 0, 0, 'h' as _, 'e' as _, 'r' as _, 'e' as _,]
    );

    let s: &str = DeserializeFromSlice::new(SliceReader::new(v.as_slice()), Endian::native())
        .deserialize_str()
        .unwrap();
    assert_eq!(s, "here");

    println!("{:?}", v)
}

#[derive(Eq, PartialEq, Debug)]
pub struct Point3d {
    x: u32,
    y: u32,
    z: u32,
}

fn write_point(p: &Point3d, serializer: SerializerIntoVec) -> SerializerIntoVec {
    let mut fields = serializer.serialize_struct("Point3d", 3).unwrap();
    fields.serialize_field("x", |s| s.serialize_u32(p.x)).unwrap();
    fields.serialize_field("y", |s| s.serialize_u32(p.y)).unwrap();
    fields.serialize_field("z", |s| s.serialize_u32(p.z)).unwrap();
    fields.end().unwrap()
}

fn read_point(d: &mut DeserializeFromSlice) -> Point3d {
    let mut fields = d.deserialize_struct("Point3d", &["x", "y", "z"]);
    assert!(fields.next_element(d).unwrap());
    let x = d.deserialize_u32().unwrap();
    assert!(fields.next_element(d).unwrap());
    let y = d.deserialize_u32().unwrap();
    assert!(fields.next_element(d).unwrap());
    let z = d.deserialize_u32().unwrap();
    assert!(!fields.next_element(d).unwrap());
    Point3d { x, y, z }
}

#[test]
fn test_struct() {
    let p = Point3d { x: 17, y: 7, z: 0 };
    let v = Vec::new();
    let serializer = SerializerIntoVec::new(v, Endian::native());
    let v = write_point(&p, serializer).consume().into_inner();

    assert_eq!(v, vec![17, 0, 0, 0, 7, 0, 0, 0, 0, 0, 0, 0]);
    println!("{:?}", v);

    let q = read_point(&mut DeserializeFromSlice::new(
        SliceReader::new(v.as_slice()),
        Endian::native(),
    ));
    assert_eq!(p, q);
}
