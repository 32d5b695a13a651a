use tirse::DefaultBinarySerializer;
use tirse::DisplayCollector;
use tirse::Endian;
use tirse::Write;

const SMALL_BUFFER_SIZE: usize = 8;

#[derive(Debug, Default, Copy, Clone, Eq, PartialEq)]
pub struct SmallBuffer {
    raw: [u8; SMALL_BUFFER_SIZE],
    position: usize,
}

#[derive(Debug, Clone)]
pub enum Error {
    SizeLimit,
}

impl Write for SmallBuffer {
    type Error = Error;

    fn write(&mut self, bytes: &[u8]) -> Result<(), Self::Error> {
        let position = self.position + bytes.len();
        if position > SMALL_BUFFER_SIZE {
            Err(Error::SizeLimit)
        } else {
            self.raw.copy_from_slice(bytes);
            self.position = position;
            Ok(())
        }
    }
}

#[derive(Debug)]
pub struct FakeDisplayCollector;

impl DisplayCollector for FakeDisplayCollector {
    fn display(msg: &str) -> Self {
        let _ = msg;
        FakeDisplayCollector
    }
}

#[test]
fn test() {
    pub struct Point3d {
        x: f32,
        y: f32,
        z: f32,
    }

    let _p = Point3d {
        x: 0.4,
        y: 7.5,
        z: 0.0,
    };
    let _ = (_p.x, _p.y, _p.z);
    let w = SmallBuffer::default();

    let serializer =
        DefaultBinarySerializer::<SmallBuffer, FakeDisplayCollector>::new(w, Endian::native());

    let buffer = serializer
        .serialize_u64(5u64)
        .map(DefaultBinarySerializer::consume)
        .unwrap();

    assert_eq!(
        buffer,
        SmallBuffer {
            raw: [5, 0, 0, 0, 0, 0, 0, 0],
            position: 8,
        }
    );
    println!("{:?}", buffer)
}
