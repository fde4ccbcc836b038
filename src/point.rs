use vstd::prelude::*;

use crate::byte_serializable::ByteSerializable;
use crate::codec::{le_bytes, le_value, u64_from_le_bytes, u64_to_le_bytes, write_field};

verus! {

/// A point of a graph or a root; each coordinate is the IEEE-754 bit
/// pattern of a 64-bit float.
#[derive(Clone, Copy, PartialEq, Eq, Debug, Structural)]
pub struct Point {
    pub x: u64,
    pub y: u64,
}

/// Which coordinate of a [`Point`] is meant.
#[derive(Clone, Copy, PartialEq, Eq, Debug, Structural)]
pub enum PointCoordinate {
    X,
    Y,
}

pub const POINT_SIZE_BYTES: usize = 16;

impl Point {
    pub fn new(x: u64, y: u64) -> (r: Point)
        ensures
            r == (Point { x, y }),
    {
        Point { x, y }
    }

    /// The point `(0.0, 0.0)`.
    pub fn zero() -> (r: Point)
        ensures
            r == (Point { x: 0, y: 0 }),
    {
        Point { x: 0, y: 0 }
    }

    pub fn get_coordinate(&self, coordinate: PointCoordinate) -> (r: u64)
        ensures
            r == match coordinate {
                PointCoordinate::X => self.x,
                PointCoordinate::Y => self.y,
            },
    {
        match coordinate {
            PointCoordinate::X => self.x,
            PointCoordinate::Y => self.y,
        }
    }
}

impl ByteSerializable<16> for Point {
    /// `x` then `y`, each in little-endian order.
    open spec fn encoding(&self) -> Seq<u8> {
        le_bytes(self.x) + le_bytes(self.y)
    }

    open spec fn is_encoding(bytes: Seq<u8>) -> bool {
        true
    }

    open spec fn decoding(bytes: Seq<u8>) -> Point {
        Point { x: le_value(bytes.subrange(0, 8)), y: le_value(bytes.subrange(8, 16)) }
    }

    fn to_bytes(&self) -> (r: [u8; 16]) {
        let mut bytes = [0u8; 16];
        write_field(&mut bytes, 0, &u64_to_le_bytes(self.x));
        write_field(&mut bytes, 8, &u64_to_le_bytes(self.y));
        assert(bytes@ =~= le_bytes(self.x) + le_bytes(self.y));
        bytes
    }

    fn from_bytes(raw_bytes: &[u8; 16]) -> (r: Point) {
        let x: [u8; 8] = crate::codec::read_field(raw_bytes, 0);
        let y: [u8; 8] = crate::codec::read_field(raw_bytes, 8);
        Point { x: u64_from_le_bytes(&x), y: u64_from_le_bytes(&y) }
    }
}

} // verus!
