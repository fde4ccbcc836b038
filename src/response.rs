use vstd::prelude::*;

use crate::byte_serializable::ByteSerializable;
use crate::codec::{le_bytes, le_value, read_field, u64_from_le_bytes, u64_to_le_bytes, write_field};
use crate::point::Point;
use crate::request::zeros;

verus! {

/// Why a root could not be computed.
#[derive(Clone, Copy, PartialEq, Eq, Debug, Structural)]
pub enum MethodError {
    NoRootInRange,
    MoreThanOneRootInRange,
    Diverges,
}

pub const NO_ROOT_IN_RANGE: u8 = 0;
pub const MORE_THAN_ONE_ROOT_IN_RANGE: u8 = 1;
pub const DIVERGES: u8 = 2;

/// Bit pattern of the quiet NaN that marks a failed computation.
pub const NAN_BITS: u64 = 0x7ff8_0000_0000_0000;

/// Whether `bits` is the pattern of a NaN: all exponent bits set and a
/// non-zero mantissa.
pub open spec fn is_nan(bits: u64) -> bool {
    (bits >> 52u64) & 0x7ffu64 == 0x7ffu64 && bits & 0xf_ffff_ffff_ffffu64 != 0
}

pub fn bits_are_nan(bits: u64) -> (r: bool)
    ensures
        r == is_nan(bits),
{
    (bits >> 52u64) & 0x7ffu64 == 0x7ffu64 && bits & 0xf_ffff_ffff_ffffu64 != 0
}

impl MethodError {
    pub open spec fn status(self) -> u8 {
        match self {
            MethodError::NoRootInRange => NO_ROOT_IN_RANGE,
            MethodError::MoreThanOneRootInRange => MORE_THAN_ONE_ROOT_IN_RANGE,
            MethodError::Diverges => DIVERGES,
        }
    }

    pub open spec fn from_status(status: u8) -> MethodError {
        if status == NO_ROOT_IN_RANGE {
            MethodError::NoRootInRange
        } else if status == MORE_THAN_ONE_ROOT_IN_RANGE {
            MethodError::MoreThanOneRootInRange
        } else {
            MethodError::Diverges
        }
    }

    /// Human-readable description.
    pub open spec fn description(self) -> Seq<char> {
        match self {
            MethodError::NoRootInRange => "No roots found withing range"@,
            MethodError::MoreThanOneRootInRange => "More than one root withing range"@,
            MethodError::Diverges => "Method diverges"@,
        }
    }

    pub fn to_string(&self) -> (r: String)
        ensures
            r@ == self.description(),
    {
        match self {
            MethodError::NoRootInRange => "No roots found withing range".to_string(),
            MethodError::MoreThanOneRootInRange => "More than one root withing range".to_string(),
            MethodError::Diverges => "Method diverges".to_string(),
        }
    }
}

/// The current bounds of the interval to search; each is a bit pattern.
#[derive(Clone, Copy, PartialEq, Eq, Debug, Structural)]
pub struct InitialApproximationsResponse {
    pub left: u64,
    pub right: u64,
}

impl ByteSerializable<16> for InitialApproximationsResponse {
    /// `left` then `right`, each little-endian.
    open spec fn encoding(&self) -> Seq<u8> {
        le_bytes(self.left) + le_bytes(self.right)
    }

    open spec fn is_encoding(bytes: Seq<u8>) -> bool {
        true
    }

    open spec fn decoding(bytes: Seq<u8>) -> InitialApproximationsResponse {
        InitialApproximationsResponse {
            left: le_value(bytes.subrange(0, 8)),
            right: le_value(bytes.subrange(8, 16)),
        }
    }

    fn to_bytes(&self) -> (r: [u8; 16]) {
        let mut package = [0u8; 16];
        write_field(&mut package, 0, &u64_to_le_bytes(self.left));
        write_field(&mut package, 8, &u64_to_le_bytes(self.right));
        assert(package@ =~= self.encoding());
        package
    }

    fn from_bytes(raw_bytes: &[u8; 16]) -> (r: InitialApproximationsResponse) {
        let left: [u8; 8] = read_field(raw_bytes, 0);
        let right: [u8; 8] = read_field(raw_bytes, 8);
        InitialApproximationsResponse {
            left: u64_from_le_bytes(&left),
            right: u64_from_le_bytes(&right),
        }
    }
}

/// A computed root.
#[derive(Clone, Copy, PartialEq, Eq, Debug, Structural)]
pub struct ComputeRootResponse {
    pub root: Point,
}

/// Offset of the status byte of a failed computation.
pub const STATUS_OFFSET: usize = 8;

impl ByteSerializable<16> for ComputeRootResponse {
    open spec fn encoding(&self) -> Seq<u8> {
        self.root.encoding()
    }

    open spec fn is_encoding(bytes: Seq<u8>) -> bool {
        true
    }

    open spec fn decoding(bytes: Seq<u8>) -> ComputeRootResponse {
        ComputeRootResponse { root: Point::decoding(bytes) }
    }

    fn to_bytes(&self) -> (r: [u8; 16]) {
        self.root.to_bytes()
    }

    fn from_bytes(raw_bytes: &[u8; 16]) -> (r: ComputeRootResponse) {
        ComputeRootResponse { root: Point::from_bytes(raw_bytes) }
    }
}

impl ByteSerializable<16> for Result<ComputeRootResponse, MethodError> {
    /// A root as its point; a failure as a NaN where the root's `x` would
    /// be, then the error's status byte, then zeros.
    open spec fn encoding(&self) -> Seq<u8> {
        match *self {
            Ok(response) => response.encoding(),
            Err(error) => le_bytes(NAN_BITS) + seq![error.status()] + zeros(7),
        }
    }

    /// A root whose `x` is not NaN, or a NaN with a known status byte.
    open spec fn is_encoding(bytes: Seq<u8>) -> bool {
        !is_nan(le_value(bytes.subrange(0, 8))) || bytes[8] <= DIVERGES
    }

    open spec fn decoding(bytes: Seq<u8>) -> Result<ComputeRootResponse, MethodError> {
        if !is_nan(le_value(bytes.subrange(0, 8))) {
            Ok(ComputeRootResponse::decoding(bytes))
        } else {
            Err(MethodError::from_status(bytes[8]))
        }
    }

    fn to_bytes(&self) -> (r: [u8; 16]) {
        match self {
            Ok(response) => response.to_bytes(),
            Err(error) => {
                let mut bytes = [0u8; 16];
                assert(bytes@ =~= zeros(16));
                write_field(&mut bytes, 0, &u64_to_le_bytes(NAN_BITS));
                bytes[STATUS_OFFSET] = match error {
                    MethodError::NoRootInRange => NO_ROOT_IN_RANGE,
                    MethodError::MoreThanOneRootInRange => MORE_THAN_ONE_ROOT_IN_RANGE,
                    MethodError::Diverges => DIVERGES,
                };
                assert(bytes@ =~= self.encoding());
                bytes
            },
        }
    }

    fn from_bytes(raw_bytes: &[u8; 16]) -> (r: Result<ComputeRootResponse, MethodError>) {
        let marker_bytes: [u8; 8] = read_field(raw_bytes, 0);
        let marker = u64_from_le_bytes(&marker_bytes);
        if !bits_are_nan(marker) {
            return Ok(ComputeRootResponse::from_bytes(raw_bytes));
        }
        let status = raw_bytes[STATUS_OFFSET];
        let error = if status == NO_ROOT_IN_RANGE {
            MethodError::NoRootInRange
        } else if status == MORE_THAN_ONE_ROOT_IN_RANGE {
            MethodError::MoreThanOneRootInRange
        } else {
            MethodError::Diverges
        };
        Err(error)
    }
}

/// The points of a graph, sorted by `x`.
pub struct FunctionPointsResponse {
    pub points: Vec<Point>,
}

impl FunctionPointsResponse {
    /// Decodes a long packet of consecutive 16-byte points.
    pub fn from_long_package(value: &[u8; 4096]) -> (r: FunctionPointsResponse)
        ensures
            r.points@.len() == 256,
            forall|i: int|
                0 <= i < 256 ==> r.points@[i] == Point::decoding(
                    #[trigger] value@.subrange(16 * i, 16 * i + 16),
                ),
    {
        let mut points: Vec<Point> = Vec::new();
        let mut index: usize = 0;
        while index < 256
            invariant
                index <= 256,
                points@.len() == index,
                forall|i: int|
                    0 <= i < index ==> points@[i] == Point::decoding(
                        #[trigger] value@.subrange(16 * i, 16 * i + 16),
                    ),
            decreases 256 - index,
        {
            let bytes: [u8; 16] = read_field(value, index * 16);
            points.push(Point::from_bytes(&bytes));
            index = index + 1;
        }
        FunctionPointsResponse { points }
    }
}

/// A reply to the host, as the host reads it.
pub enum ResponsePackage {
    InitialApproximations(InitialApproximationsResponse),
    ComputeRoot(Result<ComputeRootResponse, MethodError>),
    /// The graph of a single equation, or of a system's first equation.
    FunctionPoints(FunctionPointsResponse),
    /// The graph of a system's second equation.
    FunctionPointsSecond(FunctionPointsResponse),
}

/// Round trip of the compute-root encoding: every result decodes to
/// itself.
pub proof fn lemma_compute_root_round_trip(result: Result<ComputeRootResponse, MethodError>)
    requires
        result matches Ok(response) ==> !is_nan(response.root.x),
    ensures
        Result::<ComputeRootResponse, MethodError>::is_encoding(result.encoding()),
        Result::<ComputeRootResponse, MethodError>::decoding(result.encoding()) == result,
{
    let bytes = result.encoding();
    match result {
        Ok(response) => {
            let p = response.root;
            assert(bytes.subrange(0, 8) =~= le_bytes(p.x));
            assert(bytes.subrange(8, 16) =~= le_bytes(p.y));
            crate::codec::lemma_le_value_of_le_bytes(p.x);
            crate::codec::lemma_le_value_of_le_bytes(p.y);
        },
        Err(error) => {
            assert(bytes.subrange(0, 8) =~= le_bytes(NAN_BITS));
            crate::codec::lemma_le_value_of_le_bytes(NAN_BITS);
            assert(is_nan(NAN_BITS)) by (bit_vector);
        },
    }
}

} // verus!
