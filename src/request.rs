use vstd::prelude::*;

use crate::byte_serializable::ByteSerializable;
use crate::codec::{le_bytes, le_value, read_field, u64_from_le_bytes, u64_to_le_bytes, write_field};

verus! {

/// `n` zero bytes.
pub open spec fn zeros(n: nat) -> Seq<u8> {
    Seq::new(n, |i: int| 0u8)
}

/// Root-finding method for a single equation.
#[derive(Clone, Copy, PartialEq, Eq, Debug, Structural)]
pub enum Method {
    Chord,
    Secant,
    SimpleIterationSingle,
}

pub const CHORD: u8 = 0;
pub const SECANT: u8 = 1;
pub const SIMPLE_ITERATION_SINGLE: u8 = 2;

impl Method {
    pub open spec fn spec_to_byte(self) -> u8 {
        match self {
            Method::Chord => CHORD,
            Method::Secant => SECANT,
            Method::SimpleIterationSingle => SIMPLE_ITERATION_SINGLE,
        }
    }

    pub open spec fn spec_from_byte(byte: u8) -> Method {
        if byte == CHORD {
            Method::Chord
        } else if byte == SECANT {
            Method::Secant
        } else {
            Method::SimpleIterationSingle
        }
    }

    pub fn to_byte(&self) -> (r: u8)
        ensures
            r == self.spec_to_byte(),
    {
        match self {
            Method::Chord => CHORD,
            Method::Secant => SECANT,
            Method::SimpleIterationSingle => SIMPLE_ITERATION_SINGLE,
        }
    }

    /// Decodes a method byte; only `0`, `1` and `2` name a method.
    pub fn from_byte(byte: u8) -> (r: Method)
        requires
            byte <= SIMPLE_ITERATION_SINGLE,
        ensures
            r == Self::spec_from_byte(byte),
            r.spec_to_byte() == byte,
    {
        if byte == CHORD {
            Method::Chord
        } else if byte == SECANT {
            Method::Secant
        } else {
            Method::SimpleIterationSingle
        }
    }
}

/// Which kind of equation a request is about.
#[derive(Clone, Copy, PartialEq, Eq, Debug, Structural)]
pub enum EquationModeRaw {
    SingleEquation,
    SystemOfEquations,
}

pub const SINGLE_EQUATION_MODE: u8 = 0;
pub const SYSTEM_OF_EQUATIONS_MODE: u8 = 1;

impl EquationModeRaw {
    pub open spec fn spec_to_byte(self) -> u8 {
        match self {
            EquationModeRaw::SingleEquation => SINGLE_EQUATION_MODE,
            EquationModeRaw::SystemOfEquations => SYSTEM_OF_EQUATIONS_MODE,
        }
    }

    pub open spec fn spec_from_byte(byte: u8) -> EquationModeRaw {
        if byte == SINGLE_EQUATION_MODE {
            EquationModeRaw::SingleEquation
        } else {
            EquationModeRaw::SystemOfEquations
        }
    }

    pub fn to_byte(&self) -> (r: u8)
        ensures
            r == self.spec_to_byte(),
    {
        match self {
            EquationModeRaw::SingleEquation => SINGLE_EQUATION_MODE,
            EquationModeRaw::SystemOfEquations => SYSTEM_OF_EQUATIONS_MODE,
        }
    }

    /// Decodes a mode byte; only `0` and `1` name a mode.
    pub fn from_byte(byte: u8) -> (r: EquationModeRaw)
        requires
            byte <= SYSTEM_OF_EQUATIONS_MODE,
        ensures
            r == Self::spec_from_byte(byte),
    {
        if byte == SINGLE_EQUATION_MODE {
            EquationModeRaw::SingleEquation
        } else {
            EquationModeRaw::SystemOfEquations
        }
    }

    pub fn from_mode(value: &EquationMode) -> (r: EquationModeRaw)
        ensures
            r == value.raw(),
    {
        match value {
            EquationMode::Single { .. } => EquationModeRaw::SingleEquation,
            EquationMode::SystemOfEquations { .. } => EquationModeRaw::SystemOfEquations,
        }
    }
}

/// The equation (and method) a compute-root request asks for.
#[derive(Clone, Copy, PartialEq, Eq, Debug, Structural)]
pub enum EquationMode {
    Single { method: Method, equation_number: u8 },
    SystemOfEquations { system_number: u8 },
}

pub const EQUATION_MODE_SIZE: usize = 3;

impl EquationMode {
    pub open spec fn raw(self) -> EquationModeRaw {
        match self {
            EquationMode::Single { .. } => EquationModeRaw::SingleEquation,
            EquationMode::SystemOfEquations { .. } => EquationModeRaw::SystemOfEquations,
        }
    }
}

impl ByteSerializable<3> for EquationMode {
    /// A mode tag, then the method and the equation's index, or the
    /// system's index and a zero byte.
    open spec fn encoding(&self) -> Seq<u8> {
        match *self {
            EquationMode::Single { method, equation_number } => seq![
                SINGLE_EQUATION_MODE,
                method.spec_to_byte(),
                equation_number,
            ],
            EquationMode::SystemOfEquations { system_number } => seq![
                SYSTEM_OF_EQUATIONS_MODE,
                system_number,
                0u8,
            ],
        }
    }

    open spec fn is_encoding(bytes: Seq<u8>) -> bool {
        ||| bytes[0] == SINGLE_EQUATION_MODE && bytes[1] <= SIMPLE_ITERATION_SINGLE
        ||| bytes[0] == SYSTEM_OF_EQUATIONS_MODE
    }

    open spec fn decoding(bytes: Seq<u8>) -> EquationMode {
        if bytes[0] == SINGLE_EQUATION_MODE {
            EquationMode::Single {
                method: Method::spec_from_byte(bytes[1]),
                equation_number: bytes[2],
            }
        } else {
            EquationMode::SystemOfEquations { system_number: bytes[1] }
        }
    }

    fn to_bytes(&self) -> (r: [u8; 3]) {
        let bytes = match self {
            EquationMode::Single { method, equation_number } => [
                SINGLE_EQUATION_MODE,
                method.to_byte(),
                *equation_number,
            ],
            EquationMode::SystemOfEquations { system_number } => [
                SYSTEM_OF_EQUATIONS_MODE,
                *system_number,
                0u8,
            ],
        };
        assert(bytes@ =~= self.encoding());
        bytes
    }

    fn from_bytes(raw_bytes: &[u8; 3]) -> (r: EquationMode) {
        if raw_bytes[0] == SINGLE_EQUATION_MODE {
            EquationMode::Single {
                method: Method::from_byte(raw_bytes[1]),
                equation_number: raw_bytes[2],
            }
        } else {
            EquationMode::SystemOfEquations { system_number: raw_bytes[1] }
        }
    }
}

/// Which graph a function-points request asks for.
#[derive(Clone, Copy, PartialEq, Eq, Debug, Structural)]
pub struct Selection {
    pub mode: EquationModeRaw,
    pub index: u8,
}

pub const FUNCTION_POINTS_PAYLOAD_SIZE: usize = 2;

impl Selection {
    pub fn from_mode(value: EquationMode) -> (r: Selection)
        ensures
            r.mode == value.raw(),
            r.index == match value {
                EquationMode::Single { equation_number, .. } => equation_number,
                EquationMode::SystemOfEquations { system_number } => system_number,
            },
    {
        match value {
            EquationMode::Single { equation_number, .. } => Selection {
                mode: EquationModeRaw::SingleEquation,
                index: equation_number,
            },
            EquationMode::SystemOfEquations { system_number } => Selection {
                mode: EquationModeRaw::SystemOfEquations,
                index: system_number,
            },
        }
    }
}

impl ByteSerializable<2> for Selection {
    /// The mode tag, then the index.
    open spec fn encoding(&self) -> Seq<u8> {
        seq![self.mode.spec_to_byte(), self.index]
    }

    open spec fn is_encoding(bytes: Seq<u8>) -> bool {
        bytes[0] <= SYSTEM_OF_EQUATIONS_MODE
    }

    open spec fn decoding(bytes: Seq<u8>) -> Selection {
        Selection { mode: EquationModeRaw::spec_from_byte(bytes[0]), index: bytes[1] }
    }

    fn to_bytes(&self) -> (r: [u8; 2]) {
        let r = [self.mode.to_byte(), self.index];
        assert(r@ =~= self.encoding());
        r
    }

    fn from_bytes(raw_bytes: &[u8; 2]) -> (r: Selection) {
        Selection { mode: EquationModeRaw::from_byte(raw_bytes[0]), index: raw_bytes[1] }
    }
}

/// Payload of a function-points request.
#[derive(Clone, Copy, PartialEq, Eq, Debug, Structural)]
pub struct FunctionPointsPayload {
    pub mode: EquationModeRaw,
    pub equation_number: u8,
}

impl ByteSerializable<2> for FunctionPointsPayload {
    /// The mode tag, then the equation's index.
    open spec fn encoding(&self) -> Seq<u8> {
        seq![self.mode.spec_to_byte(), self.equation_number]
    }

    open spec fn is_encoding(bytes: Seq<u8>) -> bool {
        bytes[0] <= SYSTEM_OF_EQUATIONS_MODE
    }

    open spec fn decoding(bytes: Seq<u8>) -> FunctionPointsPayload {
        FunctionPointsPayload {
            mode: EquationModeRaw::spec_from_byte(bytes[0]),
            equation_number: bytes[1],
        }
    }

    fn to_bytes(&self) -> (r: [u8; 2]) {
        let r = [self.mode.to_byte(), self.equation_number];
        assert(r@ =~= self.encoding());
        r
    }

    fn from_bytes(raw_bytes: &[u8; 2]) -> (r: FunctionPointsPayload) {
        FunctionPointsPayload {
            mode: EquationModeRaw::from_byte(raw_bytes[0]),
            equation_number: raw_bytes[1],
        }
    }
}

/// Payload of a compute-root request; `epsilon` is the bit pattern of the
/// requested precision.
#[derive(Clone, Copy, PartialEq, Eq, Debug, Structural)]
pub struct ComputeRootPayload {
    pub epsilon: u64,
    pub mode: EquationMode,
}

/// Offset of the equation mode in a compute-root request.
pub const MODE_OFFSET: usize = 9;

/// A request from the host.
#[allow(inconsistent_fields)]
#[derive(Clone, Copy, PartialEq, Eq, Debug, Structural)]
pub enum RequestPackage {
    /// For a system of equations the answer is two point sets, one per
    /// equation.
    FunctionPoints { payload: FunctionPointsPayload },
    InitialApproximations,
    ComputeRoot { payload: ComputeRootPayload },
}

pub const FUNCTION_POINTS_TYPE: u8 = 0;
pub const INITIAL_APPROXIMATION_TYPE: u8 = 1;
pub const COMPUTE_ROOT_TYPE: u8 = 2;

impl RequestPackage {
    /// Whether `bytes` hold a request; any other packet is a protocol
    /// violation.
    pub fn is_request(bytes: &[u8; 16]) -> (r: bool)
        ensures
            r == Self::is_encoding(bytes@),
    {
        if bytes[0] == FUNCTION_POINTS_TYPE {
            bytes[1] <= SYSTEM_OF_EQUATIONS_MODE
        } else if bytes[0] == INITIAL_APPROXIMATION_TYPE {
            true
        } else if bytes[0] == COMPUTE_ROOT_TYPE {
            (bytes[9] == SINGLE_EQUATION_MODE && bytes[10] <= SIMPLE_ITERATION_SINGLE) || bytes[9]
                == SYSTEM_OF_EQUATIONS_MODE
        } else {
            false
        }
    }
}

impl ByteSerializable<16> for RequestPackage {
    /// A type tag, then the payload at offset 1, then zeros: the
    /// function-points payload; or the precision and, at offset 9, the
    /// equation mode.
    open spec fn encoding(&self) -> Seq<u8> {
        match *self {
            RequestPackage::FunctionPoints { payload } => seq![FUNCTION_POINTS_TYPE]
                + payload.encoding() + zeros(13),
            RequestPackage::InitialApproximations => seq![INITIAL_APPROXIMATION_TYPE] + zeros(15),
            RequestPackage::ComputeRoot { payload } => seq![COMPUTE_ROOT_TYPE] + le_bytes(
                payload.epsilon,
            ) + payload.mode.encoding() + zeros(4),
        }
    }

    open spec fn is_encoding(bytes: Seq<u8>) -> bool {
        ||| bytes[0] == FUNCTION_POINTS_TYPE && FunctionPointsPayload::is_encoding(
            bytes.subrange(1, 3),
        )
        ||| bytes[0] == INITIAL_APPROXIMATION_TYPE
        ||| bytes[0] == COMPUTE_ROOT_TYPE && EquationMode::is_encoding(bytes.subrange(9, 12))
    }

    open spec fn decoding(bytes: Seq<u8>) -> RequestPackage {
        if bytes[0] == FUNCTION_POINTS_TYPE {
            RequestPackage::FunctionPoints {
                payload: FunctionPointsPayload::decoding(bytes.subrange(1, 3)),
            }
        } else if bytes[0] == INITIAL_APPROXIMATION_TYPE {
            RequestPackage::InitialApproximations
        } else {
            RequestPackage::ComputeRoot {
                payload: ComputeRootPayload {
                    epsilon: le_value(bytes.subrange(1, 9)),
                    mode: EquationMode::decoding(bytes.subrange(9, 12)),
                },
            }
        }
    }

    fn to_bytes(&self) -> (r: [u8; 16]) {
        let mut package = [0u8; 16];
        assert(package@ =~= zeros(16));
        match self {
            RequestPackage::FunctionPoints { payload } => {
                package[0] = FUNCTION_POINTS_TYPE;
                write_field(&mut package, 1, &payload.to_bytes());
            },
            RequestPackage::InitialApproximations => {
                package[0] = INITIAL_APPROXIMATION_TYPE;
            },
            RequestPackage::ComputeRoot { payload } => {
                package[0] = COMPUTE_ROOT_TYPE;
                write_field(&mut package, 1, &u64_to_le_bytes(payload.epsilon));
                write_field(&mut package, MODE_OFFSET, &payload.mode.to_bytes());
            },
        }
        assert(package@ =~= self.encoding());
        package
    }

    fn from_bytes(raw_bytes: &[u8; 16]) -> (r: RequestPackage) {
        let request_type = raw_bytes[0];
        if request_type == FUNCTION_POINTS_TYPE {
            let payload: [u8; 2] = read_field(raw_bytes, 1);
            RequestPackage::FunctionPoints { payload: FunctionPointsPayload::from_bytes(&payload) }
        } else if request_type == INITIAL_APPROXIMATION_TYPE {
            RequestPackage::InitialApproximations
        } else {
            let epsilon: [u8; 8] = read_field(raw_bytes, 1);
            let mode: [u8; 3] = read_field(raw_bytes, MODE_OFFSET);
            RequestPackage::ComputeRoot {
                payload: ComputeRootPayload {
                    epsilon: u64_from_le_bytes(&epsilon),
                    mode: EquationMode::from_bytes(&mode),
                },
            }
        }
    }
}

/// Round trip of the request encoding: every request encodes to a packet
/// that is recognised as a request and decodes back to it.
pub proof fn lemma_request_round_trip(request: RequestPackage)
    ensures
        RequestPackage::is_encoding(request.encoding()),
        RequestPackage::decoding(request.encoding()) == request,
{
    let bytes = request.encoding();
    match request {
        RequestPackage::FunctionPoints { payload } => {
            assert(bytes.subrange(1, 3) =~= payload.encoding());
        },
        RequestPackage::InitialApproximations => {},
        RequestPackage::ComputeRoot { payload } => {
            assert(bytes.subrange(1, 9) =~= le_bytes(payload.epsilon));
            assert(bytes.subrange(9, 12) =~= payload.mode.encoding());
            crate::codec::lemma_le_value_of_le_bytes(payload.epsilon);
        },
    }
}

} // verus!
