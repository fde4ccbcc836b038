//! Firmware logic of a serial-linked equation solver: a fixed-capacity ring
//! buffer, interrupt-safe primitives, a USART driver state machine, the wire
//! protocol, a button debouncer and the root-finding decision procedures.
//!
//! Floating-point values never enter this crate as floats: the wire carries
//! each number as the eight little-endian bytes of its IEEE-754 bit pattern,
//! and the library handles that pattern as a `u64`.

pub mod buttons;
pub mod byte_serializable;
pub mod codec;
pub mod equations;
pub mod interrupt;
pub mod lazy;
pub mod mutex;
pub mod point;
pub mod protocol_handler;
pub mod request;
pub mod response;
pub mod ring_buffer;
pub mod usart;

use vstd::prelude::*;

use crate::codec::le_bytes;

verus! {

/// The handshake signature, sent and expected as its little-endian bytes.
pub const PROTOCOL_SIGNATURE: u64 = 0x158d_c58c_304f_007b;

pub const PROTOCOL_SIGNATURE_SIZE: usize = 8;

/// Number of points in a function-points response.
pub const POINT_AMOUNT: usize = 256;

/// Size of a request and of every response but function points.
pub const PACKAGE_SIZE: usize = 16;

/// Size of a function-points response: `POINT_AMOUNT` points of 16 bytes.
pub const LONG_PACKAGE_SIZE: usize = 4096;

/// Size of one number on the wire.
pub const T_NUMBER_SIZE_BYTES: usize = 8;

/// `bytes` holds the signature's bytes at some position.
pub open spec fn holds_signature(bytes: Seq<u8>) -> bool {
    exists|i: int|
        0 <= i && i + 8 <= bytes.len() && #[trigger] bytes.subrange(i, i + 8) == le_bytes(
            PROTOCOL_SIGNATURE,
        )
}

/// Whether some eight consecutive bytes of `bytes` are the signature.
pub fn is_signature_valid(bytes: &[u8]) -> (r: bool)
    ensures
        r == holds_signature(bytes@),
{
    let signature = codec::u64_to_le_bytes(PROTOCOL_SIGNATURE);
    let n = bytes.len();
    if n < PROTOCOL_SIGNATURE_SIZE {
        return false;
    }
    let mut start: usize = 0;
    while start <= n - PROTOCOL_SIGNATURE_SIZE
        invariant
            n == bytes@.len(),
            n >= 8,
            signature@ == le_bytes(PROTOCOL_SIGNATURE),
            start <= n - 7,
            forall|i: int|
                0 <= i < start ==> #[trigger] bytes@.subrange(i, i + 8) != le_bytes(
                    PROTOCOL_SIGNATURE,
                ),
        decreases n - start,
    {
        let mut k: usize = 0;
        let mut same = true;
        while k < PROTOCOL_SIGNATURE_SIZE
            invariant
                k <= 8,
                start + 8 <= n,
                n == bytes@.len(),
                signature@.len() == 8,
                same == (forall|j: int| 0 <= j < k ==> bytes@[start + j] == signature@[j]),
            decreases 8 - k,
        {
            if bytes[start + k] != signature[k] {
                same = false;
            }
            k = k + 1;
        }
        if same {
            assert(bytes@.subrange(start as int, start + 8) =~= signature@);
            return true;
        }
        assert(bytes@[start + 0] != signature@[0] || bytes@[start + 1] != signature@[1]
            || bytes@[start + 2] != signature@[2] || bytes@[start + 3] != signature@[3]
            || bytes@[start + 4] != signature@[4] || bytes@[start + 5] != signature@[5]
            || bytes@[start + 6] != signature@[6] || bytes@[start + 7] != signature@[7]);
        assert(bytes@.subrange(start as int, start + 8) != signature@) by {
            if bytes@.subrange(start as int, start + 8) == signature@ {
                assert(bytes@.subrange(start as int, start + 8)[0] == bytes@[start + 0]);
            }
        }
        start = start + 1;
    }
    false
}

} // verus!
