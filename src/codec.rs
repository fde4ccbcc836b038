use vstd::prelude::*;

verus! {

/// Little-endian bytes of `v`.
pub open spec fn le_bytes(v: u64) -> Seq<u8> {
    seq![
        v as u8,
        (v >> 8u64) as u8,
        (v >> 16u64) as u8,
        (v >> 24u64) as u8,
        (v >> 32u64) as u8,
        (v >> 40u64) as u8,
        (v >> 48u64) as u8,
        (v >> 56u64) as u8,
    ]
}

/// The number whose little-endian bytes are `b[0..8]`.
pub open spec fn le_value(b: Seq<u8>) -> u64 {
    (b[0] as u64) | ((b[1] as u64) << 8u64) | ((b[2] as u64) << 16u64) | ((b[3] as u64) << 24u64)
        | ((b[4] as u64) << 32u64) | ((b[5] as u64) << 40u64) | ((b[6] as u64) << 48u64) | ((
    b[7] as u64) << 56u64)
}

pub proof fn lemma_le_value_of_le_bytes(v: u64)
    ensures
        le_value(le_bytes(v)) == v,
{
    let b = le_bytes(v);
    let (b0, b1, b2, b3, b4, b5, b6, b7) = (b[0], b[1], b[2], b[3], b[4], b[5], b[6], b[7]);
    assert(b0 == v as u8 && b1 == (v >> 8u64) as u8 && b2 == (v >> 16u64) as u8 && b3 == (v
        >> 24u64) as u8 && b4 == (v >> 32u64) as u8 && b5 == (v >> 40u64) as u8 && b6 == (v
        >> 48u64) as u8 && b7 == (v >> 56u64) as u8);
    assert((b0 as u64) | ((b1 as u64) << 8u64) | ((b2 as u64) << 16u64) | ((b3 as u64) << 24u64)
        | ((b4 as u64) << 32u64) | ((b5 as u64) << 40u64) | ((b6 as u64) << 48u64) | ((b7 as u64)
        << 56u64) == v) by (bit_vector)
        requires
            b0 == v as u8,
            b1 == (v >> 8u64) as u8,
            b2 == (v >> 16u64) as u8,
            b3 == (v >> 24u64) as u8,
            b4 == (v >> 32u64) as u8,
            b5 == (v >> 40u64) as u8,
            b6 == (v >> 48u64) as u8,
            b7 == (v >> 56u64) as u8,
    ;
}

/// Little-endian bytes of `v`.
pub fn u64_to_le_bytes(v: u64) -> (r: [u8; 8])
    ensures
        r@ == le_bytes(v),
{
    let r = [
        v as u8,
        (v >> 8u64) as u8,
        (v >> 16u64) as u8,
        (v >> 24u64) as u8,
        (v >> 32u64) as u8,
        (v >> 40u64) as u8,
        (v >> 48u64) as u8,
        (v >> 56u64) as u8,
    ];
    assert(r@ =~= le_bytes(v));
    r
}

/// The number whose little-endian bytes are `b`.
pub fn u64_from_le_bytes(b: &[u8; 8]) -> (r: u64)
    ensures
        r == le_value(b@),
{
    (b[0] as u64) | ((b[1] as u64) << 8u64) | ((b[2] as u64) << 16u64) | ((b[3] as u64) << 24u64)
        | ((b[4] as u64) << 32u64) | ((b[5] as u64) << 40u64) | ((b[6] as u64) << 48u64) | ((
    b[7] as u64) << 56u64)
}

/// Copies `LENGTH` bytes of `raw_bytes` from `offset` on.
pub fn read_field<const LENGTH: usize>(raw_bytes: &[u8], offset: usize) -> (r: [u8; LENGTH])
    requires
        offset + LENGTH <= raw_bytes@.len(),
    ensures
        r@ == raw_bytes@.subrange(offset as int, offset + LENGTH),
{
    let mut r = [0u8; LENGTH];
    let total = raw_bytes.len();
    let mut i: usize = 0;
    while i < LENGTH
        invariant
            i <= LENGTH,
            offset + LENGTH <= total,
            total == raw_bytes@.len(),
            r@.len() == LENGTH,
            forall|j: int| 0 <= j < i ==> r@[j] == raw_bytes@[offset + j],
        decreases LENGTH - i,
    {
        r[i] = raw_bytes[offset + i];
        i = i + 1;
    }
    assert(r@ =~= raw_bytes@.subrange(offset as int, offset + LENGTH));
    r
}

/// Writes `field` into `bytes` from `offset` on.
pub fn write_field<const SIZE: usize>(bytes: &mut [u8; SIZE], offset: usize, field: &[u8])
    requires
        offset + field@.len() <= SIZE,
    ensures
        final(bytes)@ == old(bytes)@.subrange(0, offset as int) + field@ + old(bytes)@.subrange(
            offset + field@.len(),
            SIZE as int,
        ),
{
    let n = field.len();
    let mut i: usize = 0;
    while i < n
        invariant
            i <= n,
            n == field@.len(),
            offset + n <= SIZE,
            bytes@.len() == SIZE,
            forall|j: int| 0 <= j < offset ==> bytes@[j] == old(bytes)@[j],
            forall|j: int| 0 <= j < i ==> bytes@[offset + j] == field@[j],
            forall|j: int| offset + i <= j < SIZE ==> bytes@[j] == old(bytes)@[j],
        decreases n - i,
    {
        bytes[offset + i] = field[i];
        i = i + 1;
    }
    assert(bytes@ =~= old(bytes)@.subrange(0, offset as int) + field@ + old(bytes)@.subrange(
        offset + n,
        SIZE as int,
    ));
}

} // verus!
