use vstd::prelude::*;

verus! {

/// A value with a fixed-size wire encoding of `SIZE` bytes.
pub trait ByteSerializable<const SIZE: usize>: Sized {
    /// The bytes that encode `self`.
    spec fn encoding(&self) -> Seq<u8>;

    /// Whether `bytes` encode a value of this type.
    spec fn is_encoding(bytes: Seq<u8>) -> bool;

    /// The value that `bytes` encode.
    spec fn decoding(bytes: Seq<u8>) -> Self;

    fn to_bytes(&self) -> (r: [u8; SIZE])
        ensures
            r@ == self.encoding(),
    ;

    fn from_bytes(raw_bytes: &[u8; SIZE]) -> (r: Self)
        requires
            Self::is_encoding(raw_bytes@),
        ensures
            r == Self::decoding(raw_bytes@),
    ;
}

} // verus!
