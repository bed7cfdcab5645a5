pub mod addr;
pub mod header;
pub mod packet;
pub mod payload;
pub mod protocol;

use vstd::prelude::*;

use crate::error::PacketError;

verus! {

/// A raw frame.
pub type Buf = Vec<u8>;

/// Values that are written to the wire.
pub trait Serialize: Sized {
    /// The bytes that `serialize` appends.
    spec fn wire(&self) -> Seq<u8>;

    /// Appends the wire form of `self` to `buf`.
    fn serialize(self, buf: &mut Vec<u8>)
        ensures
            final(buf)@ == old(buf)@ + self.wire(),
    ;
}

/// Values that are read from the wire.
pub trait Deserialize: Sized + View {
    /// The inputs on which reading does not fail outright.
    spec fn deserialize_requires(buf: Seq<u8>) -> bool;

    /// What reading `buf` gives.
    spec fn spec_deserialize(buf: Seq<u8>) -> Result<Self::V, PacketError>;

    /// Reads a value from `buf`.
    fn deserialize(buf: &[u8]) -> (r: Result<Self, PacketError>)
        requires
            Self::deserialize_requires(buf@),
        ensures
            match r {
                Ok(p) => Self::spec_deserialize(buf@) == Ok::<Self::V, PacketError>(p@),
                Err(e) => Self::spec_deserialize(buf@) == Err::<Self::V, PacketError>(e),
            },
    ;
}

} // verus!
