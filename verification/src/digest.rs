use vstd::prelude::*;

verus! {

/// An opaque fixed-size commitment digest summarizing a state snapshot.
#[derive(Clone, Copy, Debug, PartialEq, Eq)]
pub struct Digest(pub [u8; 32]);

impl Digest {
    /// The raw digest bytes, as a mathematical sequence.
    pub open spec fn bytes(self) -> Seq<u8> {
        self.0@
    }

    pub fn new(bytes: [u8; 32]) -> (r: Digest)
        ensures
            r.bytes() == bytes@,
    {
        Digest(bytes)
    }
}

} // verus!
