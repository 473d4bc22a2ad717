use vstd::prelude::*;

verus! {

/// An opaque transaction payload, addressed only by the height of the batch
/// it was recorded in.
#[derive(Clone, Debug, PartialEq, Eq)]
pub struct Transaction {
    pub bytes: Vec<u8>,
}

impl Transaction {
    pub fn new(bytes: Vec<u8>) -> (r: Transaction)
        ensures
            r.bytes@ == bytes@,
    {
        Transaction { bytes }
    }
}

} // verus!
