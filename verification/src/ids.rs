//! Object-store identifiers carried as plain bytes, so that contracts can
//! speak of them without knowing anything about the store's own id type.

use vstd::prelude::*;

verus! {

/// The raw bytes of one object-store id. Every id the store hands out is
/// twenty bytes long; `wf` records that.
#[derive(Debug, PartialEq, Eq)]
pub struct ObjectId {
    pub bytes: Vec<u8>,
}

impl View for ObjectId {
    type V = Seq<u8>;

    open spec fn view(&self) -> Seq<u8> {
        self.bytes@
    }
}

impl ObjectId {
    pub open spec fn wf(self) -> bool {
        self.bytes@.len() == 20
    }
}

} // verus!
