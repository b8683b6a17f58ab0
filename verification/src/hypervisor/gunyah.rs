//! The Gunyah back-end.

use vstd::prelude::*;
use crate::hypervisor::common::Hypervisor;
use crate::uid::Uid;

verus! {

/// The back-end for guests of Gunyah.
pub struct GunyahHypervisor;

impl GunyahHypervisor {
    /// `c1d58fcd-a453-5fdb-9265-ce36673d5f14`, the identity that Gunyah publishes,
    /// as one integer with the first byte most significant.
    pub const UUID: u128 = 0xc1d58fcd_a4535fdb_9265ce36_673d5f14;
}

impl Hypervisor for GunyahHypervisor {
    open spec fn spec_uuid(&self) -> Uid {
        Uid { value: GunyahHypervisor::UUID }
    }

    fn uuid(&self) -> (uuid: Uid) {
        Uid::from_u128(GunyahHypervisor::UUID)
    }
}

} // verus!
