//! The KVM back-end.

use vstd::prelude::*;
use crate::hypervisor::common::Hypervisor;
use crate::uid::Uid;

verus! {

/// The back-end for guests of KVM.
pub struct KvmHypervisor;

impl KvmHypervisor {
    /// `28b46fb6-2ec5-11e9-a9ca-4b564d003a74`, the identity that KVM publishes,
    /// as one integer with the first byte most significant.
    pub const UUID: u128 = 0x28b46fb6_2ec511e9_a9ca4b56_4d003a74;
}

impl Hypervisor for KvmHypervisor {
    open spec fn spec_uuid(&self) -> Uid {
        Uid { value: KvmHypervisor::UUID }
    }

    fn uuid(&self) -> (uuid: Uid) {
        Uid::from_u128(KvmHypervisor::UUID)
    }
}

} // verus!
