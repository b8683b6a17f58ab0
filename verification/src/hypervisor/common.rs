//! What every hypervisor back-end offers.

use vstd::prelude::*;
use crate::uid::Uid;

verus! {

/// The interface through which a selected back-end is used.
pub trait Hypervisor {
    /// The identity that a host of this kind publishes.
    spec fn spec_uuid(&self) -> Uid;

    /// Returns the identity that a host of this kind publishes.
    fn uuid(&self) -> (uuid: Uid)
        ensures
            uuid == self.spec_uuid(),
    ;
}

} // verus!
