//! Errors of hypervisor discovery.

use vstd::prelude::*;
use crate::uid::Uid;

verus! {

/// What can go wrong while selecting a hypervisor back-end.
#[derive(Clone, Copy, Debug, PartialEq, Eq, Structural)]
pub enum Error {
    /// The host published an identity that belongs to no known back-end.
    UnsupportedHypervisorUuid(Uid),
}

} // verus!
