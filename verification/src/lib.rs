//! Hypervisor discovery and back-end selection for guest firmware.
//!
//! A guest asks its host which hypervisor it runs under through the SMCCC
//! vendor hypervisor service call "call UID". The reply is decoded into a
//! 128-bit [`uid::Uid`], the `Uid` is matched against the identities of the
//! known back-ends, and the selection is committed to a write-once cell.

pub mod error;
pub mod hypervisor;
pub mod uid;
