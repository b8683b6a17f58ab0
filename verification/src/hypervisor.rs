//! Selection of the hypervisor back-end.

pub mod common;
pub mod gunyah;
pub mod kvm;

use once_cell::race::OnceBox;
use vstd::prelude::*;
use vstd::std_specs::convert::TryFromSpecImpl;
use crate::error::Error;
use crate::hypervisor::common::Hypervisor;
use crate::hypervisor::gunyah::GunyahHypervisor;
use crate::hypervisor::kvm::KvmHypervisor;
use crate::uid::{byte, le_bytes, lemma_swap_bytes, lemma_view_injective, swap_bytes, Uid};

verus! {

/// Function identifier of the SMCCC vendor hypervisor service call "call UID".
pub const ARM_SMCCC_VENDOR_HYP_CALL_UID_FUNC_ID: u32 = 0x8600ff01;

/// The four bytes of `w`, least significant first.
pub open spec fn word_bytes(w: u32) -> Seq<u8> {
    seq![
        (w & 0xff) as u8,
        ((w >> 8) & 0xff) as u8,
        ((w >> 16) & 0xff) as u8,
        ((w >> 24) & 0xff) as u8,
    ]
}

/// The 128-bit integer made of four words, `w0` least significant.
pub open spec fn assemble_words(w0: u32, w1: u32, w2: u32, w3: u32) -> u128 {
    ((w3 as u128) << 96) | ((w2 as u128) << 64) | ((w1 as u128) << 32) | (w0 as u128)
}

/// The identity that the reply words `w0` to `w3` encode.
pub open spec fn uid_of_words(w0: u32, w1: u32, w2: u32, w3: u32) -> Uid {
    Uid { value: swap_bytes(assemble_words(w0, w1, w2, w3)) }
}

/// The identity that a reply to the "call UID" query encodes: the low halves
/// of its first four registers.
pub open spec fn uid_of_response(res: [u64; 18]) -> Uid {
    uid_of_words(res[0] as u32, res[1] as u32, res[2] as u32, res[3] as u32)
}

proof fn lemma_assembled_bytes(w0: u32, w1: u32, w2: u32, w3: u32)
    by (bit_vector)
    ensures
        byte(assemble_words(w0, w1, w2, w3), 0) == (w0 & 0xff) as u8,
        byte(assemble_words(w0, w1, w2, w3), 1) == ((w0 >> 8) & 0xff) as u8,
        byte(assemble_words(w0, w1, w2, w3), 2) == ((w0 >> 16) & 0xff) as u8,
        byte(assemble_words(w0, w1, w2, w3), 3) == ((w0 >> 24) & 0xff) as u8,
        byte(assemble_words(w0, w1, w2, w3), 4) == (w1 & 0xff) as u8,
        byte(assemble_words(w0, w1, w2, w3), 5) == ((w1 >> 8) & 0xff) as u8,
        byte(assemble_words(w0, w1, w2, w3), 6) == ((w1 >> 16) & 0xff) as u8,
        byte(assemble_words(w0, w1, w2, w3), 7) == ((w1 >> 24) & 0xff) as u8,
        byte(assemble_words(w0, w1, w2, w3), 8) == (w2 & 0xff) as u8,
        byte(assemble_words(w0, w1, w2, w3), 9) == ((w2 >> 8) & 0xff) as u8,
        byte(assemble_words(w0, w1, w2, w3), 10) == ((w2 >> 16) & 0xff) as u8,
        byte(assemble_words(w0, w1, w2, w3), 11) == ((w2 >> 24) & 0xff) as u8,
        byte(assemble_words(w0, w1, w2, w3), 12) == (w3 & 0xff) as u8,
        byte(assemble_words(w0, w1, w2, w3), 13) == ((w3 >> 8) & 0xff) as u8,
        byte(assemble_words(w0, w1, w2, w3), 14) == ((w3 >> 16) & 0xff) as u8,
        byte(assemble_words(w0, w1, w2, w3), 15) == ((w3 >> 24) & 0xff) as u8,
{
}

/// Byte order of the decoding: the canonical bytes of the decoded identity
/// are the bytes of `w0`, then those of `w1`, `w2` and `w3`, each word's
/// least significant byte first; and the decoded identity is the only one
/// with those bytes.
pub proof fn lemma_uid_of_words_bytes(w0: u32, w1: u32, w2: u32, w3: u32)
    ensures
        uid_of_words(w0, w1, w2, w3)@ == word_bytes(w0) + word_bytes(w1) + word_bytes(w2)
            + word_bytes(w3),
        forall|other: Uid|
            other@ == word_bytes(w0) + word_bytes(w1) + word_bytes(w2) + word_bytes(w3)
                ==> other == uid_of_words(w0, w1, w2, w3),
{
    let v = assemble_words(w0, w1, w2, w3);
    let bytes = word_bytes(w0) + word_bytes(w1) + word_bytes(w2) + word_bytes(w3);
    lemma_swap_bytes(v);
    lemma_assembled_bytes(w0, w1, w2, w3);
    assert(le_bytes(v) =~= bytes);
    assert forall|other: Uid| other@ == bytes implies other == uid_of_words(w0, w1, w2, w3) by {
        lemma_view_injective(other, uid_of_words(w0, w1, w2, w3));
    }
}

/// Decodes the reply to the "call UID" query into the identity it encodes.
pub fn decode_vendor_hyp_call_uid(res: [u64; 18]) -> (uid: Uid)
    ensures
        uid == uid_of_response(res),
        uid@ == word_bytes(res[0] as u32) + word_bytes(res[1] as u32) + word_bytes(res[2] as u32)
            + word_bytes(res[3] as u32),
{
    let w0: u32 = #[verifier::truncate] (res[0] as u32);
    let w1: u32 = #[verifier::truncate] (res[1] as u32);
    let w2: u32 = #[verifier::truncate] (res[2] as u32);
    let w3: u32 = #[verifier::truncate] (res[3] as u32);
    let uuid: u128 = ((w3 as u128) << 96) | ((w2 as u128) << 64) | ((w1 as u128) << 32) | (w0 as u128);
    proof {
        lemma_uid_of_words_bytes(w0, w1, w2, w3);
    }
    Uid::from_u128_le(uuid)
}

/// The hypervisors that a guest can run under.
#[derive(Clone, Copy, Debug, PartialEq, Eq, Structural)]
pub enum HypervisorBackend {
    Kvm,
    Gunyah,
}

impl HypervisorBackend {
    /// The identity that a host of this kind publishes.
    pub open spec fn spec_uuid(self) -> Uid {
        match self {
            HypervisorBackend::Kvm => Uid { value: KvmHypervisor::UUID },
            HypervisorBackend::Gunyah => Uid { value: GunyahHypervisor::UUID },
        }
    }

    /// The back-end that publishes `uuid`, or the error that carries `uuid`
    /// where no back-end does.
    pub open spec fn of_uuid(uuid: Uid) -> Result<HypervisorBackend, Error> {
        if uuid == HypervisorBackend::Gunyah.spec_uuid() {
            Ok(HypervisorBackend::Gunyah)
        } else if uuid == HypervisorBackend::Kvm.spec_uuid() {
            Ok(HypervisorBackend::Kvm)
        } else {
            Err(Error::UnsupportedHypervisorUuid(uuid))
        }
    }

    /// Returns the interface of this back-end: the one instance that the
    /// back-end's module holds.
    pub fn get_hypervisor(&self) -> (hypervisor: &'static dyn Hypervisor)
        ensures
            hypervisor.spec_uuid() == self.spec_uuid(),
    {
        // Each arm returns by itself, so that each reference becomes a trait
        // object where its type is still known.
        match self {
            HypervisorBackend::Kvm => {
                return &KvmHypervisor;
            },
            HypervisorBackend::Gunyah => {
                return &GunyahHypervisor;
            },
        };
    }
}

impl TryFrom<Uid> for HypervisorBackend {
    type Error = Error;

    /// Selects the back-end whose published identity is `uuid`.
    fn try_from(uuid: Uid) -> (r: Result<HypervisorBackend, Error>)
        ensures
            r == HypervisorBackend::of_uuid(uuid),
    {
        if uuid.value == GunyahHypervisor::UUID {
            Ok(HypervisorBackend::Gunyah)
        } else if uuid.value == KvmHypervisor::UUID {
            Ok(HypervisorBackend::Kvm)
        } else {
            Err(Error::UnsupportedHypervisorUuid(uuid))
        }
    }
}

impl TryFromSpecImpl<Uid> for HypervisorBackend {
    open spec fn obeys_try_from_spec() -> bool {
        true
    }

    open spec fn try_from_spec(uuid: Uid) -> Result<HypervisorBackend, Error> {
        HypervisorBackend::of_uuid(uuid)
    }
}

/// Selects the back-end that the reply `res` to the "call UID" query names.
///
/// There is no back-end to fall back to: a reply that names no known
/// back-end is not admitted here. A caller that cannot rule it out resolves
/// the decoded identity first, with `HypervisorBackend::try_from`.
pub fn detect_hypervisor(res: [u64; 18]) -> (backend: HypervisorBackend)
    requires
        HypervisorBackend::of_uuid(uid_of_response(res)) is Ok,
    ensures
        HypervisorBackend::of_uuid(uid_of_response(res)) == Ok::<HypervisorBackend, Error>(backend),
{
    HypervisorBackend::try_from(decode_vendor_hyp_call_uid(res)).expect("Unknown hypervisor")
}

/// Resolution is total and exact: each published identity selects its own
/// back-end and no other, and every other identity is refused with the error
/// that carries it.
pub proof fn lemma_of_uuid_total(uuid: Uid)
    ensures
        uuid == HypervisorBackend::Kvm.spec_uuid() <==> HypervisorBackend::of_uuid(uuid) == Ok::<
            HypervisorBackend,
            Error,
        >(HypervisorBackend::Kvm),
        uuid == HypervisorBackend::Gunyah.spec_uuid() <==> HypervisorBackend::of_uuid(uuid) == Ok::<
            HypervisorBackend,
            Error,
        >(HypervisorBackend::Gunyah),
        (uuid != HypervisorBackend::Kvm.spec_uuid() && uuid
            != HypervisorBackend::Gunyah.spec_uuid()) <==> HypervisorBackend::of_uuid(uuid) == Err::<
            HypervisorBackend,
            Error,
        >(Error::UnsupportedHypervisorUuid(uuid)),
{
}

/// The cell that holds the selection of a process: written at most once.
#[verifier::external_type_specification]
#[verifier::external_body]
#[verifier::reject_recursive_types(T)]
pub struct ExOnceBox<T>(OnceBox<T>);

/// The one value that `cell` hands out, however often and from whichever
/// thread it is asked.
pub uninterp spec fn committed(cell: OnceBox<HypervisorBackend>) -> HypervisorBackend;

/// Whether some caller that offered `cell` a value was handed another one:
/// the cell had been written, or was written by another caller meanwhile.
pub uninterp spec fn contended(cell: OnceBox<HypervisorBackend>) -> bool;

/// Trusted: `once_cell::race::OnceBox::get`.
///
/// The contract claims that a value read from the cell is the one value that
/// the cell hands out. Whether the cell has been written is left open.
#[verifier::external_body]
fn cell_get<'a>(cell: &'a OnceBox<HypervisorBackend>) -> (r: Option<&'a HypervisorBackend>)
    ensures
        r matches Some(backend) ==> *backend == committed(*cell),
{
    cell.get()
}

/// Trusted: `once_cell::race::OnceBox::get_or_init`, offered `backend` as the
/// value to write.
///
/// The contract claims that the result is the one value that the cell hands
/// out, and that it is `backend` unless this caller, for one, was handed
/// another value than it offered. Which caller's value the cell keeps is
/// left open.
#[verifier::external_body]
fn cell_get_or_init<'a>(cell: &'a OnceBox<HypervisorBackend>, backend: HypervisorBackend) -> (r:
    &'a HypervisorBackend)
    ensures
        *r == committed(*cell),
        *r == backend || contended(*cell),
{
    cell.get_or_init(|| Box::new(backend))
}

/// The arguments of the "call UID" query: seventeen registers, all zero.
pub fn vendor_hyp_call_uid_args() -> (args: [u64; 17])
    ensures
        forall|i: int| 0 <= i < 17 ==> args[i] == 0,
{
    [0u64; 17]
}

/// Returns the interface of the back-end that `cell` holds, if it holds one.
pub fn cached_hypervisor(cell: &OnceBox<HypervisorBackend>) -> (r: Option<&'static dyn Hypervisor>)
    ensures
        r matches Some(hypervisor) ==> hypervisor.spec_uuid() == committed(*cell).spec_uuid(),
{
    let r = hypervisor_of(cell_get(cell));
    return r;
}

/// Returns the interface of the back-end `selection`, and nothing where
/// nothing is selected.
pub fn hypervisor_of(selection: Option<&HypervisorBackend>) -> (r: Option<&'static dyn Hypervisor>)
    ensures
        match selection {
            Some(backend) => r is Some && r->Some_0.spec_uuid() == backend.spec_uuid(),
            None => r is None,
        },
{
    let r = match selection {
        Some(backend) => Some(backend.get_hypervisor()),
        None => None,
    };
    return r;
}

/// Selects the back-end that the reply `res` names, offers it to `cell`, and
/// returns the interface of the back-end that `cell` holds from then on: the
/// one that `res` names, unless the cell was written by another caller.
///
/// A reply that names no known back-end is not admitted, so that nothing is
/// ever offered to the cell on its account.
pub fn init_hypervisor(cell: &OnceBox<HypervisorBackend>, res: [u64; 18]) -> (hypervisor:
    &'static dyn Hypervisor)
    requires
        HypervisorBackend::of_uuid(uid_of_response(res)) is Ok,
    ensures
        hypervisor.spec_uuid() == committed(*cell).spec_uuid(),
        HypervisorBackend::of_uuid(uid_of_response(res)) == Ok::<HypervisorBackend, Error>(
            committed(*cell),
        ) || contended(*cell),
{
    // Each arm returns by itself, as in `get_hypervisor`: what is known of a
    // trait object does not outlive its being handed on as one.
    match cell_get_or_init(cell, detect_hypervisor(res)) {
        HypervisorBackend::Kvm => {
            return &KvmHypervisor;
        },
        HypervisorBackend::Gunyah => {
            return &GunyahHypervisor;
        },
    };
}

/// The selection is stable: the identities of any two interfaces that one
/// cell gave out, read or written, are the same, and they name the one
/// back-end that the cell holds.
pub proof fn lemma_selection_is_stable(cell: &OnceBox<HypervisorBackend>, first: Uid, second: Uid)
    requires
        first == committed(*cell).spec_uuid(),
        second == committed(*cell).spec_uuid(),
    ensures
        first == second,
        HypervisorBackend::of_uuid(first) == Ok::<HypervisorBackend, Error>(committed(*cell)),
{
}

} // verus!
