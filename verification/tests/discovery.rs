//! Decoding of the "call UID" reply and selection of the back-end.

use hyp::error::Error;
use hyp::hypervisor::gunyah::GunyahHypervisor;
use hyp::hypervisor::kvm::KvmHypervisor;
use hyp::hypervisor::{
    decode_vendor_hyp_call_uid, detect_hypervisor, vendor_hyp_call_uid_args, HypervisorBackend,
    ARM_SMCCC_VENDOR_HYP_CALL_UID_FUNC_ID,
};
use hyp::uid::Uid;
use uuid::Uuid;

const KVM_WORDS: [u64; 4] = [0xb66fb428, 0xe911c52e, 0x564bcaa9, 0x743a004d];
const GUNYAH_WORDS: [u64; 4] = [0xcd8fd5c1, 0xdb5f53a4, 0x36ce6592, 0x145f3d67];

fn response(words: [u64; 4]) -> [u64; 18] {
    let mut res = [0u64; 18];
    res[..4].copy_from_slice(&words);
    res
}

/// The registers that publish `uuid`: four bytes per word, in order, the
/// first of each four in the lowest bits.
fn registers_of(uuid: &Uuid) -> [u64; 18] {
    let bytes = uuid.as_bytes();
    let mut res = [0u64; 18];
    for (i, chunk) in bytes.chunks(4).enumerate() {
        res[i] = u64::from(u32::from_le_bytes([chunk[0], chunk[1], chunk[2], chunk[3]]));
    }
    res
}

#[test]
fn function_id_is_the_vendor_hyp_call_uid() {
    assert_eq!(ARM_SMCCC_VENDOR_HYP_CALL_UID_FUNC_ID, 0x8600ff01);
}

#[test]
fn query_arguments_are_seventeen_zeros() {
    assert_eq!(vendor_hyp_call_uid_args(), [0u64; 17]);
}

#[test]
fn published_identities_match_their_text() {
    let kvm = Uuid::parse_str("28b46fb6-2ec5-11e9-a9ca-4b564d003a74").unwrap();
    let gunyah = Uuid::parse_str("c1d58fcd-a453-5fdb-9265-ce36673d5f14").unwrap();
    assert_eq!(KvmHypervisor::UUID, kvm.as_u128());
    assert_eq!(GunyahHypervisor::UUID, gunyah.as_u128());
    assert_ne!(KvmHypervisor::UUID, GunyahHypervisor::UUID);
}

#[test]
fn uid_keeps_its_integer() {
    let uid = Uid::from_u128(0x28b46fb6_2ec511e9_a9ca4b56_4d003a74);
    assert_eq!(uid.as_u128(), 0x28b46fb6_2ec511e9_a9ca4b56_4d003a74);
    assert_eq!(uid, Uid { value: 0x28b46fb6_2ec511e9_a9ca4b56_4d003a74 });
}

#[test]
fn from_u128_le_reverses_the_bytes() {
    let uid = Uid::from_u128_le(0xa1a2a3a4_b1b2c1c2_d1d2d3d4_d5d6d7d8);
    assert_eq!(uid.as_u128(), 0xd8d7d6d5_d4d3d2d1_c2c1b2b1_a4a3a2a1);
    let text = Uuid::parse_str("d8d7d6d5-d4d3-d2d1-c2c1-b2b1a4a3a2a1").unwrap();
    assert_eq!(uid.as_u128(), text.as_u128());
}

#[test]
fn from_u128_le_of_small_values() {
    assert_eq!(Uid::from_u128_le(0).as_u128(), 0);
    assert_eq!(Uid::from_u128_le(1).as_u128(), 1u128 << 120);
    assert_eq!(Uid::from_u128_le(u128::MAX).as_u128(), u128::MAX);
    assert_eq!(Uid::from_u128_le(0xff00).as_u128(), 0xffu128 << 112);
}

#[test]
fn decode_orders_bytes_word_by_word() {
    let res = response([0x03020100, 0x07060504, 0x0b0a0908, 0x0f0e0d0c]);
    let uid = decode_vendor_hyp_call_uid(res);
    assert_eq!(uid.as_u128(), 0x00010203_04050607_08090a0b_0c0d0e0f);
    let bytes = Uuid::from_u128(uid.as_u128()).into_bytes();
    assert_eq!(bytes, [0, 1, 2, 3, 4, 5, 6, 7, 8, 9, 10, 11, 12, 13, 14, 15]);
}

#[test]
fn decode_matches_bytes_written_in_register_order() {
    let words: [u32; 4] = [0xdeadbeef, 0x01234567, 0x89abcdef, 0x0badf00d];
    let mut bytes = [0u8; 16];
    for (i, w) in words.iter().enumerate() {
        bytes[4 * i..4 * i + 4].copy_from_slice(&w.to_le_bytes());
    }
    let expected = Uuid::from_bytes(bytes);
    let res = response([
        u64::from(words[0]),
        u64::from(words[1]),
        u64::from(words[2]),
        u64::from(words[3]),
    ]);
    assert_eq!(decode_vendor_hyp_call_uid(res).as_u128(), expected.as_u128());
    assert_eq!(
        decode_vendor_hyp_call_uid(res).as_u128(),
        0xefbeadde_67452301_efcdab89_0df0ad0b
    );
}

#[test]
fn decode_reads_the_low_half_of_each_register() {
    let mut res = response(KVM_WORDS);
    let plain = decode_vendor_hyp_call_uid(res);
    for word in res.iter_mut().take(4) {
        *word |= 0xffff_ffff_0000_0000;
    }
    assert_eq!(decode_vendor_hyp_call_uid(res), plain);
    assert_eq!(plain.as_u128(), KvmHypervisor::UUID);
}

#[test]
fn decode_ignores_the_other_registers() {
    let mut res = response(GUNYAH_WORDS);
    for word in res.iter_mut().skip(4) {
        *word = u64::MAX;
    }
    assert_eq!(decode_vendor_hyp_call_uid(res).as_u128(), GunyahHypervisor::UUID);
}

#[test]
fn decode_of_all_zero_and_all_one_registers() {
    assert_eq!(decode_vendor_hyp_call_uid([0u64; 18]).as_u128(), 0);
    assert_eq!(decode_vendor_hyp_call_uid([u64::MAX; 18]).as_u128(), u128::MAX);
}

#[test]
fn decode_inverts_the_register_layout() {
    let texts = [
        "28b46fb6-2ec5-11e9-a9ca-4b564d003a74",
        "c1d58fcd-a453-5fdb-9265-ce36673d5f14",
        "00112233-4455-6677-8899-aabbccddeeff",
        "ffffffff-0000-ffff-0000-ffffffff0000",
    ];
    for text in texts {
        let uuid = Uuid::parse_str(text).unwrap();
        let uid = decode_vendor_hyp_call_uid(registers_of(&uuid));
        assert_eq!(uid.as_u128(), uuid.as_u128());
    }
}

#[test]
fn kvm_registers_are_the_published_ones() {
    let kvm = Uuid::from_u128(KvmHypervisor::UUID);
    assert_eq!(registers_of(&kvm), response(KVM_WORDS));
    let gunyah = Uuid::from_u128(GunyahHypervisor::UUID);
    assert_eq!(registers_of(&gunyah), response(GUNYAH_WORDS));
}

#[test]
fn try_from_selects_kvm() {
    let uid = Uid::from_u128(KvmHypervisor::UUID);
    assert_eq!(HypervisorBackend::try_from(uid), Ok(HypervisorBackend::Kvm));
}

#[test]
fn try_from_selects_gunyah() {
    let uid = Uid::from_u128(GunyahHypervisor::UUID);
    assert_eq!(HypervisorBackend::try_from(uid), Ok(HypervisorBackend::Gunyah));
    let via_into: Result<HypervisorBackend, Error> = uid.try_into();
    assert_eq!(via_into, Ok(HypervisorBackend::Gunyah));
}

#[test]
fn try_from_refuses_other_identities() {
    let others = [
        0u128,
        u128::MAX,
        KvmHypervisor::UUID ^ 1,
        KvmHypervisor::UUID ^ (1 << 127),
        GunyahHypervisor::UUID + 1,
        KvmHypervisor::UUID.swap_bytes(),
        GunyahHypervisor::UUID.swap_bytes(),
    ];
    for value in others {
        let uid = Uid::from_u128(value);
        assert_eq!(
            HypervisorBackend::try_from(uid),
            Err(Error::UnsupportedHypervisorUuid(uid))
        );
    }
}

#[test]
fn unsupported_error_carries_the_identity() {
    let uid = Uid::from_u128(0x00112233_44556677_8899aabb_ccddeeff);
    match HypervisorBackend::try_from(uid) {
        Err(Error::UnsupportedHypervisorUuid(carried)) => {
            assert_eq!(carried.as_u128(), 0x00112233_44556677_8899aabb_ccddeeff)
        }
        Ok(_) => panic!("an unknown identity selected a back-end"),
    }
}

#[test]
fn detect_kvm_from_registers() {
    assert_eq!(detect_hypervisor(response(KVM_WORDS)), HypervisorBackend::Kvm);
}

#[test]
fn detect_gunyah_from_registers() {
    assert_eq!(detect_hypervisor(response(GUNYAH_WORDS)), HypervisorBackend::Gunyah);
}

#[test]
fn detect_reads_the_low_half_of_each_register() {
    let mut res = response(GUNYAH_WORDS);
    for word in res.iter_mut().take(4) {
        *word |= 0xffff_ffff_0000_0000;
    }
    for word in res.iter_mut().skip(4) {
        *word = u64::MAX;
    }
    assert_eq!(detect_hypervisor(res), HypervisorBackend::Gunyah);
}

#[test]
fn detect_agrees_with_resolving_the_decoded_identity() {
    for words in [KVM_WORDS, GUNYAH_WORDS] {
        let res = response(words);
        assert_eq!(
            HypervisorBackend::try_from(decode_vendor_hyp_call_uid(res)),
            Ok(detect_hypervisor(res))
        );
    }
}

#[test]
fn unknown_registers_resolve_to_the_error() {
    let res = response([0x03020100, 0x07060504, 0x0b0a0908, 0x0f0e0d0c]);
    assert_eq!(
        HypervisorBackend::try_from(decode_vendor_hyp_call_uid(res)),
        Err(Error::UnsupportedHypervisorUuid(Uid::from_u128(
            0x00010203_04050607_08090a0b_0c0d0e0f
        )))
    );
}

#[test]
fn all_zero_registers_resolve_to_the_error() {
    assert_eq!(
        HypervisorBackend::try_from(decode_vendor_hyp_call_uid([0u64; 18])),
        Err(Error::UnsupportedHypervisorUuid(Uid::from_u128(0)))
    );
}

#[test]
fn identity_in_text_order_resolves_to_the_error() {
    // The words of KVM's identity as its text reads, most significant first:
    // the byte order that the registers do not use.
    let res = response([0x4d003a74, 0xa9ca4b56, 0x2ec511e9, 0x28b46fb6]);
    assert_eq!(
        HypervisorBackend::try_from(decode_vendor_hyp_call_uid(res)),
        Err(Error::UnsupportedHypervisorUuid(Uid::from_u128(
            KvmHypervisor::UUID.swap_bytes()
        )))
    );
}

#[test]
fn backend_interface_publishes_its_identity() {
    assert_eq!(
        HypervisorBackend::Kvm.get_hypervisor().uuid(),
        Uid::from_u128(KvmHypervisor::UUID)
    );
    assert_eq!(
        HypervisorBackend::Gunyah.get_hypervisor().uuid(),
        Uid::from_u128(GunyahHypervisor::UUID)
    );
}

#[test]
fn backend_round_trips_through_its_identity() {
    for backend in [HypervisorBackend::Kvm, HypervisorBackend::Gunyah] {
        let uid = backend.get_hypervisor().uuid();
        assert_eq!(HypervisorBackend::try_from(uid), Ok(backend));
    }
}
