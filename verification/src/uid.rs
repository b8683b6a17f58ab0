//! The 128-bit identity that a hypervisor publishes, and its byte order.

use vstd::prelude::*;

verus! {

/// Byte `k` of `v`, counting from the least significant byte.
pub open spec fn byte(v: u128, k: u128) -> u8 {
    ((v >> (8 * k) as u128) & 0xff) as u8
}

/// The sixteen bytes of `v`, least significant first.
pub open spec fn le_bytes(v: u128) -> Seq<u8> {
    Seq::new(16, |i: int| byte(v, i as u128))
}

/// The sixteen bytes of `v`, most significant first.
pub open spec fn be_bytes(v: u128) -> Seq<u8> {
    Seq::new(16, |i: int| byte(v, (15 - i) as u128))
}

/// `v` with the order of its sixteen bytes reversed.
pub open spec fn swap_bytes(v: u128) -> u128 {
    (v & 0xff) << 120
        | ((v >> 8) & 0xff) << 112
        | ((v >> 16) & 0xff) << 104
        | ((v >> 24) & 0xff) << 96
        | ((v >> 32) & 0xff) << 88
        | ((v >> 40) & 0xff) << 80
        | ((v >> 48) & 0xff) << 72
        | ((v >> 56) & 0xff) << 64
        | ((v >> 64) & 0xff) << 56
        | ((v >> 72) & 0xff) << 48
        | ((v >> 80) & 0xff) << 40
        | ((v >> 88) & 0xff) << 32
        | ((v >> 96) & 0xff) << 24
        | ((v >> 104) & 0xff) << 16
        | ((v >> 112) & 0xff) << 8
        | ((v >> 120) & 0xff)
}

/// A 128-bit universally unique identifier.
///
/// `value` holds the identifier as one integer whose most significant byte
/// is the first byte of the textual form: `28b46fb6-2ec5-11e9-a9ca-4b564d003a74`
/// is `0x28b46fb6_2ec511e9_a9ca4b56_4d003a74`.
#[derive(Clone, Copy, Debug, PartialEq, Eq, Structural)]
pub struct Uid {
    pub value: u128,
}

impl View for Uid {
    type V = Seq<u8>;

    /// The identifier's sixteen bytes in their canonical order.
    open spec fn view(&self) -> Seq<u8> {
        be_bytes(self.value)
    }
}

impl Uid {
    /// The identifier whose integer form is `v`.
    pub fn from_u128(v: u128) -> (uid: Uid)
        ensures
            uid.value == v,
    {
        Uid { value: v }
    }

    /// The identifier whose canonical bytes are the bytes of `v`, least
    /// significant first.
    pub fn from_u128_le(v: u128) -> (uid: Uid)
        ensures
            uid.value == swap_bytes(v),
            uid@ == le_bytes(v),
    {
        proof {
            lemma_swap_bytes(v);
        }
        Uid { value: uuid_from_u128_le(v) }
    }

    /// The identifier as one integer, first canonical byte most significant.
    pub fn as_u128(&self) -> (v: u128)
        ensures
            v == self.value,
    {
        self.value
    }
}

/// Trusted: `uuid::Uuid::from_u128_le`, read back with `uuid::Uuid::as_u128`.
///
/// `from_u128_le` stores the little-endian bytes of `v` as the identifier's
/// bytes, and `as_u128` packs those bytes into an integer with the first byte
/// most significant. The contract claims that together they reverse the
/// sixteen bytes of `v`.
#[verifier::external_body]
fn uuid_from_u128_le(v: u128) -> (r: u128)
    ensures
        r == swap_bytes(v),
{
    uuid::Uuid::from_u128_le(v).as_u128()
}

/// Reversing the bytes of `v` turns its little-endian bytes into the
/// big-endian bytes of the result.
pub proof fn lemma_swap_bytes(v: u128)
    ensures
        be_bytes(swap_bytes(v)) == le_bytes(v),
{
    lemma_swap_bytes_each(v);
    assert(be_bytes(swap_bytes(v)) =~= le_bytes(v));
}

proof fn lemma_swap_bytes_each(v: u128)
    by (bit_vector)
    ensures
        byte(swap_bytes(v), 15) == byte(v, 0),
        byte(swap_bytes(v), 14) == byte(v, 1),
        byte(swap_bytes(v), 13) == byte(v, 2),
        byte(swap_bytes(v), 12) == byte(v, 3),
        byte(swap_bytes(v), 11) == byte(v, 4),
        byte(swap_bytes(v), 10) == byte(v, 5),
        byte(swap_bytes(v), 9) == byte(v, 6),
        byte(swap_bytes(v), 8) == byte(v, 7),
        byte(swap_bytes(v), 7) == byte(v, 8),
        byte(swap_bytes(v), 6) == byte(v, 9),
        byte(swap_bytes(v), 5) == byte(v, 10),
        byte(swap_bytes(v), 4) == byte(v, 11),
        byte(swap_bytes(v), 3) == byte(v, 12),
        byte(swap_bytes(v), 2) == byte(v, 13),
        byte(swap_bytes(v), 1) == byte(v, 14),
        byte(swap_bytes(v), 0) == byte(v, 15),
{
}

/// An identifier is determined by its canonical bytes.
pub proof fn lemma_view_injective(a: Uid, b: Uid)
    requires
        a@ == b@,
    ensures
        a == b,
{
    lemma_same_byte(a, b, 0);
    lemma_same_byte(a, b, 1);
    lemma_same_byte(a, b, 2);
    lemma_same_byte(a, b, 3);
    lemma_same_byte(a, b, 4);
    lemma_same_byte(a, b, 5);
    lemma_same_byte(a, b, 6);
    lemma_same_byte(a, b, 7);
    lemma_same_byte(a, b, 8);
    lemma_same_byte(a, b, 9);
    lemma_same_byte(a, b, 10);
    lemma_same_byte(a, b, 11);
    lemma_same_byte(a, b, 12);
    lemma_same_byte(a, b, 13);
    lemma_same_byte(a, b, 14);
    lemma_same_byte(a, b, 15);
    lemma_bytes_determine(a.value, b.value);
}

proof fn lemma_same_byte(a: Uid, b: Uid, k: u128)
    requires
        a@ == b@,
        k < 16,
    ensures
        byte(a.value, k) == byte(b.value, k),
{
    assert(a@[15 - k] == byte(a.value, k));
    assert(b@[15 - k] == byte(b.value, k));
}

proof fn lemma_bytes_determine(x: u128, y: u128)
    by (bit_vector)
    requires
        byte(x, 0) == byte(y, 0),
        byte(x, 1) == byte(y, 1),
        byte(x, 2) == byte(y, 2),
        byte(x, 3) == byte(y, 3),
        byte(x, 4) == byte(y, 4),
        byte(x, 5) == byte(y, 5),
        byte(x, 6) == byte(y, 6),
        byte(x, 7) == byte(y, 7),
        byte(x, 8) == byte(y, 8),
        byte(x, 9) == byte(y, 9),
        byte(x, 10) == byte(y, 10),
        byte(x, 11) == byte(y, 11),
        byte(x, 12) == byte(y, 12),
        byte(x, 13) == byte(y, 13),
        byte(x, 14) == byte(y, 14),
        byte(x, 15) == byte(y, 15),
    ensures
        x == y,
{
}

} // verus!
