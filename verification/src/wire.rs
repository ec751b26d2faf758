//! The pod wire format: type tags, padding arithmetic, headers, and the shape
//! of a complete pod.
//!
//! Everything here is pure: the spec functions say what byte sequences the
//! serializer is obliged to produce, and the lemmas give the alignment and
//! length facts that the sub-protocols rely on.

use vstd::bytes::*;
use vstd::prelude::*;

verus! {

// Type tags of the SPA type registry. The registry itself is external to this
// crate; the serializer only needs the tags of the pod kinds it can emit.
pub const SPA_TYPE_BOOL: u32 = 2;

pub const SPA_TYPE_ID: u32 = 3;

pub const SPA_TYPE_INT: u32 = 4;

pub const SPA_TYPE_LONG: u32 = 5;

pub const SPA_TYPE_STRING: u32 = 8;

pub const SPA_TYPE_BYTES: u32 = 9;

pub const SPA_TYPE_ARRAY: u32 = 13;

pub const SPA_TYPE_STRUCT: u32 = 14;

/// Number of zero bytes that round a body of `n` bytes up to the next
/// multiple of 8: zero when already aligned, else the complement up to 8.
pub open spec fn pad_len(n: int) -> int {
    (8 - n % 8) % 8
}

/// A run of `n` zero bytes.
pub open spec fn zeros(n: int) -> Seq<u8> {
    Seq::new(n as nat, |i: int| 0u8)
}

/// The 8-byte pod header: body size, then type tag, as native-order
/// (little-endian) 32-bit integers.
pub open spec fn header_bytes(size: u32, ty: u32) -> Seq<u8> {
    spec_u32_to_le_bytes(size) + spec_u32_to_le_bytes(ty)
}

/// A complete pod for a body: header (with the body's exact size), the body,
/// and padding to the next 8-byte boundary.
pub open spec fn pod_bytes(ty: u32, body: Seq<u8>) -> Seq<u8>
    recommends
        body.len() <= u32::MAX,
{
    header_bytes(body.len() as u32, ty) + body + zeros(pad_len(body.len() as int))
}

/// A byte range is a structurally valid pod: some header, body and padding
/// laid out exactly as `pod_bytes` demands, with the size field in range.
pub open spec fn is_pod(s: Seq<u8>) -> bool {
    exists|ty: u32, body: Seq<u8>| #[trigger] pod_bytes(ty, body) == s && body.len() <= u32::MAX
}

/// Padding is under 8 bytes and completes `n` to a multiple of 8.
pub proof fn lemma_pad_len(n: int)
    requires
        n >= 0,
    ensures
        0 <= pad_len(n) < 8,
        (n + pad_len(n)) % 8 == 0,
        n % 8 == 0 ==> pad_len(n) == 0,
{
}

/// Prepending one 8-byte header leaves the needed padding unchanged.
pub proof fn lemma_pad_len_plus_8(n: int)
    requires
        n >= 0,
    ensures
        pad_len(8 + n) == pad_len(n),
{
}

/// A header is always exactly 8 bytes.
pub proof fn lemma_header_bytes_len(size: u32, ty: u32)
    ensures
        header_bytes(size, ty).len() == 8,
{
    lemma_auto_spec_u32_to_from_le_bytes();
}

/// The length of a complete pod: header, body, padding — a multiple of 8.
pub proof fn lemma_pod_bytes_len(ty: u32, body: Seq<u8>)
    requires
        body.len() <= u32::MAX,
    ensures
        pod_bytes(ty, body).len() == 8 + body.len() + pad_len(body.len() as int),
        pod_bytes(ty, body).len() % 8 == 0,
        pod_bytes(ty, body).len() >= 8,
{
    lemma_header_bytes_len(body.len() as u32, ty);
    lemma_pad_len(body.len() as int);
}

/// Anything laid out by `pod_bytes` is a structurally valid pod.
pub proof fn lemma_pod_bytes_is_pod(ty: u32, body: Seq<u8>)
    requires
        body.len() <= u32::MAX,
    ensures
        is_pod(pod_bytes(ty, body)),
{
    assert(pod_bytes(ty, body) == pod_bytes(ty, body) && body.len() <= u32::MAX);
}

/// Every structurally valid pod is 8-byte aligned and at least a header long.
pub proof fn lemma_is_pod_aligned(s: Seq<u8>)
    requires
        is_pod(s),
    ensures
        s.len() % 8 == 0,
        s.len() >= 8,
{
    let (ty, body) = choose|ty: u32, body: Seq<u8>|
        #[trigger] pod_bytes(ty, body) == s && body.len() <= u32::MAX;
    lemma_pod_bytes_len(ty, body);
}

} // verus!
