//! Fixed-size pod values.
//!
//! A fixed-size value is one whose pod body length and type tag are known
//! without inspecting its content: booleans, the integer kinds, and similar
//! constant-size kinds. They all serialize through one generic path, and they
//! are the only values an array pod may hold.

use crate::wire::{SPA_TYPE_BOOL, SPA_TYPE_ID, SPA_TYPE_INT, SPA_TYPE_LONG};
use vstd::bytes::*;
use vstd::prelude::*;

verus! {

/// A value kind with a canonical `(type tag, body size)` pair and a raw body
/// encoding. Implementors serialize as a pod of exactly `wire_size` body
/// bytes under the `wire_type` tag.
pub trait FixedSizedPod {
    /// The canonical type tag of this kind.
    spec fn wire_type() -> u32;

    /// The fixed body size in bytes of this kind.
    spec fn wire_size() -> u32;

    /// The exact body bytes of this value.
    spec fn body_spec(&self) -> Seq<u8>;

    /// The body really is `wire_size` bytes long.
    proof fn lemma_wire(&self)
        ensures
            self.body_spec().len() == Self::wire_size(),
    ;

    /// The canonical type tag, at run time.
    fn exec_wire_type() -> (r: u32)
        ensures
            r == Self::wire_type(),
    ;

    /// The fixed body size, at run time.
    fn exec_wire_size() -> (r: u32)
        ensures
            r == Self::wire_size(),
    ;

    /// Produce the body bytes of this value.
    fn serialize_body(&self) -> (r: Vec<u8>)
        ensures
            r@ == self.body_spec(),
    ;
}

/// The concatenated body bytes of a sequence of fixed-size values, in order.
pub open spec fn bodies_of<P: FixedSizedPod>(s: Seq<P>) -> Seq<u8>
    decreases s.len(),
{
    if s.len() == 0 {
        Seq::empty()
    } else {
        bodies_of(s.drop_last()) + s.last().body_spec()
    }
}

/// A sequence of `n` fixed-size values has `n * wire_size` body bytes.
pub proof fn lemma_bodies_of_len<P: FixedSizedPod>(s: Seq<P>)
    ensures
        bodies_of(s).len() == s.len() * P::wire_size(),
    decreases s.len(),
{
    if s.len() == 0 {
    } else {
        lemma_bodies_of_len(s.drop_last());
        s.last().lemma_wire();
        assert(s.len() * P::wire_size() == (s.len() - 1) * P::wire_size() + P::wire_size())
            by (nonlinear_arith);
    }
}

// Serialize as a `Bool` pod: a 4-byte integer, 1 for true and 0 for false.
impl FixedSizedPod for bool {
    open spec fn wire_type() -> u32 {
        SPA_TYPE_BOOL
    }

    open spec fn wire_size() -> u32 {
        4
    }

    open spec fn body_spec(&self) -> Seq<u8> {
        spec_u32_to_le_bytes(if *self { 1u32 } else { 0u32 })
    }

    proof fn lemma_wire(&self) {
        lemma_auto_spec_u32_to_from_le_bytes();
    }

    fn exec_wire_type() -> u32 {
        SPA_TYPE_BOOL
    }

    fn exec_wire_size() -> u32 {
        4
    }

    fn serialize_body(&self) -> Vec<u8> {
        u32_to_le_bytes(if *self { 1u32 } else { 0u32 })
    }
}

// Serialize as an `Int` pod: a 4-byte signed integer.
impl FixedSizedPod for i32 {
    open spec fn wire_type() -> u32 {
        SPA_TYPE_INT
    }

    open spec fn wire_size() -> u32 {
        4
    }

    open spec fn body_spec(&self) -> Seq<u8> {
        spec_u32_to_le_bytes(*self as u32)
    }

    proof fn lemma_wire(&self) {
        lemma_auto_spec_u32_to_from_le_bytes();
    }

    fn exec_wire_type() -> u32 {
        SPA_TYPE_INT
    }

    fn exec_wire_size() -> u32 {
        4
    }

    fn serialize_body(&self) -> Vec<u8> {
        u32_to_le_bytes(*self as u32)
    }
}

// Serialize as an `Id` pod: a 4-byte registry identifier.
impl FixedSizedPod for u32 {
    open spec fn wire_type() -> u32 {
        SPA_TYPE_ID
    }

    open spec fn wire_size() -> u32 {
        4
    }

    open spec fn body_spec(&self) -> Seq<u8> {
        spec_u32_to_le_bytes(*self)
    }

    proof fn lemma_wire(&self) {
        lemma_auto_spec_u32_to_from_le_bytes();
    }

    fn exec_wire_type() -> u32 {
        SPA_TYPE_ID
    }

    fn exec_wire_size() -> u32 {
        4
    }

    fn serialize_body(&self) -> Vec<u8> {
        u32_to_le_bytes(*self)
    }
}

// Serialize as a `Long` pod: an 8-byte signed integer.
impl FixedSizedPod for i64 {
    open spec fn wire_type() -> u32 {
        SPA_TYPE_LONG
    }

    open spec fn wire_size() -> u32 {
        8
    }

    open spec fn body_spec(&self) -> Seq<u8> {
        spec_u64_to_le_bytes(*self as u64)
    }

    proof fn lemma_wire(&self) {
        lemma_auto_spec_u64_to_from_le_bytes();
    }

    fn exec_wire_type() -> u32 {
        SPA_TYPE_LONG
    }

    fn exec_wire_size() -> u32 {
        8
    }

    fn serialize_body(&self) -> Vec<u8> {
        u64_to_le_bytes(*self as u64)
    }
}

} // verus!
