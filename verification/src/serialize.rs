//! Serializing values into raw pods.
//!
//! A value is serialized by handing it, with an exclusively owned [`Sink`],
//! to [`PodSerializer::serialize`]. Simple kinds (fixed-size values, strings,
//! byte sequences) are written in one composed step: header, body, padding.
//! Arrays and structs are driven by the stateful [`ArrayPodSerializer`] and
//! [`StructPodSerializer`], which take the serializer from their parent and
//! hand it back when their terminal call completes.
//!
//! Caller contract breaches — an element count that does not match the
//! declared one, a string holding a NUL byte, a size that does not fit the
//! 32-bit header field — are protocol violations, reported as a [`PodError`]
//! distinct from anything a well-behaved caller can see.

use crate::fixed::{bodies_of, lemma_bodies_of_len, FixedSizedPod};
use crate::sink::{lemma_splice_at_end, splice, Sink};
use crate::wire::{
    header_bytes, is_pod, lemma_header_bytes_len, lemma_pad_len, lemma_pad_len_plus_8,
    lemma_pod_bytes_is_pod, lemma_pod_bytes_len, pad_len, pod_bytes, zeros, SPA_TYPE_ARRAY,
    SPA_TYPE_BYTES, SPA_TYPE_STRING, SPA_TYPE_STRUCT,
};
use core::marker::PhantomData;
use vstd::bytes::*;
use vstd::prelude::*;
use vstd::string::StringSliceAdditionalSpecFns;

verus! {

/// A caller contract breach detected during serialization.
#[derive(Clone, Copy, Debug, PartialEq, Eq)]
pub enum PodError {
    /// A string value holds an embedded NUL byte.
    EmbeddedNul,
    /// `serialize_element` was called more times than the declared count.
    TooManyElements,
    /// `end` was reached with fewer elements written than declared.
    CountMismatch,
    /// A computed body size exceeds the 32-bit header field.
    SizeOverflow,
}

/// Serializes values into the raw pod format, writing them into the [`Sink`]
/// it exclusively owns.
#[derive(Debug)]
pub struct PodSerializer {
    /// The owned destination of every write.
    pub sink: Sink,
}

/// Returned on serialization success: the serializer travels back to the
/// caller together with the number of bytes the operation emitted.
#[derive(Debug)]
pub struct SerializeSuccess {
    /// The serializer, returned to whoever handed it in.
    pub serializer: PodSerializer,
    /// The number of bytes written by the operation that returned this.
    pub len: u64,
}

/// Returned on a protocol violation: the serializer travels back untouched —
/// a failing operation emits nothing.
#[derive(Debug)]
pub struct SerializeFailure {
    /// The serializer, with the sink exactly as it was handed in.
    pub serializer: PodSerializer,
    /// Which contract was breached.
    pub error: PodError,
}

impl PodSerializer {
    /// The bytes written so far.
    pub open spec fn data(&self) -> Seq<u8> {
        self.sink.data()
    }

    /// The sink is consistent and positioned at its end, where pods append.
    pub open spec fn wf(&self) -> bool {
        self.sink.wf() && self.sink.at_end()
    }
}

/// What every successful serialization guarantees: one structurally valid
/// pod, `s.len` bytes long and 8-byte aligned, appended to the previous data.
pub open spec fn serialize_ok(pre: PodSerializer, s: SerializeSuccess) -> bool {
    &&& s.serializer.wf()
    &&& s.serializer.data().len() == pre.data().len() + s.len
    &&& s.serializer.data().subrange(0, pre.data().len() as int) == pre.data()
    &&& is_pod(
        s.serializer.data().subrange(
            pre.data().len() as int,
            s.serializer.data().len() as int,
        ),
    )
    &&& 8 <= s.len
    &&& s.len % 8 == 0
}

/// What every failed serialization guarantees: nothing was emitted.
pub open spec fn serialize_err(pre: PodSerializer, f: SerializeFailure) -> bool {
    &&& f.serializer.wf()
    &&& f.serializer.data() == pre.data()
}

/// A successful write of exactly one complete pod meets `serialize_ok`.
proof fn lemma_ok_from_pod(pre: PodSerializer, s: SerializeSuccess, ty: u32, body: Seq<u8>)
    requires
        body.len() <= u32::MAX,
        s.serializer.wf(),
        s.serializer.data() == pre.data() + pod_bytes(ty, body),
        s.len == 8 + body.len() + pad_len(body.len() as int),
    ensures
        serialize_ok(pre, s),
{
    lemma_pod_bytes_len(ty, body);
    lemma_pod_bytes_is_pod(ty, body);
    assert(s.serializer.data().subrange(0, pre.data().len() as int) =~= pre.data());
    assert(s.serializer.data().subrange(
        pre.data().len() as int,
        s.serializer.data().len() as int,
    ) =~= pod_bytes(ty, body));
    lemma_pad_len(body.len() as int);
}

/// Write one 8-byte header at the sink's current position.
fn write_header(sink: &mut Sink, size: u32, ty: u32)
    requires
        old(sink).wf(),
    ensures
        final(sink).wf(),
        final(sink).data() == splice(old(sink).data(), old(sink).pos_spec(), header_bytes(size, ty)),
        final(sink).pos_spec() == old(sink).pos_spec() + 8,
{
    let mut h = u32_to_le_bytes(size);
    let mut t = u32_to_le_bytes(ty);
    h.append(&mut t);
    proof {
        lemma_header_bytes_len(size, ty);
    }
    sink.write(h.as_slice());
}

/// Write `n` zero bytes (the pod padding) at the sink's current position.
fn write_zeros(sink: &mut Sink, n: usize)
    requires
        old(sink).wf(),
    ensures
        final(sink).wf(),
        final(sink).data() == splice(old(sink).data(), old(sink).pos_spec(), zeros(n as int)),
        final(sink).pos_spec() == old(sink).pos_spec() + n,
{
    let mut z: Vec<u8> = Vec::new();
    let mut i: usize = 0;
    while i < n
        invariant
            i <= n,
            z@ =~= zeros(i as int),
        decreases n - i,
    {
        z.push(0u8);
        proof {
            assert(z@ =~= zeros(i + 1));
        }
        i = i + 1;
    }
    sink.write(z.as_slice());
}

/// The padding needed after a body of `n` bytes, at run time.
fn pad_len_exec(n: usize) -> (r: usize)
    ensures
        r == pad_len(n as int),
        r < 8,
{
    let m = n % 8;
    if m == 0 {
        0
    } else {
        8 - m
    }
}

/// Whether the byte sequence holds a NUL byte anywhere.
fn contains_nul(b: &[u8]) -> (r: bool)
    ensures
        r == b@.contains(0u8),
{
    let n = b.len();
    let mut i: usize = 0;
    while i < n
        invariant
            i <= n,
            n == b@.len(),
            forall|j: int| 0 <= j < i ==> b@[j] != 0u8,
        decreases n - i,
    {
        if b[i] == 0u8 {
            assert(b@[i as int] == 0u8);
            return true;
        }
        i = i + 1;
    }
    assert(!b@.contains(0u8));
    false
}

impl PodSerializer {
    /// Serialize `pod` into the raw pod format, writing it into `out`.
    ///
    /// Returns the sink and the number of bytes written. On success exactly
    /// one structurally valid, 8-byte-aligned pod has been appended to the
    /// sink; on a protocol violation the sink comes back unchanged, with the
    /// violation beside it.
    pub fn serialize<P: PodSerialize + ?Sized>(out: Sink, pod: &P) -> (r: Result<
        (Sink, u64),
        (Sink, PodError),
    >)
        requires
            out.wf(),
            out.at_end(),
        ensures
            r is Ok <==> pod.pod_ok(),
            (match r {
                Ok((s, len)) => {
                    &&& s.wf()
                    &&& s.at_end()
                    // The appended bytes are a pure function of the value.
                    &&& s.data() == out.data() + pod.pod_spec()
                    &&& len == pod.pod_spec().len()
                    &&& s.data().len() == out.data().len() + len
                    &&& is_pod(s.data().subrange(out.data().len() as int, s.data().len() as int))
                    &&& 8 <= len
                    &&& len % 8 == 0
                },
                Err((s, _)) => {
                    &&& s.wf()
                    &&& s.at_end()
                    &&& s.data() == out.data()
                },
            }),
    {
        let serializer = PodSerializer { sink: out };
        match pod.serialize(serializer) {
            Ok(success) => Ok((success.serializer.sink, success.len)),
            Err(failure) => Err((failure.serializer.sink, failure.error)),
        }
    }

    /// Write out a full pod — header, body, padding — in one composed step.
    fn write_pod(self, ty: u32, body: &[u8]) -> (s: SerializeSuccess)
        requires
            self.wf(),
            body@.len() <= u32::MAX,
        ensures
            s.serializer.wf(),
            s.serializer.data() == self.data() + pod_bytes(ty, body@),
            s.len == 8 + body@.len() + pad_len(body@.len() as int),
    {
        let mut sink = self.sink;
        let size = body.len() as u32;
        write_header(&mut sink, size, ty);
        proof {
            lemma_splice_at_end(self.sink.data(), header_bytes(size, ty));
            lemma_header_bytes_len(size, ty);
        }
        sink.write(body);
        proof {
            lemma_splice_at_end(self.sink.data() + header_bytes(size, ty), body@);
        }
        let pad = pad_len_exec(body.len());
        write_zeros(&mut sink, pad);
        proof {
            lemma_splice_at_end(
                self.sink.data() + header_bytes(size, ty) + body@,
                zeros(pad as int),
            );
            assert(self.sink.data() + header_bytes(size, ty) + body@ + zeros(pad as int)
                =~= self.data() + pod_bytes(ty, body@));
        }
        let len: u64 = 8u64 + body.len() as u64 + pad as u64;
        SerializeSuccess { serializer: PodSerializer { sink }, len }
    }

    /// Serialize any fixed size pod under its canonical tag and size.
    ///
    /// This cannot breach any caller contract, so it always succeeds.
    pub fn serialized_fixed_sized_pod<P: FixedSizedPod>(self, pod: &P) -> (r: Result<
        SerializeSuccess,
        SerializeFailure,
    >)
        requires
            self.wf(),
        ensures
            (match r {
                Ok(s) => {
                    &&& s.serializer.wf()
                    &&& s.serializer.data() == self.data() + pod_bytes(
                        P::wire_type(),
                        pod.body_spec(),
                    )
                    &&& s.len == 8 + P::wire_size() + pad_len(P::wire_size() as int)
                },
                Err(_) => false,
            }),
    {
        proof {
            pod.lemma_wire();
        }
        let body = pod.serialize_body();
        Ok(self.write_pod(P::exec_wire_type(), body.as_slice()))
    }

    /// Serialize a `String` pod: the string's UTF-8 bytes plus a trailing
    /// NUL byte.
    ///
    /// A string holding an embedded NUL is a protocol violation, rejected
    /// before any bytes are emitted; so is a body too large for the header's
    /// size field.
    pub fn serialize_string(self, string: &str) -> (r: Result<SerializeSuccess, SerializeFailure>)
        requires
            self.wf(),
        ensures
            r is Ok <==> !string.spec_bytes().contains(0u8) && string.spec_bytes().len() + 1
                <= u32::MAX,
            (match r {
                Ok(s) => {
                    &&& s.serializer.wf()
                    &&& s.serializer.data() == self.data() + pod_bytes(
                        SPA_TYPE_STRING,
                        string.spec_bytes() + seq![0u8],
                    )
                    &&& s.len == 8 + (string.spec_bytes().len() + 1) + pad_len(
                        string.spec_bytes().len() as int + 1,
                    )
                },
                Err(f) => {
                    &&& serialize_err(self, f)
                    &&& f.error == (if string.spec_bytes().contains(0u8) {
                        PodError::EmbeddedNul
                    } else {
                        PodError::SizeOverflow
                    })
                },
            }),
    {
        let bytes = string.as_bytes();
        if contains_nul(bytes) {
            return Err(SerializeFailure { serializer: self, error: PodError::EmbeddedNul });
        }
        if bytes.len() as u64 >= u32::MAX as u64 {
            return Err(SerializeFailure { serializer: self, error: PodError::SizeOverflow });
        }
        let mut body = vstd::slice::slice_to_vec(bytes);
        body.push(0u8);
        proof {
            assert(body@ =~= string.spec_bytes() + seq![0u8]);
        }
        Ok(self.write_pod(SPA_TYPE_STRING, body.as_slice()))
    }

    /// Serialize a `Bytes` pod: the raw content, with no terminator.
    ///
    /// Only a body too large for the header's size field is rejected.
    pub fn serialize_bytes(self, bytes: &[u8]) -> (r: Result<SerializeSuccess, SerializeFailure>)
        requires
            self.wf(),
        ensures
            r is Ok <==> bytes@.len() <= u32::MAX,
            (match r {
                Ok(s) => {
                    &&& s.serializer.wf()
                    &&& s.serializer.data() == self.data() + pod_bytes(SPA_TYPE_BYTES, bytes@)
                    &&& s.len == 8 + bytes@.len() + pad_len(bytes@.len() as int)
                },
                Err(f) => {
                    &&& serialize_err(self, f)
                    &&& f.error == PodError::SizeOverflow
                },
            }),
    {
        if bytes.len() as u64 > u32::MAX as u64 {
            return Err(SerializeFailure { serializer: self, error: PodError::SizeOverflow });
        }
        Ok(self.write_pod(SPA_TYPE_BYTES, bytes))
    }

    /// Begin serializing an `Array` pod with exactly `length` elements.
    ///
    /// The outer header's size — one shared child header plus the element
    /// bodies — is computed up front, which is why the count must be declared
    /// before any element is written. A size beyond the 32-bit header field
    /// is a protocol violation, rejected before any bytes are emitted.
    pub fn serialize_array<P: FixedSizedPod>(self, length: u32) -> (r: Result<
        ArrayPodSerializer<P>,
        SerializeFailure,
    >)
        requires
            self.wf(),
        ensures
            r is Ok <==> 8 + length * P::wire_size() <= u32::MAX,
            (match r {
                Ok(arr) => {
                    &&& arr.wf()
                    &&& arr.length == length
                    &&& arr.written == 0
                    &&& arr.base@ == self.data()
                    &&& arr.elems@ == Seq::<u8>::empty()
                },
                Err(f) => {
                    &&& serialize_err(self, f)
                    &&& f.error == PodError::SizeOverflow
                },
            }),
    {
        let esize = P::exec_wire_size();
        proof {
            vstd::arithmetic::mul::lemma_mul_upper_bound(
                length as int,
                u32::MAX as int,
                esize as int,
                u32::MAX as int,
            );
        }
        let body_size: u64 = 8u64 + (length as u64) * (esize as u64);
        if body_size > u32::MAX as u64 {
            return Err(SerializeFailure { serializer: self, error: PodError::SizeOverflow });
        }
        let mut sink = self.sink;
        write_header(&mut sink, body_size as u32, SPA_TYPE_ARRAY);
        proof {
            lemma_splice_at_end(
                self.sink.data(),
                header_bytes(body_size as u32, SPA_TYPE_ARRAY),
            );
            lemma_header_bytes_len(body_size as u32, SPA_TYPE_ARRAY);
        }
        write_header(&mut sink, esize, P::exec_wire_type());
        proof {
            lemma_splice_at_end(
                self.sink.data() + header_bytes(body_size as u32, SPA_TYPE_ARRAY),
                header_bytes(esize, P::wire_type()),
            );
            lemma_header_bytes_len(esize, P::wire_type());
        }
        let arr = ArrayPodSerializer {
            serializer: PodSerializer { sink },
            length,
            written: 0,
            base: Ghost(self.data()),
            elems: Ghost(Seq::empty()),
            _marker: PhantomData,
        };
        proof {
            assert(arr.serializer.data() =~= arr.base@ + header_bytes(
                arr.body_size() as u32,
                SPA_TYPE_ARRAY,
            ) + header_bytes(P::wire_size(), P::wire_type()) + arr.elems@);
        }
        Ok(arr)
    }
}

/// Handles serializing `Array` pods.
///
/// It is obtained from [`PodSerializer::serialize_array`], which declares the
/// element count; exactly that many elements must be written with
/// [`serialize_element`](Self::serialize_element) before
/// [`end`](Self::end) finishes the array and returns the serializer.
pub struct ArrayPodSerializer<P: FixedSizedPod> {
    /// The serializer this sub-serializer took from its parent.
    pub serializer: PodSerializer,
    /// The declared element count.
    pub length: u32,
    /// The number of elements written so far.
    pub written: u32,
    /// The sink contents from before this array's headers went out.
    pub base: Ghost<Seq<u8>>,
    /// The element body bytes written so far.
    pub elems: Ghost<Seq<u8>>,
    /// No element is owned here; the parameter only pins the element kind.
    pub _marker: PhantomData<P>,
}

impl<P: FixedSizedPod> ArrayPodSerializer<P> {
    /// The value of the outer header's size field: the shared child header
    /// plus all declared element bodies.
    pub open spec fn body_size(&self) -> int {
        8 + self.length * P::wire_size()
    }

    /// Between calls the sink always holds: everything from before the array,
    /// the outer and child headers, and the bodies written so far.
    pub open spec fn wf(&self) -> bool {
        &&& self.serializer.wf()
        &&& self.written <= self.length
        &&& self.body_size() <= u32::MAX
        &&& self.elems@.len() == self.written * P::wire_size()
        &&& self.serializer.data() == self.base@ + header_bytes(
            self.body_size() as u32,
            SPA_TYPE_ARRAY,
        ) + header_bytes(P::wire_size(), P::wire_type()) + self.elems@
    }

    /// Serialize a single element: exactly its body bytes, no per-element
    /// header.
    ///
    /// Returns the number of bytes written. Calling this more often than the
    /// declared count is a protocol violation; nothing is emitted then.
    pub fn serialize_element(&mut self, elem: &P) -> (r: Result<u64, PodError>)
        requires
            old(self).wf(),
        ensures
            final(self).wf(),
            final(self).length == old(self).length,
            final(self).base == old(self).base,
            (match r {
                Ok(n) => {
                    &&& old(self).written < old(self).length
                    &&& final(self).written == old(self).written + 1
                    &&& final(self).elems@ == old(self).elems@ + elem.body_spec()
                    &&& n == P::wire_size()
                },
                Err(e) => {
                    &&& e == PodError::TooManyElements
                    &&& old(self).written == old(self).length
                    &&& *final(self) == *old(self)
                },
            }),
    {
        if self.written >= self.length {
            return Err(PodError::TooManyElements);
        }
        proof {
            elem.lemma_wire();
        }
        let body = elem.serialize_body();
        let ghost pre = self.serializer.data();
        self.serializer.sink.write(body.as_slice());
        self.written = self.written + 1;
        self.elems = Ghost(self.elems@ + body@);
        proof {
            lemma_splice_at_end(pre, body@);
            assert(self.serializer.data() =~= self.base@ + header_bytes(
                self.body_size() as u32,
                SPA_TYPE_ARRAY,
            ) + header_bytes(P::wire_size(), P::wire_type()) + self.elems@);
            assert(self.written * P::wire_size() == (self.written - 1) * P::wire_size()
                + P::wire_size()) by (nonlinear_arith);
        }
        Ok(P::exec_wire_size() as u64)
    }

    /// Finish serializing the array: write the padding and return the
    /// serializer with the total emitted length (both headers, the element
    /// bodies, and the padding).
    ///
    /// Ending with fewer elements written than declared is a protocol
    /// violation; nothing further is emitted then.
    pub fn end(self) -> (r: Result<SerializeSuccess, SerializeFailure>)
        requires
            self.wf(),
        ensures
            r is Ok <==> self.written == self.length,
            (match r {
                Ok(s) => {
                    &&& s.serializer.wf()
                    &&& s.serializer.data() == self.base@ + pod_bytes(
                        SPA_TYPE_ARRAY,
                        header_bytes(P::wire_size(), P::wire_type()) + self.elems@,
                    )
                    &&& s.len == 16 + self.length * P::wire_size() + pad_len(
                        self.length * P::wire_size(),
                    )
                },
                Err(f) => {
                    &&& f.error == PodError::CountMismatch
                    &&& f.serializer.wf()
                    &&& f.serializer.data() == self.serializer.data()
                },
            }),
    {
        if self.written != self.length {
            return Err(SerializeFailure {
                serializer: self.serializer,
                error: PodError::CountMismatch,
            });
        }
        let esize = P::exec_wire_size();
        let body_bytes: u64 = (self.written as u64) * (esize as u64);
        let m = body_bytes % 8;
        let pad: u64 = if m == 0 {
            0
        } else {
            8 - m
        };
        let mut serializer = self.serializer;
        let ghost pre = serializer.data();
        write_zeros(&mut serializer.sink, pad as usize);
        proof {
            lemma_splice_at_end(pre, zeros(pad as int));
            let body = header_bytes(P::wire_size(), P::wire_type()) + self.elems@;
            lemma_header_bytes_len(P::wire_size(), P::wire_type());
            lemma_header_bytes_len(self.body_size() as u32, SPA_TYPE_ARRAY);
            lemma_pad_len_plus_8(self.elems@.len() as int);
            lemma_pad_len(self.elems@.len() as int);
            assert(serializer.data() =~= self.base@ + pod_bytes(SPA_TYPE_ARRAY, body));
        }
        let len: u64 = 16u64 + body_bytes + pad;
        Ok(SerializeSuccess { serializer, len })
    }
}

impl PodSerializer {
    /// Begin serializing a `Struct` pod.
    ///
    /// The struct's size is known only once all fields are written, so a
    /// placeholder header goes out now, to be patched by
    /// [`StructPodSerializer::end`]. This cannot breach any caller contract,
    /// so it always succeeds.
    pub fn serialize_struct(self) -> (r: Result<StructPodSerializer, SerializeFailure>)
        requires
            self.wf(),
        ensures
            (match r {
                Ok(st) => {
                    &&& st.wf()
                    &&& st.header_position == self.data().len()
                    &&& st.written == 0
                    &&& st.base@ == self.data()
                    &&& st.fields@ == Seq::<u8>::empty()
                },
                Err(_) => false,
            }),
    {
        let mut sink = self.sink;
        let header_position = sink.position();
        write_header(&mut sink, 0u32, SPA_TYPE_STRUCT);
        proof {
            lemma_splice_at_end(self.sink.data(), header_bytes(0u32, SPA_TYPE_STRUCT));
            lemma_header_bytes_len(0u32, SPA_TYPE_STRUCT);
        }
        let st = StructPodSerializer {
            serializer: Some(PodSerializer { sink }),
            header_position,
            written: 0,
            base: Ghost(self.data()),
            fields: Ghost(Seq::empty()),
        };
        proof {
            assert(st.data() =~= st.base@ + header_bytes(0u32, SPA_TYPE_STRUCT) + st.fields@);
        }
        Ok(st)
    }
}

/// Handles serializing `Struct` pods: ordered, heterogeneous, self-delimited
/// fields.
///
/// It is obtained from [`PodSerializer::serialize_struct`]; each field is
/// written with [`serialize_field`](Self::serialize_field), and
/// [`end`](Self::end) patches the reserved header with the accumulated size
/// and returns the serializer.
pub struct StructPodSerializer {
    /// The serializer this sub-serializer took from its parent. It is only
    /// absent while a field serializer borrows it mid-call.
    pub serializer: Option<PodSerializer>,
    /// Where the reserved header sits, for the patch at the end.
    pub header_position: usize,
    /// The total bytes of all fields written so far.
    pub written: usize,
    /// The sink contents from before this struct's header went out.
    pub base: Ghost<Seq<u8>>,
    /// The concatenated bytes of the field pods written so far.
    pub fields: Ghost<Seq<u8>>,
}

impl StructPodSerializer {
    /// The bytes written so far, struct header and fields included.
    pub open spec fn data(&self) -> Seq<u8> {
        self.serializer->Some_0.data()
    }

    /// Between calls the sink always holds: everything from before the
    /// struct, the placeholder header, and the complete field pods written so
    /// far — a multiple of 8 bytes, since every field pod is 8-byte aligned.
    pub open spec fn wf(&self) -> bool {
        &&& self.serializer is Some
        &&& self.serializer->Some_0.wf()
        &&& self.base@.len() == self.header_position
        &&& self.written == self.fields@.len()
        &&& self.written % 8 == 0
        &&& self.data() == self.base@ + header_bytes(0u32, SPA_TYPE_STRUCT) + self.fields@
    }

    /// Serialize a single field: one complete, self-aligned pod, written by
    /// the field's own [`PodSerialize`] implementation.
    ///
    /// Returns the number of bytes written for the field. A protocol
    /// violation inside the field emits nothing and leaves the struct
    /// serializer ready for another attempt.
    pub fn serialize_field<P: PodSerialize + ?Sized>(&mut self, field: &P) -> (r: Result<
        u64,
        PodError,
    >)
        requires
            old(self).wf(),
        ensures
            final(self).wf(),
            final(self).header_position == old(self).header_position,
            final(self).base == old(self).base,
            r is Ok <==> field.pod_ok(),
            (match r {
                Ok(n) => {
                    // Exactly the field's own pod is appended.
                    &&& n == field.pod_spec().len()
                    &&& final(self).fields@ == old(self).fields@ + field.pod_spec()
                    &&& final(self).written == old(self).written + n
                    &&& is_pod(field.pod_spec())
                    &&& 8 <= n
                    &&& n % 8 == 0
                },
                Err(_) => {
                    &&& final(self).written == old(self).written
                    &&& final(self).fields == old(self).fields
                    &&& final(self).data() == old(self).data()
                },
            }),
    {
        let serializer = self.serializer.take().unwrap();
        let ghost pre = serializer;
        match field.serialize(serializer) {
            Ok(success) => {
                let n = success.len;
                // The grown sink length is a usize, so the new total fits.
                let total = success.serializer.sink.len();
                proof {
                    assert(old(self).written + n <= total);
                }
                let ghost appended = success.serializer.data().subrange(
                    pre.data().len() as int,
                    success.serializer.data().len() as int,
                );
                proof {
                    assert(success.serializer.data() =~= pre.data() + appended);
                    assert(appended =~= field.pod_spec());
                }
                self.written = self.written + (n as usize);
                self.fields = Ghost(self.fields@ + appended);
                self.serializer = Some(success.serializer);
                proof {
                    assert(self.data() =~= self.base@ + header_bytes(0u32, SPA_TYPE_STRUCT)
                        + self.fields@);
                    assert(self.fields@.subrange(0, old(self).fields@.len() as int)
                        =~= old(self).fields@);
                    assert(self.fields@.subrange(
                        old(self).fields@.len() as int,
                        self.fields@.len() as int,
                    ) =~= appended);
                }
                Ok(n)
            },
            Err(failure) => {
                self.serializer = Some(failure.serializer);
                Err(failure.error)
            },
        }
    }

    /// Finish serialization of the struct: seek back to the reserved header,
    /// patch its size field with the accumulated byte count, and seek forward
    /// again so that siblings append correctly.
    ///
    /// No trailing padding is needed — every field pod already ends aligned.
    /// Returns the serializer with the struct's total length (header plus
    /// fields). An accumulated size beyond the 32-bit header field is a
    /// protocol violation; the header is left unpatched then.
    pub fn end(self) -> (r: Result<SerializeSuccess, SerializeFailure>)
        requires
            self.wf(),
        ensures
            r is Ok <==> self.written <= u32::MAX,
            (match r {
                Ok(s) => {
                    &&& s.serializer.wf()
                    &&& s.serializer.data() == self.base@ + pod_bytes(
                        SPA_TYPE_STRUCT,
                        self.fields@,
                    )
                    // The fields are already aligned, so no padding follows.
                    &&& s.serializer.data() == self.base@ + header_bytes(
                        self.written as u32,
                        SPA_TYPE_STRUCT,
                    ) + self.fields@
                    &&& s.len == self.written + 8
                },
                Err(f) => {
                    &&& f.error == PodError::SizeOverflow
                    &&& f.serializer.wf()
                    &&& f.serializer.data() == self.data()
                },
            }),
    {
        let mut serializer = self.serializer.unwrap();
        if self.written as u64 > u32::MAX as u64 {
            return Err(SerializeFailure { serializer, error: PodError::SizeOverflow });
        }
        proof {
            lemma_header_bytes_len(0u32, SPA_TYPE_STRUCT);
        }
        let ghost data0 = serializer.data();
        serializer.sink.seek(self.header_position);
        write_header(&mut serializer.sink, self.written as u32, SPA_TYPE_STRUCT);
        serializer.sink.seek_end();
        proof {
            let hp = self.header_position as int;
            let patched = header_bytes(self.written as u32, SPA_TYPE_STRUCT);
            lemma_header_bytes_len(self.written as u32, SPA_TYPE_STRUCT);
            assert(data0.subrange(0, hp) =~= self.base@);
            assert(data0.subrange(hp + 8, data0.len() as int) =~= self.fields@);
            lemma_pad_len(self.fields@.len() as int);
            assert(zeros(0) =~= Seq::<u8>::empty());
            assert(serializer.data() =~= self.base@ + pod_bytes(SPA_TYPE_STRUCT, self.fields@));
        }
        Ok(SerializeSuccess { serializer, len: self.written as u64 + 8 })
    }
}

/// Implementors serialize themselves into a pod using a [`PodSerializer`].
///
/// The contract forces every implementor to finish its pod: on success the
/// sink has grown by exactly one structurally valid pod, and on a protocol
/// violation it has not grown at all.
pub trait PodSerialize {
    /// Whether serializing this value succeeds: true exactly when no
    /// protocol violation lurks in the value itself.
    spec fn pod_ok(&self) -> bool;

    /// The exact bytes this value serializes to: one complete pod, a pure
    /// function of the value alone.
    spec fn pod_spec(&self) -> Seq<u8>;

    /// Serialize the value, consuming the serializer and returning it inside
    /// the result.
    ///
    /// Success is owed exactly on `pod_ok` values, and then appends exactly
    /// `pod_spec`; a failing call emits nothing.
    fn serialize(&self, serializer: PodSerializer) -> (r: Result<
        SerializeSuccess,
        SerializeFailure,
    >)
        requires
            serializer.wf(),
        ensures
            r is Ok <==> self.pod_ok(),
            (match r {
                Ok(s) => {
                    &&& serialize_ok(serializer, s)
                    &&& s.serializer.data() == serializer.data() + self.pod_spec()
                    &&& s.len == self.pod_spec().len()
                },
                Err(f) => serialize_err(serializer, f),
            }),
    ;
}

// Serialize into the pod of the value's canonical fixed-size kind.
impl<P: FixedSizedPod> PodSerialize for P {
    // A fixed-size value cannot breach any caller contract.
    open spec fn pod_ok(&self) -> bool {
        true
    }

    open spec fn pod_spec(&self) -> Seq<u8> {
        pod_bytes(P::wire_type(), self.body_spec())
    }

    fn serialize(&self, serializer: PodSerializer) -> (r: Result<
        SerializeSuccess,
        SerializeFailure,
    >) {
        let ghost pre = serializer;
        match serializer.serialized_fixed_sized_pod(self) {
            Ok(s) => {
                proof {
                    self.lemma_wire();
                    lemma_ok_from_pod(pre, s, P::wire_type(), self.body_spec());
                }
                Ok(s)
            },
            // A fixed-size pod cannot breach any caller contract.
            Err(_) => vstd::pervasive::unreached(),
        }
    }
}

// Serialize into a `String` pod.
impl PodSerialize for str {
    // The string must hold no NUL byte, and its bytes plus the terminator
    // must fit the 32-bit size field.
    open spec fn pod_ok(&self) -> bool {
        !self.spec_bytes().contains(0u8) && self.spec_bytes().len() + 1 <= u32::MAX
    }

    open spec fn pod_spec(&self) -> Seq<u8> {
        pod_bytes(SPA_TYPE_STRING, self.spec_bytes() + seq![0u8])
    }

    fn serialize(&self, serializer: PodSerializer) -> (r: Result<
        SerializeSuccess,
        SerializeFailure,
    >) {
        let ghost pre = serializer;
        match serializer.serialize_string(self) {
            Ok(s) => {
                proof {
                    lemma_ok_from_pod(pre, s, SPA_TYPE_STRING, self.spec_bytes() + seq![0u8]);
                }
                Ok(s)
            },
            Err(f) => Err(f),
        }
    }
}

// A homogeneous slice of fixed-size values serializes as an implicit `Array`
// pod of its length.
impl<P: FixedSizedPod> PodSerialize for [P] {
    // The element count and the array body must fit the 32-bit size field.
    open spec fn pod_ok(&self) -> bool {
        self@.len() <= u32::MAX && 8 + self@.len() * P::wire_size() <= u32::MAX
    }

    open spec fn pod_spec(&self) -> Seq<u8> {
        pod_bytes(SPA_TYPE_ARRAY, header_bytes(P::wire_size(), P::wire_type()) + bodies_of(self@))
    }

    fn serialize(&self, serializer: PodSerializer) -> (r: Result<
        SerializeSuccess,
        SerializeFailure,
    >) {
        let ghost pre = serializer;
        if self.len() as u64 > u32::MAX as u64 {
            return Err(SerializeFailure { serializer, error: PodError::SizeOverflow });
        }
        let length = self.len() as u32;
        let mut arr = match serializer.serialize_array::<P>(length) {
            Ok(arr) => arr,
            Err(f) => {
                return Err(f);
            },
        };
        let n = self.len();
        let mut i: usize = 0;
        while i < n
            invariant
                i <= n,
                n == self@.len(),
                n <= u32::MAX,
                arr.wf(),
                arr.length == n,
                arr.written == i,
                arr.base@ == pre.data(),
                arr.elems@ == bodies_of(self@.subrange(0, i as int)),
            decreases n - i,
        {
            let element = &self[i];
            match arr.serialize_element(element) {
                Ok(_) => {},
                // Fewer elements than declared are written here, so the
                // element count can never be exceeded.
                Err(_) => vstd::pervasive::unreached(),
            }
            proof {
                assert(self@.subrange(0, i + 1).drop_last() =~= self@.subrange(0, i as int));
                assert(arr.elems@ =~= bodies_of(self@.subrange(0, i + 1)));
            }
            i = i + 1;
        }
        proof {
            assert(self@.subrange(0, n as int) =~= self@);
        }
        match arr.end() {
            Ok(s) => {
                proof {
                    let body = header_bytes(P::wire_size(), P::wire_type()) + bodies_of(self@);
                    lemma_header_bytes_len(P::wire_size(), P::wire_type());
                    lemma_bodies_of_len(self@);
                    lemma_pad_len_plus_8(bodies_of(self@).len() as int);
                    lemma_ok_from_pod(pre, s, SPA_TYPE_ARRAY, body);
                }
                Ok(s)
            },
            // Exactly the declared count was written, so ending cannot fail.
            Err(_) => vstd::pervasive::unreached(),
        }
    }
}

// Serialize into a `Bytes` pod.
impl PodSerialize for [u8] {
    // The raw content must fit the 32-bit size field.
    open spec fn pod_ok(&self) -> bool {
        self@.len() <= u32::MAX
    }

    open spec fn pod_spec(&self) -> Seq<u8> {
        pod_bytes(SPA_TYPE_BYTES, self@)
    }

    fn serialize(&self, serializer: PodSerializer) -> (r: Result<
        SerializeSuccess,
        SerializeFailure,
    >) {
        let ghost pre = serializer;
        match serializer.serialize_bytes(self) {
            Ok(s) => {
                proof {
                    lemma_ok_from_pod(pre, s, SPA_TYPE_BYTES, self@);
                }
                Ok(s)
            },
            Err(f) => Err(f),
        }
    }
}

} // verus!
