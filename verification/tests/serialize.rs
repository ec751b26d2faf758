use spa_pod::serialize::{PodError, PodSerializer};
use spa_pod::sink::Sink;

fn serialized<P: spa_pod::serialize::PodSerialize + ?Sized>(pod: &P) -> (Vec<u8>, u64) {
    let (sink, len) = PodSerializer::serialize(Sink::new(), pod).expect("serialization failed");
    (sink.into_inner(), len)
}

#[test]
fn int_pod_exact_bytes() {
    // A 4-byte integer 42 under the Int tag: header (size 4, tag 4), body,
    // then 4 padding bytes, 16 bytes in all.
    let (bytes, len) = serialized(&42i32);
    assert_eq!(len, 16);
    assert_eq!(
        bytes,
        vec![
            0x04, 0x00, 0x00, 0x00, // size
            0x04, 0x00, 0x00, 0x00, // tag: Int
            0x2A, 0x00, 0x00, 0x00, // body: 42
            0x00, 0x00, 0x00, 0x00, // padding
        ]
    );
}

#[test]
fn negative_int_pod_bytes() {
    let (bytes, len) = serialized(&-1i32);
    assert_eq!(len, 16);
    assert_eq!(&bytes[8..12], &[0xFF, 0xFF, 0xFF, 0xFF]);
}

#[test]
fn bool_pod_exact_bytes() {
    let (bytes, len) = serialized(&true);
    assert_eq!(len, 16);
    assert_eq!(
        bytes,
        vec![
            0x04, 0x00, 0x00, 0x00, // size
            0x02, 0x00, 0x00, 0x00, // tag: Bool
            0x01, 0x00, 0x00, 0x00, // body: true
            0x00, 0x00, 0x00, 0x00, // padding
        ]
    );
    let (bytes, _) = serialized(&false);
    assert_eq!(&bytes[8..12], &[0x00, 0x00, 0x00, 0x00]);
}

#[test]
fn id_pod_exact_bytes() {
    let (bytes, len) = serialized(&0x01020304u32);
    assert_eq!(len, 16);
    assert_eq!(&bytes[4..8], &[0x03, 0x00, 0x00, 0x00]); // tag: Id
    assert_eq!(&bytes[8..12], &[0x04, 0x03, 0x02, 0x01]);
}

#[test]
fn long_pod_exact_bytes() {
    // An 8-byte integer needs no padding: 16 bytes in all.
    let (bytes, len) = serialized(&7i64);
    assert_eq!(len, 16);
    assert_eq!(
        bytes,
        vec![
            0x08, 0x00, 0x00, 0x00, // size
            0x05, 0x00, 0x00, 0x00, // tag: Long
            0x07, 0x00, 0x00, 0x00, 0x00, 0x00, 0x00, 0x00, // body: 7
        ]
    );
}

#[test]
fn string_pod_exact_bytes() {
    // "hi" plus the trailing NUL is a 3-byte body, padded up to 8.
    let (bytes, len) = serialized("hi");
    assert_eq!(len, 16);
    assert_eq!(
        bytes,
        vec![
            0x03, 0x00, 0x00, 0x00, // size
            0x08, 0x00, 0x00, 0x00, // tag: String
            b'h', b'i', 0x00, 0x00, 0x00, 0x00, 0x00, 0x00, // body + padding
        ]
    );
}

#[test]
fn empty_string_pod() {
    // The empty string still carries its NUL terminator.
    let (bytes, len) = serialized("");
    assert_eq!(len, 16);
    assert_eq!(&bytes[0..4], &[0x01, 0x00, 0x00, 0x00]);
    assert_eq!(&bytes[8..16], &[0x00; 8]);
}

#[test]
fn multibyte_string_pod_uses_utf8() {
    // 'é' encodes as two UTF-8 bytes, so the body is 3 + NUL = 4 bytes.
    let (bytes, len) = serialized("hé");
    assert_eq!(len, 16);
    assert_eq!(&bytes[0..4], &[0x04, 0x00, 0x00, 0x00]);
    assert_eq!(&bytes[8..12], &[b'h', 0xC3, 0xA9, 0x00]);
}

#[test]
fn string_with_nul_is_rejected_emitting_nothing() {
    // An embedded NUL is a protocol violation and emits zero bytes.
    let r = PodSerializer::serialize(Sink::new(), "ba\0d");
    match r {
        Err((sink, error)) => {
            assert_eq!(error, PodError::EmbeddedNul);
            assert_eq!(sink.into_inner(), Vec::<u8>::new());
        }
        Ok(_) => panic!("embedded NUL must be a protocol violation"),
    }
}

#[test]
fn bytes_pod_exact_bytes() {
    // Raw content, no terminator: 3 bytes padded up to 8.
    let (bytes, len) = serialized(&[0xAAu8, 0xBB, 0xCC][..]);
    assert_eq!(len, 16);
    assert_eq!(
        bytes,
        vec![
            0x03, 0x00, 0x00, 0x00, // size
            0x09, 0x00, 0x00, 0x00, // tag: Bytes
            0xAA, 0xBB, 0xCC, 0x00, 0x00, 0x00, 0x00, 0x00, // body + padding
        ]
    );
}

#[test]
fn empty_bytes_pod_is_just_a_header() {
    let (bytes, len) = serialized(&[][..] as &[u8]);
    assert_eq!(len, 8);
    assert_eq!(bytes, vec![0x00, 0x00, 0x00, 0x00, 0x09, 0x00, 0x00, 0x00]);
}

#[test]
fn array_pod_exact_bytes() {
    // Three Ints: outer header size 8 + 3*4 = 20, one shared child header,
    // three bodies, 4 padding bytes; 32 bytes in all.
    let elements = [1i32, 2, 3];
    let (bytes, len) = serialized(&elements[..]);
    assert_eq!(len, 32);
    assert_eq!(
        bytes,
        vec![
            0x14, 0x00, 0x00, 0x00, // size: 20
            0x0D, 0x00, 0x00, 0x00, // tag: Array
            0x04, 0x00, 0x00, 0x00, // child size: 4
            0x04, 0x00, 0x00, 0x00, // child tag: Int
            0x01, 0x00, 0x00, 0x00, // element 1
            0x02, 0x00, 0x00, 0x00, // element 2
            0x03, 0x00, 0x00, 0x00, // element 3
            0x00, 0x00, 0x00, 0x00, // padding
        ]
    );
}

#[test]
fn empty_array_pod() {
    // No elements: just the two headers, already aligned.
    let (bytes, len) = serialized(&[][..] as &[i32]);
    assert_eq!(len, 16);
    assert_eq!(&bytes[0..4], &[0x08, 0x00, 0x00, 0x00]);
    assert_eq!(&bytes[4..8], &[0x0D, 0x00, 0x00, 0x00]);
    assert_eq!(&bytes[8..12], &[0x04, 0x00, 0x00, 0x00]);
    assert_eq!(&bytes[12..16], &[0x04, 0x00, 0x00, 0x00]);
}

#[test]
fn array_of_longs_needs_no_padding() {
    let elements = [1i64, -1];
    let (bytes, len) = serialized(&elements[..]);
    // 16 header bytes + 2*8 body bytes, already aligned.
    assert_eq!(len, 32);
    assert_eq!(&bytes[0..4], &[0x18, 0x00, 0x00, 0x00]); // size: 24
    assert_eq!(&bytes[8..12], &[0x08, 0x00, 0x00, 0x00]); // child size: 8
    assert_eq!(&bytes[12..16], &[0x05, 0x00, 0x00, 0x00]); // child tag: Long
}

#[test]
fn array_with_too_many_elements_is_rejected() {
    let serializer = PodSerializer { sink: Sink::new() };
    let mut arr = serializer.serialize_array::<i32>(2).expect("start failed");
    arr.serialize_element(&1).expect("element 1 failed");
    arr.serialize_element(&2).expect("element 2 failed");
    let r = arr.serialize_element(&3);
    assert_eq!(r, Err(PodError::TooManyElements));
    // The array can still be finished correctly afterwards: two headers and
    // two 4-byte elements, already aligned.
    let success = arr.end().expect("end failed");
    assert_eq!(success.len, 24);
}

#[test]
fn array_with_too_few_elements_is_rejected_at_end() {
    let serializer = PodSerializer { sink: Sink::new() };
    let mut arr = serializer.serialize_array::<i32>(3).expect("start failed");
    arr.serialize_element(&1).expect("element 1 failed");
    arr.serialize_element(&2).expect("element 2 failed");
    match arr.end() {
        Err(failure) => assert_eq!(failure.error, PodError::CountMismatch),
        Ok(_) => panic!("a missing element must be a protocol violation"),
    }
}

#[test]
fn oversized_array_is_rejected_emitting_nothing() {
    // 8 + u32::MAX * 8 bytes cannot be described by the 32-bit size field.
    let serializer = PodSerializer { sink: Sink::new() };
    match serializer.serialize_array::<i64>(u32::MAX) {
        Err(failure) => {
            assert_eq!(failure.error, PodError::SizeOverflow);
            assert_eq!(failure.serializer.sink.into_inner(), Vec::<u8>::new());
        }
        Ok(_) => panic!("an oversized array must be a protocol violation"),
    }
}

#[test]
fn struct_pod_exact_bytes() {
    // Fields "hi" (16 bytes) and 7i32 (16 bytes): struct size field 32,
    // total 40 bytes, no trailing padding.
    let serializer = PodSerializer { sink: Sink::new() };
    let mut st = serializer.serialize_struct().expect("start failed");
    assert_eq!(st.serialize_field("hi").expect("field 1 failed"), 16);
    assert_eq!(st.serialize_field(&7i32).expect("field 2 failed"), 16);
    let success = st.end().expect("end failed");
    assert_eq!(success.len, 40);
    let bytes = success.serializer.sink.into_inner();
    assert_eq!(
        bytes,
        vec![
            0x20, 0x00, 0x00, 0x00, // size: 32
            0x0E, 0x00, 0x00, 0x00, // tag: Struct
            0x03, 0x00, 0x00, 0x00, // field 1 size
            0x08, 0x00, 0x00, 0x00, // field 1 tag: String
            b'h', b'i', 0x00, 0x00, 0x00, 0x00, 0x00, 0x00, // field 1 body + padding
            0x04, 0x00, 0x00, 0x00, // field 2 size
            0x04, 0x00, 0x00, 0x00, // field 2 tag: Int
            0x07, 0x00, 0x00, 0x00, 0x00, 0x00, 0x00, 0x00, // field 2 body + padding
        ]
    );
}

#[test]
fn empty_struct_pod() {
    let serializer = PodSerializer { sink: Sink::new() };
    let st = serializer.serialize_struct().expect("start failed");
    let success = st.end().expect("end failed");
    assert_eq!(success.len, 8);
    let bytes = success.serializer.sink.into_inner();
    assert_eq!(bytes, vec![0x00, 0x00, 0x00, 0x00, 0x0E, 0x00, 0x00, 0x00]);
}

#[test]
fn struct_field_lengths_always_align() {
    // Children of varying alignment each emit a multiple of 8 bytes, so the
    // struct's accumulated size is one too and it needs no trailing padding.
    let serializer = PodSerializer { sink: Sink::new() };
    let mut st = serializer.serialize_struct().expect("start failed");
    let mut total = 0u64;
    for (field, expected) in [("a", 16u64), ("hello wor", 24), ("", 16)] {
        let n = st.serialize_field(field).expect("field failed");
        assert_eq!(n, expected);
        assert_eq!(n % 8, 0);
        total += n;
    }
    let ints = [1i32, 2, 3];
    let n = st.serialize_field(&ints[..]).expect("array field failed");
    assert_eq!(n, 32);
    total += n;
    let success = st.end().expect("end failed");
    assert_eq!(success.len, total + 8);
    let bytes = success.serializer.sink.into_inner();
    assert_eq!(bytes.len() as u64, total + 8);
    // The patched size field holds exactly the accumulated field bytes.
    assert_eq!(&bytes[0..4], (total as u32).to_le_bytes().as_slice());
}

#[test]
fn struct_rejects_bad_field_and_stays_usable() {
    // A protocol violation inside a field emits nothing; the struct can go on.
    let serializer = PodSerializer { sink: Sink::new() };
    let mut st = serializer.serialize_struct().expect("start failed");
    assert_eq!(st.serialize_field("ok").expect("field 1 failed"), 16);
    assert_eq!(st.serialize_field("ba\0d"), Err(PodError::EmbeddedNul));
    assert_eq!(st.serialize_field(&5i32).expect("field 3 failed"), 16);
    let success = st.end().expect("end failed");
    assert_eq!(success.len, 40);
}

#[test]
fn sibling_pods_append_after_a_struct() {
    // After a struct's end() the position is back at the stream's end, so a
    // sibling pod appends correctly after it.
    let serializer = PodSerializer { sink: Sink::new() };
    let mut st = serializer.serialize_struct().expect("start failed");
    st.serialize_field(&1i32).expect("field failed");
    let success = st.end().expect("end failed");
    let (sink, len) = PodSerializer::serialize(success.serializer.sink, &2i32)
        .expect("sibling failed");
    assert_eq!(success.len, 24);
    assert_eq!(len, 16);
    let bytes = sink.into_inner();
    assert_eq!(bytes.len(), 40);
    assert_eq!(&bytes[0..4], &[0x10, 0x00, 0x00, 0x00]); // struct size: 16
    assert_eq!(&bytes[24..28], &[0x04, 0x00, 0x00, 0x00]); // sibling header
    assert_eq!(&bytes[32..36], &[0x02, 0x00, 0x00, 0x00]); // sibling body
}

#[test]
fn serialized_length_matches_formula() {
    // Emitted length is 8 + size + pad_len(size) for every simple pod.
    for (s, expected) in [(0usize, 8u64), (1, 16), (7, 16), (8, 16), (9, 24), (16, 24)] {
        let content = vec![0x55u8; s];
        let (bytes, len) = serialized(content.as_slice());
        assert_eq!(len, expected, "body size {s}");
        assert_eq!(bytes.len() as u64, expected);
        assert_eq!(len % 8, 0);
    }
}
