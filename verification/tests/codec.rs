use dharitri_core::big_uint::BigUint;
use dharitri_core::codec::{CodecFailure, DecodeError, ErrorPolicy, ManagedArgBuffer};
use dharitri_core::managed_buffer::ManagedBuffer;

#[test]
fn buffer_top_encoding_is_the_whole_payload() {
    let b = ManagedBuffer::new_from_bytes(b"hello");
    let encoded = b.top_encode_or_handle_err(ErrorPolicy::Structured).ok().unwrap();
    assert_eq!(encoded, b"hello".to_vec());
    let back = ManagedBuffer::top_decode_or_handle_err(encoded, ErrorPolicy::Structured)
        .ok()
        .unwrap();
    assert!(back.eq_buffer(&b));
}

#[test]
fn buffer_nested_round_trip() {
    let mut stream: Vec<u8> = Vec::new();
    ManagedBuffer::new_from_bytes(b"ab")
        .dep_encode_or_handle_err(&mut stream, ErrorPolicy::Structured)
        .ok()
        .unwrap();
    ManagedBuffer::new_from_bytes(b"")
        .dep_encode_or_handle_err(&mut stream, ErrorPolicy::Structured)
        .ok()
        .unwrap();
    assert_eq!(stream, vec![0, 0, 0, 2, b'a', b'b', 0, 0, 0, 0]);
    let (first, next) =
        ManagedBuffer::dep_decode_or_handle_err(&stream, 0, ErrorPolicy::Structured)
            .ok()
            .unwrap();
    assert_eq!(first.to_bytes(), b"ab".to_vec());
    assert_eq!(next, 6);
    let (second, end) =
        ManagedBuffer::dep_decode_or_handle_err(&stream, next, ErrorPolicy::Structured)
            .ok()
            .unwrap();
    assert!(second.is_empty());
    assert_eq!(end, stream.len());
}

#[test]
fn buffer_nested_decode_fails_on_a_short_stream() {
    let stream: Vec<u8> = vec![0, 0, 0, 3, 1];
    let r = ManagedBuffer::dep_decode_or_handle_err(&stream, 0, ErrorPolicy::Structured);
    assert!(matches!(
        r,
        Err(CodecFailure::Recoverable(DecodeError::InputTooShort))
    ));
}

#[test]
fn big_uint_top_round_trip() {
    let v = BigUint::from_u64(0xABCDEF);
    let encoded = v.top_encode_or_handle_err(ErrorPolicy::Structured).ok().unwrap();
    assert_eq!(encoded, vec![0xAB, 0xCD, 0xEF]);
    let back = BigUint::top_decode_or_handle_err(encoded, ErrorPolicy::Structured).ok().unwrap();
    assert!(back.eq_big(&v));
}

#[test]
fn big_uint_top_decode_drops_zero_padding() {
    let back = BigUint::top_decode_or_handle_err(vec![0, 0, 9], ErrorPolicy::Structured)
        .ok()
        .unwrap();
    assert!(back.eq_big(&BigUint::from_u64(9)));
}

#[test]
fn big_uint_nested_round_trip() {
    let mut stream: Vec<u8> = Vec::new();
    BigUint::from_u64(300)
        .dep_encode_or_handle_err(&mut stream, ErrorPolicy::Structured)
        .ok()
        .unwrap();
    assert_eq!(stream, vec![0, 0, 0, 2, 1, 44]);
    let (back, end) = BigUint::dep_decode_or_handle_err(&stream, 0, ErrorPolicy::Structured)
        .ok()
        .unwrap();
    assert!(back.eq_big(&BigUint::from_u64(300)));
    assert_eq!(end, stream.len());
}

#[test]
fn big_uint_nested_encoding_of_zero_is_an_empty_payload() {
    let mut stream: Vec<u8> = Vec::new();
    BigUint::zero()
        .dep_encode_or_handle_err(&mut stream, ErrorPolicy::Structured)
        .ok()
        .unwrap();
    assert_eq!(stream, vec![0, 0, 0, 0]);
    let (back, end) = BigUint::dep_decode_or_handle_err(&stream, 0, ErrorPolicy::Structured)
        .ok()
        .unwrap();
    assert!(back.is_zero());
    assert_eq!(end, 4);
}

#[test]
fn big_uint_nested_decode_aborts_under_the_abort_policy() {
    let stream: Vec<u8> = vec![0, 0, 0, 8, 1];
    match BigUint::dep_decode_or_handle_err(&stream, 0, ErrorPolicy::AbortOnError) {
        Err(CodecFailure::Abort(p)) => {
            assert_eq!(p.status, 4);
            assert_eq!(p.message, "serializer decode error: input too short");
        }
        _ => panic!("expected an abort"),
    }
}

#[test]
fn library_encodings_match_the_codec_crate() {
    assert_eq!(
        dharitri_sc_codec::top_encode_to_vec_u8_or_panic(&0x1234u64),
        BigUint::from_u64(0x1234).to_bytes()
    );
    assert_eq!(
        dharitri_sc_codec::top_encode_to_vec_u8_or_panic(&0u64),
        BigUint::from_u64(0).to_bytes()
    );

    let mut direct: Vec<u8> = Vec::new();
    dharitri_sc_codec::NestedEncode::dep_encode_or_handle_err(
        &b"ab".to_vec(),
        &mut direct,
        dharitri_sc_codec::DefaultErrorHandler,
    )
    .unwrap();
    let mut through_library: Vec<u8> = Vec::new();
    ManagedBuffer::new_from_bytes(b"ab")
        .dep_encode_or_handle_err(&mut through_library, ErrorPolicy::Structured)
        .ok()
        .unwrap();
    assert_eq!(direct, through_library);
}

#[test]
fn arg_buffer_keeps_push_order() {
    let mut args = ManagedArgBuffer::new_empty();
    assert_eq!(args.len(), 0);
    args.push_arg_raw(ManagedBuffer::new_from_bytes(b"one"));
    args.push_arg_raw(ManagedBuffer::new_from_bytes(b"two"));
    assert_eq!(args.len(), 2);
    assert_eq!(args.arg_at(0).to_bytes(), b"one".to_vec());
    assert_eq!(args.arg_at(1).to_bytes(), b"two".to_vec());
}
