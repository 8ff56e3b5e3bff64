use tcp_proxy::proxy::crypto;
use tcp_proxy::proxy::crypto::{CryptoError, CryptoOp};
use tcp_proxy::proxy::protocol::{
    custom_read_protocol, custom_write_protocol, frame_body_length, read_frame,
    standard_read_protocol, standard_write_protocol, FramingError, WriteAction, HEADER_SIZE,
    MAX_FRAME, READ_CAP,
};
use tcp_proxy::proxy::ProxyError;

fn key() -> [u8; 32] {
    crypto::get_key("01234567890123456789012345678901")
}

#[test]
fn limits_are_as_on_the_wire() {
    assert_eq!(READ_CAP, 1024);
    assert_eq!(HEADER_SIZE, 2);
    assert_eq!(MAX_FRAME, 65_535);
}

#[test]
fn frame_is_big_endian_length_then_body() {
    assert_eq!(
        custom_write_protocol(b"abc".to_vec()),
        Ok(vec![0, 3, b'a', b'b', b'c'])
    );
    let long = custom_write_protocol(vec![9u8; 300]).unwrap();
    assert_eq!(&long[..2], &[1u8, 44]);
    assert_eq!(long.len(), 302);
    assert_eq!(&long[2..], &vec![9u8; 300][..]);
}

#[test]
fn empty_chunk_is_framed_as_two_zero_bytes() {
    assert_eq!(custom_write_protocol(Vec::new()), Ok(vec![0, 0]));
}

#[test]
fn largest_frame_is_accepted_and_one_more_byte_is_not() {
    let wire = custom_write_protocol(vec![1u8; 65_535]).unwrap();
    assert_eq!(&wire[..2], &[255u8, 255]);
    assert_eq!(wire.len(), 65_537);
    assert_eq!(
        custom_write_protocol(vec![1u8; 65_536]),
        Err(FramingError::Oversized)
    );
}

#[test]
fn header_length_is_big_endian() {
    assert_eq!(frame_body_length(&[0, 0]), 0);
    assert_eq!(frame_body_length(&[0, 1]), 1);
    assert_eq!(frame_body_length(&[1, 0]), 256);
    assert_eq!(frame_body_length(&[1, 44]), 300);
    assert_eq!(frame_body_length(&[255, 255]), 65_535);
}

#[test]
fn framing_round_trip_over_many_lengths() {
    for len in [0usize, 1, 2, 255, 256, 257, 1024, 1052, 65_534, 65_535] {
        let mut body = Vec::with_capacity(len);
        for i in 0..len {
            body.push((i % 253) as u8);
        }
        let wire = custom_write_protocol(body.clone()).unwrap();
        assert_eq!(wire.len(), len + 2);
        assert_eq!(frame_body_length(&[wire[0], wire[1]]), len);
        assert_eq!(read_frame(&wire), Ok(body));
    }
}

#[test]
fn read_frame_ignores_what_follows_the_frame() {
    assert_eq!(read_frame(&[0, 2, 10, 20, 30, 40]), Ok(vec![10, 20]));
}

#[test]
fn zero_header_yields_empty_frame() {
    assert_eq!(read_frame(&[0, 0]), Ok(Vec::new()));
    assert_eq!(read_frame(&[0, 0, 1, 2, 3]), Ok(Vec::new()));
    for op in [CryptoOp::Identity, CryptoOp::Encrypt, CryptoOp::Decrypt] {
        assert_eq!(
            custom_read_protocol(&[0, 0, 9, 9], op, &key(), None),
            Ok(Vec::new())
        );
    }
}

#[test]
fn truncated_header_is_a_framing_error() {
    assert_eq!(read_frame(&[]), Err(FramingError::TruncatedHeader));
    assert_eq!(read_frame(&[0]), Err(FramingError::TruncatedHeader));
    assert_eq!(
        custom_read_protocol(&[5], CryptoOp::Identity, &key(), None),
        Err(ProxyError::Framing(FramingError::TruncatedHeader))
    );
}

#[test]
fn truncated_body_is_a_framing_error() {
    assert_eq!(read_frame(&[0, 3, 1, 2]), Err(FramingError::TruncatedBody));
    assert_eq!(read_frame(&[1, 0]), Err(FramingError::TruncatedBody));
    assert_eq!(
        custom_read_protocol(&[0, 3, 1, 2], CryptoOp::Decrypt, &key(), None),
        Err(ProxyError::Framing(FramingError::TruncatedBody))
    );
}

#[test]
fn standard_read_hands_on_end_of_stream_untouched() {
    for op in [CryptoOp::Identity, CryptoOp::Encrypt, CryptoOp::Decrypt] {
        assert_eq!(
            standard_read_protocol(Vec::new(), op, &key(), None),
            Ok(Vec::new())
        );
    }
}

#[test]
fn standard_read_applies_the_operation() {
    assert_eq!(
        standard_read_protocol(b"plain".to_vec(), CryptoOp::Identity, &key(), None),
        Ok(b"plain".to_vec())
    );
    let sealed =
        standard_read_protocol(b"plain".to_vec(), CryptoOp::Encrypt, &key(), Some([1u8; 12]))
            .unwrap();
    assert_eq!(
        Ok(sealed.clone()),
        crypto::encrypt_with_nonce(&key(), &[1u8; 12], b"plain".to_vec())
    );
    assert_eq!(
        standard_read_protocol(sealed, CryptoOp::Decrypt, &key(), None),
        Ok(b"plain".to_vec())
    );
    assert_eq!(
        standard_read_protocol(b"plain".to_vec(), CryptoOp::Decrypt, &key(), None),
        Err(ProxyError::Crypto(CryptoError::TooShort))
    );
    assert_eq!(
        standard_read_protocol(b"plain".to_vec(), CryptoOp::Encrypt, &key(), None),
        Err(ProxyError::Crypto(CryptoError::RandomSource))
    );
}

#[test]
fn custom_read_applies_the_operation_to_the_body() {
    assert_eq!(
        custom_read_protocol(&[0, 2, 7, 8, 9], CryptoOp::Identity, &key(), None),
        Ok(vec![7, 8])
    );
    let sealed = crypto::encrypt(&key(), b"body".to_vec()).unwrap();
    let wire = custom_write_protocol(sealed).unwrap();
    assert_eq!(wire.len(), 2 + 4 + 28);
    assert_eq!(
        custom_read_protocol(&wire, CryptoOp::Decrypt, &key(), None),
        Ok(b"body".to_vec())
    );
    let mut forged = wire.clone();
    let last = forged.len() - 1;
    forged[last] ^= 1;
    assert_eq!(
        custom_read_protocol(&forged, CryptoOp::Decrypt, &key(), None),
        Err(ProxyError::Crypto(CryptoError::Authentication))
    );
    assert_eq!(
        custom_read_protocol(&[0, 3, 1, 2, 3], CryptoOp::Decrypt, &key(), None),
        Err(ProxyError::Crypto(CryptoError::TooShort))
    );
}

#[test]
fn standard_write_sends_verbatim_or_shuts_down() {
    assert_eq!(standard_write_protocol(Vec::new()), WriteAction::Shutdown);
    assert_eq!(
        standard_write_protocol(vec![1, 2, 3]),
        WriteAction::Send(vec![1, 2, 3])
    );
}
