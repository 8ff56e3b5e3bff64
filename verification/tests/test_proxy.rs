use tcp_proxy::proxy::crypto;
use tcp_proxy::proxy::crypto::{CryptoError, CryptoOp};
use tcp_proxy::proxy::protocol::FramingError;
use tcp_proxy::proxy::{
    direction_policy, transfer_data, transfer_data_with_nonce, ChannelType, Dialect, Policy,
    ProxyError, ProxyMode, Transfer,
};

/// What a relay puts on its write half for the chunks that arrive on its
/// read half, each chunk as one read returned it: the bytes written by every
/// turn in order.
fn relay(mode: ProxyMode, channel: ChannelType, key: &[u8; 32], reads: &[Vec<u8>]) -> Vec<Vec<u8>> {
    let mut written = Vec::new();
    for input in reads {
        let turn = transfer_data(mode, channel, key, input).unwrap();
        assert_eq!(turn.consumed, input.len());
        if !turn.wire.is_empty() {
            written.push(turn.wire);
        }
        if turn.finished {
            break;
        }
    }
    written
}

fn echo_through_tunnel(request: &str) -> (String, Vec<Vec<u8>>) {
    let key = crypto::get_key("01234567890123456789012345678901");
    let from_app = vec![request.as_bytes().to_vec()];
    let tunnel_out = relay(ProxyMode::Client, ChannelType::Receiving, &key, &from_app);
    let to_echo = relay(ProxyMode::Server, ChannelType::Receiving, &key, &tunnel_out);
    let tunnel_back = relay(ProxyMode::Server, ChannelType::Sending, &key, &to_echo);
    let to_app = relay(ProxyMode::Client, ChannelType::Sending, &key, &tunnel_back);
    let mut observed = tunnel_out;
    observed.extend(tunnel_back);
    (
        String::from_utf8_lossy(&to_app.concat()).to_string(),
        observed,
    )
}

fn generate_long_string(length: usize) -> String {
    let mut long_string = String::with_capacity(length);

    for _ in 0..length {
        long_string.push('A');
    }

    long_string
}

#[test]
fn test_proxy_mode() {
    let key = [0u8; 32];
    let test_string = String::from("Hello, server!");
    let from_app = vec![test_string.as_bytes().to_vec()];
    let to_echo = relay(ProxyMode::Proxy, ChannelType::Receiving, &key, &from_app);
    let to_app = relay(ProxyMode::Proxy, ChannelType::Sending, &key, &to_echo);
    let response_string = String::from_utf8_lossy(&to_app.concat()).to_string();
    assert_eq!(response_string, test_string);
}

#[test]
fn test_client_server_mode() {
    let test_string = String::from("Hello, server!");
    let (response_string, _) = echo_through_tunnel(&test_string);
    assert_eq!(response_string, test_string);
}

#[test]
fn test_client_server_mode_long() {
    let test_string = generate_long_string(60);
    let (response_string, observed) = echo_through_tunnel(&test_string);
    assert_eq!(response_string, test_string);
    assert_eq!(observed.len(), 2);
    for wire in observed {
        assert_eq!(wire.len(), 2 + 60 + 28);
        assert_eq!(&wire[..2], &[0u8, 88]);
        assert_ne!(&wire[2..], test_string.as_bytes());
        assert!(!wire
            .windows(test_string.len())
            .any(|w| w == test_string.as_bytes()));
    }
}

#[test]
fn policy_table_is_complete() {
    let plain = Policy {
        read: Dialect::Standard,
        op: CryptoOp::Identity,
        write: Dialect::Standard,
    };
    let sealing = Policy {
        read: Dialect::Standard,
        op: CryptoOp::Encrypt,
        write: Dialect::Custom,
    };
    let opening = Policy {
        read: Dialect::Custom,
        op: CryptoOp::Decrypt,
        write: Dialect::Standard,
    };
    assert_eq!(direction_policy(ProxyMode::Proxy, ChannelType::Receiving), plain);
    assert_eq!(direction_policy(ProxyMode::Proxy, ChannelType::Sending), plain);
    assert_eq!(direction_policy(ProxyMode::Client, ChannelType::Receiving), sealing);
    assert_eq!(direction_policy(ProxyMode::Client, ChannelType::Sending), opening);
    assert_eq!(direction_policy(ProxyMode::Server, ChannelType::Receiving), opening);
    assert_eq!(direction_policy(ProxyMode::Server, ChannelType::Sending), sealing);
}

#[test]
fn passthrough_turn_forwards_the_chunk_unchanged() {
    let key = [0u8; 32];
    for channel in [ChannelType::Receiving, ChannelType::Sending] {
        assert_eq!(
            transfer_data(ProxyMode::Proxy, channel, &key, b"Hello, server!"),
            Ok(Transfer {
                wire: b"Hello, server!".to_vec(),
                consumed: 14,
                finished: false
            })
        );
    }
}

#[test]
fn passthrough_end_of_stream_finishes_without_bytes() {
    let key = [0u8; 32];
    for channel in [ChannelType::Receiving, ChannelType::Sending] {
        assert_eq!(
            transfer_data(ProxyMode::Proxy, channel, &key, &[]),
            Ok(Transfer {
                wire: Vec::new(),
                consumed: 0,
                finished: true
            })
        );
    }
}

#[test]
fn half_close_crosses_the_tunnel() {
    let key = crypto::get_key("01234567890123456789012345678901");
    let pairs = [
        (ProxyMode::Client, ProxyMode::Server, ChannelType::Receiving),
        (ProxyMode::Server, ProxyMode::Client, ChannelType::Sending),
    ];
    for (near, far, channel) in pairs {
        let sent = transfer_data(near, channel, &key, &[]).unwrap();
        assert_eq!(
            sent,
            Transfer {
                wire: vec![0, 0],
                consumed: 0,
                finished: true
            }
        );
        let received = transfer_data(far, channel, &key, &sent.wire).unwrap();
        assert_eq!(
            received,
            Transfer {
                wire: Vec::new(),
                consumed: 2,
                finished: true
            }
        );
    }
}

#[test]
fn sealing_turn_frames_nonce_ciphertext_and_tag() {
    let key = crypto::get_key("01234567890123456789012345678901");
    let nonce = [5u8; 12];
    let turn = transfer_data_with_nonce(
        ProxyMode::Client,
        ChannelType::Receiving,
        &key,
        Some(nonce),
        b"abc",
    )
    .unwrap();
    let sealed = crypto::encrypt_with_nonce(&key, &nonce, b"abc".to_vec()).unwrap();
    let mut expected = vec![0u8, 31];
    expected.extend_from_slice(&sealed);
    assert_eq!(
        turn,
        Transfer {
            wire: expected,
            consumed: 3,
            finished: false
        }
    );
}

#[test]
fn opening_turn_takes_one_frame_and_leaves_the_rest() {
    let key = crypto::get_key("01234567890123456789012345678901");
    let first = transfer_data(ProxyMode::Server, ChannelType::Sending, &key, b"one")
        .unwrap()
        .wire;
    let second = transfer_data(ProxyMode::Server, ChannelType::Sending, &key, b"two!")
        .unwrap()
        .wire;
    let mut stream = first.clone();
    stream.extend_from_slice(&second);
    let turn = transfer_data(ProxyMode::Client, ChannelType::Sending, &key, &stream).unwrap();
    assert_eq!(
        turn,
        Transfer {
            wire: b"one".to_vec(),
            consumed: first.len(),
            finished: false
        }
    );
    let next = transfer_data(
        ProxyMode::Client,
        ChannelType::Sending,
        &key,
        &stream[turn.consumed..],
    )
    .unwrap();
    assert_eq!(next.wire, b"two!".to_vec());
    assert_eq!(next.consumed, second.len());
}

#[test]
fn sealing_turn_without_nonce_fails() {
    let key = [1u8; 32];
    assert_eq!(
        transfer_data_with_nonce(ProxyMode::Server, ChannelType::Sending, &key, None, b"x"),
        Err(ProxyError::Crypto(CryptoError::RandomSource))
    );
}

#[test]
fn sealing_turn_rejects_chunk_that_overflows_a_frame() {
    let key = [1u8; 32];
    let fits = transfer_data_with_nonce(
        ProxyMode::Client,
        ChannelType::Receiving,
        &key,
        Some([0u8; 12]),
        &vec![0u8; 65_507],
    )
    .unwrap();
    assert_eq!(fits.wire.len(), 65_537);
    assert_eq!(
        transfer_data_with_nonce(
            ProxyMode::Client,
            ChannelType::Receiving,
            &key,
            Some([0u8; 12]),
            &vec![0u8; 65_508],
        ),
        Err(ProxyError::Framing(FramingError::Oversized))
    );
}

#[test]
fn opening_turn_reports_framing_and_cipher_errors() {
    let key = [1u8; 32];
    assert_eq!(
        transfer_data(ProxyMode::Server, ChannelType::Receiving, &key, &[0]),
        Err(ProxyError::Framing(FramingError::TruncatedHeader))
    );
    assert_eq!(
        transfer_data(ProxyMode::Server, ChannelType::Receiving, &key, &[0, 9, 1]),
        Err(ProxyError::Framing(FramingError::TruncatedBody))
    );
    assert_eq!(
        transfer_data(ProxyMode::Server, ChannelType::Receiving, &key, &[0, 3, 1, 2, 3]),
        Err(ProxyError::Crypto(CryptoError::TooShort))
    );
    let mut forged = vec![0u8, 40];
    forged.extend_from_slice(&[7u8; 40]);
    assert_eq!(
        transfer_data(ProxyMode::Client, ChannelType::Sending, &key, &forged),
        Err(ProxyError::Crypto(CryptoError::Authentication))
    );
}

#[test]
fn opening_turn_finishes_on_sealed_empty_chunk() {
    let key = [1u8; 32];
    let sealed = crypto::encrypt(&key, Vec::new()).unwrap();
    let mut wire = vec![0u8, 28];
    wire.extend_from_slice(&sealed);
    assert_eq!(
        transfer_data(ProxyMode::Server, ChannelType::Receiving, &key, &wire),
        Ok(Transfer {
            wire: Vec::new(),
            consumed: 30,
            finished: true
        })
    );
}

#[test]
fn full_standard_chunk_fits_one_frame_when_sealed() {
    let key = [1u8; 32];
    let turn = transfer_data(
        ProxyMode::Client,
        ChannelType::Receiving,
        &key,
        &vec![0x41u8; 1024],
    )
    .unwrap();
    assert_eq!(turn.wire.len(), 2 + 1024 + 28);
    assert_eq!(&turn.wire[..2], &[4u8, 28]);
    assert!(!turn.finished);
    let back = transfer_data(ProxyMode::Server, ChannelType::Receiving, &key, &turn.wire);
    assert_eq!(
        back,
        Ok(Transfer {
            wire: vec![0x41u8; 1024],
            consumed: 1054,
            finished: false
        })
    );
}
