use ed25519_dalek::{Signer, SigningKey};
use reprise_p2p::net::{Ipv4Addr, SocketAddrV4};
use reprise_p2p::text::decimal_text;
use reprise_p2p::udp::messages::{
    FromServerMessage, ParseError, ToServerRawMessage, ToServerSignedMessage,
};
use reprise_p2p::udp::notices::ServerNotice;

const SECRET: [u8; 32] = [7; 32];
const TIMESTAMP: i64 = 1_700_000_000_123;

fn public_key(secret: &[u8; 32]) -> [u8; 32] {
    SigningKey::from_bytes(secret).verifying_key().to_bytes()
}

fn signed_datagram(secret: &[u8; 32], timestamp: i64, payload: &[u8]) -> Vec<u8> {
    let mut content = timestamp.to_le_bytes().to_vec();
    content.extend_from_slice(payload);
    let signature = SigningKey::from_bytes(secret).sign(&content).to_bytes();
    let mut bytes = vec![1, 2];
    bytes.extend_from_slice(&timestamp.to_le_bytes());
    bytes.extend_from_slice(&signature);
    bytes.extend_from_slice(&public_key(secret));
    bytes.extend_from_slice(payload);
    bytes
}

fn request(keys: Vec<[u8; 32]>, session_id: u32) -> ToServerSignedMessage {
    ToServerSignedMessage::ConnectionRequest { peer_pubkeys: keys, session_id }
}

#[test]
fn connection_request_has_the_documented_layout() {
    let bytes = request(vec![[3; 32], [4; 32]], 0x0403_0201).to_bytes_at(&SECRET, TIMESTAMP);
    let mut payload = vec![1, 1, 2, 3, 4, 2];
    payload.extend_from_slice(&[3; 32]);
    payload.extend_from_slice(&[4; 32]);
    assert_eq!(bytes, signed_datagram(&SECRET, TIMESTAMP, &payload));
    assert_eq!(bytes.len(), 2 + 8 + 64 + 32 + 6 + 64);
}

#[test]
fn connection_request_round_trip() {
    for n in 1..=10usize {
        let keys: Vec<[u8; 32]> = (0..n).map(|i| [i as u8; 32]).collect();
        let bytes = request(keys.clone(), 77).to_bytes_at(&SECRET, TIMESTAMP);
        match ToServerSignedMessage::try_parse(&bytes) {
            Ok((ToServerSignedMessage::ConnectionRequest { peer_pubkeys, session_id }, from, at)) => {
                assert_eq!(peer_pubkeys, keys);
                assert_eq!(session_id, 77);
                assert_eq!(from, public_key(&SECRET));
                assert_eq!(at, TIMESTAMP);
            }
            Err(e) => panic!("{:?}", e),
        }
    }
}

#[test]
fn connection_request_without_peers_is_not_understood() {
    let bytes = request(vec![], 77).to_bytes_at(&SECRET, TIMESTAMP);
    assert_eq!(ToServerSignedMessage::try_parse(&bytes).err(), Some(ParseError::InvalidContentFormat));
}

#[test]
fn to_bytes_signs_at_the_current_time() {
    let before = chrono::Utc::now().timestamp_millis();
    let bytes = request(vec![[3; 32]], 5).to_bytes(&SECRET);
    let after = chrono::Utc::now().timestamp_millis();
    let (_, from, at) = match ToServerSignedMessage::try_parse(&bytes) {
        Ok(parsed) => parsed,
        Err(e) => panic!("{:?}", e),
    };
    assert_eq!(from, public_key(&SECRET));
    assert!(before <= at && at <= after);
}

#[test]
fn negative_timestamp_round_trip() {
    let bytes = request(vec![[3; 32]], 5).to_bytes_at(&SECRET, -5);
    assert_eq!(&bytes[2..10], &[0xfb, 0xff, 0xff, 0xff, 0xff, 0xff, 0xff, 0xff]);
    assert_eq!(ToServerSignedMessage::try_parse(&bytes).ok().map(|m| m.2), Some(-5));
}

#[test]
fn changed_content_fails_the_signature() {
    let good = request(vec![[3; 32]], 5).to_bytes_at(&SECRET, TIMESTAMP);
    for at in [2usize, 10, 110, good.len() - 1] {
        let mut bad = good.clone();
        bad[at] ^= 1;
        assert_eq!(ToServerSignedMessage::try_parse(&bad).err(), Some(ParseError::InvalidSignature));
    }
}

#[test]
fn impossible_key_is_refused() {
    let mut bytes = request(vec![[3; 32]], 5).to_bytes_at(&SECRET, TIMESTAMP);
    let mut impossible = [2u8; 32];
    impossible[31] = 0;
    let mut found = false;
    for b in 0..=255u8 {
        impossible[0] = b;
        if ed25519_dalek::VerifyingKey::from_bytes(&impossible).is_err() {
            found = true;
            break;
        }
    }
    assert!(found);
    bytes[74..106].copy_from_slice(&impossible);
    assert_eq!(
        ToServerSignedMessage::try_parse(&bytes).err(),
        Some(ParseError::InvalidContentFormat)
    );
}

#[test]
fn raw_message_errors() {
    assert_eq!(ToServerRawMessage::try_parse(&[]).err(), Some(ParseError::TooShort));
    assert_eq!(ToServerRawMessage::try_parse(&[1, 2]).err(), Some(ParseError::TooShort));
    assert_eq!(
        ToServerRawMessage::try_parse(&[1, 3, 0]).err(),
        Some(ParseError::UnsupportedVersion { cur: 2, remote: 3 })
    );
    assert_eq!(ToServerRawMessage::try_parse(&[9, 2, 0]).err(), Some(ParseError::InvalidMessageId(9)));
    assert_eq!(ToServerRawMessage::try_parse(&[1; 105]).err(), Some(ParseError::TooShort));
    let mut late = vec![1u8, 2];
    late.extend_from_slice(&i64::MAX.to_le_bytes());
    late.extend_from_slice(&[0; 96]);
    assert_eq!(ToServerRawMessage::try_parse(&late).err(), Some(ParseError::InvalidTimestamp));
}

#[test]
fn timestamps_reach_as_far_as_dates() {
    let with_timestamp = |t: i64| {
        let mut bytes = vec![1u8, 0];
        bytes.extend_from_slice(&t.to_le_bytes());
        bytes.extend_from_slice(&[0; 96]);
        ToServerRawMessage::try_parse(&bytes).err()
    };
    assert_eq!(with_timestamp(8_210_266_876_799_999), None);
    assert_eq!(with_timestamp(8_210_266_876_800_000), Some(ParseError::InvalidTimestamp));
    assert_eq!(with_timestamp(-8_334_601_228_800_000), None);
    assert_eq!(with_timestamp(-8_334_601_228_800_001), Some(ParseError::InvalidTimestamp));
}

#[test]
fn raw_message_round_trip() {
    let bytes = signed_datagram(&SECRET, TIMESTAMP, &[9, 8, 7]);
    match ToServerRawMessage::try_parse(&bytes) {
        Ok(m) => {
            assert_eq!(m.to_bytes(), bytes);
            let ToServerRawMessage::SignedMessage { pubkey, timestamp, payload, .. } = m;
            assert_eq!(pubkey, public_key(&SECRET));
            assert_eq!(timestamp, TIMESTAMP);
            assert_eq!(payload, vec![9, 8, 7]);
        }
        Err(e) => panic!("{:?}", e),
    }
}

#[test]
fn signed_payload_errors() {
    let parse = |payload: &[u8]| {
        ToServerSignedMessage::try_parse(&signed_datagram(&SECRET, TIMESTAMP, payload)).err()
    };
    assert_eq!(parse(&[]), Some(ParseError::TooShort));
    assert_eq!(parse(&[2; 40]), Some(ParseError::InvalidMessageId(2)));
    assert_eq!(parse(&[1; 36]), Some(ParseError::InvalidContentFormat));
    let mut eleven = vec![1, 0, 0, 0, 0, 11];
    eleven.extend_from_slice(&[0; 11 * 32]);
    assert_eq!(parse(&eleven), Some(ParseError::InvalidContentFormat));
}

#[test]
fn missing_keys_are_noticed() {
    let mut payload = vec![1, 0, 0, 0, 0, 2];
    payload.extend_from_slice(&[0; 63]);
    let bytes = signed_datagram(&SECRET, TIMESTAMP, &payload);
    assert!(ToServerSignedMessage::try_parse_checked(&bytes).is_none());
    payload.push(0);
    let bytes = signed_datagram(&SECRET, TIMESTAMP, &payload);
    assert!(matches!(ToServerSignedMessage::try_parse_checked(&bytes), Some(Ok(_))));
    // without a valid signature the keys are not looked at
    let mut unsigned = signed_datagram(&SECRET, TIMESTAMP, &payload[..69]);
    unsigned[10] ^= 1;
    assert!(matches!(
        ToServerSignedMessage::try_parse_checked(&unsigned),
        Some(Err(ParseError::InvalidSignature))
    ));
}

#[test]
fn acceptance_follows_key_and_signature() {
    let raw = || match ToServerRawMessage::try_parse(&signed_datagram(&SECRET, 1, &[5])) {
        Ok(raw) => raw,
        Err(e) => panic!("{:?}", e),
    };
    assert_eq!(
        ToServerSignedMessage::accept(raw(), false, true).err(),
        Some(ParseError::InvalidContentFormat)
    );
    assert_eq!(
        ToServerSignedMessage::accept(raw(), true, false).err(),
        Some(ParseError::InvalidSignature)
    );
    assert_eq!(
        ToServerSignedMessage::accept(raw(), true, true).err(),
        Some(ParseError::InvalidMessageId(5))
    );
}

fn address() -> SocketAddrV4 {
    SocketAddrV4 { ip: Ipv4Addr::new(10, 20, 30, 40), port: 0x1234 }
}

#[test]
fn initiate_connection_layout_and_round_trip() {
    let m = FromServerMessage::InitiateConnectionRequest {
        peer_pubkey: [9; 32],
        peer_address: address(),
        remote_session_id: 0x0a0b_0c0d,
        is_listener: true,
    };
    let bytes = m.to_bytes();
    let mut expected = vec![1];
    expected.extend_from_slice(&[9; 32]);
    expected.extend_from_slice(&[10, 20, 30, 40, 0x34, 0x12, 0x0d, 0x0c, 0x0b, 0x0a, 1]);
    assert_eq!(bytes, expected);
    match FromServerMessage::try_parse(&bytes) {
        Ok(FromServerMessage::InitiateConnectionRequest {
            peer_pubkey,
            peer_address,
            remote_session_id,
            is_listener,
        }) => {
            assert_eq!(peer_pubkey, [9; 32]);
            assert_eq!(peer_address, address());
            assert_eq!(remote_session_id, 0x0a0b_0c0d);
            assert!(is_listener);
        }
        _ => panic!("not read back"),
    }
}

#[test]
fn lost_connection_layout_and_round_trip() {
    let m = FromServerMessage::LostConnectionRequest { peer_pubkey: [8; 32], peer_address: address() };
    let bytes = m.to_bytes();
    let mut expected = vec![2];
    expected.extend_from_slice(&[8; 32]);
    expected.extend_from_slice(&[10, 20, 30, 40, 0x34, 0x12]);
    assert_eq!(bytes, expected);
    match FromServerMessage::try_parse(&bytes) {
        Ok(FromServerMessage::LostConnectionRequest { peer_pubkey, peer_address }) => {
            assert_eq!(peer_pubkey, [8; 32]);
            assert_eq!(peer_address, address());
        }
        _ => panic!("not read back"),
    }
}

#[test]
fn bytes_after_a_server_message_are_ignored() {
    let mut bytes = FromServerMessage::LostConnectionRequest {
        peer_pubkey: [8; 32],
        peer_address: address(),
    }
    .to_bytes();
    bytes.extend_from_slice(&[1, 2, 3]);
    assert!(matches!(
        FromServerMessage::try_parse(&bytes),
        Ok(FromServerMessage::LostConnectionRequest { peer_pubkey, peer_address })
            if peer_pubkey == [8; 32] && peer_address == address()
    ));
}

#[test]
fn from_server_errors() {
    assert_eq!(FromServerMessage::try_parse(&[]).err(), Some(ParseError::TooShort));
    assert_eq!(FromServerMessage::try_parse(&[1; 43]).err(), Some(ParseError::TooShort));
    assert!(FromServerMessage::try_parse(&[1; 44]).is_ok());
    assert_eq!(FromServerMessage::try_parse(&[2; 38]).err(), Some(ParseError::TooShort));
    assert!(FromServerMessage::try_parse(&[2; 39]).is_ok());
    assert_eq!(FromServerMessage::try_parse(&[7; 60]).err(), Some(ParseError::InvalidMessageId(7)));
}

#[test]
fn listener_flag_is_one() {
    for (flag, expected) in [(0u8, false), (1, true), (2, false)] {
        let mut bytes = vec![1u8; 44];
        bytes[43] = flag;
        match FromServerMessage::try_parse(&bytes) {
            Ok(FromServerMessage::InitiateConnectionRequest { is_listener, .. }) => {
                assert_eq!(is_listener, expected)
            }
            _ => panic!("not read"),
        }
    }
}

#[test]
fn notices_and_datagrams() {
    let notice = ServerNotice::InitiateConnectionRequest {
        peer_pubkey: [9; 32],
        peer_address: address(),
        remote_session_id: 3,
        is_listener: false,
    };
    let bytes = notice.datagram().unwrap();
    match ServerNotice::try_parse(&bytes) {
        Ok(ServerNotice::InitiateConnectionRequest { peer_address, is_listener, .. }) => {
            assert_eq!(peer_address, address());
            assert!(!is_listener);
        }
        _ => panic!("not read back"),
    }
    assert!(ServerNotice::NeedNewSession { old_session_id: 1 }.datagram().is_none());
    assert!(ServerNotice::ErrorSameIp { peer_pubkey: [1; 32] }.datagram().is_none());
    assert!(ServerNotice::Pong { payload: 1 }.datagram().is_none());
}

#[test]
fn parse_errors_in_words() {
    assert_eq!(ParseError::InvalidMessageId(0).message(), "Invalid message id: 0");
    assert_eq!(ParseError::InvalidMessageId(207).message(), "Invalid message id: 207");
    assert_eq!(
        ParseError::UnsupportedVersion { cur: 2, remote: 13 }.message(),
        "Unsupported protocol version! cur: 2, remote: 13"
    );
    assert_eq!(ParseError::TooShort.message(), "Message is too short");
    assert_eq!(ParseError::InvalidTimestamp.message(), "Invalid timestamp");
    assert_eq!(ParseError::InvalidContentFormat.message(), "Invalid message content format");
    assert_eq!(ParseError::InvalidSignature.message(), "Signature verification failed");
    for n in [9, 10, 45_678, 1_234_567_890, u32::MAX] {
        assert_eq!(decimal_text(n), n.to_string());
    }
}
