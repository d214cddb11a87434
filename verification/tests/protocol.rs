use as2p_server::protocol::{audio_packet, goodbye_message, offer_message, parse_client_message, ClientMessage};

fn config(bitrate: i32, complexity: u8) -> Vec<u8> {
    let mut v = b"AS2P_CONFIG".to_vec();
    v.extend_from_slice(&bitrate.to_le_bytes());
    v.push(complexity);
    v
}

#[test]
fn parses_discover_alive_goodbye() {
    assert_eq!(parse_client_message(b"AS2P_DISCOVER"), ClientMessage::Discover);
    assert_eq!(parse_client_message(b"AS2P_DISCOVER and more"), ClientMessage::Discover);
    assert_eq!(parse_client_message(b"AS2P_ALIVE"), ClientMessage::Alive);
    assert_eq!(parse_client_message(b"AS2P_GOODBYE"), ClientMessage::Goodbye);
}

#[test]
fn parses_config() {
    assert_eq!(
        parse_client_message(&config(160_000, 5)),
        ClientMessage::Config { bitrate: 160_000, complexity: 5 }
    );
    assert_eq!(
        parse_client_message(&config(-1, 255)),
        ClientMessage::Config { bitrate: -1, complexity: 255 }
    );
    assert_eq!(
        parse_client_message(&config(i32::MIN, 0)),
        ClientMessage::Config { bitrate: i32::MIN, complexity: 0 }
    );
}

#[test]
fn short_or_foreign_datagrams_are_unrecognized() {
    assert_eq!(parse_client_message(b""), ClientMessage::Unrecognized);
    assert_eq!(parse_client_message(b"AS2P_DISCOVE"), ClientMessage::Unrecognized);
    assert_eq!(parse_client_message(b"AS2P_ALIV"), ClientMessage::Unrecognized);
    assert_eq!(parse_client_message(b"AS2P_GOODBY"), ClientMessage::Unrecognized);
    // A config needs 16 bytes.
    assert_eq!(parse_client_message(b"AS2P_CONFIG1234"), ClientMessage::Unrecognized);
    assert_eq!(parse_client_message(b"AS2P_AUDIO"), ClientMessage::Unrecognized);
    assert_eq!(parse_client_message(b"hello"), ClientMessage::Unrecognized);
}

#[test]
fn control_messages_are_their_tags() {
    assert_eq!(offer_message(), b"AS2P_OFFER".to_vec());
    assert_eq!(goodbye_message(), b"AS2P_GOODBYE".to_vec());
}

#[test]
fn audio_packet_layout() {
    let p = audio_packet(0x0102_0304_0506_0708, 42, &[9, 8, 7]);
    let mut expected = b"AS2P_AUDIO".to_vec();
    expected.extend_from_slice(&0x0102_0304_0506_0708u64.to_le_bytes());
    expected.extend_from_slice(&42u64.to_le_bytes());
    expected.extend_from_slice(&[9, 8, 7]);
    assert_eq!(p, expected);
    assert_eq!(p.len(), 29);
}

#[test]
fn audio_packet_header_reads_back() {
    let p = audio_packet(u64::MAX, 1_000, &[]);
    assert_eq!(p.len(), 26);
    assert_eq!(&p[..10], b"AS2P_AUDIO");
    assert_eq!(u64::from_le_bytes(p[10..18].try_into().unwrap()), u64::MAX);
    assert_eq!(u64::from_le_bytes(p[18..26].try_into().unwrap()), 1_000);
}
