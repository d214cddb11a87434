//! The datagram protocol between the server and its client on UDP port 12345.
//!
//! Every datagram starts with an ASCII tag (`AS2P_` and a word). The client
//! sends `AS2P_DISCOVER`, `AS2P_CONFIG` (with a bitrate and a complexity),
//! `AS2P_ALIVE` and `AS2P_GOODBYE`; the server answers with `AS2P_OFFER`,
//! streams `AS2P_AUDIO` packets and says `AS2P_GOODBYE` when it stops.
use vstd::prelude::*;

use crate::bytes::{byte_span, i32_from_le, i32_le_bytes, le_bytes, le_i32, le_value, lemma_i32_le_roundtrip, lemma_le_roundtrip, u64_to_le};

verus! {

/// The UDP port both sides use.
pub const PROTOCOL_PORT: u16 = 12345;

/// Bytes of the header of an audio packet: tag, sequence number, timestamp.
pub const AUDIO_HEADER_LEN: usize = 26;

/// `AS2P_DISCOVER`
pub open spec fn discover_tag() -> Seq<u8> {
    seq![65u8, 83, 50, 80, 95, 68, 73, 83, 67, 79, 86, 69, 82]
}

/// `AS2P_OFFER`
pub open spec fn offer_tag() -> Seq<u8> {
    seq![65u8, 83, 50, 80, 95, 79, 70, 70, 69, 82]
}

/// `AS2P_CONFIG`
pub open spec fn config_tag() -> Seq<u8> {
    seq![65u8, 83, 50, 80, 95, 67, 79, 78, 70, 73, 71]
}

/// `AS2P_ALIVE`
pub open spec fn alive_tag() -> Seq<u8> {
    seq![65u8, 83, 50, 80, 95, 65, 76, 73, 86, 69]
}

/// `AS2P_GOODBYE`
pub open spec fn goodbye_tag() -> Seq<u8> {
    seq![65u8, 83, 50, 80, 95, 71, 79, 79, 68, 66, 89, 69]
}

/// `AS2P_AUDIO`
pub open spec fn audio_tag() -> Seq<u8> {
    seq![65u8, 83, 50, 80, 95, 65, 85, 68, 73, 79]
}

/// `b` begins with `prefix`.
pub open spec fn starts_with(b: Seq<u8>, prefix: Seq<u8>) -> bool {
    prefix.len() <= b.len() && b.subrange(0, prefix.len() as int) == prefix
}

/// What a datagram from the client asks for.
#[derive(Clone, Copy, Debug, PartialEq, Eq)]
pub enum ClientMessage {
    /// `AS2P_DISCOVER`: a client looks for a server.
    Discover,
    /// `AS2P_CONFIG`: start streaming (or change the stream) with this encoder setup.
    Config { bitrate: i32, complexity: i32 },
    /// `AS2P_ALIVE`: the client's heartbeat.
    Alive,
    /// `AS2P_GOODBYE`: the client leaves.
    Goodbye,
    /// Anything else.
    Unrecognized,
}

/// The meaning of a received datagram `b`. A config carries the bitrate as a
/// little-endian `i32` in bytes 11..15 and the complexity in byte 15; one
/// shorter than 16 bytes is not a config.
pub open spec fn client_message_of(b: Seq<u8>) -> ClientMessage {
    if starts_with(b, discover_tag()) {
        ClientMessage::Discover
    } else if b.len() >= 16 && starts_with(b, config_tag()) {
        ClientMessage::Config { bitrate: le_i32(b.subrange(11, 15)) as i32, complexity: b[15] as i32 }
    } else if starts_with(b, alive_tag()) {
        ClientMessage::Alive
    } else if starts_with(b, goodbye_tag()) {
        ClientMessage::Goodbye
    } else {
        ClientMessage::Unrecognized
    }
}

/// The bytes of a config request for `bitrate` and `complexity`.
pub open spec fn config_request(bitrate: i32, complexity: u8) -> Seq<u8> {
    config_tag() + i32_le_bytes(bitrate) + seq![complexity]
}

/// The bytes of an audio packet: tag, sequence number and timestamp (both
/// little-endian `u64`), then the encoded payload.
pub open spec fn audio_packet_bytes(sequence: u64, timestamp: u64, payload: Seq<u8>) -> Seq<u8> {
    audio_tag() + le_bytes(sequence as nat, 8) + le_bytes(timestamp as nat, 8) + payload
}

fn tag_discover() -> (res: Vec<u8>)
    ensures
        res@ == discover_tag(),
{
    vec![65u8, 83, 50, 80, 95, 68, 73, 83, 67, 79, 86, 69, 82]
}

fn tag_config() -> (res: Vec<u8>)
    ensures
        res@ == config_tag(),
{
    vec![65u8, 83, 50, 80, 95, 67, 79, 78, 70, 73, 71]
}

fn tag_alive() -> (res: Vec<u8>)
    ensures
        res@ == alive_tag(),
{
    vec![65u8, 83, 50, 80, 95, 65, 76, 73, 86, 69]
}

fn tag_goodbye() -> (res: Vec<u8>)
    ensures
        res@ == goodbye_tag(),
{
    vec![65u8, 83, 50, 80, 95, 71, 79, 79, 68, 66, 89, 69]
}

/// The datagram the server answers a discovery with.
pub fn offer_message() -> (res: Vec<u8>)
    ensures
        res@ == offer_tag(),
{
    vec![65u8, 83, 50, 80, 95, 79, 70, 70, 69, 82]
}

/// The datagram the server sends when it stops streaming.
pub fn goodbye_message() -> (res: Vec<u8>)
    ensures
        res@ == goodbye_tag(),
{
    tag_goodbye()
}

/// Whether `b` begins with `prefix`.
pub fn has_prefix(b: &[u8], prefix: &[u8]) -> (res: bool)
    ensures
        res == starts_with(b@, prefix@),
{
    if prefix.len() > b.len() {
        return false;
    }
    let mut i: usize = 0;
    while i < prefix.len()
        invariant
            prefix@.len() <= b@.len(),
            i <= prefix@.len(),
            forall|j: int| 0 <= j < i ==> b@[j] == prefix@[j],
        decreases prefix.len() - i,
    {
        if b[i] != prefix[i] {
            assert(b@.subrange(0, prefix@.len() as int)[i as int] != prefix@[i as int]);
            return false;
        }
        i = i + 1;
    }
    assert(b@.subrange(0, prefix@.len() as int) =~= prefix@);
    true
}

/// Reads what a received datagram asks for.
pub fn parse_client_message(b: &[u8]) -> (res: ClientMessage)
    ensures
        res == client_message_of(b@),
{
    if has_prefix(b, tag_discover().as_slice()) {
        ClientMessage::Discover
    } else if b.len() >= 16 && has_prefix(b, tag_config().as_slice()) {
        let bitrate = i32_from_le(b[11], b[12], b[13], b[14]);
        assert(b@.subrange(11, 15) =~= seq![b@[11], b@[12], b@[13], b@[14]]);
        ClientMessage::Config { bitrate, complexity: b[15] as i32 }
    } else if has_prefix(b, tag_alive().as_slice()) {
        ClientMessage::Alive
    } else if has_prefix(b, tag_goodbye().as_slice()) {
        ClientMessage::Goodbye
    } else {
        ClientMessage::Unrecognized
    }
}

/// Frames an encoded audio payload: `AS2P_AUDIO`, the sequence number and the
/// timestamp as little-endian `u64`, then the payload.
pub fn audio_packet(sequence: u64, timestamp: u64, payload: &[u8]) -> (res: Vec<u8>)
    requires
        payload@.len() + AUDIO_HEADER_LEN <= usize::MAX,
    ensures
        res@ == audio_packet_bytes(sequence, timestamp, payload@),
        res@.len() == AUDIO_HEADER_LEN + payload@.len(),
        starts_with(res@, audio_tag()),
        le_value(res@.subrange(10, 18)) == sequence,
        le_value(res@.subrange(18, 26)) == timestamp,
        res@.subrange(AUDIO_HEADER_LEN as int, AUDIO_HEADER_LEN + payload@.len()) == payload@,
{
    let mut packet: Vec<u8> = vec![65u8, 83, 50, 80, 95, 65, 85, 68, 73, 79];
    let mut seq_bytes = u64_to_le(sequence);
    let mut ts_bytes = u64_to_le(timestamp);
    packet.append(&mut seq_bytes);
    packet.append(&mut ts_bytes);
    let ghost header = packet@;
    let mut i: usize = 0;
    while i < payload.len()
        invariant
            i <= payload@.len(),
            packet@ == header + payload@.subrange(0, i as int),
        decreases payload.len() - i,
    {
        packet.push(payload[i]);
        assert(payload@.subrange(0, i + 1) =~= payload@.subrange(0, i as int).push(payload@[i as int]));
        i = i + 1;
    }
    assert(payload@.subrange(0, payload@.len() as int) =~= payload@);
    proof {
        lemma_audio_header_reads_back(sequence, timestamp, payload@);
    }
    packet
}

/// The tags are told apart by their sixth byte, so no datagram carries two of them,
/// and each request the client sends reads back as what it asked for.
pub proof fn lemma_requests_read_back(bitrate: i32, complexity: u8, rest: Seq<u8>)
    ensures
        client_message_of(discover_tag() + rest) == ClientMessage::Discover,
        client_message_of(alive_tag() + rest) == ClientMessage::Alive,
        client_message_of(goodbye_tag() + rest) == ClientMessage::Goodbye,
        client_message_of(config_request(bitrate, complexity) + rest) == (ClientMessage::Config {
            bitrate,
            complexity: complexity as i32,
        }),
{
    let d = discover_tag() + rest;
    assert(d.subrange(0, 13) =~= discover_tag());
    let a = alive_tag() + rest;
    assert(a.subrange(0, 10) =~= alive_tag());
    assert(a[5] != discover_tag()[5] && a[5] != config_tag()[5]);
    let g = goodbye_tag() + rest;
    assert(g.subrange(0, 12) =~= goodbye_tag());
    assert(g[5] != discover_tag()[5] && g[5] != config_tag()[5] && g[5] != alive_tag()[5]);
    lemma_i32_le_roundtrip(bitrate);
    let c = config_request(bitrate, complexity) + rest;
    assert(c.len() >= 16);
    assert(c.subrange(0, 11) =~= config_tag());
    assert(c[5] != discover_tag()[5]);
    assert(c.subrange(11, 15) =~= i32_le_bytes(bitrate));
    assert(c[15] == complexity);
}

/// The header of an audio packet reads back as the sequence number and the
/// timestamp it was framed with, and the payload follows it unchanged.
pub proof fn lemma_audio_header_reads_back(sequence: u64, timestamp: u64, payload: Seq<u8>)
    ensures
        audio_packet_bytes(sequence, timestamp, payload).len() == AUDIO_HEADER_LEN + payload.len(),
        starts_with(audio_packet_bytes(sequence, timestamp, payload), audio_tag()),
        le_value(audio_packet_bytes(sequence, timestamp, payload).subrange(10, 18)) == sequence,
        le_value(audio_packet_bytes(sequence, timestamp, payload).subrange(18, 26)) == timestamp,
        audio_packet_bytes(sequence, timestamp, payload).subrange(
            AUDIO_HEADER_LEN as int,
            AUDIO_HEADER_LEN + payload.len(),
        ) == payload,
{
    assert(byte_span(8) == 0x1_0000_0000_0000_0000) by {
        reveal_with_fuel(byte_span, 9);
    }
    lemma_le_roundtrip(sequence as nat, 8);
    lemma_le_roundtrip(timestamp as nat, 8);
    let p = audio_packet_bytes(sequence, timestamp, payload);
    assert(p.subrange(0, 10) =~= audio_tag());
    assert(p.subrange(10, 18) =~= le_bytes(sequence as nat, 8));
    assert(p.subrange(18, 26) =~= le_bytes(timestamp as nat, 8));
    assert(p.subrange(26, 26 + payload.len() as int) =~= payload);
}

} // verus!
