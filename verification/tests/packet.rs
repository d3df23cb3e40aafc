use coeus::envelope::{decode_packet, encode_packet, PacketEnvelope};
use coeus::packet::{
    DeployAccepted, DeployRequest, Packet, ProtocolError, DEPLOY_ACCEPTED_KIND,
    DEPLOY_REQUEST_KIND, PROTOCOL_VERSION,
};

fn request(rev: &str, dry_run: bool, clean_substituters: bool) -> Packet {
    Packet::DeployRequest(Box::new(DeployRequest {
        rev: rev.into(),
        dry_run,
        clean_substituters,
    }))
}

fn accepted(message: &str) -> Packet {
    Packet::DeployAccepted(Box::new(DeployAccepted {
        message: message.into(),
    }))
}

#[test]
fn packet_round_trips_with_stable_kind() {
    let packet = request("abc123", true, false);

    assert_eq!(packet.kind(), 0x0100);

    // The frame plaintext is the envelope: the version byte, then the packet
    // (its kind as a varint, then its payload with a varint length).
    let encoded = encode_packet(packet).unwrap();
    assert_eq!(
        encoded,
        vec![
            0x01, 0x80, 0x02, 0x09, 0x06, b'a', b'b', b'c', b'1', b'2', b'3', 0x01, 0x00
        ]
    );
    let decoded = decode_packet(&encoded).unwrap();

    match decoded {
        Packet::DeployRequest(request) => {
            assert_eq!(request.rev, "abc123");
            assert!(request.dry_run);
            assert!(!request.clean_substituters);
        }
        Packet::DeployAccepted(_) => panic!("decoded the wrong packet variant"),
    }
}

#[test]
fn packet_envelope_round_trips() {
    let envelope = PacketEnvelope::new(accepted("accepted"));

    let encoded = envelope.encode().unwrap();
    let decoded = PacketEnvelope::decode(&encoded).unwrap();
    decoded.validate().unwrap();

    assert_eq!(decoded.packet.kind(), 0x0101);
    match decoded.packet {
        Packet::DeployAccepted(accepted) => assert_eq!(accepted.message, "accepted"),
        Packet::DeployRequest(_) => panic!("decoded the wrong packet variant"),
    }
}

#[test]
fn packet_kinds_are_fixed() {
    assert_eq!(request("", false, false).kind(), DEPLOY_REQUEST_KIND);
    assert_eq!(accepted("").kind(), DEPLOY_ACCEPTED_KIND);
    assert_eq!(DEPLOY_REQUEST_KIND, 0x0100);
    assert_eq!(DEPLOY_ACCEPTED_KIND, 0x0101);
    let from_request: Packet = DeployRequest {
        rev: "main".into(),
        dry_run: false,
        clean_substituters: true,
    }
    .into();
    assert_eq!(from_request.kind(), 0x0100);
    let from_accepted: Packet = DeployAccepted { message: "ok".into() }.into();
    assert_eq!(from_accepted.kind(), 0x0101);
}

#[test]
fn acceptance_payload_is_the_postcard_string() {
    let payload = accepted("ok").encode_payload().unwrap();
    assert_eq!(payload, vec![0x02, b'o', b'k']);
    let encoded = encode_packet(accepted("ok")).unwrap();
    assert_eq!(encoded, vec![0x01, 0x81, 0x02, 0x03, 0x02, b'o', b'k']);
}

#[test]
fn envelope_of_another_version_is_refused() {
    let mut envelope = PacketEnvelope::new(accepted("hi"));
    assert_eq!(envelope.protocol_version, PROTOCOL_VERSION);
    assert_eq!(envelope.validate(), Ok(()));
    envelope.protocol_version = 2;
    assert_eq!(envelope.validate(), Err(ProtocolError::UnsupportedVersion(2)));
    let encoded = envelope.encode().unwrap();
    assert!(matches!(
        decode_packet(&encoded),
        Err(ProtocolError::UnsupportedVersion(2))
    ));
}

#[test]
fn unknown_packet_kind_is_refused() {
    // version 1, kind 0x0200, empty payload
    let bytes = vec![0x01, 0x80, 0x04, 0x00];
    assert!(matches!(
        decode_packet(&bytes),
        Err(ProtocolError::UnknownKind(0x0200))
    ));
    assert!(matches!(
        Packet::decode(7, &[]),
        Err(ProtocolError::UnknownKind(7))
    ));
}

#[test]
fn malformed_packets_are_refused() {
    assert!(matches!(decode_packet(&[]), Err(ProtocolError::Decode)));
    // a request whose payload ends early
    let bytes = vec![0x01, 0x80, 0x02, 0x02, 0x06, b'a'];
    assert!(matches!(decode_packet(&bytes), Err(ProtocolError::Decode)));
    // a request whose flag is not a bool
    assert!(matches!(
        Packet::decode(DEPLOY_REQUEST_KIND, &[0x00, 0x07, 0x00]),
        Err(ProtocolError::Decode)
    ));
}

#[test]
fn packet_encodes_as_its_kind_then_its_payload() {
    let packet = request("abc123", true, false);
    // the payload alone: the revision with its varint length, then the flags
    let payload = packet.encode_payload().unwrap();
    assert_eq!(payload, vec![0x06, b'a', b'b', b'c', b'1', b'2', b'3', 0x01, 0x00]);

    // the packet after the envelope's version byte: the kind 0x0100 as a
    // varint, then the payload with its varint length
    let encoded = encode_packet(packet).unwrap();
    assert_eq!(encoded[0], PROTOCOL_VERSION);
    assert_eq!(
        &encoded[1..],
        &[0x80, 0x02, 0x09, 0x06, b'a', b'b', b'c', b'1', b'2', b'3', 0x01, 0x00]
    );

    let accepted_payload = accepted("ok").encode_payload().unwrap();
    assert_eq!(accepted_payload, vec![0x02, b'o', b'k']);
}
