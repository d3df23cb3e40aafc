use coeus::frame::{advance_nonce, open_frame, seal_frame, StreamError, MAX_FRAME, TAG_LEN};
use coeus::handshake::{
    begin_handshake, check_handshake_payload, finish_handshake, handshake_message_len,
    handshake_parameters, handshake_turn, next_handshake_step, receive_handshake_message,
    HandshakeStep, HandshakeTurn,
};
use coeus::noise::{Handshake, Transport};
use coeus::packet::{DeployAccepted, DeployRequest, Packet};
use coeus::stream::{PlaintextBuffer, ReadState, ReadStep, WriteState};

const PSK: [u8; 32] = [0x42; 32];
const WRONG_PSK: [u8; 32] = [0x24; 32];

/// Delivers one side's handshake message to the other, as the socket would.
fn deliver(frame: &[u8], to: &mut Handshake) -> Result<(), StreamError> {
    let len = handshake_message_len([frame[0], frame[1]]);
    assert_eq!(len, frame.len() - 2);
    receive_handshake_message(to, &frame[2..])
}

/// Runs the handshake between a client and a server in memory; returns the
/// transports of client and server.
fn connect(
    client_psk: &[u8; 32],
    server_psk: &[u8; 32],
) -> Result<(Transport, Transport), StreamError> {
    let mut client = begin_handshake(client_psk, true)?;
    let mut server = begin_handshake(server_psk, false)?;
    loop {
        let client_step = next_handshake_step(&mut client)?;
        let server_step = next_handshake_step(&mut server)?;
        match (client_step, server_step) {
            (HandshakeStep::Finished, HandshakeStep::Finished) => break,
            (HandshakeStep::Send(frame), HandshakeStep::Receive) => deliver(&frame, &mut server)?,
            (HandshakeStep::Receive, HandshakeStep::Send(frame)) => deliver(&frame, &mut client)?,
            (HandshakeStep::Send(frame), HandshakeStep::Finished) => deliver(&frame, &mut server)?,
            (HandshakeStep::Finished, HandshakeStep::Send(frame)) => deliver(&frame, &mut client)?,
            _ => panic!("both sides wait for each other"),
        }
    }
    Ok((finish_handshake(client)?, finish_handshake(server)?))
}

/// Writes all of `payload` through the writer, as `write_all` does, and
/// returns the frames.
fn write_all(writer: &mut WriteState, transport: &Transport, payload: &[u8]) -> Vec<Vec<u8>> {
    let mut frames = Vec::new();
    let mut rest = payload;
    while !rest.is_empty() {
        let (count, frame) = writer.seal_chunk(transport, rest).unwrap();
        assert!(count > 0);
        frames.push(frame.unwrap());
        rest = &rest[count..];
    }
    frames
}

/// Reads exactly `len` bytes from the frames, in buffers of `capacity` bytes.
fn read_exact(
    reader: &mut ReadState,
    transport: &Transport,
    frames: &mut std::collections::VecDeque<Vec<u8>>,
    len: usize,
    capacity: usize,
) -> Vec<u8> {
    let mut out = Vec::new();
    while out.len() < len {
        let want = capacity.min(len - out.len());
        let chunk = match reader.read(want) {
            ReadStep::Ready(bytes) => bytes,
            ReadStep::NeedFrame => {
                let frame = frames
                    .pop_front()
                    .expect("stream ended before the complete payload arrived");
                reader.accept_frame(transport, &frame, want).unwrap()
            }
        };
        assert!(chunk.len() > 0, "stream ended before the complete payload arrived");
        assert!(chunk.len() <= want);
        out.extend_from_slice(&chunk);
    }
    out
}

fn echo(payload: Vec<u8>) -> Vec<u8> {
    let (client, server) = connect(&PSK, &PSK).unwrap();
    let mut client_writer = WriteState::new();
    let mut client_reader = ReadState::new();
    let mut server_writer = WriteState::new();
    let mut server_reader = ReadState::new();

    let mut to_server: std::collections::VecDeque<Vec<u8>> =
        write_all(&mut client_writer, &client, &payload).into();
    let received = read_exact(&mut server_reader, &server, &mut to_server, payload.len(), 8192);
    assert_eq!(received, payload);

    let mut to_client: std::collections::VecDeque<Vec<u8>> =
        write_all(&mut server_writer, &server, &received).into();
    read_exact(&mut client_reader, &client, &mut to_client, payload.len(), 8192)
}

#[test]
fn round_trips_plaintext_through_an_encrypted_stream() {
    let payload = b"deploy request".to_vec();
    assert_eq!(echo(payload.clone()), payload);
}

#[test]
fn splits_large_writes_across_encrypted_frames() {
    let frame_payload = MAX_FRAME - TAG_LEN;
    let payload: Vec<u8> = (0..(frame_payload * 2 + 17))
        .map(|index| (index % 251) as u8)
        .collect();

    let (client, _server) = connect(&PSK, &PSK).unwrap();
    let mut writer = WriteState::new();
    let frames = write_all(&mut writer, &client, &payload);
    assert_eq!(
        frames.iter().map(|frame| frame.len()).collect::<Vec<_>>(),
        vec![MAX_FRAME, MAX_FRAME, 17 + TAG_LEN]
    );
    assert_eq!(writer.nonce(), 3);

    assert_eq!(echo(payload.clone()), payload);
}

#[test]
fn serves_plaintext_in_small_read_buffers() {
    let payload = b"response payload spanning several reads".to_vec();
    let (client, server) = connect(&PSK, &PSK).unwrap();
    let mut writer = WriteState::new();
    let mut reader = ReadState::new();
    let mut frames: std::collections::VecDeque<Vec<u8>> =
        write_all(&mut writer, &server, &payload).into();

    let mut actual = Vec::new();
    while actual.len() < payload.len() {
        let chunk = match reader.read(3) {
            ReadStep::Ready(bytes) => bytes,
            ReadStep::NeedFrame => {
                let frame = frames.pop_front().unwrap();
                reader.accept_frame(&client, &frame, 3).unwrap()
            }
        };
        assert!(
            chunk.len() > 0,
            "stream ended before the complete payload arrived"
        );
        assert!(chunk.len() <= 3);
        actual.extend_from_slice(&chunk);
    }

    assert_eq!(actual, payload);
    assert_eq!(reader.nonce(), 1);
}

#[test]
fn rejects_a_mismatched_psk() {
    let result = connect(&WRONG_PSK, &PSK);
    assert!(result.is_err(), "a mismatched PSK must fail the handshake");
    assert_eq!(result.err(), Some(StreamError::Noise));
}

#[test]
fn empty_writes_are_noops() {
    let (client, server) = connect(&PSK, &PSK).unwrap();
    let mut writer = WriteState::new();
    assert_eq!(writer.seal_chunk(&client, &[]), Ok((0, None)));
    assert_eq!(writer.nonce(), 0);
    let frames = write_all(&mut writer, &client, b"x");
    assert_eq!(frames.len(), 1);

    let mut reader = ReadState::new();
    assert!(matches!(reader.read(1), ReadStep::NeedFrame));
    let received = reader.accept_frame(&server, &frames[0], 1).unwrap();
    assert_eq!(received, [b'x']);
}

#[test]
fn round_trips_registered_packets() {
    let (client, server) = connect(&PSK, &PSK).unwrap();
    let mut client_writer = WriteState::new();
    let mut client_reader = ReadState::new();
    let mut server_writer = WriteState::new();
    let mut server_reader = ReadState::new();

    let frame = client_writer
        .seal_packet(
            &client,
            Packet::DeployRequest(Box::new(DeployRequest {
                rev: "abc123".into(),
                dry_run: true,
                clean_substituters: false,
            })),
        )
        .unwrap();

    match server_reader.receive(&server, &frame).unwrap() {
        Packet::DeployRequest(request) => {
            assert_eq!(request.rev, "abc123");
            assert!(request.dry_run);
        }
        Packet::DeployAccepted(_) => panic!("unexpected packet"),
    }

    let frame = server_writer
        .seal_packet(
            &server,
            Packet::DeployAccepted(Box::new(DeployAccepted {
                message: "accepted".into(),
            })),
        )
        .unwrap();

    match client_reader.receive(&client, &frame).unwrap() {
        Packet::DeployAccepted(accepted) => {
            assert_eq!(accepted.message, "accepted");
        }
        Packet::DeployRequest(_) => panic!("unexpected packet"),
    }
}

#[test]
fn frames_open_only_under_their_own_nonce() {
    let (client, server) = connect(&PSK, &PSK).unwrap();
    let mut send_nonce = 0u64;
    let first = seal_frame(&client, &mut send_nonce, b"one").unwrap();
    let second = seal_frame(&client, &mut send_nonce, b"two").unwrap();
    assert_eq!(send_nonce, 2);
    assert_eq!(first.len(), 3 + TAG_LEN);

    // Out of order: the second frame does not open under nonce 0, and the
    // receiving nonce stays where it was.
    let mut receive_nonce = 0u64;
    assert_eq!(open_frame(&server, &mut receive_nonce, &second), Err(StreamError::Noise));
    assert_eq!(receive_nonce, 0);
    assert_eq!(open_frame(&server, &mut receive_nonce, &first).unwrap(), b"one");
    assert_eq!(open_frame(&server, &mut receive_nonce, &second).unwrap(), b"two");
    assert_eq!(receive_nonce, 2);

    // A tampered frame is refused.
    let mut tampered = seal_frame(&client, &mut send_nonce, b"three").unwrap();
    tampered[0] ^= 1;
    assert_eq!(open_frame(&server, &mut receive_nonce, &tampered), Err(StreamError::Noise));
    assert_eq!(open_frame(&server, &mut receive_nonce, &[0u8; 3]), Err(StreamError::Noise));
}

#[test]
fn packets_too_large_for_one_frame_are_refused() {
    let (client, _server) = connect(&PSK, &PSK).unwrap();
    let mut nonce = 0u64;
    let large = vec![0u8; MAX_FRAME - TAG_LEN + 1];
    assert_eq!(seal_frame(&client, &mut nonce, &large), Err(StreamError::PacketTooLarge));
    assert_eq!(nonce, 0);
    let largest = vec![0u8; MAX_FRAME - TAG_LEN];
    assert_eq!(seal_frame(&client, &mut nonce, &largest).unwrap().len(), MAX_FRAME);

    let mut writer = WriteState::new();
    let request = Packet::DeployRequest(Box::new(DeployRequest {
        rev: "x".repeat(MAX_FRAME),
        dry_run: false,
        clean_substituters: false,
    }));
    assert_eq!(writer.seal_packet(&client, request), Err(StreamError::PacketTooLarge));
    assert_eq!(writer.nonce(), 0);
}

#[test]
fn an_exhausted_nonce_stops_the_direction() {
    let mut nonce = u64::MAX - 1;
    assert_eq!(advance_nonce(&mut nonce), Ok(()));
    assert_eq!(nonce, u64::MAX);
    assert_eq!(advance_nonce(&mut nonce), Err(StreamError::NonceExhausted));
    assert_eq!(nonce, u64::MAX);

    let (client, _server) = connect(&PSK, &PSK).unwrap();
    assert_eq!(seal_frame(&client, &mut nonce, b"late"), Err(StreamError::Noise));
    assert_eq!(nonce, u64::MAX);
}

#[test]
fn plaintext_buffer_keeps_order_and_refuses_empty_frames() {
    let mut buffer = PlaintextBuffer::new();
    assert!(matches!(buffer.read(0), ReadStep::Ready(bytes) if bytes.is_empty()));
    assert!(matches!(buffer.read(4), ReadStep::NeedFrame));
    assert_eq!(buffer.push_frame(&[], 4), Err(StreamError::EmptyFrame));
    assert_eq!(buffer.push_frame(b"abcdef", 4), Ok(b"abcd".to_vec()));
    assert_eq!(buffer.len(), 2);
    assert_eq!(buffer.push_frame(b"gh", 3), Ok(b"efg".to_vec()));
    assert!(matches!(buffer.read(10), ReadStep::Ready(bytes) if bytes == b"h"));
    assert_eq!(buffer.len(), 0);
}

#[test]
fn handshake_turns_and_payloads() {
    assert_eq!(handshake_turn(true, true), HandshakeTurn::Done);
    assert_eq!(handshake_turn(true, false), HandshakeTurn::Done);
    assert_eq!(handshake_turn(false, true), HandshakeTurn::Write);
    assert_eq!(handshake_turn(false, false), HandshakeTurn::Read);
    assert_eq!(check_handshake_payload(0), Ok(()));
    assert_eq!(
        check_handshake_payload(5),
        Err(StreamError::UnexpectedHandshakePayload)
    );
    assert_eq!(handshake_message_len([0x01, 0x02]), 258);
    assert_eq!(handshake_message_len([0xff, 0xff]), 65535);
}

#[test]
fn handshake_messages_carry_their_length_big_endian() {
    let mut client = begin_handshake(&PSK, true).unwrap();
    match next_handshake_step(&mut client).unwrap() {
        HandshakeStep::Send(frame) => {
            assert_eq!(handshake_message_len([frame[0], frame[1]]), frame.len() - 2);
            // NNpsk0's first message: the ephemeral key and an empty, tagged payload
            assert_eq!(frame.len() - 2, 32 + 16);
        }
        _ => panic!("the initiator writes first"),
    }
    let mut server = begin_handshake(&PSK, false).unwrap();
    assert!(matches!(next_handshake_step(&mut server).unwrap(), HandshakeStep::Receive));
}

#[test]
fn handshake_parameters_name_the_protocol_prologue_and_key_position() {
    let parameters = handshake_parameters();
    assert_eq!(parameters.protocol, "Noise_NNpsk0_25519_ChaChaPoly_BLAKE2s");
    assert_eq!(&parameters.prologue, b"coeus-control/v1");
    assert_eq!(parameters.psk_location, 0);
}

#[test]
fn handshake_finishes_after_two_messages_and_refuses_early_transport() {
    let mut client = begin_handshake(&PSK, true).unwrap();
    let mut server = begin_handshake(&PSK, false).unwrap();
    // the responder has nothing to send before the first message
    assert!(matches!(next_handshake_step(&mut server).unwrap(), HandshakeStep::Receive));
    let first = match next_handshake_step(&mut client).unwrap() {
        HandshakeStep::Send(frame) => frame,
        _ => panic!("the initiator writes first"),
    };
    // after writing, the initiator waits for the reply
    assert!(matches!(next_handshake_step(&mut client).unwrap(), HandshakeStep::Receive));
    deliver(&first, &mut server).unwrap();
    let second = match next_handshake_step(&mut server).unwrap() {
        HandshakeStep::Send(frame) => frame,
        _ => panic!("the responder writes second"),
    };
    assert!(matches!(next_handshake_step(&mut server).unwrap(), HandshakeStep::Finished));
    deliver(&second, &mut client).unwrap();
    assert!(matches!(next_handshake_step(&mut client).unwrap(), HandshakeStep::Finished));
    assert!(finish_handshake(client).is_ok());
    assert!(finish_handshake(server).is_ok());

    let unfinished = begin_handshake(&PSK, true).unwrap();
    assert_eq!(finish_handshake(unfinished).err(), Some(StreamError::Noise));
}

#[test]
fn handshake_message_out_of_turn_is_refused() {
    let mut client = begin_handshake(&PSK, true).unwrap();
    // the initiator writes first, so a message arriving now is refused
    assert_eq!(receive_handshake_message(&mut client, &[0u8; 48]), Err(StreamError::Noise));
    assert!(matches!(next_handshake_step(&mut client).unwrap(), HandshakeStep::Send(_)));
}

#[test]
fn reads_hand_out_several_frames_in_order() {
    let (client, server) = connect(&PSK, &PSK).unwrap();
    let mut writer = WriteState::new();
    let mut frames: std::collections::VecDeque<Vec<u8>> = std::collections::VecDeque::new();
    for part in [&b"first "[..], &b"second "[..], &b"third"[..]] {
        frames.extend(write_all(&mut writer, &client, part));
    }
    assert_eq!(frames.len(), 3);

    let mut reader = ReadState::new();
    let received = read_exact(&mut reader, &server, &mut frames, 18, 4);
    assert_eq!(received, b"first second third".to_vec());
    assert_eq!(reader.nonce(), 3);
    assert!(matches!(reader.read(4), ReadStep::NeedFrame));
}

#[test]
fn handshake_message_with_a_payload_is_refused() {
    // a peer that speaks the same protocol but puts one byte in its first message
    let params: snow::params::NoiseParams = "Noise_NNpsk0_25519_ChaChaPoly_BLAKE2s".parse().unwrap();
    let mut peer = snow::Builder::new(params)
        .prologue(b"coeus-control/v1")
        .unwrap()
        .psk(0, &PSK)
        .unwrap()
        .build_initiator()
        .unwrap();
    let mut message = vec![0u8; 65535];
    let len = peer.write_message(b"x", &mut message).unwrap();
    assert_eq!(len, 48 + 1);

    let mut server = begin_handshake(&PSK, false).unwrap();
    assert_eq!(
        receive_handshake_message(&mut server, &message[..len]),
        Err(StreamError::UnexpectedHandshakePayload)
    );
}

#[test]
fn sealing_a_full_frame_succeeds_and_uses_one_nonce() {
    let (client, server) = connect(&PSK, &PSK).unwrap();
    let mut writer = WriteState::new();
    let payload = vec![7u8; MAX_FRAME - TAG_LEN];
    let (count, frame) = writer.seal_chunk(&client, &payload).unwrap();
    let frame = frame.unwrap();
    assert_eq!(count, MAX_FRAME - TAG_LEN);
    assert_eq!(frame.len(), MAX_FRAME);
    assert_eq!(writer.nonce(), 1);

    // the frame is the encryption, not the plaintext
    assert_ne!(&frame[..count], &payload[..]);

    let mut reader = ReadState::new();
    // a frame changed in one byte does not open, and the nonce stays
    let mut tampered = frame.clone();
    tampered[0] ^= 1;
    assert_eq!(reader.accept_frame(&server, &tampered, MAX_FRAME), Err(StreamError::Noise));
    assert_eq!(reader.nonce(), 0);
    let received = reader.accept_frame(&server, &frame, MAX_FRAME).unwrap();
    assert_eq!(received, payload);
    assert_eq!(reader.nonce(), 1);
}
