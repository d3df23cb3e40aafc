//! The decisions of the Noise handshake that opens every encrypted stream.
//!
//! Both sides run `Noise_NNpsk0_25519_ChaChaPoly_BLAKE2s` with the prologue
//! `coeus-control/v1` and the shared key at position 0 (`handshake_parameters`).
//! The initiator writes the first of its two messages and the responder the
//! second (`lemma_handshake_turns`). Handshake messages carry no payload and
//! travel with a two-byte big-endian length prefix. The
//! socket work is the caller's: it sends what a `Send` step gives, and on a
//! `Receive` step reads a length prefix and that many bytes and hands them to
//! `receive_handshake_message`, until the step is `Finished`.

use vstd::prelude::*;

use crate::frame::{StreamError, MAX_FRAME};
use crate::noise::{
    advanced, build_initiator, build_responder, builder_prologue, builder_psk, handshake_done,
    handshake_finished, handshake_my_turn, handshake_read, handshake_write, into_stateless_transport,
    my_move, noise_builder, noise_protocol_name, parse_noise_params, Handshake, HandshakeModel,
    NoiseSetup, Transport, HANDSHAKE_OVERHEAD,
};

verus! {

/// The two bytes, big-endian, that announce a handshake message of `len`
/// bytes.
pub open spec fn length_prefix(len: int) -> Seq<u8> {
    seq![(len / 256) as u8, (len % 256) as u8]
}

/// What the handshake needs next.
pub enum HandshakeStep {
    /// Send these bytes: a length prefix and a handshake message.
    Send(Vec<u8>),
    /// Receive the peer's next handshake message.
    Receive,
    /// The handshake is complete.
    Finished,
}

/// What one side of the handshake does next, given whether the handshake
/// is finished and whether it is this side's turn to write.
#[derive(Debug, Clone, Copy, PartialEq, Eq, Structural)]
pub enum HandshakeTurn {
    /// Stop: the handshake is complete.
    Done,
    /// Write the next message.
    Write,
    /// Wait for the peer's next message.
    Read,
}

/// Decides the next move: nothing once finished, else write on this side's
/// turn and read otherwise.
pub fn handshake_turn(finished: bool, my_turn: bool) -> (turn: HandshakeTurn)
    ensures
        finished ==> turn == HandshakeTurn::Done,
        !finished && my_turn ==> turn == HandshakeTurn::Write,
        !finished && !my_turn ==> turn == HandshakeTurn::Read,
{
    if finished {
        HandshakeTurn::Done
    } else if my_turn {
        HandshakeTurn::Write
    } else {
        HandshakeTurn::Read
    }
}

/// Accepts a handshake message's payload length only when it is zero: the
/// handshake carries no data.
pub fn check_handshake_payload(len: usize) -> (result: Result<(), StreamError>)
    ensures
        len == 0 ==> result is Ok,
        len != 0 ==> result == Err::<(), StreamError>(StreamError::UnexpectedHandshakePayload),
{
    if len != 0 {
        return Err(StreamError::UnexpectedHandshakePayload);
    }
    Ok(())
}

/// The parameters that both sides hand to `snow`: the protocol name, the
/// prologue hashed into the handshake, and the position of the shared key in
/// the pattern.
pub struct HandshakeParameters {
    pub protocol: &'static str,
    pub prologue: [u8; 16],
    pub psk_location: u8,
}

/// The bytes of `coeus-control/v1`, the prologue of every handshake.
pub open spec fn handshake_prologue() -> Seq<u8> {
    seq![99u8, 111, 101, 117, 115, 45, 99, 111, 110, 116, 114, 111, 108, 47, 118, 49]
}

/// Where the shared key stands in the pattern: before its first token.
pub open spec fn handshake_psk_location() -> u8 {
    0
}

/// The protocol name, prologue and key position of this library's handshake.
pub fn handshake_parameters() -> (parameters: HandshakeParameters)
    ensures
        parameters.protocol@ == noise_protocol_name(),
        parameters.prologue@ == handshake_prologue(),
        parameters.psk_location == handshake_psk_location(),
{
    let parameters = HandshakeParameters {
        protocol: "Noise_NNpsk0_25519_ChaChaPoly_BLAKE2s",
        prologue: [99, 111, 101, 117, 115, 45, 99, 111, 110, 116, 114, 111, 108, 47, 118, 49],
        psk_location: 0,
    };
    assert(parameters.prologue@ =~= handshake_prologue());
    parameters
}

/// A handshake of one side, set up with `psk`, before any message.
pub open spec fn handshake_start(psk: Seq<u8>, initiator: bool) -> HandshakeModel {
    HandshakeModel {
        setup: NoiseSetup {
            name: noise_protocol_name(),
            prologue: Some(handshake_prologue()),
            psks: map![handshake_psk_location() => psk],
        },
        initiator,
        position: 0,
    }
}

/// Starts the handshake of one side: the initiator sends the first message.
/// It hands `snow` the parameters of `handshake_parameters` and the key.
pub fn begin_handshake(psk: &[u8; 32], initiator: bool) -> (state: Result<Handshake, StreamError>)
    ensures
        state is Ok,
        state matches Ok(s) ==> s.model() == handshake_start(psk@, initiator),
{
    let parameters = handshake_parameters();
    let protocol = match parse_noise_params(parameters.protocol) {
        Ok(protocol) => protocol,
        Err(_) => {
            return Err(StreamError::Noise);
        },
    };
    let builder = noise_builder(protocol);
    let builder = match builder_prologue(builder, &parameters.prologue) {
        Ok(builder) => builder,
        Err(_) => {
            return Err(StreamError::Noise);
        },
    };
    let builder = match builder_psk(builder, parameters.psk_location, psk) {
        Ok(builder) => builder,
        Err(_) => {
            return Err(StreamError::Noise);
        },
    };
    assert(builder.setup().psks =~= map![handshake_psk_location() => psk@]);
    let built = if initiator {
        build_initiator(builder)
    } else {
        build_responder(builder)
    };
    match built {
        Ok(state) => Ok(state),
        Err(_) => Err(StreamError::Noise),
    }
}

/// A handshake message of `len` bytes with its length prefix in front.
fn length_prefixed(message: &Vec<u8>, len: usize) -> (frame: Vec<u8>)
    requires
        len <= MAX_FRAME,
        len <= message@.len(),
    ensures
        frame@ == length_prefix(len as int) + message@.take(len as int),
{
    let mut frame: Vec<u8> = Vec::new();
    frame.push((len / 256) as u8);
    frame.push((len % 256) as u8);
    let mut i: usize = 0;
    while i < len
        invariant
            i <= len,
            len <= message@.len(),
            len <= MAX_FRAME,
            frame@ == length_prefix(len as int) + message@.take(i as int),
        decreases len - i,
    {
        frame.push(message[i]);
        assert(message@.take(i + 1) =~= message@.take(i as int).push(message@[i as int]));
        i = i + 1;
    }
    frame
}

/// Decides the next step of the handshake. Once every message is through it
/// is finished; otherwise, on the peer's turn it waits for the peer, and on
/// this side's turn the next (payload-free) handshake message is written and
/// returned with its length prefix, moving the handshake one message on.
pub fn next_handshake_step(state: &mut Handshake) -> (step: Result<HandshakeStep, StreamError>)
    requires
        old(state).model().setup.name == noise_protocol_name(),
    ensures
        (step matches Ok(HandshakeStep::Finished)) <==> handshake_done(old(state).model()),
        (step matches Ok(HandshakeStep::Receive)) <==> !handshake_done(old(state).model())
            && !my_move(old(state).model()),
        (step matches Ok(HandshakeStep::Send(_))) ==> !handshake_done(old(state).model())
            && my_move(old(state).model()),
        step matches Err(e) ==> e == StreamError::Noise && !handshake_done(old(state).model())
            && my_move(old(state).model()),
        step matches Ok(HandshakeStep::Send(_)) ==> final(state).model() == advanced(old(state).model()),
        !(step matches Ok(HandshakeStep::Send(_))) ==> final(state).model() == old(state).model(),
        step matches Ok(HandshakeStep::Send(frame)) ==> frame@.len() == 2 + HANDSHAKE_OVERHEAD
            && frame@.take(2) == length_prefix(HANDSHAKE_OVERHEAD as int),
{
    let finished = handshake_finished(state);
    let my_turn = handshake_my_turn(state);
    match handshake_turn(finished, my_turn) {
        HandshakeTurn::Done => {
            return Ok(HandshakeStep::Finished);
        },
        HandshakeTurn::Read => {
            return Ok(HandshakeStep::Receive);
        },
        HandshakeTurn::Write => {},
    }
    let mut message: Vec<u8> = vec![0u8; MAX_FRAME];
    let no_payload: Vec<u8> = Vec::new();
    let len = match handshake_write(state, no_payload.as_slice(), &mut message) {
        Ok(len) => len,
        Err(_) => {
            return Err(StreamError::Noise);
        },
    };
    let frame = length_prefixed(&message, len);
    assert(frame@.take(2) =~= length_prefix(len as int));
    Ok(HandshakeStep::Send(frame))
}

/// The length that a two-byte big-endian prefix announces.
pub fn handshake_message_len(prefix: [u8; 2]) -> (len: usize)
    ensures
        len == prefix[0] * 256 + prefix[1],
{
    (prefix[0] as usize) * 256 + (prefix[1] as usize)
}

/// Reads the peer's handshake message, which moves the handshake one
/// message on; one that carries a payload (is longer than the ephemeral key
/// and the tag) is refused after it is read.
pub fn receive_handshake_message(state: &mut Handshake, message: &[u8]) -> (result: Result<(), StreamError>)
    requires
        old(state).model().setup.name == noise_protocol_name(),
    ensures
        message@.len() > MAX_FRAME ==> result == Err::<(), StreamError>(StreamError::Noise),
        handshake_done(old(state).model()) || my_move(old(state).model()) ==> result == Err::<(), StreamError>(StreamError::Noise),
        result matches Err(e) ==> e == StreamError::Noise || e == StreamError::UnexpectedHandshakePayload,
        result == Err::<(), StreamError>(StreamError::Noise) ==> final(state).model() == old(state).model(),
        result != Err::<(), StreamError>(StreamError::Noise) ==> final(state).model() == advanced(old(state).model()),
        result is Ok ==> message@.len() == HANDSHAKE_OVERHEAD,
        result == Err::<(), StreamError>(StreamError::UnexpectedHandshakePayload) ==> message@.len() > HANDSHAKE_OVERHEAD,
{
    let mut payload: Vec<u8> = vec![0u8; MAX_FRAME];
    let len = match handshake_read(state, message, &mut payload) {
        Ok(len) => len,
        Err(_) => {
            return Err(StreamError::Noise);
        },
    };
    check_handshake_payload(len)
}

/// Turns a finished handshake into the transport state of both directions;
/// an unfinished one is refused.
pub fn finish_handshake(state: Handshake) -> (transport: Result<Transport, StreamError>)
    requires
        state.model().setup.name == noise_protocol_name(),
    ensures
        (transport is Ok) <==> handshake_done(state.model()),
        transport matches Ok(t) ==> t.protocol() == noise_protocol_name(),
        transport matches Err(e) ==> e == StreamError::Noise,
{
    match into_stateless_transport(state) {
        Ok(transport) => Ok(transport),
        Err(_) => Err(StreamError::Noise),
    }
}

/// Of two sides started with the same key, the initiator writes the first
/// message and the responder the second, after which both are finished.
pub proof fn lemma_handshake_turns(psk: Seq<u8>)
    ensures
        my_move(handshake_start(psk, true)),
        !my_move(handshake_start(psk, false)),
        !handshake_done(handshake_start(psk, true)),
        !my_move(advanced(handshake_start(psk, true))),
        my_move(advanced(handshake_start(psk, false))),
        !handshake_done(advanced(handshake_start(psk, true))),
        handshake_done(advanced(advanced(handshake_start(psk, true)))),
        handshake_done(advanced(advanced(handshake_start(psk, false)))),
{
}

/// The length prefix of a handshake message reads back as its length.
pub proof fn lemma_length_prefix_round_trip(len: int)
    requires
        0 <= len <= MAX_FRAME,
    ensures
        length_prefix(len)[0] * 256 + length_prefix(len)[1] == len,
{
}

} // verus!
