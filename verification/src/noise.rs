//! The calls into `snow`, the Noise protocol implementation, that the
//! encrypted stream makes.
//!
//! Handshake and transport states are opaque here: what they compute depends
//! on key material that lives inside them. A handshake is held together with
//! what is known of it (how it was set up, its side, how many messages are
//! through), which only the calls below change. The contracts state what the
//! `snow` source shows about that, about lengths, nonces and errors, and
//! nothing about the bytes that encryption produces.

use vstd::prelude::*;

verus! {

/// The parsed name of a Noise protocol (pattern, DH, cipher, hash).
#[verifier::external_type_specification]
#[verifier::external_body]
pub struct ExNoiseParams(snow::params::NoiseParams);

/// A builder for a Noise handshake, borrowing the prologue and keys it is given.
#[verifier::external_type_specification]
#[verifier::external_body]
pub struct ExNoiseBuilder<'a>(snow::Builder<'a>);

/// A Noise handshake in progress.
#[verifier::external_type_specification]
#[verifier::external_body]
pub struct ExHandshakeState(snow::HandshakeState);

/// The two transport cipher states that a finished handshake splits into;
/// the caller supplies the nonce of every message.
#[verifier::external_type_specification]
#[verifier::external_body]
pub struct ExStatelessTransportState(snow::StatelessTransportState);

/// The error that every fallible `snow` call returns.
#[verifier::external_type_specification]
#[verifier::external_body]
pub struct ExNoiseError(snow::Error);

/// Largest Noise message, in bytes.
pub const NOISE_MAX_MESSAGE: usize = 65535;

/// Length of the authentication tag that transport encryption appends.
pub const NOISE_TAG_LEN: usize = 16;

/// What each handshake message of this library's protocol adds to its
/// payload: the 32-byte ephemeral key, and the 16-byte tag of the payload,
/// which is encrypted in both messages (the first is keyed by the shared key,
/// the second by the ephemeral keys as well).
pub const HANDSHAKE_OVERHEAD: usize = 48;

/// The Noise protocol that both ends of every stream speak.
pub open spec fn noise_protocol_name() -> Seq<char> {
    "Noise_NNpsk0_25519_ChaChaPoly_BLAKE2s"@
}

/// Number of messages in the handshake pattern of that protocol: NN sends
/// `-> e` and then `<- e, ee`.
pub open spec fn protocol_messages() -> nat {
    2
}

/// What a handshake is set up with: the protocol name, the prologue (once
/// given) and the pre-shared keys by position.
pub struct NoiseSetup {
    pub name: Seq<char>,
    pub prologue: Option<Seq<u8>>,
    pub psks: Map<u8, Seq<u8>>,
}

/// What is known of a handshake in progress: how it was set up, which side
/// it is, and how many of its messages have been written or read.
pub struct HandshakeModel {
    pub setup: NoiseSetup,
    pub initiator: bool,
    pub position: nat,
}

/// Whether every message of the pattern has been written or read.
pub open spec fn handshake_done(model: HandshakeModel) -> bool {
    model.position >= protocol_messages()
}

/// Whether the next message is this side's to write: the initiator writes
/// the messages at even positions, the responder those at odd ones.
pub open spec fn my_move(model: HandshakeModel) -> bool {
    model.initiator == (model.position % 2 == 0)
}

/// The same handshake one message further on.
pub open spec fn advanced(model: HandshakeModel) -> HandshakeModel {
    HandshakeModel { position: model.position + 1, ..model }
}

/// Parsed protocol parameters, with the name they were parsed from.
pub struct NoiseProtocol {
    params: snow::params::NoiseParams,
    name: Ghost<Seq<char>>,
}

impl NoiseProtocol {
    /// The name the parameters were parsed from.
    pub closed spec fn name(&self) -> Seq<char> {
        self.name@
    }
}

/// A handshake builder, with what it has been given so far.
pub struct NoiseBuilder<'a> {
    builder: snow::Builder<'a>,
    setup: Ghost<NoiseSetup>,
}

impl<'a> NoiseBuilder<'a> {
    /// What the builder has been given so far.
    pub closed spec fn setup(&self) -> NoiseSetup {
        self.setup@
    }
}

/// A Noise handshake in progress, with what is known of it.
pub struct Handshake {
    state: snow::HandshakeState,
    model: Ghost<HandshakeModel>,
}

impl Handshake {
    /// How the handshake was set up, its side, and its position.
    pub closed spec fn model(&self) -> HandshakeModel {
        self.model@
    }
}

/// Calls `<snow::params::NoiseParams as FromStr>::from_str`, which splits a
/// protocol name such as `Noise_NNpsk0_25519_ChaChaPoly_BLAKE2s` at `_` and
/// parses its five parts. The `snow` source shows that this name parses; the
/// parameters keep the name they came from. Other names are not described.
#[verifier::external_body]
pub(crate) fn parse_noise_params(name: &str) -> (protocol: Result<NoiseProtocol, snow::Error>)
    ensures
        name@ == noise_protocol_name() ==> protocol is Ok,
        protocol matches Ok(p) ==> p.name() == name@,
{
    match name.parse() {
        Ok(params) => Ok(NoiseProtocol { params, name: Ghost(name@) }),
        Err(e) => Err(e),
    }
}

/// Calls `snow::Builder::new`, a builder with the default crypto resolver,
/// holding no prologue and no pre-shared key yet.
#[verifier::external_body]
pub(crate) fn noise_builder<'a>(protocol: NoiseProtocol) -> (builder: NoiseBuilder<'a>)
    ensures
        builder.setup() == (NoiseSetup { name: protocol.name(), prologue: None, psks: Map::empty() }),
{
    let setup = Ghost(NoiseSetup { name: protocol.name@, prologue: None, psks: Map::empty() });
    NoiseBuilder { builder: snow::Builder::new(protocol.params), setup }
}

/// Calls `snow::Builder::prologue`, which records the prologue to be hashed
/// into the handshake; the `snow` source shows that it fails exactly when a
/// prologue was set before.
#[verifier::external_body]
pub(crate) fn builder_prologue<'a>(builder: NoiseBuilder<'a>, prologue: &'a [u8]) -> (next: Result<NoiseBuilder<'a>, snow::Error>)
    ensures
        (next is Ok) <==> (builder.setup().prologue is None),
        next matches Ok(b) ==> b.setup() == (NoiseSetup { prologue: Some(prologue@), ..builder.setup() }),
{
    let setup = Ghost(NoiseSetup { prologue: Some(prologue@), ..builder.setup@ });
    match builder.builder.prologue(prologue) {
        Ok(b) => Ok(NoiseBuilder { builder: b, setup }),
        Err(e) => Err(e),
    }
}

/// Calls `snow::Builder::psk`, which records a pre-shared key at a position of
/// the pattern; the `snow` source shows that it fails exactly when the
/// position is 10 or more, or already holds a key.
#[verifier::external_body]
pub(crate) fn builder_psk<'a>(builder: NoiseBuilder<'a>, location: u8, key: &'a [u8; 32]) -> (next: Result<NoiseBuilder<'a>, snow::Error>)
    ensures
        (next is Ok) <==> (location < 10 && !builder.setup().psks.dom().contains(location)),
        next matches Ok(b) ==> b.setup() == (NoiseSetup { psks: builder.setup().psks.insert(location, key@), ..builder.setup() }),
{
    let setup = Ghost(NoiseSetup { psks: builder.setup@.psks.insert(location, key@), ..builder.setup@ });
    match builder.builder.psk(location, key) {
        Ok(b) => Ok(NoiseBuilder { builder: b, setup }),
        Err(e) => Err(e),
    }
}

/// Calls `snow::Builder::build_initiator`, the handshake state of the side
/// that writes the first message, at the start of its pattern. The `snow`
/// source shows that for this library's protocol the build needs no static
/// key and that the default resolver provides every primitive, so it
/// succeeds. Other protocols are not described.
#[verifier::external_body]
pub(crate) fn build_initiator<'a>(builder: NoiseBuilder<'a>) -> (state: Result<Handshake, snow::Error>)
    ensures
        builder.setup().name == noise_protocol_name() ==> state is Ok,
        state matches Ok(s) ==> s.model() == (HandshakeModel { setup: builder.setup(), initiator: true, position: 0 }),
{
    let model = Ghost(HandshakeModel { setup: builder.setup@, initiator: true, position: 0 });
    match builder.builder.build_initiator() {
        Ok(state) => Ok(Handshake { state, model }),
        Err(e) => Err(e),
    }
}

/// Calls `snow::Builder::build_responder`, the handshake state of the side
/// that reads the first message, at the start of its pattern; it succeeds for
/// this library's protocol as `build_initiator` does.
#[verifier::external_body]
pub(crate) fn build_responder<'a>(builder: NoiseBuilder<'a>) -> (state: Result<Handshake, snow::Error>)
    ensures
        builder.setup().name == noise_protocol_name() ==> state is Ok,
        state matches Ok(s) ==> s.model() == (HandshakeModel { setup: builder.setup(), initiator: false, position: 0 }),
{
    let model = Ghost(HandshakeModel { setup: builder.setup@, initiator: false, position: 0 });
    match builder.builder.build_responder() {
        Ok(state) => Ok(Handshake { state, model }),
        Err(e) => Err(e),
    }
}

/// Calls `snow::HandshakeState::is_handshake_finished`, which compares the
/// message position with the pattern's length; the `snow` source never moves
/// the position past that length.
#[verifier::external_body]
pub(crate) fn handshake_finished(state: &Handshake) -> (finished: bool)
    ensures
        state.model().setup.name == noise_protocol_name() ==> finished == handshake_done(state.model()),
{
    state.state.is_handshake_finished()
}

/// Calls `snow::HandshakeState::is_my_turn`. The `snow` source starts it as
/// the side's role and flips it with every message written or read.
#[verifier::external_body]
pub(crate) fn handshake_my_turn(state: &Handshake) -> (my_turn: bool)
    ensures
        my_turn == my_move(state.model()),
{
    state.state.is_my_turn()
}

/// Calls `snow::HandshakeState::write_message`, which writes the next
/// handshake message, carrying `payload`, at the start of `message` and
/// returns its length. The `snow` source shows that the length never exceeds
/// the buffer nor 65535 bytes; that it fails when it is not this side's turn
/// or the pattern is complete; and that a success moves the handshake one
/// message on while a failure leaves the position where it was. A buffer of
/// 65535 bytes leaves room for every token, so no slice is cut short. For this
/// library's protocol each message is the 32-byte ephemeral key followed by
/// the payload encrypted with a 16-byte tag. The bytes written are not
/// described.
#[verifier::external_body]
pub(crate) fn handshake_write(state: &mut Handshake, payload: &[u8], message: &mut Vec<u8>) -> (written: Result<usize, snow::Error>)
    requires
        old(message)@.len() >= NOISE_MAX_MESSAGE,
    ensures
        final(message)@.len() == old(message)@.len(),
        written matches Ok(n) ==> n <= old(message)@.len() && n <= NOISE_MAX_MESSAGE,
        !my_move(old(state).model()) ==> written is Err,
        old(state).model().setup.name == noise_protocol_name() && handshake_done(old(state).model()) ==> written is Err,
        written is Ok ==> final(state).model() == advanced(old(state).model()),
        written is Err ==> final(state).model() == old(state).model(),
        written matches Ok(n) ==> (old(state).model().setup.name == noise_protocol_name() ==> n == HANDSHAKE_OVERHEAD + payload@.len()),
{
    state.state.write_message(payload, message.as_mut_slice())
}

/// Calls `snow::HandshakeState::read_message`, which reads a handshake
/// message and writes the payload it carries at the start of `payload`,
/// returning the payload's length. The `snow` source shows that it fails on
/// messages over 65535 bytes, when it is this side's turn to write, or when
/// the pattern is complete; that the payload is no longer than the message
/// nor than the buffer; and that a success moves the handshake one message on
/// while a failure leaves the position where it was. For this library's
/// protocol a message that reads is the 32-byte ephemeral key followed by the
/// encrypted payload and its 16-byte tag. Whether a message authenticates
/// depends on keys drawn at random and is not described, nor are the payload
/// bytes.
#[verifier::external_body]
pub(crate) fn handshake_read(state: &mut Handshake, message: &[u8], payload: &mut Vec<u8>) -> (read: Result<usize, snow::Error>)
    ensures
        final(payload)@.len() == old(payload)@.len(),
        message@.len() > NOISE_MAX_MESSAGE ==> read is Err,
        read matches Ok(n) ==> n <= message@.len() && n <= old(payload)@.len(),
        my_move(old(state).model()) ==> read is Err,
        old(state).model().setup.name == noise_protocol_name() && handshake_done(old(state).model()) ==> read is Err,
        read is Ok ==> final(state).model() == advanced(old(state).model()),
        read is Err ==> final(state).model() == old(state).model(),
        read matches Ok(n) ==> (old(state).model().setup.name == noise_protocol_name() ==> n + HANDSHAKE_OVERHEAD == message@.len()),
{
    state.state.read_message(message, payload.as_mut_slice())
}

/// The transport state of a finished handshake, with the protocol that the
/// handshake ran and the cipher key of each direction. The keys come out of
/// the handshake's random ephemeral keys; nothing is known of their values,
/// only that a transport keeps them.
pub struct Transport {
    state: snow::StatelessTransportState,
    protocol: Ghost<Seq<char>>,
    send_key: Ghost<Seq<u8>>,
    recv_key: Ghost<Seq<u8>>,
}

impl Transport {
    /// The name of the protocol whose handshake gave this transport.
    pub closed spec fn protocol(&self) -> Seq<char> {
        self.protocol@
    }

    /// The key under which this side seals the frames it sends.
    pub closed spec fn send_key(&self) -> Seq<u8> {
        self.send_key@
    }

    /// The key under which this side opens the frames it receives.
    pub closed spec fn recv_key(&self) -> Seq<u8> {
        self.recv_key@
    }
}

/// The ChaChaPoly encryption of `payload` under `key` and `nonce`, as the
/// Noise transport writes it: the nonce's eight little-endian bytes after
/// four zero bytes, no associated data, and the ciphertext followed by its
/// 16-byte tag. It depends on these values alone.
pub uninterp spec fn noise_seal(key: Seq<u8>, nonce: u64, payload: Seq<u8>) -> Seq<u8>;

/// Calls `snow::HandshakeState::into_stateless_transport_mode`, which the
/// `snow` source shows fails exactly when the handshake is not finished. The
/// transport keeps the handshake's protocol; its keys are the ones the
/// handshake derived, of which nothing is claimed.
#[verifier::external_body]
pub(crate) fn into_stateless_transport(state: Handshake) -> (transport: Result<Transport, snow::Error>)
    ensures
        state.model().setup.name == noise_protocol_name() ==> ((transport is Ok) <==> handshake_done(state.model())),
        transport matches Ok(t) ==> t.protocol() == state.model().setup.name,
{
    let protocol = Ghost(state.model@.setup.name);
    let (send_key, recv_key) = (Ghost(arbitrary()), Ghost(arbitrary()));
    match state.state.into_stateless_transport_mode() {
        Ok(transport) => Ok(Transport { state: transport, protocol, send_key, recv_key }),
        Err(e) => Err(e),
    }
}

/// Calls `snow::StatelessTransportState::write_message`, which encrypts
/// `payload` under `nonce` into the start of `message`. The `snow` source shows
/// that it fails when the payload and its 16-byte tag would not fit the buffer
/// or 65535 bytes, or when the nonce is `u64::MAX`, and that the ciphertext is
/// the payload's length plus the tag. Its other failures are a one-way pattern
/// on the responder's side and a cipher without a key; neither happens after
/// this library's protocol (NN, two-way) has finished, since its last message
/// keys both directions, and ChaChaPoly encryption itself cannot fail. So for
/// that protocol a fitting payload under a nonce below `u64::MAX` is sealed.
/// What is written is the sealing of the payload under this side's sending
/// key and the nonce (the key stays the same for the transport's life).
#[verifier::external_body]
pub(crate) fn transport_write(transport: &Transport, nonce: u64, payload: &[u8], message: &mut Vec<u8>) -> (written: Result<usize, snow::Error>)
    ensures
        final(message)@.len() == old(message)@.len(),
        payload@.len() + NOISE_TAG_LEN > NOISE_MAX_MESSAGE ==> written is Err,
        payload@.len() + NOISE_TAG_LEN > old(message)@.len() ==> written is Err,
        nonce == u64::MAX ==> written is Err,
        transport.protocol() == noise_protocol_name() && payload@.len() + NOISE_TAG_LEN <= NOISE_MAX_MESSAGE && payload@.len() + NOISE_TAG_LEN <= old(message)@.len() && nonce < u64::MAX ==> written is Ok,
        written matches Ok(n) ==> n == payload@.len() + NOISE_TAG_LEN,
        written matches Ok(n) ==> final(message)@.take(n as int) == noise_seal(transport.send_key(), nonce, payload@),
{
    transport.state.write_message(nonce, payload, message.as_mut_slice())
}

/// Calls `snow::StatelessTransportState::read_message`, which decrypts and
/// authenticates `ciphertext` under `nonce` into the start of `payload`. The
/// `snow` source shows that it fails when the ciphertext is over 65535 bytes or
/// shorter than its 16-byte tag, when the plaintext would not fit the buffer,
/// or when the nonce is `u64::MAX`, and that the plaintext is the ciphertext's
/// length less the tag. A ciphertext opens only when its tag is right, so the
/// plaintext it opens to is one that sealing under this side's receiving key
/// and the nonce maps to exactly that ciphertext. Which ciphertexts
/// authenticate depends on the key, and is not described.
#[verifier::external_body]
pub(crate) fn transport_read(transport: &Transport, nonce: u64, ciphertext: &[u8], payload: &mut Vec<u8>) -> (read: Result<usize, snow::Error>)
    ensures
        final(payload)@.len() == old(payload)@.len(),
        ciphertext@.len() > NOISE_MAX_MESSAGE ==> read is Err,
        ciphertext@.len() < NOISE_TAG_LEN ==> read is Err,
        ciphertext@.len() >= NOISE_TAG_LEN && old(payload)@.len() < ciphertext@.len() - NOISE_TAG_LEN ==> read is Err,
        nonce == u64::MAX ==> read is Err,
        read matches Ok(n) ==> ciphertext@.len() >= NOISE_TAG_LEN && n == ciphertext@.len() - NOISE_TAG_LEN,
        read matches Ok(n) ==> noise_seal(transport.recv_key(), nonce, final(payload)@.take(n as int)) == ciphertext@,
{
    transport.state.read_message(nonce, ciphertext, payload.as_mut_slice())
}

} // verus!
