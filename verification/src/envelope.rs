//! The envelope in which every packet travels: the protocol version and the
//! packet.

use vstd::prelude::*;

use crate::packet::{decode_payload_spec, Packet, PacketView, ProtocolError, PROTOCOL_VERSION};
use crate::wire::{
    decode_envelope_fields, encode_envelope_fields, postcard_envelope_bytes,
    postcard_envelope_fields,
};

verus! {

/// A packet with the version of the protocol it was written in.
pub struct PacketEnvelope {
    pub protocol_version: u8,
    pub packet: Packet,
}

/// An envelope as a mathematical value.
pub struct EnvelopeView {
    pub protocol_version: u8,
    pub packet: PacketView,
}

impl View for PacketEnvelope {
    type V = EnvelopeView;

    open spec fn view(&self) -> EnvelopeView {
        EnvelopeView { protocol_version: self.protocol_version, packet: self.packet@ }
    }
}

/// The bytes of an envelope: the `postcard` encoding of the version, the
/// packet's kind and the packet's payload.
pub open spec fn envelope_bytes(envelope: EnvelopeView) -> Seq<u8> {
    postcard_envelope_bytes(
        envelope.protocol_version,
        envelope.packet.kind(),
        envelope.packet.payload_bytes(),
    )
}

/// What reading `bytes` as an envelope gives: the version, then the packet
/// that the kind and payload stand for.
pub open spec fn decode_envelope_spec(bytes: Seq<u8>) -> Result<EnvelopeView, ProtocolError> {
    match postcard_envelope_fields(bytes) {
        None => Err(ProtocolError::Decode),
        Some((protocol_version, kind, payload)) => match decode_payload_spec(kind, payload) {
            Ok(packet) => Ok(EnvelopeView { protocol_version, packet }),
            Err(e) => Err(e),
        },
    }
}

/// What receiving the plaintext of a frame gives: the packet of the envelope
/// it holds, provided the envelope is of this protocol's version.
pub open spec fn receive_spec(bytes: Seq<u8>) -> Result<PacketView, ProtocolError> {
    match decode_envelope_spec(bytes) {
        Ok(envelope) => if envelope.protocol_version == PROTOCOL_VERSION {
            Ok(envelope.packet)
        } else {
            Err(ProtocolError::UnsupportedVersion(envelope.protocol_version))
        },
        Err(e) => Err(e),
    }
}

impl PacketEnvelope {
    /// Wraps a packet in an envelope of this protocol's version.
    pub fn new(packet: Packet) -> (envelope: PacketEnvelope)
        ensures
            envelope.protocol_version == PROTOCOL_VERSION,
            envelope.packet == packet,
    {
        PacketEnvelope { protocol_version: PROTOCOL_VERSION, packet }
    }

    /// Accepts exactly the envelopes of this protocol's version.
    pub fn validate(&self) -> (result: Result<(), ProtocolError>)
        ensures
            result is Ok <==> self.protocol_version == PROTOCOL_VERSION,
            result matches Err(e) ==> e == ProtocolError::UnsupportedVersion(self.protocol_version),
    {
        if self.protocol_version != PROTOCOL_VERSION {
            return Err(ProtocolError::UnsupportedVersion(self.protocol_version));
        }
        Ok(())
    }

    /// The envelope's bytes; encoding always succeeds. Reading them back gives
    /// the same envelope.
    pub fn encode(&self) -> (bytes: Result<Vec<u8>, ProtocolError>)
        ensures
            bytes matches Ok(b) ==> b@ == envelope_bytes(self@) && decode_envelope_spec(b@) == Ok::<
                EnvelopeView,
                ProtocolError,
            >(self@),
            bytes is Ok,
    {
        let payload = self.packet.encode_payload()?;
        match encode_envelope_fields(self.protocol_version, self.packet.kind(), payload.as_slice()) {
            Ok(bytes) => Ok(bytes),
            Err(_) => Err(ProtocolError::Encode),
        }
    }

    /// Reads an envelope from bytes; the version is not checked here.
    pub fn decode(bytes: &[u8]) -> (envelope: Result<PacketEnvelope, ProtocolError>)
        ensures
            envelope matches Ok(e) ==> decode_envelope_spec(bytes@) == Ok::<
                EnvelopeView,
                ProtocolError,
            >(e@),
            envelope matches Err(e) ==> decode_envelope_spec(bytes@) == Err::<
                EnvelopeView,
                ProtocolError,
            >(e),
    {
        let (protocol_version, kind, payload) = match decode_envelope_fields(bytes) {
            Ok(fields) => fields,
            Err(_) => {
                return Err(ProtocolError::Decode);
            },
        };
        let packet = Packet::decode(kind, payload.as_slice())?;
        Ok(PacketEnvelope { protocol_version, packet })
    }
}

/// The plaintext that carries a packet: its envelope's bytes (encoding always
/// succeeds). Receiving them gives the packet back.
pub fn encode_packet(packet: Packet) -> (bytes: Result<Vec<u8>, ProtocolError>)
    ensures
        bytes matches Ok(b) ==> b@ == envelope_bytes(
            EnvelopeView { protocol_version: PROTOCOL_VERSION, packet: packet@ },
        ) && receive_spec(b@) == Ok::<PacketView, ProtocolError>(packet@),
        bytes is Ok,
{
    let envelope = PacketEnvelope::new(packet);
    envelope.encode()
}

/// The packet that a plaintext carries: its envelope is read and must be of
/// this protocol's version.
pub fn decode_packet(bytes: &[u8]) -> (packet: Result<Packet, ProtocolError>)
    ensures
        packet matches Ok(p) ==> receive_spec(bytes@) == Ok::<PacketView, ProtocolError>(p@),
        packet matches Err(e) ==> receive_spec(bytes@) == Err::<PacketView, ProtocolError>(e),
{
    let envelope = PacketEnvelope::decode(bytes)?;
    envelope.validate()?;
    Ok(envelope.packet)
}

} // verus!
