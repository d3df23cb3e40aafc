//! The packets of the coeus protocol and their wire form.
//!
//! A packet travels inside an envelope: the protocol version, then the
//! packet's kind and its payload. The kind is a fixed number per packet type;
//! the payload is the `postcard` encoding of the packet's fields.

use vstd::prelude::*;

use crate::wire::{
    decode_accepted_fields, decode_envelope_fields, decode_request_fields, encode_accepted_fields,
    encode_envelope_fields, encode_request_fields, postcard_accepted_bytes,
    postcard_accepted_fields, postcard_envelope_bytes, postcard_envelope_fields,
    postcard_request_bytes, postcard_request_fields,
};

verus! {

/// The version of the protocol that this library speaks.
pub const PROTOCOL_VERSION: u8 = 1;

/// The kind of a deploy request.
pub const DEPLOY_REQUEST_KIND: u16 = 0x0100;

/// The kind of a deploy acceptance.
pub const DEPLOY_ACCEPTED_KIND: u16 = 0x0101;

/// A request to deploy a revision of the configuration repository.
#[derive(Debug)]
pub struct DeployRequest {
    /// The revision to check out (a branch, tag or commit).
    pub rev: String,
    /// Sets "eval-cache" to false in nix options.
    pub dry_run: bool,
    /// Ignore stale substituters from the current system.
    pub clean_substituters: bool,
}

/// The server's answer that a deploy request was accepted.
#[derive(Debug)]
pub struct DeployAccepted {
    /// A message for the operator.
    pub message: String,
}

/// Every packet that the protocol knows.
#[derive(Debug)]
pub enum Packet {
    DeployRequest(Box<DeployRequest>),
    DeployAccepted(Box<DeployAccepted>),
}

/// A packet as a mathematical value.
pub enum PacketView {
    DeployRequest { rev: Seq<char>, dry_run: bool, clean_substituters: bool },
    DeployAccepted { message: Seq<char> },
}

impl View for Packet {
    type V = PacketView;

    open spec fn view(&self) -> PacketView {
        match self {
            Packet::DeployRequest(request) => PacketView::DeployRequest {
                rev: request.rev@,
                dry_run: request.dry_run,
                clean_substituters: request.clean_substituters,
            },
            Packet::DeployAccepted(accepted) => PacketView::DeployAccepted {
                message: accepted.message@,
            },
        }
    }
}

impl PacketView {
    /// The packet's kind: a fixed number for each packet type.
    pub open spec fn kind(self) -> u16 {
        match self {
            PacketView::DeployRequest { .. } => DEPLOY_REQUEST_KIND,
            PacketView::DeployAccepted { .. } => DEPLOY_ACCEPTED_KIND,
        }
    }

    /// The packet's payload on the wire: the `postcard` encoding of its fields.
    pub open spec fn payload_bytes(self) -> Seq<u8> {
        match self {
            PacketView::DeployRequest { rev, dry_run, clean_substituters } => postcard_request_bytes(
                rev,
                dry_run,
                clean_substituters,
            ),
            PacketView::DeployAccepted { message } => postcard_accepted_bytes(message),
        }
    }
}

/// Why a packet could not be written or read.
#[derive(Debug, Clone, Copy, PartialEq, Eq, Structural)]
pub enum ProtocolError {
    /// `postcard` could not encode a packet.
    Encode,
    /// The bytes are not a packet of the kind they claim.
    Decode,
    /// The packet kind is not one this protocol knows.
    UnknownKind(u16),
    /// The peer speaks another version of the protocol.
    UnsupportedVersion(u8),
}

/// What a payload of the given kind decodes to.
pub open spec fn decode_payload_spec(kind: u16, payload: Seq<u8>) -> Result<PacketView, ProtocolError> {
    if kind == DEPLOY_REQUEST_KIND {
        match postcard_request_fields(payload) {
            Some((rev, dry_run, clean_substituters)) => Ok(
                PacketView::DeployRequest { rev, dry_run, clean_substituters },
            ),
            None => Err(ProtocolError::Decode),
        }
    } else if kind == DEPLOY_ACCEPTED_KIND {
        match postcard_accepted_fields(payload) {
            Some(message) => Ok(PacketView::DeployAccepted { message }),
            None => Err(ProtocolError::Decode),
        }
    } else {
        Err(ProtocolError::UnknownKind(kind))
    }
}

impl Packet {
    /// The packet's kind: `0x0100` for a deploy request, `0x0101` for a deploy
    /// acceptance.
    pub fn kind(&self) -> (kind: u16)
        ensures
            kind == self@.kind(),
    {
        match self {
            Packet::DeployRequest(_) => DEPLOY_REQUEST_KIND,
            Packet::DeployAccepted(_) => DEPLOY_ACCEPTED_KIND,
        }
    }

    /// The packet's payload on the wire; encoding always succeeds. Decoding it
    /// under the packet's kind gives the packet back.
    pub fn encode_payload(&self) -> (payload: Result<Vec<u8>, ProtocolError>)
        ensures
            payload matches Ok(b) ==> b@ == self@.payload_bytes() && decode_payload_spec(
                self@.kind(),
                b@,
            ) == Ok::<PacketView, ProtocolError>(self@),
            payload is Ok,
    {
        match self {
            Packet::DeployRequest(request) => {
                match encode_request_fields(
                    request.rev.as_str(),
                    request.dry_run,
                    request.clean_substituters,
                ) {
                    Ok(bytes) => Ok(bytes),
                    Err(_) => Err(ProtocolError::Encode),
                }
            },
            Packet::DeployAccepted(accepted) => {
                match encode_accepted_fields(accepted.message.as_str()) {
                    Ok(bytes) => Ok(bytes),
                    Err(_) => Err(ProtocolError::Encode),
                }
            },
        }
    }

    /// Reads a packet of the given kind from its payload.
    pub fn decode(kind: u16, payload: &[u8]) -> (packet: Result<Packet, ProtocolError>)
        ensures
            packet matches Ok(p) ==> decode_payload_spec(kind, payload@) == Ok::<
                PacketView,
                ProtocolError,
            >(p@),
            packet matches Err(e) ==> decode_payload_spec(kind, payload@) == Err::<
                PacketView,
                ProtocolError,
            >(e),
    {
        if kind == DEPLOY_REQUEST_KIND {
            match decode_request_fields(payload) {
                Ok((rev, dry_run, clean_substituters)) => Ok(
                    Packet::DeployRequest(Box::new(DeployRequest { rev, dry_run, clean_substituters })),
                ),
                Err(_) => Err(ProtocolError::Decode),
            }
        } else if kind == DEPLOY_ACCEPTED_KIND {
            match decode_accepted_fields(payload) {
                Ok(message) => Ok(Packet::DeployAccepted(Box::new(DeployAccepted { message }))),
                Err(_) => Err(ProtocolError::Decode),
            }
        } else {
            Err(ProtocolError::UnknownKind(kind))
        }
    }
}

impl From<DeployRequest> for Packet {
    fn from(value: DeployRequest) -> (packet: Packet) {
        Packet::DeployRequest(Box::new(value))
    }
}

impl vstd::std_specs::convert::FromSpecImpl<DeployRequest> for Packet {
    open spec fn obeys_from_spec() -> bool {
        true
    }

    open spec fn from_spec(value: DeployRequest) -> Packet {
        Packet::DeployRequest(Box::new(value))
    }
}

impl From<DeployAccepted> for Packet {
    fn from(value: DeployAccepted) -> (packet: Packet) {
        Packet::DeployAccepted(Box::new(value))
    }
}

impl vstd::std_specs::convert::FromSpecImpl<DeployAccepted> for Packet {
    open spec fn obeys_from_spec() -> bool {
        true
    }

    open spec fn from_spec(value: DeployAccepted) -> Packet {
        Packet::DeployAccepted(Box::new(value))
    }
}

/// The two packet types have different kinds, so a kind names one type.
pub proof fn lemma_kinds_distinct(a: PacketView, b: PacketView)
    ensures
        a.kind() == b.kind() <==> (a is DeployRequest) == (b is DeployRequest),
{
}

} // verus!
