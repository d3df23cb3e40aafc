//! What the daemon and the client do with the packets they receive.
//!
//! The daemon answers each deploy request with an acceptance and then
//! deploys it; other packets are ignored. A connection ends when the peer
//! closes it. The client expects exactly one answer to its request: an
//! acceptance.

use vstd::prelude::*;

use crate::packet::{DeployAccepted, DeployRequest, Packet, PacketView};

verus! {

/// The message with which the daemon accepts a deploy request.
pub const ACCEPTED_MESSAGE: &'static str = "deploy request accepted";

/// What the daemon does with a received packet.
pub enum ServerAction {
    /// Send `reply`, then deploy `request`.
    Deploy { reply: DeployAccepted, request: Box<DeployRequest> },
    /// Nothing: the packet is not one the daemon acts on.
    Ignore(Packet),
}

/// Decides what the daemon does with a received packet: a deploy request is
/// accepted (with the fixed message) and then deployed; anything else is
/// ignored.
pub fn server_action(packet: Packet) -> (action: ServerAction)
    ensures
        packet@ is DeployRequest ==> (action matches ServerAction::Deploy { reply, request } && (
        Packet::DeployRequest(request))@ == packet@ && reply.message@ == ACCEPTED_MESSAGE@),
        !(packet@ is DeployRequest) ==> (action matches ServerAction::Ignore(p) && p@ == packet@),
{
    match packet {
        Packet::DeployRequest(request) => ServerAction::Deploy {
            reply: DeployAccepted { message: String::from_str(ACCEPTED_MESSAGE) },
            request,
        },
        other => ServerAction::Ignore(other),
    }
}

/// What the daemon does after a receive on a connection.
pub enum ConnectionStep {
    /// Handle this packet, then receive again.
    Handle(Packet),
    /// The peer closed the connection: stop.
    Close,
}

/// Decides what the daemon does after a receive: handle a packet, or stop
/// when the peer closed the connection.
pub fn connection_step(received: Option<Packet>) -> (step: ConnectionStep)
    ensures
        received is None ==> step is Close,
        received matches Some(p) ==> (step matches ConnectionStep::Handle(q) && q@ == p@),
{
    match received {
        Some(packet) => ConnectionStep::Handle(packet),
        None => ConnectionStep::Close,
    }
}

/// Why the client's request did not succeed.
#[derive(Debug, Clone, Copy, PartialEq, Eq, Structural)]
pub enum ClientError {
    /// The daemon closed the connection before answering.
    ServerClosed,
    /// The daemon answered with a packet of this kind instead of an acceptance.
    UnexpectedPacket(u16),
}

/// The daemon's answer, which must have come before the connection closed.
pub fn expect_response(received: Option<Packet>) -> (answer: Result<Packet, ClientError>)
    ensures
        received is None ==> answer == Err::<Packet, ClientError>(ClientError::ServerClosed),
        received matches Some(p) ==> (answer matches Ok(q) && q@ == p@),
{
    match received {
        Some(packet) => Ok(packet),
        None => Err(ClientError::ServerClosed),
    }
}

/// What the client makes of the daemon's answer: an acceptance gives its
/// message; any other packet is an error naming its kind.
pub fn client_outcome(packet: Packet) -> (outcome: Result<String, ClientError>)
    ensures
        packet@ matches PacketView::DeployAccepted { message } ==> (outcome matches Ok(m) && m@
            == message),
        !(packet@ is DeployAccepted) ==> outcome == Err::<String, ClientError>(
            ClientError::UnexpectedPacket(packet@.kind()),
        ),
{
    let kind = packet.kind();
    match packet {
        Packet::DeployAccepted(accepted) => Ok(accepted.message),
        _ => Err(ClientError::UnexpectedPacket(kind)),
    }
}

} // verus!
