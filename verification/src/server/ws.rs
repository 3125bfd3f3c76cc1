//! The decisions of a client's WebSocket connection to a room: how the handshake is answered, and
//! what the connection does with each frame it receives and each command it is given. The
//! connection's task performs the actions and feeds back the events.

use vstd::prelude::*;
use vstd::string::StringExecFns;
use crate::server::room::{uuid_text, uuid_to_string};
use crate::text::to_owned_string;

verus! {

/// A WebSocket frame received from the client.
#[derive(Debug, PartialEq, Eq)]
pub enum WsFrame {
    Text(String),
    Binary(Vec<u8>),
    Ping(Vec<u8>),
    Pong(Vec<u8>),
    Close,
}

/// A message between the room and a client.
#[derive(Debug, PartialEq, Eq)]
pub enum WsMessage {
    Text(String),
    Binary(Vec<u8>),
}

/// A command given to a connection.
#[derive(Debug, PartialEq, Eq)]
pub enum ConnectionCommand {
    /// Close the connection.
    Close,
    /// Send a message to the client.
    Send(WsMessage),
    /// Answer a ping from the client.
    SendPong(Vec<u8>),
}

/// What happened while waiting for the client's handshake message.
#[derive(Debug, PartialEq, Eq)]
pub enum HandshakeEvent {
    /// A frame arrived.
    Received(WsFrame),
    /// Receiving failed.
    ReceiveFailed,
    /// The client closed the connection.
    Closed,
    /// No frame arrived in time.
    TimedOut,
}

/// Why a handshake was refused.
#[derive(Debug, Clone, Copy, PartialEq, Eq, Structural)]
pub enum HandshakeError {
    /// The first frame was not a text frame.
    InvalidType,
    /// Receiving the first frame failed.
    ReceiveFailed,
    /// The connection was closed before the handshake.
    Closed,
    /// The handshake did not arrive within a second.
    TimedOut,
}

/// The decision on a handshake (see [`handshake_outcome`]).
pub open spec fn handshake_outcome_spec(event: HandshakeEvent) -> Result<(), HandshakeError> {
    match event {
        HandshakeEvent::Received(WsFrame::Text(_)) => Ok(()),
        HandshakeEvent::Received(_) => Err(HandshakeError::InvalidType),
        HandshakeEvent::ReceiveFailed => Err(HandshakeError::ReceiveFailed),
        HandshakeEvent::Closed => Err(HandshakeError::Closed),
        HandshakeEvent::TimedOut => Err(HandshakeError::TimedOut),
    }
}

/// Decides a handshake: a text frame is answered with the server's handshake; anything else closes
/// the connection with the reason.
pub fn handshake_outcome(event: &HandshakeEvent) -> (outcome: Result<(), HandshakeError>)
    ensures
        outcome == handshake_outcome_spec(*event),
{
    match event {
        HandshakeEvent::Received(WsFrame::Text(_)) => Ok(()),
        HandshakeEvent::Received(_) => Err(HandshakeError::InvalidType),
        HandshakeEvent::ReceiveFailed => Err(HandshakeError::ReceiveFailed),
        HandshakeEvent::Closed => Err(HandshakeError::Closed),
        HandshakeEvent::TimedOut => Err(HandshakeError::TimedOut),
    }
}

/// The text frame the server answers an accepted handshake with: the `Handshake` packet carrying
/// the connection's identifier, `{"type":"Handshake","data":{"id":"<identifier>"}}`.
pub open spec fn handshake_reply_text(id: u128) -> Seq<char> {
    "{\"type\":\"Handshake\",\"data\":{\"id\":\""@ + uuid_text(id) + "\"}}"@
}

/// The handshake reply for the connection with identifier `id`.
pub fn handshake_reply(id: u128) -> (text: String)
    ensures
        text@ == handshake_reply_text(id),
{
    let mut text = to_owned_string("{\"type\":\"Handshake\",\"data\":{\"id\":\"");
    let id_text = uuid_to_string(id);
    text.append(id_text.as_str());
    text.append("\"}}");
    text
}

/// What a connection keeps once its handshake is done: its identifier and the authentication data
/// of its request.
pub struct ConnectionInfo {
    pub id: u128,
    pub auth_data: Option<serde_json::Value>,
}

/// Opens a connection with identifier `id` for a request with `auth_data`, on the first event of
/// its socket: an accepted handshake gives the reply frame to send and what the connection keeps;
/// otherwise the socket is closed with the reason.
pub fn open_connection(first: &HandshakeEvent, id: u128, auth_data: Option<serde_json::Value>) -> (opened:
    Result<(String, ConnectionInfo), HandshakeError>)
    ensures
        match handshake_outcome_spec(*first) {
            Ok(()) => opened matches Ok((reply, info)) && reply@ == handshake_reply_text(id)
                && info.id == id && info.auth_data == auth_data,
            Err(e) => opened == Err::<(String, ConnectionInfo), HandshakeError>(e),
        },
{
    match handshake_outcome(first) {
        Ok(()) => Ok((handshake_reply(id), ConnectionInfo { id, auth_data })),
        Err(e) => Err(e),
    }
}

/// An event of a running connection.
#[derive(Debug, PartialEq, Eq)]
pub enum WsEvent {
    /// A frame arrived from the client.
    Received(WsFrame),
    /// Receiving from the client failed.
    ReceiveFailed,
    /// The client's stream ended.
    ReceiverEnded,
    /// A command arrived.
    Command(ConnectionCommand),
    /// Every sender of commands is gone.
    CommandsEnded,
}

/// What a running connection does next.
#[derive(Debug, PartialEq, Eq)]
pub enum WsAction {
    /// Hand the message to the room.
    Forward(WsMessage),
    /// Queue a command to answer a ping with this payload.
    QueuePong(Vec<u8>),
    /// Send the message to the client.
    Transmit(WsMessage),
    /// Send a pong with this payload to the client.
    TransmitPong(Vec<u8>),
    /// Keep running.
    Continue,
    /// End the connection.
    Stop,
    /// End the connection with an error: the client sent a frame of a type it may not send.
    InvalidMessage,
}

/// What a running connection does on `event`: text and binary frames go to the room, pings are
/// answered through the command queue, a close frame and a failed receive are passed over, the end
/// of either stream or a close command stops the connection, commands to send are carried out, and
/// an unsolicited pong ends the connection with an error.
pub fn next_action(event: WsEvent) -> (action: WsAction)
    ensures
        match event {
            WsEvent::Received(WsFrame::Text(t)) => action == WsAction::Forward(WsMessage::Text(t)),
            WsEvent::Received(WsFrame::Binary(b)) => action == WsAction::Forward(
                WsMessage::Binary(b),
            ),
            WsEvent::Received(WsFrame::Ping(p)) => action == WsAction::QueuePong(p),
            WsEvent::Received(WsFrame::Pong(_)) => action == WsAction::InvalidMessage,
            WsEvent::Received(WsFrame::Close) => action == WsAction::Continue,
            WsEvent::ReceiveFailed => action == WsAction::Continue,
            WsEvent::ReceiverEnded => action == WsAction::Stop,
            WsEvent::Command(ConnectionCommand::Close) => action == WsAction::Stop,
            WsEvent::Command(ConnectionCommand::Send(m)) => action == WsAction::Transmit(m),
            WsEvent::Command(ConnectionCommand::SendPong(p)) => action == WsAction::TransmitPong(p),
            WsEvent::CommandsEnded => action == WsAction::Stop,
        },
{
    match event {
        WsEvent::Received(WsFrame::Text(t)) => WsAction::Forward(WsMessage::Text(t)),
        WsEvent::Received(WsFrame::Binary(b)) => WsAction::Forward(WsMessage::Binary(b)),
        WsEvent::Received(WsFrame::Ping(p)) => WsAction::QueuePong(p),
        WsEvent::Received(WsFrame::Pong(_)) => WsAction::InvalidMessage,
        WsEvent::Received(WsFrame::Close) => WsAction::Continue,
        WsEvent::ReceiveFailed => WsAction::Continue,
        WsEvent::ReceiverEnded => WsAction::Stop,
        WsEvent::Command(ConnectionCommand::Close) => WsAction::Stop,
        WsEvent::Command(ConnectionCommand::Send(m)) => WsAction::Transmit(m),
        WsEvent::Command(ConnectionCommand::SendPong(p)) => WsAction::TransmitPong(p),
        WsEvent::CommandsEnded => WsAction::Stop,
    }
}

} // verus!
