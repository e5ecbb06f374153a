//! The WebSocket relay's decisions: the query of an upgrade request, and what
//! the loop of a connected socket does with each thing it sees.
use vstd::prelude::*;

verus! {

/// The access token carried in the WebSocket URL.
#[derive(Debug, Clone)]
pub struct WsQuery {
    pub token: String,
}

/// What the loop of a connected socket saw.
pub enum SocketEvent {
    /// The client sent a close frame.
    CloseFrame,
    /// The client sent any other frame.
    OtherFrame,
    /// The client's stream ended or failed.
    ClientGone,
    /// A message was queued for the user.
    Queued(String),
    /// The user's queue was closed.
    QueueClosed,
    /// Sending a queued message to the client failed.
    SendFailed,
}

/// What the loop does next.
pub enum SocketAction {
    /// Keep waiting.
    Wait,
    /// Send the text to the client as a text frame.
    Send(String),
    /// Stop: the user is disconnected and unregistered.
    Disconnect,
}

/// The relay only pushes: frames from the client are ignored, queued
/// messages are sent on, and the connection ends when either side closes or
/// fails.
pub fn next_socket_action(event: SocketEvent) -> (action: SocketAction)
    ensures
        match event {
            SocketEvent::OtherFrame => action is Wait,
            SocketEvent::Queued(text) => action == SocketAction::Send(text),
            _ => action is Disconnect,
        },
{
    match event {
        SocketEvent::OtherFrame => SocketAction::Wait,
        SocketEvent::Queued(text) => SocketAction::Send(text),
        SocketEvent::CloseFrame | SocketEvent::ClientGone | SocketEvent::QueueClosed | SocketEvent::SendFailed =>
            SocketAction::Disconnect,
    }
}

} // verus!
