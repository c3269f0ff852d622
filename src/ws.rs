//! Change events pushed to WebSocket clients, and the decisions of the
//! per-connection loop that forwards them.
use vstd::prelude::*;
use crate::models::{Book, Email};

verus! {

/// A change to a stored resource, as announced to connected clients.
#[derive(Debug, Clone, PartialEq, Eq)]
pub enum WsEvent {
    BookCreated(Book),
    BookUpdated(Book),
    BookDeleted(u128),
    EmailCreated(Email),
    EmailUpdated(Email),
    EmailDeleted(u128),
}

/// What happened on a connection since the last step.
#[derive(Debug, Clone, PartialEq, Eq)]
pub enum SocketInput {
    /// A payload arrived on the broadcast subscription.
    Published(String),
    /// Sending to the client failed: it is gone.
    SendFailed,
    /// The client asked to close the connection.
    CloseFrame,
    /// The client sent a frame other than a close request.
    OtherFrame,
    /// Both the subscription and the socket have ended.
    Ended,
}

/// What the connection loop does next.
#[derive(Debug, Clone, PartialEq, Eq)]
pub enum SocketAction {
    /// Send this payload to the client, then keep listening.
    Forward(String),
    /// Keep listening.
    Listen,
    /// Leave the loop and release the subscription.
    Close,
}

/// The next action of the connection loop: published payloads are
/// forwarded, other client frames ignored, and a failed send, a close
/// request or the end of both sources closes the connection.
pub fn socket_step(input: SocketInput) -> (r: SocketAction)
    ensures
        match input {
            SocketInput::Published(m) => r == SocketAction::Forward(m),
            SocketInput::OtherFrame => r == SocketAction::Listen,
            _ => r == SocketAction::Close,
        },
{
    match input {
        SocketInput::Published(m) => SocketAction::Forward(m),
        SocketInput::OtherFrame => SocketAction::Listen,
        SocketInput::SendFailed => SocketAction::Close,
        SocketInput::CloseFrame => SocketAction::Close,
        SocketInput::Ended => SocketAction::Close,
    }
}

/// The text of the greeting sent once to a client that has just connected.
pub open spec fn welcome_of(user_id: Seq<char>) -> Seq<char> {
    "Welcome, user "@ + user_id + "! You are now listening for updates."@
}

/// The greeting for the user with the given id.
pub fn welcome_text(user_id: &str) -> (r: String)
    ensures
        r@ == welcome_of(user_id@),
{
    String::from_str("Welcome, user ").concat(user_id).concat("! You are now listening for updates.")
}

} // verus!
