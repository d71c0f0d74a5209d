//! The websocket connection to the backup server: what each event calls for.
pub mod ws_sender;

use crate::ws_messages::outgoing::{Response, StructuredResponse};
use vstd::prelude::*;

verus! {

/// A message between the tasks of the client.
#[derive(Debug, Clone, Copy, PartialEq, Eq, Structural)]
pub enum InternalMessage {
    /// Time to ask the server for a backup.
    RequestBackup,
}

/// A frame that arrived on the websocket.
#[derive(Debug)]
pub enum WsEvent {
    Text(String),
    Binary,
    Ping,
    Pong,
    Close,
    Frame,
}

/// What the reader of the websocket does about a frame.
#[derive(Debug)]
pub enum WsReaction {
    /// Handle the text on a task of its own.
    HandleText(String),
    /// The server is alive: restart the timer that closes an idle connection.
    RestartAutoClose,
    /// Close the connection and stop reading.
    CloseAndStop,
    /// Nothing to do.
    Ignore,
}

/// The reaction to a frame: texts are handled, pings keep the connection
/// alive, a close ends it, and everything else is ignored.
pub fn reaction_to(event: WsEvent) -> (reaction: WsReaction)
    ensures
        match event {
            WsEvent::Text(text) => reaction == WsReaction::HandleText(text),
            WsEvent::Ping => reaction == WsReaction::RestartAutoClose,
            WsEvent::Close => reaction == WsReaction::CloseAndStop,
            _ => reaction == WsReaction::Ignore,
        },
{
    match event {
        WsEvent::Text(text) => WsReaction::HandleText(text),
        WsEvent::Ping => WsReaction::RestartAutoClose,
        WsEvent::Close => WsReaction::CloseAndStop,
        _ => WsReaction::Ignore,
    }
}

/// The request that goes to the server for a message of the schedule: every
/// `RequestBackup` asks for a backup, in an envelope.
pub fn request_for(message: InternalMessage) -> (envelope: StructuredResponse)
    ensures
        envelope.data == Some(Response::Backup),
        envelope.error is None,
        envelope.unique,
{
    match message {
        InternalMessage::RequestBackup => StructuredResponse::data(Response::Backup),
    }
}

} // verus!
