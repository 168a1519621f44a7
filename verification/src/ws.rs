//! The WebSocket session policy after the handshake: the session is a
//! drain — text and other data frames are discarded and the loop goes on;
//! a close frame or a read failure ends it. Nothing is ever sent back.

use vstd::prelude::*;

verus! {

/// What the next receive on an open session produced.
#[derive(Clone, Copy, Debug, PartialEq, Eq, Structural)]
pub enum WsFrameEvent {
    /// A text frame; its payload is out of scope and dropped.
    Text,
    /// Any other data or control frame.
    OtherFrame,
    /// A close frame from the peer.
    Close,
    /// The read itself failed.
    ReadFailure,
}

/// Whether the receive loop keeps going after this event.
pub open spec fn spec_ws_session_continues(event: WsFrameEvent) -> bool {
    match event {
        WsFrameEvent::Text => true,
        WsFrameEvent::OtherFrame => true,
        WsFrameEvent::Close => false,
        WsFrameEvent::ReadFailure => false,
    }
}

pub fn ws_session_continues(event: WsFrameEvent) -> (r: bool)
    ensures
        r == spec_ws_session_continues(event),
{
    match event {
        WsFrameEvent::Text => true,
        WsFrameEvent::OtherFrame => true,
        WsFrameEvent::Close => false,
        WsFrameEvent::ReadFailure => false,
    }
}

} // verus!
