//! The decisions of the WebSocket echo loop.

use vstd::prelude::*;

verus! {

/// What the echo loop observes.
#[derive(Debug, Clone, Copy, PartialEq, Eq)]
pub enum EchoEvent {
    /// A message arrived.
    Received,
    /// Receiving failed.
    ReceiveFailed,
    /// Sending the echo failed.
    SendFailed,
    /// The client closed the stream.
    StreamEnded,
}

/// What the echo loop does next.
#[derive(Debug, Clone, Copy, PartialEq, Eq)]
pub enum EchoAction {
    /// Send the received message back unchanged, then wait for the next one.
    SendBack,
    /// Leave the loop and close the connection.
    Close,
}

/// One step of the echo loop: a received message is sent back; a failure on
/// either side or the end of the stream closes the connection.
pub fn echo_step(event: EchoEvent) -> (r: EchoAction)
    ensures
        event == EchoEvent::Received ==> r == EchoAction::SendBack,
        event != EchoEvent::Received ==> r == EchoAction::Close,
{
    match event {
        EchoEvent::Received => EchoAction::SendBack,
        _ => EchoAction::Close,
    }
}

} // verus!
