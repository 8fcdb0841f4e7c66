//! The decisions of a server that accepts connections until it is told to
//! shut down.
//!
//! The server polls its control channel first: a shutdown message closes
//! the channel and ends the stream of connections once nothing else is
//! pending; otherwise it polls its listener. The channel and the listener
//! are polled by the caller, which hands back what each poll gave.

use vstd::prelude::*;

verus! {

/// A command sent to a running server.
#[derive(Debug, PartialEq, Eq, Clone, Copy, Structural)]
pub enum ServerMessage {
    /// Stop accepting connections.
    Shutdown,
}

/// What a poll of the control channel gave.
#[derive(Debug, PartialEq, Eq, Clone, Copy, Structural)]
pub enum ControlPoll {
    /// Receiving failed.
    Failed,
    /// The channel is closed: nothing more will come.
    Closed,
    /// A command arrived.
    Received(ServerMessage),
    /// Nothing is waiting.
    NotReady,
}

/// What the server answers, or does next, after a poll.
#[derive(Debug, PartialEq, Eq, Clone, Copy, Structural)]
pub enum ServerAction {
    /// Fail with an error that says receiving a command failed.
    Fail,
    /// The stream of connections has ended.
    Finished,
    /// Nothing to answer yet.
    NotReady,
    /// Poll the listener and answer what it gives.
    PollListener,
}

/// The outcome of polling the control channel: what to answer, and whether
/// the caller must close the channel.
#[derive(Debug, PartialEq, Eq, Clone, Copy, Structural)]
pub struct MessageStep {
    pub action: ServerAction,
    pub close_channel: bool,
}

/// The text of the error answered when receiving a command fails.
pub open spec fn receive_error_message() -> Seq<char> {
    "Error receiving server command"@
}

/// The text of the error answered when receiving a command fails.
pub fn receive_error_text() -> (r: &'static str)
    ensures
        r@ == receive_error_message(),
{
    "Error receiving server command"
}

/// What a server keeps between polls: whether it was told to shut down.
#[derive(Debug, PartialEq, Eq, Clone, Copy, Structural)]
pub struct ServerState {
    pub shutdown: bool,
}

/// What polling the control channel answers.
pub open spec fn message_action(p: ControlPoll) -> ServerAction {
    match p {
        ControlPoll::Failed => ServerAction::Fail,
        ControlPoll::Closed => ServerAction::Finished,
        ControlPoll::Received(ServerMessage::Shutdown) => ServerAction::NotReady,
        ControlPoll::NotReady => ServerAction::NotReady,
    }
}

/// What a poll of the server answers, given its state after the control
/// channel was polled.
pub open spec fn server_action(p: ControlPoll, shutdown_after: bool) -> ServerAction {
    match message_action(p) {
        ServerAction::NotReady => if shutdown_after {
            ServerAction::Finished
        } else {
            ServerAction::PollListener
        },
        other => other,
    }
}

impl ServerState {
    /// A server that was not told to shut down.
    pub fn new() -> (r: ServerState)
        ensures
            !r.shutdown,
    {
        ServerState { shutdown: false }
    }

    /// Handles what a poll of the control channel gave.
    ///
    /// A failed receive fails; a closed channel ends the stream; a
    /// shutdown command closes the channel, marks the server as shut down
    /// and answers not ready; otherwise nothing is ready.
    pub fn poll_msg(&mut self, p: ControlPoll) -> (r: MessageStep)
        ensures
            r.action == message_action(p),
            r.close_channel == (p == ControlPoll::Received(ServerMessage::Shutdown)),
            final(self).shutdown == (old(self).shutdown || p == ControlPoll::Received(
                ServerMessage::Shutdown,
            )),
    {
        match p {
            ControlPoll::Failed => MessageStep { action: ServerAction::Fail, close_channel: false },
            ControlPoll::Closed => MessageStep {
                action: ServerAction::Finished,
                close_channel: false,
            },
            ControlPoll::Received(ServerMessage::Shutdown) => {
                self.shutdown = true;
                MessageStep { action: ServerAction::NotReady, close_channel: true }
            },
            ControlPoll::NotReady => MessageStep {
                action: ServerAction::NotReady,
                close_channel: false,
            },
        }
    }

    /// Handles a poll of the server: the control channel first; when it has
    /// nothing to answer, the stream ends if the server was told to shut
    /// down, else the listener is polled.
    pub fn poll(&mut self, p: ControlPoll) -> (r: MessageStep)
        ensures
            final(self).shutdown == (old(self).shutdown || p == ControlPoll::Received(
                ServerMessage::Shutdown,
            )),
            r.action == server_action(p, final(self).shutdown),
            r.close_channel == (p == ControlPoll::Received(ServerMessage::Shutdown)),
    {
        let step = self.poll_msg(p);
        match step.action {
            ServerAction::NotReady => {
                if self.shutdown {
                    MessageStep { action: ServerAction::Finished, close_channel: step.close_channel }
                } else {
                    MessageStep {
                        action: ServerAction::PollListener,
                        close_channel: step.close_channel,
                    }
                }
            },
            _ => step,
        }
    }
}

/// Once a server was told to shut down, every poll ends the stream without
/// polling the listener, unless receiving from the control channel fails.
/// (`ServerState::poll` keeps a server that was shut down shut down.)
pub proof fn lemma_no_listening_after_shutdown(p: ControlPoll)
    ensures
        server_action(p, true) == (if p == ControlPoll::Failed {
            ServerAction::Fail
        } else {
            ServerAction::Finished
        }),
        p == ControlPoll::Received(ServerMessage::Shutdown) ==> server_action(p, true)
            == ServerAction::Finished,
{
}

} // verus!
