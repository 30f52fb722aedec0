//! The task that writes one message to an open connection.

use std::sync::Arc;

use vstd::prelude::*;

use crate::bootstrap::IO_TIMEOUT_SECS;
use crate::error::Timed;

verus! {

/// Commands a peer to send a p2p message to a remote peer.
#[derive(Clone, Debug)]
pub struct SendMessage<M> {
    /// Message is wrapped in `Arc` to avoid excessive cloning.
    pub message: Arc<M>,
}

impl<M> SendMessage<M> {
    /// Sends `message`.
    pub fn new(message: Arc<M>) -> (r: SendMessage<M>)
        ensures
            r.message == message,
    {
        SendMessage { message }
    }
}

/// What the task waits for.
#[derive(Debug)]
pub enum SendPhase<M> {
    /// To have the writer for itself.
    Locking { message: Arc<M> },
    /// The end of the write.
    Writing,
    /// Nothing is left to do.
    Finished,
}

/// The outcome of an action.
#[derive(Debug)]
pub enum SendEvent<W> {
    /// Nobody else uses the writer of the connection, if there is one.
    WriterLocked(Option<W>),
    /// The message was written.
    Written(Timed<()>),
}

/// What to do next.
#[derive(Debug)]
pub enum SendAction<M, W> {
    /// Wait for the writer.
    LockWriter,
    /// Write a message with this writer, in [`IO_TIMEOUT_SECS`] seconds at most, then let go of
    /// the writer.
    Write { message: Arc<M>, writer: W },
    /// Stop the actor of the peer, and end.
    StopPeer,
    /// End.
    Finish,
}

/// The seconds that an action of the task may take, where it waits for the remote peer.
pub open spec fn send_deadline<M, W>(action: SendAction<M, W>) -> Option<u64> {
    match action {
        SendAction::Write { .. } => Some(IO_TIMEOUT_SECS),
        _ => None,
    }
}

impl<M, W> SendAction<M, W> {
    /// The seconds that the action may take, where it waits for the remote peer.
    pub fn deadline_secs(&self) -> (r: Option<u64>)
        ensures
            r == send_deadline(*self),
    {
        match self {
            SendAction::Write { .. } => Some(IO_TIMEOUT_SECS),
            _ => None,
        }
    }
}

/// Whether a phase waits for an event of this kind.
pub open spec fn send_awaits<M, W>(phase: SendPhase<M>, event: SendEvent<W>) -> bool {
    match event {
        SendEvent::WriterLocked(_) => phase is Locking,
        SendEvent::Written(_) => phase is Writing,
    }
}

/// What the task does with an event: without a writer the message is dropped, and a write
/// that does not succeed is the end of the peer.
pub open spec fn send_reaction<M, W>(phase: SendPhase<M>, event: SendEvent<W>) -> (
    SendPhase<M>,
    SendAction<M, W>,
) {
    match event {
        SendEvent::WriterLocked(locked) => match locked {
            Some(writer) => (
                SendPhase::Writing,
                SendAction::Write { message: phase->message, writer },
            ),
            None => (SendPhase::Finished, SendAction::Finish),
        },
        SendEvent::Written(written) => if written is Done {
            (SendPhase::Finished, SendAction::Finish)
        } else {
            (SendPhase::Finished, SendAction::StopPeer)
        },
    }
}

/// A task that writes one message.
#[derive(Debug)]
pub struct SendTask<M> {
    pub phase: SendPhase<M>,
}

impl<M> SendTask<M> {
    /// A task for a command.
    pub fn start<W>(msg: SendMessage<M>) -> (r: (SendTask<M>, SendAction<M, W>))
        ensures
            r.0 == (SendTask { phase: SendPhase::Locking { message: msg.message } }),
            r.1 == SendAction::<M, W>::LockWriter,
    {
        (SendTask { phase: SendPhase::Locking { message: msg.message } }, SendAction::LockWriter)
    }

    /// Whether the task waits for an event of this kind.
    pub fn accepts<W>(&self, event: &SendEvent<W>) -> (r: bool)
        ensures
            r == send_awaits(self.phase, *event),
    {
        match (&self.phase, event) {
            (SendPhase::Locking { .. }, SendEvent::WriterLocked(_)) => true,
            (SendPhase::Writing, SendEvent::Written(_)) => true,
            _ => false,
        }
    }

    /// Takes the outcome of the last action, and says what to do next.
    pub fn step<W>(self, event: SendEvent<W>) -> (r: (SendTask<M>, SendAction<M, W>))
        requires
            send_awaits(self.phase, event),
        ensures
            (r.0.phase, r.1) == send_reaction(self.phase, event),
    {
        let (phase, action) = match (self.phase, event) {
            (SendPhase::Locking { message }, SendEvent::WriterLocked(locked)) => {
                match locked {
                    Some(writer) => (SendPhase::Writing, SendAction::Write { message, writer }),
                    None => (SendPhase::Finished, SendAction::Finish),
                }
            },
            (_, SendEvent::Written(written)) => match written {
                Timed::Done(_) => (SendPhase::Finished, SendAction::Finish),
                Timed::Failed(_) => (SendPhase::Finished, SendAction::StopPeer),
                Timed::Elapsed(_) => (SendPhase::Finished, SendAction::StopPeer),
            },
            (phase, _) => {
                assert(false);
                (phase, SendAction::Finish)
            },
        };
        (SendTask { phase }, action)
    }
}

} // verus!
