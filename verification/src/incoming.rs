//! The loop that reads from an open connection.
//!
//! A flag, which others may lower at any time, says whether to go on. The loop looks at it before
//! each read, and again before it passes on what was read.

use std::collections::VecDeque;
use std::sync::Arc;

use vstd::prelude::*;

use crate::bootstrap::READ_TIMEOUT_LONG_SECS;
use crate::channel::{NetworkChannelMsg, NetworkChannelTopic, PeerRef, Publish};
use crate::error::{unsupported_tag, Timed};

verus! {

/// What the loop waits for.
#[derive(Debug)]
pub enum ReadPhase<M> {
    /// Whether to read another message.
    Polling,
    /// A message.
    Reading,
    /// Whether to pass on the message that was read.
    Delivering { message: M },
    /// The writer of the connection, to close it.
    Closing,
    /// Nothing: the connection is closed.
    Stopped,
}

/// The outcome of an action.
#[derive(Debug)]
pub enum ReadEvent<M, W> {
    /// Whether the flag is up.
    Running(bool),
    /// A read has ended.
    Read(Timed<M>),
    /// The writer was taken, if there was one.
    WriterTaken(Option<W>),
}

/// What to do next.
#[derive(Debug)]
pub enum ReadAction<M, W> {
    /// Look at the flag.
    CheckRunning,
    /// Read a message, in [`READ_TIMEOUT_LONG_SECS`] seconds at most.
    Read,
    /// Pass on a message, then look at the flag.
    Publish(Publish<M>),
    /// Take the writer of the connection, once nobody writes.
    TakeWriter,
    /// Shut both directions of the connection down, and end.
    Shutdown { writer: W },
    /// End.
    Finish,
}

/// The seconds that an action of the loop may take, where it waits for the remote peer.
pub open spec fn read_deadline<M, W>(action: ReadAction<M, W>) -> Option<u64> {
    match action {
        ReadAction::Read => Some(READ_TIMEOUT_LONG_SECS),
        _ => None,
    }
}

impl<M, W> ReadAction<M, W> {
    /// The seconds that the action may take, where it waits for the remote peer.
    pub fn deadline_secs(&self) -> (r: Option<u64>)
        ensures
            r == read_deadline(*self),
    {
        match self {
            ReadAction::Read => Some(READ_TIMEOUT_LONG_SECS),
            _ => None,
        }
    }
}

/// A loop that reads for a peer.
#[derive(Debug)]
pub struct IncomingLoop<M> {
    pub myself: PeerRef,
    pub phase: ReadPhase<M>,
}

/// Whether a phase waits for an event of this kind.
pub open spec fn read_awaits<M, W>(phase: ReadPhase<M>, event: ReadEvent<M, W>) -> bool {
    match event {
        ReadEvent::Running(_) => phase is Polling || phase is Delivering,
        ReadEvent::Read(_) => phase is Reading,
        ReadEvent::WriterTaken(_) => phase is Closing,
    }
}

/// Whether the end of a read ends the loop. A message with an unknown tag does not.
pub open spec fn ends_loop<M>(read: Timed<M>) -> bool {
    match read {
        Timed::Elapsed(_) => true,
        Timed::Failed(error) => unsupported_tag(error) is None,
        Timed::Done(_) => false,
    }
}

/// How a message is passed on.
pub open spec fn delivery<M>(peer: PeerRef, message: M) -> Publish<M> {
    Publish {
        msg: NetworkChannelMsg::PeerMessageReceived { peer, message: Arc::new(message) },
        topic: NetworkChannelTopic::NetworkEvents,
        sender: peer,
    }
}

/// What the loop does with an event.
pub open spec fn read_reaction<M, W>(myself: PeerRef, phase: ReadPhase<M>, event: ReadEvent<M, W>) -> (
    ReadPhase<M>,
    ReadAction<M, W>,
) {
    match event {
        ReadEvent::Running(running) => match phase {
            ReadPhase::Delivering { message } => if running {
                (ReadPhase::Polling, ReadAction::Publish(delivery(myself, message)))
            } else {
                (ReadPhase::Polling, ReadAction::CheckRunning)
            },
            _ => if running {
                (ReadPhase::Reading, ReadAction::Read)
            } else {
                (ReadPhase::Closing, ReadAction::TakeWriter)
            },
        },
        ReadEvent::Read(read) => match read {
            Timed::Done(message) => (ReadPhase::Delivering { message }, ReadAction::CheckRunning),
            _ => if ends_loop(read) {
                (ReadPhase::Closing, ReadAction::TakeWriter)
            } else {
                (ReadPhase::Polling, ReadAction::CheckRunning)
            },
        },
        ReadEvent::WriterTaken(taken) => match taken {
            Some(writer) => (ReadPhase::Stopped, ReadAction::Shutdown { writer }),
            None => (ReadPhase::Stopped, ReadAction::Finish),
        },
    }
}

impl<M> IncomingLoop<M> {
    /// A loop that has not looked at the flag yet.
    pub fn start<W>(myself: PeerRef) -> (r: (IncomingLoop<M>, ReadAction<M, W>))
        ensures
            r.0 == (IncomingLoop::<M> { myself, phase: ReadPhase::Polling }),
            r.1 == ReadAction::<M, W>::CheckRunning,
    {
        (IncomingLoop { myself, phase: ReadPhase::Polling }, ReadAction::CheckRunning)
    }

    /// Whether the loop waits for an event of this kind.
    pub fn accepts<W>(&self, event: &ReadEvent<M, W>) -> (r: bool)
        ensures
            r == read_awaits(self.phase, *event),
    {
        match (&self.phase, event) {
            (ReadPhase::Polling, ReadEvent::Running(_)) => true,
            (ReadPhase::Delivering { .. }, ReadEvent::Running(_)) => true,
            (ReadPhase::Reading, ReadEvent::Read(_)) => true,
            (ReadPhase::Closing, ReadEvent::WriterTaken(_)) => true,
            _ => false,
        }
    }

    /// Takes the outcome of the last action, and says what to do next.
    pub fn step<W>(self, event: ReadEvent<M, W>) -> (r: (IncomingLoop<M>, ReadAction<M, W>))
        requires
            read_awaits(self.phase, event),
        ensures
            r.0.myself == self.myself,
            (r.0.phase, r.1) == read_reaction(self.myself, self.phase, event),
    {
        let IncomingLoop { myself, phase } = self;
        let (phase, action) = match (phase, event) {
            (ReadPhase::Delivering { message }, ReadEvent::Running(running)) => {
                let should_broadcast_message = running;
                if should_broadcast_message {
                    let msg = NetworkChannelMsg::PeerMessageReceived {
                        peer: myself.copied(),
                        message: Arc::new(message),
                    };
                    let publish = Publish {
                        msg,
                        topic: NetworkChannelTopic::NetworkEvents,
                        sender: myself.copied(),
                    };
                    (ReadPhase::Polling, ReadAction::Publish(publish))
                } else {
                    (ReadPhase::Polling, ReadAction::CheckRunning)
                }
            },
            (_, ReadEvent::Running(running)) => {
                if running {
                    (ReadPhase::Reading, ReadAction::Read)
                } else {
                    (ReadPhase::Closing, ReadAction::TakeWriter)
                }
            },
            (_, ReadEvent::Read(read)) => match read {
                Timed::Done(message) => (
                    ReadPhase::Delivering { message },
                    ReadAction::CheckRunning,
                ),
                Timed::Failed(error) => {
                    if error.unsupported_tag().is_some() {
                        // messages with unsupported tags are ignored
                        (ReadPhase::Polling, ReadAction::CheckRunning)
                    } else {
                        (ReadPhase::Closing, ReadAction::TakeWriter)
                    }
                },
                Timed::Elapsed(_) => (ReadPhase::Closing, ReadAction::TakeWriter),
            },
            (_, ReadEvent::WriterTaken(taken)) => match taken {
                Some(writer) => (ReadPhase::Stopped, ReadAction::Shutdown { writer }),
                None => (ReadPhase::Stopped, ReadAction::Finish),
            },
        };
        (IncomingLoop { myself, phase }, action)
    }
}

/// One time through the loop: how the read ended, and whether the flag was still up then.
#[derive(Debug)]
pub struct Round<M> {
    pub read: Timed<M>,
    pub still_running: bool,
}

/// The messages that are passed on when the flag is up at the start of each round, and down
/// after the last one.
pub open spec fn deliveries<M>(rounds: Seq<Round<M>>) -> Seq<M>
    decreases rounds.len(),
{
    if rounds.len() == 0 || ends_loop(rounds[0].read) {
        Seq::empty()
    } else {
        let rest = deliveries(rounds.drop_first());
        match rounds[0].read {
            Timed::Done(message) if rounds[0].still_running => seq![message] + rest,
            _ => rest,
        }
    }
}

/// How many reads are made in those rounds: one for each, up to and including the first that
/// ends the loop.
pub open spec fn reads_made<M>(rounds: Seq<Round<M>>) -> nat
    decreases rounds.len(),
{
    if rounds.len() == 0 {
        0
    } else if ends_loop(rounds[0].read) {
        1
    } else {
        1 + reads_made(rounds.drop_first())
    }
}

/// What the loop did: how often it read, what it passed on, and the writer of the connection
/// that it shut down.
#[derive(Debug)]
pub struct Transcript<M, W> {
    pub reads: usize,
    pub published: Vec<Publish<M>>,
    pub shutdown: Option<W>,
}

/// What is told to the rest of the node in those rounds.
pub open spec fn broadcasts<M>(peer: PeerRef, rounds: Seq<Round<M>>) -> Seq<Publish<M>> {
    deliveries(rounds).map_values(|message: M| delivery(peer, message))
}

/// Carries out the loop on rounds that are known beforehand. The flag is up at the start of each
/// of them, and down after the last one.
pub fn begin_process_incoming<M, W>(
    myself: PeerRef,
    rounds: VecDeque<Round<M>>,
    writer: Option<W>,
) -> (r: Transcript<M, W>)
    ensures
        r.reads == reads_made(rounds@),
        r.published@ == broadcasts(myself, rounds@),
        r.shutdown == writer,
{
    let ghost peer = myself;
    let ghost all = rounds@;
    let total: usize = rounds.len();
    let mut reads: usize = 0;
    let mut rounds = rounds;
    let mut published: Vec<Publish<M>> = Vec::new();
    let (first, _): (IncomingLoop<M>, ReadAction<M, W>) = IncomingLoop::start(myself);
    let mut state: IncomingLoop<M> = first;
    assert(published@ + broadcasts(peer, rounds@) =~= broadcasts(peer, all));
    loop
        invariant_except_break
            state.phase == ReadPhase::<M>::Polling,
            published@ + broadcasts(peer, rounds@) == broadcasts(peer, all),
            reads + reads_made(rounds@) == reads_made(all),
            reads + rounds@.len() == total,
        invariant
            state.myself == peer,
        ensures
            state.phase == ReadPhase::<M>::Closing,
            published@ == broadcasts(peer, all),
            reads == reads_made(all),
        decreases rounds@.len(),
    {
        let ghost left = rounds@;
        let round = match rounds.pop_front() {
            Some(round) => round,
            None => {
                let (closing, _): (IncomingLoop<M>, ReadAction<M, W>) = state.step(
                    ReadEvent::Running(false),
                );
                state = closing;
                assert(published@ =~= broadcasts(peer, all));
                break;
            },
        };
        assert(rounds@ =~= left.drop_first());
        let (reading, action): (IncomingLoop<M>, ReadAction<M, W>) = state.step(
            ReadEvent::Running(true),
        );
        if let ReadAction::Read = action {
            reads += 1;
        }
        let (after, _): (IncomingLoop<M>, ReadAction<M, W>) = reading.step(
            ReadEvent::Read(round.read),
        );
        if let ReadPhase::Closing = after.phase {
            state = after;
            assert(published@ =~= broadcasts(peer, all));
            break;
        }
        if let ReadPhase::Delivering { .. } = after.phase {
            let (polling, action): (IncomingLoop<M>, ReadAction<M, W>) = after.step(
                ReadEvent::Running(round.still_running),
            );
            if let ReadAction::Publish(publish) = action {
                published.push(publish);
            }
            state = polling;
        } else {
            state = after;
        }
        assert(published@ + broadcasts(peer, rounds@) =~= broadcasts(peer, all));
    }
    let (_, action): (IncomingLoop<M>, ReadAction<M, W>) = state.step(
        ReadEvent::WriterTaken(writer),
    );
    let shutdown = match action {
        ReadAction::Shutdown { writer } => Some(writer),
        _ => None,
    };
    Transcript { reads, published, shutdown }
}

} // verus!
