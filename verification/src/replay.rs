//! A whole handshake at once, on outcomes that are known beforehand.

use std::sync::Arc;

use vstd::prelude::*;

use crate::bootstrap::{taken, Bootstrap};
use crate::error::{fault_error, PeerErrorView};
use crate::error::{BinaryReaderError, CryptoFault, Fault, PeerError, Timed};
use crate::handshake::{
    ack_failure, admits, first_action, first_state, next, outcome_view, plain_failure,
    protocol_error, reaction, self_connection_error, session_output, timed_failure, ActionView,
    OutputView,
};
use crate::handshake::{Action, Event, Handshake, NoncePair, Outcome, Phase, Session};
use crate::laws::{law_handshake_order, law_handshake_outcome};
use crate::local::Local;
use crate::messages::{any_supported, offers};
use crate::messages::{AckMessage, BinaryChunk, Introduction, MetadataMessage, OfferedVersion};

verus! {

/// How each action of a handshake turns out. What comes after the first failure is not looked
/// at.
#[derive(Debug)]
pub struct Replies {
    /// The connection message was made ready.
    pub prepared: Result<BinaryChunk, Fault>,
    /// The connection message was written.
    pub connection_written: Timed<()>,
    /// The connection message of the remote peer was read.
    pub connection_read: Timed<BinaryChunk>,
    /// The connection message of the remote peer was decoded.
    pub decoded: Result<Introduction, BinaryReaderError>,
    /// The nonces of the connection were generated.
    pub nonces: NoncePair,
    /// The public key of the remote peer was checked.
    pub key_checked: Result<Vec<u8>, CryptoFault>,
    /// The key of the connection was computed.
    pub precomputed: Vec<u8>,
    /// The public key of the remote peer was hashed.
    pub hashed: Vec<u8>,
    /// The hash was written as text.
    pub marked: String,
    /// The metadata was written.
    pub metadata_written: Timed<()>,
    /// The metadata of the remote peer was read.
    pub metadata_read: Timed<MetadataMessage>,
    /// The last word of this node was written.
    pub ack_written: Timed<()>,
    /// The last word of the remote peer was read.
    pub ack_read: Timed<AckMessage>,
}

/// What cryptography makes of the first messages, where the public key of the remote peer is
/// good.
pub open spec fn derived_session(replies: Replies) -> Session {
    Session {
        nonces: replies.nonces,
        peer_public_key: replies.key_checked->Ok_0,
        precomputed_key: replies.precomputed,
        peer_public_key_hash: replies.hashed,
        peer_id_marker: replies.marked,
    }
}

/// The outcome of a handshake whose keys are derived, and whose remote peer offers `versions`.
pub open spec fn encrypted_outcome(
    info: Local,
    replies: Replies,
    versions: Seq<OfferedVersion>,
    session: Session,
) -> Result<OutputView, PeerErrorView> {
    if session.peer_public_key@ == info.identity.public_key@ {
        Err(self_connection_error())
    } else if let Some(error) = timed_failure(replies.metadata_written) {
        Err(error)
    } else if let Some(error) = timed_failure(replies.metadata_read) {
        Err(error)
    } else if let Some(error) = timed_failure(replies.ack_written) {
        Err(error)
    } else if !any_supported(offers(versions)) {
        Err(protocol_error(info, versions))
    } else if let Some(error) = timed_failure(replies.ack_read) {
        Err(error)
    } else if let Some(error) = ack_failure(replies.ack_read->Done_0) {
        Err(error)
    } else {
        Ok(session_output(session, replies.metadata_read->Done_0))
    }
}

/// The outcome of a handshake: the first failure in the order of the exchange or, if there is
/// none, the session with the metadata of the remote peer.
pub open spec fn handshake_outcome(info: Local, replies: Replies) -> Result<
    OutputView,
    PeerErrorView,
> {
    if let Err(fault) = replies.prepared {
        Err(fault_error(fault))
    } else if let Some(error) = plain_failure(
        replies.connection_written,
        "Failed to transfer connection message"@,
    ) {
        Err(error)
    } else if let Some(error) = plain_failure(
        replies.connection_read,
        "No response to connection message was received"@,
    ) {
        Err(error)
    } else {
        match (replies.decoded, replies.key_checked) {
            (Err(error), _) => Err(PeerErrorView::DeserializationError { error: error.reason@ }),
            (_, Err(error)) => Err(PeerErrorView::CryptoError { error: error.reason@ }),
            (Ok(introduction), Ok(_)) => encrypted_outcome(
                info,
                replies,
                introduction.versions@,
                derived_session(replies),
            ),
        }
    }
}

/// How many events a handshake can still take.
pub open spec fn events_left(phase: Phase) -> nat {
    match phase {
        Phase::Preparing => 13,
        Phase::SendingConnection { .. } => 12,
        Phase::AwaitingConnection { .. } => 11,
        Phase::Decoding { .. } => 10,
        Phase::GeneratingNonces { .. } => 9,
        Phase::CheckingKey { .. } => 8,
        Phase::Precomputing { .. } => 7,
        Phase::Hashing { .. } => 6,
        Phase::Marking { .. } => 5,
        Phase::SendingMetadata { .. } => 4,
        Phase::AwaitingMetadata { .. } => 3,
        Phase::Refusing { .. } => 2,
        Phase::Accepting { .. } => 2,
        Phase::AwaitingAck { .. } => 1,
        Phase::Finished => 0,
    }
}

/// The event that a phase waits for, where the outcomes are known.
pub open spec fn reply(replies: Replies, phase: Phase) -> Event {
    match phase {
        Phase::Preparing => Event::Prepared(replies.prepared),
        Phase::SendingConnection { .. } => Event::Written(replies.connection_written),
        Phase::AwaitingConnection { .. } => Event::ChunkRead(replies.connection_read),
        Phase::Decoding { .. } => Event::Decoded(replies.decoded),
        Phase::GeneratingNonces { .. } => Event::NoncesGenerated(replies.nonces),
        Phase::CheckingKey { .. } => Event::KeyChecked(replies.key_checked),
        Phase::Precomputing { .. } => Event::Precomputed(replies.precomputed),
        Phase::Hashing { .. } => Event::Hashed(replies.hashed),
        Phase::Marking { .. } => Event::Marked(replies.marked),
        Phase::SendingMetadata { .. } => Event::Written(replies.metadata_written),
        Phase::AwaitingMetadata { .. } => Event::MetadataRead(replies.metadata_read),
        Phase::Refusing { .. } => Event::Written(replies.ack_written),
        Phase::Accepting { .. } => Event::Written(replies.ack_written),
        Phase::AwaitingAck { .. } => Event::AckRead(replies.ack_read),
        Phase::Finished => Event::AckRead(replies.ack_read),
    }
}

/// The actions of a handshake from a state on, where the outcomes are known.
pub open spec fn actions(handshake: Handshake, replies: Replies) -> Seq<ActionView>
    decreases events_left(handshake.phase),
{
    if handshake.phase is Finished {
        Seq::empty()
    } else {
        let event = reply(replies, handshake.phase);
        seq![reaction(handshake, event).1] + actions(next(handshake, event), replies)
    }
}

/// What each action of a list says.
pub open spec fn action_views(actions: Seq<Action>) -> Seq<ActionView> {
    actions.map_values(|action: Action| action@)
}

/// A handshake after one more event.
enum Advance {
    Going(Handshake),
    Over(Outcome),
}

/// Takes one more step of a handshake, and notes the action that it asks for.
fn advance(
    handshake: Handshake,
    event: Event,
    asked: &mut Vec<Action>,
    replies: Ghost<Replies>,
) -> (r: Advance)
    requires
        !(handshake.phase is Finished),
        event == reply(replies@, handshake.phase),
    ensures
        match r {
            Advance::Going(after) => {
                &&& !(after.phase is Finished)
                &&& events_left(after.phase) == events_left(handshake.phase) - 1
                &&& action_views(final(asked)@) + actions(after, replies@) == action_views(
                    old(asked)@,
                ) + actions(handshake, replies@)
            },
            Advance::Over(outcome) => action_views(final(asked)@).push(
                ActionView::Finish { outcome: outcome_view(outcome) },
            ) == action_views(old(asked)@) + actions(handshake, replies@),
        },
{
    let ghost before = action_views(asked@);
    let (after, action) = handshake.step(event);
    match action {
        Action::Finish { outcome } => {
            assert(after.phase is Finished);
            assert(actions(after, replies@) =~= Seq::<ActionView>::empty());
            assert(before.push(ActionView::Finish { outcome: outcome_view(outcome) }) =~= before
                + actions(handshake, replies@));
            Advance::Over(outcome)
        },
        action => {
            asked.push(action);
            assert(action_views(asked@) =~= before.push(reaction(handshake, event).1));
            assert(action_views(asked@) + actions(after, replies@) =~= before + actions(
                handshake,
                replies@,
            ));
            Advance::Going(after)
        },
    }
}

/// Carries out a handshake from its start on, and notes the actions that it asks for. Gives its
/// outcome.
fn run(handshake: Handshake, replies: Replies, asked: &mut Vec<Action>) -> (r: Outcome)
    requires
        handshake.phase is Preparing,
    ensures
        action_views(final(asked)@).push(ActionView::Finish { outcome: outcome_view(r) })
            == action_views(old(asked)@) + actions(handshake, replies),
{
    let ghost given = replies;
    let event = Event::Prepared(replies.prepared);
    let handshake = match advance(handshake, event, asked, Ghost(given)) {
        Advance::Going(handshake) => handshake,
        Advance::Over(outcome) => return outcome,
    };
    let event = Event::Written(replies.connection_written);
    let handshake = match advance(handshake, event, asked, Ghost(given)) {
        Advance::Going(handshake) => handshake,
        Advance::Over(outcome) => return outcome,
    };
    let event = Event::ChunkRead(replies.connection_read);
    let handshake = match advance(handshake, event, asked, Ghost(given)) {
        Advance::Going(handshake) => handshake,
        Advance::Over(outcome) => return outcome,
    };
    let event = Event::Decoded(replies.decoded);
    let handshake = match advance(handshake, event, asked, Ghost(given)) {
        Advance::Going(handshake) => handshake,
        Advance::Over(outcome) => return outcome,
    };
    let event = Event::NoncesGenerated(replies.nonces);
    let handshake = match advance(handshake, event, asked, Ghost(given)) {
        Advance::Going(handshake) => handshake,
        Advance::Over(outcome) => return outcome,
    };
    let event = Event::KeyChecked(replies.key_checked);
    let handshake = match advance(handshake, event, asked, Ghost(given)) {
        Advance::Going(handshake) => handshake,
        Advance::Over(outcome) => return outcome,
    };
    let event = Event::Precomputed(replies.precomputed);
    let handshake = match advance(handshake, event, asked, Ghost(given)) {
        Advance::Going(handshake) => handshake,
        Advance::Over(outcome) => return outcome,
    };
    let event = Event::Hashed(replies.hashed);
    let handshake = match advance(handshake, event, asked, Ghost(given)) {
        Advance::Going(handshake) => handshake,
        Advance::Over(outcome) => return outcome,
    };
    let event = Event::Marked(replies.marked);
    let handshake = match advance(handshake, event, asked, Ghost(given)) {
        Advance::Going(handshake) => handshake,
        Advance::Over(outcome) => return outcome,
    };
    let event = Event::Written(replies.metadata_written);
    let handshake = match advance(handshake, event, asked, Ghost(given)) {
        Advance::Going(handshake) => handshake,
        Advance::Over(outcome) => return outcome,
    };
    let event = Event::MetadataRead(replies.metadata_read);
    let handshake = match advance(handshake, event, asked, Ghost(given)) {
        Advance::Going(handshake) => handshake,
        Advance::Over(outcome) => return outcome,
    };
    let event = Event::Written(replies.ack_written);
    let handshake = match advance(handshake, event, asked, Ghost(given)) {
        Advance::Going(handshake) => handshake,
        Advance::Over(outcome) => return outcome,
    };
    let event = Event::AckRead(replies.ack_read);
    match advance(handshake, event, asked, Ghost(given)) {
        Advance::Over(outcome) => outcome,
        Advance::Going(_) => {
            assert(false);
            Err(PeerError::NackReceived)
        },
    }
}

/// Carries out a handshake on the stream of a command. Gives that stream back, with the actions
/// that were asked for before the end, and with the outcome.
pub fn bootstrap<T>(
    msg: &mut Bootstrap<T>,
    info: Arc<Local>,
    message_nonce: Vec<u8>,
    replies: Replies,
) -> (r: (T, Vec<Action>, Outcome))
    requires
        admits(*old(msg)),
    ensures
        Some(r.0) == old(msg).stream,
        *final(msg) == taken(*old(msg)),
        action_views(r.1@).push(ActionView::Finish { outcome: outcome_view(r.2) }) == seq![
            first_action(*info, message_nonce@),
        ] + actions(first_state(*old(msg), info), replies),
        outcome_view(r.2) == handshake_outcome(*info, replies),
{
    let (stream, handshake, action) = Handshake::start(msg, info, message_nonce);
    let mut asked: Vec<Action> = Vec::new();
    asked.push(action);
    assert(action_views(asked@) =~= seq![first_action(*info, message_nonce@)]);
    let ghost before = action_views(asked@);
    let ghost all = actions(handshake, replies);
    let outcome = run(handshake, replies, &mut asked);
    proof {
        law_handshake_order(handshake, replies);
        law_handshake_outcome(handshake, replies);
        let told = action_views(asked@).push(
            ActionView::Finish { outcome: outcome_view(outcome) },
        );
        assert(told == before + all);
        assert(told.last() == all.last());
    }
    (stream, asked, outcome)
}

} // verus!
