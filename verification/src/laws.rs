//! What holds of the library as a whole.

use std::sync::Arc;

use vstd::prelude::*;

use crate::address::SocketAddress;
use crate::bootstrap::{taken, Bootstrap, BootstrapOutput};
use crate::channel::PeerRef;
use crate::error::{Fault, PeerError, PeerErrorView, Timed};
use crate::handshake::{
    admits, next, reaction, self_connection_error, ActionView, NonceSeedView, OutputView,
};
use crate::handshake::{Handshake, Phase};
use crate::incoming::{
    deliveries, delivery, ends_loop, read_awaits, read_reaction, reads_made, ReadAction, ReadEvent,
    ReadPhase, Round,
};
use crate::local::Local;
use crate::messages::{any_supported, network_version_text, offers, offers_text};
use crate::messages::{AckMessage, AckMessageView, BinaryChunk, OfferedVersion};
use crate::peer::{
    actor_name, addressed, aftermath, number_after, opened, potential_peers, stopped, unconnected,
    without_writer,
};
use crate::peer::{Peer, TaskAction};
use crate::replay::{
    actions, derived_session, events_left, handshake_outcome, reply, Replies,
};
use crate::sending::{send_awaits, send_reaction, SendAction, SendEvent, SendPhase};
use crate::text::{decimal_text, decimal_value, lemma_decimal_round_trip};

verus! {

// ---------------------------------------------------------------------------------------
// The handshake
// ---------------------------------------------------------------------------------------

/// The place of an action in the order of the exchange.
pub open spec fn stage(action: ActionView) -> nat {
    match action {
        ActionView::Prepare { .. } => 0,
        ActionView::WriteChunk { .. } => 1,
        ActionView::ReadChunk => 2,
        ActionView::Decode { .. } => 3,
        ActionView::GenerateNonces { .. } => 4,
        ActionView::CheckKey { .. } => 5,
        ActionView::Precompute { .. } => 6,
        ActionView::Hash { .. } => 7,
        ActionView::Mark { .. } => 8,
        ActionView::WriteMetadata { .. } => 9,
        ActionView::ReadMetadata => 10,
        ActionView::WriteAck { .. } => 11,
        ActionView::ReadAck => 12,
        ActionView::Finish { .. } => 13,
    }
}

/// From any phase on, the actions of a handshake come one after the other, up to the end.
proof fn lemma_order(handshake: Handshake, replies: Replies)
    requires
        !(handshake.phase is Finished),
    ensures
        1 <= actions(handshake, replies).len() <= events_left(handshake.phase),
        actions(handshake, replies).last() is Finish,
        forall|i: int|
            0 <= i < actions(handshake, replies).len() - 1 ==> stage(
                #[trigger] actions(handshake, replies)[i],
            ) == 14 - events_left(handshake.phase) + i,
    decreases events_left(handshake.phase),
{
    let event = reply(replies, handshake.phase);
    let after = next(handshake, event);
    let all = actions(handshake, replies);
    let rest = actions(after, replies);
    assert(all == seq![reaction(handshake, event).1] + rest);
    if after.phase is Finished {
        assert(rest =~= Seq::<ActionView>::empty());
    } else {
        lemma_order(after, replies);
        assert(events_left(after.phase) == events_left(handshake.phase) - 1);
        assert forall|i: int| 0 <= i < all.len() - 1 implies stage(#[trigger] all[i]) == 14
            - events_left(handshake.phase) + i by {
            if i > 0 {
                assert(all[i] == rest[i - 1]);
            }
        }
        assert(all.last() == rest.last());
    }
}

/// A handshake takes one event after the other, never goes back, and is over after thirteen
/// of them at most. Its last action, and only that one, is to finish; those before it come in the
/// fixed order of the exchange, without a gap.
pub proof fn law_handshake_order(handshake: Handshake, replies: Replies)
    requires
        handshake.phase is Preparing,
    ensures
        1 <= actions(handshake, replies).len() <= 13,
        actions(handshake, replies).last() is Finish,
        forall|i: int|
            0 <= i < actions(handshake, replies).len() - 1 ==> stage(
                #[trigger] actions(handshake, replies)[i],
            ) == i + 1,
{
    lemma_order(handshake, replies);
}

/// Both connection messages went through, and the keys are derived.
pub open spec fn connected(replies: Replies) -> bool {
    &&& replies.prepared is Ok
    &&& replies.connection_written is Done
    &&& replies.connection_read is Done
    &&& replies.decoded is Ok
    &&& replies.key_checked is Ok
}

/// The remote peer has the public key of this node.
pub open spec fn own_key(info: Local, replies: Replies) -> bool {
    replies.key_checked->Ok_0@ == info.identity.public_key@
}

/// The keys are derived, and the remote peer is not this node.
pub open spec fn keyed(info: Local, replies: Replies) -> bool {
    connected(replies) && !own_key(info, replies)
}

/// Both sides have told their metadata.
pub open spec fn introduced(info: Local, replies: Replies) -> bool {
    &&& keyed(info, replies)
    &&& replies.metadata_written is Done
    &&& replies.metadata_read is Done
}

/// The remote peer offers a version that this node supports.
pub open spec fn compatible(replies: Replies) -> bool {
    exists|k: int|
        0 <= k < replies.decoded->Ok_0.versions@.len() && (
        #[trigger] replies.decoded->Ok_0.versions@[k]).supported
}

/// A remote peer can be talked to if and only if one of the versions that it offers is supported,
/// wherever in its list that one stands.
pub proof fn law_one_supported_version_is_enough(versions: Seq<OfferedVersion>)
    ensures
        any_supported(offers(versions)) <==> exists|k: int|
            0 <= k < versions.len() && (#[trigger] versions[k]).supported,
{
    let said = offers(versions);
    assert(said.len() == versions.len());
    if any_supported(said) {
        let k = choose|k: int| 0 <= k < said.len() && (#[trigger] said[k]).supported;
        assert(said[k].supported == versions[k].supported);
    }
    if exists|k: int| 0 <= k < versions.len() && (#[trigger] versions[k]).supported {
        let k = choose|k: int| 0 <= k < versions.len() && (#[trigger] versions[k]).supported;
        assert(said[k].supported == versions[k].supported);
    }
}

/// This node has accepted the remote peer, and the remote peer has answered.
pub open spec fn answered(info: Local, replies: Replies) -> bool {
    &&& introduced(info, replies)
    &&& compatible(replies)
    &&& replies.ack_written is Done
    &&& replies.ack_read is Done
}

/// A handshake succeeds if and only if every message went through, the remote peer is not this
/// node, offers a version that this node supports, and accepts. Then each direction has its own
/// nonce: the one that reads the remote nonce, the one that writes the local nonce.
pub proof fn law_success(info: Local, replies: Replies)
    ensures
        handshake_outcome(info, replies) is Ok <==> answered(info, replies)
            && replies.ack_read->Done_0 is Ack,
        handshake_outcome(info, replies) matches Ok(output) ==> {
            &&& output.reader.nonce == replies.nonces.remote@
            &&& output.writer.nonce == replies.nonces.local@
            &&& output.reader.precomputed_key == replies.precomputed@
            &&& output.writer.precomputed_key == replies.precomputed@
            &&& output.peer_public_key_hash == replies.hashed@
            &&& output.peer_id_marker == replies.marked@
            &&& output.metadata == replies.metadata_read->Done_0
        },
{
    law_one_supported_version_is_enough(replies.decoded->Ok_0.versions@);
}

/// A handshake reports an unsupported protocol if and only if both sides have told their
/// metadata, no version that the remote peer offers is supported, and the refusal went through.
/// The report then holds the version of this node and those of the remote peer.
pub proof fn law_unsupported_protocol(info: Local, replies: Replies)
    ensures
        (handshake_outcome(info, replies) matches Err(error) && error is UnsupportedProtocol)
            <==> introduced(info, replies) && !compatible(replies) && replies.ack_written is Done,
        handshake_outcome(info, replies) matches Err(
            PeerErrorView::UnsupportedProtocol { supported_version, incompatible_versions },
        ) ==> {
            &&& supported_version == network_version_text(info.version@)
            &&& incompatible_versions == offers_text(offers(replies.decoded->Ok_0.versions@))
        },
{
    law_one_supported_version_is_enough(replies.decoded->Ok_0.versions@);
}

/// A handshake reports a refusal without a motive if and only if the remote peer has answered
/// with one.
pub proof fn law_nack(info: Local, replies: Replies)
    ensures
        handshake_outcome(info, replies) == Err::<OutputView, PeerErrorView>(
            PeerErrorView::NackReceived,
        ) <==> answered(info, replies) && replies.ack_read->Done_0 is NackV0,
{
    law_one_supported_version_is_enough(replies.decoded->Ok_0.versions@);
}

/// A handshake reports a refusal with a motive if and only if the remote peer has answered with
/// it, or is this node itself.
pub proof fn law_nack_with_motive(info: Local, replies: Replies)
    ensures
        (handshake_outcome(info, replies) matches Err(error) && error is NackWithMotiveReceived)
            <==> {
            ||| connected(replies) && own_key(info, replies)
            ||| answered(info, replies) && replies.ack_read->Done_0 is Nack
        },
        connected(replies) && own_key(info, replies) ==> handshake_outcome(info, replies) == Err::<
            OutputView,
            PeerErrorView,
        >(self_connection_error()),
        answered(info, replies) ==> (replies.ack_read->Done_0 matches AckMessage::Nack(nack_info)
            ==> handshake_outcome(info, replies) == Err::<OutputView, PeerErrorView>(
            PeerErrorView::NackWithMotiveReceived { nack_info: nack_info@ },
        )),
{
    law_one_supported_version_is_enough(replies.decoded->Ok_0.versions@);
}

/// Whether an action asks for what the outcomes so far make of it. The connection message is
/// made ready at the start, and never again.
pub open spec fn asks_rightly(handshake: Handshake, replies: Replies, action: ActionView) -> bool {
    match action {
        ActionView::Prepare { .. } => false,
        ActionView::WriteChunk { raw } => raw == replies.prepared->Ok_0.raw@,
        ActionView::ReadChunk => true,
        ActionView::Decode { content, ours } => {
            &&& content == replies.connection_read->Done_0.content@
            &&& ours.chain_name == handshake.info.version.chain_name@
            &&& ours.distributed_db_version == handshake.info.version.distributed_db_version
            &&& ours.p2p_version == handshake.info.version.p2p_version
        },
        ActionView::GenerateNonces { seed } => {
            &&& seed.sent == replies.prepared->Ok_0.raw@
            &&& seed.received == replies.connection_read->Done_0.raw@
            &&& seed.incoming == handshake.incoming
        },
        ActionView::CheckKey { public_key } => public_key == replies.decoded->Ok_0.public_key@,
        ActionView::Precompute { peer_public_key, secret_key } => {
            &&& peer_public_key == replies.key_checked->Ok_0@
            &&& secret_key == handshake.info.identity.secret_key@
        },
        ActionView::Hash { peer_public_key } => peer_public_key == replies.key_checked->Ok_0@,
        ActionView::Mark { peer_public_key_hash } => peer_public_key_hash == replies.hashed@,
        ActionView::WriteMetadata { writer, reader, metadata } => {
            &&& keyed(*handshake.info, replies)
            &&& writer.precomputed_key == replies.precomputed@
            &&& writer.nonce == replies.nonces.local@
            &&& reader.precomputed_key == replies.precomputed@
            &&& reader.nonce == replies.nonces.remote@
            &&& metadata.disable_mempool == handshake.disable_mempool
            &&& metadata.private_node == handshake.private_node
        },
        ActionView::ReadMetadata => true,
        ActionView::WriteAck { ack } => {
            &&& introduced(*handshake.info, replies)
            &&& ack == if compatible(replies) {
                AckMessageView::Ack
            } else {
                AckMessageView::NackV0
            }
        },
        ActionView::ReadAck => true,
        ActionView::Finish { outcome } => outcome == handshake_outcome(*handshake.info, replies),
    }
}

/// Whether a phase can be reached with these outcomes, and holds what they make of it.
spec fn so_far(info: Local, replies: Replies, phase: Phase) -> bool {
    let framed = replies.prepared is Ok && replies.connection_written is Done
        && replies.connection_read is Done;
    let offered = replies.decoded->Ok_0.versions;
    let session = derived_session(replies);
    match phase {
        Phase::Preparing => true,
        Phase::SendingConnection { sent } => replies.prepared == Ok::<BinaryChunk, Fault>(sent),
        Phase::AwaitingConnection { sent } => {
            &&& replies.prepared == Ok::<BinaryChunk, Fault>(sent)
            &&& replies.connection_written is Done
        },
        Phase::Decoding { sent, received } => {
            &&& framed
            &&& sent == replies.prepared->Ok_0
            &&& received == replies.connection_read->Done_0
        },
        Phase::GeneratingNonces { introduction } => {
            &&& framed
            &&& replies.decoded is Ok
            &&& introduction == replies.decoded->Ok_0
        },
        Phase::CheckingKey { versions, nonces } => {
            &&& framed
            &&& replies.decoded is Ok
            &&& versions == offered
            &&& nonces == session.nonces
        },
        Phase::Precomputing { versions, nonces, peer_public_key } => {
            &&& connected(replies)
            &&& versions == offered
            &&& nonces == session.nonces
            &&& peer_public_key == session.peer_public_key
        },
        Phase::Hashing { versions, nonces, peer_public_key, precomputed_key } => {
            &&& connected(replies)
            &&& versions == offered
            &&& nonces == session.nonces
            &&& peer_public_key == session.peer_public_key
            &&& precomputed_key == session.precomputed_key
        },
        Phase::Marking {
            versions,
            nonces,
            peer_public_key,
            precomputed_key,
            peer_public_key_hash,
        } => {
            &&& connected(replies)
            &&& versions == offered
            &&& nonces == session.nonces
            &&& peer_public_key == session.peer_public_key
            &&& precomputed_key == session.precomputed_key
            &&& peer_public_key_hash == session.peer_public_key_hash
        },
        Phase::SendingMetadata { versions, session: held } => {
            &&& keyed(info, replies)
            &&& versions == offered
            &&& held == session
        },
        Phase::AwaitingMetadata { versions, session: held } => {
            &&& keyed(info, replies)
            &&& replies.metadata_written is Done
            &&& versions == offered
            &&& held == session
        },
        Phase::Refusing { versions } => {
            &&& introduced(info, replies)
            &&& !compatible(replies)
            &&& versions == offered
        },
        Phase::Accepting { session: held, metadata } => {
            &&& introduced(info, replies)
            &&& compatible(replies)
            &&& held == session
            &&& metadata == replies.metadata_read->Done_0
        },
        Phase::AwaitingAck { session: held, metadata } => {
            &&& introduced(info, replies)
            &&& compatible(replies)
            &&& replies.ack_written is Done
            &&& held == session
            &&& metadata == replies.metadata_read->Done_0
        },
        Phase::Finished => true,
    }
}

/// One event leads to a phase that can be reached, and to an action that is right.
proof fn lemma_one_event(handshake: Handshake, replies: Replies)
    requires
        so_far(*handshake.info, replies, handshake.phase),
        !(handshake.phase is Finished),
    ensures
        ({
            let event = reply(replies, handshake.phase);
            &&& so_far(*handshake.info, replies, next(handshake, event).phase)
            &&& asks_rightly(handshake, replies, reaction(handshake, event).1)
        }),
{
    law_one_supported_version_is_enough(replies.decoded->Ok_0.versions@);
}

/// From a phase that can be reached, a handshake asks for what it should.
proof fn lemma_asks_rightly(handshake: Handshake, replies: Replies, i: int)
    requires
        so_far(*handshake.info, replies, handshake.phase),
        0 <= i < actions(handshake, replies).len(),
    ensures
        asks_rightly(handshake, replies, actions(handshake, replies)[i]),
    decreases events_left(handshake.phase),
{
    let event = reply(replies, handshake.phase);
    let after = next(handshake, event);
    lemma_one_event(handshake, replies);
    if i > 0 {
        assert(actions(handshake, replies)[i] == actions(after, replies)[i - 1]);
        lemma_asks_rightly(after, replies, i - 1);
        assert(asks_rightly(after, replies, actions(after, replies)[i - 1]));
    }
}

/// Whatever a handshake asks for, it asks for exactly these things: its own connection message
/// as it was framed; the content of the remote one, decoded against the version of this node;
/// nonces of both messages as they travelled; a key of the bytes that the remote peer gave; that
/// key combined with the secret key of this node, and hashed; the text of that hash; its own
/// metadata, with the keys of the session; its last word; and the outcome. Metadata is only for a
/// remote peer that is not this node, and the last word only for one that has told its metadata.
pub proof fn law_what_is_asked_for(handshake: Handshake, replies: Replies, i: int)
    requires
        handshake.phase is Preparing,
        0 <= i < actions(handshake, replies).len(),
    ensures
        asks_rightly(handshake, replies, actions(handshake, replies)[i]),
{
    lemma_asks_rightly(handshake, replies, i);
}

/// Whatever the outcomes are, the steps of a handshake lead to the first failure in the order
/// of the exchange or, if there is none, to the session.
pub proof fn law_handshake_outcome(handshake: Handshake, replies: Replies)
    requires
        handshake.phase is Preparing,
    ensures
        actions(handshake, replies).last() == (ActionView::Finish {
            outcome: handshake_outcome(*handshake.info, replies),
        }),
{
    law_handshake_order(handshake, replies);
    law_what_is_asked_for(handshake, replies, actions(handshake, replies).len() - 1);
}

/// Whether everything went well that comes before the action at a place, where the first place
/// after the start is for the connection message of this node.
pub open spec fn well_before(info: Local, replies: Replies, place: int) -> bool {
    &&& replies.prepared is Ok
    &&& place >= 1 ==> replies.connection_written is Done
    &&& place >= 2 ==> replies.connection_read is Done
    &&& place >= 3 ==> replies.decoded is Ok
    &&& place >= 5 ==> replies.key_checked is Ok
    &&& place >= 8 ==> !own_key(info, replies)
    &&& place >= 9 ==> replies.metadata_written is Done
    &&& place >= 10 ==> replies.metadata_read is Done
    &&& place >= 11 ==> compatible(replies) && replies.ack_written is Done
}

/// From a phase that can be reached, a handshake gets as far as everything goes well.
proof fn lemma_how_far(handshake: Handshake, replies: Replies, place: int)
    requires
        so_far(*handshake.info, replies, handshake.phase),
        !(handshake.phase is Finished),
        13 - events_left(handshake.phase) <= place < 12,
    ensures
        place - (13 - events_left(handshake.phase)) < actions(handshake, replies).len() - 1
            <==> well_before(*handshake.info, replies, place),
    decreases events_left(handshake.phase),
{
    let event = reply(replies, handshake.phase);
    let after = next(handshake, event);
    lemma_one_event(handshake, replies);
    lemma_order(handshake, replies);
    let all = actions(handshake, replies);
    assert(all == seq![reaction(handshake, event).1] + actions(after, replies));
    law_one_supported_version_is_enough(replies.decoded->Ok_0.versions@);
    if after.phase is Finished {
        assert(actions(after, replies) =~= Seq::<ActionView>::empty());
    } else {
        lemma_order(after, replies);
        assert(events_left(after.phase) == events_left(handshake.phase) - 1);
        if place > 13 - events_left(handshake.phase) {
            lemma_how_far(after, replies, place);
        }
    }
}

/// A handshake goes on exactly as long as everything goes well: each action is asked for if and
/// only if all that comes before it succeeded, the remote peer is not this node where metadata is
/// to be told, and it is accepted where its answer is to be read.
pub proof fn law_how_far(handshake: Handshake, replies: Replies, place: int)
    requires
        handshake.phase is Preparing,
        0 <= place < 12,
    ensures
        place < actions(handshake, replies).len() - 1 <==> well_before(
            *handshake.info,
            replies,
            place,
        ),
{
    lemma_how_far(handshake, replies, place);
}

/// With good keys, a handshake comes to the point where it tells its metadata.
proof fn lemma_metadata_is_told(handshake: Handshake, replies: Replies)
    requires
        so_far(*handshake.info, replies, handshake.phase),
        events_left(handshake.phase) >= 5,
        keyed(*handshake.info, replies),
    ensures
        actions(handshake, replies).len() > events_left(handshake.phase) - 5,
        actions(handshake, replies)[events_left(handshake.phase) - 5] is WriteMetadata,
    decreases events_left(handshake.phase),
{
    let event = reply(replies, handshake.phase);
    let after = next(handshake, event);
    lemma_one_event(handshake, replies);
    if events_left(handshake.phase) > 5 {
        assert(events_left(after.phase) == events_left(handshake.phase) - 1);
        lemma_metadata_is_told(after, replies);
        assert(actions(handshake, replies)[events_left(handshake.phase) - 5] == actions(
            after,
            replies,
        )[events_left(after.phase) - 5]);
    }
}

/// Where both sides tell their metadata, a handshake comes to the point where it says its last
/// word.
proof fn lemma_last_word_is_said(handshake: Handshake, replies: Replies)
    requires
        so_far(*handshake.info, replies, handshake.phase),
        events_left(handshake.phase) >= 3,
    ensures
        introduced(*handshake.info, replies) ==> {
            &&& actions(handshake, replies).len() > events_left(handshake.phase) - 3
            &&& actions(handshake, replies)[events_left(handshake.phase) - 3] is WriteAck
        },
    decreases events_left(handshake.phase),
{
    let event = reply(replies, handshake.phase);
    let after = next(handshake, event);
    lemma_one_event(handshake, replies);
    if events_left(handshake.phase) > 3 && events_left(after.phase) >= 3 {
        assert(events_left(after.phase) == events_left(handshake.phase) - 1);
        lemma_last_word_is_said(after, replies);
        assert(introduced(*handshake.info, replies) ==> actions(
            handshake,
            replies,
        )[events_left(handshake.phase) - 3] == actions(after, replies)[events_left(after.phase)
            - 3]);
    }
}

/// The remote peer is told that it is accepted if and only if both sides have told their
/// metadata and it offers a version that this node supports. It is told that it is refused if
/// and only if both sides have told their metadata and it offers none.
pub proof fn law_last_word(handshake: Handshake, replies: Replies)
    requires
        handshake.phase is Preparing,
    ensures
        actions(handshake, replies).contains(
            ActionView::WriteAck { ack: AckMessageView::Ack },
        ) <==> introduced(*handshake.info, replies) && compatible(replies),
        actions(handshake, replies).contains(
            ActionView::WriteAck { ack: AckMessageView::NackV0 },
        ) <==> introduced(*handshake.info, replies) && !compatible(replies),
        forall|nack_info|
            !actions(handshake, replies).contains(
                ActionView::WriteAck { ack: AckMessageView::Nack(nack_info) },
            ),
{
    let all = actions(handshake, replies);
    assert forall|i: int| 0 <= i < all.len() implies asks_rightly(
        handshake,
        replies,
        #[trigger] all[i],
    ) by {
        law_what_is_asked_for(handshake, replies, i);
    }
    lemma_last_word_is_said(handshake, replies);
    assert(introduced(*handshake.info, replies) ==> all[10] is WriteAck);
}

/// What those get that take the stream of one command, one after the other.
pub open spec fn takings<T>(msg: Bootstrap<T>, n: nat) -> Seq<Option<T>>
    decreases n,
{
    if n == 0 {
        Seq::empty()
    } else {
        seq![msg.stream] + takings(taken(msg), (n - 1) as nat)
    }
}

/// One stream is for one handshake: of those that share a command only the first gets its
/// stream, whatever becomes of that handshake. No other handshake is admitted on the command,
/// and a missing stream is the only reason why one is not.
pub proof fn law_one_handshake_per_stream<T>(msg: Bootstrap<T>, n: nat)
    ensures
        !admits(taken(msg)),
        admits(msg) <==> msg.stream is Some,
        takings(msg, n).len() == n,
        n > 0 ==> takings(msg, n)[0] == msg.stream,
        forall|i: int| 0 < i < n ==> #[trigger] takings(msg, n)[i] is None,
    decreases n,
{
    if n > 0 {
        let rest = (n - 1) as nat;
        law_one_handshake_per_stream(taken(msg), rest);
        assert forall|i: int| 0 < i < n implies #[trigger] takings(msg, n)[i] is None by {
            assert(takings(msg, n)[i] == takings(taken(msg), rest)[i - 1]);
        }
    }
}

/// A node that has connected to itself sends its connection message and nothing else.
pub proof fn law_self_connection(handshake: Handshake, replies: Replies)
    requires
        handshake.phase is Preparing,
        connected(replies),
        own_key(*handshake.info, replies),
    ensures
        forall|i: int|
            #![trigger actions(handshake, replies)[i]]
            0 <= i < actions(handshake, replies).len() ==> {
                let action = actions(handshake, replies)[i];
                &&& !(action is WriteMetadata)
                &&& !(action is WriteAck)
                &&& action matches ActionView::WriteChunk { raw } ==> raw
                    == replies.prepared->Ok_0.raw@
            },
{
    let all = actions(handshake, replies);
    assert forall|i: int| 0 <= i < all.len() implies asks_rightly(
        handshake,
        replies,
        #[trigger] all[i],
    ) by {
        law_what_is_asked_for(handshake, replies, i);
    }
}

/// What two nodes generate the nonces of a connection from is the same, seen from both sides:
/// what one has sent the other has received, and one of them has opened the connection.
pub proof fn law_nonce_seeds_mirror(
    initiator: Handshake,
    responder: Handshake,
    initiator_replies: Replies,
    responder_replies: Replies,
)
    requires
        initiator.phase is Preparing,
        responder.phase is Preparing,
        !initiator.incoming,
        responder.incoming,
        initiator_replies.prepared is Ok,
        responder_replies.prepared is Ok,
        initiator_replies.connection_written is Done,
        responder_replies.connection_written is Done,
        initiator_replies.connection_read is Done,
        responder_replies.connection_read is Done,
        initiator_replies.decoded is Ok,
        responder_replies.decoded is Ok,
        // each side has read the bytes that the other has written
        initiator_replies.connection_read->Done_0.raw@ == responder_replies.prepared->Ok_0.raw@,
        responder_replies.connection_read->Done_0.raw@ == initiator_replies.prepared->Ok_0.raw@,
    ensures
        actions(initiator, initiator_replies).len() > 3,
        actions(responder, responder_replies).len() > 3,
        actions(initiator, initiator_replies)[3] matches ActionView::GenerateNonces { seed: ours } && (
        actions(responder, responder_replies)[3] matches ActionView::GenerateNonces { seed: theirs } && {
            &&& ours.sent == theirs.received
            &&& ours.received == theirs.sent
            &&& ours.incoming != theirs.incoming
        }),
{
    reveal_with_fuel(actions, 5);
}

/// What the other end of a connection generates its nonces from, seen from there.
pub open spec fn mirrored(seed: NonceSeedView) -> NonceSeedView {
    NonceSeedView { sent: seed.received, received: seed.sent, incoming: !seed.incoming }
}

/// Whether a way to generate nonces suits both ends of a connection: what is local to one end is
/// remote to the other. It gives the local nonce first, then the remote one.
pub open spec fn suits_both_ends(
    generator: spec_fn(NonceSeedView) -> (Seq<u8>, Seq<u8>),
) -> bool {
    forall|seed: NonceSeedView|
        generator(seed).0 == generator(#[trigger] mirrored(seed)).1 && generator(seed).1
            == generator(mirrored(seed)).0
}

/// Whether the nonces of a handshake are those that a generator makes of its messages.
pub open spec fn nonces_from(
    generator: spec_fn(NonceSeedView) -> (Seq<u8>, Seq<u8>),
    handshake: Handshake,
    replies: Replies,
) -> bool {
    generator(
        NonceSeedView {
            sent: replies.prepared->Ok_0.raw@,
            received: replies.connection_read->Done_0.raw@,
            incoming: handshake.incoming,
        },
    ) == (replies.nonces.local@, replies.nonces.remote@)
}

/// With a generator that suits both ends, each end of a connection reads with the nonce that the
/// other end writes with.
pub proof fn law_each_end_reads_what_the_other_writes(
    generator: spec_fn(NonceSeedView) -> (Seq<u8>, Seq<u8>),
    initiator: Handshake,
    responder: Handshake,
    initiator_replies: Replies,
    responder_replies: Replies,
)
    requires
        suits_both_ends(generator),
        initiator.phase is Preparing,
        responder.phase is Preparing,
        !initiator.incoming,
        responder.incoming,
        nonces_from(generator, initiator, initiator_replies),
        nonces_from(generator, responder, responder_replies),
        keyed(*initiator.info, initiator_replies),
        keyed(*responder.info, responder_replies),
        // each side has read the bytes that the other has written
        initiator_replies.connection_read->Done_0.raw@ == responder_replies.prepared->Ok_0.raw@,
        responder_replies.connection_read->Done_0.raw@ == initiator_replies.prepared->Ok_0.raw@,
    ensures
        actions(initiator, initiator_replies).len() > 8,
        actions(responder, responder_replies).len() > 8,
        actions(initiator, initiator_replies)[8] matches ActionView::WriteMetadata {
            writer: our_writer,
            reader: our_reader,
            ..
        } && (actions(responder, responder_replies)[8] matches ActionView::WriteMetadata {
            writer: their_writer,
            reader: their_reader,
            ..
        } && {
            &&& our_writer.nonce == their_reader.nonce
            &&& our_reader.nonce == their_writer.nonce
        }),
{
    lemma_metadata_is_told(initiator, initiator_replies);
    lemma_metadata_is_told(responder, responder_replies);
    law_what_is_asked_for(initiator, initiator_replies, 8);
    law_what_is_asked_for(responder, responder_replies, 8);
    let seed = NonceSeedView {
        sent: initiator_replies.prepared->Ok_0.raw@,
        received: initiator_replies.connection_read->Done_0.raw@,
        incoming: initiator.incoming,
    };
    assert(mirrored(seed) == (NonceSeedView {
        sent: responder_replies.prepared->Ok_0.raw@,
        received: responder_replies.connection_read->Done_0.raw@,
        incoming: responder.incoming,
    }));
}

// ---------------------------------------------------------------------------------------
// The loop that reads
// ---------------------------------------------------------------------------------------

/// Whether the loop can take these events one after the other.
pub open spec fn readable<M, W>(
    myself: PeerRef,
    phase: ReadPhase<M>,
    events: Seq<ReadEvent<M, W>>,
) -> bool
    decreases events.len(),
{
    events.len() == 0 || {
        &&& read_awaits(phase, events[0])
        &&& readable(myself, read_reaction(myself, phase, events[0]).0, events.drop_first())
    }
}

/// The actions of the loop on events that come one after the other.
pub open spec fn read_actions<M, W>(
    myself: PeerRef,
    phase: ReadPhase<M>,
    events: Seq<ReadEvent<M, W>>,
) -> Seq<ReadAction<M, W>>
    decreases events.len(),
{
    if events.len() == 0 {
        Seq::empty()
    } else {
        let (after, action) = read_reaction(myself, phase, events[0]);
        seq![action] + read_actions(myself, after, events.drop_first())
    }
}

/// The loop acts once on each event.
proof fn lemma_read_actions_len<M, W>(
    myself: PeerRef,
    phase: ReadPhase<M>,
    events: Seq<ReadEvent<M, W>>,
)
    ensures
        read_actions(myself, phase, events).len() == events.len(),
    decreases events.len(),
{
    if events.len() > 0 {
        lemma_read_actions_len(
            myself,
            read_reaction(myself, phase, events[0]).0,
            events.drop_first(),
        );
    }
}

/// Once the flag is down for good, no message is read, and none is passed on.
pub proof fn law_silent_when_stopped<M, W>(
    myself: PeerRef,
    phase: ReadPhase<M>,
    events: Seq<ReadEvent<M, W>>,
)
    requires
        readable(myself, phase, events),
        forall|i: int|
            0 <= i < events.len() ==> #[trigger] events[i] != ReadEvent::<M, W>::Running(true),
    ensures
        forall|i: int|
            0 <= i < events.len() ==> !(#[trigger] read_actions(myself, phase, events)[i]
                is Publish) && !(read_actions(myself, phase, events)[i] is Read),
    decreases events.len(),
{
    lemma_read_actions_len(myself, phase, events);
    if events.len() > 0 {
        let after = read_reaction(myself, phase, events[0]).0;
        let rest = events.drop_first();
        assert forall|i: int| 0 <= i < rest.len() implies #[trigger] rest[i] != ReadEvent::<
            M,
            W,
        >::Running(true) by {
            assert(rest[i] == events[i + 1]);
        }
        law_silent_when_stopped(myself, after, rest);
        assert(events[0] != ReadEvent::<M, W>::Running(true));
        assert forall|i: int| 0 <= i < events.len() implies !(#[trigger] read_actions(
            myself,
            phase,
            events,
        )[i] is Publish) && !(read_actions(myself, phase, events)[i] is Read) by {
            if i > 0 {
                assert(read_actions(myself, phase, events)[i] == read_actions(myself, after, rest)[i
                    - 1]);
            }
        }
    }
}

/// Whatever is passed on was read just before, unchanged, and the flag was still up then.
pub proof fn law_only_what_was_read<M, W>(
    myself: PeerRef,
    phase: ReadPhase<M>,
    events: Seq<ReadEvent<M, W>>,
    i: int,
)
    requires
        readable(myself, phase, events),
        0 <= i < events.len(),
        read_actions(myself, phase, events)[i] is Publish,
        !(phase is Delivering),
    ensures
        i > 0,
        events[i] == ReadEvent::<M, W>::Running(true),
        events[i - 1] matches ReadEvent::Read(Timed::Done(message)) && read_actions(
            myself,
            phase,
            events,
        )[i] == ReadAction::<M, W>::Publish(delivery(myself, message)),
    decreases events.len(),
{
    reveal_with_fuel(readable, 3);
    lemma_read_actions_len(myself, phase, events);
    let after = read_reaction(myself, phase, events[0]).0;
    let rest = events.drop_first();
    lemma_read_actions_len(myself, after, rest);
    assert(i > 0);
    assert(read_actions(myself, phase, events)[i] == read_actions(myself, after, rest)[i - 1]);
    if after is Delivering {
        if i > 1 {
            let later = read_reaction(myself, after, rest[0]).0;
            assert(read_actions(myself, after, rest)[i - 1] == read_actions(
                myself,
                later,
                rest.drop_first(),
            )[i - 2]);
            law_only_what_was_read(myself, later, rest.drop_first(), i - 2);
            assert(rest.drop_first()[i - 2] == events[i]);
            assert(rest.drop_first()[i - 3] == events[i - 1]);
        } else {
            assert(rest[0] == events[1]);
        }
    } else {
        law_only_what_was_read(myself, after, rest, i - 1);
        assert(rest[i - 1] == events[i]);
        assert(rest[i - 2] == events[i - 1]);
    }
}

/// The loop ends once: after it has shut the connection down, or has found nothing to shut
/// down, it takes no event any more.
pub proof fn law_loop_ends_once<M, W>(
    myself: PeerRef,
    phase: ReadPhase<M>,
    events: Seq<ReadEvent<M, W>>,
    i: int,
)
    requires
        readable(myself, phase, events),
        0 <= i < events.len(),
        read_actions(myself, phase, events)[i] is Shutdown || read_actions(
            myself,
            phase,
            events,
        )[i] is Finish,
    ensures
        i == events.len() - 1,
    decreases events.len(),
{
    reveal_with_fuel(readable, 2);
    let after = read_reaction(myself, phase, events[0]).0;
    let rest = events.drop_first();
    lemma_read_actions_len(myself, after, rest);
    if i > 0 {
        assert(read_actions(myself, phase, events)[i] == read_actions(myself, after, rest)[i - 1]);
        law_loop_ends_once(myself, after, rest, i - 1);
    }
}

/// Messages with unsupported tags are ignored, however many come in a row: the same is passed on
/// as without them.
pub proof fn law_unsupported_tags_are_ignored<M>(
    before: Seq<Round<M>>,
    ignored: Seq<Round<M>>,
    after: Seq<Round<M>>,
)
    requires
        forall|i: int|
            0 <= i < ignored.len() ==> (#[trigger] ignored[i]).read is Failed && !ends_loop(
                ignored[i].read,
            ),
    ensures
        deliveries(before + ignored + after) == deliveries(before + after),
    decreases before.len(), ignored.len(),
{
    let with = before + ignored + after;
    let without = before + after;
    if before.len() > 0 {
        law_unsupported_tags_are_ignored(before.drop_first(), ignored, after);
        assert(with.drop_first() =~= before.drop_first() + ignored + after);
        assert(without.drop_first() =~= before.drop_first() + after);
    } else if ignored.len() > 0 {
        let rest = ignored.drop_first();
        assert forall|i: int| 0 <= i < rest.len() implies (#[trigger] rest[i]).read is Failed
            && !ends_loop(rest[i].read) by {
            assert(rest[i] == ignored[i + 1]);
        }
        law_unsupported_tags_are_ignored(before, rest, after);
        assert(with[0] == ignored[0]);
        assert(with.drop_first() =~= before + rest + after);
    } else {
        assert(with =~= without);
    }
}

/// A read that fails otherwise, or takes too long, is the last one: nothing that would come
/// after it is passed on.
pub proof fn law_failed_read_is_the_last<M>(
    before: Seq<Round<M>>,
    ending: Round<M>,
    after: Seq<Round<M>>,
)
    requires
        ends_loop(ending.read),
    ensures
        deliveries(before + seq![ending] + after) == deliveries(before),
    decreases before.len(),
{
    let with = before + seq![ending] + after;
    if before.len() > 0 {
        law_failed_read_is_the_last(before.drop_first(), ending, after);
        assert(with.drop_first() =~= before.drop_first() + seq![ending] + after);
    }
}

/// One read is made for each round, up to and including the first that ends the loop; what was
/// read before is all that is passed on.
pub proof fn law_reads_until_the_end<M>(rounds: Seq<Round<M>>, k: int)
    requires
        0 <= k < rounds.len(),
        ends_loop(rounds[k].read),
        forall|j: int| 0 <= j < k ==> !ends_loop((#[trigger] rounds[j]).read),
    ensures
        reads_made(rounds) == k + 1,
        deliveries(rounds) == deliveries(rounds.take(k)),
    decreases rounds.len(),
{
    assert(rounds =~= rounds.take(k) + seq![rounds[k]] + rounds.skip(k + 1));
    law_failed_read_is_the_last(rounds.take(k), rounds[k], rounds.skip(k + 1));
    if k > 0 {
        let rest = rounds.drop_first();
        assert(rest[k - 1] == rounds[k]);
        assert forall|j: int| 0 <= j < k - 1 implies !ends_loop((#[trigger] rest[j]).read) by {
            assert(rest[j] == rounds[j + 1]);
        }
        law_reads_until_the_end(rest, k - 1);
        assert(!ends_loop(rounds[0].read));
    }
}

/// Where no read ends the loop, one read is made for each round.
pub proof fn law_reads_every_round<M>(rounds: Seq<Round<M>>)
    requires
        forall|j: int| 0 <= j < rounds.len() ==> !ends_loop((#[trigger] rounds[j]).read),
    ensures
        reads_made(rounds) == rounds.len(),
    decreases rounds.len(),
{
    if rounds.len() > 0 {
        let rest = rounds.drop_first();
        assert forall|j: int| 0 <= j < rest.len() implies !ends_loop((#[trigger] rest[j]).read) by {
            assert(rest[j] == rounds[j + 1]);
        }
        law_reads_every_round(rest);
        assert(!ends_loop(rounds[0].read));
    }
}

// ---------------------------------------------------------------------------------------
// The actor
// ---------------------------------------------------------------------------------------

/// Actors with different numbers have different names.
pub proof fn law_actor_names_differ(a: u64, b: u64)
    requires
        a != b,
    ensures
        actor_name(a) != actor_name(b),
{
    let prefix = "peer-"@;
    let digits_a = decimal_text(a as nat);
    let digits_b = decimal_text(b as nat);
    lemma_decimal_round_trip(a as nat);
    lemma_decimal_round_trip(b as nat);
    if actor_name(a) == actor_name(b) {
        assert(digits_a =~= actor_name(a).skip(prefix.len() as int));
        assert(digits_b =~= actor_name(b).skip(prefix.len() as int));
        assert(decimal_value(digits_a) == decimal_value(digits_b));
    }
}

/// The names of `n` actors that are made one after the other, from a first number on.
pub open spec fn names_from(first: u64, n: nat) -> Seq<Seq<char>>
    decreases n,
{
    if n == 0 {
        Seq::empty()
    } else {
        seq![actor_name(first)] + names_from(number_after(first), (n - 1) as nat)
    }
}

/// As long as the numbers last, each name holds the next one.
proof fn lemma_names_count_up(first: u64, n: nat)
    requires
        first + n <= u64::MAX + 1,
    ensures
        names_from(first, n).len() == n,
        forall|i: int| 0 <= i < n ==> #[trigger] names_from(first, n)[i] == actor_name((first + i) as u64),
    decreases n,
{
    if n > 1 {
        lemma_names_count_up(number_after(first), (n - 1) as nat);
        assert forall|i: int| 0 <= i < n implies #[trigger] names_from(first, n)[i] == actor_name(
            (first + i) as u64,
        ) by {
            if i > 0 {
                assert(names_from(first, n)[i] == names_from(
                    number_after(first),
                    (n - 1) as nat,
                )[i - 1]);
            }
        }
    } else if n == 1 {
        assert(names_from(number_after(first), 0) =~= Seq::<Seq<char>>::empty());
    }
}

/// The names of the first actors are `peer-0`, `peer-1` and so on, without a gap, and no two of
/// them are the same, until all numbers are used up.
pub proof fn law_actor_names_are_distinct(n: nat)
    requires
        n <= u64::MAX + 1,
    ensures
        names_from(0, n).len() == n,
        forall|i: int|
            0 <= i < n ==> #[trigger] names_from(0, n)[i] == "peer-"@ + decimal_text(i as nat),
        forall|i: int, j: int|
            0 <= i < j < n ==> #[trigger] names_from(0, n)[i] != #[trigger] names_from(0, n)[j],
{
    lemma_names_count_up(0, n);
    assert forall|i: int, j: int| 0 <= i < j < n implies #[trigger] names_from(0, n)[i]
        != #[trigger] names_from(0, n)[j] by {
        law_actor_names_differ(i as u64, j as u64);
    }
}

/// What can happen to an actor.
pub enum Change<W> {
    /// It is told to open a connection.
    Bootstrap { address: SocketAddress },
    /// It is told to send a message.
    SendMessage,
    /// Its connection is opened.
    SetupNet { tx: W },
    /// Its writer is taken away.
    TakeWriter,
    /// It has stopped.
    PostStop,
}

/// An actor after something has happened to it.
pub open spec fn changed<W>(peer: Peer<W>, change: Change<W>) -> Peer<W> {
    match change {
        Change::Bootstrap { address } => addressed(peer, address),
        Change::SendMessage => peer,
        Change::SetupNet { tx } => Peer { net: opened(peer.net, tx), ..peer },
        Change::TakeWriter => Peer { net: without_writer(peer.net), ..peer },
        Change::PostStop => stopped(peer),
    }
}

/// An actor after many things have happened to it.
pub open spec fn after<W>(peer: Peer<W>, changes: Seq<Change<W>>) -> Peer<W>
    decreases changes.len(),
{
    if changes.len() == 0 {
        peer
    } else {
        changed(after(peer, changes.drop_last()), changes.last())
    }
}

/// Whether a connection was opened, and the actor has not stopped since.
pub open spec fn opened_and_not_stopped<W>(changes: Seq<Change<W>>) -> bool {
    exists|i: int|
        #![trigger changes[i]]
        0 <= i < changes.len() && changes[i] is SetupNet && forall|j: int|
            #![trigger changes[j]]
            i < j < changes.len() ==> !(changes[j] is PostStop)
}

/// Whether a connection was opened with this writer, and it has been neither taken away nor
/// replaced since.
pub open spec fn writer_in_place<W>(changes: Seq<Change<W>>, tx: W) -> bool {
    exists|i: int|
        #![trigger changes[i]]
        0 <= i < changes.len() && changes[i] == (Change::SetupNet { tx }) && forall|j: int|
            #![trigger changes[j]]
            i < j < changes.len() ==> !(changes[j] is TakeWriter) && !(changes[j] is SetupNet)
}

/// A new actor receives messages if and only if its connection was opened and it has not
/// stopped since. It has a writer if and only if that writer was put in place and not taken
/// away since. What it was made from never changes.
pub proof fn law_connection_state<W>(
    info: Arc<Local>,
    socket_address: SocketAddress,
    changes: Seq<Change<W>>,
)
    ensures
        ({
            let peer = after(unconnected::<W>(info, socket_address), changes);
            &&& peer.net.rx_run <==> opened_and_not_stopped(changes)
            &&& forall|tx: W| peer.net.tx == Some(tx) <==> #[trigger] writer_in_place(changes, tx)
            &&& peer.local == info
            &&& peer.net.socket_address == socket_address
        }),
    decreases changes.len(),
{
    let start = unconnected::<W>(info, socket_address);
    if changes.len() > 0 {
        let earlier = changes.drop_last();
        let n = earlier.len() as int;
        law_connection_state(info, socket_address, earlier);
        assert(changes[n] == changes.last());
        if opened_and_not_stopped(earlier) && !(changes.last() is PostStop) {
            let i = choose|i: int|
                #![trigger earlier[i]]
                0 <= i < earlier.len() && earlier[i] is SetupNet && forall|j: int|
                    #![trigger earlier[j]]
                    i < j < earlier.len() ==> !(earlier[j] is PostStop);
            assert(changes[i] == earlier[i]);
            assert forall|j: int| #![trigger changes[j]] i < j < changes.len() implies !(
            changes[j] is PostStop) by {
                if j < n {
                    assert(changes[j] == earlier[j]);
                }
            }
            assert(opened_and_not_stopped(changes));
        }
        if opened_and_not_stopped(changes) && !(changes.last() is SetupNet) {
            let i = choose|i: int|
                #![trigger changes[i]]
                0 <= i < changes.len() && changes[i] is SetupNet && forall|j: int|
                    #![trigger changes[j]]
                    i < j < changes.len() ==> !(changes[j] is PostStop);
            assert(earlier[i] == changes[i]);
            assert forall|j: int| #![trigger earlier[j]] i < j < earlier.len() implies !(
            earlier[j] is PostStop) by {
                assert(changes[j] == earlier[j]);
            }
            assert(opened_and_not_stopped(earlier));
        }
        assert forall|tx: W|
            after(start, changes).net.tx == Some(tx) <==> #[trigger] writer_in_place(
                changes,
                tx,
            ) by {
            assert(after(start, earlier).net.tx == Some(tx) <==> writer_in_place(earlier, tx));
            if writer_in_place(earlier, tx) && !(changes.last() is TakeWriter) && !(changes.last()
                is SetupNet) {
                let i = choose|i: int|
                    #![trigger earlier[i]]
                    0 <= i < earlier.len() && earlier[i] == (Change::SetupNet { tx }) && forall|
                        j: int,
                    |
                        #![trigger earlier[j]]
                        i < j < earlier.len() ==> !(earlier[j] is TakeWriter) && !(earlier[j]
                            is SetupNet);
                assert(changes[i] == earlier[i]);
                assert forall|j: int| #![trigger changes[j]] i < j < changes.len() implies !(
                changes[j] is TakeWriter) && !(changes[j] is SetupNet) by {
                    if j < n {
                        assert(changes[j] == earlier[j]);
                    }
                }
                assert(writer_in_place(changes, tx));
            }
            if writer_in_place(changes, tx) && !(changes.last() is SetupNet) {
                let i = choose|i: int|
                    #![trigger changes[i]]
                    0 <= i < changes.len() && changes[i] == (Change::SetupNet { tx }) && forall|
                        j: int,
                    |
                        #![trigger changes[j]]
                        i < j < changes.len() ==> !(changes[j] is TakeWriter) && !(changes[j]
                            is SetupNet);
                assert(earlier[i] == changes[i]);
                assert forall|j: int| #![trigger earlier[j]] i < j < earlier.len() implies !(
                earlier[j] is TakeWriter) && !(earlier[j] is SetupNet) by {
                    assert(changes[j] == earlier[j]);
                }
                assert(writer_in_place(earlier, tx));
            }
        }
    }
}

/// A message is written with the writer of the handshake: where that writer was put in place,
/// and has been neither taken away nor replaced since, whatever else happened to the actor, a
/// command to send a message finds that writer, and writes that message with it.
pub proof fn law_messages_go_to_the_bootstrapped_writer<R, W, M>(
    myself: PeerRef,
    peer_address: SocketAddress,
    output: BootstrapOutput<R, W>,
    info: Arc<Local>,
    socket_address: SocketAddress,
    earlier: Seq<Change<W>>,
    later: Seq<Change<W>>,
    message: Arc<M>,
)
    requires
        forall|j: int|
            0 <= j < later.len() ==> !((#[trigger] later[j]) is TakeWriter) && !(later[j]
                is SetupNet),
    ensures
        aftermath::<R, W, M>(myself, peer_address, Ok(output))[0] matches TaskAction::SetupNet {
            tx,
        } && {
            let peer = after(
                unconnected::<W>(info, socket_address),
                earlier + seq![Change::SetupNet { tx }] + later,
            );
            &&& peer.net.tx == Some(output.1)
            &&& send_reaction(
                SendPhase::Locking { message },
                SendEvent::WriterLocked(peer.net.tx),
            ).1 == (SendAction::Write { message, writer: output.1 })
        },
{
    let tx = output.1;
    let changes = earlier + seq![Change::SetupNet { tx }] + later;
    let at = earlier.len() as int;
    law_connection_state(info, socket_address, changes);
    assert(changes[at] == (Change::SetupNet { tx }));
    assert forall|j: int| #![trigger changes[j]] at < j < changes.len() implies !(changes[j]
        is TakeWriter) && !(changes[j] is SetupNet) by {
        assert(changes[j] == later[j - at - 1]);
    }
    assert(writer_in_place(changes, tx));
}

/// A message for a peer without a writer is dropped, whether it never had one or it was taken
/// away: nothing is written, and the actor goes on.
pub proof fn law_unconnected_peer_drops_messages<W, M>(
    info: Arc<Local>,
    socket_address: SocketAddress,
    changes: Seq<Change<W>>,
    message: Arc<M>,
)
    requires
        forall|tx: W| !writer_in_place(changes, tx),
    ensures
        send_reaction(
            SendPhase::Locking { message },
            SendEvent::WriterLocked(after(unconnected::<W>(info, socket_address), changes).net.tx),
        ) == (SendPhase::<M>::Finished, SendAction::<M, W>::Finish),
{
    law_connection_state(info, socket_address, changes);
    let tx = after(unconnected::<W>(info, socket_address), changes).net.tx;
    if tx is Some {
        assert(!writer_in_place(changes, tx->0));
    }
}

/// The phases of tasks that send, after events that come to them one after the other. An event
/// comes with the place of its task.
pub open spec fn phases_after<M, W>(
    tasks: Seq<SendPhase<M>>,
    turns: Seq<(int, SendEvent<W>)>,
) -> Seq<SendPhase<M>>
    decreases turns.len(),
{
    if turns.len() == 0 {
        tasks
    } else {
        let (task, event) = turns.last();
        let earlier = phases_after(tasks, turns.drop_last());
        earlier.update(task, send_reaction(earlier[task], event).0)
    }
}

/// Whether each task waits for the events that come to it.
pub open spec fn sendable<M, W>(
    tasks: Seq<SendPhase<M>>,
    turns: Seq<(int, SendEvent<W>)>,
) -> bool {
    forall|i: int|
        #![trigger turns[i]]
        0 <= i < turns.len() ==> 0 <= turns[i].0 < tasks.len() && send_awaits(
            phases_after(tasks, turns.take(i))[turns[i].0],
            turns[i].1,
        )
}

/// The task that has the writer: the last that got it, until it is done with its write.
pub open spec fn holder<W>(turns: Seq<(int, SendEvent<W>)>) -> Option<int>
    decreases turns.len(),
{
    if turns.len() == 0 {
        None
    } else {
        match turns.last().1 {
            SendEvent::WriterLocked(Some(_)) => Some(turns.last().0),
            SendEvent::WriterLocked(None) => holder(turns.drop_last()),
            SendEvent::Written(_) => None,
        }
    }
}

/// Whether the writer is lent to one task at a time: none gets it while another has it.
pub open spec fn lent_to_one<W>(turns: Seq<(int, SendEvent<W>)>) -> bool {
    forall|i: int|
        #![trigger turns[i]]
        0 <= i < turns.len() && turns[i].1 is WriterLocked ==> holder(turns.take(i)) is None
}

/// Where the writer is lent to one task at a time, two writes never overlap, however many tasks
/// there are and in whatever order their events come: a task is writing if and only if it is the
/// one that has the writer.
pub proof fn law_writes_do_not_overlap<M, W>(
    tasks: Seq<SendPhase<M>>,
    turns: Seq<(int, SendEvent<W>)>,
)
    requires
        forall|a: int| 0 <= a < tasks.len() ==> #[trigger] tasks[a] is Locking,
        sendable(tasks, turns),
        lent_to_one(turns),
    ensures
        phases_after(tasks, turns).len() == tasks.len(),
        forall|a: int|
            0 <= a < tasks.len() ==> (#[trigger] phases_after(tasks, turns)[a] is Writing <==> holder(
                turns,
            ) == Some(a)),
        forall|a: int, b: int|
            0 <= a < b < tasks.len() ==> !(#[trigger] phases_after(tasks, turns)[a] is Writing
                && #[trigger] phases_after(tasks, turns)[b] is Writing),
    decreases turns.len(),
{
    if turns.len() > 0 {
        let earlier = turns.drop_last();
        let n = earlier.len() as int;
        assert(turns.take(n) =~= earlier);
        assert(turns[n] == turns.last());
        assert forall|i: int| #![trigger earlier[i]] 0 <= i < earlier.len() implies 0
            <= earlier[i].0 < tasks.len() && send_awaits(
            phases_after(tasks, earlier.take(i))[earlier[i].0],
            earlier[i].1,
        ) by {
            assert(turns[i] == earlier[i]);
            assert(turns.take(i) =~= earlier.take(i));
        }
        assert forall|i: int| #![trigger earlier[i]] 0 <= i < earlier.len() && earlier[i].1
            is WriterLocked implies holder(earlier.take(i)) is None by {
            assert(turns[i] == earlier[i]);
            assert(turns.take(i) =~= earlier.take(i));
        }
        law_writes_do_not_overlap(tasks, earlier);
    }
}

/// After a handshake the actor stops, once and last of all.
pub proof fn law_actor_stops_last<R, W, M>(
    myself: PeerRef,
    peer_address: SocketAddress,
    result: Result<BootstrapOutput<R, W>, PeerError>,
)
    ensures
        ({
            let todo = aftermath::<R, W, M>(myself, peer_address, result);
            &&& todo.len() > 0
            &&& forall|i: int|
                0 <= i < todo.len() ==> (#[trigger] todo[i] is StopPeer <==> i == todo.len() - 1)
        }),
{
}

/// Messages are received if and only if the handshake has succeeded, and only after the writer is
/// in place and the rest of the node knows of the peer. Whatever is told is told in the name of
/// the peer.
pub proof fn law_known_before_heard<R, W, M>(
    myself: PeerRef,
    peer_address: SocketAddress,
    result: Result<BootstrapOutput<R, W>, PeerError>,
)
    ensures
        ({
            let todo = aftermath::<R, W, M>(myself, peer_address, result);
            &&& forall|i: int|
                0 <= i < todo.len() ==> (#[trigger] todo[i] matches TaskAction::Publish(publish)
                    ==> publish.sender == myself)
            &&& result is Err ==> forall|i: int|
                0 <= i < todo.len() ==> !(#[trigger] todo[i] is ProcessIncoming)
                    && !(todo[i] is SetupNet)
            &&& result is Ok ==> {
                &&& todo.len() == 4
                &&& todo[0] is SetupNet
                &&& todo[1] matches TaskAction::Publish(publish)
                    && publish.msg is PeerBootstrapped
                &&& todo[2] is ProcessIncoming
            }
        }),
{
}

/// Other nodes to try are passed on if and only if the handshake has failed with a refusal that
/// has a motive; a node that has connected to itself passes on an empty list.
pub proof fn law_potential_peers(error: PeerError)
    ensures
        potential_peers(error) is Some <==> error is NackWithMotiveReceived,
        error@ == self_connection_error() ==> (potential_peers(error) matches Some(peers)
            && peers@.len() == 0),
{
    if error@ == self_connection_error() {
        assert(error@->nack_info.potential_peers_to_connect.len() == 0);
    }
}

} // verus!
