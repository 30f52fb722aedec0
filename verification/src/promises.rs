//! What each operation promises, on the plain values that go in and come out.

use std::sync::Arc;

use vstd::prelude::*;
use vstd::std_specs::convert::FromSpec;

use crate::address::SocketAddress;
use crate::bootstrap::{taken, Bootstrap, BootstrapOutput};
use crate::channel::{NetworkChannelMsg, PeerRef, Publish};
use crate::error::{fault_error, peer_error_text, unsupported_tag, PeerErrorView};
use crate::error::{
    BinaryChunkError, BinaryReaderError, BinaryReaderErrorKind, CryptoFault, Elapsed, Fault, IoFault,
    PeerError, SerializationFault, StreamError, StreamErrorKind, Timed,
};
use crate::handshake::{
    action_deadline, awaits, first_action, first_state, next, nonce_seed, outcome_view, reader_key,
    session_output, writer_key, ActionView, OutputView,
};
use crate::handshake::{Action, ChannelKey, Event, Handshake, NonceSeed, Outcome, Phase, Session};
use crate::incoming::{
    broadcasts, deliveries, delivery, ends_loop, read_awaits, read_deadline, read_reaction, ReadAction,
    ReadEvent, ReadPhase, Round,
};
use crate::laws::{
    answered, compatible, connected, introduced, keyed, law_one_supported_version_is_enough,
    law_what_is_asked_for, own_key,
};
use crate::local::Local;
use crate::messages::{
    motive_text, nack_info_text, nack_text, network_version_text, offers, offers_text,
    version_text, AckMessageView, OfferedVersionView,
};
use crate::messages::{
    AckMessage, BinaryChunk, ConnectionMessage, MetadataMessage, NackInfo, NackMotive,
    NetworkVersion, OfferedVersion,
};
use crate::peer::{
    actor_name, addressed, aftermath, number_after, opened, potential_peers, stopped, unconnected,
    without_writer,
};
use crate::peer::{Network, Peer, PeerMsg, TaskAction};
use crate::replay::{action_views, actions, handshake_outcome, Replies};
use crate::sending::{send_awaits, send_deadline, send_reaction};
use crate::sending::{SendAction, SendEvent, SendMessage, SendPhase};
use crate::text::{
    decimal_text, decimal_value, joined_text, lemma_decimal_round_trip, list_text, quoted_text,
    quoted_texts, texts,
};

verus! {

// ---------------------------------------------------------------------------------------
// What is said holds everything that is there
// ---------------------------------------------------------------------------------------

/// Nothing of a version is left out of what it says.
pub proof fn law_a_version_says_all(version: NetworkVersion, offered: OfferedVersion)
    ensures
        version@.chain_name == version.chain_name@,
        version@.distributed_db_version == version.distributed_db_version,
        version@.p2p_version == version.p2p_version,
        offered@.supported == offered.supported,
        offered@.version == offered.version@,
{
}

/// The versions of a list keep their order, and none is left out.
pub proof fn law_offers_keep_their_order(versions: Seq<OfferedVersion>)
    ensures
        offers(versions).len() == versions.len(),
        forall|i: int|
            0 <= i < versions.len() ==> (#[trigger] offers(versions)[i]).version
                == versions[i].version@ && offers(versions)[i].supported == versions[i].supported,
{
}

/// Nothing of a connection message is left out of what it says.
pub proof fn law_a_connection_message_says_all(message: ConnectionMessage)
    ensures
        message@.port == message.port,
        message@.public_key == message.public_key@,
        message@.proof_of_work_stamp == message.proof_of_work_stamp@,
        message@.message_nonce == message.message_nonce@,
        message@.versions.len() == message.versions@.len(),
        forall|i: int|
            0 <= i < message.versions@.len() ==> #[trigger] message@.versions[i]
                == message.versions@[i]@,
{
}

/// The texts of a list keep their order, and none is left out or changed.
pub proof fn law_texts_keep_their_order(strings: Seq<String>, parts: Seq<Seq<char>>)
    ensures
        texts(strings).len() == strings.len(),
        forall|i: int| 0 <= i < strings.len() ==> #[trigger] texts(strings)[i] == strings[i]@,
        quoted_texts(parts).len() == parts.len(),
        forall|i: int|
            0 <= i < parts.len() ==> #[trigger] quoted_texts(parts)[i] == quoted_text(parts[i]),
{
}

/// Nothing of a refusal is left out of what it says.
pub proof fn law_a_refusal_says_all(info: NackInfo, ack: AckMessage)
    ensures
        info@.motive == info.motive,
        info@.potential_peers_to_connect.len() == info.potential_peers_to_connect@.len(),
        forall|i: int|
            0 <= i < info.potential_peers_to_connect@.len() ==> (
            #[trigger] info@.potential_peers_to_connect[i])
                == info.potential_peers_to_connect@[i]@,
        ack is Ack <==> ack@ is Ack,
        ack is NackV0 <==> ack@ is NackV0,
        ack matches AckMessage::Nack(nack_info) ==> ack@ == AckMessageView::Nack(nack_info@),
{
}

/// Nothing of an error is left out of what it says.
pub proof fn law_an_error_says_all(error: PeerError)
    ensures
        match error {
            PeerError::UnsupportedProtocol { supported_version, incompatible_versions } => error@
                == (PeerErrorView::UnsupportedProtocol {
                supported_version: supported_version@,
                incompatible_versions: incompatible_versions@,
            }),
            PeerError::NackReceived => error@ == PeerErrorView::NackReceived,
            PeerError::NackWithMotiveReceived { nack_info } => error@ == (
            PeerErrorView::NackWithMotiveReceived { nack_info: nack_info@ }),
            PeerError::NetworkError { error: reason, message } => error@ == (
            PeerErrorView::NetworkError { error: reason@, message: message@ }),
            PeerError::SerializationError { error: reason } => error@ == (
            PeerErrorView::SerializationError { error: reason@ }),
            PeerError::DeserializationError { error: reason } => error@ == (
            PeerErrorView::DeserializationError { error: reason@ }),
            PeerError::CryptoError { error: reason } => error@ == (PeerErrorView::CryptoError {
                error: reason@,
            }),
        },
{
}

/// Nothing of a key, of a seed or of an outcome is left out of what it says.
pub proof fn law_an_outcome_says_all(key: ChannelKey, seed: NonceSeed, outcome: Outcome)
    ensures
        key@.precomputed_key == key.precomputed_key@,
        key@.nonce == key.nonce@,
        seed@.sent == seed.sent@,
        seed@.received == seed.received@,
        seed@.incoming == seed.incoming,
        outcome is Ok <==> outcome_view(outcome) is Ok,
        outcome matches Ok(output) ==> (outcome_view(outcome) matches Ok(said) && {
            &&& said.reader.precomputed_key == output.0.precomputed_key@
            &&& said.reader.nonce == output.0.nonce@
            &&& said.writer.precomputed_key == output.1.precomputed_key@
            &&& said.writer.nonce == output.1.nonce@
            &&& said.peer_public_key_hash == output.2@
            &&& said.peer_id_marker == output.3@
            &&& said.metadata == output.4
        }),
        outcome matches Err(error) ==> outcome_view(outcome) == Err::<OutputView, PeerErrorView>(
            error@,
        ),
{
}

/// Nothing of an action is left out of what it says.
pub proof fn law_an_action_says_all(action: Action)
    ensures
        match action {
            Action::Prepare { message } => action@ == (ActionView::Prepare { message: message@ }),
            Action::WriteChunk { raw } => action@ == (ActionView::WriteChunk { raw: raw@ }),
            Action::ReadChunk => action@ is ReadChunk,
            Action::Decode { content, ours } => action@ == (ActionView::Decode {
                content: content@,
                ours: ours@,
            }),
            Action::GenerateNonces { seed } => action@ matches ActionView::GenerateNonces {
                seed: said,
            } && {
                &&& said.sent == seed.sent@
                &&& said.received == seed.received@
                &&& said.incoming == seed.incoming
            },
            Action::CheckKey { public_key } => action@ == (ActionView::CheckKey {
                public_key: public_key@,
            }),
            Action::Precompute { peer_public_key, secret_key } => action@ == (
            ActionView::Precompute {
                peer_public_key: peer_public_key@,
                secret_key: secret_key@,
            }),
            Action::Hash { peer_public_key } => action@ == (ActionView::Hash {
                peer_public_key: peer_public_key@,
            }),
            Action::Mark { peer_public_key_hash } => action@ == (ActionView::Mark {
                peer_public_key_hash: peer_public_key_hash@,
            }),
            Action::WriteMetadata { writer, reader, metadata } => action@ matches
                ActionView::WriteMetadata { writer: w, reader: r, metadata: m } && {
                &&& w.precomputed_key == writer.precomputed_key@
                &&& w.nonce == writer.nonce@
                &&& r.precomputed_key == reader.precomputed_key@
                &&& r.nonce == reader.nonce@
                &&& m == metadata
            },
            Action::ReadMetadata => action@ is ReadMetadata,
            Action::WriteAck { ack } => action@ == (ActionView::WriteAck { ack: ack@ }),
            Action::ReadAck => action@ is ReadAck,
            Action::Finish { outcome } => action@ == (ActionView::Finish {
                outcome: outcome_view(outcome),
            }),
        },
{
}

/// The actions of a list keep their order, and none is left out.
pub proof fn law_actions_keep_their_order(all: Seq<Action>)
    ensures
        action_views(all).len() == all.len(),
        forall|i: int| 0 <= i < all.len() ==> #[trigger] action_views(all)[i] == all[i]@,
{
}

// ---------------------------------------------------------------------------------------
// Errors
// ---------------------------------------------------------------------------------------

/// Each error of a node's parts becomes the error of its kind, with its own reason, and with the
/// words that tell network errors apart.
pub proof fn law_errors_keep_their_reason(
    serialization: SerializationFault,
    reader: BinaryReaderError,
    io: IoFault,
    stream: StreamError,
    chunk: BinaryChunkError,
    crypto: CryptoFault,
    timeout: Elapsed,
)
    ensures
        <PeerError as FromSpec<SerializationFault>>::obeys_from_spec(),
        <PeerError as FromSpec<BinaryReaderError>>::obeys_from_spec(),
        <PeerError as FromSpec<IoFault>>::obeys_from_spec(),
        <PeerError as FromSpec<StreamError>>::obeys_from_spec(),
        <PeerError as FromSpec<BinaryChunkError>>::obeys_from_spec(),
        <PeerError as FromSpec<CryptoFault>>::obeys_from_spec(),
        <PeerError as FromSpec<Elapsed>>::obeys_from_spec(),
        <PeerError as FromSpec<SerializationFault>>::from_spec(serialization) == (
        PeerError::SerializationError { error: serialization.reason }),
        <PeerError as FromSpec<BinaryReaderError>>::from_spec(reader) == (
        PeerError::DeserializationError { error: reader.reason }),
        <PeerError as FromSpec<IoFault>>::from_spec(io) matches PeerError::NetworkError {
            error,
            message,
        } && error == io.reason && message@ == "Network error"@,
        <PeerError as FromSpec<StreamError>>::from_spec(stream) matches PeerError::NetworkError {
            error,
            message,
        } && error == stream.reason && message@ == "Stream error"@,
        <PeerError as FromSpec<BinaryChunkError>>::from_spec(chunk) matches
            PeerError::NetworkError { error, message } && error == chunk.reason && message@
            == "Binary chunk error"@,
        <PeerError as FromSpec<CryptoFault>>::from_spec(crypto) == (PeerError::CryptoError {
            error: crypto.reason,
        }),
        <PeerError as FromSpec<Elapsed>>::from_spec(timeout) matches PeerError::NetworkError {
            error,
            message,
        } && error == timeout.reason && message@ == "Connection timeout"@,
{
}

/// Whether an error tells of a fault: with its reason, and in the words of its kind.
pub open spec fn tells_of(fault: Fault, error: PeerErrorView) -> bool {
    match fault {
        Fault::Serialization(e) => error == (PeerErrorView::SerializationError {
            error: e.reason@,
        }),
        Fault::BinaryReader(e) => error == (PeerErrorView::DeserializationError {
            error: e.reason@,
        }),
        Fault::Io(e) => error == (PeerErrorView::NetworkError {
            error: e.reason@,
            message: "Network error"@,
        }),
        Fault::Stream(e) => error == (PeerErrorView::NetworkError {
            error: e.reason@,
            message: "Stream error"@,
        }),
        Fault::BinaryChunk(e) => error == (PeerErrorView::NetworkError {
            error: e.reason@,
            message: "Binary chunk error"@,
        }),
        Fault::Crypto(e) => error == (PeerErrorView::CryptoError { error: e.reason@ }),
        Fault::Elapsed(e) => error == (PeerErrorView::NetworkError {
            error: e.reason@,
            message: "Connection timeout"@,
        }),
    }
}

/// Whatever the fault is, the error that it is reported as tells of it.
pub proof fn law_faults_are_told(fault: Fault)
    ensures
        tells_of(fault, fault_error(fault)),
{
}

/// A stream error has an unsupported tag if and only if a message could not be decoded because
/// of that tag.
pub proof fn law_unsupported_tag(error: StreamError, tag: u64)
    ensures
        unsupported_tag(error) == Some(tag) <==> (error.kind matches
            StreamErrorKind::DeserializationError { error: reader } && reader.kind == (
        BinaryReaderErrorKind::UnsupportedTag { tag })),
        unsupported_tag(error) is None <==> !(error.kind matches
            StreamErrorKind::DeserializationError { error: reader } && reader.kind
            is UnsupportedTag),
{
}

/// The report of an error names its kind, and holds the whole of what it says.
pub proof fn law_error_reports(error: PeerError)
    ensures
        match error {
            PeerError::UnsupportedProtocol { supported_version, incompatible_versions } =>
                peer_error_text(error@) == "Unsupported protocol - supported_version: "@
                + supported_version@ + " vs. "@ + incompatible_versions@,
            PeerError::NackReceived => peer_error_text(error@)
                == "Received NACK from remote peer"@,
            PeerError::NackWithMotiveReceived { nack_info } => peer_error_text(error@)
                == "Received NACK from remote peer with info: "@ + nack_info_text(nack_info@),
            PeerError::NetworkError { error: reason, message } => peer_error_text(error@)
                == "Network error: "@ + message@ + ", reason: "@ + reason@,
            PeerError::SerializationError { error: reason } => peer_error_text(error@)
                == "Message serialization error, reason: "@ + reason@,
            PeerError::DeserializationError { error: reason } => peer_error_text(error@)
                == "Message deserialization error, reason: "@ + reason@,
            PeerError::CryptoError { error: reason } => peer_error_text(error@)
                == "Crypto error, reason: "@ + reason@,
        },
{
}

// ---------------------------------------------------------------------------------------
// Texts
// ---------------------------------------------------------------------------------------

/// A number is written with decimal digits only, without leading zeros, and reads back as that
/// number.
pub proof fn law_decimals(n: nat)
    ensures
        decimal_text(n).len() >= 1,
        forall|i: int|
            0 <= i < decimal_text(n).len() ==> '0' <= #[trigger] decimal_text(n)[i] <= '9',
        n > 0 ==> decimal_text(n)[0] != '0',
        n == 0 ==> decimal_text(n) == seq!['0'],
        decimal_text(n).last() as int == '0' as int + n % 10,
        n >= 10 ==> decimal_text(n).drop_last() == decimal_text(n / 10),
        n < 10 ==> decimal_text(n).len() == 1,
        decimal_value(decimal_text(n)) == n,
    decreases n,
{
    lemma_decimal_round_trip(n);
    if n >= 10 {
        law_decimals(n / 10);
        let front = decimal_text(n / 10);
        assert forall|i: int| 0 <= i < decimal_text(n).len() implies '0'
            <= #[trigger] decimal_text(n)[i] <= '9' by {
            if i < front.len() {
                assert(decimal_text(n)[i] == front[i]);
            }
        }
        assert(decimal_text(n)[0] == front[0]);
        assert(decimal_text(n).drop_last() =~= front);
    }
}

/// Texts are joined in their order, with a comma and a space between any two, and with nothing
/// before the first or after the last. A list of them stands in square brackets.
pub proof fn law_lists(left: Seq<Seq<char>>, right: Seq<Seq<char>>, one: Seq<char>)
    ensures
        list_text(left) == "["@ + joined_text(left) + "]"@,
        joined_text(Seq::<Seq<char>>::empty()) == Seq::<char>::empty(),
        joined_text(seq![one]) == one,
        left.len() > 0 && right.len() > 0 ==> joined_text(left + right) == joined_text(left)
            + ", "@ + joined_text(right),
    decreases right.len(),
{
    if left.len() > 0 && right.len() > 0 {
        let all = left + right;
        assert(all.drop_last() =~= left + right.drop_last());
        assert(all.last() == right.last());
        if right.len() == 1 {
            assert(all.drop_last() =~= left);
        } else {
            law_lists(left, right.drop_last(), one);
        }
        assert(joined_text(all) =~= joined_text(left) + ", "@ + joined_text(right));
    }
}

/// A version is written with all its fields, each after its name.
pub proof fn law_version_reports(
    version: NetworkVersion,
    quoted_chain_name: Seq<char>,
    distributed_db_version: u16,
    p2p_version: u16,
)
    ensures
        version_text(quoted_chain_name, distributed_db_version, p2p_version)
            == "NetworkVersion { chain_name: "@ + quoted_chain_name
            + ", distributed_db_version: "@ + decimal_text(distributed_db_version as nat)
            + ", p2p_version: "@ + decimal_text(p2p_version as nat) + " }"@,
        network_version_text(version@) == "NetworkVersion { chain_name: "@ + quoted_text(
            version.chain_name@,
        ) + ", distributed_db_version: "@ + decimal_text(version.distributed_db_version as nat)
            + ", p2p_version: "@ + decimal_text(version.p2p_version as nat) + " }"@,
{
}

/// The versions of a list are written one after the other, none left out.
pub proof fn law_offers_reports(versions: Seq<OfferedVersion>, written: Seq<Seq<char>>)
    requires
        written.len() == versions.len(),
        forall|i: int|
            0 <= i < versions.len() ==> #[trigger] written[i] == network_version_text(
                versions[i].version@,
            ),
    ensures
        offers_text(offers(versions)) == "["@ + joined_text(written) + "]"@,
{
    let parts = Seq::new(versions.len(), |i: int| network_version_text(versions[i].version@));
    assert(written =~= parts);
    assert(offers(versions).map_values(|v: OfferedVersionView|
        network_version_text(v.version)) =~= written);
}

/// Each motive is written by its name.
pub proof fn law_motive_names(motive: NackMotive)
    ensures
        motive is NoMotive ==> motive_text(motive) == "NoMotive"@,
        motive is TooManyConnections ==> motive_text(motive) == "TooManyConnections"@,
        motive is UnknownChainName ==> motive_text(motive) == "UnknownChainName"@,
        motive is DeprecatedP2pVersion ==> motive_text(motive) == "DeprecatedP2pVersion"@,
        motive is DeprecatedDistributedDbVersion ==> motive_text(motive)
            == "DeprecatedDistributedDbVersion"@,
        motive is AlreadyConnected ==> motive_text(motive) == "AlreadyConnected"@,
{
}

/// A refusal is written with its motive and with all the nodes that it names, quoted.
pub proof fn law_nack_reports(
    info: NackInfo,
    quoted: Seq<Seq<char>>,
    motive: NackMotive,
    others: Seq<Seq<char>>,
)
    requires
        quoted.len() == info.potential_peers_to_connect@.len(),
        forall|i: int|
            0 <= i < quoted.len() ==> #[trigger] quoted[i] == quoted_text(
                info.potential_peers_to_connect@[i]@,
            ),
    ensures
        nack_text(motive, others) == "NackInfo { motive: "@ + motive_text(motive)
            + ", potential_peers_to_connect: "@ + ("["@ + joined_text(others) + "]"@) + " }"@,
        nack_info_text(info@) == "NackInfo { motive: "@ + motive_text(info.motive)
            + ", potential_peers_to_connect: "@ + ("["@ + joined_text(quoted) + "]"@) + " }"@,
{
    assert(quoted_texts(info@.potential_peers_to_connect) =~= quoted);
}

// ---------------------------------------------------------------------------------------
// The handshake
// ---------------------------------------------------------------------------------------

/// A taken stream is gone, and nothing else of the command changes.
pub proof fn law_only_the_stream_is_taken<T>(msg: Bootstrap<T>)
    ensures
        taken(msg).stream is None,
        taken(msg).address == msg.address,
        taken(msg).incoming == msg.incoming,
        taken(msg).disable_mempool == msg.disable_mempool,
        taken(msg).private_node == msg.private_node,
{
}

/// The first thing that a node tells is who it is: its port, its public key and its stamp, the
/// nonce it was given, and its own version, whole and alone.
pub proof fn law_a_node_introduces_itself(info: Local, message_nonce: Seq<u8>)
    ensures
        first_action(info, message_nonce) matches ActionView::Prepare { message } && {
            &&& message.port == info.listener_port
            &&& message.public_key == info.identity.public_key@
            &&& message.proof_of_work_stamp == info.identity.proof_of_work_stamp@
            &&& message.message_nonce == message_nonce
            &&& message.versions.len() == 1
            &&& message.versions[0].chain_name == info.version.chain_name@
            &&& message.versions[0].distributed_db_version == info.version.distributed_db_version
            &&& message.versions[0].p2p_version == info.version.p2p_version
        },
{
}

/// A handshake knows of its command who opened the connection and what to tell of this node, and
/// no event changes that.
pub proof fn law_a_handshake_keeps_its_command<T>(
    msg: Bootstrap<T>,
    info: Arc<Local>,
    handshake: Handshake,
    event: Event,
)
    ensures
        first_state(msg, info).incoming == msg.incoming,
        first_state(msg, info).disable_mempool == msg.disable_mempool,
        first_state(msg, info).private_node == msg.private_node,
        first_state(msg, info).info == info,
        first_state(msg, info).phase is Preparing,
        next(handshake, event).incoming == handshake.incoming,
        next(handshake, event).disable_mempool == handshake.disable_mempool,
        next(handshake, event).private_node == handshake.private_node,
        next(handshake, event).info == handshake.info,
{
}

/// In each phase but the last a handshake waits for one kind of event, whatever that event holds.
pub proof fn law_a_handshake_waits_for_one_thing(phase: Phase, event: Event)
    ensures
        awaits(phase, event) <==> match phase {
            Phase::Preparing => event is Prepared,
            Phase::SendingConnection { .. } => event is Written,
            Phase::AwaitingConnection { .. } => event is ChunkRead,
            Phase::Decoding { .. } => event is Decoded,
            Phase::GeneratingNonces { .. } => event is NoncesGenerated,
            Phase::CheckingKey { .. } => event is KeyChecked,
            Phase::Precomputing { .. } => event is Precomputed,
            Phase::Hashing { .. } => event is Hashed,
            Phase::Marking { .. } => event is Marked,
            Phase::SendingMetadata { .. } => event is Written,
            Phase::AwaitingMetadata { .. } => event is MetadataRead,
            Phase::Refusing { .. } => event is Written,
            Phase::Accepting { .. } => event is Written,
            Phase::AwaitingAck { .. } => event is AckRead,
            Phase::Finished => false,
        },
{
}

/// What waits for the remote peer during a handshake may take six seconds; what does not wait has
/// no deadline.
pub proof fn law_handshake_deadlines(action: ActionView)
    ensures
        action is WriteChunk || action is ReadChunk || action is WriteMetadata || action
            is ReadMetadata || action is WriteAck || action is ReadAck ==> action_deadline(action)
            == Some(6u64),
        action is Prepare || action is Decode || action is GenerateNonces || action is CheckKey
            || action is Precompute || action is Hash || action is Mark || action is Finish
            ==> action_deadline(action) is None,
{
}

/// Nonces are generated from both connection messages as they travelled: from all their bytes,
/// length bytes included, however long they are.
pub proof fn law_nonces_come_from_whole_messages(
    handshake: Handshake,
    replies: Replies,
    i: int,
    sent: BinaryChunk,
    received: BinaryChunk,
    incoming: bool,
)
    requires
        handshake.phase is Preparing,
        0 <= i < actions(handshake, replies).len(),
    ensures
        actions(handshake, replies)[i] matches ActionView::GenerateNonces { seed } ==> {
            &&& seed.sent == replies.prepared->Ok_0.raw@
            &&& seed.received == replies.connection_read->Done_0.raw@
            &&& seed.incoming == handshake.incoming
        },
        nonce_seed(sent, received, incoming).sent == sent.raw@,
        nonce_seed(sent, received, incoming).received == received.raw@,
        nonce_seed(sent, received, incoming).incoming == incoming,
{
    law_what_is_asked_for(handshake, replies, i);
}

/// What a successful handshake hands out to encrypt with.
proof fn lemma_handed_out(handshake: Handshake, replies: Replies)
    ensures
        handshake_outcome(*handshake.info, replies) matches Ok(output) ==> {
            &&& output.writer.precomputed_key == replies.precomputed@
            &&& output.writer.nonce == replies.nonces.local@
            &&& output.reader.precomputed_key == replies.precomputed@
            &&& output.reader.nonce == replies.nonces.remote@
        },
{
}

/// Both directions are encrypted with the key that was computed for the connection: the one that
/// writes with the local nonce, the one that reads with the remote nonce. A successful handshake
/// hands out the very keys that its metadata was encrypted with.
pub proof fn law_both_directions_use_the_computed_key(
    handshake: Handshake,
    replies: Replies,
    i: int,
)
    requires
        handshake.phase is Preparing,
        0 <= i < actions(handshake, replies).len(),
    ensures
        actions(handshake, replies)[i] matches ActionView::WriteMetadata {
            writer,
            reader,
            metadata,
        } ==> {
            &&& writer.precomputed_key == replies.precomputed@
            &&& writer.nonce == replies.nonces.local@
            &&& reader.precomputed_key == replies.precomputed@
            &&& reader.nonce == replies.nonces.remote@
            &&& metadata.disable_mempool == handshake.disable_mempool
            &&& metadata.private_node == handshake.private_node
            &&& handshake_outcome(*handshake.info, replies) matches Ok(output) ==> {
                &&& output.writer == writer
                &&& output.reader == reader
            }
        },
{
    law_what_is_asked_for(handshake, replies, i);
    lemma_handed_out(handshake, replies);
}

/// The keys of a session, and what it hands out, are its own: the computed key for both
/// directions, the local nonce to write with, the remote nonce to read with.
pub proof fn law_session_keys(session: Session, metadata: MetadataMessage)
    ensures
        writer_key(session).precomputed_key == session.precomputed_key@,
        writer_key(session).nonce == session.nonces.local@,
        reader_key(session).precomputed_key == session.precomputed_key@,
        reader_key(session).nonce == session.nonces.remote@,
        session_output(session, metadata).writer == writer_key(session),
        session_output(session, metadata).reader == reader_key(session),
        session_output(session, metadata).peer_public_key_hash == session.peer_public_key_hash@,
        session_output(session, metadata).peer_id_marker == session.peer_id_marker@,
        session_output(session, metadata).metadata == metadata,
{
}

/// Whether an outcome tells of an operation that did not succeed. A missed deadline is told as
/// one; a failure is told with its reason, under `message`.
pub open spec fn tells_of_network<T>(
    outcome: Result<OutputView, PeerErrorView>,
    timed: Timed<T>,
    message: Seq<char>,
) -> bool {
    match timed {
        Timed::Elapsed(timeout) => outcome == Err::<OutputView, PeerErrorView>(
            PeerErrorView::NetworkError {
                error: timeout.reason@,
                message: "Connection timeout"@,
            },
        ),
        Timed::Failed(error) => outcome == Err::<OutputView, PeerErrorView>(
            PeerErrorView::NetworkError { error: error.reason@, message },
        ),
        Timed::Done(_) => true,
    }
}

/// The first thing that does not go well before the connection is encrypted is what a handshake
/// ends with, and it is told for what it is.
pub proof fn law_failures_before_encryption(info: Local, replies: Replies)
    ensures
        replies.prepared matches Err(fault) ==> (handshake_outcome(info, replies) matches Err(error)
            && tells_of(fault, error)),
        replies.prepared is Ok ==> tells_of_network(
            handshake_outcome(info, replies),
            replies.connection_written,
            "Failed to transfer connection message"@,
        ),
        replies.prepared is Ok && replies.connection_written is Done ==> tells_of_network(
            handshake_outcome(info, replies),
            replies.connection_read,
            "No response to connection message was received"@,
        ),
        replies.prepared is Ok && replies.connection_written is Done && replies.connection_read
            is Done ==> (replies.decoded matches Err(error) ==> handshake_outcome(info, replies)
            == Err::<OutputView, PeerErrorView>(
            PeerErrorView::DeserializationError { error: error.reason@ },
        )),
        replies.prepared is Ok && replies.connection_written is Done && replies.connection_read
            is Done && replies.decoded is Ok ==> (replies.key_checked matches Err(error)
            ==> handshake_outcome(info, replies) == Err::<OutputView, PeerErrorView>(
            PeerErrorView::CryptoError { error: error.reason@ },
        )),
        connected(replies) && own_key(info, replies) ==> (handshake_outcome(info, replies) matches
            Err(PeerErrorView::NackWithMotiveReceived { nack_info }) && nack_info.motive
            is AlreadyConnected && nack_info.potential_peers_to_connect.len() == 0),
{
    law_one_supported_version_is_enough(replies.decoded->Ok_0.versions@);
}

/// The first thing that does not go well once the connection is encrypted is what a handshake
/// ends with, and it is told for what it is.
pub proof fn law_failures_after_encryption(info: Local, replies: Replies)
    ensures
        keyed(info, replies) ==> tells_of_network(
            handshake_outcome(info, replies),
            replies.metadata_written,
            "Stream error"@,
        ),
        keyed(info, replies) && replies.metadata_written is Done ==> tells_of_network(
            handshake_outcome(info, replies),
            replies.metadata_read,
            "Stream error"@,
        ),
        introduced(info, replies) ==> tells_of_network(
            handshake_outcome(info, replies),
            replies.ack_written,
            "Stream error"@,
        ),
        introduced(info, replies) && !compatible(replies) && replies.ack_written is Done ==> (
        handshake_outcome(info, replies) matches Err(
            PeerErrorView::UnsupportedProtocol { supported_version, incompatible_versions },
        ) && supported_version == network_version_text(info.version@) && incompatible_versions
            == offers_text(offers(replies.decoded->Ok_0.versions@))),
        introduced(info, replies) && compatible(replies) && replies.ack_written is Done
            ==> tells_of_network(
            handshake_outcome(info, replies),
            replies.ack_read,
            "Stream error"@,
        ),
        answered(info, replies) && replies.ack_read->Done_0 is NackV0 ==> handshake_outcome(
            info,
            replies,
        ) == Err::<OutputView, PeerErrorView>(PeerErrorView::NackReceived),
        answered(info, replies) ==> (replies.ack_read->Done_0 matches AckMessage::Nack(told) ==> (
        handshake_outcome(info, replies) matches Err(
            PeerErrorView::NackWithMotiveReceived { nack_info },
        ) && nack_info.motive == told.motive && nack_info.potential_peers_to_connect == texts(
            told.potential_peers_to_connect@,
        ))),
{
    law_one_supported_version_is_enough(replies.decoded->Ok_0.versions@);
}

// ---------------------------------------------------------------------------------------
// The loop that reads
// ---------------------------------------------------------------------------------------

/// Whether a read failed because of a tag that no known message has.
pub open spec fn has_unsupported_tag(error: StreamError) -> bool {
    error.kind matches StreamErrorKind::DeserializationError { error: reader } && reader.kind
        is UnsupportedTag
}

/// A message with an unsupported tag never ends the loop, whatever the tag is; every other failed
/// read does, and so does a missed deadline. A message that was read does not.
pub proof fn law_only_unsupported_tags_are_forgiven<M, W>(
    myself: PeerRef,
    phase: ReadPhase<M>,
    read: Timed<M>,
)
    ensures
        read matches Timed::Failed(error) ==> {
            &&& has_unsupported_tag(error) ==> !ends_loop(read)
            &&& !has_unsupported_tag(error) ==> ends_loop(read)
        },
        read is Elapsed ==> ends_loop(read),
        read is Done ==> !ends_loop(read),
        read matches Timed::Failed(error) ==> {
            &&& has_unsupported_tag(error) ==> read_reaction(
                myself,
                phase,
                ReadEvent::<M, W>::Read(read),
            ) == (ReadPhase::<M>::Polling, ReadAction::<M, W>::CheckRunning)
            &&& !has_unsupported_tag(error) ==> read_reaction(
                myself,
                phase,
                ReadEvent::<M, W>::Read(read),
            ) == (ReadPhase::<M>::Closing, ReadAction::<M, W>::TakeWriter)
        },
        read is Elapsed ==> read_reaction(myself, phase, ReadEvent::<M, W>::Read(read)) == (
            ReadPhase::<M>::Closing,
            ReadAction::<M, W>::TakeWriter,
        ),
        read matches Timed::Done(message) ==> read_reaction(
            myself,
            phase,
            ReadEvent::<M, W>::Read(read),
        ) == (ReadPhase::<M>::Delivering { message }, ReadAction::<M, W>::CheckRunning),
{
}

/// Whether a message is told as one of a peer's: to those that follow events, in the name of that
/// peer, unchanged.
pub open spec fn tells_message<M>(publish: Publish<M>, peer: PeerRef, message: M) -> bool {
    &&& publish.msg matches NetworkChannelMsg::PeerMessageReceived { peer: from, message: told }
    &&& from == peer
    &&& *told == message
    &&& publish.topic is NetworkEvents
    &&& publish.sender == peer
}

/// The flag decides: while it is up, messages are read and passed on; once it is down, neither,
/// and the connection is closed.
pub proof fn law_the_flag_decides<M, W>(myself: PeerRef, phase: ReadPhase<M>, message: M)
    ensures
        tells_message(delivery(myself, message), myself, message),
        !(phase is Delivering) ==> read_reaction(myself, phase, ReadEvent::<M, W>::Running(true))
            == (ReadPhase::<M>::Reading, ReadAction::<M, W>::Read),
        !(phase is Delivering) ==> read_reaction(myself, phase, ReadEvent::<M, W>::Running(false))
            == (ReadPhase::<M>::Closing, ReadAction::<M, W>::TakeWriter),
        ({
            let (after, action) = read_reaction(
                myself,
                ReadPhase::Delivering { message },
                ReadEvent::<M, W>::Running(true),
            );
            &&& after is Polling
            &&& action matches ReadAction::Publish(publish) && tells_message(
                publish,
                myself,
                message,
            )
        }),
        read_reaction(
            myself,
            ReadPhase::Delivering { message },
            ReadEvent::<M, W>::Running(false),
        ) == (ReadPhase::<M>::Polling, ReadAction::<M, W>::CheckRunning),
{
}

/// The writer that is taken at the end is the one that the connection is shut down with.
pub proof fn law_shutdown_uses_the_taken_writer<M, W>(
    myself: PeerRef,
    phase: ReadPhase<M>,
    writer: W,
)
    ensures
        read_reaction(myself, phase, ReadEvent::<M, W>::WriterTaken(Some(writer))) == (
            ReadPhase::<M>::Stopped,
            ReadAction::<M, W>::Shutdown { writer },
        ),
        read_reaction(myself, phase, ReadEvent::<M, W>::WriterTaken(None)) == (
            ReadPhase::<M>::Stopped,
            ReadAction::<M, W>::Finish,
        ),
{
}

/// In each phase but the last the loop waits for one kind of event, whatever that event holds.
pub proof fn law_the_loop_waits_for_one_thing<M, W>(phase: ReadPhase<M>, event: ReadEvent<M, W>)
    ensures
        read_awaits(phase, event) <==> match phase {
            ReadPhase::Polling => event is Running,
            ReadPhase::Reading => event is Read,
            ReadPhase::Delivering { .. } => event is Running,
            ReadPhase::Closing => event is WriterTaken,
            ReadPhase::Stopped => false,
        },
{
}

/// A read may take two minutes; nothing else of the loop waits for the remote peer.
pub proof fn law_read_deadlines<M, W>(action: ReadAction<M, W>)
    ensures
        action is Read ==> read_deadline(action) == Some(120u64),
        !(action is Read) ==> read_deadline(action) is None,
{
}

/// A message that was read while the flag stays up is passed on once, after those that came
/// before it and before those that come after it. One that was read while the flag went down is
/// not passed on. Where nothing is read, nothing is passed on.
pub proof fn law_messages_keep_their_order<M>(
    before: Seq<Round<M>>,
    round: Round<M>,
    after: Seq<Round<M>>,
)
    requires
        forall|i: int| 0 <= i < before.len() ==> !ends_loop((#[trigger] before[i]).read),
    ensures
        deliveries(Seq::<Round<M>>::empty()) == Seq::<M>::empty(),
        round.read matches Timed::Done(message) ==> {
            &&& round.still_running ==> deliveries(before + seq![round] + after) == deliveries(
                before,
            ) + seq![message] + deliveries(after)
            &&& !round.still_running ==> deliveries(before + seq![round] + after) == deliveries(
                before,
            ) + deliveries(after)
        },
    decreases before.len(),
{
    let all = before + seq![round] + after;
    if before.len() == 0 {
        assert(all.drop_first() =~= after);
        assert(all[0] == round);
    } else {
        let rest = before.drop_first();
        assert forall|i: int| 0 <= i < rest.len() implies !ends_loop((#[trigger] rest[i]).read) by {
            assert(rest[i] == before[i + 1]);
        }
        law_messages_keep_their_order(rest, round, after);
        assert(all.drop_first() =~= rest + seq![round] + after);
        assert(all[0] == before[0]);
        assert(!ends_loop(before[0].read));
    }
}

/// Each message that is passed on is told once, in order, as a message of this peer.
pub proof fn law_messages_are_told<M>(peer: PeerRef, rounds: Seq<Round<M>>)
    ensures
        broadcasts(peer, rounds).len() == deliveries(rounds).len(),
        forall|i: int|
            0 <= i < deliveries(rounds).len() ==> tells_message(
                #[trigger] broadcasts(peer, rounds)[i],
                peer,
                deliveries(rounds)[i],
            ),
{
}

// ---------------------------------------------------------------------------------------
// The actor and its messages
// ---------------------------------------------------------------------------------------

/// A message is written, whole, with the writer that was got; without one nothing is written. A
/// write that fails or takes too long is the end of the peer, and one that succeeds is not.
pub proof fn law_what_becomes_of_a_message<M, W>(
    message: Arc<M>,
    writer: W,
    phase: SendPhase<M>,
    written: Timed<()>,
)
    ensures
        send_reaction(
            SendPhase::Locking { message },
            SendEvent::WriterLocked(Some(writer)),
        ) == (SendPhase::<M>::Writing, SendAction::Write { message, writer }),
        send_reaction(SendPhase::Locking { message }, SendEvent::<W>::WriterLocked(None)) == (
            SendPhase::<M>::Finished,
            SendAction::<M, W>::Finish,
        ),
        written is Done ==> send_reaction(phase, SendEvent::<W>::Written(written)) == (
            SendPhase::<M>::Finished,
            SendAction::<M, W>::Finish,
        ),
        written is Failed || written is Elapsed ==> send_reaction(
            phase,
            SendEvent::<W>::Written(written),
        ) == (SendPhase::<M>::Finished, SendAction::<M, W>::StopPeer),
{
}

/// In each phase but the last a task waits for one kind of event, whatever that event holds, and
/// only its write has a deadline: six seconds.
pub proof fn law_a_task_waits_for_one_thing<M, W>(
    phase: SendPhase<M>,
    event: SendEvent<W>,
    action: SendAction<M, W>,
)
    ensures
        send_awaits(phase, event) <==> match phase {
            SendPhase::Locking { .. } => event is WriterLocked,
            SendPhase::Writing => event is Written,
            SendPhase::Finished => false,
        },
        action is Write ==> send_deadline(action) == Some(6u64),
        !(action is Write) ==> send_deadline(action) is None,
{
}

/// A command reaches an actor as it was given.
pub proof fn law_commands_reach_the_actor<T, M>(bootstrap: Bootstrap<T>, send: SendMessage<M>)
    ensures
        <PeerMsg<T, M> as FromSpec<Bootstrap<T>>>::obeys_from_spec(),
        <PeerMsg<T, M> as FromSpec<SendMessage<M>>>::obeys_from_spec(),
        <PeerMsg<T, M> as FromSpec<Bootstrap<T>>>::from_spec(bootstrap) == PeerMsg::<
            T,
            M,
        >::Bootstrap(bootstrap),
        <PeerMsg<T, M> as FromSpec<SendMessage<M>>>::from_spec(send) == PeerMsg::<
            T,
            M,
        >::SendMessage(send),
{
}

/// A new actor has no connection and no remote peer.
pub proof fn law_a_new_actor_is_alone<W>(info: Arc<Local>, socket_address: SocketAddress)
    ensures
        unconnected::<W>(info, socket_address).local == info,
        !unconnected::<W>(info, socket_address).net.rx_run,
        unconnected::<W>(info, socket_address).net.tx is None,
        unconnected::<W>(info, socket_address).net.socket_address == socket_address,
        unconnected::<W>(info, socket_address).remote_addr == (SocketAddress::V4 {
            ipv4: 0,
            port: 0,
        }),
{
}

/// What changes the state of an actor changes one thing of it, and leaves the rest.
pub proof fn law_one_thing_changes<W>(
    net: Network<W>,
    tx: W,
    peer: Peer<W>,
    address: SocketAddress,
)
    ensures
        opened(net, tx).rx_run,
        opened(net, tx).tx == Some(tx),
        opened(net, tx).socket_address == net.socket_address,
        without_writer(net).tx is None,
        without_writer(net).rx_run == net.rx_run,
        without_writer(net).socket_address == net.socket_address,
        addressed(peer, address).remote_addr == address,
        addressed(peer, address).local == peer.local,
        addressed(peer, address).net == peer.net,
        !stopped(peer).net.rx_run,
        stopped(peer).net.tx == peer.net.tx,
        stopped(peer).net.socket_address == peer.net.socket_address,
        stopped(peer).local == peer.local,
        stopped(peer).remote_addr == peer.remote_addr,
{
}

/// Numbers are handed out one by one, and no two in a row are the same. An actor is named by its
/// number, in decimal.
pub proof fn law_numbers_count_up(id: u64)
    ensures
        id < u64::MAX ==> number_after(id) == id + 1,
        id == u64::MAX ==> number_after(id) == 0,
        actor_name(id) == "peer-"@ + decimal_text(id as nat),
        decimal_value(actor_name(id).skip("peer-"@.len() as int)) == id,
{
    lemma_decimal_round_trip(id as nat);
    assert(actor_name(id).skip("peer-"@.len() as int) =~= decimal_text(id as nat));
}

/// A successful handshake is told with all that it found out: which actor talks to which node at
/// which address, and the metadata of that node. Its writer and its reader are the ones that are
/// put to use.
pub proof fn law_success_is_told<R, W, M>(
    myself: PeerRef,
    peer_address: SocketAddress,
    output: BootstrapOutput<R, W>,
)
    ensures
        ({
            let todo = aftermath::<R, W, M>(myself, peer_address, Ok(output));
            &&& todo.len() == 4
            &&& todo[0] matches TaskAction::SetupNet { tx } && tx == output.1
            &&& todo[1] matches TaskAction::Publish(publish) && {
                &&& publish.msg matches NetworkChannelMsg::PeerBootstrapped(id, metadata) && {
                    &&& id.peer_ref == myself
                    &&& id.peer_public_key_hash == output.2
                    &&& id.peer_id_marker == output.3
                    &&& id.peer_address == peer_address
                    &&& *metadata == output.4
                }
                &&& publish.topic is NetworkEvents
                &&& publish.sender == myself
            }
            &&& todo[2] matches TaskAction::ProcessIncoming { rx } && rx == output.0
            &&& todo[3] is StopPeer
        }),
{
}

/// A failed handshake is told with the very address that it failed for, whatever its family and
/// its port, and with the nodes that a refusal names, and with no others.
pub proof fn law_failure_is_told<R, W, M>(
    myself: PeerRef,
    peer_address: SocketAddress,
    error: PeerError,
)
    ensures
        ({
            let todo = aftermath::<R, W, M>(myself, peer_address, Err(error));
            &&& todo.len() == 2
            &&& todo[0] matches TaskAction::Publish(publish) && {
                &&& publish.msg matches NetworkChannelMsg::ProcessFailedBootstrapAddress(failed)
                    && {
                    &&& failed.address == peer_address
                    &&& error matches PeerError::NackWithMotiveReceived { nack_info }
                        ==> failed.potential_peers_to_connect == Some(
                        nack_info.potential_peers_to_connect,
                    )
                    &&& !(error is NackWithMotiveReceived)
                        ==> failed.potential_peers_to_connect is None
                }
                &&& publish.topic is NetworkCommands
                &&& publish.sender == myself
            }
            &&& todo[1] is StopPeer
        }),
        error matches PeerError::NackWithMotiveReceived { nack_info } ==> potential_peers(error)
            == Some(nack_info.potential_peers_to_connect),
{
}

} // verus!
