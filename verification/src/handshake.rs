//! The exchange of messages that opens a connection.
//!
//! A handshake is a state that waits for the outcome of one action. [`Handshake::step`] takes
//! that outcome and says what to do next, until the action is to finish.

use std::sync::Arc;

use vstd::prelude::*;

use crate::bootstrap::{taken, Bootstrap, BootstrapOutput, IO_TIMEOUT_SECS};
use crate::error::{fault_error, stream_error, timeout_error};
use crate::error::{BinaryReaderError, CryptoFault, Fault, PeerError, PeerErrorView, StreamError, Timed};
use crate::local::Local;
use crate::messages::{any_supported, network_version_text, offers, offers_text};
use crate::messages::{offers_report, supports_any};
use crate::messages::{
    AckMessage, AckMessageView, BinaryChunk, ConnectionMessage, ConnectionMessageView,
    Introduction, MetadataMessage, NackInfo, NackInfoView, NackMotive, NetworkVersion,
    NetworkVersionView, OfferedVersion,
};
use crate::text::copied_bytes;

verus! {

/// The two nonces of an encrypted connection.
#[derive(Debug)]
pub struct NoncePair {
    /// used for writing crypto messages to other peers
    pub local: Vec<u8>,
    /// used for reading crypto messages from other peers
    pub remote: Vec<u8>,
}

/// What the nonces of a connection are generated from. Both messages are taken with their
/// length bytes.
#[derive(Debug)]
pub struct NonceSeed {
    pub sent: Vec<u8>,
    pub received: Vec<u8>,
    pub incoming: bool,
}

/// What a [`NonceSeed`] holds.
#[verifier::ext_equal]
pub struct NonceSeedView {
    pub sent: Seq<u8>,
    pub received: Seq<u8>,
    pub incoming: bool,
}

impl View for NonceSeed {
    type V = NonceSeedView;

    open spec fn view(&self) -> NonceSeedView {
        NonceSeedView {
            sent: self.sent@,
            received: self.received@,
            incoming: self.incoming,
        }
    }
}

/// What cryptography makes of the first messages.
#[derive(Debug)]
pub struct Session {
    pub nonces: NoncePair,
    pub peer_public_key: Vec<u8>,
    pub precomputed_key: Vec<u8>,
    pub peer_public_key_hash: Vec<u8>,
    pub peer_id_marker: String,
}

/// What one direction of an encrypted connection needs.
#[derive(Debug)]
pub struct ChannelKey {
    pub precomputed_key: Vec<u8>,
    pub nonce: Vec<u8>,
}

/// What a [`ChannelKey`] holds.
#[verifier::ext_equal]
pub struct ChannelKeyView {
    pub precomputed_key: Seq<u8>,
    pub nonce: Seq<u8>,
}

impl View for ChannelKey {
    type V = ChannelKeyView;

    open spec fn view(&self) -> ChannelKeyView {
        ChannelKeyView { precomputed_key: self.precomputed_key@, nonce: self.nonce@ }
    }
}

/// The side that writes uses the local nonce.
pub open spec fn writer_key(session: Session) -> ChannelKeyView {
    ChannelKeyView {
        precomputed_key: session.precomputed_key@,
        nonce: session.nonces.local@,
    }
}

/// The side that reads uses the remote nonce.
pub open spec fn reader_key(session: Session) -> ChannelKeyView {
    ChannelKeyView {
        precomputed_key: session.precomputed_key@,
        nonce: session.nonces.remote@,
    }
}

/// What a successful handshake hands out.
#[verifier::ext_equal]
pub struct OutputView {
    pub reader: ChannelKeyView,
    pub writer: ChannelKeyView,
    pub peer_public_key_hash: Seq<u8>,
    pub peer_id_marker: Seq<char>,
    pub metadata: MetadataMessage,
}

/// What a successful handshake hands out, of its session and of the remote peer's metadata.
pub open spec fn session_output(session: Session, metadata: MetadataMessage) -> OutputView {
    OutputView {
        reader: reader_key(session),
        writer: writer_key(session),
        peer_public_key_hash: session.peer_public_key_hash@,
        peer_id_marker: session.peer_id_marker@,
        metadata,
    }
}

/// How a handshake ends.
pub type Outcome = Result<BootstrapOutput<ChannelKey, ChannelKey>, PeerError>;

/// What the end of a handshake says.
pub open spec fn outcome_view(outcome: Outcome) -> Result<OutputView, PeerErrorView> {
    match outcome {
        Ok(output) => Ok(
            OutputView {
                reader: output.0@,
                writer: output.1@,
                peer_public_key_hash: output.2@,
                peer_id_marker: output.3@,
                metadata: output.4,
            },
        ),
        Err(error) => Err(error@),
    }
}

/// What a handshake waits for.
#[derive(Debug)]
pub enum Phase {
    /// The connection message is made ready.
    Preparing,
    /// The connection message is written.
    SendingConnection { sent: BinaryChunk },
    /// The connection message of the remote peer is read.
    AwaitingConnection { sent: BinaryChunk },
    /// The connection message of the remote peer is decoded.
    Decoding { sent: BinaryChunk, received: BinaryChunk },
    /// The nonces of the connection are generated.
    GeneratingNonces { introduction: Introduction },
    /// The public key of the remote peer is checked.
    CheckingKey { versions: Vec<OfferedVersion>, nonces: NoncePair },
    /// The key of the connection is computed.
    Precomputing { versions: Vec<OfferedVersion>, nonces: NoncePair, peer_public_key: Vec<u8> },
    /// The public key of the remote peer is hashed.
    Hashing {
        versions: Vec<OfferedVersion>,
        nonces: NoncePair,
        peer_public_key: Vec<u8>,
        precomputed_key: Vec<u8>,
    },
    /// The hash is written as text.
    Marking {
        versions: Vec<OfferedVersion>,
        nonces: NoncePair,
        peer_public_key: Vec<u8>,
        precomputed_key: Vec<u8>,
        peer_public_key_hash: Vec<u8>,
    },
    /// The metadata is written.
    SendingMetadata { versions: Vec<OfferedVersion>, session: Session },
    /// The metadata of the remote peer is read.
    AwaitingMetadata { versions: Vec<OfferedVersion>, session: Session },
    /// The refusal of the remote peer is written.
    Refusing { versions: Vec<OfferedVersion> },
    /// The acceptance of the remote peer is written.
    Accepting { session: Session, metadata: MetadataMessage },
    /// The last word of the remote peer is read.
    AwaitingAck { session: Session, metadata: MetadataMessage },
    /// Nothing is left to do.
    Finished,
}

/// The outcome of an action.
#[derive(Debug)]
pub enum Event {
    /// The connection message was made ready.
    Prepared(Result<BinaryChunk, Fault>),
    /// A message was written.
    Written(Timed<()>),
    /// The connection message of the remote peer was read.
    ChunkRead(Timed<BinaryChunk>),
    /// The connection message of the remote peer was decoded.
    Decoded(Result<Introduction, BinaryReaderError>),
    /// The nonces of the connection were generated.
    NoncesGenerated(NoncePair),
    /// The public key of the remote peer was checked.
    KeyChecked(Result<Vec<u8>, CryptoFault>),
    /// The key of the connection was computed.
    Precomputed(Vec<u8>),
    /// The public key of the remote peer was hashed.
    Hashed(Vec<u8>),
    /// The hash was written as text.
    Marked(String),
    /// The metadata of the remote peer was read.
    MetadataRead(Timed<MetadataMessage>),
    /// The last word of the remote peer was read.
    AckRead(Timed<AckMessage>),
}

/// What to do next.
#[derive(Debug)]
pub enum Action {
    /// Encode and frame the connection message.
    Prepare { message: ConnectionMessage },
    /// Write these bytes as they are.
    WriteChunk { raw: Vec<u8> },
    /// Read one framed message.
    ReadChunk,
    /// Decode a connection message, and find out of each version in it whether our version
    /// supports it.
    Decode { content: Vec<u8>, ours: NetworkVersion },
    /// Generate the nonces of the connection.
    GenerateNonces { seed: NonceSeed },
    /// Make a public key of these bytes.
    CheckKey { public_key: Vec<u8> },
    /// Compute the key of the connection from the public key of the remote peer and the secret
    /// key of this node.
    Precompute { peer_public_key: Vec<u8>, secret_key: Vec<u8> },
    /// Hash the public key of the remote peer.
    Hash { peer_public_key: Vec<u8> },
    /// Write the hash as text.
    Mark { peer_public_key_hash: Vec<u8> },
    /// Encrypt both directions from now on, and write the metadata.
    WriteMetadata { writer: ChannelKey, reader: ChannelKey, metadata: MetadataMessage },
    /// Read the metadata of the remote peer.
    ReadMetadata,
    /// Write the last word of this node.
    WriteAck { ack: AckMessage },
    /// Read the last word of the remote peer.
    ReadAck,
    /// The handshake is over.
    Finish { outcome: Outcome },
}

/// What an [`Action`] says.
#[verifier::ext_equal]
pub enum ActionView {
    Prepare { message: ConnectionMessageView },
    WriteChunk { raw: Seq<u8> },
    ReadChunk,
    Decode { content: Seq<u8>, ours: NetworkVersionView },
    GenerateNonces { seed: NonceSeedView },
    CheckKey { public_key: Seq<u8> },
    Precompute { peer_public_key: Seq<u8>, secret_key: Seq<u8> },
    Hash { peer_public_key: Seq<u8> },
    Mark { peer_public_key_hash: Seq<u8> },
    WriteMetadata { writer: ChannelKeyView, reader: ChannelKeyView, metadata: MetadataMessage },
    ReadMetadata,
    WriteAck { ack: AckMessageView },
    ReadAck,
    Finish { outcome: Result<OutputView, PeerErrorView> },
}

impl View for Action {
    type V = ActionView;

    open spec fn view(&self) -> ActionView {
        match self {
            Action::Prepare { message } => ActionView::Prepare { message: message@ },
            Action::WriteChunk { raw } => ActionView::WriteChunk { raw: raw@ },
            Action::ReadChunk => ActionView::ReadChunk,
            Action::Decode { content, ours } => ActionView::Decode {
                content: content@,
                ours: ours@,
            },
            Action::GenerateNonces { seed } => ActionView::GenerateNonces { seed: seed@ },
            Action::CheckKey { public_key } => ActionView::CheckKey { public_key: public_key@ },
            Action::Precompute { peer_public_key, secret_key } => ActionView::Precompute {
                peer_public_key: peer_public_key@,
                secret_key: secret_key@,
            },
            Action::Hash { peer_public_key } => ActionView::Hash {
                peer_public_key: peer_public_key@,
            },
            Action::Mark { peer_public_key_hash } => ActionView::Mark {
                peer_public_key_hash: peer_public_key_hash@,
            },
            Action::WriteMetadata { writer, reader, metadata } => ActionView::WriteMetadata {
                writer: writer@,
                reader: reader@,
                metadata: *metadata,
            },
            Action::ReadMetadata => ActionView::ReadMetadata,
            Action::WriteAck { ack } => ActionView::WriteAck { ack: ack@ },
            Action::ReadAck => ActionView::ReadAck,
            Action::Finish { outcome } => ActionView::Finish { outcome: outcome_view(*outcome) },
        }
    }
}

/// The seconds that an action may take, where it waits for the remote peer.
pub open spec fn action_deadline(action: ActionView) -> Option<u64> {
    match action {
        ActionView::WriteChunk { .. } => Some(IO_TIMEOUT_SECS),
        ActionView::ReadChunk => Some(IO_TIMEOUT_SECS),
        ActionView::WriteMetadata { .. } => Some(IO_TIMEOUT_SECS),
        ActionView::ReadMetadata => Some(IO_TIMEOUT_SECS),
        ActionView::WriteAck { .. } => Some(IO_TIMEOUT_SECS),
        ActionView::ReadAck => Some(IO_TIMEOUT_SECS),
        _ => None,
    }
}

impl Action {
    /// The seconds that the action may take, where it waits for the remote peer.
    pub fn deadline_secs(&self) -> (r: Option<u64>)
        ensures
            r == action_deadline(self@),
    {
        match self {
            Action::WriteChunk { .. } => Some(IO_TIMEOUT_SECS),
            Action::ReadChunk => Some(IO_TIMEOUT_SECS),
            Action::WriteMetadata { .. } => Some(IO_TIMEOUT_SECS),
            Action::ReadMetadata => Some(IO_TIMEOUT_SECS),
            Action::WriteAck { .. } => Some(IO_TIMEOUT_SECS),
            Action::ReadAck => Some(IO_TIMEOUT_SECS),
            _ => None,
        }
    }
}

/// A handshake with a remote peer.
#[derive(Debug)]
pub struct Handshake {
    pub incoming: bool,
    pub disable_mempool: bool,
    pub private_node: bool,
    pub info: Arc<Local>,
    pub phase: Phase,
}

/// The connection message of a node.
pub open spec fn connection_message(info: Local, message_nonce: Seq<u8>) -> ConnectionMessageView {
    ConnectionMessageView {
        port: info.listener_port,
        public_key: info.identity.public_key@,
        proof_of_work_stamp: info.identity.proof_of_work_stamp@,
        message_nonce,
        versions: seq![info.version@],
    }
}

/// Whether a handshake can start on a command: its stream is still there.
pub open spec fn admits<T>(msg: Bootstrap<T>) -> bool {
    msg.stream is Some
}

/// The state that the handshake of a command starts in.
pub open spec fn first_state<T>(msg: Bootstrap<T>, info: Arc<Local>) -> Handshake {
    Handshake {
        incoming: msg.incoming,
        disable_mempool: msg.disable_mempool,
        private_node: msg.private_node,
        info,
        phase: Phase::Preparing,
    }
}

/// The action that a handshake starts with.
pub open spec fn first_action(info: Local, message_nonce: Seq<u8>) -> ActionView {
    ActionView::Prepare { message: connection_message(info, message_nonce) }
}

/// Whether a phase waits for an event of this kind.
pub open spec fn awaits(phase: Phase, event: Event) -> bool {
    match event {
        Event::Prepared(_) => phase is Preparing,
        Event::Written(_) => phase is SendingConnection || phase is SendingMetadata
            || phase is Refusing || phase is Accepting,
        Event::ChunkRead(_) => phase is AwaitingConnection,
        Event::Decoded(_) => phase is Decoding,
        Event::NoncesGenerated(_) => phase is GeneratingNonces,
        Event::KeyChecked(_) => phase is CheckingKey,
        Event::Precomputed(_) => phase is Precomputing,
        Event::Hashed(_) => phase is Hashing,
        Event::Marked(_) => phase is Marking,
        Event::MetadataRead(_) => phase is AwaitingMetadata,
        Event::AckRead(_) => phase is AwaitingAck,
    }
}

/// The error of an operation on the encrypted stream, if it did not succeed.
pub open spec fn timed_failure<T>(timed: Timed<T>) -> Option<PeerErrorView> {
    match timed {
        Timed::Elapsed(timeout) => Some(timeout_error(timeout)),
        Timed::Failed(error) => Some(stream_error(error)),
        Timed::Done(_) => None,
    }
}

/// The error of an operation on the stream before it is encrypted, if it did not succeed.
pub open spec fn plain_failure<T>(timed: Timed<T>, message: Seq<char>) -> Option<PeerErrorView> {
    match timed {
        Timed::Elapsed(timeout) => Some(timeout_error(timeout)),
        Timed::Failed(error) => Some(
            PeerErrorView::NetworkError { error: error.reason@, message },
        ),
        Timed::Done(_) => None,
    }
}

/// The error of a node that has connected to itself. It is reported as if the remote node had
/// refused.
pub open spec fn self_connection_error() -> PeerErrorView {
    PeerErrorView::NackWithMotiveReceived {
        nack_info: NackInfoView {
            motive: NackMotive::AlreadyConnected,
            potential_peers_to_connect: Seq::empty(),
        },
    }
}

/// The error of a remote peer that offers only versions which this node does not support.
pub open spec fn protocol_error(info: Local, versions: Seq<OfferedVersion>) -> PeerErrorView {
    PeerErrorView::UnsupportedProtocol {
        supported_version: network_version_text(info.version@),
        incompatible_versions: offers_text(offers(versions)),
    }
}

/// The error of a remote peer's last word, if it is not an acceptance.
pub open spec fn ack_failure(ack: AckMessage) -> Option<PeerErrorView> {
    match ack {
        AckMessage::Ack => None,
        AckMessage::NackV0 => Some(PeerErrorView::NackReceived),
        AckMessage::Nack(nack_info) => Some(
            PeerErrorView::NackWithMotiveReceived { nack_info: nack_info@ },
        ),
    }
}

/// The error that an event ends a handshake with, if it does.
pub open spec fn failure(handshake: Handshake, event: Event) -> Option<PeerErrorView> {
    match event {
        Event::Prepared(prepared) => match prepared {
            Ok(_) => None,
            Err(fault) => Some(fault_error(fault)),
        },
        Event::Written(written) => match handshake.phase {
            Phase::SendingConnection { .. } => plain_failure(
                written,
                "Failed to transfer connection message"@,
            ),
            Phase::Refusing { versions } => match timed_failure(written) {
                Some(error) => Some(error),
                None => Some(protocol_error(*handshake.info, versions@)),
            },
            _ => timed_failure(written),
        },
        Event::ChunkRead(read) => plain_failure(
            read,
            "No response to connection message was received"@,
        ),
        Event::Decoded(decoded) => match decoded {
            Ok(_) => None,
            Err(error) => Some(PeerErrorView::DeserializationError { error: error.reason@ }),
        },
        Event::NoncesGenerated(_) => None,
        Event::KeyChecked(checked) => match checked {
            Ok(_) => None,
            Err(error) => Some(PeerErrorView::CryptoError { error: error.reason@ }),
        },
        Event::Precomputed(_) => None,
        Event::Hashed(_) => None,
        Event::Marked(_) => match handshake.phase {
            Phase::Marking { peer_public_key, .. } => if peer_public_key@
                == handshake.info.identity.public_key@ {
                Some(self_connection_error())
            } else {
                None
            },
            _ => None,
        },
        Event::MetadataRead(read) => timed_failure(read),
        Event::AckRead(read) => match read {
            Timed::Done(ack) => ack_failure(ack),
            _ => timed_failure(read),
        },
    }
}

/// Where an event that a handshake waits for leads, if it does not end it in an error.
pub open spec fn progress(handshake: Handshake, event: Event) -> (Phase, ActionView) {
    match (handshake.phase, event) {
        (Phase::Preparing, Event::Prepared(Ok(sent))) => (
            Phase::SendingConnection { sent },
            ActionView::WriteChunk { raw: sent.raw@ },
        ),
        (Phase::SendingConnection { sent }, _) => (
            Phase::AwaitingConnection { sent },
            ActionView::ReadChunk,
        ),
        (Phase::AwaitingConnection { sent }, Event::ChunkRead(Timed::Done(received))) => (
            Phase::Decoding { sent, received },
            ActionView::Decode { content: received.content@, ours: handshake.info.version@ },
        ),
        (Phase::Decoding { sent, received }, Event::Decoded(Ok(introduction))) => (
            Phase::GeneratingNonces { introduction },
            ActionView::GenerateNonces { seed: nonce_seed(sent, received, handshake.incoming) },
        ),
        (Phase::GeneratingNonces { introduction }, Event::NoncesGenerated(nonces)) => (
            Phase::CheckingKey { versions: introduction.versions, nonces },
            ActionView::CheckKey { public_key: introduction.public_key@ },
        ),
        (Phase::CheckingKey { versions, nonces }, Event::KeyChecked(Ok(peer_public_key))) => (
            Phase::Precomputing { versions, nonces, peer_public_key },
            ActionView::Precompute {
                peer_public_key: peer_public_key@,
                secret_key: handshake.info.identity.secret_key@,
            },
        ),
        (
            Phase::Precomputing { versions, nonces, peer_public_key },
            Event::Precomputed(precomputed_key),
        ) => (
            Phase::Hashing { versions, nonces, peer_public_key, precomputed_key },
            ActionView::Hash { peer_public_key: peer_public_key@ },
        ),
        (
            Phase::Hashing { versions, nonces, peer_public_key, precomputed_key },
            Event::Hashed(peer_public_key_hash),
        ) => (
            Phase::Marking {
                versions,
                nonces,
                peer_public_key,
                precomputed_key,
                peer_public_key_hash,
            },
            ActionView::Mark { peer_public_key_hash: peer_public_key_hash@ },
        ),
        (
            Phase::Marking {
                versions,
                nonces,
                peer_public_key,
                precomputed_key,
                peer_public_key_hash,
            },
            Event::Marked(peer_id_marker),
        ) => {
            let session = Session {
                nonces,
                peer_public_key,
                precomputed_key,
                peer_public_key_hash,
                peer_id_marker,
            };
            (
                Phase::SendingMetadata { versions, session },
                ActionView::WriteMetadata {
                    writer: writer_key(session),
                    reader: reader_key(session),
                    metadata: MetadataMessage {
                        disable_mempool: handshake.disable_mempool,
                        private_node: handshake.private_node,
                    },
                },
            )
        },
        (Phase::SendingMetadata { versions, session }, _) => (
            Phase::AwaitingMetadata { versions, session },
            ActionView::ReadMetadata,
        ),
        (
            Phase::AwaitingMetadata { versions, session },
            Event::MetadataRead(Timed::Done(metadata)),
        ) => if any_supported(offers(versions@)) {
            (
                Phase::Accepting { session, metadata },
                ActionView::WriteAck { ack: AckMessageView::Ack },
            )
        } else {
            (
                Phase::Refusing { versions },
                ActionView::WriteAck { ack: AckMessageView::NackV0 },
            )
        },
        (Phase::Accepting { session, metadata }, _) => (
            Phase::AwaitingAck { session, metadata },
            ActionView::ReadAck,
        ),
        (Phase::AwaitingAck { session, metadata }, _) => (
            Phase::Finished,
            ActionView::Finish { outcome: Ok(session_output(session, metadata)) },
        ),
        (phase, _) => (phase, ActionView::ReadChunk),
    }
}

/// What a handshake does with an event: it ends in the error of the event, or goes on.
pub open spec fn reaction(handshake: Handshake, event: Event) -> (Phase, ActionView) {
    match failure(handshake, event) {
        Some(error) => (Phase::Finished, ActionView::Finish { outcome: Err(error) }),
        None => progress(handshake, event),
    }
}

/// The state of a handshake after an event.
pub open spec fn next(handshake: Handshake, event: Event) -> Handshake {
    Handshake { phase: reaction(handshake, event).0, ..handshake }
}

/// What the nonces of a connection are generated from.
pub open spec fn nonce_seed(
    sent: BinaryChunk,
    received: BinaryChunk,
    incoming: bool,
) -> NonceSeedView {
    NonceSeedView { sent: sent.raw@, received: received.raw@, incoming }
}

/// Collects what the nonces of a connection are generated from (sent and recv encoding must be
/// with length bytes also).
pub fn generate_nonces(
    sent_msg: &BinaryChunk,
    recv_msg: &BinaryChunk,
    incoming: bool,
) -> (r: NonceSeed)
    ensures
        r@ == nonce_seed(*sent_msg, *recv_msg, incoming),
        r.sent@ == sent_msg.raw@,
        r.received@ == recv_msg.raw@,
        r.incoming == incoming,
{
    NonceSeed {
        sent: copied_bytes(&sent_msg.raw),
        received: copied_bytes(&recv_msg.raw),
        incoming,
    }
}

/// Whether two byte strings are the same.
fn same_bytes(a: &Vec<u8>, b: &Vec<u8>) -> (r: bool)
    ensures
        r == (a@ == b@),
{
    if a.len() != b.len() {
        return false;
    }
    let mut i: usize = 0;
    while i < a.len()
        invariant
            i <= a.len(),
            a.len() == b.len(),
            forall|j: int| 0 <= j < i ==> a@[j] == b@[j],
        decreases a.len() - i,
    {
        if a[i] != b[i] {
            assert(a@[i as int] != b@[i as int]);
            return false;
        }
        i += 1;
    }
    assert(a@ =~= b@);
    true
}

impl Session {
    /// The key of the side that writes.
    pub fn writer(&self) -> (r: ChannelKey)
        ensures
            r@ == writer_key(*self),
            r.precomputed_key@ == self.precomputed_key@,
            r.nonce@ == self.nonces.local@,
    {
        ChannelKey {
            precomputed_key: copied_bytes(&self.precomputed_key),
            nonce: copied_bytes(&self.nonces.local),
        }
    }

    /// The key of the side that reads.
    pub fn reader(&self) -> (r: ChannelKey)
        ensures
            r@ == reader_key(*self),
            r.precomputed_key@ == self.precomputed_key@,
            r.nonce@ == self.nonces.remote@,
    {
        ChannelKey {
            precomputed_key: copied_bytes(&self.precomputed_key),
            nonce: copied_bytes(&self.nonces.remote),
        }
    }

    /// What a successful handshake hands out.
    pub fn output(self, metadata: MetadataMessage) -> (r: BootstrapOutput<ChannelKey, ChannelKey>)
        ensures
            outcome_view(Ok(r)) == Ok::<OutputView, PeerErrorView>(session_output(self, metadata)),
            r.0.precomputed_key@ == self.precomputed_key@,
            r.0.nonce@ == self.nonces.remote@,
            r.1.precomputed_key@ == self.precomputed_key@,
            r.1.nonce@ == self.nonces.local@,
            r.2 == self.peer_public_key_hash,
            r.3 == self.peer_id_marker,
            r.4 == metadata,
    {
        let reader = self.reader();
        let writer = self.writer();
        BootstrapOutput(
            reader,
            writer,
            self.peer_public_key_hash,
            self.peer_id_marker,
            metadata,
        )
    }
}

/// The error of a failed operation on the stream before it is encrypted.
fn plain_error(error: StreamError, message: &'static str) -> (r: PeerError)
    ensures
        r@ == (PeerErrorView::NetworkError { error: error.reason@, message: message@ }),
{
    PeerError::NetworkError { error: error.reason, message }
}

impl Handshake {
    /// Starts the handshake that a command asks for, on the stream of that command, which is
    /// then gone from it.
    ///
    /// The nonce of the connection message should be a random one.
    pub fn start<T>(msg: &mut Bootstrap<T>, info: Arc<Local>, message_nonce: Vec<u8>) -> (r: (
        T,
        Handshake,
        Action,
    ))
        requires
            admits(*old(msg)),
        ensures
            Some(r.0) == old(msg).stream,
            *final(msg) == taken(*old(msg)),
            r.1 == first_state(*old(msg), info),
            r.2@ == first_action(*info, message_nonce@),
            r.2 matches Action::Prepare { message } && {
                &&& message.port == info.listener_port
                &&& message.public_key@ == info.identity.public_key@
                &&& message.proof_of_work_stamp@ == info.identity.proof_of_work_stamp@
                &&& message.message_nonce@ == message_nonce@
                &&& message.versions@.len() == 1
                &&& message.versions@[0] == *info.version
            },
    {
        let stream = msg.take_stream().unwrap();
        let mut versions: Vec<NetworkVersion> = Vec::new();
        versions.push(info.version.copied());
        let message = ConnectionMessage {
            port: info.listener_port,
            public_key: copied_bytes(&info.identity.public_key),
            proof_of_work_stamp: copied_bytes(&info.identity.proof_of_work_stamp),
            message_nonce,
            versions,
        };
        assert(message@ =~= connection_message(*info, message_nonce@));
        let handshake = Handshake {
            incoming: msg.incoming,
            disable_mempool: msg.disable_mempool,
            private_node: msg.private_node,
            info,
            phase: Phase::Preparing,
        };
        (stream, handshake, Action::Prepare { message })
    }

    /// Whether the handshake waits for an event of this kind.
    pub fn accepts(&self, event: &Event) -> (r: bool)
        ensures
            r == awaits(self.phase, *event),
    {
        match (&self.phase, event) {
            (Phase::Preparing, Event::Prepared(_)) => true,
            (Phase::SendingConnection { .. }, Event::Written(_)) => true,
            (Phase::AwaitingConnection { .. }, Event::ChunkRead(_)) => true,
            (Phase::Decoding { .. }, Event::Decoded(_)) => true,
            (Phase::GeneratingNonces { .. }, Event::NoncesGenerated(_)) => true,
            (Phase::CheckingKey { .. }, Event::KeyChecked(_)) => true,
            (Phase::Precomputing { .. }, Event::Precomputed(_)) => true,
            (Phase::Hashing { .. }, Event::Hashed(_)) => true,
            (Phase::Marking { .. }, Event::Marked(_)) => true,
            (Phase::SendingMetadata { .. }, Event::Written(_)) => true,
            (Phase::AwaitingMetadata { .. }, Event::MetadataRead(_)) => true,
            (Phase::Refusing { .. }, Event::Written(_)) => true,
            (Phase::Accepting { .. }, Event::Written(_)) => true,
            (Phase::AwaitingAck { .. }, Event::AckRead(_)) => true,
            _ => false,
        }
    }

    /// Takes the outcome of the last action, and says what to do next.
    pub fn step(self, event: Event) -> (r: (Handshake, Action))
        requires
            awaits(self.phase, event),
        ensures
            r.0 == next(self, event),
            r.1@ == reaction(self, event).1,
    {
        let Handshake { incoming, disable_mempool, private_node, info, phase } = self;
        let (phase, action) = match (phase, event) {
            (Phase::Preparing, Event::Prepared(prepared)) => match prepared {
                Ok(sent) => {
                    let raw = copied_bytes(&sent.raw);
                    (Phase::SendingConnection { sent }, Action::WriteChunk { raw })
                },
                Err(fault) => Self::fail(fault.into_error()),
            },
            (Phase::SendingConnection { sent }, Event::Written(written)) => match written {
                Timed::Elapsed(timeout) => Self::fail(PeerError::from(timeout)),
                Timed::Failed(error) => Self::fail(
                    plain_error(error, "Failed to transfer connection message"),
                ),
                Timed::Done(_) => (Phase::AwaitingConnection { sent }, Action::ReadChunk),
            },
            (Phase::AwaitingConnection { sent }, Event::ChunkRead(read)) => match read {
                Timed::Elapsed(timeout) => Self::fail(PeerError::from(timeout)),
                Timed::Failed(error) => Self::fail(
                    plain_error(error, "No response to connection message was received"),
                ),
                Timed::Done(received) => {
                    let content = copied_bytes(&received.content);
                    let ours = info.version.copied();
                    (Phase::Decoding { sent, received }, Action::Decode { content, ours })
                },
            },
            (Phase::Decoding { sent, received }, Event::Decoded(decoded)) => match decoded {
                Ok(introduction) => {
                    let seed = generate_nonces(&sent, &received, incoming);
                    (Phase::GeneratingNonces { introduction }, Action::GenerateNonces { seed })
                },
                Err(error) => Self::fail(PeerError::from(error)),
            },
            (Phase::GeneratingNonces { introduction }, Event::NoncesGenerated(nonces)) => (
                Phase::CheckingKey { versions: introduction.versions, nonces },
                Action::CheckKey { public_key: introduction.public_key },
            ),
            (Phase::CheckingKey { versions, nonces }, Event::KeyChecked(checked)) => {
                match checked {
                    Ok(peer_public_key) => {
                        let action = Action::Precompute {
                            peer_public_key: copied_bytes(&peer_public_key),
                            secret_key: copied_bytes(&info.identity.secret_key),
                        };
                        (Phase::Precomputing { versions, nonces, peer_public_key }, action)
                    },
                    Err(error) => Self::fail(PeerError::from(error)),
                }
            },
            (
                Phase::Precomputing { versions, nonces, peer_public_key },
                Event::Precomputed(precomputed_key),
            ) => {
                let action = Action::Hash { peer_public_key: copied_bytes(&peer_public_key) };
                (Phase::Hashing { versions, nonces, peer_public_key, precomputed_key }, action)
            },
            (
                Phase::Hashing { versions, nonces, peer_public_key, precomputed_key },
                Event::Hashed(peer_public_key_hash),
            ) => {
                let action = Action::Mark {
                    peer_public_key_hash: copied_bytes(&peer_public_key_hash),
                };
                let phase = Phase::Marking {
                    versions,
                    nonces,
                    peer_public_key,
                    precomputed_key,
                    peer_public_key_hash,
                };
                (phase, action)
            },
            (
                Phase::Marking {
                    versions,
                    nonces,
                    peer_public_key,
                    precomputed_key,
                    peer_public_key_hash,
                },
                Event::Marked(peer_id_marker),
            ) => {
                if same_bytes(&peer_public_key, &info.identity.public_key) {
                    // treat as if nack was received
                    Self::fail(Self::self_connection())
                } else {
                    let session = Session {
                        nonces,
                        peer_public_key,
                        precomputed_key,
                        peer_public_key_hash,
                        peer_id_marker,
                    };
                    let writer = session.writer();
                    let reader = session.reader();
                    let metadata = MetadataMessage::new(disable_mempool, private_node);
                    (
                        Phase::SendingMetadata { versions, session },
                        Action::WriteMetadata { writer, reader, metadata },
                    )
                }
            },
            (Phase::SendingMetadata { versions, session }, Event::Written(written)) => {
                match written {
                    Timed::Elapsed(timeout) => Self::fail(PeerError::from(timeout)),
                    Timed::Failed(error) => Self::fail(PeerError::from(error)),
                    Timed::Done(_) => (
                        Phase::AwaitingMetadata { versions, session },
                        Action::ReadMetadata,
                    ),
                }
            },
            (Phase::AwaitingMetadata { versions, session }, Event::MetadataRead(read)) => {
                match read {
                    Timed::Elapsed(timeout) => Self::fail(PeerError::from(timeout)),
                    Timed::Failed(error) => Self::fail(PeerError::from(error)),
                    Timed::Done(metadata) => {
                        if supports_any(&versions) {
                            (
                                Phase::Accepting { session, metadata },
                                Action::WriteAck { ack: AckMessage::Ack },
                            )
                        } else {
                            (
                                Phase::Refusing { versions },
                                Action::WriteAck { ack: AckMessage::NackV0 },
                            )
                        }
                    },
                }
            },
            (Phase::Refusing { versions }, Event::Written(written)) => match written {
                Timed::Elapsed(timeout) => Self::fail(PeerError::from(timeout)),
                Timed::Failed(error) => Self::fail(PeerError::from(error)),
                Timed::Done(_) => {
                    let error = PeerError::UnsupportedProtocol {
                        supported_version: info.version.report(),
                        incompatible_versions: offers_report(&versions),
                    };
                    Self::fail(error)
                },
            },
            (Phase::Accepting { session, metadata }, Event::Written(written)) => match written {
                Timed::Elapsed(timeout) => Self::fail(PeerError::from(timeout)),
                Timed::Failed(error) => Self::fail(PeerError::from(error)),
                Timed::Done(_) => (Phase::AwaitingAck { session, metadata }, Action::ReadAck),
            },
            (Phase::AwaitingAck { session, metadata }, Event::AckRead(read)) => match read {
                Timed::Elapsed(timeout) => Self::fail(PeerError::from(timeout)),
                Timed::Failed(error) => Self::fail(PeerError::from(error)),
                Timed::Done(ack) => match ack {
                    AckMessage::Ack => {
                        let output = session.output(metadata);
                        (Phase::Finished, Action::Finish { outcome: Ok(output) })
                    },
                    AckMessage::NackV0 => Self::fail(PeerError::NackReceived),
                    AckMessage::Nack(nack_info) => Self::fail(
                        PeerError::NackWithMotiveReceived { nack_info },
                    ),
                },
            },
            (phase, _) => {
                assert(false);
                (phase, Action::ReadChunk)
            },
        };
        (Handshake { incoming, disable_mempool, private_node, info, phase }, action)
    }

    /// Ends the handshake in an error.
    fn fail(error: PeerError) -> (r: (Phase, Action))
        ensures
            r.0 == Phase::Finished,
            r.1@ == (ActionView::Finish { outcome: Err(error@) }),
    {
        (Phase::Finished, Action::Finish { outcome: Err(error) })
    }

    /// The error of a node that has connected to itself.
    fn self_connection() -> (r: PeerError)
        ensures
            r@ == self_connection_error(),
    {
        let nobody: Vec<String> = Vec::new();
        let nack_info = NackInfo::new(NackMotive::AlreadyConnected, nobody.as_slice());
        assert(nack_info@.potential_peers_to_connect =~= Seq::<Seq<char>>::empty());
        PeerError::NackWithMotiveReceived { nack_info }
    }
}

} // verus!
