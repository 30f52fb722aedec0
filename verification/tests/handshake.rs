use std::sync::Arc;

use peer::address::SocketAddress;
use peer::bootstrap::{Bootstrap, IO_TIMEOUT_SECS};
use peer::error::{
    BinaryChunkError, BinaryReaderError, BinaryReaderErrorKind, CryptoFault, Elapsed, Fault, PeerError,
    SerializationFault, StreamError, StreamErrorKind, Timed,
};
use peer::handshake::{generate_nonces, Action, Event, Handshake, NoncePair, Outcome, Phase};
use peer::local::{Identity, Local};
use peer::messages::{
    AckMessage, BinaryChunk, Introduction, MetadataMessage, NackInfo, NackMotive, NetworkVersion,
    OfferedVersion,
};
use peer::replay::{bootstrap, Replies};

const ADDRESS: SocketAddress = SocketAddress::V4 { ipv4: 0x7f000001, port: 9732 };

fn version(p2p_version: u16) -> NetworkVersion {
    NetworkVersion { chain_name: "CHAIN".to_string(), distributed_db_version: 0, p2p_version }
}

fn local() -> Arc<Local> {
    let identity = Identity {
        public_key: vec![1, 1, 1],
        secret_key: vec![2, 2, 2],
        proof_of_work_stamp: vec![3, 3, 3],
    };
    Arc::new(Local::new(9732, Arc::new(identity), Arc::new(version(1))))
}

fn sent() -> BinaryChunk {
    BinaryChunk { raw: vec![0, 2, 10, 11], content: vec![10, 11] }
}

fn received() -> BinaryChunk {
    BinaryChunk { raw: vec![0, 1, 20], content: vec![20] }
}

fn introduction(supported: &[bool]) -> Introduction {
    Introduction {
        public_key: vec![7, 7, 7],
        versions: supported
            .iter()
            .enumerate()
            .map(|(i, s)| OfferedVersion { version: version(i as u16), supported: *s })
            .collect(),
    }
}

fn nonces() -> NoncePair {
    NoncePair { local: vec![30], remote: vec![40] }
}

fn replies() -> Replies {
    Replies {
        prepared: Ok(sent()),
        connection_written: Timed::Done(()),
        connection_read: Timed::Done(received()),
        decoded: Ok(introduction(&[false, true])),
        nonces: nonces(),
        key_checked: Ok(vec![7, 7, 7]),
        precomputed: vec![50, 51],
        hashed: vec![60, 61],
        marked: "idMarker".to_string(),
        metadata_written: Timed::Done(()),
        metadata_read: Timed::Done(MetadataMessage::new(true, false)),
        ack_written: Timed::Done(()),
        ack_read: Timed::Done(AckMessage::Ack),
    }
}

fn elapsed<T>() -> Timed<T> {
    Timed::Elapsed(Elapsed { reason: "deadline has elapsed".to_string() })
}

fn broken<T>() -> Timed<T> {
    Timed::Failed(StreamError { kind: StreamErrorKind::Other, reason: "broken".to_string() })
}

fn run_all(replies: Replies) -> (Vec<Action>, Outcome) {
    let mut msg = Bootstrap::outgoing("stream", ADDRESS, false, true);
    let (stream, actions, outcome) = bootstrap(&mut msg, local(), vec![9], replies);
    assert_eq!(stream, "stream");
    assert_eq!(msg.stream, None);
    assert_eq!(msg.address, ADDRESS);
    (actions, outcome)
}

fn run(replies: Replies) -> Outcome {
    run_all(replies).1
}

fn failure(replies: Replies) -> String {
    match run(replies) {
        Ok(_) => panic!("the handshake should fail"),
        Err(error) => error.report(),
    }
}

#[test]
fn commands_hold_what_they_are_given() {
    let msg = Bootstrap::outgoing(5u8, ADDRESS, true, false);
    assert_eq!(msg.stream, Some(5));
    assert_eq!(msg.address, ADDRESS);
    assert!(!msg.incoming && msg.disable_mempool && !msg.private_node);
    let msg = Bootstrap::incoming(Some(6u8), ADDRESS, false, true);
    assert_eq!(msg.stream, Some(6));
    assert!(msg.incoming && !msg.disable_mempool && msg.private_node);
    let msg: Bootstrap<u8> = Bootstrap::incoming(None, ADDRESS, false, true);
    assert_eq!(msg.stream, None);
}

#[test]
fn a_stream_is_taken_once() {
    let mut msg = Bootstrap::outgoing(5u8, ADDRESS, true, false);
    assert_eq!(msg.take_stream(), Some(5));
    assert_eq!(msg.take_stream(), None);
    assert_eq!(msg.take_stream(), None);
    assert_eq!(msg.address, ADDRESS);
}

#[test]
fn nonces_are_seeded_with_raw_messages() {
    let seed = generate_nonces(&sent(), &received(), true);
    assert_eq!(seed.sent, vec![0, 2, 10, 11]);
    assert_eq!(seed.received, vec![0, 1, 20]);
    assert!(seed.incoming);
}

#[test]
fn a_handshake_succeeds() {
    let output = run(replies()).expect("success");
    assert_eq!(output.0.precomputed_key, vec![50, 51]);
    assert_eq!(output.0.nonce, vec![40]);
    assert_eq!(output.1.precomputed_key, vec![50, 51]);
    assert_eq!(output.1.nonce, vec![30]);
    assert_eq!(output.2, vec![60, 61]);
    assert_eq!(output.3, "idMarker");
    assert_eq!(output.4, MetadataMessage { disable_mempool: true, private_node: false });
}

#[test]
fn every_step_asks_for_the_next_one() {
    let mut msg = Bootstrap::incoming(Some(()), ADDRESS, true, false);
    let (_, handshake, action) = Handshake::start(&mut msg, local(), vec![9, 9]);
    assert_eq!(msg.stream, None);
    assert_eq!(action.deadline_secs(), None);
    match action {
        Action::Prepare { message } => {
            assert_eq!(message.port, 9732);
            assert_eq!(message.public_key, vec![1, 1, 1]);
            assert_eq!(message.proof_of_work_stamp, vec![3, 3, 3]);
            assert_eq!(message.message_nonce, vec![9, 9]);
            assert_eq!(message.versions.len(), 1);
            assert_eq!(message.versions[0].p2p_version, 1);
        }
        other => panic!("{:?}", other),
    }
    let event = Event::Prepared(Ok(sent()));
    assert!(handshake.accepts(&event));
    assert!(!handshake.accepts(&Event::Written(Timed::Done(()))));
    let (handshake, action) = handshake.step(event);
    assert_eq!(action.deadline_secs(), Some(IO_TIMEOUT_SECS));
    assert!(matches!(action, Action::WriteChunk { raw } if raw == vec![0, 2, 10, 11]));
    let (handshake, action) = handshake.step(Event::Written(Timed::Done(())));
    assert_eq!(action.deadline_secs(), Some(6));
    assert!(matches!(action, Action::ReadChunk));
    let (handshake, action) = handshake.step(Event::ChunkRead(Timed::Done(received())));
    assert_eq!(action.deadline_secs(), None);
    match action {
        Action::Decode { content, ours } => {
            assert_eq!(content, vec![20]);
            assert_eq!(ours.chain_name, "CHAIN");
            assert_eq!(ours.p2p_version, 1);
        }
        other => panic!("{:?}", other),
    }
    let (handshake, action) = handshake.step(Event::Decoded(Ok(introduction(&[true]))));
    assert_eq!(action.deadline_secs(), None);
    match action {
        Action::GenerateNonces { seed } => {
            assert_eq!(seed.sent, vec![0, 2, 10, 11]);
            assert_eq!(seed.received, vec![0, 1, 20]);
            assert!(seed.incoming);
        }
        other => panic!("{:?}", other),
    }
    let (handshake, action) = handshake.step(Event::NoncesGenerated(nonces()));
    assert_eq!(action.deadline_secs(), None);
    assert!(matches!(action, Action::CheckKey { public_key } if public_key == vec![7, 7, 7]));
    let (handshake, action) = handshake.step(Event::KeyChecked(Ok(vec![8, 8])));
    assert_eq!(action.deadline_secs(), None);
    match action {
        Action::Precompute { peer_public_key, secret_key } => {
            assert_eq!(peer_public_key, vec![8, 8]);
            assert_eq!(secret_key, vec![2, 2, 2]);
        }
        other => panic!("{:?}", other),
    }
    let (handshake, action) = handshake.step(Event::Precomputed(vec![50]));
    assert!(matches!(action, Action::Hash { peer_public_key } if peer_public_key == vec![8, 8]));
    let (handshake, action) = handshake.step(Event::Hashed(vec![60]));
    assert!(matches!(action, Action::Mark { peer_public_key_hash } if peer_public_key_hash == vec![60]));
    let (handshake, action) = handshake.step(Event::Marked("id".to_string()));
    assert_eq!(action.deadline_secs(), Some(6));
    match action {
        Action::WriteMetadata { writer, reader, metadata } => {
            assert_eq!(writer.nonce, vec![30]);
            assert_eq!(reader.nonce, vec![40]);
            assert_eq!(metadata, MetadataMessage::new(true, false));
        }
        other => panic!("{:?}", other),
    }
    let (handshake, action) = handshake.step(Event::Written(Timed::Done(())));
    assert_eq!(action.deadline_secs(), Some(6));
    assert!(matches!(action, Action::ReadMetadata));
    let metadata = MetadataMessage::new(false, false);
    let (handshake, action) = handshake.step(Event::MetadataRead(Timed::Done(metadata)));
    assert_eq!(action.deadline_secs(), Some(6));
    assert!(matches!(action, Action::WriteAck { ack: AckMessage::Ack }));
    let (handshake, action) = handshake.step(Event::Written(Timed::Done(())));
    assert_eq!(action.deadline_secs(), Some(6));
    assert!(matches!(action, Action::ReadAck));
    let (handshake, action) = handshake.step(Event::AckRead(Timed::Done(AckMessage::Ack)));
    assert_eq!(action.deadline_secs(), None);
    assert!(matches!(action, Action::Finish { outcome: Ok(_) }));
    assert!(matches!(handshake.phase, Phase::Finished));
    assert!(!handshake.accepts(&Event::AckRead(Timed::Done(AckMessage::Ack))));
}

#[test]
fn an_unsupported_peer_is_refused_before_the_error() {
    let mut r = replies();
    r.decoded = Ok(introduction(&[false, false]));
    let (actions, outcome) = run_all(r);
    assert!(matches!(actions.last(), Some(Action::WriteAck { ack: AckMessage::NackV0 })));
    match outcome {
        Err(PeerError::UnsupportedProtocol { supported_version, incompatible_versions }) => {
            assert_eq!(supported_version, format!("{:?}", version(1)));
            assert_eq!(incompatible_versions, format!("{:?}", vec![version(0), version(1)]));
        }
        other => panic!("{:?}", other),
    }
}

#[test]
fn a_whole_handshake_tells_what_it_asked_for() {
    let (actions, _) = run_all(replies());
    assert_eq!(actions.len(), 13);
    assert!(matches!(&actions[0], Action::Prepare { message } if message.message_nonce == vec![9]));
    assert!(matches!(&actions[1], Action::WriteChunk { raw } if *raw == vec![0, 2, 10, 11]));
    assert!(matches!(&actions[4], Action::GenerateNonces { seed } if !seed.incoming));
    assert!(matches!(
        &actions[9],
        Action::WriteMetadata { metadata, .. } if *metadata == MetadataMessage::new(false, true)
    ));
    assert!(matches!(&actions[11], Action::WriteAck { ack: AckMessage::Ack }));
    assert!(matches!(&actions[12], Action::ReadAck));
}

#[test]
fn a_self_connection_is_a_refusal() {
    let mut r = replies();
    r.key_checked = Ok(vec![1, 1, 1]);
    let (actions, outcome) = run_all(r);
    assert_eq!(actions.len(), 9);
    assert!(actions
        .iter()
        .all(|a| !matches!(a, Action::WriteMetadata { .. } | Action::WriteAck { .. })));
    match outcome {
        Err(PeerError::NackWithMotiveReceived { nack_info }) => {
            assert_eq!(nack_info.motive, NackMotive::AlreadyConnected);
            assert!(nack_info.potential_peers_to_connect.is_empty());
        }
        other => panic!("{:?}", other),
    }
    let mut longer = replies();
    longer.key_checked = Ok(vec![1, 1, 1, 1]);
    assert!(run(longer).is_ok());
}

#[test]
fn failures_before_encryption() {
    let mut r = replies();
    r.prepared = Err(Fault::Serialization(SerializationFault { reason: "too long".to_string() }));
    assert_eq!(failure(r), "Message serialization error, reason: too long");
    let mut r = replies();
    r.prepared = Err(Fault::BinaryChunk(BinaryChunkError { reason: "overflow".to_string() }));
    assert_eq!(failure(r), "Network error: Binary chunk error, reason: overflow");
    let mut r = replies();
    r.connection_written = elapsed();
    assert_eq!(failure(r), "Network error: Connection timeout, reason: deadline has elapsed");
    let mut r = replies();
    r.connection_written = broken();
    assert_eq!(
        failure(r),
        "Network error: Failed to transfer connection message, reason: broken"
    );
    let mut r = replies();
    r.connection_read = elapsed();
    assert_eq!(failure(r), "Network error: Connection timeout, reason: deadline has elapsed");
    let mut r = replies();
    r.connection_read = broken();
    assert_eq!(
        failure(r),
        "Network error: No response to connection message was received, reason: broken"
    );
    let mut r = replies();
    r.decoded = Err(BinaryReaderError {
        kind: BinaryReaderErrorKind::Other,
        reason: "underflow".to_string(),
    });
    assert_eq!(failure(r), "Message deserialization error, reason: underflow");
    let mut r = replies();
    r.key_checked = Err(CryptoFault { reason: "bad key".to_string() });
    assert_eq!(failure(r), "Crypto error, reason: bad key");
}

#[test]
fn failures_after_encryption() {
    for step in 0..4 {
        let mut slow = replies();
        let mut bad = replies();
        match step {
            0 => {
                slow.metadata_written = elapsed();
                bad.metadata_written = broken();
            }
            1 => {
                slow.metadata_read = elapsed();
                bad.metadata_read = broken();
            }
            2 => {
                slow.ack_written = elapsed();
                bad.ack_written = broken();
            }
            _ => {
                slow.ack_read = elapsed();
                bad.ack_read = broken();
            }
        }
        assert_eq!(
            failure(slow),
            "Network error: Connection timeout, reason: deadline has elapsed"
        );
        assert_eq!(failure(bad), "Network error: Stream error, reason: broken");
    }
}

#[test]
fn a_refusal_that_cannot_be_sent_is_a_network_error() {
    let mut r = replies();
    r.decoded = Ok(introduction(&[false]));
    r.ack_written = broken();
    assert_eq!(failure(r), "Network error: Stream error, reason: broken");
    let mut r = replies();
    r.decoded = Ok(introduction(&[]));
    assert_eq!(
        failure(r),
        format!("Unsupported protocol - supported_version: {:?} vs. []", version(1))
    );
}

#[test]
fn refusals_of_the_remote_peer() {
    let mut r = replies();
    r.ack_read = Timed::Done(AckMessage::NackV0);
    assert!(matches!(run(r), Err(PeerError::NackReceived)));
    let mut r = replies();
    let others = vec!["10.0.0.1:9732".to_string()];
    r.ack_read = Timed::Done(AckMessage::Nack(NackInfo::new(
        NackMotive::TooManyConnections,
        &others,
    )));
    match run(r) {
        Err(PeerError::NackWithMotiveReceived { nack_info }) => {
            assert_eq!(nack_info.motive, NackMotive::TooManyConnections);
            assert_eq!(nack_info.potential_peers_to_connect, others);
        }
        other => panic!("{:?}", other),
    }
}

#[test]
fn the_first_failure_counts() {
    let mut r = replies();
    r.connection_read = broken();
    r.key_checked = Err(CryptoFault { reason: "bad key".to_string() });
    r.ack_read = Timed::Done(AckMessage::NackV0);
    assert_eq!(
        failure(r),
        "Network error: No response to connection message was received, reason: broken"
    );
}

#[test]
fn two_sides_seed_their_nonces_alike() {
    let ours = generate_nonces(&sent(), &received(), false);
    let theirs = generate_nonces(&received(), &sent(), true);
    assert_eq!(ours.sent, theirs.received);
    assert_eq!(ours.received, theirs.sent);
    assert_ne!(ours.incoming, theirs.incoming);
}

#[test]
fn each_end_reads_with_the_nonce_that_the_other_writes_with() {
    let mut ours = replies();
    ours.prepared = Ok(sent());
    ours.connection_read = Timed::Done(received());
    ours.nonces = NoncePair { local: vec![30], remote: vec![40] };
    let mut theirs = replies();
    theirs.prepared = Ok(received());
    theirs.connection_read = Timed::Done(sent());
    theirs.nonces = NoncePair { local: vec![40], remote: vec![30] };
    let mut outgoing = Bootstrap::outgoing((), ADDRESS, false, true);
    let mut incoming = Bootstrap::incoming(Some(()), ADDRESS, false, true);
    let (_, our_actions, _) = bootstrap(&mut outgoing, local(), vec![9], ours);
    let (_, their_actions, _) = bootstrap(&mut incoming, local(), vec![8], theirs);
    match (&our_actions[4], &their_actions[4]) {
        (Action::GenerateNonces { seed: a }, Action::GenerateNonces { seed: b }) => {
            assert_eq!(a.sent, b.received);
            assert_eq!(a.received, b.sent);
            assert!(!a.incoming && b.incoming);
        }
        other => panic!("{:?}", other),
    }
    match (&our_actions[9], &their_actions[9]) {
        (
            Action::WriteMetadata { writer: our_writer, reader: our_reader, .. },
            Action::WriteMetadata { writer: their_writer, reader: their_reader, .. },
        ) => {
            assert_eq!(our_writer.nonce, vec![30]);
            assert_eq!(our_writer.nonce, their_reader.nonce);
            assert_eq!(our_reader.nonce, vec![40]);
            assert_eq!(our_reader.nonce, their_writer.nonce);
        }
        other => panic!("{:?}", other),
    }
}
