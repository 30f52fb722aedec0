use std::collections::VecDeque;
use std::sync::Arc;

use peer::address::SocketAddress;
use peer::bootstrap::{Bootstrap, BootstrapOutput, IO_TIMEOUT_SECS, READ_TIMEOUT_LONG_SECS};
use peer::channel::{NetworkChannelMsg, NetworkChannelTopic, PeerRef, Publish};
use peer::error::{
    BinaryReaderError, BinaryReaderErrorKind, Elapsed, PeerError, StreamError, StreamErrorKind,
    Timed,
};
use peer::incoming::{
    begin_process_incoming, IncomingLoop, ReadAction, ReadEvent, ReadPhase, Round, Transcript,
};
use peer::local::{Identity, Local};
use peer::messages::{MetadataMessage, NackInfo, NackMotive, NetworkVersion};
use peer::peer::{bootstrapped, ActorIds, Network, Peer, PeerMsg, PeerTask, TaskAction};
use peer::sending::{SendAction, SendEvent, SendMessage, SendTask};

const ADDRESS: SocketAddress = SocketAddress::V4 { ipv4: 0x0a000001, port: 9732 };
const OTHER: SocketAddress = SocketAddress::V6 { ipv6: 1, port: 1, flowinfo: 2, scope_id: 3 };

fn myself() -> PeerRef {
    PeerRef { name: "peer-3".to_string() }
}

fn elapsed<T>() -> Timed<T> {
    Timed::Elapsed(Elapsed { reason: "late".to_string() })
}

fn failed<T>(kind: StreamErrorKind) -> Timed<T> {
    Timed::Failed(StreamError { kind, reason: "bad".to_string() })
}

fn undecodable(kind: BinaryReaderErrorKind) -> StreamErrorKind {
    let error = BinaryReaderError { kind, reason: "bad".to_string() };
    StreamErrorKind::DeserializationError { error }
}

fn unknown_tag() -> StreamErrorKind {
    undecodable(BinaryReaderErrorKind::UnsupportedTag { tag: 0x31 })
}

fn round(read: Timed<u32>, still_running: bool) -> Round<u32> {
    Round { read, still_running }
}

fn received(publish: &Publish<u32>) -> u32 {
    assert_eq!(publish.topic, NetworkChannelTopic::NetworkEvents);
    assert_eq!(publish.sender.name, "peer-3");
    match &publish.msg {
        NetworkChannelMsg::PeerMessageReceived { peer, message } => {
            assert_eq!(peer.name, "peer-3");
            **message
        }
        other => panic!("{:?}", other),
    }
}

fn reads(rounds: Vec<Round<u32>>) -> usize {
    let t: Transcript<u32, ()> =
        begin_process_incoming(myself(), rounds.into_iter().collect(), None);
    t.reads
}

fn read_all(rounds: Vec<Round<u32>>) -> Vec<u32> {
    let rounds: VecDeque<Round<u32>> = rounds.into_iter().collect();
    let t: Transcript<u32, &str> = begin_process_incoming(myself(), rounds, Some("writer"));
    assert_eq!(t.shutdown, Some("writer"));
    t.published.iter().map(received).collect()
}

#[test]
fn messages_are_passed_on_in_order() {
    let rounds = vec![
        round(Timed::Done(1), true),
        round(Timed::Done(2), true),
        round(Timed::Done(3), true),
    ];
    assert_eq!(read_all(rounds), vec![1, 2, 3]);
    assert_eq!(read_all(vec![]), Vec::<u32>::new());
}

#[test]
fn a_message_is_dropped_when_the_flag_goes_down() {
    let rounds = vec![round(Timed::Done(1), true), round(Timed::Done(2), false)];
    assert_eq!(read_all(rounds), vec![1]);
}

#[test]
fn unsupported_tags_are_skipped() {
    let rounds = vec![
        round(Timed::Done(1), true),
        round(failed(unknown_tag()), true),
        round(Timed::Done(2), true),
    ];
    assert_eq!(read_all(rounds), vec![1, 2]);
    let rounds = vec![
        round(Timed::Done(1), true),
        round(failed(unknown_tag()), true),
        round(failed(unknown_tag()), true),
        round(failed(unknown_tag()), true),
        round(Timed::Done(2), true),
    ];
    assert_eq!(read_all(rounds), vec![1, 2]);
}

#[test]
fn only_an_unknown_tag_has_a_tag() {
    let tag = |kind| StreamError { kind, reason: "bad".to_string() }.unsupported_tag();
    assert_eq!(tag(unknown_tag()), Some(0x31));
    assert_eq!(tag(undecodable(BinaryReaderErrorKind::Other)), None);
    assert_eq!(tag(StreamErrorKind::Other), None);
}

#[test]
fn a_failed_or_late_read_ends_the_loop() {
    let rounds = vec![
        round(Timed::Done(1), true),
        round(failed(StreamErrorKind::Other), true),
        round(Timed::Done(2), true),
    ];
    assert_eq!(read_all(rounds), vec![1]);
    let rounds = vec![
        round(Timed::Done(1), true),
        round(failed(undecodable(BinaryReaderErrorKind::Other)), true),
        round(Timed::Done(2), true),
    ];
    assert_eq!(read_all(rounds), vec![1]);
    let rounds = vec![round(elapsed(), true), round(Timed::Done(2), true)];
    assert_eq!(read_all(rounds), Vec::<u32>::new());
}

#[test]
fn one_read_for_each_round_until_the_end() {
    assert_eq!(reads(vec![]), 0);
    assert_eq!(reads(vec![round(Timed::Done(1), true), round(Timed::Done(2), false)]), 2);
    let rounds = vec![
        round(failed(unknown_tag()), true),
        round(elapsed(), true),
        round(Timed::Done(2), true),
    ];
    assert_eq!(reads(rounds), 2);
}

#[test]
fn nothing_is_shut_down_without_a_writer() {
    let t: Transcript<u32, ()> = begin_process_incoming(myself(), VecDeque::new(), None);
    assert!(t.published.is_empty());
    assert_eq!(t.shutdown, None);
}

#[test]
fn the_loop_step_by_step() {
    type Step = (IncomingLoop<u32>, ReadAction<u32, &'static str>);
    let (state, action): Step = IncomingLoop::start(myself());
    assert!(matches!(action, ReadAction::CheckRunning));
    assert_eq!(action.deadline_secs(), None);
    let event: ReadEvent<u32, &'static str> = ReadEvent::Running(true);
    assert!(state.accepts(&event));
    assert!(!state.accepts::<&'static str>(&ReadEvent::Read(Timed::Done(1))));
    let (state, action): Step = state.step(event);
    assert!(matches!(action, ReadAction::Read));
    assert_eq!(action.deadline_secs(), Some(120));
    let (state, action): Step = state.step(ReadEvent::Read(Timed::Done(5)));
    assert!(matches!(action, ReadAction::CheckRunning));
    let (state, action): Step = state.step(ReadEvent::Running(true));
    assert!(matches!(&action, ReadAction::Publish(p) if received(p) == 5));
    let (state, action): Step = state.step(ReadEvent::Running(false));
    assert!(matches!(action, ReadAction::TakeWriter));
    let (state, action): Step = state.step(ReadEvent::WriterTaken(Some("w")));
    assert!(matches!(action, ReadAction::Shutdown { writer: "w" }));
    assert!(matches!(state.phase, ReadPhase::Stopped));
    assert!(!state.accepts::<&'static str>(&ReadEvent::Running(true)));
}

#[test]
fn no_message_passes_once_the_flag_is_down() {
    type Step = (IncomingLoop<u32>, ReadAction<u32, ()>);
    let (state, _): Step = IncomingLoop::start(myself());
    let (state, _): Step = state.step(ReadEvent::Running(true));
    let (state, _): Step = state.step(ReadEvent::Read(Timed::Done(8)));
    let (state, action): Step = state.step(ReadEvent::Running(false));
    assert!(matches!(action, ReadAction::CheckRunning));
    let (state, action): Step = state.step(ReadEvent::Running(false));
    assert!(matches!(action, ReadAction::TakeWriter));
    let (_, action): Step = state.step(ReadEvent::WriterTaken(None));
    assert!(matches!(action, ReadAction::Finish));
}

#[test]
fn deadlines() {
    assert_eq!(IO_TIMEOUT_SECS, 6);
    // longer than the ping of idle peers
    assert!(READ_TIMEOUT_LONG_SECS > 90);
}

#[test]
fn a_message_is_written() {
    type Step = (SendTask<u32>, SendAction<u32, &'static str>);
    let (task, action): Step = SendTask::start(SendMessage::new(Arc::new(7u32)));
    assert!(matches!(action, SendAction::LockWriter));
    assert_eq!(action.deadline_secs(), None);
    assert!(task.accepts(&SendEvent::WriterLocked(Some("w"))));
    assert!(!task.accepts::<&'static str>(&SendEvent::Written(Timed::Done(()))));
    let (task, action): Step = task.step(SendEvent::WriterLocked(Some("w")));
    assert_eq!(action.deadline_secs(), Some(6));
    assert!(matches!(action, SendAction::Write { message, writer: "w" } if *message == 7));
    let (_, action): Step = task.step(SendEvent::Written(Timed::Done(())));
    assert!(matches!(action, SendAction::Finish));
}

#[test]
fn a_failed_write_stops_the_peer() {
    type Step = (SendTask<u32>, SendAction<u32, ()>);
    for written in vec![elapsed(), failed(StreamErrorKind::Other), failed(unknown_tag())] {
        let (task, _): Step = SendTask::start(SendMessage::new(Arc::new(7u32)));
        let (task, _): Step = task.step(SendEvent::WriterLocked(Some(())));
        let (_, action): Step = task.step(SendEvent::Written(written));
        assert!(matches!(action, SendAction::StopPeer));
    }
}

#[test]
fn a_message_without_a_writer_is_dropped() {
    type Step = (SendTask<u32>, SendAction<u32, &'static str>);
    let peer = new_peer();
    let (task, _): Step = SendTask::start(SendMessage::new(Arc::new(7u32)));
    let (_, action): Step = task.step(SendEvent::WriterLocked(peer.net.tx));
    assert!(matches!(action, SendAction::Finish));
}

#[test]
fn a_message_after_the_writer_is_taken_is_dropped() {
    type Step = (SendTask<u32>, SendAction<u32, &'static str>);
    let mut peer = new_peer();
    peer.net.setup_net("writer");
    assert_eq!(peer.net.take_writer(), Some("writer"));
    let (task, _): Step = SendTask::start(SendMessage::new(Arc::new(7u32)));
    let (_, action): Step = task.step(SendEvent::WriterLocked(peer.net.tx));
    assert!(matches!(action, SendAction::Finish));
}

#[test]
fn two_tasks_write_one_after_the_other() {
    type Step = (SendTask<u32>, SendAction<u32, &'static str>);
    let (first, _): Step = SendTask::start(SendMessage::new(Arc::new(7u32)));
    let (second, _): Step = SendTask::start(SendMessage::new(Arc::new(8u32)));
    let (first, action): Step = first.step(SendEvent::WriterLocked(Some("w")));
    let writer = match action {
        SendAction::Write { message, writer } => {
            assert_eq!(*message, 7);
            writer
        }
        other => panic!("{:?}", other),
    };
    assert!(!second.accepts::<&'static str>(&SendEvent::Written(Timed::Done(()))));
    let (_, action): Step = first.step(SendEvent::Written(Timed::Done(())));
    assert!(matches!(action, SendAction::Finish));
    let (_, action): Step = second.step(SendEvent::WriterLocked(Some(writer)));
    assert!(matches!(action, SendAction::Write { message, writer: "w" } if *message == 8));
}

#[test]
fn a_message_goes_to_the_writer_of_the_handshake() {
    type Step = (SendTask<u32>, SendAction<u32, &'static str>);
    let mut peer = new_peer();
    let metadata = MetadataMessage::new(false, true);
    let output = BootstrapOutput("reader", "writer", vec![4, 5], "idX".to_string(), metadata);
    let todo: Vec<TaskAction<_, _, u32>> = bootstrapped(&myself(), ADDRESS, Ok(output));
    for action in todo {
        if let TaskAction::SetupNet { tx } = action {
            peer.net.setup_net(tx);
        }
    }
    peer.post_stop();
    let (task, _): Step = SendTask::start(SendMessage::new(Arc::new(7u32)));
    let (_, action): Step = task.step(SendEvent::WriterLocked(peer.net.tx));
    assert!(matches!(action, SendAction::Write { writer: "writer", .. }));
}

fn new_peer() -> Peer<&'static str> {
    let identity = Identity { public_key: vec![1], secret_key: vec![2], proof_of_work_stamp: vec![3] };
    let version = NetworkVersion {
        chain_name: "CHAIN".to_string(),
        distributed_db_version: 0,
        p2p_version: 1,
    };
    let mut ids = ActorIds { next: 41 };
    let props = Peer::<&'static str>::actor(
        &mut ids,
        9732,
        Arc::new(identity),
        Arc::new(version),
        &ADDRESS,
    );
    assert_eq!(ids.next, 42);
    assert_eq!(props.name, "peer-41");
    assert_eq!(props.info.listener_port, 9732);
    assert_eq!(props.info.identity.public_key, vec![1]);
    assert_eq!(props.info.version.p2p_version, 1);
    assert_eq!(props.socket_address, ADDRESS);
    Peer::create_args(props.info, props.socket_address)
}

#[test]
fn a_new_actor_is_not_connected() {
    let peer = new_peer();
    assert!(!peer.net.rx_run);
    assert_eq!(peer.net.tx, None);
    assert_eq!(peer.net.socket_address, ADDRESS);
    assert_eq!(peer.remote_addr, SocketAddress::V4 { ipv4: 0, port: 0 });
}

#[test]
fn actor_names_tell_actors_apart() {
    let name = |ids: &mut ActorIds| {
        let local = Local::new(
            1,
            Arc::new(Identity { public_key: vec![], secret_key: vec![], proof_of_work_stamp: vec![] }),
            Arc::new(NetworkVersion { chain_name: String::new(), distributed_db_version: 0, p2p_version: 0 }),
        );
        Peer::<()>::actor(ids, 1, local.identity, local.version, &ADDRESS).name
    };
    let mut ids = ActorIds { next: 0 };
    for i in 0..25 {
        assert_eq!(name(&mut ids), format!("peer-{}", i));
    }
    let mut last = ActorIds { next: u64::MAX };
    assert_eq!(name(&mut last), "peer-18446744073709551615");
    assert_eq!(last.fetch(), 0);
    assert_eq!(last.fetch(), 1);
}

#[test]
fn a_connection_opens_and_closes() {
    let mut peer = new_peer();
    peer.net.setup_net("writer");
    assert!(peer.net.rx_run);
    assert_eq!(peer.net.tx, Some("writer"));
    peer.post_stop();
    assert!(!peer.net.rx_run);
    assert_eq!(peer.net.tx, Some("writer"));
    assert_eq!(peer.net.take_writer(), Some("writer"));
    assert_eq!(peer.net.take_writer(), None);
    let mut net = Network { rx_run: false, tx: Some(1), socket_address: OTHER };
    net.setup_net(2);
    assert_eq!(net.tx, Some(2));
    assert_eq!(net.socket_address, OTHER);
}

#[test]
fn an_actor_hands_out_tasks() {
    let mut peer = new_peer();
    let msg: PeerMsg<u8, u32> = Bootstrap::outgoing(9, OTHER, true, true).into();
    match peer.recv(msg) {
        PeerTask::Bootstrap { msg, info } => {
            assert_eq!(msg.stream, Some(9));
            assert_eq!(info.listener_port, 9732);
        }
        other => panic!("{:?}", other),
    }
    assert_eq!(peer.remote_addr, OTHER);
    let msg: PeerMsg<u8, u32> = SendMessage::new(Arc::new(3)).into();
    match peer.recv(msg) {
        PeerTask::SendMessage(msg) => assert_eq!(*msg.message, 3),
        other => panic!("{:?}", other),
    }
    assert_eq!(peer.remote_addr, OTHER);
    assert!(!peer.net.rx_run);
}

#[test]
fn after_a_successful_handshake() {
    let metadata = MetadataMessage::new(false, true);
    let output = BootstrapOutput("reader", "writer", vec![4, 5], "idX".to_string(), metadata);
    let todo: Vec<TaskAction<_, _, u32>> = bootstrapped(&myself(), ADDRESS, Ok(output));
    assert_eq!(todo.len(), 4);
    assert!(matches!(todo[0], TaskAction::SetupNet { tx: "writer" }));
    match &todo[1] {
        TaskAction::Publish(Publish { msg: NetworkChannelMsg::PeerBootstrapped(id, m), topic, sender }) => {
            assert_eq!(sender.name, "peer-3");
            assert_eq!(*topic, NetworkChannelTopic::NetworkEvents);
            assert_eq!(id.peer_ref.name, "peer-3");
            assert_eq!(id.peer_public_key_hash, vec![4, 5]);
            assert_eq!(id.peer_id_marker, "idX");
            assert_eq!(id.peer_address, ADDRESS);
            assert_eq!(**m, metadata);
        }
        other => panic!("{:?}", other),
    }
    assert!(matches!(todo[2], TaskAction::ProcessIncoming { rx: "reader" }));
    assert!(matches!(todo[3], TaskAction::StopPeer));
}

fn told_after(error: PeerError) -> Option<Vec<String>> {
    let result: Result<BootstrapOutput<(), ()>, PeerError> = Err(error);
    let mut todo: Vec<TaskAction<(), (), u32>> = bootstrapped(&myself(), OTHER, result);
    assert_eq!(todo.len(), 2);
    assert!(matches!(todo[1], TaskAction::StopPeer));
    match todo.remove(0) {
        TaskAction::Publish(Publish {
            msg: NetworkChannelMsg::ProcessFailedBootstrapAddress(failed),
            topic,
            sender,
        }) => {
            assert_eq!(sender.name, "peer-3");
            assert_eq!(topic, NetworkChannelTopic::NetworkCommands);
            assert_eq!(failed.address, OTHER);
            failed.potential_peers_to_connect
        }
        other => panic!("{:?}", other),
    }
}

#[test]
fn after_a_failed_handshake() {
    assert_eq!(told_after(PeerError::NackReceived), None);
    assert_eq!(told_after(PeerError::CryptoError { error: "e".to_string() }), None);
    let peers = vec!["1.1.1.1:1".to_string(), "2.2.2.2:2".to_string()];
    let nack_info = NackInfo::new(NackMotive::TooManyConnections, &peers);
    assert_eq!(told_after(PeerError::NackWithMotiveReceived { nack_info }), Some(peers));
    let nack_info = NackInfo::new(NackMotive::AlreadyConnected, &[]);
    assert_eq!(told_after(PeerError::NackWithMotiveReceived { nack_info }), Some(vec![]));
}
