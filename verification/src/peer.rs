//! The actor of a peer.

use std::sync::Arc;

use vstd::prelude::*;

use crate::address::SocketAddress;
use crate::bootstrap::{Bootstrap, BootstrapOutput};
use crate::channel::{
    NetworkChannelMsg, NetworkChannelTopic, PeerBootstrapFailed, PeerId, PeerRef, Publish,
};
use crate::error::PeerError;
use crate::local::{Identity, Local};
use crate::messages::NetworkVersion;
use crate::sending::SendMessage;
use crate::text::{decimal, decimal_text};

verus! {

/// The two ends of a connection.
#[derive(Debug)]
pub struct Network<W> {
    /// Message receiver boolean indicating whether
    /// more messages should be received from network
    pub rx_run: bool,
    /// Message sender
    pub tx: Option<W>,
    /// Socket address of the peer
    pub socket_address: SocketAddress,
}

/// A connection with both ends open, and `tx` to write to.
pub open spec fn opened<W>(net: Network<W>, tx: W) -> Network<W> {
    Network { rx_run: true, tx: Some(tx), socket_address: net.socket_address }
}

/// A connection that nobody can write to.
pub open spec fn without_writer<W>(net: Network<W>) -> Network<W> {
    Network { tx: None, ..net }
}

impl<W> Network<W> {
    /// Opens both ends: messages may be received, and `tx` may be written to.
    pub fn setup_net(&mut self, tx: W)
        ensures
            *final(self) == opened(*old(self), tx),
    {
        self.rx_run = true;
        self.tx = Some(tx);
    }

    /// Takes the writer, if there is one, so that nobody writes any more.
    pub fn take_writer(&mut self) -> (r: Option<W>)
        ensures
            r == old(self).tx,
            *final(self) == without_writer(*old(self)),
    {
        self.tx.take()
    }
}

/// Hands out the numbers of actors. After the largest number it starts again with zero.
#[derive(Debug)]
pub struct ActorIds {
    pub next: u64,
}

/// The number after a number.
pub open spec fn number_after(id: u64) -> u64 {
    if id == u64::MAX {
        0
    } else {
        (id + 1) as u64
    }
}

impl ActorIds {
    /// Hands out the next number.
    pub fn fetch(&mut self) -> (r: u64)
        ensures
            r == old(self).next,
            final(self).next == number_after(old(self).next),
    {
        let id = self.next;
        self.next = id.wrapping_add(1);
        id
    }
}

/// What an actor is made from.
#[derive(Debug)]
pub struct PeerProps {
    pub name: String,
    pub info: Arc<Local>,
    pub socket_address: SocketAddress,
}

/// The name of the actor with a number.
pub open spec fn actor_name(actor_id: u64) -> Seq<char> {
    "peer-"@ + decimal_text(actor_id as nat)
}

/// Represents a single p2p peer.
#[derive(Debug)]
pub struct Peer<W> {
    /// Local node info
    pub local: Arc<Local>,
    /// Network IO
    pub net: Network<W>,
    /// IP address of the remote peer
    pub remote_addr: SocketAddress,
}

/// An actor that is not connected to any peer.
pub open spec fn unconnected<W>(info: Arc<Local>, socket_address: SocketAddress) -> Peer<W> {
    Peer {
        local: info,
        net: Network { rx_run: false, tx: None, socket_address },
        remote_addr: SocketAddress::V4 { ipv4: 0, port: 0 },
    }
}

/// An actor whose remote peer is at `address`.
pub open spec fn addressed<W>(peer: Peer<W>, address: SocketAddress) -> Peer<W> {
    Peer { remote_addr: address, ..peer }
}

/// An actor that receives no more messages.
pub open spec fn stopped<W>(peer: Peer<W>) -> Peer<W> {
    Peer { net: Network { rx_run: false, ..peer.net }, ..peer }
}

/// What an actor is told to do.
#[derive(Clone, Debug)]
pub enum PeerMsg<T, M> {
    Bootstrap(Bootstrap<T>),
    SendMessage(SendMessage<M>),
}

impl<T, M> From<Bootstrap<T>> for PeerMsg<T, M> {
    fn from(msg: Bootstrap<T>) -> (r: Self) {
        PeerMsg::Bootstrap(msg)
    }
}

impl<T, M> vstd::std_specs::convert::FromSpecImpl<Bootstrap<T>> for PeerMsg<T, M> {
    open spec fn obeys_from_spec() -> bool {
        true
    }

    open spec fn from_spec(msg: Bootstrap<T>) -> Self {
        PeerMsg::Bootstrap(msg)
    }
}

impl<T, M> From<SendMessage<M>> for PeerMsg<T, M> {
    fn from(msg: SendMessage<M>) -> (r: Self) {
        PeerMsg::SendMessage(msg)
    }
}

impl<T, M> vstd::std_specs::convert::FromSpecImpl<SendMessage<M>> for PeerMsg<T, M> {
    open spec fn obeys_from_spec() -> bool {
        true
    }

    open spec fn from_spec(msg: SendMessage<M>) -> Self {
        PeerMsg::SendMessage(msg)
    }
}

/// What an actor has others do.
#[derive(Debug)]
pub enum PeerTask<T, M> {
    /// Carry out a handshake, then tell of it.
    Bootstrap { msg: Bootstrap<T>, info: Arc<Local> },
    /// Write a message.
    SendMessage(SendMessage<M>),
}

impl<W> Peer<W> {
    /// What the actor with the next number is made from.
    pub fn actor(
        ids: &mut ActorIds,
        listener_port: u16,
        node_identity: Arc<Identity>,
        version: Arc<NetworkVersion>,
        socket_address: &SocketAddress,
    ) -> (r: PeerProps)
        ensures
            r.name@ == actor_name(old(ids).next),
            final(ids).next == number_after(old(ids).next),
            *r.info == (Local { listener_port, identity: node_identity, version }),
            r.socket_address == *socket_address,
    {
        let info = Local::new(listener_port, node_identity, version);
        let actor_id = ids.fetch();
        let mut name = "peer-".to_owned();
        name.append(decimal(actor_id).as_str());
        PeerProps { name, info: Arc::new(info), socket_address: *socket_address }
    }

    /// An actor that is not connected to any peer.
    pub fn create_args(info: Arc<Local>, socket_address: SocketAddress) -> (r: Peer<W>)
        ensures
            r == unconnected::<W>(info, socket_address),
    {
        Peer {
            local: info,
            net: Network { rx_run: false, tx: None, socket_address },
            remote_addr: SocketAddress::unspecified(),
        }
    }

    /// The actor has stopped: no more messages are received.
    pub fn post_stop(&mut self)
        ensures
            *final(self) == stopped(*old(self)),
    {
        self.net.rx_run = false;
    }

    /// Takes a message.
    pub fn recv<T, M>(&mut self, msg: PeerMsg<T, M>) -> (r: PeerTask<T, M>)
        ensures
            match msg {
                PeerMsg::Bootstrap(msg) => {
                    &&& r == (PeerTask::<T, M>::Bootstrap { msg, info: old(self).local })
                    &&& *final(self) == addressed(*old(self), msg.address)
                },
                PeerMsg::SendMessage(msg) => {
                    &&& r == PeerTask::<T, M>::SendMessage(msg)
                    &&& *final(self) == *old(self)
                },
            },
    {
        match msg {
            PeerMsg::Bootstrap(msg) => self.receive_bootstrap(msg),
            PeerMsg::SendMessage(msg) => self.receive_send_message(msg),
        }
    }

    /// Takes the command to open a connection.
    pub fn receive_bootstrap<T, M>(&mut self, msg: Bootstrap<T>) -> (r: PeerTask<T, M>)
        ensures
            r == (PeerTask::<T, M>::Bootstrap { msg, info: old(self).local }),
            *final(self) == addressed(*old(self), msg.address),
    {
        let info = self.local.clone();
        self.remote_addr = msg.address;
        PeerTask::Bootstrap { msg, info }
    }

    /// Takes the command to send a message.
    pub fn receive_send_message<T, M>(&self, msg: SendMessage<M>) -> (r: PeerTask<T, M>)
        ensures
            r == PeerTask::<T, M>::SendMessage(msg),
    {
        PeerTask::SendMessage(msg)
    }
}

/// What is left to do after a handshake, in order.
#[derive(Debug)]
pub enum TaskAction<R, W, M> {
    /// Open both ends of the connection, with this writer.
    SetupNet { tx: W },
    /// Tell the rest of the node.
    Publish(Publish<M>),
    /// Process incoming messages from this reader until the connection is closed.
    ProcessIncoming { rx: R },
    /// Stop the actor of the peer.
    StopPeer,
}

/// Other nodes to try, if that is what an error names.
pub open spec fn potential_peers(error: PeerError) -> Option<Vec<String>> {
    match error {
        PeerError::NackWithMotiveReceived { nack_info } => Some(
            nack_info.potential_peers_to_connect,
        ),
        _ => None,
    }
}

/// What is told of a peer whose handshake has succeeded.
pub open spec fn success_report<R, W, M>(
    myself: PeerRef,
    peer_address: SocketAddress,
    output: BootstrapOutput<R, W>,
) -> Publish<M> {
    Publish {
        msg: NetworkChannelMsg::PeerBootstrapped(
            Arc::new(
                PeerId {
                    peer_ref: myself,
                    peer_public_key_hash: output.2,
                    peer_id_marker: output.3,
                    peer_address,
                },
            ),
            Arc::new(output.4),
        ),
        topic: NetworkChannelTopic::NetworkEvents,
        sender: myself,
    }
}

/// What is told of an address whose handshake has failed.
pub open spec fn failure_report<M>(
    myself: PeerRef,
    address: SocketAddress,
    error: PeerError,
) -> Publish<M> {
    Publish {
        msg: NetworkChannelMsg::ProcessFailedBootstrapAddress(
            PeerBootstrapFailed {
                address,
                potential_peers_to_connect: potential_peers(error),
            },
        ),
        topic: NetworkChannelTopic::NetworkCommands,
        sender: myself,
    }
}

/// What is left to do after a handshake.
pub open spec fn aftermath<R, W, M>(
    myself: PeerRef,
    peer_address: SocketAddress,
    result: Result<BootstrapOutput<R, W>, PeerError>,
) -> Seq<TaskAction<R, W, M>> {
    match result {
        Ok(output) => seq![
            TaskAction::SetupNet { tx: output.1 },
            TaskAction::Publish(success_report(myself, peer_address, output)),
            TaskAction::ProcessIncoming { rx: output.0 },
            TaskAction::StopPeer,
        ],
        Err(error) => seq![
            TaskAction::Publish(failure_report(myself, peer_address, error)),
            TaskAction::StopPeer,
        ],
    }
}

/// Says what is left to do after a handshake with the peer at `peer_address`.
pub fn bootstrapped<R, W, M>(
    myself: &PeerRef,
    peer_address: SocketAddress,
    result: Result<BootstrapOutput<R, W>, PeerError>,
) -> (r: Vec<TaskAction<R, W, M>>)
    ensures
        r@ == aftermath::<R, W, M>(*myself, peer_address, result),
{
    let mut actions: Vec<TaskAction<R, W, M>> = Vec::new();
    match result {
        Ok(BootstrapOutput(rx, tx, peer_public_key_hash, peer_id_marker, peer_metadata)) => {
            // prepare PeerId
            let peer_id = PeerId::new(
                myself.copied(),
                peer_public_key_hash,
                peer_id_marker,
                peer_address,
            );
            // setup encryption writer
            actions.push(TaskAction::SetupNet { tx });
            // notify that peer was bootstrapped successfully
            actions.push(
                TaskAction::Publish(
                    Publish {
                        msg: NetworkChannelMsg::PeerBootstrapped(
                            Arc::new(peer_id),
                            Arc::new(peer_metadata),
                        ),
                        topic: NetworkChannelTopic::NetworkEvents,
                        sender: myself.copied(),
                    },
                ),
            );
            // begin to process incoming messages in a loop
            actions.push(TaskAction::ProcessIncoming { rx });
        },
        Err(err) => {
            let potential_peers_to_connect = match err {
                PeerError::NackWithMotiveReceived { nack_info } => Some(
                    nack_info.potential_peers_to_connect,
                ),
                _ => None,
            };
            // notify that peer failed at bootstrap process
            actions.push(
                TaskAction::Publish(
                    Publish {
                        msg: NetworkChannelMsg::ProcessFailedBootstrapAddress(
                            PeerBootstrapFailed {
                                address: peer_address,
                                potential_peers_to_connect,
                            },
                        ),
                        topic: NetworkChannelTopic::NetworkCommands,
                        sender: myself.copied(),
                    },
                ),
            );
        },
    }
    // connection to peer was closed, stop this actor
    actions.push(TaskAction::StopPeer);
    assert(actions@ =~= aftermath::<R, W, M>(*myself, peer_address, result));
    actions
}

} // verus!
