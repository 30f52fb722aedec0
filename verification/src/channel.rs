//! What a peer tells the rest of the node.

use std::sync::Arc;

use vstd::prelude::*;

use crate::address::SocketAddress;
use crate::messages::MetadataMessage;

verus! {

/// Refers to the actor of a peer, by its name.
#[derive(Debug)]
pub struct PeerRef {
    pub name: String,
}

impl PeerRef {
    /// Copies the reference.
    pub fn copied(&self) -> (r: PeerRef)
        ensures
            r == *self,
    {
        PeerRef { name: self.name.clone() }
    }
}

/// Identifies a remote peer whose handshake has succeeded.
#[derive(Debug)]
pub struct PeerId {
    pub peer_ref: PeerRef,
    pub peer_public_key_hash: Vec<u8>,
    pub peer_id_marker: String,
    pub peer_address: SocketAddress,
}

impl PeerId {
    /// A peer at `peer_address`.
    pub fn new(
        peer_ref: PeerRef,
        peer_public_key_hash: Vec<u8>,
        peer_id_marker: String,
        peer_address: SocketAddress,
    ) -> (r: PeerId)
        ensures
            r == (PeerId { peer_ref, peer_public_key_hash, peer_id_marker, peer_address }),
    {
        PeerId { peer_ref, peer_public_key_hash, peer_id_marker, peer_address }
    }
}

/// A remote address that could not be connected to, with other nodes to try instead, if the
/// remote node named some.
#[derive(Debug)]
pub struct PeerBootstrapFailed {
    pub address: SocketAddress,
    pub potential_peers_to_connect: Option<Vec<String>>,
}

/// What is told to the rest of the node.
#[derive(Debug)]
pub enum NetworkChannelMsg<M> {
    /// The handshake with a peer has succeeded.
    PeerBootstrapped(Arc<PeerId>, Arc<MetadataMessage>),
    /// A peer has sent a message.
    PeerMessageReceived { peer: PeerRef, message: Arc<M> },
    /// The handshake with a peer has failed.
    ProcessFailedBootstrapAddress(PeerBootstrapFailed),
}

/// Who is told.
#[derive(Clone, Copy, Debug, PartialEq, Eq, Structural)]
pub enum NetworkChannelTopic {
    /// Those that follow what happens on the network.
    NetworkEvents,
    /// Those that decide which connections to open.
    NetworkCommands,
}

/// Tells a message to those that follow a topic, in the name of a sender.
#[derive(Debug)]
pub struct Publish<M> {
    pub msg: NetworkChannelMsg<M>,
    pub topic: NetworkChannelTopic,
    pub sender: PeerRef,
}

} // verus!
