//! The command that opens a connection, and what an open connection consists of.

use vstd::prelude::*;

use crate::address::SocketAddress;
use crate::messages::MetadataMessage;

verus! {

/// Seconds that a message may take to be written or, during the handshake, to arrive.
pub const IO_TIMEOUT_SECS: u64 = 6;

/// Seconds that a message may take to arrive once the connection is open.
/// There is a 90-second timeout for ping peers with GetCurrentHead
pub const READ_TIMEOUT_LONG_SECS: u64 = 120;

/// Commands a peer to initialize the bootstrapping process with a remote peer.
///
/// The stream is there until someone takes it.
#[derive(Clone, Debug)]
pub struct Bootstrap<T> {
    pub stream: Option<T>,
    pub address: SocketAddress,
    pub incoming: bool,
    pub disable_mempool: bool,
    pub private_node: bool,
}

/// A command whose stream has been taken.
pub open spec fn taken<T>(msg: Bootstrap<T>) -> Bootstrap<T> {
    Bootstrap { stream: None, ..msg }
}

impl<T> Bootstrap<T> {
    /// For a connection that the remote node has opened. Its stream may be gone already.
    pub fn incoming(
        stream: Option<T>,
        address: SocketAddress,
        disable_mempool: bool,
        private_node: bool,
    ) -> (r: Bootstrap<T>)
        ensures
            r == (Bootstrap { stream, address, incoming: true, disable_mempool, private_node }),
    {
        Bootstrap { stream, address, incoming: true, disable_mempool, private_node }
    }

    /// For a connection that this node has opened.
    pub fn outgoing(
        stream: T,
        address: SocketAddress,
        disable_mempool: bool,
        private_node: bool,
    ) -> (r: Bootstrap<T>)
        ensures
            r == (Bootstrap {
                stream: Some(stream),
                address,
                incoming: false,
                disable_mempool,
                private_node,
            }),
    {
        Bootstrap { stream: Some(stream), address, incoming: false, disable_mempool, private_node }
    }

    /// Takes the stream, which is then gone.
    pub fn take_stream(&mut self) -> (r: Option<T>)
        ensures
            r == old(self).stream,
            *final(self) == taken(*old(self)),
            final(self).stream is None,
            final(self).address == old(self).address,
            final(self).incoming == old(self).incoming,
            final(self).disable_mempool == old(self).disable_mempool,
            final(self).private_node == old(self).private_node,
    {
        self.stream.take()
    }
}

/// Output values of the successful bootstrap process: the side that reads from the remote
/// peer, the side that writes to it, the hash of its public key, the text of that hash, and
/// what it told about itself.
#[derive(Debug)]
pub struct BootstrapOutput<R, W>(
    pub R,
    pub W,
    pub Vec<u8>,
    pub String,
    pub MetadataMessage,
);

} // verus!
