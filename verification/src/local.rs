//! What a node knows of itself.

use std::sync::Arc;

use vstd::prelude::*;

use crate::messages::NetworkVersion;

verus! {

/// The keys of a node, and the proof of work that makes its public key acceptable.
#[derive(Debug)]
pub struct Identity {
    pub public_key: Vec<u8>,
    pub secret_key: Vec<u8>,
    pub proof_of_work_stamp: Vec<u8>,
}

/// Local node info
#[derive(Debug)]
pub struct Local {
    /// port where remote node can establish new connection
    pub listener_port: u16,
    /// Our node identity
    pub identity: Arc<Identity>,
    /// version of network protocol
    pub version: Arc<NetworkVersion>,
}

impl Local {
    /// A node that listens on `listener_port`.
    pub fn new(
        listener_port: u16,
        identity: Arc<Identity>,
        network_version: Arc<NetworkVersion>,
    ) -> (r: Local)
        ensures
            r == (Local { listener_port, identity, version: network_version }),
    {
        Local { listener_port, identity, version: network_version }
    }
}

} // verus!
