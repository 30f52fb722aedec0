//! The messages that two nodes exchange before they trust each other.

use vstd::prelude::*;

use crate::text::{copied, decimal, list, quoted, quoted_list};
use crate::text::{decimal_text, list_text, quoted_text, quoted_texts, texts};

verus! {

/// Why a node refuses a connection.
#[derive(Clone, Copy, Debug, PartialEq, Eq, Structural)]
pub enum NackMotive {
    NoMotive,
    TooManyConnections,
    UnknownChainName,
    DeprecatedP2pVersion,
    DeprecatedDistributedDbVersion,
    AlreadyConnected,
}

/// The name of a motive.
pub open spec fn motive_text(motive: NackMotive) -> Seq<char> {
    match motive {
        NackMotive::NoMotive => "NoMotive"@,
        NackMotive::TooManyConnections => "TooManyConnections"@,
        NackMotive::UnknownChainName => "UnknownChainName"@,
        NackMotive::DeprecatedP2pVersion => "DeprecatedP2pVersion"@,
        NackMotive::DeprecatedDistributedDbVersion => "DeprecatedDistributedDbVersion"@,
        NackMotive::AlreadyConnected => "AlreadyConnected"@,
    }
}

impl NackMotive {
    /// Names the motive.
    pub fn name(&self) -> (r: &'static str)
        ensures
            r@ == motive_text(*self),
    {
        match self {
            NackMotive::NoMotive => "NoMotive",
            NackMotive::TooManyConnections => "TooManyConnections",
            NackMotive::UnknownChainName => "UnknownChainName",
            NackMotive::DeprecatedP2pVersion => "DeprecatedP2pVersion",
            NackMotive::DeprecatedDistributedDbVersion => "DeprecatedDistributedDbVersion",
            NackMotive::AlreadyConnected => "AlreadyConnected",
        }
    }
}

/// A refusal with its motive and with other nodes to try instead.
#[derive(Debug)]
pub struct NackInfo {
    pub motive: NackMotive,
    pub potential_peers_to_connect: Vec<String>,
}

/// What a [`NackInfo`] says.
#[verifier::ext_equal]
pub struct NackInfoView {
    pub motive: NackMotive,
    pub potential_peers_to_connect: Seq<Seq<char>>,
}

impl View for NackInfo {
    type V = NackInfoView;

    open spec fn view(&self) -> NackInfoView {
        NackInfoView {
            motive: self.motive,
            potential_peers_to_connect: texts(self.potential_peers_to_connect@),
        }
    }
}

/// The text of a refusal whose node names are already quoted.
pub open spec fn nack_text(motive: NackMotive, quoted_peers: Seq<Seq<char>>) -> Seq<char> {
    "NackInfo { motive: "@ + motive_text(motive) + ", potential_peers_to_connect: "@ + list_text(
        quoted_peers,
    ) + " }"@
}

/// The text of a refusal.
pub open spec fn nack_info_text(info: NackInfoView) -> Seq<char> {
    nack_text(info.motive, quoted_texts(info.potential_peers_to_connect))
}

/// Writes a refusal whose node names are already quoted.
pub fn nack_report(motive: NackMotive, quoted_peers: &Vec<String>) -> (r: String)
    ensures
        r@ == nack_text(motive, texts(quoted_peers@)),
{
    let mut r = "NackInfo { motive: ".to_owned();
    r.append(motive.name());
    r.append(", potential_peers_to_connect: ");
    r.append(list(quoted_peers).as_str());
    r.append(" }");
    r
}

impl NackInfo {
    /// A refusal for `motive` that names `potential_peers_to_connect`.
    pub fn new(motive: NackMotive, potential_peers_to_connect: &[String]) -> (r: NackInfo)
        ensures
            r.motive == motive,
            r.potential_peers_to_connect@ == potential_peers_to_connect@,
    {
        NackInfo { motive, potential_peers_to_connect: copied(potential_peers_to_connect) }
    }

    /// Writes the refusal as `{:?}` does.
    pub fn report(&self) -> (r: String)
        ensures
            r@ == nack_info_text(self@),
    {
        nack_report(self.motive, &quoted_list(&self.potential_peers_to_connect))
    }
}

/// The last word of each side on a connection.
#[derive(Debug)]
pub enum AckMessage {
    Ack,
    NackV0,
    Nack(NackInfo),
}

/// What an [`AckMessage`] says.
#[verifier::ext_equal]
pub enum AckMessageView {
    Ack,
    NackV0,
    Nack(NackInfoView),
}

impl View for AckMessage {
    type V = AckMessageView;

    open spec fn view(&self) -> AckMessageView {
        match self {
            AckMessage::Ack => AckMessageView::Ack,
            AckMessage::NackV0 => AckMessageView::NackV0,
            AckMessage::Nack(info) => AckMessageView::Nack(info@),
        }
    }
}

/// What a node tells about itself once the connection is encrypted.
#[derive(Clone, Copy, Debug, PartialEq, Eq, Structural)]
pub struct MetadataMessage {
    pub disable_mempool: bool,
    pub private_node: bool,
}

impl MetadataMessage {
    /// Metadata with the two flags.
    pub fn new(disable_mempool: bool, private_node: bool) -> (r: MetadataMessage)
        ensures
            r == (MetadataMessage { disable_mempool, private_node }),
    {
        MetadataMessage { disable_mempool, private_node }
    }
}

/// A version of the network protocol.
#[derive(Debug)]
pub struct NetworkVersion {
    pub chain_name: String,
    pub distributed_db_version: u16,
    pub p2p_version: u16,
}

/// What a [`NetworkVersion`] says.
#[verifier::ext_equal]
pub struct NetworkVersionView {
    pub chain_name: Seq<char>,
    pub distributed_db_version: u16,
    pub p2p_version: u16,
}

impl View for NetworkVersion {
    type V = NetworkVersionView;

    open spec fn view(&self) -> NetworkVersionView {
        NetworkVersionView {
            chain_name: self.chain_name@,
            distributed_db_version: self.distributed_db_version,
            p2p_version: self.p2p_version,
        }
    }
}

/// The text of a version whose chain name is already quoted.
pub open spec fn version_text(
    quoted_chain_name: Seq<char>,
    distributed_db_version: u16,
    p2p_version: u16,
) -> Seq<char> {
    "NetworkVersion { chain_name: "@ + quoted_chain_name + ", distributed_db_version: "@
        + decimal_text(distributed_db_version as nat) + ", p2p_version: "@ + decimal_text(
        p2p_version as nat,
    ) + " }"@
}

/// The text of a version.
pub open spec fn network_version_text(version: NetworkVersionView) -> Seq<char> {
    version_text(
        quoted_text(version.chain_name),
        version.distributed_db_version,
        version.p2p_version,
    )
}

/// Writes a version whose chain name is already quoted.
pub fn version_report(
    quoted_chain_name: &str,
    distributed_db_version: u16,
    p2p_version: u16,
) -> (r: String)
    ensures
        r@ == version_text(quoted_chain_name@, distributed_db_version, p2p_version),
{
    let mut r = "NetworkVersion { chain_name: ".to_owned();
    r.append(quoted_chain_name);
    r.append(", distributed_db_version: ");
    r.append(decimal(distributed_db_version as u64).as_str());
    r.append(", p2p_version: ");
    r.append(decimal(p2p_version as u64).as_str());
    r.append(" }");
    r
}

impl NetworkVersion {
    /// Copies the version.
    pub fn copied(&self) -> (r: NetworkVersion)
        ensures
            r == *self,
    {
        NetworkVersion {
            chain_name: self.chain_name.clone(),
            distributed_db_version: self.distributed_db_version,
            p2p_version: self.p2p_version,
        }
    }

    /// Writes the version as `{:?}` does.
    pub fn report(&self) -> (r: String)
        ensures
            r@ == network_version_text(self@),
    {
        version_report(
            quoted(self.chain_name.as_str()).as_str(),
            self.distributed_db_version,
            self.p2p_version,
        )
    }
}

/// A version that a remote node offers, with the word of the wire codec on whether the
/// version of this node supports it.
#[derive(Debug)]
pub struct OfferedVersion {
    pub version: NetworkVersion,
    pub supported: bool,
}

/// What an [`OfferedVersion`] says.
#[verifier::ext_equal]
pub struct OfferedVersionView {
    pub version: NetworkVersionView,
    pub supported: bool,
}

impl View for OfferedVersion {
    type V = OfferedVersionView;

    open spec fn view(&self) -> OfferedVersionView {
        OfferedVersionView { version: self.version@, supported: self.supported }
    }
}

/// What each version of a list says.
pub open spec fn offers(versions: Seq<OfferedVersion>) -> Seq<OfferedVersionView> {
    versions.map_values(|v: OfferedVersion| v@)
}

/// Whether some version of a list is supported.
pub open spec fn any_supported(versions: Seq<OfferedVersionView>) -> bool {
    exists|i: int| 0 <= i < versions.len() && (#[trigger] versions[i]).supported
}

/// The text of a list of versions.
pub open spec fn offers_text(versions: Seq<OfferedVersionView>) -> Seq<char> {
    list_text(versions.map_values(|v: OfferedVersionView| network_version_text(v.version)))
}

/// Whether a connection can go on with one of the versions that the remote node offers.
pub fn supports_any(versions: &Vec<OfferedVersion>) -> (r: bool)
    ensures
        r == any_supported(offers(versions@)),
        r == exists|i: int| 0 <= i < versions@.len() && (#[trigger] versions@[i]).supported,
{
    let ghost all = offers(versions@);
    let mut i: usize = 0;
    while i < versions.len()
        invariant
            i <= versions.len(),
            all == offers(versions@),
            forall|j: int| 0 <= j < i ==> !(#[trigger] all[j]).supported,
            forall|j: int| 0 <= j < i ==> !(#[trigger] versions@[j]).supported,
        decreases versions.len() - i,
    {
        assert(all[i as int] == versions@[i as int]@);
        if versions[i].supported {
            return true;
        }
        i += 1;
    }
    false
}

/// Writes a list of versions as `{:?}` does.
pub fn offers_report(versions: &Vec<OfferedVersion>) -> (r: String)
    ensures
        r@ == offers_text(offers(versions@)),
{
    let ghost all = offers(versions@).map_values(
        |v: OfferedVersionView| network_version_text(v.version),
    );
    let mut parts: Vec<String> = Vec::new();
    let mut i: usize = 0;
    while i < versions.len()
        invariant
            i <= versions.len(),
            all == offers(versions@).map_values(
                |v: OfferedVersionView| network_version_text(v.version),
            ),
            texts(parts@) == all.take(i as int),
        decreases versions.len() - i,
    {
        let ghost before = texts(parts@);
        parts.push(versions[i].version.report());
        assert(texts(parts@) =~= before.push(all[i as int]));
        assert(texts(parts@) =~= all.take(i + 1));
        i += 1;
    }
    assert(all.take(i as int) =~= all);
    list(&parts)
}

/// The first message of a node: who it is, where it listens and what it speaks.
#[derive(Debug)]
pub struct ConnectionMessage {
    pub port: u16,
    pub public_key: Vec<u8>,
    pub proof_of_work_stamp: Vec<u8>,
    pub message_nonce: Vec<u8>,
    pub versions: Vec<NetworkVersion>,
}

/// What a [`ConnectionMessage`] says.
#[verifier::ext_equal]
pub struct ConnectionMessageView {
    pub port: u16,
    pub public_key: Seq<u8>,
    pub proof_of_work_stamp: Seq<u8>,
    pub message_nonce: Seq<u8>,
    pub versions: Seq<NetworkVersionView>,
}

impl View for ConnectionMessage {
    type V = ConnectionMessageView;

    open spec fn view(&self) -> ConnectionMessageView {
        ConnectionMessageView {
            port: self.port,
            public_key: self.public_key@,
            proof_of_work_stamp: self.proof_of_work_stamp@,
            message_nonce: self.message_nonce@,
            versions: self.versions@.map_values(|v: NetworkVersion| v@),
        }
    }
}

/// The part of a remote node's first message that a handshake reads.
#[derive(Debug)]
pub struct Introduction {
    pub public_key: Vec<u8>,
    pub versions: Vec<OfferedVersion>,
}

/// A framed piece of a byte stream: the bytes as they travel, length bytes
/// first, and the bytes that they carry.
#[derive(Debug)]
pub struct BinaryChunk {
    pub raw: Vec<u8>,
    pub content: Vec<u8>,
}

} // verus!
