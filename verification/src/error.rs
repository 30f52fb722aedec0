//! What can end a connection.

use vstd::prelude::*;

use crate::messages::{nack_info_text, NackInfo, NackInfoView};

verus! {

/// A message could not be encoded.
#[derive(Debug)]
pub struct SerializationFault {
    pub reason: String,
}

/// What a message that could not be decoded was about.
#[derive(Clone, Copy, Debug, PartialEq, Eq, Structural)]
pub enum BinaryReaderErrorKind {
    /// The message starts with a tag that no known message has.
    UnsupportedTag { tag: u64 },
    Other,
}

/// A message could not be decoded.
#[derive(Debug)]
pub struct BinaryReaderError {
    pub kind: BinaryReaderErrorKind,
    pub reason: String,
}

/// The operating system refused an operation on the socket.
#[derive(Debug)]
pub struct IoFault {
    pub reason: String,
}

/// What a failed read from or write to a message stream was about.
#[derive(Debug)]
pub enum StreamErrorKind {
    /// The bytes arrived, but could not be decoded.
    DeserializationError { error: BinaryReaderError },
    Other,
}

/// A read from or a write to a message stream failed.
#[derive(Debug)]
pub struct StreamError {
    pub kind: StreamErrorKind,
    pub reason: String,
}

/// The tag of a message that arrived, but starts with a tag that no known message has.
pub open spec fn unsupported_tag(error: StreamError) -> Option<u64> {
    match error.kind {
        StreamErrorKind::DeserializationError { error } => match error.kind {
            BinaryReaderErrorKind::UnsupportedTag { tag } => Some(tag),
            BinaryReaderErrorKind::Other => None,
        },
        StreamErrorKind::Other => None,
    }
}

impl StreamError {
    /// The tag of a message that arrived, but starts with a tag that no known message has.
    pub fn unsupported_tag(&self) -> (r: Option<u64>)
        ensures
            r == unsupported_tag(*self),
            forall|tag: u64|
                r == Some(tag) <==> (self.kind matches StreamErrorKind::DeserializationError {
                    error,
                } && error.kind == (BinaryReaderErrorKind::UnsupportedTag { tag })),
    {
        match &self.kind {
            StreamErrorKind::DeserializationError { error } => match error.kind {
                BinaryReaderErrorKind::UnsupportedTag { tag } => Some(tag),
                BinaryReaderErrorKind::Other => None,
            },
            StreamErrorKind::Other => None,
        }
    }
}

/// Bytes could not be framed.
#[derive(Debug)]
pub struct BinaryChunkError {
    pub reason: String,
}

/// A cryptographic operation rejected its input.
#[derive(Debug)]
pub struct CryptoFault {
    pub reason: String,
}

/// An operation did not finish in the time it was given.
#[derive(Debug)]
pub struct Elapsed {
    pub reason: String,
}

/// Why a connection to a peer failed.
#[derive(Debug)]
pub enum PeerError {
    UnsupportedProtocol { supported_version: String, incompatible_versions: String },
    NackReceived,
    NackWithMotiveReceived { nack_info: NackInfo },
    NetworkError { error: String, message: &'static str },
    SerializationError { error: String },
    DeserializationError { error: String },
    CryptoError { error: String },
}

/// What a [`PeerError`] says.
#[verifier::ext_equal]
pub enum PeerErrorView {
    UnsupportedProtocol { supported_version: Seq<char>, incompatible_versions: Seq<char> },
    NackReceived,
    NackWithMotiveReceived { nack_info: NackInfoView },
    NetworkError { error: Seq<char>, message: Seq<char> },
    SerializationError { error: Seq<char> },
    DeserializationError { error: Seq<char> },
    CryptoError { error: Seq<char> },
}

impl View for PeerError {
    type V = PeerErrorView;

    open spec fn view(&self) -> PeerErrorView {
        match self {
            PeerError::UnsupportedProtocol { supported_version, incompatible_versions } =>
                PeerErrorView::UnsupportedProtocol {
                supported_version: supported_version@,
                incompatible_versions: incompatible_versions@,
            },
            PeerError::NackReceived => PeerErrorView::NackReceived,
            PeerError::NackWithMotiveReceived { nack_info } =>
                PeerErrorView::NackWithMotiveReceived { nack_info: nack_info@ },
            PeerError::NetworkError { error, message } => PeerErrorView::NetworkError {
                error: error@,
                message: message@,
            },
            PeerError::SerializationError { error } => PeerErrorView::SerializationError {
                error: error@,
            },
            PeerError::DeserializationError { error } => PeerErrorView::DeserializationError {
                error: error@,
            },
            PeerError::CryptoError { error } => PeerErrorView::CryptoError { error: error@ },
        }
    }
}

impl From<SerializationFault> for PeerError {
    fn from(error: SerializationFault) -> (r: Self) {
        PeerError::SerializationError { error: error.reason }
    }
}

impl vstd::std_specs::convert::FromSpecImpl<SerializationFault> for PeerError {
    open spec fn obeys_from_spec() -> bool {
        true
    }

    open spec fn from_spec(error: SerializationFault) -> Self {
        PeerError::SerializationError { error: error.reason }
    }
}

impl From<BinaryReaderError> for PeerError {
    fn from(error: BinaryReaderError) -> (r: Self) {
        PeerError::DeserializationError { error: error.reason }
    }
}

impl vstd::std_specs::convert::FromSpecImpl<BinaryReaderError> for PeerError {
    open spec fn obeys_from_spec() -> bool {
        true
    }

    open spec fn from_spec(error: BinaryReaderError) -> Self {
        PeerError::DeserializationError { error: error.reason }
    }
}

impl From<IoFault> for PeerError {
    fn from(error: IoFault) -> (r: Self) {
        PeerError::NetworkError { error: error.reason, message: "Network error" }
    }
}

impl vstd::std_specs::convert::FromSpecImpl<IoFault> for PeerError {
    open spec fn obeys_from_spec() -> bool {
        true
    }

    open spec fn from_spec(error: IoFault) -> Self {
        PeerError::NetworkError { error: error.reason, message: "Network error" }
    }
}

impl From<StreamError> for PeerError {
    fn from(error: StreamError) -> (r: Self) {
        PeerError::NetworkError { error: error.reason, message: "Stream error" }
    }
}

impl vstd::std_specs::convert::FromSpecImpl<StreamError> for PeerError {
    open spec fn obeys_from_spec() -> bool {
        true
    }

    open spec fn from_spec(error: StreamError) -> Self {
        PeerError::NetworkError { error: error.reason, message: "Stream error" }
    }
}

impl From<BinaryChunkError> for PeerError {
    fn from(error: BinaryChunkError) -> (r: Self) {
        PeerError::NetworkError { error: error.reason, message: "Binary chunk error" }
    }
}

impl vstd::std_specs::convert::FromSpecImpl<BinaryChunkError> for PeerError {
    open spec fn obeys_from_spec() -> bool {
        true
    }

    open spec fn from_spec(error: BinaryChunkError) -> Self {
        PeerError::NetworkError { error: error.reason, message: "Binary chunk error" }
    }
}

impl From<CryptoFault> for PeerError {
    fn from(error: CryptoFault) -> (r: Self) {
        PeerError::CryptoError { error: error.reason }
    }
}

impl vstd::std_specs::convert::FromSpecImpl<CryptoFault> for PeerError {
    open spec fn obeys_from_spec() -> bool {
        true
    }

    open spec fn from_spec(error: CryptoFault) -> Self {
        PeerError::CryptoError { error: error.reason }
    }
}

impl From<Elapsed> for PeerError {
    fn from(timeout: Elapsed) -> (r: Self) {
        PeerError::NetworkError { message: "Connection timeout", error: timeout.reason }
    }
}

impl vstd::std_specs::convert::FromSpecImpl<Elapsed> for PeerError {
    open spec fn obeys_from_spec() -> bool {
        true
    }

    open spec fn from_spec(timeout: Elapsed) -> Self {
        PeerError::NetworkError { message: "Connection timeout", error: timeout.reason }
    }
}

/// Anything that can go wrong while a message is made ready to be sent.
#[derive(Debug)]
pub enum Fault {
    Serialization(SerializationFault),
    BinaryReader(BinaryReaderError),
    Io(IoFault),
    Stream(StreamError),
    BinaryChunk(BinaryChunkError),
    Crypto(CryptoFault),
    Elapsed(Elapsed),
}

/// The error that a fault is reported as.
pub open spec fn fault_error(fault: Fault) -> PeerErrorView {
    match fault {
        Fault::Serialization(e) => PeerErrorView::SerializationError { error: e.reason@ },
        Fault::BinaryReader(e) => PeerErrorView::DeserializationError { error: e.reason@ },
        Fault::Io(e) => PeerErrorView::NetworkError {
            error: e.reason@,
            message: "Network error"@,
        },
        Fault::Stream(e) => stream_error(e),
        Fault::BinaryChunk(e) => PeerErrorView::NetworkError {
            error: e.reason@,
            message: "Binary chunk error"@,
        },
        Fault::Crypto(e) => PeerErrorView::CryptoError { error: e.reason@ },
        Fault::Elapsed(e) => timeout_error(e),
    }
}

/// The error that a failed stream is reported as.
pub open spec fn stream_error(error: StreamError) -> PeerErrorView {
    PeerErrorView::NetworkError { error: error.reason@, message: "Stream error"@ }
}

/// The error that a missed deadline is reported as.
pub open spec fn timeout_error(timeout: Elapsed) -> PeerErrorView {
    PeerErrorView::NetworkError { error: timeout.reason@, message: "Connection timeout"@ }
}

impl Fault {
    /// Reports the fault.
    pub fn into_error(self) -> (r: PeerError)
        ensures
            r@ == fault_error(self),
    {
        match self {
            Fault::Serialization(e) => PeerError::from(e),
            Fault::BinaryReader(e) => PeerError::from(e),
            Fault::Io(e) => PeerError::from(e),
            Fault::Stream(e) => PeerError::from(e),
            Fault::BinaryChunk(e) => PeerError::from(e),
            Fault::Crypto(e) => PeerError::from(e),
            Fault::Elapsed(e) => PeerError::from(e),
        }
    }
}

/// How an operation on a message stream ended that had a deadline.
#[derive(Debug)]
pub enum Timed<T> {
    /// The deadline passed first.
    Elapsed(Elapsed),
    /// The stream failed.
    Failed(StreamError),
    Done(T),
}

/// The text of an error.
pub open spec fn peer_error_text(error: PeerErrorView) -> Seq<char> {
    match error {
        PeerErrorView::UnsupportedProtocol { supported_version, incompatible_versions } =>
            "Unsupported protocol - supported_version: "@ + supported_version + " vs. "@
            + incompatible_versions,
        PeerErrorView::NackReceived => "Received NACK from remote peer"@,
        PeerErrorView::NackWithMotiveReceived { nack_info } =>
            "Received NACK from remote peer with info: "@ + nack_info_text(nack_info),
        PeerErrorView::NetworkError { error, message } => "Network error: "@ + message
            + ", reason: "@ + error,
        PeerErrorView::SerializationError { error } =>
            "Message serialization error, reason: "@ + error,
        PeerErrorView::DeserializationError { error } =>
            "Message deserialization error, reason: "@ + error,
        PeerErrorView::CryptoError { error } => "Crypto error, reason: "@ + error,
    }
}

impl PeerError {
    /// Writes the error for people to read.
    pub fn report(&self) -> (r: String)
        ensures
            r@ == peer_error_text(self@),
    {
        match self {
            PeerError::UnsupportedProtocol { supported_version, incompatible_versions } => {
                let mut r = "Unsupported protocol - supported_version: ".to_owned();
                r.append(supported_version.as_str());
                r.append(" vs. ");
                r.append(incompatible_versions.as_str());
                r
            },
            PeerError::NackReceived => "Received NACK from remote peer".to_owned(),
            PeerError::NackWithMotiveReceived { nack_info } => {
                let mut r = "Received NACK from remote peer with info: ".to_owned();
                r.append(nack_info.report().as_str());
                r
            },
            PeerError::NetworkError { error, message } => {
                let mut r = "Network error: ".to_owned();
                r.append(message);
                r.append(", reason: ");
                r.append(error.as_str());
                r
            },
            PeerError::SerializationError { error } => {
                let mut r = "Message serialization error, reason: ".to_owned();
                r.append(error.as_str());
                r
            },
            PeerError::DeserializationError { error } => {
                let mut r = "Message deserialization error, reason: ".to_owned();
                r.append(error.as_str());
                r
            },
            PeerError::CryptoError { error } => {
                let mut r = "Crypto error, reason: ".to_owned();
                r.append(error.as_str());
                r
            },
        }
    }
}

} // verus!
