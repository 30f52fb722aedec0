use peer::error::{
    BinaryChunkError, BinaryReaderError, BinaryReaderErrorKind, CryptoFault, Elapsed, Fault, IoFault, PeerError,
    SerializationFault, StreamError, StreamErrorKind,
};
use peer::messages::{
    nack_report, offers_report, supports_any, version_report, NackInfo, NackMotive, NetworkVersion,
    OfferedVersion,
};
use peer::text::{copied, copied_bytes, decimal, list, quoted_list};

fn strings(parts: &[&str]) -> Vec<String> {
    parts.iter().map(|s| s.to_string()).collect()
}

fn version(chain_name: &str, distributed_db_version: u16, p2p_version: u16) -> NetworkVersion {
    NetworkVersion { chain_name: chain_name.to_string(), distributed_db_version, p2p_version }
}

#[test]
fn decimal_writes_every_digit() {
    assert_eq!(decimal(0), "0");
    assert_eq!(decimal(9), "9");
    assert_eq!(decimal(10), "10");
    assert_eq!(decimal(1234567890), "1234567890");
    assert_eq!(decimal(u64::MAX), "18446744073709551615");
}

#[test]
fn list_puts_commas_between_parts() {
    assert_eq!(list(&strings(&[])), "[]");
    assert_eq!(list(&strings(&["a"])), "[a]");
    assert_eq!(list(&strings(&["a", "b", "c"])), "[a, b, c]");
}

#[test]
fn copies_are_the_same() {
    assert_eq!(copied(&strings(&["x", "y"])), strings(&["x", "y"]));
    assert_eq!(copied(&[]), strings(&[]));
    assert_eq!(copied_bytes(&vec![1, 2, 3]), vec![1, 2, 3]);
}

#[test]
fn quotes_are_put_around_and_escaped() {
    assert_eq!(
        quoted_list(&strings(&["plain", "a\"b\n"])),
        strings(&["\"plain\"", "\"a\\\"b\\n\""])
    );
}

#[test]
fn nack_report_names_motive_and_peers() {
    assert_eq!(
        nack_report(NackMotive::TooManyConnections, &strings(&["<one>", "<two>"])),
        "NackInfo { motive: TooManyConnections, potential_peers_to_connect: [<one>, <two>] }"
    );
}

#[test]
fn nack_info_reads_like_its_debug_form() {
    let motives = [
        NackMotive::NoMotive,
        NackMotive::TooManyConnections,
        NackMotive::UnknownChainName,
        NackMotive::DeprecatedP2pVersion,
        NackMotive::DeprecatedDistributedDbVersion,
        NackMotive::AlreadyConnected,
    ];
    for motive in motives {
        assert_eq!(motive.name(), format!("{:?}", motive));
        for peers in [strings(&[]), strings(&["127.0.0.1:9732", "[::1]:9732"])] {
            let info = NackInfo::new(motive, &peers);
            assert_eq!(info.motive, motive);
            assert_eq!(info.potential_peers_to_connect, peers);
            assert_eq!(info.report(), format!("{:?}", info));
        }
    }
}

#[test]
fn version_report_names_every_field() {
    assert_eq!(
        version_report("<chain>", 0, 12),
        "NetworkVersion { chain_name: <chain>, distributed_db_version: 0, p2p_version: 12 }"
    );
}

#[test]
fn version_reads_like_its_debug_form() {
    let v = version("TEZOS_\"MAIN\"", 65535, 1);
    assert_eq!(v.report(), format!("{:?}", v));
    let same = v.copied();
    assert_eq!(same.chain_name, v.chain_name);
    assert_eq!(same.distributed_db_version, 65535);
    assert_eq!(same.p2p_version, 1);
}

#[test]
fn one_supported_version_is_enough() {
    let offer = |supported: bool| OfferedVersion { version: version("A", 0, 0), supported };
    assert!(!supports_any(&vec![]));
    assert!(!supports_any(&vec![offer(false), offer(false)]));
    assert!(supports_any(&vec![offer(false), offer(true)]));
    assert!(supports_any(&vec![offer(true), offer(false)]));
}

#[test]
fn offers_read_like_the_debug_form_of_the_versions() {
    let offers = vec![
        OfferedVersion { version: version("A", 0, 1), supported: false },
        OfferedVersion { version: version("B", 2, 3), supported: true },
    ];
    let versions = vec![version("A", 0, 1), version("B", 2, 3)];
    assert_eq!(offers_report(&offers), format!("{:?}", versions));
    assert_eq!(offers_report(&vec![]), "[]");
}

#[test]
fn every_fault_has_its_error() {
    let reason = || "why".to_string();
    let cases: Vec<(Fault, &str)> = vec![
        (
            Fault::Serialization(SerializationFault { reason: reason() }),
            "Message serialization error, reason: why",
        ),
        (
            Fault::BinaryReader(BinaryReaderError {
                kind: BinaryReaderErrorKind::UnsupportedTag { tag: 5 },
                reason: reason(),
            }),
            "Message deserialization error, reason: why",
        ),
        (Fault::Io(IoFault { reason: reason() }), "Network error: Network error, reason: why"),
        (
            Fault::Stream(StreamError { kind: StreamErrorKind::Other, reason: reason() }),
            "Network error: Stream error, reason: why",
        ),
        (
            Fault::BinaryChunk(BinaryChunkError { reason: reason() }),
            "Network error: Binary chunk error, reason: why",
        ),
        (Fault::Crypto(CryptoFault { reason: reason() }), "Crypto error, reason: why"),
        (
            Fault::Elapsed(Elapsed { reason: reason() }),
            "Network error: Connection timeout, reason: why",
        ),
    ];
    for (fault, text) in cases {
        assert_eq!(fault.into_error().report(), text);
    }
}

#[test]
fn errors_convert_by_kind() {
    let error: PeerError = IoFault { reason: "broken pipe".to_string() }.into();
    assert!(matches!(
        error,
        PeerError::NetworkError { ref error, message } if error == "broken pipe" && message == "Network error"
    ));
    let error: PeerError = CryptoFault { reason: "bad key".to_string() }.into();
    assert!(matches!(error, PeerError::CryptoError { ref error } if error == "bad key"));
}

#[test]
fn refusals_read_as_they_should() {
    assert_eq!(PeerError::NackReceived.report(), "Received NACK from remote peer");
    let nack_info = NackInfo::new(NackMotive::UnknownChainName, &strings(&["1.2.3.4:5"]));
    let text = format!("Received NACK from remote peer with info: {:?}", nack_info);
    assert_eq!(PeerError::NackWithMotiveReceived { nack_info }.report(), text);
    let error = PeerError::UnsupportedProtocol {
        supported_version: "mine".to_string(),
        incompatible_versions: "[theirs]".to_string(),
    };
    assert_eq!(
        error.report(),
        "Unsupported protocol - supported_version: mine vs. [theirs]"
    );
}
