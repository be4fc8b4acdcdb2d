//! Pre-startup negotiation and upgrades.

use bytes::{Bytes, BytesMut};
use pg_proto::conn::{Conn, Dirty};
use pg_proto::error::ErrorKind;
use pg_proto::octet_map::OctetMap;
use pg_proto::pre_startup::{
    decode_pre_startup, decode_pre_startup_with_limit, AwaitingSslReply, CertificateVerification,
    EncryptionReply, Negotiation, PreStartup, PreStartupMessage, PreStartupOffer, SslMode,
    SslModeNegotiation, SslStrategy,
};
use pg_proto::startup::{ProtocolVersion, StartupMessage};

struct Tcp;

struct Tls;

fn require_dirty<S>(conn: Conn<S, PreStartup, Dirty>) {
    conn.into_transport();
}

fn user_parameters() -> OctetMap<Bytes> {
    let mut parameters = OctetMap::new();
    parameters.insert(Bytes::from_static(b"user"), Bytes::from_static(b"postgres"));
    parameters
}

#[test]
fn encodes_special_requests_in_network_byte_order() {
    let (pending, ssl) = Conn::new(()).ssl_request();
    assert_eq!(ssl, [0, 0, 0, 8, 4, 210, 22, 47]);
    pending.into_transport();

    let (terminated, cancel) = Conn::new(())
        .cancel_request(0x0102_0304, &[5, 6, 7, 8])
        .expect("valid protocol 3.0 cancellation key");
    assert_eq!(
        &cancel[..],
        [0, 0, 0, 16, 4, 210, 22, 46, 1, 2, 3, 4, 5, 6, 7, 8]
    );
    terminated.into_transport();
}

#[test]
fn tls_upgrade_changes_the_transport_type() {
    let (pending, _) = Conn::new(Tcp).ssl_request();
    let Negotiation::Accepted(handshake) = pending.receive_reply(EncryptionReply::Accepted)
    else {
        panic!("unexpected negotiation branch")
    };
    let upgraded: Conn<Tls, PreStartup> = handshake.finish_tls(|Tcp| Tls);
    let message = StartupMessage {
        version: ProtocolVersion::v3_0(),
        parameters: OctetMap::new(),
    };
    let (startup, _) = upgraded.startup(&message).expect("valid startup message");
    let _transport = startup.into_transport();
}

#[test]
fn sslmode_allow_starts_plaintext_then_reconnects_with_tls() {
    assert_eq!(
        SslMode::Allow.strategy(),
        SslStrategy {
            request_on_first_connection: false,
            retry_with_ssl_after_plaintext_failure: true,
            allow_server_rejection: true,
            verification: CertificateVerification::Unchecked,
        }
    );
}

#[test]
fn verify_full_requires_tls_ca_and_hostname() {
    assert_eq!(
        SslMode::VerifyFull.strategy(),
        SslStrategy {
            request_on_first_connection: true,
            retry_with_ssl_after_plaintext_failure: false,
            allow_server_rejection: false,
            verification: CertificateVerification::CertificateAuthorityAndHost,
        }
    );
}

#[test]
fn sslmode_rejection_is_plaintext_only_when_policy_allows_it() {
    let (pending, _) = Conn::new(()).ssl_request();
    let SslModeNegotiation::Plaintext(plaintext) =
        pending.apply_ssl_reply(EncryptionReply::Rejected, SslMode::Prefer)
    else {
        panic!("prefer should permit a plaintext fallback")
    };
    plaintext.into_transport();

    let (pending, _) = Conn::new(()).ssl_request();
    let SslModeNegotiation::RequiredRejected { conn, mode } =
        pending.apply_ssl_reply(EncryptionReply::Rejected, SslMode::VerifyFull)
    else {
        panic!("verify-full must reject a server without TLS")
    };
    assert_eq!(mode, SslMode::VerifyFull);
    conn.into_transport();
}

#[test]
fn encryption_negotiation_and_upgrade_preserve_cleanliness() {
    let pending: Conn<(), AwaitingSslReply, Dirty> = Conn::new(()).transition();
    let Negotiation::Accepted(handshake) = pending.receive_reply(EncryptionReply::Accepted)
    else {
        panic!("expected the TLS handshake branch")
    };
    let upgraded = handshake.finish_tls(|()| 42_u8);

    require_dirty(upgraded);
}

#[test]
fn incrementally_decodes_each_pre_startup_branch() {
    let messages = [
        PreStartupMessage::SslRequest,
        PreStartupMessage::GssEncRequest,
        PreStartupMessage::CancelRequest {
            process_id: 42,
            secret_key: Bytes::from_static(&[7; 32]),
        },
        PreStartupMessage::Startup(StartupMessage {
            version: ProtocolVersion::v3_2(),
            parameters: user_parameters(),
        }),
    ];

    for message in messages {
        let packet = message.to_packet().expect("encodable pre-startup message");
        let mut input = BytesMut::from(&packet[..3]);
        assert_eq!(
            decode_pre_startup(&mut input).expect("partial input is valid"),
            None
        );
        input.extend_from_slice(&packet[3..]);
        assert_eq!(
            decode_pre_startup(&mut input).expect("complete packet is valid"),
            Some(message)
        );
        assert!(input.is_empty());
    }
}

#[test]
fn rejects_oversized_pre_startup_before_reserving_body() {
    let mut input = BytesMut::from(&10_001_u32.to_be_bytes()[..]);
    let capacity = input.capacity();

    let error = decode_pre_startup(&mut input).expect_err("packet exceeds the default limit");

    assert_eq!(error.kind(), ErrorKind::InvalidData);
    assert_eq!(input.len(), 4);
    assert_eq!(input.capacity(), capacity);
}

#[test]
fn validates_custom_pre_startup_limit() {
    let packet = PreStartupMessage::SslRequest
        .to_packet()
        .expect("SSL request is encodable");

    assert!(decode_pre_startup_with_limit(&mut BytesMut::from(&packet[..]), 7).is_err());
    assert!(
        decode_pre_startup_with_limit(&mut BytesMut::from(&packet[..]), i32::MAX as usize + 1)
            .is_err()
    );
}

#[test]
fn startup_packets_are_encoded_exactly() {
    let message = StartupMessage {
        version: ProtocolVersion::v3_0(),
        parameters: user_parameters(),
    };
    assert_eq!(
        message.encode().unwrap(),
        Bytes::from_static(b"\0\0\0\x17\0\x03\0\0user\0postgres\0\0")
    );
    assert_eq!(
        StartupMessage::decode(message.encode().unwrap()).unwrap(),
        message
    );
}

#[test]
fn servers_answer_with_one_octet() {
    let PreStartupOffer::Ssl(decision) =
        Conn::new(()).offer_pre_startup(PreStartupMessage::SslRequest)
    else {
        panic!("an SSL request is to be decided on")
    };
    let (handshake, reply) = decision.accept_ssl();
    assert_eq!(reply, b'S');
    handshake.into_transport();
    assert_eq!(EncryptionReply::try_from_byte(b'N'), Ok(EncryptionReply::Rejected));
    assert!(EncryptionReply::try_from_byte(b'?').is_err());
    assert_eq!(EncryptionReply::LegacyError.as_byte(), b'E');
}
