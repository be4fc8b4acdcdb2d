//! Streams, connection retries and socket settings.

use pg_proto::auth::TlsServerEndPoint;
use pg_proto::net::{
    AlreadyTls, ConnectRetry, NetworkStream, RetryStep, SocketOption, TcpConfigurationError,
    TcpSettings,
};

struct Secured(&'static [u8]);

impl TlsServerEndPoint for Secured {
    fn tls_server_end_point(&self) -> &[u8] {
        self.0
    }
}

#[test]
fn streams_know_their_protection() {
    let plain: NetworkStream<&str, Secured, Secured> = NetworkStream::plain("socket");
    assert!(plain.is_plain());
    assert!(!plain.is_tls());
    assert!(plain.tls_server_end_point().is_none());
    assert_eq!(plain.into_plain(), Ok("socket"));
    let client: NetworkStream<&str, Secured, Secured> =
        NetworkStream::client_tls(Secured(b"client"));
    assert!(client.is_tls());
    assert_eq!(client.tls_server_end_point(), Some(&b"client"[..]));
    assert_eq!(client.into_plain(), Err(AlreadyTls));
    let server: NetworkStream<&str, Secured, Secured> =
        NetworkStream::server_tls(Secured(b"server"));
    assert!(server.is_tls());
    assert_eq!(server.tls_server_end_point(), Some(&b"server"[..]));
    assert_eq!(AlreadyTls.message(), "transport is already using TLS");
}

#[test]
fn retries_back_off_exponentially_up_to_a_bound() {
    let retry = ConnectRetry::default();
    assert_eq!(
        retry.after_failure(0),
        RetryStep::Wait {
            delay: 100_000_000,
            retries: 1
        }
    );
    assert_eq!(
        retry.after_failure(2),
        RetryStep::Wait {
            delay: 400_000_000,
            retries: 3
        }
    );
    assert_eq!(retry.after_failure(3), RetryStep::GiveUp);
    let patient = ConnectRetry {
        max_retries: u32::MAX,
        ..retry
    };
    assert_eq!(
        patient.after_failure(5),
        RetryStep::Wait {
            delay: 2_000_000_000,
            retries: 6
        }
    );
    assert_eq!(
        patient.after_failure(1000),
        RetryStep::Wait {
            delay: 2_000_000_000,
            retries: 1001
        }
    );
    let unbounded = ConnectRetry {
        max_retries: 100,
        initial_delay: u128::MAX,
        max_delay: u128::MAX,
    };
    assert_eq!(
        unbounded.after_failure(1),
        RetryStep::Wait {
            delay: u64::MAX as u128 * 1_000_000_000 + 999_999_999,
            retries: 2
        }
    );
}

#[test]
fn settings_become_options_in_order() {
    let settings = TcpSettings::default();
    assert_eq!(settings.options(true), vec![SocketOption::NoDelay(true)]);
    let tuned = TcpSettings {
        no_delay: false,
        user_timeout: Some(5),
        keepalive_time: None,
        keepalive_interval: Some(7),
        keepalive_retries: None,
    };
    let keepalive = SocketOption::KeepaliveParameters {
        time: None,
        interval: Some(7),
        retries: None,
    };
    assert_eq!(
        tuned.options(true),
        vec![
            SocketOption::NoDelay(false),
            SocketOption::UserTimeout(5),
            SocketOption::Keepalive,
            keepalive,
        ]
    );
    assert_eq!(
        tuned.options(false),
        vec![SocketOption::NoDelay(false), SocketOption::Keepalive, keepalive]
    );
    assert_eq!(SocketOption::NoDelay(true).name(), "TCP_NODELAY");
    assert_eq!(SocketOption::UserTimeout(1).name(), "TCP_USER_TIMEOUT");
    assert_eq!(SocketOption::Keepalive.name(), "SO_KEEPALIVE");
    assert_eq!(keepalive.name(), "TCP_KEEPALIVE");
    assert!(SocketOption::Keepalive.is_prerequisite());
    assert!(!keepalive.is_prerequisite());
    let failed = TcpConfigurationError {
        option: SocketOption::Keepalive.name(),
        source: "refused",
    };
    assert_eq!(failed.option, "SO_KEEPALIVE");
    assert_eq!(failed.source, "refused");
}
