//! Authentication typestates.

use bytes::Bytes;
use pg_proto::auth::{
    Auth, AuthCompletion, AuthError, AuthEvent, AuthOffer, AwaitingAuthOk, AwaitingStartupReady,
    PasswordResponse, Sasl, SaslEvent, SaslInitial, TlsServerEndPoint, TokenAuthEvent,
};
use pg_proto::codec::{
    Authentication, BackendMessage, DiagnosticField, DiagnosticResponse, NegotiateProtocolVersion,
    TransactionStatus,
};
use pg_proto::conn::Conn;
use pg_proto::demux::SessionItem;
use pg_proto::startup::ProtocolVersion;

#[derive(Debug)]
struct Tls(Vec<u8>);

impl TlsServerEndPoint for Tls {
    fn tls_server_end_point(&self) -> &[u8] {
        &self.0
    }
}

#[test]
fn sasl_continue_alternates_challenge_and_response() {
    let sasl: Conn<Tls, Sasl> = Conn::new(Tls(vec![1])).transition();
    let SaslEvent::Continue { conn, challenge } = sasl
        .offer(Authentication::SaslContinue(Bytes::from_static(
            b"challenge",
        )))
        .unwrap()
    else {
        panic!("challenge projected to the wrong branch")
    };
    assert_eq!(challenge, Bytes::from_static(b"challenge"));
    let (sasl, response) = conn.respond(Bytes::from_static(b"response"));
    assert_eq!(response.body, Bytes::from_static(b"response"));

    let SaslEvent::Final { conn, server_final } = sasl
        .offer(Authentication::SaslFinal(Bytes::from_static(b"verified")))
        .unwrap()
    else {
        panic!("server final projected to the wrong branch")
    };
    assert_eq!(server_final, Bytes::from_static(b"verified"));
    conn.verified().into_transport();
}

#[test]
fn gss_continuation_is_a_recursive_token_exchange() {
    let auth: Conn<(), Auth> = Conn::new(()).transition();
    let AuthOffer::Gss(response) = auth.offer(Authentication::Gss).unwrap() else {
        panic!("GSS request projected to the wrong branch")
    };
    let (waiting, frame) = response.respond(Bytes::from_static(b"client-token-1"));
    assert_eq!(frame.body, Bytes::from_static(b"client-token-1"));

    let TokenAuthEvent::Continue { conn, token } = waiting
        .offer(BackendMessage::Authentication(Authentication::GssContinue(
            Bytes::from_static(b"server-token"),
        )))
        .unwrap()
    else {
        panic!("GSS continuation projected to the wrong branch")
    };
    assert_eq!(token, Bytes::from_static(b"server-token"));
    let (waiting, _) = conn.respond(Bytes::from_static(b"client-token-2"));
    let TokenAuthEvent::Accepted(awaiting_ready) = waiting
        .offer(BackendMessage::Authentication(Authentication::Accepted))
        .unwrap()
    else {
        panic!("authentication success projected to the wrong branch")
    };
    awaiting_ready.into_transport();
}

#[test]
fn scram_plus_exposes_binding_to_custom_authentication_logic() {
    let conn: Conn<Tls, SaslInitial> = Conn::new(Tls(vec![1, 2, 3])).transition();
    assert_eq!(conn.tls_server_end_point(), [1, 2, 3]);

    let (sasl, frame) = conn.scram_sha_256_plus(b"client-first").unwrap();
    assert_eq!(frame.tag, b'p');
    assert_eq!(
        frame.body,
        Bytes::from_static(b"SCRAM-SHA-256-PLUS\0\0\0\0\x0cclient-first")
    );
    let _transport = sasl.into_transport();
}

#[test]
fn protocol_negotiation_is_an_auth_self_loop() {
    let auth: Conn<(), Auth> = Conn::new(()).transition();
    let negotiation = NegotiateProtocolVersion {
        newest: ProtocolVersion::v3_2(),
        unsupported_options: vec![Bytes::from_static(b"_pq_.feature")],
    };
    let AuthEvent::Negotiate { conn, message } = auth
        .offer_backend(BackendMessage::NegotiateProtocolVersion(
            negotiation.clone(),
        ))
        .unwrap()
    else {
        panic!("negotiation projected to the wrong branch")
    };
    assert_eq!(message, negotiation);
    let AuthEvent::Authentication(AuthOffer::Accepted(ready)) = conn
        .offer_backend(BackendMessage::Authentication(Authentication::Accepted))
        .unwrap()
    else {
        panic!("authentication projected to the wrong branch")
    };
    ready.into_transport();
}

#[test]
fn authentication_completion_requires_backend_evidence() {
    let awaiting: Conn<(), AwaitingAuthOk> = Conn::new(()).transition();
    let AuthCompletion::Accepted(startup) = awaiting
        .offer(BackendMessage::Authentication(Authentication::Accepted))
        .unwrap()
    else {
        panic!("AuthenticationOk projected to the wrong branch")
    };
    startup.into_transport();

    let awaiting: Conn<(), AwaitingAuthOk> = Conn::new(()).transition();
    let error = DiagnosticResponse {
        fields: vec![DiagnosticField {
            code: b'M',
            value: Bytes::from_static(b"password authentication failed"),
        }],
    };
    let AuthCompletion::Error {
        conn,
        error: projected,
    } = awaiting
        .offer(BackendMessage::ErrorResponse(error.clone()))
        .unwrap()
    else {
        panic!("authentication error projected to the wrong branch")
    };
    assert_eq!(projected, error);
    conn.into_transport();
}

#[test]
fn continuation_before_selection_is_refused() {
    let auth: Conn<u8, Auth> = Conn::new(9).transition();
    let Err((conn, _, error)) = auth.offer_backend(BackendMessage::Authentication(
        Authentication::SaslContinue(Bytes::from_static(b"early")),
    )) else {
        panic!("an early continuation selects nothing")
    };
    assert_eq!(error, Some(AuthError::EarlyContinuation));
    assert_eq!(conn.into_transport(), 9);
}

#[test]
fn password_is_terminated_and_must_not_hold_nul() {
    let password: Conn<(), PasswordResponse> = Conn::new(()).transition();
    let (conn, frame) = password.password(b"secret").unwrap();
    assert_eq!(frame.tag, b'p');
    assert_eq!(frame.body, Bytes::from_static(b"secret\0"));
    conn.into_transport();

    let password: Conn<(), PasswordResponse> = Conn::new(()).transition();
    assert_eq!(
        password.password(b"sec\0ret").unwrap_err(),
        AuthError::NulInPassword
    );
}

#[test]
fn any_offered_mechanism_can_be_selected() {
    let conn: Conn<(), SaslInitial> = Conn::new(()).transition();
    let (sasl, frame) = conn.sasl(b"OAUTHBEARER", b"x").unwrap();
    assert_eq!(frame.body, Bytes::from_static(b"OAUTHBEARER\0\0\0\0\x01x"));
    sasl.into_transport();
}

#[test]
fn startup_is_complete_only_when_idle_and_unchanged() {
    let awaiting: Conn<u8, AwaitingStartupReady> = Conn::new(3).transition();
    let Err((awaiting, _)) = awaiting.offer_ready(SessionItem::ReadyForQuery {
        status: TransactionStatus::InTransaction,
        parameters_changed: false,
    }) else {
        panic!("a transaction is not idle")
    };
    let Ok(ready) = awaiting.offer_ready(SessionItem::ReadyForQuery {
        status: TransactionStatus::Idle,
        parameters_changed: false,
    }) else {
        panic!("idle readiness completes startup")
    };
    assert_eq!(ready.into_transport(), 3);
}
