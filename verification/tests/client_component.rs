//! The client component: targets, TLS decisions, credentials, establishment and
//! simple queries.

use bytes::Bytes;
use pg_proto::auth::{Auth, AuthError, AwaitingStartupReady};
use pg_proto::client_component::authentication::{
    intercepted_response, map_session_error, session_authentication_error,
};
use pg_proto::client_component::connection::cancellation_packet;
use pg_proto::client_component::establish::{
    announced_key, capture_key, on_startup_item, replace_session_item, AnswerStep, MessageStep,
    ReadyStep,
};
use pg_proto::client_component::interception::complete_startup;
use pg_proto::client_component::tls::{
    begin_negotiation, continue_negotiation, negotiation_packet, retry_after,
};
use pg_proto::client_component::{
    AuthenticationDriveError, BuildError, Client, ClientAuthenticationChallenge,
    ClientAuthenticationError, ClientAuthenticationResponse, ClientConnection,
    ClientConnectionContext, ClientConnectionCore, ClientTlsConfiguration, ClientTlsPolicy,
    ClientTlsStatus, ClientTransport, ConnectAttempt, ConnectError, ConnectTarget,
    ConnectionClean, EstablishFault, Establishment, IdentityHandler, ParameterTextError,
    ProtocolFault, ProtocolLimitError, ProtocolLimits, QueryFault, QueryStep,
    SessionEstablishError, StartupParameterError, StartupParameters, StaticClientCredentials,
    StaticCredentialError, TlsFault, TlsStep, TrustClientAuthentication,
};
use pg_proto::codec::{
    Authentication, BackendMessage, CopyResponse, DiagnosticResponse, FrontendMessage,
    NegotiateProtocolVersion, TransactionStatus,
};
use pg_proto::conn::Conn;
use pg_proto::credentials::md5_response;
use pg_proto::demux::{CancelKey, CommandIndex, SessionItem};
use pg_proto::error::{ErrorKind, ProtocolError};
use pg_proto::pre_startup::{PreStartupMessage, SslMode};
use pg_proto::runtime_middleware::{ClientMiddleware, MiddlewareChain};
use pg_proto::scram::{ScramServer, ServerChannelBinding};
use pg_proto::startup::{ProtocolVersion, StartupMessage};

fn error_response() -> BackendMessage {
    BackendMessage::ErrorResponse(DiagnosticResponse { fields: vec![] })
}

fn accepted() -> BackendMessage {
    BackendMessage::Authentication(Authentication::Accepted)
}

#[test]
fn answers_cleartext_and_md5_challenges() {
    let credentials = StaticClientCredentials::new(
        Bytes::from_static(b"alice"),
        Bytes::from_static(b"secret"),
    );
    let mut session = credentials.begin();
    assert_eq!(
        session
            .respond(ClientAuthenticationChallenge::CleartextPassword)
            .unwrap(),
        ClientAuthenticationResponse::Password(Bytes::from_static(b"secret"))
    );

    let salt = [1, 2, 3, 4];
    assert_eq!(
        session
            .respond(ClientAuthenticationChallenge::Md5Password(salt))
            .unwrap(),
        ClientAuthenticationResponse::Password(Bytes::from(md5_response(
            b"alice", b"secret", salt
        )))
    );
}

#[test]
fn static_credentials_complete_scram_with_an_honest_server() {
    let credentials = StaticClientCredentials::new(
        Bytes::from_static(b"alice"),
        Bytes::from_static(b"secret"),
    );
    let mut session = credentials.begin();
    let Ok(ClientAuthenticationResponse::SaslInitial { mechanism, response }) =
        session.respond(ClientAuthenticationChallenge::Sasl(vec![
            Bytes::from_static(b"SCRAM-SHA-256-PLUS"),
            Bytes::from_static(b"SCRAM-SHA-256"),
        ]))
    else {
        panic!("SCRAM is among the mechanisms")
    };
    assert_eq!(mechanism, Bytes::from_static(b"SCRAM-SHA-256"));
    assert!(response.starts_with(b"n,,n=,r="));
    let server = ScramServer::with_parameters(
        b"secret",
        b"salt".to_vec(),
        4096,
        ServerChannelBinding::Unbound,
    )
    .unwrap();
    let (exchange, first) = server.start(b"SCRAM-SHA-256", &response).unwrap();
    let Ok(ClientAuthenticationResponse::Sasl(answer)) =
        session.respond(ClientAuthenticationChallenge::SaslContinue(first))
    else {
        panic!("an honest challenge is answered")
    };
    let last = exchange.finish(&answer).unwrap();
    assert!(matches!(
        session.respond(ClientAuthenticationChallenge::SaslFinal(last)),
        Ok(ClientAuthenticationResponse::Verified)
    ));
}

#[test]
fn scram_needs_the_same_password_on_both_sides() {
    let server = ScramServer::with_parameters(
        b"other",
        b"salt".to_vec(),
        4096,
        ServerChannelBinding::Unbound,
    )
    .unwrap();
    let credentials = StaticClientCredentials::new(
        Bytes::from_static(b"alice"),
        Bytes::from_static(b"secret"),
    );
    let mut session = credentials.begin();
    let Ok(ClientAuthenticationResponse::SaslInitial { response, .. }) =
        session.respond(ClientAuthenticationChallenge::Sasl(vec![
            Bytes::from_static(b"SCRAM-SHA-256"),
        ]))
    else {
        panic!("SCRAM is among the mechanisms")
    };
    let (exchange, first) = server.start(b"SCRAM-SHA-256", &response).unwrap();
    let Ok(ClientAuthenticationResponse::Sasl(answer)) =
        session.respond(ClientAuthenticationChallenge::SaslContinue(first.clone()))
    else {
        panic!("a well-formed challenge is answered")
    };
    assert!(exchange.finish(&answer).is_err());
    assert!(matches!(
        session.respond(ClientAuthenticationChallenge::SaslFinal(
            Bytes::from_static(b"v=AAAAAAAAAAAAAAAAAAAAAAAAAAAAAAAAAAAAAAAAAAA=")
        )),
        Err(StaticCredentialError::Scram(_))
    ));
    assert!(matches!(
        session.respond(ClientAuthenticationChallenge::SaslContinue(first)),
        Err(StaticCredentialError::Scram(_))
    ));
}

#[test]
fn excessive_iterations_are_refused() {
    let server = ScramServer::with_parameters(
        b"secret",
        b"salt".to_vec(),
        100_001,
        ServerChannelBinding::Unbound,
    )
    .unwrap();
    let credentials = StaticClientCredentials::new(
        Bytes::from_static(b"alice"),
        Bytes::from_static(b"secret"),
    );
    let mut session = credentials.begin();
    let Ok(ClientAuthenticationResponse::SaslInitial { response, .. }) =
        session.respond(ClientAuthenticationChallenge::Sasl(vec![
            Bytes::from_static(b"SCRAM-SHA-256"),
        ]))
    else {
        panic!("SCRAM is among the mechanisms")
    };
    let (_, first) = server.start(b"SCRAM-SHA-256", &response).unwrap();
    assert!(matches!(
        session.respond(ClientAuthenticationChallenge::SaslContinue(first)),
        Err(StaticCredentialError::Scram(_))
    ));
}

#[test]
fn static_credentials_refuse_what_they_cannot_answer() {
    let credentials =
        StaticClientCredentials::new(Bytes::from_static(b"alice"), Bytes::from_static(b"x"));
    let mut session = credentials.begin();
    assert!(matches!(
        session.respond(ClientAuthenticationChallenge::Gss),
        Err(StaticCredentialError::UnsupportedAuthentication)
    ));
    assert!(matches!(
        session.respond(ClientAuthenticationChallenge::Sasl(vec![
            Bytes::from_static(b"OAUTHBEARER")
        ])),
        Err(StaticCredentialError::UnsupportedAuthentication)
    ));
    assert!(matches!(
        session.respond(ClientAuthenticationChallenge::SaslContinue(Bytes::new())),
        Err(StaticCredentialError::InvalidChallengeSequence)
    ));
    assert!(matches!(
        session.respond(ClientAuthenticationChallenge::SaslFinal(Bytes::new())),
        Err(StaticCredentialError::InvalidChallengeSequence)
    ));
    assert!(session
        .respond(ClientAuthenticationChallenge::Sasl(vec![
            Bytes::from_static(b"SCRAM-SHA-256")
        ]))
        .is_ok());
    assert!(matches!(
        session.respond(ClientAuthenticationChallenge::SaslContinue(
            Bytes::from_static(b"nonsense")
        )),
        Err(StaticCredentialError::Scram(_))
    ));
}

#[test]
fn targets_carry_metadata() {
    let target = ConnectTarget::new(String::from("primary"))
        .with_metadata(String::from("region"), String::from("eu"));
    assert_eq!(target.name(), "primary");
    assert_eq!(
        target.metadata().get(b"region"),
        Some(&Bytes::from_static(b"eu"))
    );
    let copy = target.duplicate();
    assert_eq!(copy.name(), "primary");
    assert_eq!(copy.metadata().len(), 1);
}

#[test]
fn startup_parameters_merge_and_round_trip() {
    let Ok(defaults) = StartupParameters::new(String::from("app"))
        .database(String::from("main"))
        .extension(String::from("application_name"), String::from("one"))
    else {
        panic!("application_name is no structured field")
    };
    let Ok(overrides) = StartupParameters::new(String::from("alice"))
        .extension(String::from("application_name"), String::from("two"))
    else {
        panic!("application_name is no structured field")
    };
    let merged = defaults.merged_with(overrides);
    assert_eq!(merged.user(), Some("alice"));
    assert_eq!(merged.database_name(), Some("main"));
    assert_eq!(
        merged.extensions().get(b"application_name"),
        Some(&Bytes::from_static(b"two"))
    );
    let Ok(message) = merged.into_message() else {
        panic!("a user is given")
    };
    assert_eq!(message.version, ProtocolVersion::v3_2());
    assert_eq!(message.parameters.len(), 3);
    assert_eq!(
        message.parameters.get(b"user"),
        Some(&Bytes::from_static(b"alice"))
    );
    let Ok(read) = StartupParameters::from_wire(&message) else {
        panic!("every parameter is text")
    };
    assert_eq!(read.user(), Some("alice"));
    assert_eq!(read.database_name(), Some("main"));
    assert_eq!(read.extensions().len(), 1);
}

#[test]
fn structured_fields_are_no_extensions() {
    assert!(matches!(
        StartupParameters::empty().extension(String::from("user"), String::from("x")),
        Err(StartupParameterError::ReservedExtension(name)) if name == "user"
    ));
    assert!(matches!(
        StartupParameters::empty().extension(String::from("database"), String::from("x")),
        Err(StartupParameterError::ReservedExtension(name)) if name == "database"
    ));
    assert!(matches!(
        StartupParameters::empty().into_message(),
        Err(StartupParameterError::MissingUser)
    ));
    assert_eq!(StartupParameters::empty().user(), None);
}

fn startup_with(name: &'static [u8], value: &'static [u8]) -> StartupMessage {
    let Ok(mut message) = StartupParameters::new(String::from("alice")).into_message() else {
        panic!("a user is given")
    };
    message
        .parameters
        .insert(Bytes::from_static(name), Bytes::from_static(value));
    message
}

#[test]
fn parameters_from_the_wire_must_be_text() {
    assert!(matches!(
        StartupParameters::from_wire(&startup_with(b"\xff", b"x")),
        Err(ParameterTextError::Name)
    ));
    assert!(matches!(
        StartupParameters::from_wire(&startup_with(b"x", b"\xff")),
        Err(ParameterTextError::Value)
    ));
}

#[test]
fn frame_limits_stay_in_range() {
    let limits = ProtocolLimits::default();
    assert_eq!(limits.frame_length(), 1_048_576);
    assert_eq!(limits.without_frame_limit().frame_length(), 0x8000_0000);
    assert_eq!(limits.max_frame_len(5).unwrap().frame_length(), 5);
    assert_eq!(limits.max_frame_len(4), Err(ProtocolLimitError));
    assert_eq!(limits.max_frame_len(0x8000_0001), Err(ProtocolLimitError));
    assert_eq!(
        ProtocolLimitError.message(),
        "frame limit is outside PostgreSQL's tagged-frame range"
    );
}

#[test]
fn negotiation_follows_the_mode() {
    assert_eq!(begin_negotiation(SslMode::Disable), TlsStep::Plaintext);
    assert_eq!(begin_negotiation(SslMode::Allow), TlsStep::Plaintext);
    assert_eq!(begin_negotiation(SslMode::Prefer), TlsStep::Request);
    assert_eq!(begin_negotiation(SslMode::VerifyFull), TlsStep::Request);
    assert_eq!(
        continue_negotiation(SslMode::Prefer, b'N'),
        Ok(TlsStep::Plaintext)
    );
    assert_eq!(
        continue_negotiation(SslMode::Require, b'S'),
        Ok(TlsStep::Handshake)
    );
    assert_eq!(
        continue_negotiation(SslMode::Require, b'N'),
        Err(TlsFault::RequiredRejected)
    );
    assert_eq!(
        continue_negotiation(SslMode::Prefer, b'E'),
        Err(TlsFault::Terminated)
    );
    assert_eq!(
        continue_negotiation(SslMode::Prefer, b'x'),
        Err(TlsFault::InvalidReply)
    );
    assert_eq!(retry_after(Some(SslMode::Allow), true), Some(SslMode::Require));
    assert_eq!(retry_after(Some(SslMode::Allow), false), None);
    assert_eq!(retry_after(Some(SslMode::Prefer), true), None);
    assert_eq!(retry_after(None, true), None);
}

#[test]
fn only_an_ssl_request_opens_negotiation() {
    assert_eq!(
        negotiation_packet(PreStartupMessage::SslRequest),
        Ok(Bytes::from_static(&[0, 0, 0, 8, 4, 210, 22, 47]))
    );
    assert_eq!(
        negotiation_packet(PreStartupMessage::GssEncRequest),
        Err(TlsFault::IncompatibleRequest)
    );
    assert_eq!(
        TlsFault::IncompatibleRequest.message(),
        "middleware replaced SSLRequest with an incompatible packet"
    );
    assert_eq!(
        TlsFault::RequiredRejected.message(),
        "server rejected required TLS"
    );
    assert_eq!(
        TlsFault::Terminated.message(),
        "server terminated TLS negotiation"
    );
    assert_eq!(
        TlsFault::InvalidReply.message(),
        "invalid TLS negotiation response"
    );
}

#[test]
fn tls_policies_expose_their_configuration() {
    assert!(ClientTlsPolicy::Disabled.configured().is_none());
    let policy = ClientTlsPolicy::libpq(SslMode::Require, "material");
    assert_eq!(policy.configured(), Some((SslMode::Require, &"material")));
    assert_eq!(
        policy.clone().configured(),
        Some((SslMode::Require, &"material"))
    );
    let plain: ClientTransport<(), ()> = ClientTransport::Plain(());
    assert_eq!(plain.status(), ClientTlsStatus::Plaintext);
    let tls: ClientTransport<(), ()> = ClientTransport::Tls(Box::new(()));
    assert_eq!(tls.status(), ClientTlsStatus::Encrypted);
}

fn begin() -> Establishment<&'static str> {
    let conn: Conn<&'static str, Auth> = Conn::new("transport").transition();
    Establishment::begin(conn)
}

fn ask(
    establishment: Establishment<&'static str>,
    request: Authentication,
) -> (Establishment<&'static str>, ClientAuthenticationChallenge) {
    match establishment.on_message(BackendMessage::Authentication(request)) {
        MessageStep::Ask(pending, challenge) => (pending, challenge),
        _ => panic!("the request asks the policy"),
    }
}

fn answer(
    establishment: Establishment<&'static str>,
    response: ClientAuthenticationResponse,
) -> (Establishment<&'static str>, Bytes) {
    match establishment.on_answer(response) {
        AnswerStep::Intercept {
            pending,
            mechanism,
            response,
        } => {
            let Ok((next, frame)) =
                pending.on_intercepted(mechanism, FrontendMessage::PasswordResponse(response))
            else {
                panic!("the response is encodable")
            };
            assert_eq!(frame.tag, b'p');
            (next, frame.body)
        }
        _ => panic!("the response fits the challenge"),
    }
}

#[test]
fn password_authentication_reaches_the_verdict() {
    let (pending, challenge) = ask(begin(), Authentication::CleartextPassword);
    assert_eq!(challenge, ClientAuthenticationChallenge::CleartextPassword);
    let (waiting, body) = answer(
        pending,
        ClientAuthenticationResponse::Password(Bytes::from_static(b"secret")),
    );
    assert_eq!(body, Bytes::from_static(b"secret\0"));
    let MessageStep::Authenticated(conn) = waiting.on_message(accepted()) else {
        panic!("the server accepted")
    };
    assert_eq!(conn.into_transport(), "transport");
}

#[test]
fn sasl_authentication_passes_the_verifier() {
    let (pending, challenge) = ask(
        begin(),
        Authentication::Sasl {
            mechanisms: vec![Bytes::from_static(b"SCRAM-SHA-256")],
        },
    );
    assert!(matches!(challenge, ClientAuthenticationChallenge::Sasl(offered) if offered.len() == 1));
    let (waiting, body) = answer(
        pending,
        ClientAuthenticationResponse::SaslInitial {
            mechanism: Bytes::from_static(b"SCRAM-SHA-256"),
            response: Bytes::from_static(b"n,,"),
        },
    );
    assert_eq!(body, Bytes::from_static(b"SCRAM-SHA-256\0\0\0\0\x03n,,"));
    let (pending, challenge) = ask(
        waiting,
        Authentication::SaslContinue(Bytes::from_static(b"r=1")),
    );
    assert_eq!(
        challenge,
        ClientAuthenticationChallenge::SaslContinue(Bytes::from_static(b"r=1"))
    );
    let (waiting, body) = answer(
        pending,
        ClientAuthenticationResponse::Sasl(Bytes::from_static(b"p=1")),
    );
    assert_eq!(body, Bytes::from_static(b"p=1"));
    let (pending, _) = ask(
        waiting,
        Authentication::SaslFinal(Bytes::from_static(b"v=1")),
    );
    let AnswerStep::Receive(waiting) = pending.on_answer(ClientAuthenticationResponse::Verified)
    else {
        panic!("a verified server is waited for")
    };
    assert!(matches!(
        waiting.on_message(accepted()),
        MessageStep::Authenticated(_)
    ));
}

#[test]
fn token_authentication_alternates() {
    let (pending, challenge) = ask(begin(), Authentication::Gss);
    assert_eq!(challenge, ClientAuthenticationChallenge::Gss);
    let (waiting, body) = answer(
        pending,
        ClientAuthenticationResponse::Token(Bytes::from_static(b"one")),
    );
    assert_eq!(body, Bytes::from_static(b"one"));
    let (pending, challenge) = ask(
        waiting,
        Authentication::GssContinue(Bytes::from_static(b"two")),
    );
    assert_eq!(
        challenge,
        ClientAuthenticationChallenge::TokenContinue(Bytes::from_static(b"two"))
    );
    let (waiting, _) = answer(
        pending,
        ClientAuthenticationResponse::Token(Bytes::from_static(b"three")),
    );
    assert!(matches!(
        waiting.on_message(accepted()),
        MessageStep::Authenticated(_)
    ));
}

fn failure(step: MessageStep<&'static str>) -> EstablishFault {
    match step {
        MessageStep::Failed(transport, fault) => {
            assert_eq!(transport, "transport");
            fault
        }
        _ => panic!("the message ends the attempt"),
    }
}

#[test]
fn messages_out_of_place_end_the_attempt() {
    assert_eq!(
        failure(begin().on_message(error_response())),
        EstablishFault::Rejected
    );
    assert_eq!(
        failure(begin().on_message(BackendMessage::Authentication(
            Authentication::SaslContinue(Bytes::new())
        ))),
        EstablishFault::Protocol(ProtocolFault::Authentication(AuthError::EarlyContinuation))
    );
    let negotiate = BackendMessage::NegotiateProtocolVersion(NegotiateProtocolVersion {
        newest: ProtocolVersion::v3_0(),
        unsupported_options: vec![],
    });
    assert!(matches!(
        begin().on_message(negotiate),
        MessageStep::Receive(Establishment::Authenticating(_))
    ));

    let (pending, _) = ask(begin(), Authentication::CleartextPassword);
    let (waiting, _) = answer(
        pending,
        ClientAuthenticationResponse::Password(Bytes::from_static(b"x")),
    );
    assert_eq!(
        failure(waiting.on_message(BackendMessage::BindComplete)),
        EstablishFault::Protocol(ProtocolFault::IllegalCompletion)
    );

    let (pending, _) = ask(begin(), Authentication::Sspi);
    let (waiting, _) = answer(
        pending,
        ClientAuthenticationResponse::Token(Bytes::from_static(b"x")),
    );
    assert_eq!(
        failure(waiting.on_message(BackendMessage::BindComplete)),
        EstablishFault::Protocol(ProtocolFault::IllegalTokenMessage)
    );

    let (pending, _) = ask(begin(), Authentication::Sasl { mechanisms: vec![] });
    let (waiting, _) = answer(
        pending,
        ClientAuthenticationResponse::SaslInitial {
            mechanism: Bytes::from_static(b"M"),
            response: Bytes::new(),
        },
    );
    assert_eq!(
        failure(waiting.on_message(accepted())),
        EstablishFault::Protocol(ProtocolFault::IllegalSaslMessage)
    );
}

#[test]
fn unverified_sasl_is_not_completed() {
    let conn: Conn<&'static str, Auth> = Conn::new("transport").transition();
    let waiting = Establishment::AwaitingOk {
        conn: conn.transition(),
        sasl: true,
    };
    assert_eq!(
        failure(waiting.on_message(BackendMessage::BindComplete)),
        EstablishFault::Protocol(ProtocolFault::IllegalSaslCompletion)
    );
}

#[test]
fn responses_must_fit_their_challenge() {
    let (pending, _) = ask(begin(), Authentication::CleartextPassword);
    assert!(matches!(
        pending.on_answer(ClientAuthenticationResponse::Verified),
        AnswerStep::Failed("transport", EstablishFault::InvalidResponse)
    ));
    let (pending, _) = ask(begin(), Authentication::CleartextPassword);
    assert!(matches!(
        pending.on_intercepted(None, FrontendMessage::Terminate),
        Err(EstablishFault::InvalidResponse)
    ));
    let (pending, _) = ask(begin(), Authentication::CleartextPassword);
    assert!(matches!(
        pending.on_intercepted(
            None,
            FrontendMessage::PasswordResponse(Bytes::from_static(b"a\0b"))
        ),
        Err(EstablishFault::Protocol(ProtocolFault::Authentication(
            AuthError::NulInPassword
        )))
    ));
    assert_eq!(
        intercepted_response(FrontendMessage::PasswordResponse(Bytes::from_static(b"a"))),
        Some(Bytes::from_static(b"a"))
    );
    assert_eq!(intercepted_response(FrontendMessage::Sync), None);
}

#[test]
fn faults_are_described() {
    assert_eq!(
        ProtocolFault::IllegalCompletion.message(),
        "illegal authentication completion"
    );
    assert_eq!(
        ProtocolFault::NotIdle.message(),
        "startup did not reach an idle operational phase"
    );
    assert_eq!(
        ProtocolFault::UnfitReplacement.message(),
        "middleware replacement during startup readiness is not phase-compatible"
    );
    assert_eq!(
        ProtocolFault::Authentication(AuthError::ResponseTooLarge).message(),
        "SASL response too large"
    );
    assert_eq!(QueryFault::Rejected.message(), "backend rejected simple query");
    assert_eq!(
        QueryFault::EnteredCopyBoth.message(),
        "simple query entered COPY BOTH"
    );
    assert_eq!(
        BuildError::MissingTls.message(),
        "an explicit client TLS policy is required"
    );
}

fn ready_item(status: TransactionStatus, parameters_changed: bool) -> SessionItem {
    SessionItem::ReadyForQuery {
        status,
        parameters_changed,
    }
}

fn completing() -> Conn<&'static str, AwaitingStartupReady> {
    Conn::new("transport").transition()
}

#[test]
fn startup_completes_on_idle_readiness() {
    let idle = BackendMessage::ReadyForQuery(TransactionStatus::Idle);
    let step = on_startup_item(
        completing(),
        ready_item(TransactionStatus::Idle, false),
        idle.clone(),
    );
    assert!(matches!(step, ReadyStep::Ready(_)));
    let step = on_startup_item(
        completing(),
        ready_item(TransactionStatus::Idle, true),
        idle.clone(),
    );
    assert!(matches!(
        step,
        ReadyStep::Failed(
            "transport",
            EstablishFault::Protocol(ProtocolFault::NotIdle)
        )
    ));
    let step = on_startup_item(
        completing(),
        SessionItem::Message(BackendMessage::BindComplete),
        BackendMessage::BindComplete,
    );
    assert!(matches!(step, ReadyStep::Receive(_)));
    let step = on_startup_item(
        completing(),
        ready_item(TransactionStatus::Idle, false),
        BackendMessage::BindComplete,
    );
    assert!(matches!(
        step,
        ReadyStep::Failed(
            "transport",
            EstablishFault::Protocol(ProtocolFault::UnfitReplacement)
        )
    ));
}

#[test]
fn replacements_keep_what_the_demux_added() {
    let item = SessionItem::CommandComplete {
        tag: Bytes::from_static(b"SELECT 1"),
        command: CommandIndex(2),
        notices: vec![],
    };
    assert_eq!(
        replace_session_item(
            item.clone(),
            BackendMessage::CommandComplete(Bytes::from_static(b"SELECT 9"))
        ),
        Some(SessionItem::CommandComplete {
            tag: Bytes::from_static(b"SELECT 9"),
            command: CommandIndex(2),
            notices: vec![],
        })
    );
    assert_eq!(
        replace_session_item(item, BackendMessage::BindComplete),
        None
    );
    let announced = SessionItem::Message(BackendMessage::BackendKeyData {
        process_id: 7,
        secret_key: Bytes::from_static(b"abcd"),
    });
    let key = announced_key(&announced).unwrap();
    assert_eq!(key.process_id, 7);
    assert_eq!(key.secret_key, Bytes::from_static(b"abcd"));
    assert!(announced_key(&SessionItem::Message(BackendMessage::BindComplete)).is_none());
}

#[test]
fn the_last_announced_key_is_captured() {
    let announcing = |process_id| {
        SessionItem::Message(BackendMessage::BackendKeyData {
            process_id,
            secret_key: Bytes::from_static(b"abcd"),
        })
    };
    let silent = SessionItem::Message(BackendMessage::BindComplete);
    assert!(capture_key(None, &silent).is_none());
    let first = capture_key(None, &announcing(7));
    let kept = capture_key(first, &silent);
    assert_eq!(kept.as_ref().map(|key| key.process_id), Some(7));
    let last = capture_key(kept, &announcing(9));
    assert_eq!(last.map(|key| key.process_id), Some(9));
}

#[test]
fn faults_are_classified() {
    assert_eq!(
        ProtocolFault::Authentication(AuthError::NulInPassword).kind(),
        ErrorKind::InvalidInput
    );
    assert_eq!(
        ProtocolFault::Authentication(AuthError::ResponseTooLarge).kind(),
        ErrorKind::InvalidInput
    );
    assert_eq!(
        ProtocolFault::Authentication(AuthError::EarlyContinuation).kind(),
        ErrorKind::InvalidData
    );
    assert_eq!(ProtocolFault::NotIdle.kind(), ErrorKind::InvalidData);
    assert_eq!(TlsFault::RequiredRejected.kind(), ErrorKind::PermissionDenied);
    assert_eq!(TlsFault::Terminated.kind(), ErrorKind::ConnectionAborted);
    assert_eq!(TlsFault::InvalidReply.kind(), ErrorKind::InvalidData);
    assert_eq!(QueryFault::Rejected.kind(), ErrorKind::Other);
    assert_eq!(QueryFault::IllegalResponse.kind(), ErrorKind::InvalidData);
    let encoding = QueryFault::Encoding(ProtocolError::NulInString);
    assert_eq!(encoding.kind(), ErrorKind::InvalidInput);
    assert_eq!(encoding.message(), ProtocolError::NulInString.message());
}

fn attempt(mode: Option<SslMode>) -> ConnectAttempt<&'static str> {
    match ConnectAttempt::new(
        ConnectTarget::new(String::from("primary")),
        StartupParameters::new(String::from("alice")),
        StartupParameters::empty(),
        mode,
    ) {
        Ok(attempt) => attempt,
        Err(_) => panic!("a user is given"),
    }
}

#[test]
fn a_plaintext_attempt_is_retried_with_tls_once() {
    let mut attempt = attempt(Some(SslMode::Allow));
    assert_eq!(attempt.begin_transport(), TlsStep::Plaintext);
    assert_eq!(attempt.context().tls(), Some(ClientTlsStatus::Plaintext));
    assert!(attempt.retries());
    assert_eq!(attempt.mode(), Some(SslMode::Require));
    assert_eq!(attempt.context().tls(), None);
    assert_eq!(attempt.begin_transport(), TlsStep::Request);
    assert_eq!(attempt.on_reply(b'S'), Ok(TlsStep::Handshake));
    attempt.encrypted();
    assert!(!attempt.retries());
    assert!(attempt.startup().parameters.contains_key(b"user"));
    assert!(attempt.context().identity_if_known().is_none());
    let key = CancelKey {
        process_id: 5,
        secret_key: Bytes::from_static(b"abcd"),
    };
    let context = attempt.finish("alice", Some(key.clone()));
    assert_eq!(context.identity(), &"alice");
    assert_eq!(context.identity_if_known(), Some(&"alice"));
    assert_eq!(context.tls(), Some(ClientTlsStatus::Encrypted));
    assert_eq!(context.target().name(), "primary");
    assert!(context.backend_key() == Some(&key));
}

#[test]
fn other_attempts_are_not_retried() {
    let mut plain = attempt(None);
    assert_eq!(plain.begin_transport(), TlsStep::Plaintext);
    assert!(!plain.retries());
    let mut preferring = attempt(Some(SslMode::Prefer));
    assert_eq!(preferring.begin_transport(), TlsStep::Request);
    assert_eq!(preferring.on_reply(b'N'), Ok(TlsStep::Plaintext));
    assert_eq!(preferring.context().tls(), Some(ClientTlsStatus::Plaintext));
    assert!(!preferring.retries());
    let mut requiring = attempt(Some(SslMode::Require));
    assert_eq!(requiring.on_reply(b'N'), Err(TlsFault::RequiredRejected));
    assert_eq!(requiring.context().tls(), None);
    assert!(matches!(
        ConnectAttempt::<()>::new(
            ConnectTarget::new(String::from("primary")),
            StartupParameters::empty(),
            StartupParameters::empty(),
            None,
        ),
        Err(StartupParameterError::MissingUser)
    ));
}

#[test]
fn cancellation_packets_carry_the_key() {
    let key = CancelKey {
        process_id: 1,
        secret_key: Bytes::from_static(&[9, 8, 7, 6]),
    };
    assert_eq!(
        cancellation_packet(&key).unwrap(),
        Bytes::from_static(&[0, 0, 0, 16, 4, 210, 22, 46, 0, 0, 0, 1, 9, 8, 7, 6])
    );
    let short = CancelKey {
        process_id: 1,
        secret_key: Bytes::from_static(&[9]),
    };
    assert!(cancellation_packet(&short).is_err());
}

#[test]
fn builders_name_the_first_missing_category() {
    assert!(matches!(
        Client::builder().build(),
        Err(BuildError::MissingConnector)
    ));
    assert!(matches!(
        Client::builder().connector("connector").build(),
        Err(BuildError::MissingTls)
    ));
    assert!(matches!(
        Client::builder()
            .connector("connector")
            .tls(ClientTlsPolicy::Disabled)
            .build(),
        Err(BuildError::MissingAuthentication)
    ));
}

#[test]
fn clients_prepare_attempts() {
    let Ok(client) = Client::builder()
        .connector("connector")
        .tls(ClientTlsPolicy::libpq(SslMode::Prefer, "material"))
        .authentication(TrustClientAuthentication)
        .startup_parameters(StartupParameters::new(String::from("app")))
        .protocol_limits(ProtocolLimits::default().without_frame_limit())
        .middleware(IdentityHandler)
        .build()
    else {
        panic!("every category is configured")
    };
    assert_eq!(client.connector(), &"connector");
    assert_eq!(client.tls().configured(), Some((SslMode::Prefer, &"material")));
    assert!(*client.authentication() == TrustClientAuthentication);
    assert_eq!(client.limits().frame_length(), 0x8000_0000);
    let Ok((handler, attempt)) = client.connect::<()>(
        ConnectTarget::new(String::from("primary")),
        StartupParameters::empty(),
    ) else {
        panic!("the defaults give a user")
    };
    assert_eq!(handler, MiddlewareChain(IdentityHandler, IdentityHandler));
    assert_eq!(attempt.mode(), Some(SslMode::Prefer));
    assert_eq!(
        attempt.startup().parameters.get(b"user"),
        Some(&Bytes::from_static(b"app"))
    );
}

fn connection<Handler>(
    handler: Handler,
) -> ClientConnection<&'static str, u32, ConnectionClean, (), Handler> {
    let context = ClientConnectionContext::new(ConnectTarget::new(String::from("primary")));
    ClientConnection::new(
        ClientConnectionCore::new(Conn::new("transport").transition(), handler, context),
        0,
    )
}

#[test]
fn simple_queries_run_until_readiness() {
    let Ok((run, frame)) = connection(IdentityHandler).simple_query(b"select 1") else {
        panic!("the query is encodable")
    };
    assert_eq!(frame.tag, b'Q');
    assert_eq!(frame.body, Bytes::from_static(b"select 1\0"));
    let complete = SessionItem::CommandComplete {
        tag: Bytes::from_static(b"SELECT 1"),
        command: CommandIndex(0),
        notices: vec![],
    };
    let QueryStep::Receive(run) = run.on_item(complete) else {
        panic!("a completion awaits readiness")
    };
    let QueryStep::Finished(connection, messages) =
        run.on_item(ready_item(TransactionStatus::Idle, false))
    else {
        panic!("readiness ends the query")
    };
    assert_eq!(
        messages,
        vec![
            BackendMessage::CommandComplete(Bytes::from_static(b"SELECT 1")),
            BackendMessage::ReadyForQuery(TransactionStatus::Idle),
        ]
    );
    assert_eq!(connection.state(), &0);
    assert_eq!(connection.into_parts().0, "transport");
}

fn query_failure(item: SessionItem) -> QueryFault {
    let Ok((run, _)) = connection(IdentityHandler).simple_query(b"select 1") else {
        panic!("the query is encodable")
    };
    match run.on_item(item) {
        QueryStep::Failed(transport, fault) => {
            assert_eq!(transport, "transport");
            fault
        }
        _ => panic!("the item ends the query"),
    }
}

#[test]
fn simple_queries_fail_on_errors_and_copy() {
    let copy = || CopyResponse {
        overall_format: 0,
        column_formats: vec![],
    };
    assert_eq!(
        query_failure(SessionItem::Message(error_response())),
        QueryFault::Rejected
    );
    assert_eq!(
        query_failure(SessionItem::Message(BackendMessage::CopyInResponse(copy()))),
        QueryFault::EnteredCopyIn
    );
    assert_eq!(
        query_failure(SessionItem::Message(BackendMessage::CopyOutResponse(copy()))),
        QueryFault::EnteredCopyOut
    );
    assert_eq!(
        query_failure(SessionItem::Message(BackendMessage::CopyBothResponse(
            copy()
        ))),
        QueryFault::EnteredCopyBoth
    );
    assert_eq!(
        query_failure(SessionItem::Message(BackendMessage::BindComplete)),
        QueryFault::IllegalResponse
    );
    assert!(matches!(
        connection(IdentityHandler).simple_query(b"a\0b"),
        Err(("transport", QueryFault::Encoding(ProtocolError::NulInString)))
    ));
}

/// Counts messages, and turns queries into the given message and completions into
/// readiness.
struct Meddler(FrontendMessage);

impl<C> ClientMiddleware<u32, C> for Meddler {
    fn pre_startup(
        &mut self,
        _context: &C,
        _state: &mut u32,
        message: PreStartupMessage,
    ) -> PreStartupMessage {
        message
    }

    fn startup(&mut self, _context: &C, _state: &mut u32, message: StartupMessage) -> StartupMessage {
        message
    }

    fn frontend(&mut self, _context: &C, state: &mut u32, _message: FrontendMessage) -> FrontendMessage {
        *state += 1;
        self.0.clone()
    }

    fn backend(&mut self, _context: &C, state: &mut u32, message: BackendMessage) -> BackendMessage {
        *state += 10;
        match message {
            BackendMessage::CommandComplete(_) => {
                BackendMessage::ReadyForQuery(TransactionStatus::Idle)
            }
            other => other,
        }
    }
}

#[test]
fn middleware_sees_queries_and_responses() {
    let replacement = FrontendMessage::Query(Bytes::from_static(b"select 2"));
    let Ok((run, frame)) = connection(Meddler(replacement.clone())).simple_query(b"select 1")
    else {
        panic!("the replacement is a query")
    };
    assert_eq!(frame.body, Bytes::from_static(b"select 2\0"));
    let QueryStep::Finished(connection_after, _) =
        run.on_item(ready_item(TransactionStatus::Idle, false))
    else {
        panic!("readiness ends the query")
    };
    assert_eq!(connection_after.state(), &11);

    assert!(matches!(
        connection(Meddler(FrontendMessage::Sync)).simple_query(b"select 1"),
        Err(("transport", QueryFault::IncompatibleQuery))
    ));

    let Ok((run, _)) = connection(Meddler(replacement)).simple_query(b"select 1") else {
        panic!("the replacement is a query")
    };
    let complete = SessionItem::CommandComplete {
        tag: Bytes::from_static(b"SELECT 1"),
        command: CommandIndex(0),
        notices: vec![],
    };
    assert!(matches!(
        run.on_item(complete),
        QueryStep::Failed("transport", QueryFault::UnfitReplacement)
    ));
}

#[test]
fn connections_hand_received_messages_to_middleware() {
    let mut connection = connection(Meddler(FrontendMessage::Sync));
    assert_eq!(
        connection.receive_wire(BackendMessage::BindComplete),
        BackendMessage::BindComplete
    );
    assert_eq!(connection.state(), &10);
    assert_eq!(connection.context().target().name(), "primary");
    *connection.transport_mut() = "other";
    let (transport, state, _, _) = connection.into_parts();
    assert_eq!(transport, "other");
    assert_eq!(state, 10);
}

#[test]
fn session_failures_are_attributed() {
    let policy: SessionEstablishError<&str, &str> =
        session_authentication_error(AuthenticationDriveError::Policy("policy"));
    assert!(matches!(
        policy,
        SessionEstablishError::Authentication(ClientAuthenticationError::Policy("policy"))
    ));
    let protocol: SessionEstablishError<&str, &str> =
        session_authentication_error(AuthenticationDriveError::Protocol("protocol"));
    assert!(matches!(protocol, SessionEstablishError::Protocol("protocol")));
    let rejected: SessionEstablishError<&str, &str> =
        session_authentication_error(AuthenticationDriveError::Rejected);
    let mapped: ConnectError<(), (), ClientAuthenticationError<&str>, &str> =
        map_session_error(rejected);
    assert!(matches!(
        mapped,
        ConnectError::Authentication(ClientAuthenticationError::Rejected)
    ));
    let mapped: ConnectError<(), (), ClientAuthenticationError<&str>, &str> =
        map_session_error(SessionEstablishError::Protocol("protocol"));
    assert!(matches!(mapped, ConnectError::Protocol("protocol")));
}

#[test]
fn trust_answers_no_credential_challenge() {
    let (pending, challenge) = ask(begin(), Authentication::CleartextPassword);
    let response = TrustClientAuthentication.respond(challenge);
    assert_eq!(response, ClientAuthenticationResponse::Verified);
    assert!(matches!(
        pending.on_answer(response),
        AnswerStep::Failed("transport", EstablishFault::InvalidResponse)
    ));
}

#[test]
fn handlers_see_establishment_messages_first() {
    let context: ClientConnectionContext<()> =
        ClientConnectionContext::new(ConnectTarget::new(String::from("primary")));
    let mut handler = Meddler(FrontendMessage::PasswordResponse(Bytes::from_static(b"other")));
    let mut count = 0;
    let request = BackendMessage::Authentication(Authentication::CleartextPassword);
    let MessageStep::Ask(pending, _) = begin().hear(&context, &mut count, &mut handler, request)
    else {
        panic!("a password is asked for")
    };
    assert_eq!(count, 10);
    let response = ClientAuthenticationResponse::Password(Bytes::from_static(b"secret"));
    let Ok((waiting, Some(frame))) = pending.reply(&context, &mut count, &mut handler, response)
    else {
        panic!("the response is sent")
    };
    assert_eq!(count, 11);
    assert_eq!(frame.body, Bytes::from_static(b"other\0"));
    let MessageStep::Authenticated(conn) =
        waiting.hear(&context, &mut count, &mut handler, accepted())
    else {
        panic!("the server accepted")
    };
    let ReadyStep::Ready(ready) = complete_startup(
        conn,
        &context,
        &mut count,
        &mut handler,
        ready_item(TransactionStatus::Idle, false),
    ) else {
        panic!("idle readiness completes startup")
    };
    assert_eq!(count, 31);
    assert_eq!(ready.into_transport(), "transport");

    let (pending, _) = ask(begin(), Authentication::CleartextPassword);
    let mut spoiling = Meddler(FrontendMessage::Sync);
    let response = ClientAuthenticationResponse::Password(Bytes::from_static(b"secret"));
    assert!(matches!(
        pending.reply(&context, &mut count, &mut spoiling, response),
        Err(EstablishFault::InvalidResponse)
    ));
    let (pending, _) = ask(begin(), Authentication::CleartextPassword);
    assert!(matches!(
        pending.reply(
            &context,
            &mut count,
            &mut spoiling,
            ClientAuthenticationResponse::Verified
        ),
        Err(EstablishFault::InvalidResponse)
    ));
    assert_eq!(count, 32);
}

#[test]
fn handlers_see_opening_packets_first() {
    let attempt = attempt(Some(SslMode::Require));
    let mut handler = IdentityHandler;
    assert_eq!(
        attempt.ssl_request(&mut (), &mut handler),
        Ok(Bytes::from_static(&[0, 0, 0, 8, 4, 210, 22, 47]))
    );
    let message = attempt.opening_message(&mut (), &mut handler);
    assert_eq!(
        message.parameters.get(b"user"),
        Some(&Bytes::from_static(b"alice"))
    );
}
