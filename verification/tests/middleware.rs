use bytes::Bytes;
use pg_proto::codec::{BackendMessage, FrontendMessage, Parse};
use pg_proto::grammar::{
    authentication, backend, frontend, pre_startup as pre_startup_grammar, server_authentication,
    server_pre_startup,
};
use pg_proto::middleware::{
    check_inbound, check_interception, check_outbound, first_stage, readmit, second_stage,
    AcceptsMessage, AsynchronousBackendMessage, ChainError, ClientRole, Identity, Inbound,
    InterceptError, Middleware, Outbound, PhaseAssociation, PhaseMessage, ReconstructableMessage,
    ServerRole, Then, TypedBackendMessage, TypedReceiveError, WireAdapter, WireAdapterError,
};
use pg_proto::pre_startup::{EncryptionReply, PreStartupMessage};
use pg_proto::{auth, pre_startup, server_auth, server_session, session};

#[test]
fn generated_states_cover_authentication_extended_query_copy_and_replication() {
    let password = FrontendMessage::PasswordResponse(Bytes::from_static(b"secret"));
    assert!(server_authentication::RuntimeState::PasswordResponse.accepts(&password));
    assert!(
        !server_authentication::RuntimeState::PasswordResponse
            .accepts(&FrontendMessage::Query(Bytes::from_static(b"select 1")))
    );

    let parse = FrontendMessage::Parse(Parse {
        statement: Bytes::from_static(b"statement"),
        query: Bytes::from_static(b"select 1"),
        parameter_types: Vec::new(),
    });
    assert!(backend::RuntimeState::Building.accepts(&parse));
    assert!(
        !backend::RuntimeState::Building
            .accepts(&FrontendMessage::Query(Bytes::from_static(b"select 1")))
    );
    assert!(backend::RuntimeState::ExtendedError.accepts(&parse));
    assert!(backend::RuntimeState::ExtendedError.accepts(&FrontendMessage::Sync));

    let copy = FrontendMessage::CopyData(Bytes::from_static(b"data"));
    assert!(backend::RuntimeState::SimpleCopyIn.accepts(&copy));
    assert!(backend::RuntimeState::ExtendedCopyBoth.accepts(&copy));
    assert!(
        !backend::RuntimeState::ExtendedCopyBoth
            .accepts(&FrontendMessage::Query(Bytes::from_static(b"select 1")))
    );

    assert!(
        server_pre_startup::RuntimeState::PreStartup.accepts(&PreStartupMessage::SslRequest)
    );
    assert!(
        !server_pre_startup::RuntimeState::SslDecision.accepts(&PreStartupMessage::SslRequest)
    );
}

fn inbound<Connection, Role, Wire>()
where
    Connection: PhaseAssociation<Inbound, Role, Wire>,
{
}

fn outbound<Connection, Role, Wire>()
where
    Connection: PhaseAssociation<Outbound, Role, Wire>,
{
}

fn exact<Connection, Direction, Role, Wire, ProtocolPhase, Message>()
where
    Connection: PhaseAssociation<
        Direction,
        Role,
        Wire,
        ProtocolPhase = ProtocolPhase,
        Message = Message,
    >,
    Message: PhaseMessage<Wire>,
{
}

#[test]
fn grammar_associations_cover_inbound_and_outbound_typestate_indices() {
    exact::<
        auth::Ready,
        Inbound,
        ServerRole,
        BackendMessage,
        frontend::Ready,
        TypedBackendMessage<frontend::ReadyExternalMessage>,
    >();
    exact::<
        auth::Ready,
        Outbound,
        ClientRole,
        FrontendMessage,
        frontend::Ready,
        frontend::ReadyInternalMessage,
    >();
    exact::<
        auth::Ready,
        Inbound,
        ClientRole,
        FrontendMessage,
        backend::Ready,
        backend::ReadyExternalMessage,
    >();
    exact::<
        server_session::ServerFunctionCallDone,
        Outbound,
        ServerRole,
        BackendMessage,
        backend::FunctionReady,
        TypedBackendMessage<backend::FunctionReadyInternalMessage>,
    >();
    exact::<
        pre_startup::AwaitingSslReply,
        Inbound,
        ServerRole,
        EncryptionReply,
        pre_startup_grammar::AwaitingSslReply,
        pre_startup_grammar::AwaitingSslReplyExternalMessage,
    >();
    exact::<
        pre_startup::PreStartup,
        Outbound,
        ClientRole,
        PreStartupMessage,
        pre_startup_grammar::PreStartup,
        pre_startup_grammar::PreStartupInternalMessage,
    >();
    exact::<
        pre_startup::PreStartup,
        Inbound,
        ClientRole,
        PreStartupMessage,
        server_pre_startup::PreStartup,
        server_pre_startup::PreStartupExternalMessage,
    >();
    exact::<
        pre_startup::ServerSslDecision,
        Outbound,
        ServerRole,
        EncryptionReply,
        server_pre_startup::SslDecision,
        server_pre_startup::SslDecisionInternalMessage,
    >();
    exact::<
        auth::Auth,
        Inbound,
        ServerRole,
        BackendMessage,
        authentication::Auth,
        TypedBackendMessage<authentication::AuthExternalMessage>,
    >();
    exact::<
        auth::PasswordResponse,
        Outbound,
        ClientRole,
        FrontendMessage,
        authentication::PasswordResponse,
        authentication::PasswordResponseInternalMessage,
    >();
    exact::<
        server_auth::ServerAuth,
        Inbound,
        ClientRole,
        FrontendMessage,
        server_authentication::Auth,
        server_authentication::AuthExternalMessage,
    >();
    exact::<
        server_auth::ServerAuth,
        Outbound,
        ServerRole,
        BackendMessage,
        server_authentication::Auth,
        TypedBackendMessage<server_authentication::AuthInternalMessage>,
    >();

    inbound::<auth::Ready, ServerRole, BackendMessage>();
    inbound::<auth::Ready, ClientRole, FrontendMessage>();
    outbound::<auth::Ready, ClientRole, FrontendMessage>();
    inbound::<pre_startup::PreStartup, ClientRole, PreStartupMessage>();
    outbound::<pre_startup::PreStartup, ClientRole, PreStartupMessage>();
    inbound::<server_auth::ServerAuth, ClientRole, FrontendMessage>();
    outbound::<server_auth::ServerAuth, ServerRole, BackendMessage>();
    inbound::<session::CopyBoth, ServerRole, BackendMessage>();
    outbound::<session::CopyBoth, ClientRole, FrontendMessage>();

    inbound::<auth::Auth, ServerRole, BackendMessage>();
    inbound::<auth::TokenChallenge, ServerRole, BackendMessage>();
    inbound::<auth::Sasl, ServerRole, BackendMessage>();
    inbound::<auth::AwaitingAuthOk, ServerRole, BackendMessage>();
    inbound::<auth::AwaitingStartupReady, ServerRole, BackendMessage>();
    inbound::<session::SimpleQuery, ServerRole, BackendMessage>();
    inbound::<session::FunctionCalling, ServerRole, BackendMessage>();
    inbound::<session::Building, ServerRole, BackendMessage>();
    inbound::<session::BoundBuilding, ServerRole, BackendMessage>();
    inbound::<session::AwaitingReady, ServerRole, BackendMessage>();
    inbound::<session::CopyIn, ServerRole, BackendMessage>();
    inbound::<session::CopyOut, ServerRole, BackendMessage>();
    inbound::<session::CopyBothClientDone, ServerRole, BackendMessage>();
    inbound::<session::CopyBothServerDone, ServerRole, BackendMessage>();
    inbound::<session::Draining, ServerRole, BackendMessage>();
    inbound::<session::Resetting, ServerRole, BackendMessage>();
    inbound::<session::ResetComplete, ServerRole, BackendMessage>();

    outbound::<auth::PasswordResponse, ClientRole, FrontendMessage>();
    outbound::<auth::TokenResponse, ClientRole, FrontendMessage>();
    outbound::<auth::SaslInitial, ClientRole, FrontendMessage>();
    outbound::<auth::SaslChallenge, ClientRole, FrontendMessage>();
    outbound::<session::Building, ClientRole, FrontendMessage>();
    outbound::<session::BoundBuilding, ClientRole, FrontendMessage>();
    outbound::<session::CopyIn, ClientRole, FrontendMessage>();
    outbound::<session::CopyBothServerDone, ClientRole, FrontendMessage>();
    outbound::<pre_startup::ServerSslDecision, ServerRole, EncryptionReply>();
    outbound::<pre_startup::ServerGssDecision, ServerRole, EncryptionReply>();

    inbound::<pre_startup::AwaitingSslReply, ServerRole, EncryptionReply>();
    inbound::<pre_startup::AwaitingGssReply, ServerRole, EncryptionReply>();
    inbound::<server_auth::ServerPassword, ClientRole, FrontendMessage>();
    inbound::<server_auth::ServerSaslInitial, ClientRole, FrontendMessage>();
    inbound::<server_auth::ServerSaslResponse, ClientRole, FrontendMessage>();
    inbound::<server_auth::ServerAuthResponse, ClientRole, FrontendMessage>();
    inbound::<server_auth::ServerStartupReady, ClientRole, FrontendMessage>();
    inbound::<server_session::ServerBuilding, ClientRole, FrontendMessage>();
    inbound::<server_session::ServerExtendedError, ClientRole, FrontendMessage>();
    inbound::<
        server_session::ServerCopyIn<server_session::CopySimple>,
        ClientRole,
        FrontendMessage,
    >();
    inbound::<
        server_session::ServerCopyIn<server_session::CopyExtended>,
        ClientRole,
        FrontendMessage,
    >();
    inbound::<
        server_session::ServerCopyBoth<
            server_session::CopySimple,
            server_session::BothOpen,
        >,
        ClientRole,
        FrontendMessage,
    >();
    inbound::<
        server_session::ServerCopyBoth<
            server_session::CopyExtended,
            server_session::BothOpen,
        >,
        ClientRole,
        FrontendMessage,
    >();
    inbound::<
        server_session::ServerCopyBoth<
            server_session::CopySimple,
            server_session::BothServerDone,
        >,
        ClientRole,
        FrontendMessage,
    >();
    inbound::<
        server_session::ServerCopyBoth<
            server_session::CopyExtended,
            server_session::BothServerDone,
        >,
        ClientRole,
        FrontendMessage,
    >();

    outbound::<server_auth::ServerStartupRejected, ServerRole, BackendMessage>();
    outbound::<server_auth::ServerPassword, ServerRole, BackendMessage>();
    outbound::<server_auth::ServerSaslInitial, ServerRole, BackendMessage>();
    outbound::<server_auth::ServerSasl, ServerRole, BackendMessage>();
    outbound::<server_auth::ServerSaslResponse, ServerRole, BackendMessage>();
    outbound::<server_auth::ServerAuthResponse, ServerRole, BackendMessage>();
    outbound::<server_auth::ServerAuthPolicy, ServerRole, BackendMessage>();
    outbound::<server_auth::ServerStartupReady, ServerRole, BackendMessage>();
    outbound::<server_session::ServerSimpleQuery, ServerRole, BackendMessage>();
    outbound::<server_session::ServerSimpleError, ServerRole, BackendMessage>();
    outbound::<server_session::ServerFunctionCall, ServerRole, BackendMessage>();
    outbound::<server_session::ServerFunctionCallDone, ServerRole, BackendMessage>();
    outbound::<server_session::ServerFunctionCallError, ServerRole, BackendMessage>();
    outbound::<server_session::ServerParse, ServerRole, BackendMessage>();
    outbound::<server_session::ServerBind, ServerRole, BackendMessage>();
    outbound::<server_session::ServerDescribe, ServerRole, BackendMessage>();
    outbound::<server_session::ServerExecute, ServerRole, BackendMessage>();
    outbound::<server_session::ServerClose, ServerRole, BackendMessage>();
    outbound::<server_session::ServerSync, ServerRole, BackendMessage>();
    outbound::<server_session::ServerBuilding, ServerRole, BackendMessage>();
    outbound::<server_session::ServerExtendedError, ServerRole, BackendMessage>();
    outbound::<
        server_session::ServerCopyIn<server_session::CopySimple>,
        ServerRole,
        BackendMessage,
    >();
    outbound::<
        server_session::ServerCopyIn<server_session::CopyExtended>,
        ServerRole,
        BackendMessage,
    >();
    outbound::<
        server_session::ServerCopyInDone<server_session::CopySimple>,
        ServerRole,
        BackendMessage,
    >();
    outbound::<
        server_session::ServerCopyInDone<server_session::CopyExtended>,
        ServerRole,
        BackendMessage,
    >();
    outbound::<
        server_session::ServerCopyInFailed<server_session::CopySimple>,
        ServerRole,
        BackendMessage,
    >();
    outbound::<
        server_session::ServerCopyInFailed<server_session::CopyExtended>,
        ServerRole,
        BackendMessage,
    >();
    outbound::<
        server_session::ServerCopyOut<server_session::CopySimple>,
        ServerRole,
        BackendMessage,
    >();
    outbound::<
        server_session::ServerCopyOut<server_session::CopyExtended>,
        ServerRole,
        BackendMessage,
    >();
    outbound::<
        server_session::ServerCopyOutDone<server_session::CopySimple>,
        ServerRole,
        BackendMessage,
    >();
    outbound::<
        server_session::ServerCopyOutDone<server_session::CopyExtended>,
        ServerRole,
        BackendMessage,
    >();
    outbound::<
        server_session::ServerCopyBoth<
            server_session::CopySimple,
            server_session::BothOpen,
        >,
        ServerRole,
        BackendMessage,
    >();
    outbound::<
        server_session::ServerCopyBoth<
            server_session::CopyExtended,
            server_session::BothOpen,
        >,
        ServerRole,
        BackendMessage,
    >();
    outbound::<
        server_session::ServerCopyBoth<
            server_session::CopySimple,
            server_session::BothClientDone,
        >,
        ServerRole,
        BackendMessage,
    >();
    outbound::<
        server_session::ServerCopyBoth<
            server_session::CopyExtended,
            server_session::BothClientDone,
        >,
        ServerRole,
        BackendMessage,
    >();
    outbound::<
        server_session::ServerCopyBoth<
            server_session::CopySimple,
            server_session::BothServerDone,
        >,
        ServerRole,
        BackendMessage,
    >();
    outbound::<
        server_session::ServerCopyBoth<
            server_session::CopyExtended,
            server_session::BothServerDone,
        >,
        ServerRole,
        BackendMessage,
    >();
    outbound::<
        server_session::ServerCopyBoth<
            server_session::CopySimple,
            server_session::BothDone,
        >,
        ServerRole,
        BackendMessage,
    >();
    outbound::<
        server_session::ServerCopyBoth<
            server_session::CopyExtended,
            server_session::BothDone,
        >,
        ServerRole,
        BackendMessage,
    >();
    outbound::<
        server_session::ServerCopyBothFailed<server_session::CopySimple>,
        ServerRole,
        BackendMessage,
    >();
    outbound::<
        server_session::ServerCopyBothFailed<server_session::CopyExtended>,
        ServerRole,
        BackendMessage,
    >();
}

type SimpleResponse = TypedBackendMessage<frontend::ExternalMessage<frontend::Simple>>;
type ReadyRequest = backend::ExternalMessage<backend::Ready>;
type BuildingRequest = backend::ExternalMessage<backend::Building>;

fn query(text: &'static [u8]) -> FrontendMessage {
    FrontendMessage::Query(Bytes::from_static(text))
}

fn parse(statement: &'static [u8], text: &'static [u8]) -> FrontendMessage {
    FrontendMessage::Parse(Parse {
        statement: Bytes::from_static(statement),
        query: Bytes::from_static(text),
        parameter_types: Vec::new(),
    })
}

#[test]
fn checked_interception_accepts_a_legal_replacement() {
    let outcome = Ok::<_, &'static str>(FrontendMessage::Terminate);
    assert_eq!(
        check_interception(&backend::RuntimeState::Ready, outcome),
        Ok(FrontendMessage::Terminate)
    );
}

#[test]
fn checked_interception_returns_an_illegal_replacement() {
    let replacement = parse(b"", b"select 2");
    let expected = replacement.clone();
    assert_eq!(
        check_interception(
            &backend::RuntimeState::Simple,
            Ok::<_, &'static str>(replacement)
        ),
        Err(InterceptError::Invalid(expected))
    );
}

#[test]
fn checked_interception_rejects_an_unencodable_message() {
    let invalid = parse(b"invalid\0name", b"select 1");
    let expected = invalid.clone();
    assert_eq!(
        check_interception(&backend::RuntimeState::Ready, Ok::<_, &'static str>(invalid)),
        Err(InterceptError::Invalid(expected))
    );
}

#[test]
fn a_middleware_error_outlives_the_check() {
    assert_eq!(
        check_interception(
            &backend::RuntimeState::Ready,
            Err::<FrontendMessage, _>("refused")
        ),
        Err(InterceptError::Middleware("refused"))
    );
}

#[test]
fn asynchronous_traffic_is_legal_in_every_state() {
    let status = BackendMessage::ParameterStatus {
        name: Bytes::from_static(b"TimeZone"),
        value: Bytes::from_static(b"UTC"),
    };
    assert!(frontend::RuntimeState::Ready.accepts(&status));
    assert!(frontend::RuntimeState::CopyBoth.accepts(&status));
    assert!(backend::RuntimeState::Ready.accepts(&status));
    let complete = BackendMessage::CommandComplete(Bytes::from_static(b"SELECT 1"));
    assert!(!frontend::RuntimeState::Ready.accepts(&complete));
    assert!(!backend::RuntimeState::Ready.accepts(&complete));

    let Ok(admitted) = AsynchronousBackendMessage::try_from(status.clone()) else {
        panic!("parameter status is asynchronous")
    };
    assert_eq!(admitted.as_wire(), &status);
    assert_eq!(admitted.into_wire(), status);
    let Err(returned) = AsynchronousBackendMessage::try_from(complete.clone()) else {
        panic!("a completion is not asynchronous")
    };
    assert_eq!(returned, complete);
}

#[test]
fn typed_messages_keep_their_wire_form() {
    let complete = BackendMessage::CommandComplete(Bytes::from_static(b"SELECT 1"));
    let Ok(message) = SimpleResponse::try_from_wire(complete.clone()) else {
        panic!("a completion answers a simple query")
    };
    assert!(matches!(message, TypedBackendMessage::Protocol(_)));
    assert_eq!(message.wire_ref(), &complete);
    assert_eq!(message.into_wire_message(), complete);
    let notice = BackendMessage::NotificationResponse {
        process_id: 1,
        channel: Bytes::from_static(b"c"),
        payload: Bytes::from_static(b"p"),
    };
    let Ok(message) = SimpleResponse::try_from_wire(notice.clone()) else {
        panic!("asynchronous traffic is admitted")
    };
    assert!(matches!(message, TypedBackendMessage::Asynchronous(_)));
    assert_eq!(message.into_wire_message(), notice);
    let Err(returned) = SimpleResponse::try_from_wire(BackendMessage::BindComplete) else {
        panic!("a simple query has no bind response")
    };
    assert_eq!(returned, BackendMessage::BindComplete);
}

#[test]
fn wire_replacements_are_readmitted_to_their_phase() {
    let kept: Result<ReadyRequest, WireAdapterError<&str, FrontendMessage>> =
        readmit(Ok(query(b"select 1")));
    assert_eq!(kept.ok().map(PhaseMessage::into_wire_message), Some(query(b"select 1")));
    let illegal: Result<ReadyRequest, WireAdapterError<&str, FrontendMessage>> =
        readmit(Ok(FrontendMessage::CopyDone));
    assert_eq!(
        illegal.err(),
        Some(WireAdapterError::IllegalReplacement(FrontendMessage::CopyDone))
    );
    let refused: Result<ReadyRequest, WireAdapterError<&str, FrontendMessage>> = readmit(Err("refused"));
    assert_eq!(refused.err(), Some(WireAdapterError::Middleware("refused")));

    let mut adapter = WireAdapter::new(3);
    *adapter.handler_mut() += 1;
    assert_eq!(adapter.into_inner(), 4);
}

#[test]
fn typed_messages_are_checked_at_both_ends() {
    let received: Result<BuildingRequest, TypedReceiveError<&str, FrontendMessage, &str>> =
        check_inbound(FrontendMessage::Sync);
    assert_eq!(
        received.ok().map(PhaseMessage::into_wire_message),
        Some(FrontendMessage::Sync)
    );
    let illegal: Result<BuildingRequest, TypedReceiveError<&str, FrontendMessage, &str>> =
        check_inbound(query(b"select 1"));
    assert_eq!(
        illegal.err(),
        Some(TypedReceiveError::Illegal(query(b"select 1")))
    );

    let admitted = |message| match BuildingRequest::try_from_wire(message) {
        Ok(message) => message,
        Err(_) => panic!("the message is legal while building"),
    };
    let sent: Result<BuildingRequest, TypedReceiveError<&str, FrontendMessage, &str>> =
        check_outbound(Ok(admitted(parse(b"s", b"select 1"))));
    assert!(sent.is_ok());
    let invalid: Result<BuildingRequest, TypedReceiveError<&str, FrontendMessage, &str>> =
        check_outbound(Ok(admitted(parse(b"bad\0name", b"select 1"))));
    assert_eq!(
        invalid.err(),
        Some(TypedReceiveError::InvalidWire(parse(b"bad\0name", b"select 1")))
    );
    let refused: Result<BuildingRequest, TypedReceiveError<&str, FrontendMessage, &str>> =
        check_outbound(Err("refused"));
    assert_eq!(refused.err(), Some(TypedReceiveError::Middleware("refused")));
}

#[test]
fn chains_attribute_failures_to_their_stage() {
    let passed: Result<_, ChainError<&str, u8>> = first_stage(Ok("m1"));
    assert_eq!(passed, Ok("m1"));
    let failed: Result<&str, ChainError<&str, u8>> = first_stage(Err("rejected"));
    assert_eq!(failed, Err(ChainError::First("rejected")));
    let passed: Result<_, ChainError<&str, u8>> = second_stage(Ok("m12"));
    assert_eq!(passed, Ok("m12"));
    let failed: Result<&str, ChainError<&str, u8>> = second_stage(Err(7));
    assert_eq!(failed, Err(ChainError::Second(7)));

    let mut chain = Then::new(1, "x");
    let (first, second) = chain.parts_mut();
    *first += 1;
    *second = "y";
    assert_eq!(chain, Then { first: 2, second: "y" });
}

#[test]
fn middleware_owns_its_state_and_handler() {
    let mut middleware = Middleware::new(vec!["seen"], Identity);
    assert_eq!(middleware.state(), &["seen"]);
    assert_eq!(middleware.handler(), &Identity);
    middleware.state_mut().push("again");
    *middleware.handler_mut() = Identity;
    let (state, _) = middleware.parts_mut();
    state.push("third");
    assert_eq!(middleware.into_parts(), (vec!["seen", "again", "third"], Identity));
}

#[test]
fn reconstructable_messages_have_a_wire_form() {
    assert!(query(b"select 1").is_reconstructable());
    assert!(!query(b"select\0 1").is_reconstructable());
    assert!(EncryptionReply::Accepted.is_reconstructable());
    assert!(PreStartupMessage::SslRequest.is_reconstructable());
    assert!(BackendMessage::BindComplete.is_reconstructable());
    assert!(!BackendMessage::CommandComplete(Bytes::from_static(b"a\0b")).is_reconstructable());
}
