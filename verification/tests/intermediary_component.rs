//! The intermediary component: forwarding, holding, acceptance and cancellation.

use std::cell::RefCell;

use bytes::Bytes;
use pg_proto::cancel::CancellationRequest;
use pg_proto::client_component::{
    ClientConnectionContext, ClientConnectionCore, ConnectTarget, ConnectionClean,
    ParameterTextError, StartupParameters,
};
use pg_proto::codec::{
    BackendMessage, DataRow, DiagnosticField, DiagnosticResponse, FrontendMessage, Parse,
    TransactionStatus,
};
use pg_proto::conn::Conn;
use pg_proto::demux::CancelKey;
use pg_proto::error::ProtocolError;
use pg_proto::intermediary_component::acceptance::{Acceptance, CancellationStep, FailurePoint};
use pg_proto::intermediary_component::forwarding::{
    is_backend_batch_barrier, keep_holding, BackendDecision, ForwardSource, Forwarding, LocalStep,
};
use pg_proto::intermediary_component::policy::safe_establishment_diagnostic;
use pg_proto::intermediary_component::{
    AllowAuthenticatedRoute, AuthenticatedRouteContext, BackendBatchForwarding,
    BackendBatchOutput, BackendBatchProjectionError, BackendFlushReason, BackendForwarding,
    BackendHoldConfigError,
    BackendHoldLimits, BackendMiddlewareOutput, CancellationPolicy, CancellationRoute,
    EstablishmentFailurePolicy, ForwardError, ForwardedMessage, FrontendForwarding,
    FrontendMiddlewareOutput,
    IdentityIntermediaryMiddleware, InitialServerContext, Intermediary, IntermediaryAccept,
    IntermediaryAcceptError, IntermediaryBuildError, IntermediaryCancellationRegistry,
    IntermediaryConnection, IntermediaryContexts, IntermediaryMiddlewareFactory,
    RejectCancellation, RelayedResponse, ServerConnectionCore, StartupResolutionError,
};
use pg_proto::pipeline::{BackendSequenceError, BoundedPipeline, NoPipeline};
use pg_proto::pre_startup::PreStartupMessage;
use pg_proto::runtime_middleware::{ClientMiddleware, ServerMiddleware};
use pg_proto::startup::StartupMessage;

type Failure = ForwardError<&'static str, &'static str>;

fn query() -> FrontendMessage {
    FrontendMessage::Query(Bytes::from_static(b"select 1"))
}

fn parse() -> FrontendMessage {
    FrontendMessage::Parse(Parse {
        statement: Bytes::new(),
        query: Bytes::from_static(b"select 1"),
        parameter_types: vec![],
    })
}

fn row(text: &'static [u8]) -> BackendMessage {
    BackendMessage::DataRow(DataRow {
        columns: vec![Some(Bytes::from_static(text))],
    })
}

fn complete() -> BackendMessage {
    BackendMessage::CommandComplete(Bytes::from_static(b"SELECT 1"))
}

fn ready() -> BackendMessage {
    BackendMessage::ReadyForQuery(TransactionStatus::Idle)
}

fn limits(messages: usize) -> Option<BackendHoldLimits> {
    Some(BackendHoldLimits::new(messages, 1 << 20).unwrap())
}

fn forwarded(forwarding: &mut Forwarding<NoPipeline>, message: FrontendMessage) {
    let result: Result<_, Failure> = forwarding.forward_frontend(message.clone());
    assert!(matches!(result, Ok(FrontendForwarding::Forwarded(sent)) if sent == message));
}

#[test]
fn hold_limits_are_positive() {
    assert_eq!(BackendHoldLimits::new(0, 1), Err(BackendHoldConfigError));
    assert_eq!(BackendHoldLimits::new(1, 0), Err(BackendHoldConfigError));
    let bounds = BackendHoldLimits::new(2, 3).unwrap();
    assert_eq!(bounds.max_messages(), 2);
    assert_eq!(bounds.max_bytes(), 3);
    assert_eq!(
        BackendHoldConfigError.message(),
        "backend hold limits must be non-zero"
    );
}

#[test]
fn barriers_are_boundaries_and_asynchronous_traffic() {
    assert!(is_backend_batch_barrier(&complete()));
    assert!(is_backend_batch_barrier(&ready()));
    assert!(is_backend_batch_barrier(&BackendMessage::CopyDone));
    assert!(is_backend_batch_barrier(&BackendMessage::ParameterStatus {
        name: Bytes::new(),
        value: Bytes::new(),
    }));
    assert!(!is_backend_batch_barrier(&row(b"1")));
    assert!(!is_backend_batch_barrier(&BackendMessage::BindComplete));
}

#[test]
fn a_request_without_capacity_waits_for_its_turn() {
    let mut forwarding = Forwarding::new(NoPipeline, None);
    assert_eq!(forwarding.forward_next(), ForwardSource::Either);
    forwarded(&mut forwarding, query());
    let refused: Result<_, Failure> = forwarding.forward_frontend(query());
    assert!(matches!(refused, Err(ForwardError::Frontend(_))));
    assert_eq!(forwarding.forward_next(), ForwardSource::Backend);
    for response in [complete(), ready()] {
        let sent: Result<_, Failure> = forwarding.advance_backend(response.clone());
        assert!(matches!(sent, Ok(message) if message == response));
    }
    assert_eq!(forwarding.forward_next(), ForwardSource::PendingFrontend);
    assert_eq!(forwarding.take_pending_frontend(), Some(query()));
    assert_eq!(forwarding.forward_next(), ForwardSource::Either);
}

#[test]
fn responses_to_nothing_are_illegal() {
    let mut forwarding = Forwarding::new(NoPipeline, None);
    let result: Result<_, Failure> = forwarding.advance_backend(complete());
    let Err(ForwardError::Backend(error)) = result else {
        panic!("nothing was asked")
    };
    assert_eq!(error.message, complete());
}

#[test]
fn local_responses_await_their_operation() {
    let policy = BoundedPipeline::new(4).unwrap();
    let mut forwarding = Forwarding::new(policy, None);
    let sent: Result<_, Failure> = forwarding.forward_frontend(parse());
    assert!(matches!(sent, Ok(FrontendForwarding::Forwarded(_))));
    let admitted: Result<_, Failure> = forwarding.admit_local(parse());
    let Ok(operation) = admitted else {
        panic!("there is capacity")
    };
    forwarding.queue_local(operation, vec![BackendMessage::ParseComplete]);
    assert!(matches!(forwarding.flush_local_responses(), LocalStep::Idle));
    let answered: Result<_, Failure> = forwarding.advance_backend(BackendMessage::ParseComplete);
    assert!(answered.is_ok());
    assert!(matches!(
        forwarding.flush_local_responses(),
        LocalStep::Send(BackendMessage::ParseComplete)
    ));
    assert!(matches!(forwarding.flush_local_responses(), LocalStep::Idle));

    let admitted: Result<_, Failure> = forwarding.admit_local(parse());
    let Ok(operation) = admitted else {
        panic!("there is capacity")
    };
    forwarding.queue_local(operation, vec![BackendMessage::BindComplete]);
    assert!(matches!(
        forwarding.flush_local_responses(),
        LocalStep::Refused(error) if error.message == BackendMessage::BindComplete
    ));
    let refused: Result<_, Failure> = forwarding.admit_local(query());
    assert!(matches!(refused, Err(ForwardError::Frontend(_))));
}

#[test]
fn boundary_decisions_are_carried_out() {
    let mut forwarding = Forwarding::new(NoPipeline, limits(4));
    forwarded(&mut forwarding, query());
    assert!(!forwarding.receive_backend(row(b"1")));
    assert_eq!(forwarding.forward_next(), ForwardSource::PendingBackend);
    assert_eq!(forwarding.pending_backend(), Some(row(b"1")));
    let empty: Result<_, Failure> =
        forwarding.decide_backend(BackendMiddlewareOutput::Expand(vec![]));
    assert!(matches!(empty, Err(ForwardError::EmptyExpansion(source)) if source == row(b"1")));
    assert_eq!(forwarding.pending_backend(), Some(row(b"1")));
    let expanded: Result<_, Failure> =
        forwarding.decide_backend(BackendMiddlewareOutput::Expand(vec![row(b"2"), row(b"3")]));
    assert!(matches!(
        expanded,
        Ok(BackendDecision::EmitAll { source, messages })
            if source == row(b"1") && messages == vec![row(b"2"), row(b"3")]
    ));
    assert_eq!(forwarding.pending_backend(), None);

    assert!(!forwarding.receive_backend(row(b"4")));
    let suppressed: Result<_, Failure> =
        forwarding.decide_backend(BackendMiddlewareOutput::Suppress(row(b"5")));
    assert!(matches!(suppressed, Ok(BackendDecision::Advance(message)) if message == row(b"5")));
    assert!(!forwarding.receive_backend(row(b"6")));
    let emitted: Result<_, Failure> =
        forwarding.decide_backend(BackendMiddlewareOutput::Forward(row(b"7")));
    assert!(matches!(emitted, Ok(BackendDecision::Emit(message)) if message == row(b"7")));
    assert!(forwarding.is_settled());
}

fn holding(messages: usize) -> Forwarding<NoPipeline> {
    let mut forwarding = Forwarding::new(NoPipeline, limits(messages));
    forwarded(&mut forwarding, query());
    for text in [b"1", b"2"] {
        forwarding.receive_backend(row(text));
        let held: Result<_, Failure> = forwarding.decide_backend(BackendMiddlewareOutput::Hold);
        assert!(matches!(held, Ok(BackendDecision::Held)));
    }
    forwarding
}

#[test]
fn held_responses_keep_their_order_until_released() {
    let mut forwarding = holding(4);
    assert!(!forwarding.is_settled());
    let held = forwarding.held_backend_messages();
    assert_eq!(held.len(), 2);
    assert!(!held.is_empty());
    assert!(held.bytes() > 0);
    let listed: Vec<BackendMessage> = held.iter().cloned().collect();
    assert_eq!(listed, vec![row(b"1"), row(b"2")]);
    assert!(forwarding.receive_backend(complete()));
    let released: Result<_, Failure> = forwarding.release_hold(vec![row(b"8"), row(b"9")]);
    assert!(matches!(released, Ok(sent) if sent == vec![row(b"8"), row(b"9")]));
    assert!(forwarding.held_backend_messages().is_empty());
    let emitted: Result<_, Failure> =
        forwarding.decide_backend(BackendMiddlewareOutput::Forward(complete()));
    assert!(matches!(emitted, Ok(BackendDecision::Emit(_))));
    assert!(forwarding.is_settled());
}

#[test]
fn failed_releases_change_nothing() {
    let mut forwarding = holding(2);
    assert!(forwarding.backend_hold_is_full());
    assert_eq!(forwarding.forward_next(), ForwardSource::FullHold);
    let short: Result<_, Failure> = forwarding.release_hold(vec![row(b"8")]);
    assert!(matches!(
        short,
        Err(ForwardError::BackendBatch {
            error: BackendBatchProjectionError::Cardinality {
                expected: 2,
                actual: 1
            },
            proposed
        }) if proposed == vec![row(b"8")]
    ));
    let illegal: Result<_, Failure> =
        forwarding.release_hold(vec![row(b"8"), BackendMessage::BindComplete]);
    assert!(matches!(
        illegal,
        Err(ForwardError::BackendBatch {
            error: BackendBatchProjectionError::IllegalReplacement,
            ..
        })
    ));
    let invalid = BackendMessage::CommandComplete(Bytes::from_static(b"a\0b"));
    let unencodable: Result<_, Failure> = forwarding.release_hold(vec![row(b"8"), invalid]);
    assert!(matches!(
        unencodable,
        Err(ForwardError::Encoding(ProtocolError::NulInString))
    ));
    assert_eq!(forwarding.held_backend_messages().len(), 2);
    assert_eq!(forwarding.forward_next(), ForwardSource::FullHold);
}

#[test]
fn holding_needs_bounds() {
    let mut forwarding = Forwarding::new(NoPipeline, None);
    forwarded(&mut forwarding, query());
    forwarding.receive_backend(row(b"1"));
    let held: Result<_, Failure> = forwarding.decide_backend(BackendMiddlewareOutput::Hold);
    assert!(
        matches!(held, Err(ForwardError::BackendHoldingDisabled(source)) if source == row(b"1"))
    );
    assert!(!forwarding.backend_hold_is_full());
}

#[test]
fn only_an_explicit_flush_may_be_declined() {
    let kept: Result<_, Failure> = keep_holding(BackendFlushReason::Explicit);
    assert!(matches!(kept, Ok(BackendBatchForwarding::Kept)));
    let full: Result<_, Failure> = keep_holding(BackendFlushReason::Capacity);
    assert!(matches!(full, Err(ForwardError::BackendHoldCapacity)));
    for reason in [
        BackendFlushReason::ProtocolBarrier,
        BackendFlushReason::Teardown,
    ] {
        let refused: Result<_, Failure> = keep_holding(reason);
        assert!(matches!(refused, Err(ForwardError::BackendHoldRefused)));
    }
}

#[test]
fn outcomes_become_steps() {
    assert!(matches!(
        FrontendForwarding::LocallyHandled(query()).into_step(),
        ForwardedMessage::FrontendLocallyHandled(_)
    ));
    assert_eq!(FrontendForwarding::Suppressed(query()).into_message(), query());
    assert!(matches!(
        BackendForwarding::Held.into_step(),
        ForwardedMessage::BackendHeld
    ));
    let expanded = BackendForwarding::Expanded {
        source: row(b"1"),
        messages: vec![row(b"2")],
    };
    assert_eq!(expanded.into_message(), row(b"1"));
    assert_eq!(
        BackendBatchProjectionError::from(BackendSequenceError::DifferentSpan),
        BackendBatchProjectionError::DifferentSpan
    );
    let error: Failure = ForwardError::Middleware("refused");
    assert_eq!(
        error.message(),
        Some("forwarding middleware rejected a message")
    );
    let error: Failure = ForwardError::Io("closed");
    assert_eq!(error.message(), None);
}

/// Hands out consecutive keys.
#[derive(Default)]
struct Registry {
    routes: RefCell<Vec<Option<CancellationRoute>>>,
}

impl IntermediaryCancellationRegistry for &Registry {
    type Error = &'static str;

    fn register(&self, route: CancellationRoute) -> Result<CancelKey, &'static str> {
        let mut routes = self.routes.borrow_mut();
        if routes.len() == 2 {
            return Err("exhausted");
        }
        routes.push(Some(route));
        Ok(key(routes.len() as u32))
    }

    fn resolve(&self, client: &CancelKey) -> Option<CancellationRoute> {
        let at = client.process_id as usize;
        match self.routes.borrow().get(at.wrapping_sub(1)) {
            Some(Some(route)) => Some(route.clone()),
            _ => None,
        }
    }

    fn detach(&self, client: &CancelKey) -> Option<CancellationRoute> {
        let at = client.process_id as usize;
        match self.routes.borrow_mut().get_mut(at.wrapping_sub(1)) {
            Some(route) => route.take(),
            None => None,
        }
    }
}

fn key(process_id: u32) -> CancelKey {
    CancelKey {
        process_id,
        secret_key: Bytes::from_static(b"abcd"),
    }
}

fn target() -> ConnectTarget {
    ConnectTarget::new(String::from("primary"))
}

fn accepting(registry: &Registry) -> Acceptance<&Registry> {
    Acceptance::new(
        CancellationPolicy::Forward,
        EstablishmentFailurePolicy::SafeDiagnostic,
        registry,
    )
}

#[test]
fn cancellation_keys_are_registered_announced_and_detached() {
    let registry = Registry::default();
    let mut acceptance = accepting(&registry);
    assert!(matches!(
        acceptance.on_upstream(&target(), None),
        Ok(None)
    ));
    let Ok(Some(announcement)) = acceptance.on_upstream(&target(), Some(&key(9))) else {
        panic!("the upstream has a key")
    };
    assert_eq!(
        announcement,
        BackendMessage::BackendKeyData {
            process_id: 1,
            secret_key: Bytes::from_static(b"abcd"),
        }
    );
    assert_eq!(
        acceptance.on_announcement(announcement.clone()),
        Ok(announcement)
    );
    let rewritten = BackendMessage::BackendKeyData {
        process_id: 2,
        secret_key: Bytes::from_static(b"abcd"),
    };
    assert_eq!(
        acceptance.on_announcement(rewritten),
        Err(FailurePoint::KeyRewritten)
    );
    let CancellationStep::Forward(route) =
        acceptance.on_cancellation(&CancellationRequest::new(key(1)))
    else {
        panic!("the key is registered")
    };
    assert_eq!(route.target().name(), "primary");
    assert!(*route.upstream_key() == key(9));
    assert!(acceptance.detach().is_some());
    assert!(acceptance.detach().is_none());
    assert!(matches!(
        acceptance.on_cancellation(&CancellationRequest::new(key(1))),
        CancellationStep::Rejected
    ));
    assert!(acceptance.on_upstream(&target(), Some(&key(9))).is_ok());
    assert_eq!(
        acceptance.on_upstream(&target(), Some(&key(9))),
        Err("exhausted")
    );
}

#[test]
fn rejected_cancellation_consults_no_registry() {
    let mut acceptance = Acceptance::new(
        CancellationPolicy::Reject,
        EstablishmentFailurePolicy::Close,
        RejectCancellation,
    );
    assert!(matches!(
        acceptance.on_upstream(&target(), Some(&key(9))),
        Ok(None)
    ));
    assert!(matches!(
        acceptance.on_cancellation(&CancellationRequest::new(key(1))),
        CancellationStep::Rejected
    ));
    assert!(RejectCancellation.resolve(&key(1)).is_none());
    assert!(RejectCancellation.detach(&key(1)).is_none());
    assert!(acceptance.diagnostic(FailurePoint::Client).is_none());
}

fn startup(name: &'static [u8]) -> StartupMessage {
    let Ok(mut message) = StartupParameters::new(String::from("alice")).into_message() else {
        panic!("a user is given")
    };
    message
        .parameters
        .insert(Bytes::from_static(name), Bytes::from_static(b"x"));
    message
}

#[test]
fn sessions_need_text_and_a_destination() {
    let registry = Registry::default();
    let acceptance = accepting(&registry);
    let Ok((parameters, selected)) =
        acceptance.on_session(&startup(b"application_name"), Some(target()))
    else {
        panic!("the parameters are text and a destination is selected")
    };
    assert_eq!(parameters.user(), Some("alice"));
    assert_eq!(selected.name(), "primary");
    assert!(matches!(
        acceptance.on_session(&startup(b"\xff"), None),
        Err((FailurePoint::StartupParameters, Some(ParameterTextError::Name)))
    ));
    assert!(matches!(
        acceptance.on_session(&startup(b"application_name"), None),
        Err((FailurePoint::Unrouted, None))
    ));
}

#[test]
fn failures_are_disclosed_without_their_cause() {
    let registry = Registry::default();
    let acceptance = accepting(&registry);
    let expected = BackendMessage::ErrorResponse(DiagnosticResponse {
        fields: vec![
            DiagnosticField {
                code: b'S',
                value: Bytes::from_static(b"ERROR"),
            },
            DiagnosticField {
                code: b'M',
                value: Bytes::from_static(b"connection establishment failed"),
            },
        ],
    });
    assert_eq!(safe_establishment_diagnostic(), expected);
    for point in [
        FailurePoint::StartupParameters,
        FailurePoint::AuthenticatedRoute,
        FailurePoint::Client,
        FailurePoint::CancellationRegistry,
    ] {
        assert_eq!(acceptance.diagnostic(point), Some(expected.clone()));
        assert_eq!(point.message(), None);
    }
    assert_eq!(acceptance.diagnostic(FailurePoint::KeyOutput), None);
    assert_eq!(
        FailurePoint::KeyWithheld.message(),
        Some("middleware suppressed or expanded generated cancellation key")
    );
    assert_eq!(
        Acceptance::<()>::on_diagnostic(expected.clone()),
        Some(expected)
    );
    assert_eq!(Acceptance::<()>::on_diagnostic(ready()), None);
}

#[test]
fn establishment_output_passes_unchanged_in_kind() {
    assert_eq!(
        Acceptance::<()>::on_boundary(BackendMiddlewareOutput::Forward(ready())),
        Ok(ready())
    );
    assert_eq!(
        Acceptance::<()>::on_boundary(BackendMiddlewareOutput::Hold),
        Err(FailurePoint::KeyWithheld)
    );
    assert_eq!(Acceptance::<()>::readiness(), ready());
    assert_eq!(Acceptance::<()>::on_readiness(ready()), Ok(ready()));
    assert_eq!(
        Acceptance::<()>::on_readiness(complete()),
        Err(FailurePoint::ReadinessWithheld)
    );
}

#[test]
fn connections_are_torn_down_with_their_route() {
    let registry = Registry::default();
    let mut acceptance = accepting(&registry);
    assert!(acceptance.on_upstream(&target(), Some(&key(9))).is_ok());
    let mut connection = IntermediaryConnection::new(
        "downstream",
        "upstream",
        1,
        "boundary",
        Forwarding::new(NoPipeline, limits(2)),
        target(),
        acceptance,
    );
    assert_eq!(connection.target().name(), "primary");
    assert!(connection.cancellation_key() == Some(&key(1)));
    assert!(connection.held_backend_messages().is_empty());
    let parts = connection.parts();
    *parts.state += 1;
    assert_eq!(*parts.downstream, "downstream");
    assert_eq!(parts.forwarding.forward_next(), ForwardSource::Either);
    assert_eq!(connection.state(), &2);
    let accepted = IntermediaryAccept::Session(connection);
    let (downstream, upstream, state, boundary, route) = accepted.into_session().teardown();
    assert_eq!(
        (downstream, upstream, state, boundary),
        ("downstream", "upstream", 2, "boundary")
    );
    assert!(route.is_some());
}

#[test]
fn cancellation_can_be_detached_early() {
    let registry = Registry::default();
    let mut acceptance = accepting(&registry);
    assert!(acceptance.on_upstream(&target(), Some(&key(9))).is_ok());
    let mut connection = IntermediaryConnection::new(
        (),
        (),
        (),
        (),
        Forwarding::new(NoPipeline, None),
        target(),
        acceptance,
    );
    assert!(connection.detach_cancellation().is_some());
    assert!(connection.cancellation_key().is_none());
    assert!(matches!(
        connection
            .acceptance()
            .on_cancellation(&CancellationRequest::new(key(1))),
        CancellationStep::Rejected
    ));
    assert!(connection.teardown().4.is_none());
}

#[test]
fn builders_need_both_roles_a_resolver_and_a_posture() {
    assert!(matches!(
        Intermediary::builder().build(),
        Err(IntermediaryBuildError::MissingServer)
    ));
    assert!(matches!(
        Intermediary::builder().server("server").build(),
        Err(IntermediaryBuildError::MissingClient)
    ));
    assert!(matches!(
        Intermediary::builder()
            .server("server")
            .client("client")
            .build(),
        Err(IntermediaryBuildError::MissingStartupResolver)
    ));
    assert!(matches!(
        Intermediary::builder()
            .server("server")
            .client("client")
            .startup_resolver("resolver")
            .build(),
        Err(IntermediaryBuildError::MissingCancellationPolicy)
    ));
    assert_eq!(
        IntermediaryBuildError::MissingCancellationPolicy.message(),
        "an explicit cancellation policy is required"
    );
}

#[test]
fn intermediaries_are_assembled_from_their_parts() {
    let Ok(intermediary) = Intermediary::builder()
        .server("server")
        .client("client")
        .startup_resolver("resolver")
        .authenticated_route(AllowAuthenticatedRoute)
        .pipeline(BoundedPipeline::new(2).unwrap())
        .middleware(IdentityIntermediaryMiddleware)
        .cancellation(CancellationPolicy::Reject)
        .establishment_failure(EstablishmentFailurePolicy::SafeDiagnostic)
        .backend_batching(BackendHoldLimits::new(1, 1).unwrap())
        .build()
    else {
        panic!("every category is configured")
    };
    assert_eq!(intermediary.server(), &"server");
    assert_eq!(intermediary.client(), &"client");
    assert_eq!(intermediary.resolver(), &"resolver");
    assert_eq!(intermediary.cancellation(), CancellationPolicy::Reject);
    let acceptance = intermediary.accept();
    assert!(acceptance.diagnostic(FailurePoint::Client).is_some());
    let mut forwarding = intermediary.forwarding();
    for request in [parse(), parse()] {
        let sent: Result<_, Failure> = forwarding.forward_frontend(request);
        assert!(matches!(sent, Ok(FrontendForwarding::Forwarded(_))));
    }
    let refused: Result<_, Failure> = forwarding.forward_frontend(parse());
    assert!(matches!(refused, Err(ForwardError::Frontend(_))));
    assert_eq!(AllowAuthenticatedRoute.route(target()).name(), "primary");
    let handler: IdentityIntermediaryMiddleware =
        intermediary.boundary().create(&"server", &"client");
    assert!(handler == IdentityIntermediaryMiddleware);
}

#[test]
fn forwarding_cancellation_comes_with_a_registry() {
    let registry = Registry::default();
    let Ok(intermediary) = Intermediary::builder()
        .server("server")
        .client("client")
        .startup_resolver("resolver")
        .cancellation_registry(&registry)
        .build()
    else {
        panic!("every category is configured")
    };
    assert_eq!(intermediary.cancellation(), CancellationPolicy::Forward);
    let mut acceptance = intermediary.accept();
    assert!(acceptance.on_upstream(&target(), Some(&key(9))).is_ok());
    assert!(matches!(
        acceptance.on_cancellation(&CancellationRequest::new(key(1))),
        CancellationStep::Forward(_)
    ));
}

#[test]
fn contexts_borrow_their_facts() {
    let initial = InitialServerContext::new(&"peer", &"tls");
    assert_eq!(initial.peer(), &"peer");
    assert_eq!(initial.tls(), &"tls");
    let authenticated = AuthenticatedRouteContext::new(&"peer", &"alice");
    assert_eq!(authenticated.identity(), &"alice");
    assert_eq!(authenticated.peer(), &"peer");
    let contexts = IntermediaryContexts::new("server", "client");
    assert_eq!(contexts.server(), &"server");
    assert_eq!(contexts.client(), &"client");
}

#[test]
fn acceptance_failures_are_described_without_their_cause() {
    let failures: Vec<IntermediaryAcceptError<(), (), (), (), (), (), (), ()>> = vec![
        IntermediaryAcceptError::Server(()),
        IntermediaryAcceptError::StartupRoute(StartupResolutionError::Resolver(())),
        IntermediaryAcceptError::CancellationRejected,
        IntermediaryAcceptError::AuthenticatedRoute(()),
        IntermediaryAcceptError::Client(()),
        IntermediaryAcceptError::CancellationRegistry(()),
        IntermediaryAcceptError::ServerOutput(()),
        IntermediaryAcceptError::Cancellation(()),
        IntermediaryAcceptError::Middleware(()),
    ];
    let described: Vec<&str> = failures.iter().map(|failure| failure.message()).collect();
    assert_eq!(
        described,
        vec![
            "client-facing establishment failed",
            "startup routing failed",
            "cancellation is explicitly rejected",
            "authenticated routing failed",
            "PostgreSQL-facing establishment failed",
            "cancellation registration failed",
            "client-facing establishment output failed",
            "cancellation forwarding failed",
            "forwarding middleware rejected establishment output",
        ]
    );
}

type Log = Vec<&'static str>;

/// Records who saw a message; the server role may withhold responses.
struct Role {
    name: &'static str,
    replacement: Option<BackendMessage>,
}

impl<C> ServerMiddleware<Log, C> for Role {
    fn pre_startup(
        &mut self,
        _context: &C,
        _log: &mut Log,
        message: PreStartupMessage,
    ) -> PreStartupMessage {
        message
    }

    fn startup(&mut self, _context: &C, _log: &mut Log, message: StartupMessage) -> StartupMessage {
        message
    }

    fn cancellation(
        &mut self,
        _context: &C,
        _log: &mut Log,
        message: CancellationRequest,
    ) -> CancellationRequest {
        message
    }

    fn frontend(
        &mut self,
        _context: &C,
        log: &mut Log,
        message: FrontendMessage,
    ) -> FrontendMessage {
        log.push(self.name);
        message
    }

    fn backend(&mut self, _context: &C, log: &mut Log, message: BackendMessage) -> BackendMessage {
        log.push(self.name);
        match &self.replacement {
            Some(replacement) => replacement.clone(),
            None => message,
        }
    }
}

impl<C> ClientMiddleware<Log, C> for Role {
    fn pre_startup(
        &mut self,
        _context: &C,
        _log: &mut Log,
        message: PreStartupMessage,
    ) -> PreStartupMessage {
        message
    }

    fn startup(&mut self, _context: &C, _log: &mut Log, message: StartupMessage) -> StartupMessage {
        message
    }

    fn frontend(
        &mut self,
        _context: &C,
        log: &mut Log,
        message: FrontendMessage,
    ) -> FrontendMessage {
        log.push(self.name);
        message
    }

    fn backend(&mut self, _context: &C, log: &mut Log, message: BackendMessage) -> BackendMessage {
        log.push(self.name);
        message
    }
}

type Pair<'a> = IntermediaryConnection<
    ServerConnectionCore<&'static str, (), Role>,
    ClientConnectionCore<&'static str, ConnectionClean, (), Role>,
    Log,
    (),
    BoundedPipeline,
    &'a Registry,
>;

fn pair(registry: &Registry, replacement: Option<BackendMessage>) -> Pair<'_> {
    let server = Role {
        name: "server",
        replacement,
    };
    let client = Role {
        name: "client",
        replacement: None,
    };
    let context = ClientConnectionContext::new(target());
    let mut acceptance = accepting(registry);
    assert!(acceptance.on_upstream(&target(), Some(&key(9))).is_ok());
    IntermediaryConnection::new(
        ServerConnectionCore::new("downstream", server, ()),
        ClientConnectionCore::new(Conn::new("upstream").transition(), client, context),
        Vec::new(),
        (),
        Forwarding::new(BoundedPipeline::new(2).unwrap(), limits(4)),
        target(),
        acceptance,
    )
}

#[test]
fn requests_pass_source_then_destination() {
    let registry = Registry::default();
    let mut pair = pair(&registry, None);
    let message = pair.receive_frontend(query());
    assert_eq!(pair.state(), &["server"]);
    let outcome: Result<_, Failure> =
        pair.process_frontend(FrontendMiddlewareOutput::Forward(message));
    assert!(matches!(outcome, Ok(FrontendForwarding::Forwarded(sent)) if sent == query()));
    assert_eq!(pair.state(), &["server", "client"]);
    let outcome: Result<_, Failure> =
        pair.process_frontend(FrontendMiddlewareOutput::Suppress(query()));
    assert!(matches!(outcome, Ok(FrontendForwarding::Suppressed(_))));
    assert_eq!(pair.state(), &["server", "client"]);
}

#[test]
fn retained_requests_are_not_intercepted_again() {
    let registry = Registry::default();
    let mut pair = pair(&registry, None);
    assert!(pair.retry_frontend::<&str, &str>().is_none());
    for _ in 0..2 {
        let outcome: Result<_, Failure> =
            pair.process_frontend(FrontendMiddlewareOutput::Forward(parse()));
        assert!(outcome.is_ok());
    }
    let refused: Result<_, Failure> =
        pair.process_frontend(FrontendMiddlewareOutput::Forward(parse()));
    assert!(matches!(refused, Err(ForwardError::Frontend(_))));
    assert_eq!(pair.state().len(), 3);
    let again: Option<Result<_, Failure>> = pair.retry_frontend();
    assert!(matches!(again, Some(Err(ForwardError::Frontend(_)))));
    let answered: Result<_, Failure> = pair
        .parts()
        .forwarding
        .advance_backend(BackendMessage::ParseComplete);
    assert!(answered.is_ok());
    let again: Option<Result<_, Failure>> = pair.retry_frontend();
    assert!(matches!(again, Some(Ok(FrontendForwarding::Forwarded(_)))));
    assert_eq!(pair.state().len(), 3);
}

#[test]
fn boundary_answers_are_seen_by_the_client_facing_role() {
    let registry = Registry::default();
    let mut pair = pair(&registry, None);
    let outcome: Result<_, Failure> = pair.process_frontend(FrontendMiddlewareOutput::Respond {
        request: query(),
        responses: vec![complete(), ready()],
    });
    assert!(matches!(outcome, Ok(FrontendForwarding::LocallyHandled(request)) if request == query()));
    assert_eq!(pair.state(), &["server", "server"]);
    let forwarding = pair.parts().forwarding;
    assert!(matches!(forwarding.flush_local_responses(), LocalStep::Send(sent) if sent == complete()));
    assert!(matches!(forwarding.flush_local_responses(), LocalStep::Send(sent) if sent == ready()));
    assert!(matches!(forwarding.flush_local_responses(), LocalStep::Idle));
    let refused: Result<_, Failure> = pair.process_frontend(FrontendMiddlewareOutput::Respond {
        request: FrontendMessage::CopyDone,
        responses: vec![ready()],
    });
    assert!(matches!(refused, Err(ForwardError::Frontend(_))));
    assert_eq!(pair.state(), &["server", "server"]);
}

#[test]
fn responses_pass_source_then_destination() {
    let registry = Registry::default();
    let mut pair = pair(&registry, None);
    let asked: Result<_, Failure> =
        pair.process_frontend(FrontendMiddlewareOutput::Forward(query()));
    assert!(asked.is_ok());
    assert!(!pair.receive_backend(row(b"1")));
    assert_eq!(pair.state(), &["client", "client"]);
    let held: Result<_, Failure> = pair.process_pending_backend(BackendMiddlewareOutput::Hold);
    assert!(matches!(held, Ok(RelayedResponse::Held)));
    assert!(pair.receive_backend(complete()));
    let flushed: Result<_, Failure> = pair.flush_backend_hold_for(
        BackendFlushReason::ProtocolBarrier,
        BackendBatchOutput::ReplaceOneToOne(vec![row(b"2")]),
    );
    assert!(
        matches!(flushed, Ok(BackendBatchForwarding::Released(sent)) if sent == vec![row(b"2")])
    );
    assert_eq!(pair.state(), &["client", "client", "client", "server"]);
    let sent: Result<_, Failure> =
        pair.process_pending_backend(BackendMiddlewareOutput::Forward(complete()));
    assert!(matches!(sent, Ok(RelayedResponse::Send(message)) if message == complete()));
    assert_eq!(pair.state().len(), 5);
    pair.receive_backend(ready());
    let suppressed: Result<_, Failure> =
        pair.process_pending_backend(BackendMiddlewareOutput::Suppress(ready()));
    assert!(matches!(suppressed, Ok(RelayedResponse::Suppressed(_))));
    pair.receive_backend(ready());
    let expanded: Result<_, Failure> =
        pair.process_pending_backend(BackendMiddlewareOutput::Expand(vec![ready()]));
    assert!(matches!(expanded, Ok(RelayedResponse::EmitAll { messages, .. }) if messages.len() == 1));
    let emitted: Result<_, Failure> = pair.emit_backend(ready());
    assert!(matches!(emitted, Err(ForwardError::Backend(_))));
    let empty: Result<_, Failure> =
        pair.flush_backend_hold_for(BackendFlushReason::Capacity, BackendBatchOutput::KeepHolding);
    assert!(matches!(empty, Ok(BackendBatchForwarding::Empty)));
}

#[test]
fn establishment_output_is_announced_or_detached() {
    let registry = Registry::default();
    let mut announcing = pair(&registry, None);
    let message = BackendMessage::BackendKeyData {
        process_id: 1,
        secret_key: Bytes::from_static(b"abcd"),
    };
    assert_eq!(
        announcing.announce_key(BackendMiddlewareOutput::Forward(message.clone())),
        Ok(message.clone())
    );
    assert_eq!(announcing.announce_readiness(), Ok(ready()));
    assert!(announcing.cancellation_key().is_some());
    assert_eq!(
        announcing.announce_key(BackendMiddlewareOutput::Hold),
        Err(FailurePoint::KeyWithheld)
    );
    assert!(announcing.cancellation_key().is_none());

    let mut rewriting = pair(&registry, Some(complete()));
    assert_eq!(
        rewriting.announce_key(BackendMiddlewareOutput::Forward(message)),
        Err(FailurePoint::KeyRewritten)
    );
    assert!(rewriting.cancellation_key().is_none());
    assert_eq!(
        rewriting.announce_readiness(),
        Err(FailurePoint::ReadinessWithheld)
    );
    assert_eq!(
        FailurePoint::ReadinessWithheld.message(),
        Some("middleware rejected generated readiness")
    );
}

#[test]
fn diagnostics_are_seen_by_the_client_facing_role() {
    let registry = Registry::default();
    let acceptance = accepting(&registry);
    let role = Role {
        name: "server",
        replacement: None,
    };
    let mut downstream = ServerConnectionCore::new("downstream", role, ());
    let mut log = Vec::new();
    assert_eq!(
        acceptance.disclose(FailurePoint::Client, &mut downstream, &mut log),
        Some(safe_establishment_diagnostic())
    );
    assert_eq!(log, ["server"]);
    assert_eq!(
        acceptance.disclose(FailurePoint::KeyOutput, &mut downstream, &mut log),
        None
    );
    assert_eq!(log, ["server"]);
    let (transport, mut role, ()) = downstream.into_parts();
    role.replacement = Some(ready());
    let mut downstream = ServerConnectionCore::new(transport, role, ());
    assert_eq!(
        acceptance.disclose(FailurePoint::Client, &mut downstream, &mut log),
        None
    );
    assert_eq!(downstream.context(), &());
    assert_eq!(*downstream.transport_mut(), "downstream");
}
