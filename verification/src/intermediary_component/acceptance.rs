//! Decisions that take an intermediary from an accepted client to an established
//! pair of sessions, and the established pair itself.

use vstd::prelude::*;
use vstd::utf8::*;

use super::batching::{BackendMiddlewareOutput, HeldBackendMessages};
use super::forwarding::{Forwarding, ForwardingView};
use super::policy::{
    safe_diagnostic, safe_establishment_diagnostic, CancellationPolicy, CancellationRoute,
    EstablishmentFailurePolicy, IntermediaryCancellationRegistry, RouteView,
};
use crate::cancel::{key_view, CancellationRequest};
use crate::client_component::target::{
    first_fault, law_startup_fields, structured, ConnectTarget, ConnectTargetView,
    ParameterTextError, StartupParameters,
};
use crate::codec::backend::BackendView;
use crate::codec::{BackendMessage, TransactionStatus};
use crate::demux::{CancelKey, CancelKeyView};
use crate::octet_map::{same, text_list};
use crate::octets::{as_slice, copy_from_slice};
use crate::pipeline::PipelinePolicy;
use crate::startup::StartupMessage;

verus! {

/// Where the establishment of a pair failed, once the client was accepted.
#[derive(Clone, Copy, Debug, PartialEq, Eq, Structural)]
pub enum FailurePoint {
    /// A startup parameter is not representable.
    StartupParameters,
    /// Startup routing selected no destination.
    Unrouted,
    /// Authenticated routing failed.
    AuthenticatedRoute,
    /// The PostgreSQL-facing role failed.
    Client,
    /// The cancellation key could not be registered.
    CancellationRegistry,
    /// Boundary middleware rejected the announced key.
    KeyMiddleware,
    /// Boundary middleware did not forward the announced key.
    KeyWithheld,
    /// Middleware rewrote the announced key.
    KeyRewritten,
    /// The announced key could not be sent.
    KeyOutput,
    /// Middleware did not let readiness through.
    ReadinessWithheld,
    /// Readiness could not be sent.
    ReadinessOutput,
}

impl FailurePoint {
    /// The client may be told that establishment failed.
    pub open spec fn told(self) -> bool {
        self == FailurePoint::StartupParameters || self == FailurePoint::AuthenticatedRoute || self
            == FailurePoint::Client || self == FailurePoint::CancellationRegistry
    }

    /// A cancellation key may have been registered.
    pub open spec fn registered(self) -> bool {
        self == FailurePoint::KeyMiddleware || self == FailurePoint::KeyWithheld || self
            == FailurePoint::KeyRewritten || self == FailurePoint::KeyOutput || self
            == FailurePoint::ReadinessWithheld || self == FailurePoint::ReadinessOutput
    }

    /// Description of a failure that middleware caused.
    pub fn message(&self) -> (message: Option<&'static str>)
        ensures
            match message {
                Some(message) => match *self {
                    FailurePoint::KeyWithheld => message@
                        == "middleware suppressed or expanded generated cancellation key"@,
                    FailurePoint::KeyRewritten => message@
                        == "middleware rejected generated cancellation key"@,
                    FailurePoint::ReadinessWithheld => message@
                        == "middleware rejected generated readiness"@,
                    _ => false,
                },
                None => !(self is KeyWithheld) && !(self is KeyRewritten) && !(
                self is ReadinessWithheld),
            },
    {
        match *self {
            FailurePoint::KeyWithheld => Some(
                "middleware suppressed or expanded generated cancellation key",
            ),
            FailurePoint::KeyRewritten => Some("middleware rejected generated cancellation key"),
            FailurePoint::ReadinessWithheld => Some("middleware rejected generated readiness"),
            _ => None,
        }
    }
}

/// What to do with a cancellation request.
pub enum CancellationStep {
    /// Close without forwarding anything.
    Rejected,
    /// Send the upstream key of this route to its destination.
    Forward(CancellationRoute),
}

/// Acceptance of one client.
pub struct Acceptance<K> {
    cancellation: CancellationPolicy,
    failure: EstablishmentFailurePolicy,
    registry: K,
    client_key: Option<CancelKey>,
}

/// Policies of an acceptance, and the key registered for it.
pub struct AcceptanceView<K> {
    pub cancellation: CancellationPolicy,
    pub failure: EstablishmentFailurePolicy,
    pub registry: K,
    pub client_key: Option<CancelKeyView>,
}

impl<K> View for Acceptance<K> {
    type V = AcceptanceView<K>;

    closed spec fn view(&self) -> AcceptanceView<K> {
        AcceptanceView {
            cancellation: self.cancellation,
            failure: self.failure,
            registry: self.registry,
            client_key: key_view(self.client_key),
        }
    }
}

/// What a failure point asks to tell the client.
pub open spec fn disclosed(policy: EstablishmentFailurePolicy, point: FailurePoint) -> Option<
    BackendView,
> {
    if policy == EstablishmentFailurePolicy::SafeDiagnostic && point.told() {
        Some(safe_diagnostic())
    } else {
        None
    }
}

/// Whether a cancellation request is decided as it must be, when the registry
/// resolved the presented key to `resolved`.
pub open spec fn cancels<K: IntermediaryCancellationRegistry>(
    acceptance: AcceptanceView<K>,
    client: CancelKey,
    resolved: Option<CancellationRoute>,
    step: CancellationStep,
) -> bool {
    &&& acceptance.registry.resolution(client, resolved)
    &&& match resolved {
        Some(route) => step == CancellationStep::Forward(route),
        None => step == CancellationStep::Rejected,
    }
}

/// Whether a cancellation request with the key `client` is forwarded as it must be.
pub open spec fn cancels_key<K: IntermediaryCancellationRegistry>(
    acceptance: AcceptanceView<K>,
    client: CancelKeyView,
    step: CancellationStep,
) -> bool {
    match acceptance.cancellation {
        CancellationPolicy::Reject => step == CancellationStep::Rejected,
        CancellationPolicy::Forward => exists|key: CancelKey, resolved: Option<CancellationRoute>|
            key@ == client && #[trigger] cancels(acceptance, key, resolved, step),
    }
}

/// The message that announces a key.
pub open spec fn announcement(key: CancelKeyView) -> BackendView {
    BackendView::BackendKeyData { process_id: key.process_id, secret_key: key.secret_key }
}

/// Whether registering a route turned out as `result` says.
pub open spec fn registers_route<K: IntermediaryCancellationRegistry>(
    before: AcceptanceView<K>,
    route: CancellationRoute,
    registered: Result<CancelKey, K::Error>,
    result: Result<Option<BackendMessage>, K::Error>,
    after: AcceptanceView<K>,
) -> bool {
    &&& before.registry.registration(route, registered)
    &&& match registered {
        Ok(key) => {
            &&& after == (AcceptanceView { client_key: Some(key@), ..before })
            &&& result matches Ok(Some(message))
            &&& message@ == announcement(key@)
        },
        Err(error) => after == before && result == Err::<Option<BackendMessage>, _>(error),
    }
}

/// Whether the upstream key is registered as it must be.
pub open spec fn registers_upstream<K: IntermediaryCancellationRegistry>(
    before: AcceptanceView<K>,
    target: ConnectTargetView,
    upstream: CancelKeyView,
    result: Result<Option<BackendMessage>, K::Error>,
    after: AcceptanceView<K>,
) -> bool {
    exists|route: CancellationRoute, registered: Result<CancelKey, K::Error>|
        route@ == (RouteView { target, upstream }) && #[trigger] registers_route(
            before,
            route,
            registered,
            result,
            after,
        )
}

/// Whether detaching the key `client` turned out as `route` says.
pub open spec fn detaches<K: IntermediaryCancellationRegistry>(
    registry: K,
    client: CancelKeyView,
    route: Option<CancellationRoute>,
) -> bool {
    exists|key: CancelKey| key@ == client && #[trigger] registry.detachment(key, route)
}

impl<K> Acceptance<K> {
    pub fn new(
        cancellation: CancellationPolicy,
        failure: EstablishmentFailurePolicy,
        registry: K,
    ) -> (acceptance: Self)
        ensures
            acceptance@ == (AcceptanceView { cancellation, failure, registry, client_key: None }),
    {
        Acceptance { cancellation, failure, registry, client_key: None }
    }

    /// Structures the client's startup values for the upstream role.
    ///
    /// # Errors
    ///
    /// Reports values that are not representable, before anything else, and then a
    /// missing destination.
    pub fn on_session(&self, startup: &StartupMessage, selected: Option<ConnectTarget>) -> (result:
        Result<(StartupParameters, ConnectTarget), (FailurePoint, Option<ParameterTextError>)>)
        ensures
            match first_fault(text_list(startup.parameters.listed())) {
                Some(fault) => result == Err::<(StartupParameters, ConnectTarget), _>(
                    (FailurePoint::StartupParameters, Some(fault)),
                ),
                None => match selected {
                    None => result == Err::<(StartupParameters, ConnectTarget), _>(
                        (FailurePoint::Unrouted, None::<ParameterTextError>),
                    ),
                    Some(target) => {
                        &&& result matches Ok((parameters, kept))
                        &&& parameters@ == structured(startup@.parameters)
                        &&& kept == target
                    },
                },
            },
    {
        let parameters = match StartupParameters::from_wire(startup) {
            Ok(parameters) => parameters,
            Err(fault) => return Err((FailurePoint::StartupParameters, Some(fault))),
        };
        match selected {
            Some(target) => Ok((parameters, target)),
            None => Err((FailurePoint::Unrouted, None)),
        }
    }

    /// What the client is told of a failure: nothing, or the fixed diagnostic.
    pub fn diagnostic(&self, point: FailurePoint) -> (message: Option<BackendMessage>)
        ensures
            match (message, disclosed(self@.failure, point)) {
                (Some(message), Some(expected)) => message@ == expected,
                (None, None) => true,
                _ => false,
            },
    {
        match self.failure {
            EstablishmentFailurePolicy::Close => None,
            EstablishmentFailurePolicy::SafeDiagnostic => match point {
                FailurePoint::StartupParameters
                | FailurePoint::AuthenticatedRoute
                | FailurePoint::Client
                | FailurePoint::CancellationRegistry => Some(safe_establishment_diagnostic()),
                _ => None,
            },
        }
    }

    /// What middleware left of a diagnostic is sent only while it is one.
    pub fn on_diagnostic(message: BackendMessage) -> (sent: Option<BackendMessage>)
        ensures
            sent == if message is ErrorResponse {
                Some(message)
            } else {
                None
            },
    {
        match message {
            BackendMessage::ErrorResponse(_) => Some(message),
            _ => None,
        }
    }

    /// What the boundary decided on the announced key: it has to forward it.
    ///
    /// # Errors
    ///
    /// Reports a key that was suppressed, expanded or held.
    pub fn on_boundary(output: BackendMiddlewareOutput) -> (result: Result<
        BackendMessage,
        FailurePoint,
    >)
        ensures
            result == match output {
                BackendMiddlewareOutput::Forward(message) => Ok::<_, FailurePoint>(message),
                _ => Err::<BackendMessage, _>(FailurePoint::KeyWithheld),
            },
    {
        match output {
            BackendMiddlewareOutput::Forward(message) => Ok(message),
            _ => Err(FailurePoint::KeyWithheld),
        }
    }

    /// What middleware left of the announced key: it has to be the registered one.
    ///
    /// # Errors
    ///
    /// Reports anything else.
    pub fn on_announcement(&self, message: BackendMessage) -> (result: Result<
        BackendMessage,
        FailurePoint,
    >)
        requires
            self@.client_key is Some,
        ensures
            result == if message@ == announcement(self@.client_key->0) {
                Ok::<_, FailurePoint>(message)
            } else {
                Err::<BackendMessage, _>(FailurePoint::KeyRewritten)
            },
    {
        let unchanged: bool = match (&message, &self.client_key) {
            (BackendMessage::BackendKeyData { process_id, secret_key }, Some(key)) => *process_id
                == key.process_id && same(as_slice(secret_key), as_slice(&key.secret_key)),
            _ => false,
        };
        if unchanged {
            Ok(message)
        } else {
            Err(FailurePoint::KeyRewritten)
        }
    }

    /// The readiness that completes establishment.
    pub fn readiness() -> (message: BackendMessage)
        ensures
            message == BackendMessage::ReadyForQuery(TransactionStatus::Idle),
    {
        BackendMessage::ReadyForQuery(TransactionStatus::Idle)
    }

    /// What middleware left of readiness: it has to be one.
    ///
    /// # Errors
    ///
    /// Reports anything else.
    pub fn on_readiness(message: BackendMessage) -> (result: Result<BackendMessage, FailurePoint>)
        ensures
            result == if message is ReadyForQuery {
                Ok::<_, FailurePoint>(message)
            } else {
                Err::<BackendMessage, _>(FailurePoint::ReadinessWithheld)
            },
    {
        match message {
            BackendMessage::ReadyForQuery(_) => Ok(message),
            _ => Err(FailurePoint::ReadinessWithheld),
        }
    }
}

impl<K: IntermediaryCancellationRegistry> Acceptance<K> {
    /// Decides on a client that only wants to cancel.
    pub fn on_cancellation(&self, request: &CancellationRequest) -> (step: CancellationStep)
        ensures
            cancels_key(self@, request@, step),
    {
        match self.cancellation {
            CancellationPolicy::Reject => CancellationStep::Rejected,
            CancellationPolicy::Forward => {
                let key = CancelKey {
                    process_id: request.process_id(),
                    secret_key: copy_from_slice(request.secret_key()),
                };
                let resolved = self.registry.resolve(&key);
                let ghost found = resolved;
                let step = match resolved {
                    Some(route) => CancellationStep::Forward(route),
                    None => CancellationStep::Rejected,
                };
                assert(cancels(self@, key, found, step));
                step
            },
        }
    }

    /// Registers the upstream key, if keys are forwarded and the upstream has one. The
    /// message announces the client's key.
    ///
    /// # Errors
    ///
    /// Returns the registry's failure.
    pub fn on_upstream(&mut self, target: &ConnectTarget, upstream: Option<&CancelKey>) -> (result:
        Result<Option<BackendMessage>, K::Error>)
        requires
            old(self)@.cancellation == CancellationPolicy::Forward && upstream is Some
                ==> forall|route: CancellationRoute|
                route@ == (RouteView { target: target@, upstream: upstream->0@ })
                    ==> #[trigger] old(self)@.registry.registers(route),
        ensures
            match (old(self)@.cancellation, upstream) {
                (CancellationPolicy::Forward, Some(key)) => registers_upstream(
                    old(self)@,
                    target@,
                    key@,
                    result,
                    final(self)@,
                ),
                _ => final(self)@ == old(self)@ && result == Ok::<Option<BackendMessage>, K::Error>(
                    None,
                ),
            },
    {
        match (self.cancellation, upstream) {
            (CancellationPolicy::Forward, Some(upstream)) => {
                let route = CancellationRoute::new(target.duplicate(), upstream.duplicate());
                let ghost route_seen = route;
                assert(route@ == (RouteView { target: target@, upstream: upstream@ }));
                assert(old(self)@.registry.registers(route));
                let registered = self.registry.register(route);
                let ghost outcome = registered;
                let result = match registered {
                    Ok(key) => {
                        let message = BackendMessage::BackendKeyData {
                            process_id: key.process_id,
                            secret_key: key.secret_key.clone(),
                        };
                        self.client_key = Some(key);
                        Ok(Some(message))
                    },
                    Err(error) => Err(error),
                };
                assert(registers_route(old(self)@, route_seen, outcome, result, self@));
                result
            },
            _ => Ok(None),
        }
    }

    /// Detaches the registered key, if any.
    pub fn detach(&mut self) -> (route: Option<CancellationRoute>)
        ensures
            final(self)@ == (AcceptanceView { client_key: None, ..old(self)@ }),
            match old(self)@.client_key {
                Some(client) => detaches(old(self)@.registry, client, route),
                None => route is None,
            },
    {
        let mut key: Option<CancelKey> = None;
        std::mem::swap(&mut key, &mut self.client_key);
        match key {
            Some(key) => {
                let route = self.registry.detach(&key);
                assert(detaches(old(self)@.registry, key@, route));
                route
            },
            None => None,
        }
    }
}

/// Both role contexts recovered during deliberate intermediary teardown.
#[derive(Debug)]
pub struct IntermediaryContexts<ServerContext, ClientContext> {
    server: ServerContext,
    client: ClientContext,
}

impl<ServerContext, ClientContext> IntermediaryContexts<ServerContext, ClientContext> {
    /// Both contexts.
    pub closed spec fn roles(self) -> (ServerContext, ClientContext) {
        (self.server, self.client)
    }

    pub fn new(server: ServerContext, client: ClientContext) -> (contexts: Self)
        ensures
            contexts.roles() == (server, client),
    {
        IntermediaryContexts { server, client }
    }

    /// Returns the client-facing role context.
    pub fn server(&self) -> (context: &ServerContext)
        ensures
            *context == self.roles().0,
    {
        &self.server
    }

    /// Returns the PostgreSQL-facing role context.
    pub fn client(&self) -> (context: &ClientContext)
        ensures
            *context == self.roles().1,
    {
        &self.client
    }
}

/// Result of accepting either an ordinary session or an out-of-band request.
#[derive(Debug)]
pub enum IntermediaryAccept<Connection> {
    /// A fully established, independently authenticated session pair.
    Session(Connection),
    /// The resolved cancellation packet was rewritten and forwarded.
    CancellationForwarded,
}

impl<Connection> IntermediaryAccept<Connection> {
    /// Extracts the ordinary session branch. A cancellation has no session.
    pub fn into_session(self) -> (connection: Connection)
        requires
            self is Session,
        ensures
            self == IntermediaryAccept::Session(connection),
    {
        match self {
            IntermediaryAccept::Session(connection) => connection,
            IntermediaryAccept::CancellationForwarded => vstd::pervasive::unreached(),
        }
    }
}

/// One operational, independently authenticated intermediary session.
pub struct IntermediaryConnection<
    Downstream,
    Upstream,
    State,
    Boundary,
    P: PipelinePolicy,
    K,
> {
    downstream: Downstream,
    upstream: Upstream,
    state: State,
    boundary: Boundary,
    forwarding: Forwarding<P>,
    target: ConnectTarget,
    acceptance: Acceptance<K>,
}

/// What an established pair holds.
pub struct ConnectionView<Downstream, Upstream, State, Boundary, K> {
    pub downstream: Downstream,
    pub upstream: Upstream,
    pub state: State,
    pub boundary: Boundary,
    pub forwarding: ForwardingView,
    pub target: ConnectTargetView,
    pub acceptance: AcceptanceView<K>,
}

impl<Downstream, Upstream, State, Boundary, P: PipelinePolicy, K> View for IntermediaryConnection<
    Downstream,
    Upstream,
    State,
    Boundary,
    P,
    K,
> {
    type V = ConnectionView<Downstream, Upstream, State, Boundary, K>;

    closed spec fn view(&self) -> ConnectionView<Downstream, Upstream, State, Boundary, K> {
        ConnectionView {
            downstream: self.downstream,
            upstream: self.upstream,
            state: self.state,
            boundary: self.boundary,
            forwarding: self.forwarding@,
            target: self.target@,
            acceptance: self.acceptance@,
        }
    }
}

/// Mutable borrows of what a forwarding step works with.
pub struct ForwardingParts<'a, Downstream, Upstream, State, Boundary, P: PipelinePolicy> {
    pub downstream: &'a mut Downstream,
    pub upstream: &'a mut Upstream,
    pub state: &'a mut State,
    pub boundary: &'a mut Boundary,
    pub forwarding: &'a mut Forwarding<P>,
}

impl<
    Downstream,
    Upstream,
    State,
    Boundary,
    P: PipelinePolicy,
    K: IntermediaryCancellationRegistry,
> IntermediaryConnection<Downstream, Upstream, State, Boundary, P, K> {
    pub fn new(
        downstream: Downstream,
        upstream: Upstream,
        state: State,
        boundary: Boundary,
        forwarding: Forwarding<P>,
        target: ConnectTarget,
        acceptance: Acceptance<K>,
    ) -> (connection: Self)
        ensures
            connection@ == (ConnectionView {
                downstream,
                upstream,
                state,
                boundary,
                forwarding: forwarding@,
                target: target@,
                acceptance: acceptance@,
            }),
    {
        IntermediaryConnection {
            downstream,
            upstream,
            state,
            boundary,
            forwarding,
            target,
            acceptance,
        }
    }

    /// Returns the authoritative destination selected for the client component.
    pub fn target(&self) -> (target: &ConnectTarget)
        ensures
            target@ == self@.target,
    {
        &self.target
    }

    /// Returns the single caller-owned state shared by all three middleware layers.
    pub fn state(&self) -> (state: &State)
        ensures
            *state == self@.state,
    {
        &self.state
    }

    /// Returns the proxy-issued cancellation key for this live session.
    pub fn cancellation_key(&self) -> (key: Option<&CancelKey>)
        ensures
            match key {
                Some(key) => self@.acceptance.client_key == Some(key@),
                None => self@.acceptance.client_key is None,
            },
    {
        self.acceptance.client_key.as_ref()
    }

    /// Returns an ordered borrowed view of retained backend messages.
    pub fn held_backend_messages(&self) -> (held: HeldBackendMessages<'_>)
        ensures
            held.held() == self@.forwarding.kept,
    {
        self.forwarding.held_backend_messages()
    }

    /// Policies of this session.
    pub fn acceptance(&self) -> (acceptance: &Acceptance<K>)
        ensures
            acceptance@ == self@.acceptance,
    {
        &self.acceptance
    }

    /// Borrows what a forwarding step works with.
    pub fn parts(&mut self) -> (parts: ForwardingParts<
        '_,
        Downstream,
        Upstream,
        State,
        Boundary,
        P,
    >)
        ensures
            *parts.downstream == old(self)@.downstream,
            *parts.upstream == old(self)@.upstream,
            *parts.state == old(self)@.state,
            *parts.boundary == old(self)@.boundary,
            parts.forwarding@ == old(self)@.forwarding,
            final(self)@ == (ConnectionView {
                downstream: *final(parts.downstream),
                upstream: *final(parts.upstream),
                state: *final(parts.state),
                boundary: *final(parts.boundary),
                forwarding: final(parts.forwarding)@,
                ..old(self)@
            }),
    {
        ForwardingParts {
            downstream: &mut self.downstream,
            upstream: &mut self.upstream,
            state: &mut self.state,
            boundary: &mut self.boundary,
            forwarding: &mut self.forwarding,
        }
    }

    /// Detaches this session's cancellation mapping explicitly.
    pub fn detach_cancellation(&mut self) -> (route: Option<CancellationRoute>)
        ensures
            final(self)@ == (ConnectionView {
                acceptance: AcceptanceView { client_key: None, ..old(self)@.acceptance },
                ..old(self)@
            }),
            match old(self)@.acceptance.client_key {
                Some(client) => detaches(old(self)@.acceptance.registry, client, route),
                None => route is None,
            },
    {
        self.acceptance.detach()
    }

    /// Deliberately tears down both roles and recovers what they own, along with the
    /// boundary middleware, the sole connection state, and the route of the
    /// cancellation key, which is detached. Nothing may be held; a flush for teardown
    /// comes first.
    pub fn teardown(self) -> (parts: (
        Downstream,
        Upstream,
        State,
        Boundary,
        Option<CancellationRoute>,
    ))
        requires
            self@.forwarding.kept.len() == 0,
            self@.forwarding.waiting is None,
        ensures
            parts.0 == self@.downstream,
            parts.1 == self@.upstream,
            parts.2 == self@.state,
            parts.3 == self@.boundary,
            match self@.acceptance.client_key {
                Some(client) => detaches(self@.acceptance.registry, client, parts.4),
                None => parts.4 is None,
            },
    {
        let mut acceptance = self.acceptance;
        let route = acceptance.detach();
        (self.downstream, self.upstream, self.state, self.boundary, route)
    }
}

/// The client learns of a failure only under the disclosing policy, and then only
/// that one occurred: every disclosing failure looks the same.
pub proof fn law_failures_are_indistinguishable(
    policy: EstablishmentFailurePolicy,
    first: FailurePoint,
    second: FailurePoint,
)
    ensures
        policy == EstablishmentFailurePolicy::Close ==> disclosed(policy, first) is None,
        disclosed(policy, first) is Some && disclosed(policy, second) is Some ==> disclosed(
            policy,
            first,
        ) == disclosed(policy, second),
        disclosed(policy, first) is Some ==> !first.registered(),
{
}

/// Cancellation is never forwarded under the rejecting policy.
pub proof fn law_rejected_cancellation_is_never_forwarded<K: IntermediaryCancellationRegistry>(
    acceptance: AcceptanceView<K>,
    client: CancelKeyView,
    step: CancellationStep,
)
    requires
        acceptance.cancellation == CancellationPolicy::Reject,
        cancels_key(acceptance, client, step),
    ensures
        step is Rejected,
{
}

/// A cancellation is forwarded only along a route that the registry resolved the
/// presented key to.
pub proof fn law_forwarded_cancellation_was_resolved<K: IntermediaryCancellationRegistry>(
    acceptance: AcceptanceView<K>,
    client: CancelKeyView,
    route: CancellationRoute,
)
    requires
        cancels_key(acceptance, client, CancellationStep::Forward(route)),
    ensures
        acceptance.cancellation == CancellationPolicy::Forward,
        exists|key: CancelKey|
            key@ == client && #[trigger] acceptance.registry.resolution(key, Some(route)),
{
    let (key, resolved) = choose|key: CancelKey, resolved: Option<CancellationRoute>|
        key@ == client && #[trigger] cancels(
            acceptance,
            key,
            resolved,
            CancellationStep::Forward(route),
        );
    assert(resolved == Some(route));
    assert(acceptance.registry.resolution(key, Some(route)));
}

/// What is announced to the client is the key that the registry issued for it.
pub proof fn law_announced_key_is_registered<K: IntermediaryCancellationRegistry>(
    before: AcceptanceView<K>,
    target: ConnectTargetView,
    upstream: CancelKeyView,
    message: BackendMessage,
    after: AcceptanceView<K>,
)
    requires
        registers_upstream(
            before,
            target,
            upstream,
            Ok::<Option<BackendMessage>, K::Error>(Some(message)),
            after,
        ),
    ensures
        after.client_key is Some,
        message@ == announcement(after.client_key->0),
{
}

/// A client is told of a failure only where the policy allows it and nothing was sent to
/// it yet, and then the fixed diagnostic; a key is detached only once one may have been
/// registered. No failure does both.
pub proof fn law_disclosure(policy: EstablishmentFailurePolicy, point: FailurePoint)
    ensures
        disclosed(policy, point) is Some <==> policy == EstablishmentFailurePolicy::SafeDiagnostic
            && (point == FailurePoint::StartupParameters || point
            == FailurePoint::AuthenticatedRoute || point == FailurePoint::Client || point
            == FailurePoint::CancellationRegistry),
        disclosed(policy, point) matches Some(message) ==> message == safe_diagnostic(),
        point.registered() <==> point == FailurePoint::KeyMiddleware || point
            == FailurePoint::KeyWithheld || point == FailurePoint::KeyRewritten || point
            == FailurePoint::KeyOutput || point == FailurePoint::ReadinessWithheld || point
            == FailurePoint::ReadinessOutput,
        !(point.told() && point.registered()),
{
}

/// A key is announced as it was registered, and kept for the time it is detached.
pub proof fn law_registered_key_is_announced<K: IntermediaryCancellationRegistry>(
    before: AcceptanceView<K>,
    route: CancellationRoute,
    registered: Result<CancelKey, K::Error>,
    result: Result<Option<BackendMessage>, K::Error>,
    after: AcceptanceView<K>,
)
    requires
        registers_route(before, route, registered, result, after),
    ensures
        registered matches Ok(key) ==> {
            &&& result matches Ok(Some(message))
            &&& message@ == (BackendView::BackendKeyData {
                process_id: key@.process_id,
                secret_key: key@.secret_key,
            })
            &&& after.client_key == Some(key@)
        },
        registered matches Err(error) ==> result == Err::<Option<BackendMessage>, _>(error) && after
            == before,
        after.cancellation == before.cancellation,
        after.failure == before.failure,
{
}

/// A request to cancel goes where the registry sends it, or nowhere.
pub proof fn law_cancellation_follows_the_registry<K: IntermediaryCancellationRegistry>(
    acceptance: AcceptanceView<K>,
    client: CancelKey,
    resolved: Option<CancellationRoute>,
    step: CancellationStep,
)
    requires
        cancels(acceptance, client, resolved, step),
    ensures
        resolved matches Some(route) ==> step == CancellationStep::Forward(route),
        resolved is None ==> step == CancellationStep::Rejected,
{
}

/// A client's session is routed if and only if its startup values are representable and a
/// destination was selected, and it is routed there with just these values.
pub proof fn law_sessions_are_routed<K>(
    acceptance: &Acceptance<K>,
    startup: &StartupMessage,
    selected: Option<ConnectTarget>,
    result: Result<(StartupParameters, ConnectTarget), (FailurePoint, Option<ParameterTextError>)>,
)
    requires
        call_ensures(Acceptance::<K>::on_session, (acceptance, startup, selected), result),
    ensures
        result is Ok <==> selected is Some && first_fault(text_list(startup.parameters.listed()))
            is None,
        result matches Ok((parameters, target)) ==> {
            let given = startup@.parameters;
            &&& Some(target) == selected
            &&& parameters@.user is Some <==> given.dom().contains(encode_utf8("user"@))
            &&& parameters@.user matches Some(user) ==> user == decode_utf8(
                given[encode_utf8("user"@)],
            )
            &&& parameters@.database is Some <==> given.dom().contains(encode_utf8("database"@))
            &&& parameters@.database matches Some(database) ==> database == decode_utf8(
                given[encode_utf8("database"@)],
            )
            &&& forall|name: Seq<u8>| #[trigger]
                parameters@.extensions.dom().contains(name) ==> given.dom().contains(name)
                    && parameters@.extensions[name] == given[name]
        },
        result matches Err((point, fault)) ==> if fault is Some {
            point == FailurePoint::StartupParameters
        } else {
            point == FailurePoint::Unrouted
        },
{
    law_startup_fields(startup@.parameters);
}

} // verus!
