//! Policies of an intermediary, and the facts that they are shown.

use vstd::prelude::*;
use vstd::utf8::*;

use crate::client_component::target::{
    ConnectTarget, ConnectTargetView, ParameterTextError,
};
use crate::codec::backend::BackendView;
use crate::codec::diagnostic::{diagnostic_fields, DiagnosticFieldView};
use crate::codec::{BackendMessage, DiagnosticField, DiagnosticResponse};
use crate::demux::{CancelKey, CancelKeyView};
use crate::octets::copy_from_slice;

verus! {

/// Required posture for out-of-band cancellation connections.
#[derive(Clone, Copy, Debug, PartialEq, Eq, Structural)]
pub enum CancellationPolicy {
    /// Reject cancellation packets instead of silently routing them.
    Reject,
    /// Resolve and forward cancellation using the configured registry.
    Forward,
}

/// Disclosure-safe handling for failures after a downstream connection exists.
#[derive(Clone, Copy, Debug, PartialEq, Eq, Structural)]
pub enum EstablishmentFailurePolicy {
    /// Silently close without exposing internal failure details.
    Close,
    /// Send one fixed, non-disclosing PostgreSQL diagnostic and then close.
    SafeDiagnostic,
}

impl Default for EstablishmentFailurePolicy {
    fn default() -> (policy: Self)
        ensures
            policy == EstablishmentFailurePolicy::Close,
    {
        EstablishmentFailurePolicy::Close
    }
}

/// Code of a diagnostic's severity field.
pub const SEVERITY_FIELD: u8 = 83;

/// Code of a diagnostic's message field.
pub const MESSAGE_FIELD: u8 = 77;

/// Severity of the fixed diagnostic.
pub const FAILURE_SEVERITY: &'static str = "ERROR";

/// Message of the fixed diagnostic.
pub const FAILURE_MESSAGE: &'static str = "connection establishment failed";

/// The fixed diagnostic, which says nothing about the cause.
pub open spec fn safe_diagnostic() -> BackendView {
    BackendView::ErrorResponse(
        seq![
            DiagnosticFieldView { code: SEVERITY_FIELD, value: encode_utf8(FAILURE_SEVERITY@) },
            DiagnosticFieldView { code: MESSAGE_FIELD, value: encode_utf8(FAILURE_MESSAGE@) },
        ],
    )
}

/// The fixed diagnostic, which says nothing about the cause.
pub fn safe_establishment_diagnostic() -> (message: BackendMessage)
    ensures
        message@ == safe_diagnostic(),
{
    let mut fields: Vec<DiagnosticField> = Vec::new();
    fields.push(
        DiagnosticField {
            code: SEVERITY_FIELD,
            value: copy_from_slice(FAILURE_SEVERITY.as_bytes()),
        },
    );
    fields.push(
        DiagnosticField { code: MESSAGE_FIELD, value: copy_from_slice(FAILURE_MESSAGE.as_bytes()) },
    );
    assert(diagnostic_fields(fields@) =~= safe_diagnostic()->ErrorResponse_0);
    BackendMessage::ErrorResponse(DiagnosticResponse { fields })
}

/// A destination and upstream key retained independently of startup routing.
pub struct CancellationRoute {
    target: ConnectTarget,
    upstream: CancelKey,
}

/// What a route leads to.
pub struct RouteView {
    pub target: ConnectTargetView,
    pub upstream: CancelKeyView,
}

impl View for CancellationRoute {
    type V = RouteView;

    closed spec fn view(&self) -> RouteView {
        RouteView { target: self.target@, upstream: self.upstream@ }
    }
}

impl CancellationRoute {
    /// Creates a cancellation route.
    pub fn new(target: ConnectTarget, upstream: CancelKey) -> (route: Self)
        ensures
            route@ == (RouteView { target: target@, upstream: upstream@ }),
    {
        CancellationRoute { target, upstream }
    }

    /// Returns the original destination, including application metadata.
    pub fn target(&self) -> (target: &ConnectTarget)
        ensures
            target@ == self@.target,
    {
        &self.target
    }

    /// Returns the upstream cancellation key.
    pub fn upstream_key(&self) -> (key: &CancelKey)
        ensures
            key@ == self@.upstream,
    {
        &self.upstream
    }
}

impl Clone for CancellationRoute {
    fn clone(&self) -> (copy: Self)
        ensures
            copy@ == self@,
    {
        CancellationRoute { target: self.target.duplicate(), upstream: self.upstream.duplicate() }
    }
}

/// Application-owned concurrent cancellation mapping and key allocator.
///
/// Methods take `&self` so implementations can use an application-selected lock,
/// actor, shared store, or other concurrency mechanism. An implementation says how
/// each call may turn out; one that does not say so promises nothing.
pub trait IntermediaryCancellationRegistry: Sized {
    /// Collision, allocation, or storage failure.
    type Error;

    /// Whether a route may be put up for registration.
    open spec fn registers(&self, route: CancellationRoute) -> bool {
        true
    }

    /// How registering a route may turn out.
    open spec fn registration(
        &self,
        route: CancellationRoute,
        result: Result<CancelKey, Self::Error>,
    ) -> bool {
        true
    }

    /// Records a live route and returns the proxy key exposed downstream.
    ///
    /// # Errors
    ///
    /// Returns an application-defined allocation, collision, or storage error.
    fn register(&self, route: CancellationRoute) -> (result: Result<CancelKey, Self::Error>)
        requires
            self.registers(route),
        ensures
            self.registration(route, result),
    ;

    /// How resolving a client key may turn out.
    open spec fn resolution(&self, client: CancelKey, route: Option<CancellationRoute>) -> bool {
        true
    }

    /// Resolves a later out-of-band request without consulting startup routing.
    fn resolve(&self, client: &CancelKey) -> (route: Option<CancellationRoute>)
        ensures
            self.resolution(*client, route),
    ;

    /// How detaching a client key may turn out.
    open spec fn detachment(&self, client: CancelKey, route: Option<CancellationRoute>) -> bool {
        true
    }

    /// Explicitly detaches a live client key.
    fn detach(&self, client: &CancelKey) -> (route: Option<CancellationRoute>)
        ensures
            self.detachment(*client, route),
    ;
}

/// Marker registry used by explicit cancellation rejection.
#[derive(Clone, Copy, Debug, PartialEq, Eq, Structural)]
pub struct RejectCancellation;

/// No registry error: the marker registry never registers. A type index.
#[derive(Clone, Copy, Debug, PartialEq, Eq, Structural)]
pub enum NeverRegistered {
    Index,
}

impl Default for RejectCancellation {
    fn default() -> (registry: Self)
        ensures
            registry == RejectCancellation,
    {
        RejectCancellation
    }
}

impl IntermediaryCancellationRegistry for RejectCancellation {
    type Error = NeverRegistered;

    open spec fn registers(&self, route: CancellationRoute) -> bool {
        false
    }

    open spec fn registration(
        &self,
        route: CancellationRoute,
        result: Result<CancelKey, NeverRegistered>,
    ) -> bool {
        false
    }

    fn register(&self, _route: CancellationRoute) -> (result: Result<CancelKey, NeverRegistered>) {
        Err(NeverRegistered::Index)
    }

    open spec fn resolution(&self, client: CancelKey, route: Option<CancellationRoute>) -> bool {
        route is None
    }

    fn resolve(&self, _client: &CancelKey) -> (route: Option<CancellationRoute>) {
        None
    }

    open spec fn detachment(&self, client: CancelKey, route: Option<CancellationRoute>) -> bool {
        route is None
    }

    fn detach(&self, _client: &CancelKey) -> (route: Option<CancellationRoute>) {
        None
    }
}

/// Immutable server-side facts available before authentication begins.
#[derive(Clone, Copy, Debug)]
pub struct InitialServerContext<'a, Peer, Tls> {
    peer: &'a Peer,
    tls: &'a Tls,
}

impl<'a, Peer, Tls> InitialServerContext<'a, Peer, Tls> {
    /// The peer metadata and the negotiated security.
    pub closed spec fn facts(self) -> (Peer, Tls) {
        (*self.peer, *self.tls)
    }

    pub fn new(peer: &'a Peer, tls: &'a Tls) -> (context: Self)
        ensures
            context.facts() == (*peer, *tls),
    {
        InitialServerContext { peer, tls }
    }

    /// Returns application-supplied peer metadata.
    pub fn peer(&self) -> (peer: &Peer)
        ensures
            *peer == self.facts().0,
    {
        self.peer
    }

    /// Returns transport security negotiated on the client-facing side.
    pub fn tls(&self) -> (tls: &Tls)
        ensures
            *tls == self.facts().1,
    {
        self.tls
    }
}

/// Borrowed facts passed to authenticated route policy.
#[derive(Clone, Copy, Debug)]
pub struct AuthenticatedRouteContext<'a, Peer, Identity> {
    peer: &'a Peer,
    identity: &'a Identity,
}

impl<'a, Peer, Identity> AuthenticatedRouteContext<'a, Peer, Identity> {
    /// The peer metadata and the verified identity.
    pub closed spec fn facts(self) -> (Peer, Identity) {
        (*self.peer, *self.identity)
    }

    pub fn new(peer: &'a Peer, identity: &'a Identity) -> (context: Self)
        ensures
            context.facts() == (*peer, *identity),
    {
        AuthenticatedRouteContext { peer, identity }
    }

    /// Returns application-supplied peer metadata.
    pub fn peer(&self) -> (peer: &Peer)
        ensures
            *peer == self.facts().0,
    {
        self.peer
    }

    /// Returns independently verified client-facing identity evidence.
    pub fn identity(&self) -> (identity: &Identity)
        ensures
            *identity == self.facts().1,
    {
        self.identity
    }
}

/// Identity authenticated-route policy.
#[derive(Clone, Copy, Debug, PartialEq, Eq, Structural)]
pub struct AllowAuthenticatedRoute;

impl Default for AllowAuthenticatedRoute {
    fn default() -> (policy: Self)
        ensures
            policy == AllowAuthenticatedRoute,
    {
        AllowAuthenticatedRoute
    }
}

impl AllowAuthenticatedRoute {
    /// Keeps the destination that startup routing selected.
    pub fn route(&self, target: ConnectTarget) -> (kept: ConnectTarget)
        ensures
            kept == target,
    {
        target
    }
}

/// Identity forwarding-boundary middleware.
#[derive(Clone, Copy, Debug, PartialEq, Eq, Structural)]
pub struct IdentityIntermediaryMiddleware;

impl Default for IdentityIntermediaryMiddleware {
    fn default() -> (middleware: Self)
        ensures
            middleware == IdentityIntermediaryMiddleware,
    {
        IdentityIntermediaryMiddleware
    }
}

/// Creates fresh forwarding-boundary middleware for one established pair. Unless it
/// says otherwise, it serves every pair and promises nothing of the handler.
pub trait IntermediaryMiddlewareFactory<ServerContext, ClientContext> {
    /// Per-connection boundary handler.
    type Handler;

    /// Whether a handler can be created for two contexts.
    open spec fn serves(&self, server: ServerContext, client: ClientContext) -> bool {
        true
    }

    /// Whether `handler` may be created for two contexts.
    open spec fn creates(
        &self,
        server: ServerContext,
        client: ClientContext,
        handler: Self::Handler,
    ) -> bool {
        true
    }

    /// Creates an isolated handler from both distinct role contexts.
    fn create(&self, server: &ServerContext, client: &ClientContext) -> (handler: Self::Handler)
        requires
            self.serves(*server, *client),
        ensures
            self.creates(*server, *client, handler),
    ;
}

impl<
    ServerContext,
    ClientContext,
    Handler,
    Factory: Fn(&ServerContext, &ClientContext) -> Handler,
> IntermediaryMiddlewareFactory<ServerContext, ClientContext> for Factory {
    type Handler = Handler;

    open spec fn serves(&self, server: ServerContext, client: ClientContext) -> bool {
        call_requires(*self, (&server, &client))
    }

    open spec fn creates(
        &self,
        server: ServerContext,
        client: ClientContext,
        handler: Handler,
    ) -> bool {
        call_ensures(*self, (&server, &client), handler)
    }

    fn create(&self, server: &ServerContext, client: &ClientContext) -> (handler: Handler) {
        self(server, client)
    }
}

impl<ServerContext, ClientContext> IntermediaryMiddlewareFactory<
    ServerContext,
    ClientContext,
> for IdentityIntermediaryMiddleware {
    type Handler = IdentityIntermediaryMiddleware;

    open spec fn serves(&self, server: ServerContext, client: ClientContext) -> bool {
        true
    }

    open spec fn creates(
        &self,
        server: ServerContext,
        client: ClientContext,
        handler: IdentityIntermediaryMiddleware,
    ) -> bool {
        handler == *self
    }

    fn create(&self, _server: &ServerContext, _client: &ClientContext) -> (handler:
        IdentityIntermediaryMiddleware) {
        *self
    }
}

/// Failure while decoding or resolving a startup route.
#[derive(Debug)]
pub enum StartupResolutionError<Error> {
    /// A startup parameter was not representable by the structured facade.
    Parameters(ParameterTextError),
    /// The application resolver rejected the route.
    Resolver(Error),
}

/// Failure while establishing both independently authenticated roles. It has no
/// debug representation, so that no cause can end up in a log.
pub enum IntermediaryAcceptError<
    ServerError,
    ResolverError,
    RouteError,
    ClientError,
    RegistryError,
    CancellationError,
    MiddlewareError,
    OutputError,
> {
    /// Client-facing TLS, startup, or authentication failed.
    Server(ServerError),
    /// Startup routing failed before client-facing authentication.
    StartupRoute(StartupResolutionError<ResolverError>),
    /// The explicit cancellation posture rejected an out-of-band request.
    CancellationRejected,
    /// Authenticated routing rejected or failed to refine the destination.
    AuthenticatedRoute(RouteError),
    /// PostgreSQL-facing connection, TLS, startup, or authentication failed.
    Client(ClientError),
    /// Cancellation-key allocation, collision detection, or storage failed.
    CancellationRegistry(RegistryError),
    /// A generated establishment message could not be written downstream.
    ServerOutput(OutputError),
    /// Opening or writing the one-shot upstream cancellation connection failed.
    Cancellation(CancellationError),
    /// Forwarding-boundary middleware rejected generated establishment output.
    Middleware(MiddlewareError),
}

impl<S, R, A, C, K, X, M, O> IntermediaryAcceptError<S, R, A, C, K, X, M, O> {
    /// Description of the failure without its cause.
    pub fn message(&self) -> (message: &'static str)
        ensures
            message@ == match self {
                IntermediaryAcceptError::Server(_) => "client-facing establishment failed"@,
                IntermediaryAcceptError::StartupRoute(_) => "startup routing failed"@,
                IntermediaryAcceptError::CancellationRejected =>
                    "cancellation is explicitly rejected"@,
                IntermediaryAcceptError::AuthenticatedRoute(_) => "authenticated routing failed"@,
                IntermediaryAcceptError::Client(_) => "PostgreSQL-facing establishment failed"@,
                IntermediaryAcceptError::CancellationRegistry(_) =>
                    "cancellation registration failed"@,
                IntermediaryAcceptError::ServerOutput(_) =>
                    "client-facing establishment output failed"@,
                IntermediaryAcceptError::Cancellation(_) => "cancellation forwarding failed"@,
                IntermediaryAcceptError::Middleware(_) =>
                    "forwarding middleware rejected establishment output"@,
            },
    {
        match self {
            IntermediaryAcceptError::Server(_) => "client-facing establishment failed",
            IntermediaryAcceptError::StartupRoute(_) => "startup routing failed",
            IntermediaryAcceptError::CancellationRejected => "cancellation is explicitly rejected",
            IntermediaryAcceptError::AuthenticatedRoute(_) => "authenticated routing failed",
            IntermediaryAcceptError::Client(_) => "PostgreSQL-facing establishment failed",
            IntermediaryAcceptError::CancellationRegistry(_) => "cancellation registration failed",
            IntermediaryAcceptError::ServerOutput(_) => "client-facing establishment output failed",
            IntermediaryAcceptError::Cancellation(_) => "cancellation forwarding failed",
            IntermediaryAcceptError::Middleware(_) =>
                "forwarding middleware rejected establishment output",
        }
    }
}

/// The fixed diagnostic is an error with a severity and a message, and no other field.
pub proof fn law_safe_diagnostic()
    ensures
        safe_diagnostic() matches BackendView::ErrorResponse(fields) && fields.len() == 2
            && fields[0].code == 0x53 && fields[0].value == encode_utf8("ERROR"@) && fields[1].code
            == 0x4d && fields[1].value == encode_utf8("connection establishment failed"@),
{
}

} // verus!
