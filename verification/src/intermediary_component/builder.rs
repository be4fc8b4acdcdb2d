//! Configuration of a reusable intermediary component.

use vstd::prelude::*;

use super::acceptance::Acceptance;
use super::batching::BackendHoldLimits;
use super::forwarding::{Forwarding, ForwardingView};
use super::policy::{
    AllowAuthenticatedRoute, CancellationPolicy, EstablishmentFailurePolicy,
    IdentityIntermediaryMiddleware, RejectCancellation,
};
use crate::pipeline::{Ledger, NoPipeline, PipelinePolicy, RequestState};

verus! {

/// Deterministic failure while assembling an intermediary component.
#[derive(Clone, Copy, Debug, PartialEq, Eq, Structural)]
pub enum IntermediaryBuildError {
    /// No complete client-facing server role was supplied.
    MissingServer,
    /// No complete PostgreSQL-facing client role was supplied.
    MissingClient,
    /// No asynchronous startup resolver was supplied.
    MissingStartupResolver,
    /// Cancellation behavior was not selected explicitly.
    MissingCancellationPolicy,
}

impl IntermediaryBuildError {
    /// Description of the error.
    pub fn message(&self) -> (message: &'static str)
        ensures
            message@ == match *self {
                IntermediaryBuildError::MissingServer =>
                    "an intermediary server component is required"@,
                IntermediaryBuildError::MissingClient =>
                    "an intermediary client component is required"@,
                IntermediaryBuildError::MissingStartupResolver =>
                    "an asynchronous startup resolver is required"@,
                IntermediaryBuildError::MissingCancellationPolicy =>
                    "an explicit cancellation policy is required"@,
            },
    {
        match *self {
            IntermediaryBuildError::MissingServer => "an intermediary server component is required",
            IntermediaryBuildError::MissingClient => "an intermediary client component is required",
            IntermediaryBuildError::MissingStartupResolver =>
                "an asynchronous startup resolver is required",
            IntermediaryBuildError::MissingCancellationPolicy =>
                "an explicit cancellation policy is required",
        }
    }
}

/// A reusable operational intermediary configuration.
pub struct Intermediary<
    Server = (),
    Client = (),
    Resolver = (),
    Route = AllowAuthenticatedRoute,
    Policy = NoPipeline,
    Boundary = IdentityIntermediaryMiddleware,
    Cancellation = RejectCancellation,
> {
    server: Server,
    client: Client,
    resolver: Resolver,
    route: Route,
    pipeline: Policy,
    boundary: Boundary,
    cancellation: CancellationPolicy,
    cancellation_registry: Cancellation,
    failure_policy: EstablishmentFailurePolicy,
    backend_hold_limits: Option<BackendHoldLimits>,
}

/// Progressive builder for [`Intermediary`].
pub struct IntermediaryBuilder<
    Server = (),
    Client = (),
    Resolver = (),
    Route = AllowAuthenticatedRoute,
    Policy = NoPipeline,
    Boundary = IdentityIntermediaryMiddleware,
    Cancellation = RejectCancellation,
> {
    server: Option<Server>,
    client: Option<Client>,
    resolver: Option<Resolver>,
    route: Route,
    pipeline: Policy,
    boundary: Boundary,
    cancellation: Option<CancellationPolicy>,
    cancellation_registry: Cancellation,
    failure_policy: EstablishmentFailurePolicy,
    backend_hold_limits: Option<BackendHoldLimits>,
}

/// What has been configured so far.
pub struct BuilderView<S, C, R, A, P, B, K> {
    pub server: Option<S>,
    pub client: Option<C>,
    pub resolver: Option<R>,
    pub route: A,
    pub pipeline: P,
    pub boundary: B,
    pub cancellation: Option<CancellationPolicy>,
    pub cancellation_registry: K,
    pub failure_policy: EstablishmentFailurePolicy,
    pub backend_hold_limits: Option<BackendHoldLimits>,
}

/// The configuration of a component.
pub struct IntermediaryView<S, C, R, A, P, B, K> {
    pub server: S,
    pub client: C,
    pub resolver: R,
    pub route: A,
    pub pipeline: P,
    pub boundary: B,
    pub cancellation: CancellationPolicy,
    pub cancellation_registry: K,
    pub failure_policy: EstablishmentFailurePolicy,
    pub backend_hold_limits: Option<BackendHoldLimits>,
}

impl<S, C, R, A, P, B, K> View for IntermediaryBuilder<S, C, R, A, P, B, K> {
    type V = BuilderView<S, C, R, A, P, B, K>;

    closed spec fn view(&self) -> BuilderView<S, C, R, A, P, B, K> {
        BuilderView {
            server: self.server,
            client: self.client,
            resolver: self.resolver,
            route: self.route,
            pipeline: self.pipeline,
            boundary: self.boundary,
            cancellation: self.cancellation,
            cancellation_registry: self.cancellation_registry,
            failure_policy: self.failure_policy,
            backend_hold_limits: self.backend_hold_limits,
        }
    }
}

impl<S, C, R, A, P, B, K> View for Intermediary<S, C, R, A, P, B, K> {
    type V = IntermediaryView<S, C, R, A, P, B, K>;

    closed spec fn view(&self) -> IntermediaryView<S, C, R, A, P, B, K> {
        IntermediaryView {
            server: self.server,
            client: self.client,
            resolver: self.resolver,
            route: self.route,
            pipeline: self.pipeline,
            boundary: self.boundary,
            cancellation: self.cancellation,
            cancellation_registry: self.cancellation_registry,
            failure_policy: self.failure_policy,
            backend_hold_limits: self.backend_hold_limits,
        }
    }
}

/// The posture that asking for one selects.
pub open spec fn posture(asked: CancellationPolicy) -> Option<CancellationPolicy> {
    match asked {
        CancellationPolicy::Reject => Some(CancellationPolicy::Reject),
        CancellationPolicy::Forward => None,
    }
}

/// Nothing configured yet.
pub open spec fn unconfigured() -> BuilderView<
    (),
    (),
    (),
    AllowAuthenticatedRoute,
    NoPipeline,
    IdentityIntermediaryMiddleware,
    RejectCancellation,
> {
    BuilderView {
        server: None,
        client: None,
        resolver: None,
        route: AllowAuthenticatedRoute,
        pipeline: NoPipeline,
        boundary: IdentityIntermediaryMiddleware,
        cancellation: None,
        cancellation_registry: RejectCancellation,
        failure_policy: EstablishmentFailurePolicy::Close,
        backend_hold_limits: None,
    }
}

impl Intermediary<()> {
    /// Starts composition of the two complete role configurations.
    pub fn builder() -> (builder: IntermediaryBuilder)
        ensures
            builder@ == unconfigured(),
    {
        IntermediaryBuilder::new()
    }
}

impl Default for IntermediaryBuilder {
    fn default() -> (builder: Self)
        ensures
            builder@ == unconfigured(),
    {
        IntermediaryBuilder::new()
    }
}

impl IntermediaryBuilder {
    /// Starts composition of the two complete role configurations.
    pub fn new() -> (builder: Self)
        ensures
            builder@ == unconfigured(),
    {
        IntermediaryBuilder {
            server: None,
            client: None,
            resolver: None,
            route: AllowAuthenticatedRoute,
            pipeline: NoPipeline,
            boundary: IdentityIntermediaryMiddleware,
            cancellation: None,
            cancellation_registry: RejectCancellation,
            failure_policy: EstablishmentFailurePolicy::Close,
            backend_hold_limits: None,
        }
    }
}

impl<S, C, R, A, P, B, K> IntermediaryBuilder<S, C, R, A, P, B, K> {
    /// Supplies the complete client-facing role configuration.
    #[must_use]
    pub fn server<Next>(self, server: Next) -> (builder: IntermediaryBuilder<
        Next, C, R, A, P, B, K,
    >)
        ensures
            builder@ == (BuilderView {
                server: Some(server),
                client: self@.client,
                resolver: self@.resolver,
                route: self@.route,
                pipeline: self@.pipeline,
                boundary: self@.boundary,
                cancellation: self@.cancellation,
                cancellation_registry: self@.cancellation_registry,
                failure_policy: self@.failure_policy,
                backend_hold_limits: self@.backend_hold_limits,
            }),
    {
        IntermediaryBuilder {
            server: Some(server),
            client: self.client,
            resolver: self.resolver,
            route: self.route,
            pipeline: self.pipeline,
            boundary: self.boundary,
            cancellation: self.cancellation,
            cancellation_registry: self.cancellation_registry,
            failure_policy: self.failure_policy,
            backend_hold_limits: self.backend_hold_limits,
        }
    }

    /// Supplies the complete PostgreSQL-facing role configuration.
    #[must_use]
    pub fn client<Next>(self, client: Next) -> (builder: IntermediaryBuilder<
        S, Next, R, A, P, B, K,
    >)
        ensures
            builder@ == (BuilderView {
                server: self@.server,
                client: Some(client),
                resolver: self@.resolver,
                route: self@.route,
                pipeline: self@.pipeline,
                boundary: self@.boundary,
                cancellation: self@.cancellation,
                cancellation_registry: self@.cancellation_registry,
                failure_policy: self@.failure_policy,
                backend_hold_limits: self@.backend_hold_limits,
            }),
    {
        IntermediaryBuilder {
            server: self.server,
            client: Some(client),
            resolver: self.resolver,
            route: self.route,
            pipeline: self.pipeline,
            boundary: self.boundary,
            cancellation: self.cancellation,
            cancellation_registry: self.cancellation_registry,
            failure_policy: self.failure_policy,
            backend_hold_limits: self.backend_hold_limits,
        }
    }

    /// Supplies the required asynchronous startup resolver.
    #[must_use]
    pub fn startup_resolver<Next>(self, resolver: Next) -> (builder: IntermediaryBuilder<
        S, C, Next, A, P, B, K,
    >)
        ensures
            builder@ == (BuilderView {
                server: self@.server,
                client: self@.client,
                resolver: Some(resolver),
                route: self@.route,
                pipeline: self@.pipeline,
                boundary: self@.boundary,
                cancellation: self@.cancellation,
                cancellation_registry: self@.cancellation_registry,
                failure_policy: self@.failure_policy,
                backend_hold_limits: self@.backend_hold_limits,
            }),
    {
        IntermediaryBuilder {
            server: self.server,
            client: self.client,
            resolver: Some(resolver),
            route: self.route,
            pipeline: self.pipeline,
            boundary: self.boundary,
            cancellation: self.cancellation,
            cancellation_registry: self.cancellation_registry,
            failure_policy: self.failure_policy,
            backend_hold_limits: self.backend_hold_limits,
        }
    }

    /// Supplies optional post-authentication routing policy.
    #[must_use]
    pub fn authenticated_route<Next>(self, route: Next) -> (builder: IntermediaryBuilder<
        S, C, R, Next, P, B, K,
    >)
        ensures
            builder@ == (BuilderView {
                server: self@.server,
                client: self@.client,
                resolver: self@.resolver,
                route: route,
                pipeline: self@.pipeline,
                boundary: self@.boundary,
                cancellation: self@.cancellation,
                cancellation_registry: self@.cancellation_registry,
                failure_policy: self@.failure_policy,
                backend_hold_limits: self@.backend_hold_limits,
            }),
    {
        IntermediaryBuilder {
            server: self.server,
            client: self.client,
            resolver: self.resolver,
            route,
            pipeline: self.pipeline,
            boundary: self.boundary,
            cancellation: self.cancellation,
            cancellation_registry: self.cancellation_registry,
            failure_policy: self.failure_policy,
            backend_hold_limits: self.backend_hold_limits,
        }
    }

    /// Selects lock-step or bounded request pipelining.
    #[must_use]
    pub fn pipeline<Next: PipelinePolicy>(self, pipeline: Next) -> (builder: IntermediaryBuilder<
        S, C, R, A, Next, B, K,
    >)
        ensures
            builder@ == (BuilderView {
                server: self@.server,
                client: self@.client,
                resolver: self@.resolver,
                route: self@.route,
                pipeline: pipeline,
                boundary: self@.boundary,
                cancellation: self@.cancellation,
                cancellation_registry: self@.cancellation_registry,
                failure_policy: self@.failure_policy,
                backend_hold_limits: self@.backend_hold_limits,
            }),
    {
        IntermediaryBuilder {
            server: self.server,
            client: self.client,
            resolver: self.resolver,
            route: self.route,
            pipeline,
            boundary: self.boundary,
            cancellation: self.cancellation,
            cancellation_registry: self.cancellation_registry,
            failure_policy: self.failure_policy,
            backend_hold_limits: self.backend_hold_limits,
        }
    }

    /// Supplies middleware for the forwarding boundary.
    #[must_use]
    pub fn middleware<Next>(self, boundary: Next) -> (builder: IntermediaryBuilder<
        S, C, R, A, P, Next, K,
    >)
        ensures
            builder@ == (BuilderView {
                server: self@.server,
                client: self@.client,
                resolver: self@.resolver,
                route: self@.route,
                pipeline: self@.pipeline,
                boundary: boundary,
                cancellation: self@.cancellation,
                cancellation_registry: self@.cancellation_registry,
                failure_policy: self@.failure_policy,
                backend_hold_limits: self@.backend_hold_limits,
            }),
    {
        IntermediaryBuilder {
            server: self.server,
            client: self.client,
            resolver: self.resolver,
            route: self.route,
            pipeline: self.pipeline,
            boundary,
            cancellation: self.cancellation,
            cancellation_registry: self.cancellation_registry,
            failure_policy: self.failure_policy,
            backend_hold_limits: self.backend_hold_limits,
        }
    }

    /// Selects an explicit cancellation posture. Forwarding is selected by supplying a
    /// registry instead.
    #[must_use]
    pub fn cancellation(self, cancellation: CancellationPolicy) -> (builder: Self)
        ensures
            builder@ == (BuilderView {
                cancellation: posture(cancellation),
                ..self@
            }),
    {
        let cancellation = match cancellation {
            CancellationPolicy::Reject => Some(CancellationPolicy::Reject),
            CancellationPolicy::Forward => None,
        };
        IntermediaryBuilder { cancellation, ..self }
    }

    /// Selects conservative close or one fixed safe diagnostic on establishment failure.
    #[must_use]
    pub fn establishment_failure(self, policy: EstablishmentFailurePolicy) -> (builder: Self)
        ensures
            builder@ == (BuilderView { failure_policy: policy, ..self@ }),
    {
        IntermediaryBuilder { failure_policy: policy, ..self }
    }

    /// Enables bounded connection-owned backend message holding.
    #[must_use]
    pub fn backend_batching(self, limits: BackendHoldLimits) -> (builder: Self)
        ensures
            builder@ == (BuilderView { backend_hold_limits: Some(limits), ..self@ }),
    {
        IntermediaryBuilder { backend_hold_limits: Some(limits), ..self }
    }

    /// Enables forwarding through an application-owned concurrent registry.
    #[must_use]
    pub fn cancellation_registry<Next>(self, registry: Next) -> (builder: IntermediaryBuilder<
        S, C, R, A, P, B, Next,
    >)
        ensures
            builder@ == (BuilderView {
                server: self@.server,
                client: self@.client,
                resolver: self@.resolver,
                route: self@.route,
                pipeline: self@.pipeline,
                boundary: self@.boundary,
                cancellation: Some(CancellationPolicy::Forward),
                cancellation_registry: registry,
                failure_policy: self@.failure_policy,
                backend_hold_limits: self@.backend_hold_limits,
            }),
    {
        IntermediaryBuilder {
            server: self.server,
            client: self.client,
            resolver: self.resolver,
            route: self.route,
            pipeline: self.pipeline,
            boundary: self.boundary,
            cancellation: Some(CancellationPolicy::Forward),
            cancellation_registry: registry,
            failure_policy: self.failure_policy,
            backend_hold_limits: self.backend_hold_limits,
        }
    }

    /// Validates composition and creates a reusable component.
    ///
    /// # Errors
    ///
    /// Returns the first missing mandatory role, resolver, or cancellation configuration.
    pub fn build(self) -> (result: Result<
        Intermediary<S, C, R, A, P, B, K>,
        IntermediaryBuildError,
    >)
        ensures
            match result {
                Ok(intermediary) => self@ == (BuilderView {
                    server: Some(intermediary@.server),
                    client: Some(intermediary@.client),
                    resolver: Some(intermediary@.resolver),
                    route: intermediary@.route,
                    pipeline: intermediary@.pipeline,
                    boundary: intermediary@.boundary,
                    cancellation: Some(intermediary@.cancellation),
                    cancellation_registry: intermediary@.cancellation_registry,
                    failure_policy: intermediary@.failure_policy,
                    backend_hold_limits: intermediary@.backend_hold_limits,
                }),
                Err(IntermediaryBuildError::MissingServer) => self@.server is None,
                Err(IntermediaryBuildError::MissingClient) => self@.server is Some && self@.client
                    is None,
                Err(IntermediaryBuildError::MissingStartupResolver) => self@.server is Some
                    && self@.client is Some && self@.resolver is None,
                Err(IntermediaryBuildError::MissingCancellationPolicy) => self@.server is Some
                    && self@.client is Some && self@.resolver is Some && self@.cancellation is None,
            },
    {
        match (self.server, self.client, self.resolver, self.cancellation) {
            (None, _, _, _) => Err(IntermediaryBuildError::MissingServer),
            (Some(_), None, _, _) => Err(IntermediaryBuildError::MissingClient),
            (Some(_), Some(_), None, _) => Err(IntermediaryBuildError::MissingStartupResolver),
            (Some(_), Some(_), Some(_), None) => Err(
                IntermediaryBuildError::MissingCancellationPolicy,
            ),
            (Some(server), Some(client), Some(resolver), Some(cancellation)) => Ok(
                Intermediary {
                    server,
                    client,
                    resolver,
                    route: self.route,
                    pipeline: self.pipeline,
                    boundary: self.boundary,
                    cancellation,
                    cancellation_registry: self.cancellation_registry,
                    failure_policy: self.failure_policy,
                    backend_hold_limits: self.backend_hold_limits,
                },
            ),
        }
    }
}

impl<S, C, R, A, P, B, K> Intermediary<S, C, R, A, P, B, K> {
    /// The client-facing role.
    pub fn server(&self) -> (server: &S)
        ensures
            *server == self@.server,
    {
        &self.server
    }

    /// The PostgreSQL-facing role.
    pub fn client(&self) -> (client: &C)
        ensures
            *client == self@.client,
    {
        &self.client
    }

    /// The startup resolver.
    pub fn resolver(&self) -> (resolver: &R)
        ensures
            *resolver == self@.resolver,
    {
        &self.resolver
    }

    /// The post-authentication routing policy.
    pub fn route(&self) -> (route: &A)
        ensures
            *route == self@.route,
    {
        &self.route
    }

    /// The boundary middleware factory.
    pub fn boundary(&self) -> (boundary: &B)
        ensures
            *boundary == self@.boundary,
    {
        &self.boundary
    }

    /// The cancellation posture.
    pub fn cancellation(&self) -> (policy: CancellationPolicy)
        ensures
            policy == self@.cancellation,
    {
        self.cancellation
    }
}

impl<S, C, R, A, P: PipelinePolicy, B, K: Clone> Intermediary<S, C, R, A, P, B, K> {
    /// Begins the acceptance of one client. The registry is shared.
    pub fn accept(&self) -> (acceptance: Acceptance<K>)
        ensures
            acceptance@.cancellation == self@.cancellation,
            acceptance@.failure == self@.failure_policy,
            cloned(self@.cancellation_registry, acceptance@.registry),
            acceptance@.client_key is None,
    {
        Acceptance::new(
            self.cancellation,
            self.failure_policy,
            self.cancellation_registry.clone(),
        )
    }

    /// Ordering state of one established pair.
    pub fn forwarding(&self) -> (forwarding: Forwarding<P>)
        ensures
            forwarding@ == (ForwardingView {
                ledger: Ledger {
                    operations: Seq::empty(),
                    request: RequestState::Ready,
                    response: None,
                    next_id: 0,
                    limit: self@.pipeline.operations(),
                },
                pending: None,
                waiting: None,
                kept: Seq::empty(),
                limits: self@.backend_hold_limits,
                local: Seq::empty(),
            }),
    {
        Forwarding::new(self.pipeline, self.backend_hold_limits)
    }
}

/// Forwarding of cancellation is selected by supplying a registry, and only so:
/// asking for it without one leaves the posture unselected, which cannot be built.
pub proof fn law_forwarding_needs_a_registry(asked: CancellationPolicy)
    ensures
        posture(asked) != Some(CancellationPolicy::Forward),
        asked == CancellationPolicy::Forward ==> posture(asked) is None,
{
}

} // verus!
