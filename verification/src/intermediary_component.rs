//! Builder-centred composition of the client-facing and PostgreSQL-facing roles.

pub mod acceptance;
pub mod batching;
pub mod builder;
pub mod establishing;
pub mod forwarding;
pub mod policy;
pub mod relaying;
pub mod roles;

pub use acceptance::{
    Acceptance, CancellationStep, FailurePoint, ForwardingParts, IntermediaryAccept,
    IntermediaryConnection, IntermediaryContexts,
};
pub use batching::{
    BackendBatchOutput, BackendFlushReason, BackendHoldConfigError, BackendHoldLimits,
    BackendMiddlewareOutput, FrontendMiddlewareOutput, HeldBackendMessages,
};
pub use builder::{Intermediary, IntermediaryBuildError, IntermediaryBuilder};
pub use forwarding::{
    is_backend_batch_barrier, keep_holding, BackendBatchForwarding, BackendBatchProjectionError,
    BackendDecision, BackendForwarding, ForwardError, ForwardSource, ForwardedMessage, Forwarding,
    FrontendForwarding, LocalStep,
};
pub use policy::{
    AllowAuthenticatedRoute, AuthenticatedRouteContext, CancellationPolicy, CancellationRoute,
    EstablishmentFailurePolicy, IdentityIntermediaryMiddleware, InitialServerContext,
    IntermediaryAcceptError, IntermediaryCancellationRegistry, IntermediaryMiddlewareFactory,
    RejectCancellation, StartupResolutionError,
};
pub use relaying::RelayedResponse;
pub use roles::ServerConnectionCore;
