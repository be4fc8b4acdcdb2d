//! Typed PostgreSQL wire-protocol building blocks.

pub mod auth;
pub mod backend_hold;
pub mod cancel;
pub mod cleanliness;
pub mod client_component;
pub mod codec;
pub mod conn;
pub mod credentials;
pub mod crypto;
pub mod demux;
pub mod erased;
pub mod error;
pub mod grammar;
pub mod integrations;
pub mod intermediary;
pub mod intermediary_component;
pub mod lists;
pub mod middleware;
pub mod net;
pub mod octet_map;
pub mod octets;
pub mod pipeline;
pub mod pre_startup;
pub mod replication;
pub mod resources;
pub mod runtime_middleware;
pub mod sasl_client;
pub mod scram;
pub mod server_auth;
pub mod server_session;
pub mod session;
pub mod startup;
pub mod wire;

pub use cancel::CancellationRequest;
pub use client_component::{
    BuildError, CancelError, Client, ClientAuthenticationChallenge, ClientAuthenticationError,
    ClientAuthenticationResponse, ClientBuilder, ClientConnection, ClientConnectionContext,
    ClientInitialContext, ClientTlsConfiguration, ClientTlsError, ClientTlsPolicy,
    ClientTlsStatus, ClientTransport, ConnectError, ConnectTarget, ConnectionChanged,
    ConnectionClean, IdentityHandler, ProtocolLimitError, ProtocolLimits, ReloadableClientTls,
    StartupParameterError, StartupParameters, StaticClientCredentialSession,
    StaticClientCredentials, StaticCredentialError, TrustClientAuthentication,
};
pub use codec::{
    Authentication, BackendMessage, Bind, Close, CopyResponse, DataRow, Describe, DescribeTarget,
    DiagnosticField, DiagnosticResponse, Execute, FieldDescription, FrontendMessage, FunctionCall,
    NegotiateProtocolVersion, Parse, RowDescription, TransactionStatus,
};
pub use conn::{Conn, Dirty, Pristine};
pub use demux::CancelKey;
pub use intermediary_component::{
    AllowAuthenticatedRoute, AuthenticatedRouteContext, BackendBatchForwarding,
    BackendBatchOutput, BackendBatchProjectionError, BackendFlushReason, BackendForwarding,
    BackendHoldConfigError, BackendHoldLimits, BackendMiddlewareOutput, CancellationPolicy,
    CancellationRoute, EstablishmentFailurePolicy, ForwardError, ForwardedMessage,
    FrontendForwarding, FrontendMiddlewareOutput, HeldBackendMessages,
    IdentityIntermediaryMiddleware, InitialServerContext, Intermediary, IntermediaryAccept,
    IntermediaryAcceptError, IntermediaryBuildError, IntermediaryBuilder,
    IntermediaryCancellationRegistry, IntermediaryConnection, IntermediaryContexts,
    IntermediaryMiddlewareFactory, RejectCancellation, StartupResolutionError,
};
pub use pipeline::{
    BackendProjectionError, BoundedPipeline, FrontendProjectionError, NoPipeline, OperationId,
    PipelineConfigError, PipelinePolicy,
};
pub use pre_startup::{CertificateVerification, PreStartupMessage, SslMode, SslStrategy};
pub use runtime_middleware::{
    ClientMiddleware, IdentityMiddleware, MiddlewareChain, MiddlewareFactory, ServerMiddleware,
};
pub use startup::{ProtocolVersion, StartupMessage};
