//! Builder-centred client-role component.

pub mod authentication;
pub mod builder;
pub mod connection;
pub mod establish;
pub mod interception;
pub mod query;
pub mod target;
pub mod tls;

pub use authentication::{
    AuthenticationDriveError, CancelError, ClientAuthenticationChallenge,
    ClientAuthenticationError, ClientAuthenticationResponse, ConnectError, SessionEstablishError,
    StaticClientCredentialSession, StaticClientCredentials, StaticCredentialError,
    TrustClientAuthentication,
};
pub use builder::{BuildError, Client, ClientBuilder};
pub use connection::{
    ClientConnection, ClientConnectionContext, ClientConnectionCore, ClientInitialContext,
    ConnectAttempt, ConnectionChanged, ConnectionClean, IdentityHandler,
};
pub use establish::{EstablishFault, Establishment, ProtocolFault};
pub use query::{QueryFault, QueryRun, QueryStep};
pub use target::{
    ConnectTarget, ParameterTextError, ProtocolLimitError, ProtocolLimits, StartupParameterError,
    StartupParameters,
};
pub use tls::{
    ClientTlsConfiguration, ClientTlsError, ClientTlsPolicy, ClientTlsStatus, ClientTransport,
    ReloadableClientTls, TlsFault, TlsStep,
};
