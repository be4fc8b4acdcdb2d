//! Configuration of a reusable client-role component.

use vstd::prelude::*;
use vstd::utf8::*;

use super::authentication::TrustClientAuthentication;
use super::connection::{
    AttemptView, ClientContextView, ClientInitialContext, ConnectAttempt, IdentityHandler,
};
use super::target::{
    flattened, law_overrides_win, law_startup_names, merged, proper_extensions, ConnectTarget,
    ConnectTargetView, ParametersView, ProtocolLimits, StartupParameterError, StartupParameters, DEFAULT_FRAME_LENGTH,
};
use super::tls::{ClientTlsConfiguration, ClientTlsPolicy};
use crate::pre_startup::SslMode;
use crate::runtime_middleware::{MiddlewareChain, MiddlewareFactory};
use crate::startup::{ProtocolVersion, StartupView};

verus! {

/// Deterministic failure while assembling a client component.
#[derive(Clone, Copy, Debug, PartialEq, Eq, Structural)]
pub enum BuildError {
    /// No reusable connector was configured.
    MissingConnector,
    /// TLS behavior was not selected explicitly.
    MissingTls,
    /// Authentication behavior was not selected explicitly.
    MissingAuthentication,
}

impl BuildError {
    /// Description of the error.
    pub fn message(&self) -> (message: &'static str)
        ensures
            message@ == match *self {
                BuildError::MissingConnector => "client connector is required"@,
                BuildError::MissingTls => "an explicit client TLS policy is required"@,
                BuildError::MissingAuthentication =>
                    "an explicit client authentication policy is required"@,
            },
    {
        match *self {
            BuildError::MissingConnector => "client connector is required",
            BuildError::MissingTls => "an explicit client TLS policy is required",
            BuildError::MissingAuthentication =>
                "an explicit client authentication policy is required",
        }
    }
}

/// Reusable client-role component.
pub struct Client<
    Connector = (),
    Tls = ClientTlsPolicy,
    Authentication = TrustClientAuthentication,
    Middleware = IdentityHandler,
> {
    connector: Connector,
    tls: Tls,
    authentication: Authentication,
    defaults: StartupParameters,
    limits: ProtocolLimits,
    middleware: Middleware,
}

/// Ordinary generic builder for a reusable client-role component.
pub struct ClientBuilder<
    Connector = (),
    Tls = (),
    Authentication = (),
    Middleware = IdentityHandler,
> {
    connector: Option<Connector>,
    tls: Option<Tls>,
    authentication: Option<Authentication>,
    defaults: StartupParameters,
    limits: ProtocolLimits,
    middleware: Middleware,
}

/// What has been configured so far.
pub struct ClientBuilderView<Connector, Tls, Authentication, Middleware> {
    pub connector: Option<Connector>,
    pub tls: Option<Tls>,
    pub authentication: Option<Authentication>,
    pub defaults: ParametersView,
    pub frame_limit: usize,
    pub middleware: Middleware,
}

/// The configuration of a component.
pub struct ClientView<Connector, Tls, Authentication, Middleware> {
    pub connector: Connector,
    pub tls: Tls,
    pub authentication: Authentication,
    pub defaults: ParametersView,
    pub frame_limit: usize,
    pub middleware: Middleware,
}

impl<Connector, Tls, Authentication, Middleware> View for ClientBuilder<
    Connector,
    Tls,
    Authentication,
    Middleware,
> {
    type V = ClientBuilderView<Connector, Tls, Authentication, Middleware>;

    closed spec fn view(&self) -> ClientBuilderView<Connector, Tls, Authentication, Middleware> {
        ClientBuilderView {
            connector: self.connector,
            tls: self.tls,
            authentication: self.authentication,
            defaults: self.defaults@,
            frame_limit: self.limits.frame_limit(),
            middleware: self.middleware,
        }
    }
}

impl<Connector, Tls, Authentication, Middleware> View for Client<
    Connector,
    Tls,
    Authentication,
    Middleware,
> {
    type V = ClientView<Connector, Tls, Authentication, Middleware>;

    closed spec fn view(&self) -> ClientView<Connector, Tls, Authentication, Middleware> {
        ClientView {
            connector: self.connector,
            tls: self.tls,
            authentication: self.authentication,
            defaults: self.defaults@,
            frame_limit: self.limits.frame_limit(),
            middleware: self.middleware,
        }
    }
}

impl<Connector: Clone, Tls: Clone, Authentication: Clone, Middleware: Clone> Clone for Client<
    Connector,
    Tls,
    Authentication,
    Middleware,
> {
    fn clone(&self) -> (copy: Self)
        ensures
            cloned(self@.connector, copy@.connector),
            cloned(self@.tls, copy@.tls),
            cloned(self@.authentication, copy@.authentication),
            cloned(self@.middleware, copy@.middleware),
            copy@.defaults == self@.defaults,
            copy@.frame_limit == self@.frame_limit,
    {
        Client {
            connector: self.connector.clone(),
            tls: self.tls.clone(),
            authentication: self.authentication.clone(),
            defaults: self.defaults.clone(),
            limits: self.limits,
            middleware: self.middleware.clone(),
        }
    }
}

impl Client<()> {
    /// Starts client-role configuration.
    pub fn builder() -> (builder: ClientBuilder)
        ensures
            builder@ == unconfigured(),
    {
        ClientBuilder::new()
    }
}

/// Nothing configured yet.
pub open spec fn unconfigured() -> ClientBuilderView<(), (), (), IdentityHandler> {
    ClientBuilderView {
        connector: None,
        tls: None,
        authentication: None,
        defaults: ParametersView { user: None, database: None, extensions: Map::empty() },
        frame_limit: DEFAULT_FRAME_LENGTH,
        middleware: IdentityHandler,
    }
}

impl Default for ClientBuilder<()> {
    fn default() -> (builder: Self)
        ensures
            builder@ == unconfigured(),
    {
        ClientBuilder::new()
    }
}

impl ClientBuilder<()> {
    /// Starts client-role configuration.
    pub fn new() -> (builder: Self)
        ensures
            builder@ == unconfigured(),
    {
        ClientBuilder {
            connector: None,
            tls: None,
            authentication: None,
            defaults: StartupParameters::default(),
            limits: ProtocolLimits::default(),
            middleware: IdentityHandler,
        }
    }

    /// Configures the reusable application-supplied connector.
    #[must_use]
    pub fn connector<Next>(self, connector: Next) -> (builder: ClientBuilder<Next, (), ()>)
        ensures
            builder@ == (ClientBuilderView {
                connector: Some(connector),
                tls: self@.tls,
                authentication: self@.authentication,
                defaults: self@.defaults,
                frame_limit: self@.frame_limit,
                middleware: self@.middleware,
            }),
    {
        ClientBuilder {
            connector: Some(connector),
            tls: self.tls,
            authentication: self.authentication,
            defaults: self.defaults,
            limits: self.limits,
            middleware: self.middleware,
        }
    }
}

impl<Connector, Tls, Authentication, Middleware> ClientBuilder<
    Connector,
    Tls,
    Authentication,
    Middleware,
> {
    /// Selects an explicit TLS policy.
    #[must_use]
    pub fn tls<Next>(self, tls: Next) -> (builder: ClientBuilder<
        Connector,
        Next,
        Authentication,
        Middleware,
    >)
        ensures
            builder@ == (ClientBuilderView {
                connector: self@.connector,
                tls: Some(tls),
                authentication: self@.authentication,
                defaults: self@.defaults,
                frame_limit: self@.frame_limit,
                middleware: self@.middleware,
            }),
    {
        ClientBuilder {
            connector: self.connector,
            tls: Some(tls),
            authentication: self.authentication,
            defaults: self.defaults,
            limits: self.limits,
            middleware: self.middleware,
        }
    }

    /// Selects an explicit authentication policy.
    #[must_use]
    pub fn authentication<Next>(self, authentication: Next) -> (builder: ClientBuilder<
        Connector,
        Tls,
        Next,
        Middleware,
    >)
        ensures
            builder@ == (ClientBuilderView {
                connector: self@.connector,
                tls: self@.tls,
                authentication: Some(authentication),
                defaults: self@.defaults,
                frame_limit: self@.frame_limit,
                middleware: self@.middleware,
            }),
    {
        ClientBuilder {
            connector: self.connector,
            tls: self.tls,
            authentication: Some(authentication),
            defaults: self.defaults,
            limits: self.limits,
            middleware: self.middleware,
        }
    }

    /// Sets reusable startup defaults which per-call values override explicitly.
    #[must_use]
    pub fn startup_parameters(self, defaults: StartupParameters) -> (builder: Self)
        ensures
            builder@ == (ClientBuilderView { defaults: defaults@, ..self@ }),
    {
        ClientBuilder { defaults, ..self }
    }

    /// Replaces conservative protocol limits with an explicit policy.
    #[must_use]
    pub fn protocol_limits(self, limits: ProtocolLimits) -> (builder: Self)
        ensures
            builder@ == (ClientBuilderView { frame_limit: limits.frame_limit(), ..self@ }),
    {
        ClientBuilder { limits, ..self }
    }

    /// Appends a middleware factory. Stages run in declaration order.
    #[must_use]
    pub fn middleware<Next>(self, factory: Next) -> (builder: ClientBuilder<
        Connector,
        Tls,
        Authentication,
        MiddlewareChain<Middleware, Next>,
    >)
        ensures
            builder@ == (ClientBuilderView {
                connector: self@.connector,
                tls: self@.tls,
                authentication: self@.authentication,
                defaults: self@.defaults,
                frame_limit: self@.frame_limit,
                middleware: MiddlewareChain(self@.middleware, factory),
            }),
    {
        ClientBuilder {
            connector: self.connector,
            tls: self.tls,
            authentication: self.authentication,
            defaults: self.defaults,
            limits: self.limits,
            middleware: MiddlewareChain(self.middleware, factory),
        }
    }

    /// Validates and creates the reusable component.
    ///
    /// # Errors
    ///
    /// Returns the first missing mandatory configuration category.
    pub fn build(self) -> (result: Result<
        Client<Connector, Tls, Authentication, Middleware>,
        BuildError,
    >)
        ensures
            match result {
                Ok(client) => self@.connector == Some(client@.connector) && self@.tls == Some(
                    client@.tls,
                ) && self@.authentication == Some(client@.authentication) && client@.defaults
                    == self@.defaults && client@.frame_limit == self@.frame_limit
                    && client@.middleware == self@.middleware,
                Err(BuildError::MissingConnector) => self@.connector is None,
                Err(BuildError::MissingTls) => self@.connector is Some && self@.tls is None,
                Err(BuildError::MissingAuthentication) => self@.connector is Some && self@.tls
                    is Some && self@.authentication is None,
            },
    {
        match (self.connector, self.tls, self.authentication) {
            (None, _, _) => Err(BuildError::MissingConnector),
            (Some(_), None, _) => Err(BuildError::MissingTls),
            (Some(_), Some(_), None) => Err(BuildError::MissingAuthentication),
            (Some(connector), Some(tls), Some(authentication)) => Ok(
                Client {
                    connector,
                    tls,
                    authentication,
                    defaults: self.defaults,
                    limits: self.limits,
                    middleware: self.middleware,
                },
            ),
        }
    }
}

impl<Connector, Tls, Authentication, Middleware> Client<Connector, Tls, Authentication, Middleware> {
    /// Opens transports.
    pub fn connector(&self) -> (connector: &Connector)
        ensures
            *connector == self@.connector,
    {
        &self.connector
    }

    /// The TLS policy.
    pub fn tls(&self) -> (tls: &Tls)
        ensures
            *tls == self@.tls,
    {
        &self.tls
    }

    /// The authentication policy.
    pub fn authentication(&self) -> (authentication: &Authentication)
        ensures
            *authentication == self@.authentication,
    {
        &self.authentication
    }

    /// The protocol limits.
    pub fn limits(&self) -> (limits: ProtocolLimits)
        ensures
            limits.frame_limit() == self@.frame_limit,
    {
        self.limits
    }
}

/// Whether a handler was created from the facts about a destination.
pub open spec fn handler_for<Middleware: MiddlewareFactory<ClientInitialContext>>(
    middleware: Middleware,
    target: ConnectTargetView,
    initial: ClientInitialContext,
    handler: Middleware::Handler,
) -> bool {
    initial.destination() == target && middleware.creates(initial, handler)
}

/// Whether a handler may have been created for a destination.
pub open spec fn created_for<Middleware: MiddlewareFactory<ClientInitialContext>>(
    middleware: Middleware,
    target: ConnectTargetView,
    handler: Middleware::Handler,
) -> bool {
    exists|initial: ClientInitialContext|
        #[trigger] handler_for(middleware, target, initial, handler)
}

/// Mode of a policy's first transport.
pub open spec fn configured_mode<Tls: ClientTlsConfiguration>(tls: Tls) -> Option<SslMode> {
    match tls.configuration() {
        Some((mode, _)) => Some(mode),
        None => None,
    }
}

impl<
    Connector,
    Tls: ClientTlsConfiguration,
    Authentication,
    Middleware: MiddlewareFactory<ClientInitialContext>,
> Client<Connector, Tls, Authentication, Middleware> {
    /// Prepares a connection: creates its handler, and checks startup values before
    /// any transport is opened. Per-call values override component defaults.
    ///
    /// # Errors
    ///
    /// The merged startup values need a user.
    pub fn connect<Evidence>(&self, target: ConnectTarget, overrides: StartupParameters) -> (result:
        Result<(Middleware::Handler, ConnectAttempt<Evidence>), StartupParameterError>)
        requires
            forall|initial: ClientInitialContext|
                initial.destination() == target@ ==> #[trigger] self@.middleware.serves(initial),
        ensures
            match result {
                Ok((handler, attempt)) => {
                    &&& merged(self@.defaults, overrides@).user matches Some(user)
                    &&& created_for(self@.middleware, target@, handler)
                    &&& attempt@ == (AttemptView::<Evidence> {
                        context: ClientContextView {
                            target: target@,
                            tls: None,
                            identity: None,
                            backend_key: None,
                        },
                        startup: StartupView {
                            version: ProtocolVersion { major: 3, minor: 2 },
                            parameters: flattened(merged(self@.defaults, overrides@), user),
                        },
                        mode: configured_mode(self@.tls),
                        retried: false,
                    })
                },
                Err(error) => merged(self@.defaults, overrides@).user is None && error
                    == StartupParameterError::MissingUser,
            },
    {
        let initial = ClientInitialContext::new(target.duplicate());
        let handler = self.middleware.create(&initial);
        assert(handler_for(self@.middleware, target@, initial, handler));
        assert(created_for(self@.middleware, target@, handler));
        let mode = match self.tls.configured() {
            Some((mode, _)) => Some(mode),
            None => None,
        };
        let attempt = ConnectAttempt::new(target, self.defaults.clone(), overrides, mode)?;
        Ok((handler, attempt))
    }
}

/// A client connects with the startup values of its caller, and with its own where the
/// caller leaves them open, in the mode that its TLS policy begins with.
pub proof fn law_connections_prefer_overrides<
    Connector,
    Tls: ClientTlsConfiguration,
    Authentication,
    Middleware: MiddlewareFactory<ClientInitialContext>,
    Evidence,
>(
    client: &Client<Connector, Tls, Authentication, Middleware>,
    target: ConnectTarget,
    overrides: StartupParameters,
    result: Result<(Middleware::Handler, ConnectAttempt<Evidence>), StartupParameterError>,
)
    requires
        call_ensures(
            Client::<Connector, Tls, Authentication, Middleware>::connect::<Evidence>,
            (client, target, overrides),
            result,
        ),
    ensures
        result is Ok <==> overrides@.user is Some || client@.defaults.user is Some,
        result matches Ok((_, attempt)) ==> {
            let user = if overrides@.user is Some {
                overrides@.user
            } else {
                client@.defaults.user
            };
            &&& attempt@.startup.parameters.dom().contains(encode_utf8("user"@))
            &&& attempt@.context.target == target@
            &&& !attempt@.retried
            &&& attempt@.mode is Some <==> client@.tls.configuration() is Some
            &&& client@.tls.configuration() matches Some((mode, _)) ==> attempt@.mode == Some(mode)
            &&& proper_extensions(client@.defaults.extensions) && proper_extensions(
                overrides@.extensions,
            ) ==> attempt@.startup.parameters[encode_utf8("user"@)] == encode_utf8(user->0)
        },
{
    let both = merged(client@.defaults, overrides@);
    if let Some(user) = both.user {
        if proper_extensions(client@.defaults.extensions) && proper_extensions(
            overrides@.extensions,
        ) {
            law_overrides_win(client@.defaults, overrides@);
            law_startup_names(both, user);
        }
    }
}

} // verus!
