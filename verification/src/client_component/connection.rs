//! Facts about a client connection, its operational form, and the attempt that
//! leads to it.

use bytes::Bytes;
use vstd::prelude::*;
use vstd::utf8::*;

use super::target::{
    flattened, law_overrides_win, law_startup_names, merged, proper_extensions, ConnectTarget,
    ConnectTargetView, StartupParameterError, StartupParameters,
};
use super::tls::{
    begin_negotiation, continue_negotiation, first_step, reply_step, retry_after, retry_mode,
    ClientTlsStatus, TlsFault, TlsStep,
};
use crate::auth::Ready;
use crate::cancel::key_view;
use crate::codec::{BackendMessage, FrontendMessage};
use crate::conn::Conn;
use crate::demux::{CancelKey, CancelKeyView};
use crate::error::ProtocolError;
use crate::octets::octets;
use crate::pre_startup::{PreStartupMessage, SslMode};
use crate::runtime_middleware::{ClientMiddleware, MiddlewareFactory};
use crate::startup::{StartupMessage, StartupView};

verus! {

/// Immutable facts retained by a client-role connection.
pub struct ClientConnectionContext<Evidence = ()> {
    target: ConnectTarget,
    tls: Option<ClientTlsStatus>,
    identity: Option<Evidence>,
    backend_key: Option<CancelKey>,
}

/// The facts of a context.
pub struct ClientContextView<Evidence> {
    pub target: ConnectTargetView,
    pub tls: Option<ClientTlsStatus>,
    pub identity: Option<Evidence>,
    pub backend_key: Option<CancelKeyView>,
}

impl<Evidence> View for ClientConnectionContext<Evidence> {
    type V = ClientContextView<Evidence>;

    closed spec fn view(&self) -> ClientContextView<Evidence> {
        ClientContextView {
            target: self.target@,
            tls: self.tls,
            identity: self.identity,
            backend_key: key_view(self.backend_key),
        }
    }
}

impl<Evidence> ClientConnectionContext<Evidence> {
    /// Facts known before anything was negotiated.
    pub fn new(target: ConnectTarget) -> (context: Self)
        ensures
            context@ == (ClientContextView::<Evidence> {
                target: target@,
                tls: None,
                identity: None,
                backend_key: None,
            }),
    {
        ClientConnectionContext { target, tls: None, identity: None, backend_key: None }
    }

    /// Returns the destination used for this connection.
    pub fn target(&self) -> (target: &ConnectTarget)
        ensures
            target@ == self@.target,
    {
        &self.target
    }

    /// Returns transport security once negotiation has completed.
    pub fn tls(&self) -> (status: Option<ClientTlsStatus>)
        ensures
            status == self@.tls,
    {
        self.tls
    }

    /// Returns application-defined evidence from the authentication policy, which is
    /// known once authentication has completed.
    pub fn identity(&self) -> (identity: &Evidence)
        requires
            self.identity_if_known() is Some,
        ensures
            Some(identity) == self.identity_if_known(),
            self@.identity == Some(*identity),
        no_unwind
    {
        match &self.identity {
            Some(identity) => identity,
            None => vstd::pervasive::unreached(),
        }
    }

    /// Returns evidence only after authentication has enriched the context.
    #[verifier::allow_in_spec]
    pub fn identity_if_known(&self) -> Option<&Evidence>
        returns
            (match self@.identity {
                Some(identity) => Some(&identity),
                None => None,
            }),
    {
        self.identity.as_ref()
    }

    /// Returns the upstream cancellation key captured during startup readiness.
    pub fn backend_key(&self) -> (key: Option<&CancelKey>)
        ensures
            match key {
                Some(key) => self@.backend_key == Some(key@),
                None => self@.backend_key is None,
            },
    {
        self.backend_key.as_ref()
    }
}

/// The identity can be asked for wherever it is known, and the answer is what is
/// known.
pub proof fn law_known_identity_is_returned<Evidence>(context: ClientConnectionContext<Evidence>)
    requires
        context.identity_if_known() is Some,
    ensures
        call_requires(ClientConnectionContext::<Evidence>::identity, (&context,)),
        forall|identity: &Evidence| #[trigger]
            call_ensures(ClientConnectionContext::<Evidence>::identity, (&context,), identity)
                ==> Some(identity) == context.identity_if_known(),
{
}

/// Identity middleware handler.
#[derive(Clone, Copy, Debug, PartialEq, Eq, Structural)]
pub struct IdentityHandler;

impl Default for IdentityHandler {
    fn default() -> (handler: Self)
        ensures
            handler == IdentityHandler,
    {
        IdentityHandler
    }
}

impl<C> MiddlewareFactory<C> for IdentityHandler {
    type Handler = IdentityHandler;

    open spec fn serves(&self, context: C) -> bool {
        true
    }

    open spec fn creates(&self, context: C, handler: IdentityHandler) -> bool {
        handler == *self
    }

    fn create(&self, _context: &C) -> (handler: IdentityHandler) {
        *self
    }
}

impl<S, C> ClientMiddleware<S, C> for IdentityHandler {
    open spec fn pre_startup_step(
        before: (Self, S),
        context: C,
        message: PreStartupMessage,
        after: (Self, S),
        result: PreStartupMessage,
    ) -> bool {
        after == before && result == message
    }

    fn pre_startup(&mut self, _context: &C, _state: &mut S, message: PreStartupMessage) -> (result:
        PreStartupMessage) {
        message
    }

    open spec fn startup_step(
        before: (Self, S),
        context: C,
        message: StartupMessage,
        after: (Self, S),
        result: StartupMessage,
    ) -> bool {
        after == before && result == message
    }

    fn startup(&mut self, _context: &C, _state: &mut S, message: StartupMessage) -> (result:
        StartupMessage) {
        message
    }

    open spec fn frontend_step(
        before: (Self, S),
        context: C,
        message: FrontendMessage,
        after: (Self, S),
        result: FrontendMessage,
    ) -> bool {
        after == before && result == message
    }

    fn frontend(&mut self, _context: &C, _state: &mut S, message: FrontendMessage) -> (result:
        FrontendMessage) {
        message
    }

    open spec fn backend_step(
        before: (Self, S),
        context: C,
        message: BackendMessage,
        after: (Self, S),
        result: BackendMessage,
    ) -> bool {
        after == before && result == message
    }

    fn backend(&mut self, _context: &C, _state: &mut S, message: BackendMessage) -> (result:
        BackendMessage) {
        message
    }
}

/// Immutable facts available when a client middleware handler is created.
pub struct ClientInitialContext {
    target: ConnectTarget,
}

impl ClientInitialContext {
    /// The destination.
    pub closed spec fn destination(self) -> ConnectTargetView {
        self.target@
    }

    pub fn new(target: ConnectTarget) -> (context: Self)
        ensures
            context.destination() == target@,
    {
        ClientInitialContext { target }
    }

    /// Destination selected for this connection.
    pub fn target(&self) -> (target: &ConnectTarget)
        ensures
            target@ == self.destination(),
    {
        &self.target
    }
}

/// Evidence that a connection has not performed a state-changing operation. A type
/// index.
#[derive(Debug)]
pub enum ConnectionClean {
    Index,
}

/// Evidence that an operation may have changed session-local state. A type index.
#[derive(Debug)]
pub enum ConnectionChanged {
    Index,
}

/// A connection with the handler and the facts that belong to it.
pub struct ClientConnectionCore<Transport, Cleanliness, Evidence, Handler> {
    connection: Conn<Transport, Ready, Cleanliness>,
    handler: Handler,
    context: ClientConnectionContext<Evidence>,
}

impl<Transport, Cleanliness, Evidence, Handler> ClientConnectionCore<
    Transport,
    Cleanliness,
    Evidence,
    Handler,
> {
    /// The transport held.
    pub closed spec fn held(self) -> Transport {
        self.connection.held()
    }

    /// The handler.
    pub closed spec fn handling(self) -> Handler {
        self.handler
    }

    /// The facts.
    pub closed spec fn facts(self) -> ClientConnectionContext<Evidence> {
        self.context
    }

    pub fn new(
        connection: Conn<Transport, Ready, Cleanliness>,
        handler: Handler,
        context: ClientConnectionContext<Evidence>,
    ) -> (core: Self)
        ensures
            core.held() == connection.held(),
            core.handling() == handler,
            core.facts() == context,
    {
        ClientConnectionCore { connection, handler, context }
    }

    /// Returns immutable connection facts.
    pub fn context(&self) -> (context: &ClientConnectionContext<Evidence>)
        ensures
            *context == self.facts(),
    {
        &self.context
    }

    /// Mutably borrows the transport, to send or receive.
    pub fn transport_mut(&mut self) -> (transport: &mut Transport)
        ensures
            *transport == old(self).held(),
            final(self).held() == *final(transport),
            final(self).handling() == old(self).handling(),
            final(self).facts() == old(self).facts(),
    {
        self.connection.transport_mut()
    }

    /// Lets the handler see a message of the server.
    pub fn intercept_backend<State>(&mut self, state: &mut State, message: BackendMessage) -> (
    result: BackendMessage) where
        Handler: ClientMiddleware<State, ClientConnectionContext<Evidence>>,

        ensures
            Handler::backend_step(
                (old(self).handling(), *old(state)),
                old(self).facts(),
                message,
                (final(self).handling(), *final(state)),
                result,
            ),
            final(self).held() == old(self).held(),
            final(self).facts() == old(self).facts(),
    {
        self.handler.backend(&self.context, state, message)
    }

    /// Lets the handler see a message of the client.
    pub fn intercept_frontend<State>(&mut self, state: &mut State, message: FrontendMessage) -> (
    result: FrontendMessage) where
        Handler: ClientMiddleware<State, ClientConnectionContext<Evidence>>,

        ensures
            Handler::frontend_step(
                (old(self).handling(), *old(state)),
                old(self).facts(),
                message,
                (final(self).handling(), *final(state)),
                result,
            ),
            final(self).held() == old(self).held(),
            final(self).facts() == old(self).facts(),
    {
        self.handler.frontend(&self.context, state, message)
    }

    /// Recovers every owned part deliberately.
    pub fn into_parts(self) -> (parts: (Transport, Handler, ClientConnectionContext<Evidence>))
        ensures
            parts == (self.held(), self.handling(), self.facts()),
    {
        (self.connection.into_transport(), self.handler, self.context)
    }
}

/// Operational client-role connection.
pub struct ClientConnection<
    Transport,
    State,
    Cleanliness = ConnectionClean,
    Evidence = (),
    Handler = IdentityHandler,
> {
    core: ClientConnectionCore<Transport, Cleanliness, Evidence, Handler>,
    state: State,
}

impl<Transport, State, Cleanliness, Evidence, Handler> ClientConnection<
    Transport,
    State,
    Cleanliness,
    Evidence,
    Handler,
> {
    /// The connection without the caller's state.
    pub closed spec fn inner(self) -> ClientConnectionCore<
        Transport,
        Cleanliness,
        Evidence,
        Handler,
    > {
        self.core
    }

    /// The caller's state.
    pub closed spec fn owned(self) -> State {
        self.state
    }

    pub fn new(
        core: ClientConnectionCore<Transport, Cleanliness, Evidence, Handler>,
        state: State,
    ) -> (connection: Self)
        ensures
            connection.inner() == core,
            connection.owned() == state,
    {
        ClientConnection { core, state }
    }

    /// Returns immutable connection facts.
    pub fn context(&self) -> (context: &ClientConnectionContext<Evidence>)
        ensures
            *context == self.inner().facts(),
    {
        self.core.context()
    }

    /// Returns the caller-owned connection state.
    pub fn state(&self) -> (state: &State)
        ensures
            *state == self.owned(),
    {
        &self.state
    }

    /// Mutably borrows the transport, to send or receive.
    pub fn transport_mut(&mut self) -> (transport: &mut Transport)
        ensures
            *transport == old(self).inner().held(),
            final(self).inner().held() == *final(transport),
            final(self).inner().handling() == old(self).inner().handling(),
            final(self).inner().facts() == old(self).inner().facts(),
            final(self).owned() == old(self).owned(),
    {
        self.core.transport_mut()
    }

    /// Lets the handler see a received message, at the operational inspection boundary.
    pub fn receive_wire(&mut self, message: BackendMessage) -> (result: BackendMessage) where
        Handler: ClientMiddleware<State, ClientConnectionContext<Evidence>>,

        ensures
            Handler::backend_step(
                (old(self).inner().handling(), old(self).owned()),
                old(self).inner().facts(),
                message,
                (final(self).inner().handling(), final(self).owned()),
                result,
            ),
            final(self).inner().held() == old(self).inner().held(),
            final(self).inner().facts() == old(self).inner().facts(),
    {
        self.core.intercept_backend(&mut self.state, message)
    }

    /// Recovers every owned connection part deliberately.
    pub fn into_parts(self) -> (parts: (
        Transport,
        State,
        Handler,
        ClientConnectionContext<Evidence>,
    ))
        ensures
            parts == (
                self.inner().held(),
                self.owned(),
                self.inner().handling(),
                self.inner().facts(),
            ),
    {
        let (transport, handler, context) = self.core.into_parts();
        (transport, self.state, handler, context)
    }
}

/// A connection attempt before its session is ready.
///
/// The caller opens a transport, then asks `begin_transport` how to secure it. A
/// session that could not be established is put to `retries`.
pub struct ConnectAttempt<Evidence> {
    context: ClientConnectionContext<Evidence>,
    startup: StartupMessage,
    mode: Option<SslMode>,
    retried: bool,
}

/// How far an attempt has come.
pub struct AttemptView<Evidence> {
    pub context: ClientContextView<Evidence>,
    pub startup: StartupView,
    /// Mode of the current transport, or `None` for explicit plaintext.
    pub mode: Option<SslMode>,
    /// Whether this is the second transport.
    pub retried: bool,
}

impl<Evidence> View for ConnectAttempt<Evidence> {
    type V = AttemptView<Evidence>;

    closed spec fn view(&self) -> AttemptView<Evidence> {
        AttemptView {
            context: self.context@,
            startup: self.startup@,
            mode: self.mode,
            retried: self.retried,
        }
    }
}

impl<Evidence> AttemptView<Evidence> {
    /// The attempt once its transport security is known.
    pub open spec fn secured(self, tls: Option<ClientTlsStatus>) -> AttemptView<Evidence> {
        AttemptView { context: ClientContextView { tls, ..self.context }, ..self }
    }

    /// How the current transport is secured.
    pub open spec fn opening(self) -> TlsStep {
        match self.mode {
            None => TlsStep::Plaintext,
            Some(mode) => first_step(mode),
        }
    }

    /// The attempt after a step was decided.
    pub open spec fn after(self, step: TlsStep) -> AttemptView<Evidence> {
        match step {
            TlsStep::Plaintext => self.secured(Some(ClientTlsStatus::Plaintext)),
            _ => self,
        }
    }

    /// The second attempt that follows a failed session, if any.
    pub open spec fn retry(self) -> Option<AttemptView<Evidence>> {
        if self.retried {
            None
        } else {
            match retry_mode(self.mode, true) {
                Some(mode) => Some(
                    AttemptView { mode: Some(mode), retried: true, ..self.secured(None) },
                ),
                None => None,
            }
        }
    }
}

impl<Evidence> ConnectAttempt<Evidence> {
    /// The facts known so far.
    pub closed spec fn facts(self) -> ClientConnectionContext<Evidence> {
        self.context
    }

    /// Prepares an attempt. Per-call startup values override the defaults; they are
    /// checked before any transport is opened.
    ///
    /// # Errors
    ///
    /// The merged startup values need a user.
    pub fn new(
        target: ConnectTarget,
        defaults: StartupParameters,
        overrides: StartupParameters,
        mode: Option<SslMode>,
    ) -> (result: Result<Self, StartupParameterError>)
        ensures
            match result {
                Ok(attempt) => {
                    &&& merged(defaults@, overrides@).user matches Some(user)
                    &&& attempt@ == (AttemptView::<Evidence> {
                        context: ClientContextView {
                            target: target@,
                            tls: None,
                            identity: None,
                            backend_key: None,
                        },
                        startup: StartupView {
                            version: crate::startup::ProtocolVersion { major: 3, minor: 2 },
                            parameters: super::target::flattened(
                                merged(defaults@, overrides@),
                                user,
                            ),
                        },
                        mode,
                        retried: false,
                    })
                },
                Err(error) => merged(defaults@, overrides@).user is None && error
                    == StartupParameterError::MissingUser,
            },
    {
        let startup = defaults.merged_with(overrides).into_message()?;
        Ok(
            ConnectAttempt {
                context: ClientConnectionContext::new(target),
                startup,
                mode,
                retried: false,
            },
        )
    }

    /// Returns the facts known so far.
    pub fn context(&self) -> (context: &ClientConnectionContext<Evidence>)
        ensures
            context@ == self@.context,
            *context == self.facts(),
    {
        &self.context
    }

    /// The startup message, for the handler to see before it is sent.
    pub fn startup(&self) -> (startup: StartupMessage)
        ensures
            startup@ == self@.startup,
    {
        self.startup.duplicate()
    }

    /// Mode of the current transport.
    pub fn mode(&self) -> (mode: Option<SslMode>)
        ensures
            mode == self@.mode,
    {
        self.mode
    }

    /// Decides how a transport that was just opened is secured.
    pub fn begin_transport(&mut self) -> (step: TlsStep)
        ensures
            step == old(self)@.opening(),
            final(self)@ == old(self)@.after(step),
    {
        let step = match self.mode {
            None => TlsStep::Plaintext,
            Some(mode) => begin_negotiation(mode),
        };
        if matches!(step, TlsStep::Plaintext) {
            self.context.tls = Some(ClientTlsStatus::Plaintext);
        }
        step
    }

    /// Decides on the server's reply to an SSL request.
    ///
    /// # Errors
    ///
    /// Reports a reply that the mode does not allow to go on with.
    pub fn on_reply(&mut self, reply: u8) -> (result: Result<TlsStep, TlsFault>)
        requires
            old(self)@.mode is Some,
        ensures
            result == reply_step(old(self)@.mode->0, reply),
            final(self)@ == match result {
                Ok(step) => old(self)@.after(step),
                Err(_) => old(self)@,
            },
    {
        match self.mode {
            Some(mode) => {
                let result = continue_negotiation(mode, reply);
                if matches!(result, Ok(TlsStep::Plaintext)) {
                    self.context.tls = Some(ClientTlsStatus::Plaintext);
                }
                result
            },
            None => Err(TlsFault::InvalidReply),
        }
    }

    /// Records that the TLS handshake succeeded.
    pub fn encrypted(&mut self)
        ensures
            final(self)@ == old(self)@.secured(Some(ClientTlsStatus::Encrypted)),
    {
        self.context.tls = Some(ClientTlsStatus::Encrypted);
    }

    /// Decides whether another transport is opened after a session could not be
    /// established. The second attempt is a new one within the same logical
    /// connection, so the first transport's security is forgotten.
    pub fn retries(&mut self) -> (again: bool)
        ensures
            again == old(self)@.retry() is Some,
            final(self)@ == if again {
                old(self)@.retry()->0
            } else {
                old(self)@
            },
    {
        if self.retried {
            return false;
        }
        match retry_after(self.mode, true) {
            Some(mode) => {
                self.mode = Some(mode);
                self.retried = true;
                self.context.tls = None;
                true
            },
            None => false,
        }
    }

    /// The facts of the established connection.
    pub fn finish(self, identity: Evidence, backend_key: Option<CancelKey>) -> (context:
        ClientConnectionContext<Evidence>)
        ensures
            context@ == (ClientContextView {
                identity: Some(identity),
                backend_key: key_view(backend_key),
                ..self@.context
            }),
    {
        ClientConnectionContext {
            target: self.context.target,
            tls: self.context.tls,
            identity: Some(identity),
            backend_key,
        }
    }
}

/// The raw packet that cancels a query. It is sent on a fresh transport, without TLS
/// negotiation or startup.
///
/// # Errors
///
/// Rejects a key whose secret no packet can carry.
pub fn cancellation_packet(key: &CancelKey) -> (result: Result<Bytes, ProtocolError>)
    ensures
        match result {
            Ok(packet) => crate::pre_startup::cancel_octets(
                key@.process_id,
                key@.secret_key,
            ) == Ok::<_, ProtocolError>(octets(packet)),
            Err(error) => crate::pre_startup::cancel_octets(
                key@.process_id,
                key@.secret_key,
            ) == Err::<Seq<u8>, _>(error),
        },
{
    PreStartupMessage::CancelRequest {
        process_id: key.process_id,
        secret_key: key.secret_key.clone(),
    }.to_packet()
}

/// At most one attempt follows another, and only a plaintext attempt that the mode
/// allowed is followed by one that insists on TLS.
pub proof fn law_one_retry<Evidence>(attempt: AttemptView<Evidence>)
    ensures
        attempt.retry() matches Some(second) ==> {
            &&& second.retry() is None
            &&& attempt.mode == Some(SslMode::Allow)
            &&& attempt.opening() == TlsStep::Plaintext
            &&& second.opening() == TlsStep::Request
            &&& second.context.tls is None
            &&& second.startup == attempt.startup
            &&& second.context.target == attempt.context.target
        },
{
}

/// An attempt whose mode insists on TLS never becomes plaintext.
pub proof fn law_insisting_attempt_stays_encrypted<Evidence>(
    attempt: AttemptView<Evidence>,
    mode: SslMode,
    reply: u8,
)
    requires
        attempt.mode == Some(mode),
        mode.insists(),
        attempt.context.tls != Some(ClientTlsStatus::Plaintext),
    ensures
        attempt.after(attempt.opening()).context.tls != Some(ClientTlsStatus::Plaintext),
        reply_step(mode, reply) matches Ok(step) ==> attempt.after(step).context.tls != Some(
            ClientTlsStatus::Plaintext,
        ),
{
}

/// A first attempt that the mode allowed in plaintext is tried again, with TLS required
/// and otherwise as it was; no other is.
pub proof fn law_allowed_attempt_is_retried<Evidence>(attempt: AttemptView<Evidence>)
    ensures
        attempt.retry() is Some <==> !attempt.retried && attempt.mode == Some(SslMode::Allow),
        attempt.retry() matches Some(second) ==> {
            &&& second.retried
            &&& second.mode == Some(SslMode::Require)
            &&& second.startup == attempt.startup
            &&& second.context.target == attempt.context.target
            &&& second.context.identity == attempt.context.identity
            &&& second.context.backend_key == attempt.context.backend_key
        },
{
}

/// Without a mode an attempt is in plaintext, and says so; with one it is what the mode
/// asks first. Until plaintext is decided on nothing is said of the transport.
pub proof fn law_attempt_opens_by_its_mode<Evidence>(attempt: AttemptView<Evidence>, step: TlsStep)
    ensures
        attempt.opening() == TlsStep::Plaintext <==> (attempt.mode is None || attempt.mode == Some(
            SslMode::Disable,
        ) || attempt.mode == Some(SslMode::Allow)),
        step == TlsStep::Plaintext ==> attempt.after(step).context.tls == Some(
            ClientTlsStatus::Plaintext,
        ),
        step != TlsStep::Plaintext ==> attempt.after(step) == attempt,
        attempt.after(step).startup == attempt.startup,
        attempt.after(step).mode == attempt.mode,
{
}

/// An attempt opens with the startup values of its caller, and with the component's where
/// the caller leaves them open; without a user there is no attempt.
pub proof fn law_attempts_prefer_overrides<Evidence>(
    target: ConnectTarget,
    defaults: StartupParameters,
    overrides: StartupParameters,
    mode: Option<SslMode>,
    result: Result<ConnectAttempt<Evidence>, StartupParameterError>,
)
    requires
        call_ensures(
            ConnectAttempt::<Evidence>::new,
            (target, defaults, overrides, mode),
            result,
        ),
        proper_extensions(defaults@.extensions),
        proper_extensions(overrides@.extensions),
    ensures
        result is Ok <==> overrides@.user is Some || defaults@.user is Some,
        result matches Ok(attempt) ==> {
            let parameters = attempt@.startup.parameters;
            let user = if overrides@.user is Some {
                overrides@.user
            } else {
                defaults@.user
            };
            let database = if overrides@.database is Some {
                overrides@.database
            } else {
                defaults@.database
            };
            &&& attempt@.context.target == target@
            &&& attempt@.context.tls is None && attempt@.context.identity is None
                && attempt@.context.backend_key is None
            &&& attempt@.startup.version.major == 3 && attempt@.startup.version.minor == 2
            &&& attempt@.mode == mode && !attempt@.retried
            &&& parameters.dom().contains(encode_utf8("user"@))
            &&& parameters[encode_utf8("user"@)] == encode_utf8(user->0)
            &&& parameters.dom().contains(encode_utf8("database"@)) <==> database is Some
            &&& database matches Some(name) ==> parameters[encode_utf8("database"@)]
                == encode_utf8(name)
            &&& forall|name: Seq<u8>| #[trigger]
                overrides@.extensions.dom().contains(name) ==> parameters.dom().contains(name)
                    && parameters[name] == overrides@.extensions[name]
        },
{
    let both = merged(defaults@, overrides@);
    law_overrides_win(defaults@, overrides@);
    if let Some(user) = both.user {
        law_startup_names(both, user);
        assert forall|name: Seq<u8>| #[trigger]
            overrides@.extensions.dom().contains(name) implies flattened(
            both,
            user,
        ).dom().contains(name) && flattened(both, user)[name] == overrides@.extensions[name] by {
            assert(both.extensions.dom().contains(name));
            assert(flattened(both, user).dom().contains(name));
        }
    }
}

} // verus!
