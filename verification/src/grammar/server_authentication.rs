//! Authentication exchange, as a backend drives it.

use bytes::Bytes;
use std::marker::PhantomData;
use vstd::prelude::*;

pub use super::{ChoiceKind, Effect};
use crate::auth::SaslInitialResponse;
use crate::codec::{
    Authentication, BackendMessage, DiagnosticResponse, FrontendMessage,
    NegotiateProtocolVersion, TransactionStatus,
};
use crate::codec::backend::{AuthenticationView, BackendView};
use crate::codec::frontend::FrontendView;
pub use crate::conn::{Dirty, Pristine};

verus! {

/// A phase of this grammar.
#[derive(Clone, Copy, Debug, PartialEq, Eq, Hash, Structural)]
pub enum RuntimeState {
    Startup,
    Auth,
    PasswordResponse,
    SaslInitial,
    Sasl,
    SaslResponse,
    TokenResponse,
    TokenPolicy,
    StartupReady,
    Ready,
    Terminated,
}

/// A step of this grammar.
#[derive(Clone, Copy, Debug, PartialEq, Eq, Hash, Structural)]
pub enum Event {
    Begin,
    Reject,
    Negotiate,
    Cleartext,
    Md5,
    Sasl,
    Gss,
    Sspi,
    KerberosV5,
    Accepted,
    Error,
    Response,
    Initial,
    Continue,
    Final,
    Verified,
    ParameterStatus,
    BackendKeyData,
    Ready,
}

/// An event that its phase does not allow. The machine stays in `state`.
#[derive(Clone, Copy, Debug, PartialEq, Eq, Structural)]
pub struct StepError {
    pub state: RuntimeState,
    pub event: Event,
}

/// Where an allowed event leads, who chooses it, and what it does to cleanliness.
#[derive(Clone, Copy, Debug, PartialEq, Eq, Structural)]
pub struct Transition {
    pub target: RuntimeState,
    pub choice: ChoiceKind,
    pub effect: Effect,
}

/// The outcome of an allowed event.
pub open spec fn to(target: RuntimeState, choice: ChoiceKind, effect: Effect) -> Option<Transition> {
    Some(Transition { target, choice, effect })
}

/// The grammar: which events each phase allows.
pub open spec fn allowed(state: RuntimeState, event: Event) -> Option<Transition> {
    match state {
        RuntimeState::Startup => match event {
            Event::Begin => to(RuntimeState::Auth, ChoiceKind::Internal, Effect::Unchanged),
            Event::Reject => to(RuntimeState::Terminated, ChoiceKind::Internal, Effect::Unchanged),
            _ => None,
        },
        RuntimeState::Auth => match event {
            Event::Negotiate => to(RuntimeState::Auth, ChoiceKind::Internal, Effect::Unchanged),
            Event::Cleartext => to(RuntimeState::PasswordResponse, ChoiceKind::Internal, Effect::Unchanged),
            Event::Md5 => to(RuntimeState::PasswordResponse, ChoiceKind::Internal, Effect::Unchanged),
            Event::Sasl => to(RuntimeState::SaslInitial, ChoiceKind::Internal, Effect::Unchanged),
            Event::Gss => to(RuntimeState::TokenResponse, ChoiceKind::Internal, Effect::Unchanged),
            Event::Sspi => to(RuntimeState::TokenResponse, ChoiceKind::Internal, Effect::Unchanged),
            Event::KerberosV5 => to(RuntimeState::TokenResponse, ChoiceKind::Internal, Effect::Unchanged),
            Event::Accepted => to(RuntimeState::StartupReady, ChoiceKind::Internal, Effect::Unchanged),
            Event::Error => to(RuntimeState::Terminated, ChoiceKind::Internal, Effect::Unchanged),
            _ => None,
        },
        RuntimeState::PasswordResponse => match event {
            Event::Response => to(RuntimeState::Auth, ChoiceKind::External, Effect::Unchanged),
            _ => None,
        },
        RuntimeState::SaslInitial => match event {
            Event::Initial => to(RuntimeState::Sasl, ChoiceKind::External, Effect::Unchanged),
            _ => None,
        },
        RuntimeState::Sasl => match event {
            Event::Continue => to(RuntimeState::SaslResponse, ChoiceKind::Internal, Effect::Unchanged),
            Event::Final => to(RuntimeState::Auth, ChoiceKind::Internal, Effect::Unchanged),
            Event::Error => to(RuntimeState::Terminated, ChoiceKind::Internal, Effect::Unchanged),
            _ => None,
        },
        RuntimeState::SaslResponse => match event {
            Event::Response => to(RuntimeState::Sasl, ChoiceKind::External, Effect::Unchanged),
            _ => None,
        },
        RuntimeState::TokenResponse => match event {
            Event::Response => to(RuntimeState::TokenPolicy, ChoiceKind::External, Effect::Unchanged),
            _ => None,
        },
        RuntimeState::TokenPolicy => match event {
            Event::Continue => to(RuntimeState::TokenResponse, ChoiceKind::Internal, Effect::Unchanged),
            Event::Verified => to(RuntimeState::Auth, ChoiceKind::Internal, Effect::Unchanged),
            Event::Error => to(RuntimeState::Terminated, ChoiceKind::Internal, Effect::Unchanged),
            _ => None,
        },
        RuntimeState::StartupReady => match event {
            Event::ParameterStatus => to(RuntimeState::StartupReady, ChoiceKind::Internal, Effect::Unchanged),
            Event::BackendKeyData => to(RuntimeState::StartupReady, ChoiceKind::Internal, Effect::Unchanged),
            Event::Ready => to(RuntimeState::Ready, ChoiceKind::Internal, Effect::Unchanged),
            _ => None,
        },
        RuntimeState::Ready => None,
        RuntimeState::Terminated => None,
    }
}

/// Who chooses the next event in a phase.
pub open spec fn chooser(state: RuntimeState) -> ChoiceKind {
    match state {
        RuntimeState::Startup => ChoiceKind::Internal,
        RuntimeState::Auth => ChoiceKind::Internal,
        RuntimeState::PasswordResponse => ChoiceKind::External,
        RuntimeState::SaslInitial => ChoiceKind::External,
        RuntimeState::Sasl => ChoiceKind::Internal,
        RuntimeState::SaslResponse => ChoiceKind::External,
        RuntimeState::TokenResponse => ChoiceKind::External,
        RuntimeState::TokenPolicy => ChoiceKind::Internal,
        RuntimeState::StartupReady => ChoiceKind::Internal,
        RuntimeState::Ready => ChoiceKind::External,
        RuntimeState::Terminated => ChoiceKind::External,
    }
}

/// The locally chosen event that a message stands for in a phase.
pub open spec fn internal_event(state: RuntimeState, message: BackendView) -> Option<Event> {
    match state {
        RuntimeState::Startup => match message {
            BackendView::ErrorResponse(_) => Some(Event::Reject),
            _ => None,
        },
        RuntimeState::Auth => match message {
            BackendView::NegotiateProtocolVersion(_) => Some(Event::Negotiate),
            BackendView::Authentication(AuthenticationView::CleartextPassword) => Some(Event::Cleartext),
            BackendView::Authentication(AuthenticationView::Md5Password { .. }) => Some(Event::Md5),
            BackendView::Authentication(AuthenticationView::Sasl { .. }) => Some(Event::Sasl),
            BackendView::Authentication(AuthenticationView::Gss) => Some(Event::Gss),
            BackendView::Authentication(AuthenticationView::Sspi) => Some(Event::Sspi),
            BackendView::Authentication(AuthenticationView::KerberosV5) => Some(Event::KerberosV5),
            BackendView::Authentication(AuthenticationView::Accepted) => Some(Event::Accepted),
            BackendView::ErrorResponse(_) => Some(Event::Error),
            _ => None,
        },
        RuntimeState::Sasl => match message {
            BackendView::Authentication(AuthenticationView::SaslContinue(_)) => Some(Event::Continue),
            BackendView::Authentication(AuthenticationView::SaslFinal(_)) => Some(Event::Final),
            BackendView::ErrorResponse(_) => Some(Event::Error),
            _ => None,
        },
        RuntimeState::TokenPolicy => match message {
            BackendView::Authentication(AuthenticationView::GssContinue(_)) => Some(Event::Continue),
            BackendView::ErrorResponse(_) => Some(Event::Error),
            _ => None,
        },
        RuntimeState::StartupReady => match message {
            BackendView::ParameterStatus { .. } => Some(Event::ParameterStatus),
            BackendView::BackendKeyData { .. } => Some(Event::BackendKeyData),
            BackendView::ReadyForQuery(_) => Some(Event::Ready),
            _ => None,
        },
        _ => None,
    }
}

/// The peer's event that a message stands for in a phase.
pub open spec fn external_event(state: RuntimeState, message: FrontendView) -> Option<Event> {
    match state {
        RuntimeState::PasswordResponse => match message {
            FrontendView::PasswordResponse(_) => Some(Event::Response),
            _ => None,
        },
        RuntimeState::SaslInitial => match message {
            FrontendView::PasswordResponse(_) => Some(Event::Initial),
            _ => None,
        },
        RuntimeState::SaslResponse => match message {
            FrontendView::PasswordResponse(_) => Some(Event::Response),
            _ => None,
        },
        RuntimeState::TokenResponse => match message {
            FrontendView::PasswordResponse(_) => Some(Event::Response),
            _ => None,
        },
        _ => None,
    }
}

/// What an event does in a phase, where the phase allows it.
pub fn transition(state: RuntimeState, event: Event) -> (result: Option<Transition>)
    ensures
        result == allowed(state, event),
{
    let (target, choice, effect) = match state {
        RuntimeState::Startup => match event {
            Event::Begin => (RuntimeState::Auth, ChoiceKind::Internal, Effect::Unchanged),
            Event::Reject => (RuntimeState::Terminated, ChoiceKind::Internal, Effect::Unchanged),
            _ => return None,
        },
        RuntimeState::Auth => match event {
            Event::Negotiate => (RuntimeState::Auth, ChoiceKind::Internal, Effect::Unchanged),
            Event::Cleartext => (RuntimeState::PasswordResponse, ChoiceKind::Internal, Effect::Unchanged),
            Event::Md5 => (RuntimeState::PasswordResponse, ChoiceKind::Internal, Effect::Unchanged),
            Event::Sasl => (RuntimeState::SaslInitial, ChoiceKind::Internal, Effect::Unchanged),
            Event::Gss => (RuntimeState::TokenResponse, ChoiceKind::Internal, Effect::Unchanged),
            Event::Sspi => (RuntimeState::TokenResponse, ChoiceKind::Internal, Effect::Unchanged),
            Event::KerberosV5 => (RuntimeState::TokenResponse, ChoiceKind::Internal, Effect::Unchanged),
            Event::Accepted => (RuntimeState::StartupReady, ChoiceKind::Internal, Effect::Unchanged),
            Event::Error => (RuntimeState::Terminated, ChoiceKind::Internal, Effect::Unchanged),
            _ => return None,
        },
        RuntimeState::PasswordResponse => match event {
            Event::Response => (RuntimeState::Auth, ChoiceKind::External, Effect::Unchanged),
            _ => return None,
        },
        RuntimeState::SaslInitial => match event {
            Event::Initial => (RuntimeState::Sasl, ChoiceKind::External, Effect::Unchanged),
            _ => return None,
        },
        RuntimeState::Sasl => match event {
            Event::Continue => (RuntimeState::SaslResponse, ChoiceKind::Internal, Effect::Unchanged),
            Event::Final => (RuntimeState::Auth, ChoiceKind::Internal, Effect::Unchanged),
            Event::Error => (RuntimeState::Terminated, ChoiceKind::Internal, Effect::Unchanged),
            _ => return None,
        },
        RuntimeState::SaslResponse => match event {
            Event::Response => (RuntimeState::Sasl, ChoiceKind::External, Effect::Unchanged),
            _ => return None,
        },
        RuntimeState::TokenResponse => match event {
            Event::Response => (RuntimeState::TokenPolicy, ChoiceKind::External, Effect::Unchanged),
            _ => return None,
        },
        RuntimeState::TokenPolicy => match event {
            Event::Continue => (RuntimeState::TokenResponse, ChoiceKind::Internal, Effect::Unchanged),
            Event::Verified => (RuntimeState::Auth, ChoiceKind::Internal, Effect::Unchanged),
            Event::Error => (RuntimeState::Terminated, ChoiceKind::Internal, Effect::Unchanged),
            _ => return None,
        },
        RuntimeState::StartupReady => match event {
            Event::ParameterStatus => (RuntimeState::StartupReady, ChoiceKind::Internal, Effect::Unchanged),
            Event::BackendKeyData => (RuntimeState::StartupReady, ChoiceKind::Internal, Effect::Unchanged),
            Event::Ready => (RuntimeState::Ready, ChoiceKind::Internal, Effect::Unchanged),
            _ => return None,
        },
        RuntimeState::Ready => return None,
        RuntimeState::Terminated => return None,
    };
    Some(Transition { target, choice, effect })
}

/// The locally chosen event that a message stands for in a phase, if it is legal there.
pub fn project_internal(state: RuntimeState, message: &BackendMessage) -> (event: Option<Event>)
    ensures
        event == internal_event(state, message@),
{
    match state {
        RuntimeState::Startup => match message {
            BackendMessage::ErrorResponse(_) => Some(Event::Reject),
            _ => None,
        },
        RuntimeState::Auth => match message {
            BackendMessage::NegotiateProtocolVersion(_) => Some(Event::Negotiate),
            BackendMessage::Authentication(Authentication::CleartextPassword) => Some(Event::Cleartext),
            BackendMessage::Authentication(Authentication::Md5Password { .. }) => Some(Event::Md5),
            BackendMessage::Authentication(Authentication::Sasl { .. }) => Some(Event::Sasl),
            BackendMessage::Authentication(Authentication::Gss) => Some(Event::Gss),
            BackendMessage::Authentication(Authentication::Sspi) => Some(Event::Sspi),
            BackendMessage::Authentication(Authentication::KerberosV5) => Some(Event::KerberosV5),
            BackendMessage::Authentication(Authentication::Accepted) => Some(Event::Accepted),
            BackendMessage::ErrorResponse(_) => Some(Event::Error),
            _ => None,
        },
        RuntimeState::Sasl => match message {
            BackendMessage::Authentication(Authentication::SaslContinue(_)) => Some(Event::Continue),
            BackendMessage::Authentication(Authentication::SaslFinal(_)) => Some(Event::Final),
            BackendMessage::ErrorResponse(_) => Some(Event::Error),
            _ => None,
        },
        RuntimeState::TokenPolicy => match message {
            BackendMessage::Authentication(Authentication::GssContinue(_)) => Some(Event::Continue),
            BackendMessage::ErrorResponse(_) => Some(Event::Error),
            _ => None,
        },
        RuntimeState::StartupReady => match message {
            BackendMessage::ParameterStatus { .. } => Some(Event::ParameterStatus),
            BackendMessage::BackendKeyData { .. } => Some(Event::BackendKeyData),
            BackendMessage::ReadyForQuery(_) => Some(Event::Ready),
            _ => None,
        },
        _ => None,
    }
}

/// The peer's event that a message stands for in a phase, if it is legal there.
pub fn project_external(state: RuntimeState, message: &FrontendMessage) -> (event: Option<Event>)
    ensures
        event == external_event(state, message@),
{
    match state {
        RuntimeState::PasswordResponse => match message {
            FrontendMessage::PasswordResponse(_) => Some(Event::Response),
            _ => None,
        },
        RuntimeState::SaslInitial => match message {
            FrontendMessage::PasswordResponse(_) => Some(Event::Initial),
            _ => None,
        },
        RuntimeState::SaslResponse => match message {
            FrontendMessage::PasswordResponse(_) => Some(Event::Response),
            _ => None,
        },
        RuntimeState::TokenResponse => match message {
            FrontendMessage::PasswordResponse(_) => Some(Event::Response),
            _ => None,
        },
        _ => None,
    }
}

/// Every event of this grammar, once.
pub fn all_events() -> (events: Vec<Event>)
    ensures
        events@.no_duplicates(),
        forall|event: Event| #[trigger] events@.contains(event),
{
    let events = vec![
        Event::Begin,
        Event::Reject,
        Event::Negotiate,
        Event::Cleartext,
        Event::Md5,
        Event::Sasl,
        Event::Gss,
        Event::Sspi,
        Event::KerberosV5,
        Event::Accepted,
        Event::Error,
        Event::Response,
        Event::Initial,
        Event::Continue,
        Event::Final,
        Event::Verified,
        Event::ParameterStatus,
        Event::BackendKeyData,
        Event::Ready,
    ];
    assert forall|event: Event| #[trigger] events@.contains(event) by {
        match event {
            Event::Begin => assert(events@[0] == event),
            Event::Reject => assert(events@[1] == event),
            Event::Negotiate => assert(events@[2] == event),
            Event::Cleartext => assert(events@[3] == event),
            Event::Md5 => assert(events@[4] == event),
            Event::Sasl => assert(events@[5] == event),
            Event::Gss => assert(events@[6] == event),
            Event::Sspi => assert(events@[7] == event),
            Event::KerberosV5 => assert(events@[8] == event),
            Event::Accepted => assert(events@[9] == event),
            Event::Error => assert(events@[10] == event),
            Event::Response => assert(events@[11] == event),
            Event::Initial => assert(events@[12] == event),
            Event::Continue => assert(events@[13] == event),
            Event::Final => assert(events@[14] == event),
            Event::Verified => assert(events@[15] == event),
            Event::ParameterStatus => assert(events@[16] == event),
            Event::BackendKeyData => assert(events@[17] == event),
            Event::Ready => assert(events@[18] == event),
        }
    }
    events
}

/// Runtime machine that follows this grammar.
#[derive(Clone, Copy, Debug, PartialEq, Eq, Structural)]
pub struct RuntimeFsm {
    state: RuntimeState,
}

impl RuntimeFsm {
    /// The phase that the machine is in.
    pub closed spec fn current(self) -> RuntimeState {
        self.state
    }

    /// A machine in the initial phase.
    pub fn new() -> (machine: RuntimeFsm)
        ensures
            machine.current() == RuntimeState::Startup,
    {
        RuntimeFsm { state: RuntimeState::Startup }
    }

    /// The phase that the machine is in.
    pub fn state(&self) -> (state: RuntimeState)
        ensures
            state == self.current(),
    {
        self.state
    }

    /// Who chooses the next event.
    pub fn choice(&self) -> (choice: ChoiceKind)
        ensures
            choice == chooser(self.current()),
    {
        match self.state {
            RuntimeState::Startup => ChoiceKind::Internal,
            RuntimeState::Auth => ChoiceKind::Internal,
            RuntimeState::PasswordResponse => ChoiceKind::External,
            RuntimeState::SaslInitial => ChoiceKind::External,
            RuntimeState::Sasl => ChoiceKind::Internal,
            RuntimeState::SaslResponse => ChoiceKind::External,
            RuntimeState::TokenResponse => ChoiceKind::External,
            RuntimeState::TokenPolicy => ChoiceKind::Internal,
            RuntimeState::StartupReady => ChoiceKind::Internal,
            RuntimeState::Ready => ChoiceKind::External,
            RuntimeState::Terminated => ChoiceKind::External,
        }
    }

    /// Who chooses `event` in the current phase, if the phase allows it.
    pub fn event_choice(&self, event: Event) -> (choice: Option<ChoiceKind>)
        ensures
            choice == choice_of(allowed(self.current(), event)),
    {
        match transition(self.state, event) {
            Some(transition) => Some(transition.choice),
            None => None,
        }
    }

    /// Who chooses `event` as seen from the peer.
    pub fn dual_event_choice(&self, event: Event) -> (choice: Option<ChoiceKind>)
        ensures
            choice == match choice_of(allowed(self.current(), event)) {
                Some(choice) => Some(choice.flipped()),
                None => None,
            },
    {
        match transition(self.state, event) {
            Some(transition) => Some(transition.choice.dual()),
            None => None,
        }
    }

    /// Follows an event.
    ///
    /// # Errors
    ///
    /// Returns the event when the current phase does not allow it; the machine
    /// then stays where it was.
    pub fn step(&mut self, event: Event) -> (result: Result<(), StepError>)
        ensures
            match allowed(old(self).current(), event) {
                Some(transition) => result == Ok::<(), StepError>(()) && final(self).current()
                    == transition.target,
                None => result == Err::<(), StepError>(
                    (StepError { state: old(self).current(), event }),
                ) && *final(self) == *old(self),
            },
    {
        match transition(self.state, event) {
            Some(transition) => {
                self.state = transition.target;
                Ok(())
            },
            None => Err(StepError { state: self.state, event }),
        }
    }

    /// Projects a wire message in the current phase and follows the event.
    ///
    /// # Errors
    ///
    /// Returns the current phase when it has no event for the message, or does
    /// not allow the event; the machine then stays where it was.
    pub fn step_projected<M, F: Fn(RuntimeState, &M) -> Option<Event>>(
        &mut self,
        message: &M,
        project: F,
    ) -> (result: Result<Event, RuntimeState>)
        requires
            call_requires(project, (old(self).current(), message)),
        ensures
            match result {
                Ok(event) => call_ensures(
                    project,
                    (old(self).current(), message),
                    Some(event),
                ) && allowed(old(self).current(), event) is Some && final(self).current()
                    == allowed(old(self).current(), event)->Some_0.target,
                Err(state) => {
                    &&& *final(self) == *old(self)
                    &&& state == old(self).current()
                    &&& exists|event: Option<Event>| #[trigger]
                        call_ensures(project, (old(self).current(), message), event) && (
                        event matches Some(event) ==> allowed(old(self).current(), event) is None)
                },
            },
    {
        match project(self.state, message) {
            Some(event) => match self.step(event) {
                Ok(_) => Ok(event),
                Err(_) => Err(self.state),
            },
            None => Err(self.state),
        }
    }
}

/// Who chooses an event, where it is allowed.
pub open spec fn choice_of(transition: Option<Transition>) -> Option<ChoiceKind> {
    match transition {
        Some(transition) => Some(transition.choice),
        None => None,
    }
}

impl Default for RuntimeFsm {
    fn default() -> (machine: RuntimeFsm)
        ensures
            machine.current() == RuntimeState::Startup,
    {
        RuntimeFsm::new()
    }
}

/// A compile-time phase index.
pub trait Phase {
    /// The runtime phase of the same name.
    spec fn state() -> RuntimeState;

    /// The runtime phase of the same name.
    fn runtime_state() -> (state: RuntimeState)
        ensures
            state == Self::state(),
    ;
}

/// Phase index.
#[derive(Debug)]
pub struct Startup;

impl Phase for Startup {
    open spec fn state() -> RuntimeState {
        RuntimeState::Startup
    }

    fn runtime_state() -> (state: RuntimeState) {
        RuntimeState::Startup
    }
}

/// Phase index.
#[derive(Debug)]
pub struct Auth;

impl Phase for Auth {
    open spec fn state() -> RuntimeState {
        RuntimeState::Auth
    }

    fn runtime_state() -> (state: RuntimeState) {
        RuntimeState::Auth
    }
}

/// Phase index.
#[derive(Debug)]
pub struct PasswordResponse;

impl Phase for PasswordResponse {
    open spec fn state() -> RuntimeState {
        RuntimeState::PasswordResponse
    }

    fn runtime_state() -> (state: RuntimeState) {
        RuntimeState::PasswordResponse
    }
}

/// Phase index.
#[derive(Debug)]
pub struct SaslInitial;

impl Phase for SaslInitial {
    open spec fn state() -> RuntimeState {
        RuntimeState::SaslInitial
    }

    fn runtime_state() -> (state: RuntimeState) {
        RuntimeState::SaslInitial
    }
}

/// Phase index.
#[derive(Debug)]
pub struct Sasl;

impl Phase for Sasl {
    open spec fn state() -> RuntimeState {
        RuntimeState::Sasl
    }

    fn runtime_state() -> (state: RuntimeState) {
        RuntimeState::Sasl
    }
}

/// Phase index.
#[derive(Debug)]
pub struct SaslResponse;

impl Phase for SaslResponse {
    open spec fn state() -> RuntimeState {
        RuntimeState::SaslResponse
    }

    fn runtime_state() -> (state: RuntimeState) {
        RuntimeState::SaslResponse
    }
}

/// Phase index.
#[derive(Debug)]
pub struct TokenResponse;

impl Phase for TokenResponse {
    open spec fn state() -> RuntimeState {
        RuntimeState::TokenResponse
    }

    fn runtime_state() -> (state: RuntimeState) {
        RuntimeState::TokenResponse
    }
}

/// Phase index.
#[derive(Debug)]
pub struct TokenPolicy;

impl Phase for TokenPolicy {
    open spec fn state() -> RuntimeState {
        RuntimeState::TokenPolicy
    }

    fn runtime_state() -> (state: RuntimeState) {
        RuntimeState::TokenPolicy
    }
}

/// Phase index.
#[derive(Debug)]
pub struct StartupReady;

impl Phase for StartupReady {
    open spec fn state() -> RuntimeState {
        RuntimeState::StartupReady
    }

    fn runtime_state() -> (state: RuntimeState) {
        RuntimeState::StartupReady
    }
}

/// Phase index.
#[derive(Debug)]
pub struct Ready;

impl Phase for Ready {
    open spec fn state() -> RuntimeState {
        RuntimeState::Ready
    }

    fn runtime_state() -> (state: RuntimeState) {
        RuntimeState::Ready
    }
}

/// Phase index.
#[derive(Debug)]
pub struct Terminated;

impl Phase for Terminated {
    open spec fn state() -> RuntimeState {
        RuntimeState::Terminated
    }

    fn runtime_state() -> (state: RuntimeState) {
        RuntimeState::Terminated
    }
}

/// Payload-free witness that a sequence of events follows this grammar. Each
/// phase offers only the events that it allows.
#[derive(Debug)]
pub struct Session<P> {
    _phase: PhantomData<P>,
}

impl<P: Phase> Session<P> {
    /// The runtime phase that this witness stands for.
    pub open spec fn state(self) -> RuntimeState {
        P::state()
    }
}

/// A transport together with the phase and cleanliness that its events led to.
#[derive(Debug)]
pub struct TypedSession<T, P, C> {
    transport: T,
    _index: PhantomData<(P, C)>,
}

impl<T, P, C> TypedSession<T, P, C> {
    /// The transport held.
    pub closed spec fn held(self) -> T {
        self.transport
    }

    /// Starts from a transport that is in phase `P`.
    pub fn with_transport(transport: T) -> (session: Self)
        ensures
            session.held() == transport,
    {
        TypedSession { transport, _index: PhantomData }
    }

    /// Returns the transport when deliberately leaving the typed API.
    pub fn into_transport(self) -> (transport: T)
        ensures
            transport == self.held(),
    {
        self.transport
    }

    /// Changes transport representation without changing either index.
    pub fn map_transport<N, F: FnOnce(T) -> N>(self, map: F) -> (session: TypedSession<N, P, C>)
        requires
            call_requires(map, (self.held(),)),
        ensures
            call_ensures(map, (self.held(),), session.held()),
    {
        TypedSession { transport: map(self.transport), _index: PhantomData }
    }

    fn advanced<N, D>(self) -> (session: TypedSession<T, N, D>)
        ensures
            session.held() == self.held(),
    {
        TypedSession { transport: self.transport, _index: PhantomData }
    }

    fn run<N, D, M, O, E, H: FnOnce(T, M) -> (T, Result<O, E>)>(self, payload: M, handler: H) -> (
        result: Result<(TypedSession<T, N, D>, O), (Self, E)>)
        requires
            call_requires(handler, (self.held(), payload)),
        ensures
            match result {
                Ok((next, out)) => call_ensures(
                    handler,
                    (self.held(), payload),
                    (next.held(), Ok::<O, E>(out)),
                ),
                Err((same, error)) => call_ensures(
                    handler,
                    (self.held(), payload),
                    (same.held(), Err::<O, E>(error)),
                ),
            },
    {
        let (transport, outcome) = handler(self.transport, payload);
        match outcome {
            Ok(out) => Ok((TypedSession { transport, _index: PhantomData }, out)),
            Err(error) => Err((TypedSession { transport, _index: PhantomData }, error)),
        }
    }
}

impl<T, P: Phase, C> TypedSession<T, P, C> {
    /// The runtime phase that this session is in.
    pub open spec fn state(self) -> RuntimeState {
        P::state()
    }
}

/// A message that the local side may send in the phase `P`.
pub struct InternalMessage<P: Phase> {
    message: BackendMessage,
    event: Event,
    _phase: PhantomData<P>,
}

impl<P: Phase> InternalMessage<P> {
    /// The message itself.
    pub closed spec fn wire(self) -> BackendMessage {
        self.message
    }

    #[verifier::type_invariant]
    spec fn legal(&self) -> bool {
        internal_event(P::state(), self.message@) == Some(self.event)
    }

    /// Admits a message that is legal in this phase, and returns any other.
    pub fn try_from(message: BackendMessage) -> (result: Result<Self, BackendMessage>)
        ensures
            match result {
                Ok(admitted) => admitted.wire() == message && internal_event(
                    P::state(),
                    message@,
                ) is Some,
                Err(returned) => returned == message && internal_event(P::state(), message@) is None,
            },
    {
        match project_internal(P::runtime_state(), &message) {
            Some(event) => Ok(InternalMessage { message, event, _phase: PhantomData }),
            None => Err(message),
        }
    }

    /// The event that the message stands for.
    pub fn event(&self) -> (event: Event)
        ensures
            internal_event(P::state(), self.wire()@) == Some(event),
    {
        proof {
            use_type_invariant(self);
        }
        self.event
    }

    /// Borrows the message.
    pub fn as_wire(&self) -> (message: &BackendMessage)
        ensures
            *message == self.wire(),
    {
        &self.message
    }

    /// Returns the message.
    pub fn into_wire(self) -> (message: BackendMessage)
        ensures
            message == self.wire(),
            internal_event(P::state(), message@) is Some,
    {
        proof {
            use_type_invariant(&self);
        }
        self.message
    }
}

pub type StartupInternalMessage = InternalMessage<Startup>;

pub type AuthInternalMessage = InternalMessage<Auth>;

pub type PasswordResponseInternalMessage = InternalMessage<PasswordResponse>;

pub type SaslInitialInternalMessage = InternalMessage<SaslInitial>;

pub type SaslInternalMessage = InternalMessage<Sasl>;

pub type SaslResponseInternalMessage = InternalMessage<SaslResponse>;

pub type TokenResponseInternalMessage = InternalMessage<TokenResponse>;

pub type TokenPolicyInternalMessage = InternalMessage<TokenPolicy>;

pub type StartupReadyInternalMessage = InternalMessage<StartupReady>;

pub type ReadyInternalMessage = InternalMessage<Ready>;

pub type TerminatedInternalMessage = InternalMessage<Terminated>;

/// A message that the peer may send in the phase `P`.
pub struct ExternalMessage<P: Phase> {
    message: FrontendMessage,
    event: Event,
    _phase: PhantomData<P>,
}

impl<P: Phase> ExternalMessage<P> {
    /// The message itself.
    pub closed spec fn wire(self) -> FrontendMessage {
        self.message
    }

    #[verifier::type_invariant]
    spec fn legal(&self) -> bool {
        external_event(P::state(), self.message@) == Some(self.event)
    }

    /// Admits a message that is legal in this phase, and returns any other.
    pub fn try_from(message: FrontendMessage) -> (result: Result<Self, FrontendMessage>)
        ensures
            match result {
                Ok(admitted) => admitted.wire() == message && external_event(
                    P::state(),
                    message@,
                ) is Some,
                Err(returned) => returned == message && external_event(P::state(), message@) is None,
            },
    {
        match project_external(P::runtime_state(), &message) {
            Some(event) => Ok(ExternalMessage { message, event, _phase: PhantomData }),
            None => Err(message),
        }
    }

    /// The event that the message stands for.
    pub fn event(&self) -> (event: Event)
        ensures
            external_event(P::state(), self.wire()@) == Some(event),
    {
        proof {
            use_type_invariant(self);
        }
        self.event
    }

    /// Borrows the message.
    pub fn as_wire(&self) -> (message: &FrontendMessage)
        ensures
            *message == self.wire(),
    {
        &self.message
    }

    /// Returns the message.
    pub fn into_wire(self) -> (message: FrontendMessage)
        ensures
            message == self.wire(),
            external_event(P::state(), message@) is Some,
    {
        proof {
            use_type_invariant(&self);
        }
        self.message
    }
}

pub type StartupExternalMessage = ExternalMessage<Startup>;

pub type AuthExternalMessage = ExternalMessage<Auth>;

pub type PasswordResponseExternalMessage = ExternalMessage<PasswordResponse>;

pub type SaslInitialExternalMessage = ExternalMessage<SaslInitial>;

pub type SaslExternalMessage = ExternalMessage<Sasl>;

pub type SaslResponseExternalMessage = ExternalMessage<SaslResponse>;

pub type TokenResponseExternalMessage = ExternalMessage<TokenResponse>;

pub type TokenPolicyExternalMessage = ExternalMessage<TokenPolicy>;

pub type StartupReadyExternalMessage = ExternalMessage<StartupReady>;

pub type ReadyExternalMessage = ExternalMessage<Ready>;

pub type TerminatedExternalMessage = ExternalMessage<Terminated>;

impl Session<Startup> {
    /// A witness of the initial phase.
    pub fn new() -> (session: Self)
        ensures
            session.state() == RuntimeState::Startup,
    {
        Session { _phase: PhantomData }
    }

    pub fn begin(self) -> (next: Session<Auth>)
        ensures
            allowed(self.state(), Event::Begin) matches Some(transition) && transition.target
                == next.state(),
    {
        Session { _phase: PhantomData }
    }

    pub fn reject(self) -> (next: Session<Terminated>)
        ensures
            allowed(self.state(), Event::Reject) matches Some(transition) && transition.target
                == next.state(),
    {
        Session { _phase: PhantomData }
    }
}

impl Session<Auth> {
    pub fn negotiate(self) -> (next: Session<Auth>)
        ensures
            allowed(self.state(), Event::Negotiate) matches Some(transition) && transition.target
                == next.state(),
    {
        Session { _phase: PhantomData }
    }

    pub fn cleartext(self) -> (next: Session<PasswordResponse>)
        ensures
            allowed(self.state(), Event::Cleartext) matches Some(transition) && transition.target
                == next.state(),
    {
        Session { _phase: PhantomData }
    }

    pub fn md5(self) -> (next: Session<PasswordResponse>)
        ensures
            allowed(self.state(), Event::Md5) matches Some(transition) && transition.target
                == next.state(),
    {
        Session { _phase: PhantomData }
    }

    pub fn sasl(self) -> (next: Session<SaslInitial>)
        ensures
            allowed(self.state(), Event::Sasl) matches Some(transition) && transition.target
                == next.state(),
    {
        Session { _phase: PhantomData }
    }

    pub fn gss(self) -> (next: Session<TokenResponse>)
        ensures
            allowed(self.state(), Event::Gss) matches Some(transition) && transition.target
                == next.state(),
    {
        Session { _phase: PhantomData }
    }

    pub fn sspi(self) -> (next: Session<TokenResponse>)
        ensures
            allowed(self.state(), Event::Sspi) matches Some(transition) && transition.target
                == next.state(),
    {
        Session { _phase: PhantomData }
    }

    pub fn kerberos_v5(self) -> (next: Session<TokenResponse>)
        ensures
            allowed(self.state(), Event::KerberosV5) matches Some(transition) && transition.target
                == next.state(),
    {
        Session { _phase: PhantomData }
    }

    pub fn ok(self) -> (next: Session<StartupReady>)
        ensures
            allowed(self.state(), Event::Accepted) matches Some(transition) && transition.target
                == next.state(),
    {
        Session { _phase: PhantomData }
    }

    pub fn error(self) -> (next: Session<Terminated>)
        ensures
            allowed(self.state(), Event::Error) matches Some(transition) && transition.target
                == next.state(),
    {
        Session { _phase: PhantomData }
    }
}

impl Session<PasswordResponse> {
    pub fn response(self) -> (next: Session<Auth>)
        ensures
            allowed(self.state(), Event::Response) matches Some(transition) && transition.target
                == next.state(),
    {
        Session { _phase: PhantomData }
    }
}

impl Session<SaslInitial> {
    pub fn initial(self) -> (next: Session<Sasl>)
        ensures
            allowed(self.state(), Event::Initial) matches Some(transition) && transition.target
                == next.state(),
    {
        Session { _phase: PhantomData }
    }
}

impl Session<Sasl> {
    pub fn continue_response(self) -> (next: Session<SaslResponse>)
        ensures
            allowed(self.state(), Event::Continue) matches Some(transition) && transition.target
                == next.state(),
    {
        Session { _phase: PhantomData }
    }

    pub fn final_response(self) -> (next: Session<Auth>)
        ensures
            allowed(self.state(), Event::Final) matches Some(transition) && transition.target
                == next.state(),
    {
        Session { _phase: PhantomData }
    }

    pub fn error(self) -> (next: Session<Terminated>)
        ensures
            allowed(self.state(), Event::Error) matches Some(transition) && transition.target
                == next.state(),
    {
        Session { _phase: PhantomData }
    }
}

impl Session<SaslResponse> {
    pub fn response(self) -> (next: Session<Sasl>)
        ensures
            allowed(self.state(), Event::Response) matches Some(transition) && transition.target
                == next.state(),
    {
        Session { _phase: PhantomData }
    }
}

impl Session<TokenResponse> {
    pub fn response(self) -> (next: Session<TokenPolicy>)
        ensures
            allowed(self.state(), Event::Response) matches Some(transition) && transition.target
                == next.state(),
    {
        Session { _phase: PhantomData }
    }
}

impl Session<TokenPolicy> {
    pub fn continue_token(self) -> (next: Session<TokenResponse>)
        ensures
            allowed(self.state(), Event::Continue) matches Some(transition) && transition.target
                == next.state(),
    {
        Session { _phase: PhantomData }
    }

    pub fn verified(self) -> (next: Session<Auth>)
        ensures
            allowed(self.state(), Event::Verified) matches Some(transition) && transition.target
                == next.state(),
    {
        Session { _phase: PhantomData }
    }

    pub fn error(self) -> (next: Session<Terminated>)
        ensures
            allowed(self.state(), Event::Error) matches Some(transition) && transition.target
                == next.state(),
    {
        Session { _phase: PhantomData }
    }
}

impl Session<StartupReady> {
    pub fn parameter_status(self) -> (next: Session<StartupReady>)
        ensures
            allowed(self.state(), Event::ParameterStatus) matches Some(transition) && transition.target
                == next.state(),
    {
        Session { _phase: PhantomData }
    }

    pub fn backend_key_data(self) -> (next: Session<StartupReady>)
        ensures
            allowed(self.state(), Event::BackendKeyData) matches Some(transition) && transition.target
                == next.state(),
    {
        Session { _phase: PhantomData }
    }

    pub fn ready(self) -> (next: Session<Ready>)
        ensures
            allowed(self.state(), Event::Ready) matches Some(transition) && transition.target
                == next.state(),
    {
        Session { _phase: PhantomData }
    }
}

impl<T, C> TypedSession<T, Startup, C> {
    pub fn begin(self) -> (next: TypedSession<T, Auth, C>)
        ensures
            next.held() == self.held(),
            allowed(self.state(), Event::Begin) == to(next.state(), ChoiceKind::Internal, Effect::Unchanged),
    {
        self.advanced()
    }

    pub fn reject<O, E, H: FnOnce(T, DiagnosticResponse) -> (T, Result<O, E>)>(
        self,
        payload: DiagnosticResponse,
        handler: H,
    ) -> (result: Result<(TypedSession<T, Terminated, C>, O), (Self, E)>)
        requires
            call_requires(handler, (self.held(), payload)),
        ensures
            match result {
                Ok((next, out)) => call_ensures(
                    handler,
                    (self.held(), payload),
                    (next.held(), Ok::<O, E>(out)),
                ) && allowed(self.state(), Event::Reject) == to(next.state(), ChoiceKind::Internal, Effect::Unchanged),
                Err((same, error)) => call_ensures(
                    handler,
                    (self.held(), payload),
                    (same.held(), Err::<O, E>(error)),
                ),
            },
    {
        self.run(payload, handler)
    }
}

impl<T, C> TypedSession<T, Auth, C> {
    pub fn negotiate<O, E, H: FnOnce(T, NegotiateProtocolVersion) -> (T, Result<O, E>)>(
        self,
        payload: NegotiateProtocolVersion,
        handler: H,
    ) -> (result: Result<(TypedSession<T, Auth, C>, O), (Self, E)>)
        requires
            call_requires(handler, (self.held(), payload)),
        ensures
            match result {
                Ok((next, out)) => call_ensures(
                    handler,
                    (self.held(), payload),
                    (next.held(), Ok::<O, E>(out)),
                ) && allowed(self.state(), Event::Negotiate) == to(next.state(), ChoiceKind::Internal, Effect::Unchanged),
                Err((same, error)) => call_ensures(
                    handler,
                    (self.held(), payload),
                    (same.held(), Err::<O, E>(error)),
                ),
            },
    {
        self.run(payload, handler)
    }

    pub fn cleartext(self) -> (next: TypedSession<T, PasswordResponse, C>)
        ensures
            next.held() == self.held(),
            allowed(self.state(), Event::Cleartext) == to(next.state(), ChoiceKind::Internal, Effect::Unchanged),
    {
        self.advanced()
    }

    pub fn md5<O, E, H: FnOnce(T, [u8; 4]) -> (T, Result<O, E>)>(
        self,
        payload: [u8; 4],
        handler: H,
    ) -> (result: Result<(TypedSession<T, PasswordResponse, C>, O), (Self, E)>)
        requires
            call_requires(handler, (self.held(), payload)),
        ensures
            match result {
                Ok((next, out)) => call_ensures(
                    handler,
                    (self.held(), payload),
                    (next.held(), Ok::<O, E>(out)),
                ) && allowed(self.state(), Event::Md5) == to(next.state(), ChoiceKind::Internal, Effect::Unchanged),
                Err((same, error)) => call_ensures(
                    handler,
                    (self.held(), payload),
                    (same.held(), Err::<O, E>(error)),
                ),
            },
    {
        self.run(payload, handler)
    }

    pub fn sasl<O, E, H: FnOnce(T, Vec<Bytes>) -> (T, Result<O, E>)>(
        self,
        payload: Vec<Bytes>,
        handler: H,
    ) -> (result: Result<(TypedSession<T, SaslInitial, C>, O), (Self, E)>)
        requires
            call_requires(handler, (self.held(), payload)),
        ensures
            match result {
                Ok((next, out)) => call_ensures(
                    handler,
                    (self.held(), payload),
                    (next.held(), Ok::<O, E>(out)),
                ) && allowed(self.state(), Event::Sasl) == to(next.state(), ChoiceKind::Internal, Effect::Unchanged),
                Err((same, error)) => call_ensures(
                    handler,
                    (self.held(), payload),
                    (same.held(), Err::<O, E>(error)),
                ),
            },
    {
        self.run(payload, handler)
    }

    pub fn gss(self) -> (next: TypedSession<T, TokenResponse, C>)
        ensures
            next.held() == self.held(),
            allowed(self.state(), Event::Gss) == to(next.state(), ChoiceKind::Internal, Effect::Unchanged),
    {
        self.advanced()
    }

    pub fn sspi(self) -> (next: TypedSession<T, TokenResponse, C>)
        ensures
            next.held() == self.held(),
            allowed(self.state(), Event::Sspi) == to(next.state(), ChoiceKind::Internal, Effect::Unchanged),
    {
        self.advanced()
    }

    pub fn kerberos_v5(self) -> (next: TypedSession<T, TokenResponse, C>)
        ensures
            next.held() == self.held(),
            allowed(self.state(), Event::KerberosV5) == to(next.state(), ChoiceKind::Internal, Effect::Unchanged),
    {
        self.advanced()
    }

    pub fn ok(self) -> (next: TypedSession<T, StartupReady, C>)
        ensures
            next.held() == self.held(),
            allowed(self.state(), Event::Accepted) == to(next.state(), ChoiceKind::Internal, Effect::Unchanged),
    {
        self.advanced()
    }

    pub fn error<O, E, H: FnOnce(T, DiagnosticResponse) -> (T, Result<O, E>)>(
        self,
        payload: DiagnosticResponse,
        handler: H,
    ) -> (result: Result<(TypedSession<T, Terminated, C>, O), (Self, E)>)
        requires
            call_requires(handler, (self.held(), payload)),
        ensures
            match result {
                Ok((next, out)) => call_ensures(
                    handler,
                    (self.held(), payload),
                    (next.held(), Ok::<O, E>(out)),
                ) && allowed(self.state(), Event::Error) == to(next.state(), ChoiceKind::Internal, Effect::Unchanged),
                Err((same, error)) => call_ensures(
                    handler,
                    (self.held(), payload),
                    (same.held(), Err::<O, E>(error)),
                ),
            },
    {
        self.run(payload, handler)
    }
}

impl<T, C> TypedSession<T, PasswordResponse, C> {
    pub fn response<O, E, H: FnOnce(T, Bytes) -> (T, Result<O, E>)>(
        self,
        payload: Bytes,
        handler: H,
    ) -> (result: Result<(TypedSession<T, Auth, C>, O), (Self, E)>)
        requires
            call_requires(handler, (self.held(), payload)),
        ensures
            match result {
                Ok((next, out)) => call_ensures(
                    handler,
                    (self.held(), payload),
                    (next.held(), Ok::<O, E>(out)),
                ) && allowed(self.state(), Event::Response) == to(next.state(), ChoiceKind::External, Effect::Unchanged),
                Err((same, error)) => call_ensures(
                    handler,
                    (self.held(), payload),
                    (same.held(), Err::<O, E>(error)),
                ),
            },
    {
        self.run(payload, handler)
    }
}

impl<T, C> TypedSession<T, SaslInitial, C> {
    pub fn initial<O, E, H: FnOnce(T, SaslInitialResponse) -> (T, Result<O, E>)>(
        self,
        payload: SaslInitialResponse,
        handler: H,
    ) -> (result: Result<(TypedSession<T, Sasl, C>, O), (Self, E)>)
        requires
            call_requires(handler, (self.held(), payload)),
        ensures
            match result {
                Ok((next, out)) => call_ensures(
                    handler,
                    (self.held(), payload),
                    (next.held(), Ok::<O, E>(out)),
                ) && allowed(self.state(), Event::Initial) == to(next.state(), ChoiceKind::External, Effect::Unchanged),
                Err((same, error)) => call_ensures(
                    handler,
                    (self.held(), payload),
                    (same.held(), Err::<O, E>(error)),
                ),
            },
    {
        self.run(payload, handler)
    }
}

impl<T, C> TypedSession<T, Sasl, C> {
    pub fn continue_response<O, E, H: FnOnce(T, Bytes) -> (T, Result<O, E>)>(
        self,
        payload: Bytes,
        handler: H,
    ) -> (result: Result<(TypedSession<T, SaslResponse, C>, O), (Self, E)>)
        requires
            call_requires(handler, (self.held(), payload)),
        ensures
            match result {
                Ok((next, out)) => call_ensures(
                    handler,
                    (self.held(), payload),
                    (next.held(), Ok::<O, E>(out)),
                ) && allowed(self.state(), Event::Continue) == to(next.state(), ChoiceKind::Internal, Effect::Unchanged),
                Err((same, error)) => call_ensures(
                    handler,
                    (self.held(), payload),
                    (same.held(), Err::<O, E>(error)),
                ),
            },
    {
        self.run(payload, handler)
    }

    pub fn final_response<O, E, H: FnOnce(T, Bytes) -> (T, Result<O, E>)>(
        self,
        payload: Bytes,
        handler: H,
    ) -> (result: Result<(TypedSession<T, Auth, C>, O), (Self, E)>)
        requires
            call_requires(handler, (self.held(), payload)),
        ensures
            match result {
                Ok((next, out)) => call_ensures(
                    handler,
                    (self.held(), payload),
                    (next.held(), Ok::<O, E>(out)),
                ) && allowed(self.state(), Event::Final) == to(next.state(), ChoiceKind::Internal, Effect::Unchanged),
                Err((same, error)) => call_ensures(
                    handler,
                    (self.held(), payload),
                    (same.held(), Err::<O, E>(error)),
                ),
            },
    {
        self.run(payload, handler)
    }

    pub fn error<O, E, H: FnOnce(T, DiagnosticResponse) -> (T, Result<O, E>)>(
        self,
        payload: DiagnosticResponse,
        handler: H,
    ) -> (result: Result<(TypedSession<T, Terminated, C>, O), (Self, E)>)
        requires
            call_requires(handler, (self.held(), payload)),
        ensures
            match result {
                Ok((next, out)) => call_ensures(
                    handler,
                    (self.held(), payload),
                    (next.held(), Ok::<O, E>(out)),
                ) && allowed(self.state(), Event::Error) == to(next.state(), ChoiceKind::Internal, Effect::Unchanged),
                Err((same, error)) => call_ensures(
                    handler,
                    (self.held(), payload),
                    (same.held(), Err::<O, E>(error)),
                ),
            },
    {
        self.run(payload, handler)
    }
}

impl<T, C> TypedSession<T, SaslResponse, C> {
    pub fn response<O, E, H: FnOnce(T, Bytes) -> (T, Result<O, E>)>(
        self,
        payload: Bytes,
        handler: H,
    ) -> (result: Result<(TypedSession<T, Sasl, C>, O), (Self, E)>)
        requires
            call_requires(handler, (self.held(), payload)),
        ensures
            match result {
                Ok((next, out)) => call_ensures(
                    handler,
                    (self.held(), payload),
                    (next.held(), Ok::<O, E>(out)),
                ) && allowed(self.state(), Event::Response) == to(next.state(), ChoiceKind::External, Effect::Unchanged),
                Err((same, error)) => call_ensures(
                    handler,
                    (self.held(), payload),
                    (same.held(), Err::<O, E>(error)),
                ),
            },
    {
        self.run(payload, handler)
    }
}

impl<T, C> TypedSession<T, TokenResponse, C> {
    pub fn response<O, E, H: FnOnce(T, Bytes) -> (T, Result<O, E>)>(
        self,
        payload: Bytes,
        handler: H,
    ) -> (result: Result<(TypedSession<T, TokenPolicy, C>, O), (Self, E)>)
        requires
            call_requires(handler, (self.held(), payload)),
        ensures
            match result {
                Ok((next, out)) => call_ensures(
                    handler,
                    (self.held(), payload),
                    (next.held(), Ok::<O, E>(out)),
                ) && allowed(self.state(), Event::Response) == to(next.state(), ChoiceKind::External, Effect::Unchanged),
                Err((same, error)) => call_ensures(
                    handler,
                    (self.held(), payload),
                    (same.held(), Err::<O, E>(error)),
                ),
            },
    {
        self.run(payload, handler)
    }
}

impl<T, C> TypedSession<T, TokenPolicy, C> {
    pub fn continue_token<O, E, H: FnOnce(T, Bytes) -> (T, Result<O, E>)>(
        self,
        payload: Bytes,
        handler: H,
    ) -> (result: Result<(TypedSession<T, TokenResponse, C>, O), (Self, E)>)
        requires
            call_requires(handler, (self.held(), payload)),
        ensures
            match result {
                Ok((next, out)) => call_ensures(
                    handler,
                    (self.held(), payload),
                    (next.held(), Ok::<O, E>(out)),
                ) && allowed(self.state(), Event::Continue) == to(next.state(), ChoiceKind::Internal, Effect::Unchanged),
                Err((same, error)) => call_ensures(
                    handler,
                    (self.held(), payload),
                    (same.held(), Err::<O, E>(error)),
                ),
            },
    {
        self.run(payload, handler)
    }

    pub fn verified(self) -> (next: TypedSession<T, Auth, C>)
        ensures
            next.held() == self.held(),
            allowed(self.state(), Event::Verified) == to(next.state(), ChoiceKind::Internal, Effect::Unchanged),
    {
        self.advanced()
    }

    pub fn error<O, E, H: FnOnce(T, DiagnosticResponse) -> (T, Result<O, E>)>(
        self,
        payload: DiagnosticResponse,
        handler: H,
    ) -> (result: Result<(TypedSession<T, Terminated, C>, O), (Self, E)>)
        requires
            call_requires(handler, (self.held(), payload)),
        ensures
            match result {
                Ok((next, out)) => call_ensures(
                    handler,
                    (self.held(), payload),
                    (next.held(), Ok::<O, E>(out)),
                ) && allowed(self.state(), Event::Error) == to(next.state(), ChoiceKind::Internal, Effect::Unchanged),
                Err((same, error)) => call_ensures(
                    handler,
                    (self.held(), payload),
                    (same.held(), Err::<O, E>(error)),
                ),
            },
    {
        self.run(payload, handler)
    }
}

impl<T, C> TypedSession<T, StartupReady, C> {
    pub fn parameter_status<O, E, H: FnOnce(T, (Bytes, Bytes)) -> (T, Result<O, E>)>(
        self,
        payload: (Bytes, Bytes),
        handler: H,
    ) -> (result: Result<(TypedSession<T, StartupReady, C>, O), (Self, E)>)
        requires
            call_requires(handler, (self.held(), payload)),
        ensures
            match result {
                Ok((next, out)) => call_ensures(
                    handler,
                    (self.held(), payload),
                    (next.held(), Ok::<O, E>(out)),
                ) && allowed(self.state(), Event::ParameterStatus) == to(next.state(), ChoiceKind::Internal, Effect::Unchanged),
                Err((same, error)) => call_ensures(
                    handler,
                    (self.held(), payload),
                    (same.held(), Err::<O, E>(error)),
                ),
            },
    {
        self.run(payload, handler)
    }

    pub fn backend_key_data<O, E, H: FnOnce(T, (u32, Bytes)) -> (T, Result<O, E>)>(
        self,
        payload: (u32, Bytes),
        handler: H,
    ) -> (result: Result<(TypedSession<T, StartupReady, C>, O), (Self, E)>)
        requires
            call_requires(handler, (self.held(), payload)),
        ensures
            match result {
                Ok((next, out)) => call_ensures(
                    handler,
                    (self.held(), payload),
                    (next.held(), Ok::<O, E>(out)),
                ) && allowed(self.state(), Event::BackendKeyData) == to(next.state(), ChoiceKind::Internal, Effect::Unchanged),
                Err((same, error)) => call_ensures(
                    handler,
                    (self.held(), payload),
                    (same.held(), Err::<O, E>(error)),
                ),
            },
    {
        self.run(payload, handler)
    }

    pub fn ready<O, E, H: FnOnce(T, TransactionStatus) -> (T, Result<O, E>)>(
        self,
        payload: TransactionStatus,
        handler: H,
    ) -> (result: Result<(TypedSession<T, Ready, C>, O), (Self, E)>)
        requires
            call_requires(handler, (self.held(), payload)),
        ensures
            match result {
                Ok((next, out)) => call_ensures(
                    handler,
                    (self.held(), payload),
                    (next.held(), Ok::<O, E>(out)),
                ) && allowed(self.state(), Event::Ready) == to(next.state(), ChoiceKind::Internal, Effect::Unchanged),
                Err((same, error)) => call_ensures(
                    handler,
                    (self.held(), payload),
                    (same.held(), Err::<O, E>(error)),
                ),
            },
    {
        self.run(payload, handler)
    }
}

} // verus!
