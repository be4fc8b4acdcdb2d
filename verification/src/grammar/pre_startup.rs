//! Encryption negotiation and startup, as a frontend drives it.

use bytes::Bytes;
use std::marker::PhantomData;
use vstd::prelude::*;

pub use super::{ChoiceKind, Effect};
use crate::pre_startup::{EncryptionReply, PreStartupMessage, PreStartupView};
use crate::startup::StartupMessage;
pub use crate::conn::{Dirty, Pristine};

verus! {

/// A phase of this grammar.
#[derive(Clone, Copy, Debug, PartialEq, Eq, Hash, Structural)]
pub enum RuntimeState {
    PreStartup,
    AwaitingSslReply,
    AwaitingGssReply,
    TlsHandshake,
    GssHandshake,
    Auth,
    Terminated,
}

/// A step of this grammar.
#[derive(Clone, Copy, Debug, PartialEq, Eq, Hash, Structural)]
pub enum Event {
    SslRequest,
    GssRequest,
    Cancel,
    Startup,
    Accept,
    Reject,
    LegacyError,
    HandshakeComplete,
}

/// An event that its phase does not allow. The machine stays in `state`.
#[derive(Clone, Copy, Debug, PartialEq, Eq, Structural)]
pub struct StepError {
    pub state: RuntimeState,
    pub event: Event,
}

/// Where an allowed event leads, who chooses it, and what it does to cleanliness.
#[derive(Clone, Copy, Debug, PartialEq, Eq, Structural)]
pub struct Transition {
    pub target: RuntimeState,
    pub choice: ChoiceKind,
    pub effect: Effect,
}

/// The outcome of an allowed event.
pub open spec fn to(target: RuntimeState, choice: ChoiceKind, effect: Effect) -> Option<Transition> {
    Some(Transition { target, choice, effect })
}

/// The grammar: which events each phase allows.
pub open spec fn allowed(state: RuntimeState, event: Event) -> Option<Transition> {
    match state {
        RuntimeState::PreStartup => match event {
            Event::SslRequest => to(RuntimeState::AwaitingSslReply, ChoiceKind::Internal, Effect::Unchanged),
            Event::GssRequest => to(RuntimeState::AwaitingGssReply, ChoiceKind::Internal, Effect::Unchanged),
            Event::Cancel => to(RuntimeState::Terminated, ChoiceKind::Internal, Effect::Unchanged),
            Event::Startup => to(RuntimeState::Auth, ChoiceKind::Internal, Effect::Unchanged),
            _ => None,
        },
        RuntimeState::AwaitingSslReply => match event {
            Event::Accept => to(RuntimeState::TlsHandshake, ChoiceKind::External, Effect::Unchanged),
            Event::Reject => to(RuntimeState::PreStartup, ChoiceKind::External, Effect::Unchanged),
            Event::LegacyError => to(RuntimeState::Terminated, ChoiceKind::External, Effect::Unchanged),
            _ => None,
        },
        RuntimeState::AwaitingGssReply => match event {
            Event::Accept => to(RuntimeState::GssHandshake, ChoiceKind::External, Effect::Unchanged),
            Event::Reject => to(RuntimeState::PreStartup, ChoiceKind::External, Effect::Unchanged),
            Event::LegacyError => to(RuntimeState::Terminated, ChoiceKind::External, Effect::Unchanged),
            _ => None,
        },
        RuntimeState::TlsHandshake => match event {
            Event::HandshakeComplete => to(RuntimeState::PreStartup, ChoiceKind::Internal, Effect::Unchanged),
            _ => None,
        },
        RuntimeState::GssHandshake => match event {
            Event::HandshakeComplete => to(RuntimeState::PreStartup, ChoiceKind::Internal, Effect::Unchanged),
            _ => None,
        },
        RuntimeState::Auth => None,
        RuntimeState::Terminated => None,
    }
}

/// Who chooses the next event in a phase.
pub open spec fn chooser(state: RuntimeState) -> ChoiceKind {
    match state {
        RuntimeState::PreStartup => ChoiceKind::Internal,
        RuntimeState::AwaitingSslReply => ChoiceKind::External,
        RuntimeState::AwaitingGssReply => ChoiceKind::External,
        RuntimeState::TlsHandshake => ChoiceKind::Internal,
        RuntimeState::GssHandshake => ChoiceKind::Internal,
        RuntimeState::Auth => ChoiceKind::External,
        RuntimeState::Terminated => ChoiceKind::External,
    }
}

/// The locally chosen event that a message stands for in a phase.
pub open spec fn internal_event(state: RuntimeState, message: PreStartupView) -> Option<Event> {
    match state {
        RuntimeState::PreStartup => match message {
            PreStartupView::SslRequest => Some(Event::SslRequest),
            PreStartupView::GssEncRequest => Some(Event::GssRequest),
            PreStartupView::CancelRequest { .. } => Some(Event::Cancel),
            PreStartupView::Startup(_) => Some(Event::Startup),
            _ => None,
        },
        _ => None,
    }
}

/// The peer's event that a message stands for in a phase.
pub open spec fn external_event(state: RuntimeState, message: EncryptionReply) -> Option<Event> {
    match state {
        RuntimeState::AwaitingSslReply => match message {
            EncryptionReply::Accepted => Some(Event::Accept),
            EncryptionReply::Rejected => Some(Event::Reject),
            EncryptionReply::LegacyError => Some(Event::LegacyError),
        },
        RuntimeState::AwaitingGssReply => match message {
            EncryptionReply::Accepted => Some(Event::Accept),
            EncryptionReply::Rejected => Some(Event::Reject),
            EncryptionReply::LegacyError => Some(Event::LegacyError),
        },
        _ => None,
    }
}

/// What an event does in a phase, where the phase allows it.
pub fn transition(state: RuntimeState, event: Event) -> (result: Option<Transition>)
    ensures
        result == allowed(state, event),
{
    let (target, choice, effect) = match state {
        RuntimeState::PreStartup => match event {
            Event::SslRequest => (RuntimeState::AwaitingSslReply, ChoiceKind::Internal, Effect::Unchanged),
            Event::GssRequest => (RuntimeState::AwaitingGssReply, ChoiceKind::Internal, Effect::Unchanged),
            Event::Cancel => (RuntimeState::Terminated, ChoiceKind::Internal, Effect::Unchanged),
            Event::Startup => (RuntimeState::Auth, ChoiceKind::Internal, Effect::Unchanged),
            _ => return None,
        },
        RuntimeState::AwaitingSslReply => match event {
            Event::Accept => (RuntimeState::TlsHandshake, ChoiceKind::External, Effect::Unchanged),
            Event::Reject => (RuntimeState::PreStartup, ChoiceKind::External, Effect::Unchanged),
            Event::LegacyError => (RuntimeState::Terminated, ChoiceKind::External, Effect::Unchanged),
            _ => return None,
        },
        RuntimeState::AwaitingGssReply => match event {
            Event::Accept => (RuntimeState::GssHandshake, ChoiceKind::External, Effect::Unchanged),
            Event::Reject => (RuntimeState::PreStartup, ChoiceKind::External, Effect::Unchanged),
            Event::LegacyError => (RuntimeState::Terminated, ChoiceKind::External, Effect::Unchanged),
            _ => return None,
        },
        RuntimeState::TlsHandshake => match event {
            Event::HandshakeComplete => (RuntimeState::PreStartup, ChoiceKind::Internal, Effect::Unchanged),
            _ => return None,
        },
        RuntimeState::GssHandshake => match event {
            Event::HandshakeComplete => (RuntimeState::PreStartup, ChoiceKind::Internal, Effect::Unchanged),
            _ => return None,
        },
        RuntimeState::Auth => return None,
        RuntimeState::Terminated => return None,
    };
    Some(Transition { target, choice, effect })
}

/// The locally chosen event that a message stands for in a phase, if it is legal there.
pub fn project_internal(state: RuntimeState, message: &PreStartupMessage) -> (event: Option<Event>)
    ensures
        event == internal_event(state, message@),
{
    match state {
        RuntimeState::PreStartup => match message {
            PreStartupMessage::SslRequest => Some(Event::SslRequest),
            PreStartupMessage::GssEncRequest => Some(Event::GssRequest),
            PreStartupMessage::CancelRequest { .. } => Some(Event::Cancel),
            PreStartupMessage::Startup(_) => Some(Event::Startup),
            _ => None,
        },
        _ => None,
    }
}

/// The peer's event that a message stands for in a phase, if it is legal there.
pub fn project_external(state: RuntimeState, message: &EncryptionReply) -> (event: Option<Event>)
    ensures
        event == external_event(state, *message),
{
    match state {
        RuntimeState::AwaitingSslReply => match message {
            EncryptionReply::Accepted => Some(Event::Accept),
            EncryptionReply::Rejected => Some(Event::Reject),
            EncryptionReply::LegacyError => Some(Event::LegacyError),
        },
        RuntimeState::AwaitingGssReply => match message {
            EncryptionReply::Accepted => Some(Event::Accept),
            EncryptionReply::Rejected => Some(Event::Reject),
            EncryptionReply::LegacyError => Some(Event::LegacyError),
        },
        _ => None,
    }
}

/// Every event of this grammar, once.
pub fn all_events() -> (events: Vec<Event>)
    ensures
        events@.no_duplicates(),
        forall|event: Event| #[trigger] events@.contains(event),
{
    let events = vec![
        Event::SslRequest,
        Event::GssRequest,
        Event::Cancel,
        Event::Startup,
        Event::Accept,
        Event::Reject,
        Event::LegacyError,
        Event::HandshakeComplete,
    ];
    assert forall|event: Event| #[trigger] events@.contains(event) by {
        match event {
            Event::SslRequest => assert(events@[0] == event),
            Event::GssRequest => assert(events@[1] == event),
            Event::Cancel => assert(events@[2] == event),
            Event::Startup => assert(events@[3] == event),
            Event::Accept => assert(events@[4] == event),
            Event::Reject => assert(events@[5] == event),
            Event::LegacyError => assert(events@[6] == event),
            Event::HandshakeComplete => assert(events@[7] == event),
        }
    }
    events
}

/// Runtime machine that follows this grammar.
#[derive(Clone, Copy, Debug, PartialEq, Eq, Structural)]
pub struct RuntimeFsm {
    state: RuntimeState,
}

impl RuntimeFsm {
    /// The phase that the machine is in.
    pub closed spec fn current(self) -> RuntimeState {
        self.state
    }

    /// A machine in the initial phase.
    pub fn new() -> (machine: RuntimeFsm)
        ensures
            machine.current() == RuntimeState::PreStartup,
    {
        RuntimeFsm { state: RuntimeState::PreStartup }
    }

    /// The phase that the machine is in.
    pub fn state(&self) -> (state: RuntimeState)
        ensures
            state == self.current(),
    {
        self.state
    }

    /// Who chooses the next event.
    pub fn choice(&self) -> (choice: ChoiceKind)
        ensures
            choice == chooser(self.current()),
    {
        match self.state {
            RuntimeState::PreStartup => ChoiceKind::Internal,
            RuntimeState::AwaitingSslReply => ChoiceKind::External,
            RuntimeState::AwaitingGssReply => ChoiceKind::External,
            RuntimeState::TlsHandshake => ChoiceKind::Internal,
            RuntimeState::GssHandshake => ChoiceKind::Internal,
            RuntimeState::Auth => ChoiceKind::External,
            RuntimeState::Terminated => ChoiceKind::External,
        }
    }

    /// Who chooses `event` in the current phase, if the phase allows it.
    pub fn event_choice(&self, event: Event) -> (choice: Option<ChoiceKind>)
        ensures
            choice == choice_of(allowed(self.current(), event)),
    {
        match transition(self.state, event) {
            Some(transition) => Some(transition.choice),
            None => None,
        }
    }

    /// Who chooses `event` as seen from the peer.
    pub fn dual_event_choice(&self, event: Event) -> (choice: Option<ChoiceKind>)
        ensures
            choice == match choice_of(allowed(self.current(), event)) {
                Some(choice) => Some(choice.flipped()),
                None => None,
            },
    {
        match transition(self.state, event) {
            Some(transition) => Some(transition.choice.dual()),
            None => None,
        }
    }

    /// Follows an event.
    ///
    /// # Errors
    ///
    /// Returns the event when the current phase does not allow it; the machine
    /// then stays where it was.
    pub fn step(&mut self, event: Event) -> (result: Result<(), StepError>)
        ensures
            match allowed(old(self).current(), event) {
                Some(transition) => result == Ok::<(), StepError>(()) && final(self).current()
                    == transition.target,
                None => result == Err::<(), StepError>(
                    (StepError { state: old(self).current(), event }),
                ) && *final(self) == *old(self),
            },
    {
        match transition(self.state, event) {
            Some(transition) => {
                self.state = transition.target;
                Ok(())
            },
            None => Err(StepError { state: self.state, event }),
        }
    }

    /// Projects a wire message in the current phase and follows the event.
    ///
    /// # Errors
    ///
    /// Returns the current phase when it has no event for the message, or does
    /// not allow the event; the machine then stays where it was.
    pub fn step_projected<M, F: Fn(RuntimeState, &M) -> Option<Event>>(
        &mut self,
        message: &M,
        project: F,
    ) -> (result: Result<Event, RuntimeState>)
        requires
            call_requires(project, (old(self).current(), message)),
        ensures
            match result {
                Ok(event) => call_ensures(
                    project,
                    (old(self).current(), message),
                    Some(event),
                ) && allowed(old(self).current(), event) is Some && final(self).current()
                    == allowed(old(self).current(), event)->Some_0.target,
                Err(state) => {
                    &&& *final(self) == *old(self)
                    &&& state == old(self).current()
                    &&& exists|event: Option<Event>| #[trigger]
                        call_ensures(project, (old(self).current(), message), event) && (
                        event matches Some(event) ==> allowed(old(self).current(), event) is None)
                },
            },
    {
        match project(self.state, message) {
            Some(event) => match self.step(event) {
                Ok(_) => Ok(event),
                Err(_) => Err(self.state),
            },
            None => Err(self.state),
        }
    }
}

/// Who chooses an event, where it is allowed.
pub open spec fn choice_of(transition: Option<Transition>) -> Option<ChoiceKind> {
    match transition {
        Some(transition) => Some(transition.choice),
        None => None,
    }
}

impl Default for RuntimeFsm {
    fn default() -> (machine: RuntimeFsm)
        ensures
            machine.current() == RuntimeState::PreStartup,
    {
        RuntimeFsm::new()
    }
}

/// A compile-time phase index.
pub trait Phase {
    /// The runtime phase of the same name.
    spec fn state() -> RuntimeState;

    /// The runtime phase of the same name.
    fn runtime_state() -> (state: RuntimeState)
        ensures
            state == Self::state(),
    ;
}

/// Phase index.
#[derive(Debug)]
pub struct PreStartup;

impl Phase for PreStartup {
    open spec fn state() -> RuntimeState {
        RuntimeState::PreStartup
    }

    fn runtime_state() -> (state: RuntimeState) {
        RuntimeState::PreStartup
    }
}

/// Phase index.
#[derive(Debug)]
pub struct AwaitingSslReply;

impl Phase for AwaitingSslReply {
    open spec fn state() -> RuntimeState {
        RuntimeState::AwaitingSslReply
    }

    fn runtime_state() -> (state: RuntimeState) {
        RuntimeState::AwaitingSslReply
    }
}

/// Phase index.
#[derive(Debug)]
pub struct AwaitingGssReply;

impl Phase for AwaitingGssReply {
    open spec fn state() -> RuntimeState {
        RuntimeState::AwaitingGssReply
    }

    fn runtime_state() -> (state: RuntimeState) {
        RuntimeState::AwaitingGssReply
    }
}

/// Phase index.
#[derive(Debug)]
pub struct TlsHandshake;

impl Phase for TlsHandshake {
    open spec fn state() -> RuntimeState {
        RuntimeState::TlsHandshake
    }

    fn runtime_state() -> (state: RuntimeState) {
        RuntimeState::TlsHandshake
    }
}

/// Phase index.
#[derive(Debug)]
pub struct GssHandshake;

impl Phase for GssHandshake {
    open spec fn state() -> RuntimeState {
        RuntimeState::GssHandshake
    }

    fn runtime_state() -> (state: RuntimeState) {
        RuntimeState::GssHandshake
    }
}

/// Phase index.
#[derive(Debug)]
pub struct Auth;

impl Phase for Auth {
    open spec fn state() -> RuntimeState {
        RuntimeState::Auth
    }

    fn runtime_state() -> (state: RuntimeState) {
        RuntimeState::Auth
    }
}

/// Phase index.
#[derive(Debug)]
pub struct Terminated;

impl Phase for Terminated {
    open spec fn state() -> RuntimeState {
        RuntimeState::Terminated
    }

    fn runtime_state() -> (state: RuntimeState) {
        RuntimeState::Terminated
    }
}

/// Payload-free witness that a sequence of events follows this grammar. Each
/// phase offers only the events that it allows.
#[derive(Debug)]
pub struct Session<P> {
    _phase: PhantomData<P>,
}

impl<P: Phase> Session<P> {
    /// The runtime phase that this witness stands for.
    pub open spec fn state(self) -> RuntimeState {
        P::state()
    }
}

/// A transport together with the phase and cleanliness that its events led to.
#[derive(Debug)]
pub struct TypedSession<T, P, C> {
    transport: T,
    _index: PhantomData<(P, C)>,
}

impl<T, P, C> TypedSession<T, P, C> {
    /// The transport held.
    pub closed spec fn held(self) -> T {
        self.transport
    }

    /// Starts from a transport that is in phase `P`.
    pub fn with_transport(transport: T) -> (session: Self)
        ensures
            session.held() == transport,
    {
        TypedSession { transport, _index: PhantomData }
    }

    /// Returns the transport when deliberately leaving the typed API.
    pub fn into_transport(self) -> (transport: T)
        ensures
            transport == self.held(),
    {
        self.transport
    }

    /// Changes transport representation without changing either index.
    pub fn map_transport<N, F: FnOnce(T) -> N>(self, map: F) -> (session: TypedSession<N, P, C>)
        requires
            call_requires(map, (self.held(),)),
        ensures
            call_ensures(map, (self.held(),), session.held()),
    {
        TypedSession { transport: map(self.transport), _index: PhantomData }
    }

    fn advanced<N, D>(self) -> (session: TypedSession<T, N, D>)
        ensures
            session.held() == self.held(),
    {
        TypedSession { transport: self.transport, _index: PhantomData }
    }

    fn run<N, D, M, O, E, H: FnOnce(T, M) -> (T, Result<O, E>)>(self, payload: M, handler: H) -> (
        result: Result<(TypedSession<T, N, D>, O), (Self, E)>)
        requires
            call_requires(handler, (self.held(), payload)),
        ensures
            match result {
                Ok((next, out)) => call_ensures(
                    handler,
                    (self.held(), payload),
                    (next.held(), Ok::<O, E>(out)),
                ),
                Err((same, error)) => call_ensures(
                    handler,
                    (self.held(), payload),
                    (same.held(), Err::<O, E>(error)),
                ),
            },
    {
        let (transport, outcome) = handler(self.transport, payload);
        match outcome {
            Ok(out) => Ok((TypedSession { transport, _index: PhantomData }, out)),
            Err(error) => Err((TypedSession { transport, _index: PhantomData }, error)),
        }
    }
}

impl<T, P: Phase, C> TypedSession<T, P, C> {
    /// The runtime phase that this session is in.
    pub open spec fn state(self) -> RuntimeState {
        P::state()
    }
}

/// A message that the local side may send in the phase `P`.
pub struct InternalMessage<P: Phase> {
    message: PreStartupMessage,
    event: Event,
    _phase: PhantomData<P>,
}

impl<P: Phase> InternalMessage<P> {
    /// The message itself.
    pub closed spec fn wire(self) -> PreStartupMessage {
        self.message
    }

    #[verifier::type_invariant]
    spec fn legal(&self) -> bool {
        internal_event(P::state(), self.message@) == Some(self.event)
    }

    /// Admits a message that is legal in this phase, and returns any other.
    pub fn try_from(message: PreStartupMessage) -> (result: Result<Self, PreStartupMessage>)
        ensures
            match result {
                Ok(admitted) => admitted.wire() == message && internal_event(
                    P::state(),
                    message@,
                ) is Some,
                Err(returned) => returned == message && internal_event(P::state(), message@) is None,
            },
    {
        match project_internal(P::runtime_state(), &message) {
            Some(event) => Ok(InternalMessage { message, event, _phase: PhantomData }),
            None => Err(message),
        }
    }

    /// The event that the message stands for.
    pub fn event(&self) -> (event: Event)
        ensures
            internal_event(P::state(), self.wire()@) == Some(event),
    {
        proof {
            use_type_invariant(self);
        }
        self.event
    }

    /// Borrows the message.
    pub fn as_wire(&self) -> (message: &PreStartupMessage)
        ensures
            *message == self.wire(),
    {
        &self.message
    }

    /// Returns the message.
    pub fn into_wire(self) -> (message: PreStartupMessage)
        ensures
            message == self.wire(),
            internal_event(P::state(), message@) is Some,
    {
        proof {
            use_type_invariant(&self);
        }
        self.message
    }
}

pub type PreStartupInternalMessage = InternalMessage<PreStartup>;

pub type AwaitingSslReplyInternalMessage = InternalMessage<AwaitingSslReply>;

pub type AwaitingGssReplyInternalMessage = InternalMessage<AwaitingGssReply>;

pub type TlsHandshakeInternalMessage = InternalMessage<TlsHandshake>;

pub type GssHandshakeInternalMessage = InternalMessage<GssHandshake>;

pub type AuthInternalMessage = InternalMessage<Auth>;

pub type TerminatedInternalMessage = InternalMessage<Terminated>;

/// A message that the peer may send in the phase `P`.
pub struct ExternalMessage<P: Phase> {
    message: EncryptionReply,
    event: Event,
    _phase: PhantomData<P>,
}

impl<P: Phase> ExternalMessage<P> {
    /// The message itself.
    pub closed spec fn wire(self) -> EncryptionReply {
        self.message
    }

    #[verifier::type_invariant]
    spec fn legal(&self) -> bool {
        external_event(P::state(), self.message) == Some(self.event)
    }

    /// Admits a message that is legal in this phase, and returns any other.
    pub fn try_from(message: EncryptionReply) -> (result: Result<Self, EncryptionReply>)
        ensures
            match result {
                Ok(admitted) => admitted.wire() == message && external_event(
                    P::state(),
                    message,
                ) is Some,
                Err(returned) => returned == message && external_event(P::state(), message) is None,
            },
    {
        match project_external(P::runtime_state(), &message) {
            Some(event) => Ok(ExternalMessage { message, event, _phase: PhantomData }),
            None => Err(message),
        }
    }

    /// The event that the message stands for.
    pub fn event(&self) -> (event: Event)
        ensures
            external_event(P::state(), self.wire()) == Some(event),
    {
        proof {
            use_type_invariant(self);
        }
        self.event
    }

    /// Borrows the message.
    pub fn as_wire(&self) -> (message: &EncryptionReply)
        ensures
            *message == self.wire(),
    {
        &self.message
    }

    /// Returns the message.
    pub fn into_wire(self) -> (message: EncryptionReply)
        ensures
            message == self.wire(),
            external_event(P::state(), message) is Some,
    {
        proof {
            use_type_invariant(&self);
        }
        self.message
    }
}

pub type PreStartupExternalMessage = ExternalMessage<PreStartup>;

pub type AwaitingSslReplyExternalMessage = ExternalMessage<AwaitingSslReply>;

pub type AwaitingGssReplyExternalMessage = ExternalMessage<AwaitingGssReply>;

pub type TlsHandshakeExternalMessage = ExternalMessage<TlsHandshake>;

pub type GssHandshakeExternalMessage = ExternalMessage<GssHandshake>;

pub type AuthExternalMessage = ExternalMessage<Auth>;

pub type TerminatedExternalMessage = ExternalMessage<Terminated>;

impl Session<PreStartup> {
    /// A witness of the initial phase.
    pub fn new() -> (session: Self)
        ensures
            session.state() == RuntimeState::PreStartup,
    {
        Session { _phase: PhantomData }
    }

    pub fn ssl_request(self) -> (next: Session<AwaitingSslReply>)
        ensures
            allowed(self.state(), Event::SslRequest) matches Some(transition) && transition.target
                == next.state(),
    {
        Session { _phase: PhantomData }
    }

    pub fn gss_request(self) -> (next: Session<AwaitingGssReply>)
        ensures
            allowed(self.state(), Event::GssRequest) matches Some(transition) && transition.target
                == next.state(),
    {
        Session { _phase: PhantomData }
    }

    pub fn cancel(self) -> (next: Session<Terminated>)
        ensures
            allowed(self.state(), Event::Cancel) matches Some(transition) && transition.target
                == next.state(),
    {
        Session { _phase: PhantomData }
    }

    pub fn startup(self) -> (next: Session<Auth>)
        ensures
            allowed(self.state(), Event::Startup) matches Some(transition) && transition.target
                == next.state(),
    {
        Session { _phase: PhantomData }
    }
}

impl Session<AwaitingSslReply> {
    pub fn accept(self) -> (next: Session<TlsHandshake>)
        ensures
            allowed(self.state(), Event::Accept) matches Some(transition) && transition.target
                == next.state(),
    {
        Session { _phase: PhantomData }
    }

    pub fn reject(self) -> (next: Session<PreStartup>)
        ensures
            allowed(self.state(), Event::Reject) matches Some(transition) && transition.target
                == next.state(),
    {
        Session { _phase: PhantomData }
    }

    pub fn legacy_error(self) -> (next: Session<Terminated>)
        ensures
            allowed(self.state(), Event::LegacyError) matches Some(transition) && transition.target
                == next.state(),
    {
        Session { _phase: PhantomData }
    }
}

impl Session<AwaitingGssReply> {
    pub fn accept(self) -> (next: Session<GssHandshake>)
        ensures
            allowed(self.state(), Event::Accept) matches Some(transition) && transition.target
                == next.state(),
    {
        Session { _phase: PhantomData }
    }

    pub fn reject(self) -> (next: Session<PreStartup>)
        ensures
            allowed(self.state(), Event::Reject) matches Some(transition) && transition.target
                == next.state(),
    {
        Session { _phase: PhantomData }
    }

    pub fn legacy_error(self) -> (next: Session<Terminated>)
        ensures
            allowed(self.state(), Event::LegacyError) matches Some(transition) && transition.target
                == next.state(),
    {
        Session { _phase: PhantomData }
    }
}

impl Session<TlsHandshake> {
    pub fn complete(self) -> (next: Session<PreStartup>)
        ensures
            allowed(self.state(), Event::HandshakeComplete) matches Some(transition) && transition.target
                == next.state(),
    {
        Session { _phase: PhantomData }
    }
}

impl Session<GssHandshake> {
    pub fn complete(self) -> (next: Session<PreStartup>)
        ensures
            allowed(self.state(), Event::HandshakeComplete) matches Some(transition) && transition.target
                == next.state(),
    {
        Session { _phase: PhantomData }
    }
}

impl<T, C> TypedSession<T, PreStartup, C> {
    pub fn ssl_request(self) -> (next: TypedSession<T, AwaitingSslReply, C>)
        ensures
            next.held() == self.held(),
            allowed(self.state(), Event::SslRequest) == to(next.state(), ChoiceKind::Internal, Effect::Unchanged),
    {
        self.advanced()
    }

    pub fn gss_request(self) -> (next: TypedSession<T, AwaitingGssReply, C>)
        ensures
            next.held() == self.held(),
            allowed(self.state(), Event::GssRequest) == to(next.state(), ChoiceKind::Internal, Effect::Unchanged),
    {
        self.advanced()
    }

    pub fn cancel<O, E, H: FnOnce(T, (u32, Bytes)) -> (T, Result<O, E>)>(
        self,
        payload: (u32, Bytes),
        handler: H,
    ) -> (result: Result<(TypedSession<T, Terminated, C>, O), (Self, E)>)
        requires
            call_requires(handler, (self.held(), payload)),
        ensures
            match result {
                Ok((next, out)) => call_ensures(
                    handler,
                    (self.held(), payload),
                    (next.held(), Ok::<O, E>(out)),
                ) && allowed(self.state(), Event::Cancel) == to(next.state(), ChoiceKind::Internal, Effect::Unchanged),
                Err((same, error)) => call_ensures(
                    handler,
                    (self.held(), payload),
                    (same.held(), Err::<O, E>(error)),
                ),
            },
    {
        self.run(payload, handler)
    }

    pub fn startup<O, E, H: FnOnce(T, StartupMessage) -> (T, Result<O, E>)>(
        self,
        payload: StartupMessage,
        handler: H,
    ) -> (result: Result<(TypedSession<T, Auth, C>, O), (Self, E)>)
        requires
            call_requires(handler, (self.held(), payload)),
        ensures
            match result {
                Ok((next, out)) => call_ensures(
                    handler,
                    (self.held(), payload),
                    (next.held(), Ok::<O, E>(out)),
                ) && allowed(self.state(), Event::Startup) == to(next.state(), ChoiceKind::Internal, Effect::Unchanged),
                Err((same, error)) => call_ensures(
                    handler,
                    (self.held(), payload),
                    (same.held(), Err::<O, E>(error)),
                ),
            },
    {
        self.run(payload, handler)
    }
}

impl<T, C> TypedSession<T, AwaitingSslReply, C> {
    pub fn accept(self) -> (next: TypedSession<T, TlsHandshake, C>)
        ensures
            next.held() == self.held(),
            allowed(self.state(), Event::Accept) == to(next.state(), ChoiceKind::External, Effect::Unchanged),
    {
        self.advanced()
    }

    pub fn reject(self) -> (next: TypedSession<T, PreStartup, C>)
        ensures
            next.held() == self.held(),
            allowed(self.state(), Event::Reject) == to(next.state(), ChoiceKind::External, Effect::Unchanged),
    {
        self.advanced()
    }

    pub fn legacy_error(self) -> (next: TypedSession<T, Terminated, C>)
        ensures
            next.held() == self.held(),
            allowed(self.state(), Event::LegacyError) == to(next.state(), ChoiceKind::External, Effect::Unchanged),
    {
        self.advanced()
    }
}

impl<T, C> TypedSession<T, AwaitingGssReply, C> {
    pub fn accept(self) -> (next: TypedSession<T, GssHandshake, C>)
        ensures
            next.held() == self.held(),
            allowed(self.state(), Event::Accept) == to(next.state(), ChoiceKind::External, Effect::Unchanged),
    {
        self.advanced()
    }

    pub fn reject(self) -> (next: TypedSession<T, PreStartup, C>)
        ensures
            next.held() == self.held(),
            allowed(self.state(), Event::Reject) == to(next.state(), ChoiceKind::External, Effect::Unchanged),
    {
        self.advanced()
    }

    pub fn legacy_error(self) -> (next: TypedSession<T, Terminated, C>)
        ensures
            next.held() == self.held(),
            allowed(self.state(), Event::LegacyError) == to(next.state(), ChoiceKind::External, Effect::Unchanged),
    {
        self.advanced()
    }
}

impl<T, C> TypedSession<T, TlsHandshake, C> {
    pub fn complete(self) -> (next: TypedSession<T, PreStartup, C>)
        ensures
            next.held() == self.held(),
            allowed(self.state(), Event::HandshakeComplete) == to(next.state(), ChoiceKind::Internal, Effect::Unchanged),
    {
        self.advanced()
    }
}

impl<T, C> TypedSession<T, GssHandshake, C> {
    pub fn complete(self) -> (next: TypedSession<T, PreStartup, C>)
        ensures
            next.held() == self.held(),
            allowed(self.state(), Event::HandshakeComplete) == to(next.state(), ChoiceKind::Internal, Effect::Unchanged),
    {
        self.advanced()
    }
}

} // verus!
