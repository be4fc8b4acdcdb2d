//! Interception of owned protocol messages.
//!
//! Interception hands out ownership of a decoded message and takes a message of
//! the same type back. The functions here check that what came back is legal in
//! the current state and can be put on the wire.

use vstd::prelude::*;

use crate::codec::backend::backend_frame;
use crate::codec::frontend::frontend_frame;
use crate::codec::{BackendMessage, FrontendMessage};
use crate::demux::{asynchronous, Demux};
use crate::grammar::{
    authentication, backend, frontend, pre_startup as pre_startup_grammar, server_authentication,
    server_pre_startup,
};
use crate::pre_startup::{EncryptionReply, PreStartupMessage};

mod associations;

verus! {

/// State-aware validation of one directional protocol message type.
pub trait AcceptsMessage<Message> {
    /// Whether a message is legal in this state.
    spec fn admits(&self, message: Message) -> bool;

    /// Reports whether `message` is legal without advancing this state.
    fn accepts(&self, message: &Message) -> (accepted: bool)
        ensures
            accepted == self.admits(*message),
    ;
}

/// A protocol message which can verify that it has a valid wire representation.
pub trait ReconstructableMessage {
    /// Whether the message has a wire representation.
    spec fn reconstructs(&self) -> bool;

    /// Reports whether this typed value can be encoded on the wire.
    fn is_reconstructable(&self) -> (result: bool)
        ensures
            result == self.reconstructs(),
    ;
}

impl ReconstructableMessage for FrontendMessage {
    open spec fn reconstructs(&self) -> bool {
        frontend_frame(self@) is Ok
    }

    fn is_reconstructable(&self) -> (result: bool) {
        self.to_frame().is_ok()
    }
}

impl ReconstructableMessage for BackendMessage {
    open spec fn reconstructs(&self) -> bool {
        backend_frame(self@) is Ok
    }

    fn is_reconstructable(&self) -> (result: bool) {
        self.to_frame().is_ok()
    }
}

impl ReconstructableMessage for PreStartupMessage {
    open spec fn reconstructs(&self) -> bool {
        self.packet() is Ok
    }

    fn is_reconstructable(&self) -> (result: bool) {
        self.to_packet().is_ok()
    }
}

impl ReconstructableMessage for EncryptionReply {
    open spec fn reconstructs(&self) -> bool {
        true
    }

    fn is_reconstructable(&self) -> (result: bool) {
        true
    }
}

impl AcceptsMessage<FrontendMessage> for frontend::RuntimeState {
    open spec fn admits(&self, message: FrontendMessage) -> bool {
        frontend::internal_event(*self, message@) is Some
    }

    fn accepts(&self, message: &FrontendMessage) -> (accepted: bool) {
        frontend::project_internal(*self, message).is_some()
    }
}

impl AcceptsMessage<BackendMessage> for frontend::RuntimeState {
    /// Asynchronous traffic is legal in every state.
    open spec fn admits(&self, message: BackendMessage) -> bool {
        asynchronous(message@) || frontend::external_event(*self, message@) is Some
    }

    fn accepts(&self, message: &BackendMessage) -> (accepted: bool) {
        Demux::is_asynchronous(message) || frontend::project_external(*self, message).is_some()
    }
}

impl AcceptsMessage<BackendMessage> for backend::RuntimeState {
    /// Asynchronous traffic is legal in every state.
    open spec fn admits(&self, message: BackendMessage) -> bool {
        asynchronous(message@) || backend::internal_event(*self, message@) is Some
    }

    fn accepts(&self, message: &BackendMessage) -> (accepted: bool) {
        Demux::is_asynchronous(message) || backend::project_internal(*self, message).is_some()
    }
}

impl AcceptsMessage<FrontendMessage> for backend::RuntimeState {
    open spec fn admits(&self, message: FrontendMessage) -> bool {
        backend::external_event(*self, message@) is Some
    }

    fn accepts(&self, message: &FrontendMessage) -> (accepted: bool) {
        backend::project_external(*self, message).is_some()
    }
}

impl AcceptsMessage<PreStartupMessage> for pre_startup_grammar::RuntimeState {
    open spec fn admits(&self, message: PreStartupMessage) -> bool {
        pre_startup_grammar::internal_event(*self, message@) is Some
    }

    fn accepts(&self, message: &PreStartupMessage) -> (accepted: bool) {
        pre_startup_grammar::project_internal(*self, message).is_some()
    }
}

impl AcceptsMessage<EncryptionReply> for pre_startup_grammar::RuntimeState {
    open spec fn admits(&self, message: EncryptionReply) -> bool {
        pre_startup_grammar::external_event(*self, message) is Some
    }

    fn accepts(&self, message: &EncryptionReply) -> (accepted: bool) {
        pre_startup_grammar::project_external(*self, message).is_some()
    }
}

impl AcceptsMessage<EncryptionReply> for server_pre_startup::RuntimeState {
    open spec fn admits(&self, message: EncryptionReply) -> bool {
        server_pre_startup::internal_event(*self, message) is Some
    }

    fn accepts(&self, message: &EncryptionReply) -> (accepted: bool) {
        server_pre_startup::project_internal(*self, message).is_some()
    }
}

impl AcceptsMessage<PreStartupMessage> for server_pre_startup::RuntimeState {
    open spec fn admits(&self, message: PreStartupMessage) -> bool {
        server_pre_startup::external_event(*self, message@) is Some
    }

    fn accepts(&self, message: &PreStartupMessage) -> (accepted: bool) {
        server_pre_startup::project_external(*self, message).is_some()
    }
}

impl AcceptsMessage<FrontendMessage> for authentication::RuntimeState {
    open spec fn admits(&self, message: FrontendMessage) -> bool {
        authentication::internal_event(*self, message@) is Some
    }

    fn accepts(&self, message: &FrontendMessage) -> (accepted: bool) {
        authentication::project_internal(*self, message).is_some()
    }
}

impl AcceptsMessage<BackendMessage> for authentication::RuntimeState {
    open spec fn admits(&self, message: BackendMessage) -> bool {
        authentication::external_event(*self, message@) is Some
    }

    fn accepts(&self, message: &BackendMessage) -> (accepted: bool) {
        authentication::project_external(*self, message).is_some()
    }
}

impl AcceptsMessage<BackendMessage> for server_authentication::RuntimeState {
    open spec fn admits(&self, message: BackendMessage) -> bool {
        server_authentication::internal_event(*self, message@) is Some
    }

    fn accepts(&self, message: &BackendMessage) -> (accepted: bool) {
        server_authentication::project_internal(*self, message).is_some()
    }
}

impl AcceptsMessage<FrontendMessage> for server_authentication::RuntimeState {
    open spec fn admits(&self, message: FrontendMessage) -> bool {
        server_authentication::external_event(*self, message@) is Some
    }

    fn accepts(&self, message: &FrontendMessage) -> (accepted: bool) {
        server_authentication::project_external(*self, message).is_some()
    }
}

/// A message that was admitted to one phase of a grammar.
pub trait PhaseMessage<Wire>: Sized {
    /// The message itself.
    spec fn wire_message(&self) -> Wire;

    /// Whether the phase admits a message.
    spec fn admissible(message: Wire) -> bool;

    /// Admits a message that is legal in the phase, and returns any other.
    fn try_from_wire(message: Wire) -> (result: Result<Self, Wire>)
        ensures
            match result {
                Ok(admitted) => Self::admissible(message) && admitted.wire_message() == message,
                Err(returned) => !Self::admissible(message) && returned == message,
            },
    ;

    /// Borrows the message.
    fn wire_ref(&self) -> (message: &Wire)
        ensures
            *message == self.wire_message(),
    ;

    /// Returns the message.
    fn into_wire_message(self) -> (message: Wire)
        ensures
            message == self.wire_message(),
            Self::admissible(message),
    ;
}

impl<P: frontend::Phase> PhaseMessage<FrontendMessage> for frontend::InternalMessage<P> {
    open spec fn wire_message(&self) -> FrontendMessage {
        self.wire()
    }

    open spec fn admissible(message: FrontendMessage) -> bool {
        frontend::internal_event(P::state(), message@) is Some
    }

    fn try_from_wire(message: FrontendMessage) -> (result: Result<Self, FrontendMessage>) {
        Self::try_from(message)
    }

    fn wire_ref(&self) -> (message: &FrontendMessage) {
        self.as_wire()
    }

    fn into_wire_message(self) -> (message: FrontendMessage) {
        self.into_wire()
    }
}

impl<P: frontend::Phase> PhaseMessage<BackendMessage> for frontend::ExternalMessage<P> {
    open spec fn wire_message(&self) -> BackendMessage {
        self.wire()
    }

    open spec fn admissible(message: BackendMessage) -> bool {
        frontend::external_event(P::state(), message@) is Some
    }

    fn try_from_wire(message: BackendMessage) -> (result: Result<Self, BackendMessage>) {
        Self::try_from(message)
    }

    fn wire_ref(&self) -> (message: &BackendMessage) {
        self.as_wire()
    }

    fn into_wire_message(self) -> (message: BackendMessage) {
        self.into_wire()
    }
}

impl<P: backend::Phase> PhaseMessage<BackendMessage> for backend::InternalMessage<P> {
    open spec fn wire_message(&self) -> BackendMessage {
        self.wire()
    }

    open spec fn admissible(message: BackendMessage) -> bool {
        backend::internal_event(P::state(), message@) is Some
    }

    fn try_from_wire(message: BackendMessage) -> (result: Result<Self, BackendMessage>) {
        Self::try_from(message)
    }

    fn wire_ref(&self) -> (message: &BackendMessage) {
        self.as_wire()
    }

    fn into_wire_message(self) -> (message: BackendMessage) {
        self.into_wire()
    }
}

impl<P: backend::Phase> PhaseMessage<FrontendMessage> for backend::ExternalMessage<P> {
    open spec fn wire_message(&self) -> FrontendMessage {
        self.wire()
    }

    open spec fn admissible(message: FrontendMessage) -> bool {
        backend::external_event(P::state(), message@) is Some
    }

    fn try_from_wire(message: FrontendMessage) -> (result: Result<Self, FrontendMessage>) {
        Self::try_from(message)
    }

    fn wire_ref(&self) -> (message: &FrontendMessage) {
        self.as_wire()
    }

    fn into_wire_message(self) -> (message: FrontendMessage) {
        self.into_wire()
    }
}

impl<P: pre_startup_grammar::Phase> PhaseMessage<PreStartupMessage> for pre_startup_grammar::InternalMessage<P> {
    open spec fn wire_message(&self) -> PreStartupMessage {
        self.wire()
    }

    open spec fn admissible(message: PreStartupMessage) -> bool {
        pre_startup_grammar::internal_event(P::state(), message@) is Some
    }

    fn try_from_wire(message: PreStartupMessage) -> (result: Result<Self, PreStartupMessage>) {
        Self::try_from(message)
    }

    fn wire_ref(&self) -> (message: &PreStartupMessage) {
        self.as_wire()
    }

    fn into_wire_message(self) -> (message: PreStartupMessage) {
        self.into_wire()
    }
}

impl<P: pre_startup_grammar::Phase> PhaseMessage<EncryptionReply> for pre_startup_grammar::ExternalMessage<P> {
    open spec fn wire_message(&self) -> EncryptionReply {
        self.wire()
    }

    open spec fn admissible(message: EncryptionReply) -> bool {
        pre_startup_grammar::external_event(P::state(), message) is Some
    }

    fn try_from_wire(message: EncryptionReply) -> (result: Result<Self, EncryptionReply>) {
        Self::try_from(message)
    }

    fn wire_ref(&self) -> (message: &EncryptionReply) {
        self.as_wire()
    }

    fn into_wire_message(self) -> (message: EncryptionReply) {
        self.into_wire()
    }
}

impl<P: server_pre_startup::Phase> PhaseMessage<EncryptionReply> for server_pre_startup::InternalMessage<P> {
    open spec fn wire_message(&self) -> EncryptionReply {
        self.wire()
    }

    open spec fn admissible(message: EncryptionReply) -> bool {
        server_pre_startup::internal_event(P::state(), message) is Some
    }

    fn try_from_wire(message: EncryptionReply) -> (result: Result<Self, EncryptionReply>) {
        Self::try_from(message)
    }

    fn wire_ref(&self) -> (message: &EncryptionReply) {
        self.as_wire()
    }

    fn into_wire_message(self) -> (message: EncryptionReply) {
        self.into_wire()
    }
}

impl<P: server_pre_startup::Phase> PhaseMessage<PreStartupMessage> for server_pre_startup::ExternalMessage<P> {
    open spec fn wire_message(&self) -> PreStartupMessage {
        self.wire()
    }

    open spec fn admissible(message: PreStartupMessage) -> bool {
        server_pre_startup::external_event(P::state(), message@) is Some
    }

    fn try_from_wire(message: PreStartupMessage) -> (result: Result<Self, PreStartupMessage>) {
        Self::try_from(message)
    }

    fn wire_ref(&self) -> (message: &PreStartupMessage) {
        self.as_wire()
    }

    fn into_wire_message(self) -> (message: PreStartupMessage) {
        self.into_wire()
    }
}

impl<P: authentication::Phase> PhaseMessage<FrontendMessage> for authentication::InternalMessage<P> {
    open spec fn wire_message(&self) -> FrontendMessage {
        self.wire()
    }

    open spec fn admissible(message: FrontendMessage) -> bool {
        authentication::internal_event(P::state(), message@) is Some
    }

    fn try_from_wire(message: FrontendMessage) -> (result: Result<Self, FrontendMessage>) {
        Self::try_from(message)
    }

    fn wire_ref(&self) -> (message: &FrontendMessage) {
        self.as_wire()
    }

    fn into_wire_message(self) -> (message: FrontendMessage) {
        self.into_wire()
    }
}

impl<P: authentication::Phase> PhaseMessage<BackendMessage> for authentication::ExternalMessage<P> {
    open spec fn wire_message(&self) -> BackendMessage {
        self.wire()
    }

    open spec fn admissible(message: BackendMessage) -> bool {
        authentication::external_event(P::state(), message@) is Some
    }

    fn try_from_wire(message: BackendMessage) -> (result: Result<Self, BackendMessage>) {
        Self::try_from(message)
    }

    fn wire_ref(&self) -> (message: &BackendMessage) {
        self.as_wire()
    }

    fn into_wire_message(self) -> (message: BackendMessage) {
        self.into_wire()
    }
}

impl<P: server_authentication::Phase> PhaseMessage<BackendMessage> for server_authentication::InternalMessage<P> {
    open spec fn wire_message(&self) -> BackendMessage {
        self.wire()
    }

    open spec fn admissible(message: BackendMessage) -> bool {
        server_authentication::internal_event(P::state(), message@) is Some
    }

    fn try_from_wire(message: BackendMessage) -> (result: Result<Self, BackendMessage>) {
        Self::try_from(message)
    }

    fn wire_ref(&self) -> (message: &BackendMessage) {
        self.as_wire()
    }

    fn into_wire_message(self) -> (message: BackendMessage) {
        self.into_wire()
    }
}

impl<P: server_authentication::Phase> PhaseMessage<FrontendMessage> for server_authentication::ExternalMessage<P> {
    open spec fn wire_message(&self) -> FrontendMessage {
        self.wire()
    }

    open spec fn admissible(message: FrontendMessage) -> bool {
        server_authentication::external_event(P::state(), message@) is Some
    }

    fn try_from_wire(message: FrontendMessage) -> (result: Result<Self, FrontendMessage>) {
        Self::try_from(message)
    }

    fn wire_ref(&self) -> (message: &FrontendMessage) {
        self.as_wire()
    }

    fn into_wire_message(self) -> (message: FrontendMessage) {
        self.into_wire()
    }
}

/// Validated backend traffic which does not advance the current protocol phase.
pub struct AsynchronousBackendMessage(BackendMessage);

impl AsynchronousBackendMessage {
    /// The message itself.
    pub closed spec fn message(self) -> BackendMessage {
        self.0
    }

    #[verifier::type_invariant]
    spec fn causally_independent(&self) -> bool {
        asynchronous(self.0@)
    }

    /// Borrows the decoded asynchronous backend message.
    #[must_use]
    pub fn as_wire(&self) -> (message: &BackendMessage)
        ensures
            *message == self.message(),
            asynchronous(message@),
    {
        proof {
            use_type_invariant(self);
        }
        &self.0
    }

    /// Returns the decoded asynchronous backend message.
    #[must_use]
    pub fn into_wire(self) -> (message: BackendMessage)
        ensures
            message == self.message(),
            asynchronous(message@),
    {
        proof {
            use_type_invariant(&self);
        }
        self.0
    }

    /// Admits asynchronous traffic, and returns any other message.
    pub fn try_from(message: BackendMessage) -> (result: Result<Self, BackendMessage>)
        ensures
            match result {
                Ok(admitted) => asynchronous(message@) && admitted.message() == message,
                Err(returned) => !asynchronous(message@) && returned == message,
            },
    {
        if Demux::is_asynchronous(&message) {
            Ok(AsynchronousBackendMessage(message))
        } else {
            Err(message)
        }
    }
}

/// Any server message legal in a phase, including non-advancing asynchronous traffic.
pub enum TypedBackendMessage<ProtocolMessage> {
    /// A message represented by a transition in the current grammar phase.
    Protocol(ProtocolMessage),
    /// An asynchronous message which leaves the current grammar phase unchanged.
    Asynchronous(AsynchronousBackendMessage),
}

impl<ProtocolMessage: PhaseMessage<BackendMessage>> PhaseMessage<
    BackendMessage,
> for TypedBackendMessage<ProtocolMessage> {
    open spec fn wire_message(&self) -> BackendMessage {
        match self {
            TypedBackendMessage::Protocol(message) => message.wire_message(),
            TypedBackendMessage::Asynchronous(message) => message.message(),
        }
    }

    open spec fn admissible(message: BackendMessage) -> bool {
        asynchronous(message@) || ProtocolMessage::admissible(message)
    }

    fn try_from_wire(message: BackendMessage) -> (result: Result<Self, BackendMessage>)
        ensures
            result matches Ok(admitted) ==> (admitted is Asynchronous <==> asynchronous(message@)),
    {
        match AsynchronousBackendMessage::try_from(message) {
            Ok(message) => Ok(TypedBackendMessage::Asynchronous(message)),
            Err(message) => match ProtocolMessage::try_from_wire(message) {
                Ok(message) => Ok(TypedBackendMessage::Protocol(message)),
                Err(message) => Err(message),
            },
        }
    }

    fn wire_ref(&self) -> (message: &BackendMessage) {
        match self {
            TypedBackendMessage::Protocol(message) => message.wire_ref(),
            TypedBackendMessage::Asynchronous(message) => message.as_wire(),
        }
    }

    fn into_wire_message(self) -> (message: BackendMessage) {
        match self {
            TypedBackendMessage::Protocol(message) => message.into_wire_message(),
            TypedBackendMessage::Asynchronous(message) => message.into_wire(),
        }
    }
}

/// Marker for middleware handling messages sent by a PostgreSQL client.
#[derive(Clone, Copy, Debug, PartialEq, Eq, Structural)]
pub enum ClientRole {
    Index,
}

/// Marker for middleware handling messages sent by a PostgreSQL server.
#[derive(Clone, Copy, Debug, PartialEq, Eq, Structural)]
pub enum ServerRole {
    Index,
}

/// Marker selecting associations for messages received from a peer.
pub enum Inbound {
    Index,
}

/// Marker selecting associations for messages sent by the local role.
pub enum Outbound {
    Index,
}

/// Associates a connection typestate with a grammar phase and its legal messages.
///
/// The direction, sender role, and decoded wire type are explicit indices.
pub trait PhaseAssociation<Direction, Role, Wire> {
    /// Grammar phase corresponding to the connection typestate.
    type ProtocolPhase;

    /// Messages legal for this direction, role, and phase.
    type Message: PhaseMessage<Wire>;
}

/// Adapts one direction-wide wire middleware to every typed phase.
#[derive(Clone, Copy, Debug, PartialEq, Eq)]
pub struct WireAdapter<Handler> {
    handler: Handler,
}

impl<Handler> WireAdapter<Handler> {
    /// The wrapped middleware.
    pub closed spec fn wrapped(self) -> Handler {
        self.handler
    }

    /// Wraps direction-wide wire middleware for use at typed interception points.
    pub fn new(handler: Handler) -> (adapter: Self)
        ensures
            adapter.wrapped() == handler,
    {
        WireAdapter { handler }
    }

    /// Mutably borrows the wrapped wire middleware.
    pub fn handler_mut(&mut self) -> (handler: &mut Handler)
        ensures
            *handler == old(self).wrapped(),
            final(self).wrapped() == *final(handler),
    {
        &mut self.handler
    }

    /// Returns the wrapped wire middleware.
    pub fn into_inner(self) -> (handler: Handler)
        ensures
            handler == self.wrapped(),
    {
        self.handler
    }
}

/// Failure from direction-wide middleware adapted to a typed phase.
#[derive(Clone, Debug, PartialEq, Eq)]
pub enum WireAdapterError<Error, Wire> {
    /// The wrapped middleware rejected the message according to its policy.
    Middleware(Error),
    /// The wrapped middleware returned a wire message illegal in the typed phase.
    IllegalReplacement(Wire),
}

/// Projects what direction-wide middleware returned back into a typed phase.
///
/// # Errors
///
/// Returns the middleware's error, or a replacement that is illegal in the phase.
pub fn readmit<Wire, Message: PhaseMessage<Wire>, Error>(outcome: Result<Wire, Error>) -> (result:
    Result<Message, WireAdapterError<Error, Wire>>)
    ensures
        match outcome {
            Ok(wire) => if Message::admissible(wire) {
                result matches Ok(message) && message.wire_message() == wire
            } else {
                result == Err::<Message, _>(WireAdapterError::<Error, Wire>::IllegalReplacement(wire))
            },
            Err(error) => result == Err::<Message, _>(
                WireAdapterError::<Error, Wire>::Middleware(error),
            ),
        },
{
    match outcome {
        Ok(wire) => match Message::try_from_wire(wire) {
            Ok(message) => Ok(message),
            Err(wire) => Err(WireAdapterError::IllegalReplacement(wire)),
        },
        Err(error) => Err(WireAdapterError::Middleware(error)),
    }
}

/// Middleware which returns every message unchanged.
#[derive(Clone, Copy, Debug, PartialEq, Eq, Structural)]
pub struct Identity;

/// Two middleware stages evaluated from `first` to `second`.
#[derive(Clone, Copy, Debug, PartialEq, Eq)]
pub struct Then<First, Second> {
    pub first: First,
    pub second: Second,
}

impl<First, Second> Then<First, Second> {
    /// Runs `first` and, unless it fails, `second`.
    pub fn new(first: First, second: Second) -> (chain: Self)
        ensures
            chain == (Then { first, second }),
    {
        Then { first, second }
    }

    pub fn parts_mut(&mut self) -> (parts: (&mut First, &mut Second))
        ensures
            *parts.0 == old(self).first,
            *parts.1 == old(self).second,
            final(self).first == *final(parts.0),
            final(self).second == *final(parts.1),
    {
        (&mut self.first, &mut self.second)
    }
}

/// Identifies which stage of a two-part middleware chain failed.
#[derive(Clone, Copy, Debug, PartialEq, Eq)]
pub enum ChainError<First, Second> {
    /// The first stage rejected the message.
    First(First),
    /// The second stage rejected the message.
    Second(Second),
}

/// Failure while applying or validating middleware output.
#[derive(Clone, Copy, Debug, PartialEq, Eq)]
pub enum InterceptError<Error, Message> {
    /// Middleware rejected the message according to its own policy.
    Middleware(Error),
    /// Middleware returned a message which is illegal in the supplied state.
    Invalid(Message),
}

/// I/O or interception failure while receiving a middleware-checked message.
#[derive(Clone, Copy, Debug, PartialEq, Eq)]
pub enum ReceiveError<Error, Message, Io> {
    /// Reading or decoding the message failed.
    Io(Io),
    /// Middleware rejected the message or produced an illegal replacement.
    Intercept(InterceptError<Error, Message>),
}

/// Failure while receiving through compile-time phase-checked middleware.
#[derive(Clone, Copy, Debug, PartialEq, Eq)]
pub enum TypedReceiveError<Error, Wire, Io> {
    /// Reading or decoding the message failed.
    Io(Io),
    /// The peer sent a decoded message which is illegal in the connection phase.
    Illegal(Wire),
    /// Middleware rejected the phase-legal message according to its policy.
    Middleware(Error),
    /// Middleware produced a phase-legal value with an invalid wire shape.
    InvalidWire(Wire),
}

/// What a chain's first stage hands to the second one.
///
/// # Errors
///
/// Attributes a failure to the first stage.
pub fn first_stage<Message, First, Second>(outcome: Result<Message, First>) -> (result: Result<
    Message,
    ChainError<First, Second>,
>)
    ensures
        match outcome {
            Ok(message) => result == Ok::<_, ChainError<First, Second>>(message),
            Err(error) => result == Err::<Message, _>(ChainError::<First, Second>::First(error)),
        },
{
    match outcome {
        Ok(message) => Ok(message),
        Err(error) => Err(ChainError::First(error)),
    }
}

/// What a chain's second stage returns.
///
/// # Errors
///
/// Attributes a failure to the second stage.
pub fn second_stage<Message, First, Second>(outcome: Result<Message, Second>) -> (result: Result<
    Message,
    ChainError<First, Second>,
>)
    ensures
        match outcome {
            Ok(message) => result == Ok::<_, ChainError<First, Second>>(message),
            Err(error) => result == Err::<Message, _>(ChainError::<First, Second>::Second(error)),
        },
{
    match outcome {
        Ok(message) => Ok(message),
        Err(error) => Err(ChainError::Second(error)),
    }
}

/// Owns user state and middleware as one reusable interception unit.
#[derive(Clone, Copy, Debug, PartialEq, Eq)]
pub struct Middleware<State, Handler> {
    state: State,
    handler: Handler,
}

impl<State, Handler> Middleware<State, Handler> {
    /// The accumulated state and the middleware.
    pub closed spec fn parts(self) -> (State, Handler) {
        (self.state, self.handler)
    }

    /// Creates middleware with its connection- or application-local state.
    pub fn new(state: State, handler: Handler) -> (middleware: Self)
        ensures
            middleware.parts() == (state, handler),
    {
        Middleware { state, handler }
    }

    /// Borrows the accumulated user state.
    pub fn state(&self) -> (state: &State)
        ensures
            *state == self.parts().0,
    {
        &self.state
    }

    /// Mutably borrows the accumulated user state.
    pub fn state_mut(&mut self) -> (state: &mut State)
        ensures
            *state == old(self).parts().0,
            final(self).parts() == (*final(state), old(self).parts().1),
    {
        &mut self.state
    }

    /// Borrows the middleware implementation.
    pub fn handler(&self) -> (handler: &Handler)
        ensures
            *handler == self.parts().1,
    {
        &self.handler
    }

    /// Mutably borrows the middleware implementation.
    pub fn handler_mut(&mut self) -> (handler: &mut Handler)
        ensures
            *handler == old(self).parts().1,
            final(self).parts() == (old(self).parts().0, *final(handler)),
    {
        &mut self.handler
    }

    /// Separates the accumulated state from its middleware implementation.
    pub fn into_parts(self) -> (parts: (State, Handler))
        ensures
            parts == self.parts(),
    {
        (self.state, self.handler)
    }

    /// Mutably borrows the state and the middleware.
    pub fn parts_mut(&mut self) -> (parts: (&mut State, &mut Handler))
        ensures
            (*parts.0, *parts.1) == old(self).parts(),
            final(self).parts() == (*final(parts.0), *final(parts.1)),
    {
        (&mut self.state, &mut self.handler)
    }
}

/// Checks what middleware returned against a protocol state.
///
/// # Errors
///
/// Returns the middleware's error, or the replacement when it is not legal in
/// `protocol_state` or has no wire representation.
pub fn check_interception<Message: ReconstructableMessage, State: AcceptsMessage<Message>, Error>(
    protocol_state: &State,
    outcome: Result<Message, Error>,
) -> (result: Result<Message, InterceptError<Error, Message>>)
    ensures
        match outcome {
            Ok(message) => if message.reconstructs() && protocol_state.admits(message) {
                result == Ok::<_, InterceptError<Error, Message>>(message)
            } else {
                result == Err::<Message, _>(InterceptError::<Error, Message>::Invalid(message))
            },
            Err(error) => result == Err::<Message, _>(
                InterceptError::<Error, Message>::Middleware(error),
            ),
        },
{
    match outcome {
        Ok(message) => if message.is_reconstructable() && protocol_state.accepts(&message) {
            Ok(message)
        } else {
            Err(InterceptError::Invalid(message))
        },
        Err(error) => Err(InterceptError::Middleware(error)),
    }
}

/// Checks that a phase-legal message which middleware returned can be sent.
///
/// # Errors
///
/// Returns the middleware's error, or a message without a wire representation.
pub fn check_outbound<Wire: ReconstructableMessage, Message: PhaseMessage<Wire>, Error, Io>(
    outcome: Result<Message, Error>,
) -> (result: Result<Message, TypedReceiveError<Error, Wire, Io>>)
    ensures
        match outcome {
            Ok(message) => if message.wire_message().reconstructs() {
                result == Ok::<_, TypedReceiveError<Error, Wire, Io>>(message)
            } else {
                result == Err::<Message, _>(
                    TypedReceiveError::<Error, Wire, Io>::InvalidWire(message.wire_message()),
                )
            },
            Err(error) => result == Err::<Message, _>(
                TypedReceiveError::<Error, Wire, Io>::Middleware(error),
            ),
        },
{
    match outcome {
        Ok(message) => if message.wire_ref().is_reconstructable() {
            Ok(message)
        } else {
            Err(TypedReceiveError::InvalidWire(message.into_wire_message()))
        },
        Err(error) => Err(TypedReceiveError::Middleware(error)),
    }
}

/// Projects a received message into a typed phase.
///
/// # Errors
///
/// Returns a message that is illegal in the phase.
pub fn check_inbound<Wire, Message: PhaseMessage<Wire>, Error, Io>(received: Wire) -> (result:
    Result<Message, TypedReceiveError<Error, Wire, Io>>)
    ensures
        if Message::admissible(received) {
            result matches Ok(message) && message.wire_message() == received
        } else {
            result == Err::<Message, _>(TypedReceiveError::<Error, Wire, Io>::Illegal(received))
        },
{
    match Message::try_from_wire(received) {
        Ok(message) => Ok(message),
        Err(wire) => Err(TypedReceiveError::Illegal(wire)),
    }
}

/// What a session state takes: the messages that the grammar knows there on each side,
/// and from a server asynchronous traffic besides, in every state.
pub proof fn law_session_states_take_legal_messages(
    ours: frontend::RuntimeState,
    theirs: backend::RuntimeState,
    request: FrontendMessage,
    response: BackendMessage,
)
    ensures
        <frontend::RuntimeState as AcceptsMessage<FrontendMessage>>::admits(&ours, request)
            <==> frontend::internal_event(ours, request@) is Some,
        <frontend::RuntimeState as AcceptsMessage<BackendMessage>>::admits(&ours, response)
            <==> asynchronous(response@) || frontend::external_event(ours, response@) is Some,
        <backend::RuntimeState as AcceptsMessage<BackendMessage>>::admits(&theirs, response)
            <==> asynchronous(response@) || backend::internal_event(theirs, response@) is Some,
        <backend::RuntimeState as AcceptsMessage<FrontendMessage>>::admits(&theirs, request)
            <==> backend::external_event(theirs, request@) is Some,
{
}

/// What a state before readiness takes: what the grammar knows there, and nothing else.
pub proof fn law_startup_states_take_legal_messages(
    client: pre_startup_grammar::RuntimeState,
    server: server_pre_startup::RuntimeState,
    ours: authentication::RuntimeState,
    theirs: server_authentication::RuntimeState,
    packet: PreStartupMessage,
    reply: EncryptionReply,
    answer: FrontendMessage,
    challenge: BackendMessage,
)
    ensures
        <pre_startup_grammar::RuntimeState as AcceptsMessage<PreStartupMessage>>::admits(
            &client,
            packet,
        ) <==> pre_startup_grammar::internal_event(client, packet@) is Some,
        <pre_startup_grammar::RuntimeState as AcceptsMessage<EncryptionReply>>::admits(
            &client,
            reply,
        ) <==> pre_startup_grammar::external_event(client, reply) is Some,
        <server_pre_startup::RuntimeState as AcceptsMessage<EncryptionReply>>::admits(
            &server,
            reply,
        ) <==> server_pre_startup::internal_event(server, reply) is Some,
        <server_pre_startup::RuntimeState as AcceptsMessage<PreStartupMessage>>::admits(
            &server,
            packet,
        ) <==> server_pre_startup::external_event(server, packet@) is Some,
        <authentication::RuntimeState as AcceptsMessage<FrontendMessage>>::admits(&ours, answer)
            <==> authentication::internal_event(ours, answer@) is Some,
        <authentication::RuntimeState as AcceptsMessage<BackendMessage>>::admits(&ours, challenge)
            <==> authentication::external_event(ours, challenge@) is Some,
        <server_authentication::RuntimeState as AcceptsMessage<BackendMessage>>::admits(
            &theirs,
            challenge,
        ) <==> server_authentication::internal_event(theirs, challenge@) is Some,
        <server_authentication::RuntimeState as AcceptsMessage<FrontendMessage>>::admits(
            &theirs,
            answer,
        ) <==> server_authentication::external_event(theirs, answer@) is Some,
{
}

/// A message can be sent again if and only if it can be written.
pub proof fn law_reconstructable_messages(
    request: FrontendMessage,
    response: BackendMessage,
    packet: PreStartupMessage,
    reply: EncryptionReply,
)
    ensures
        request.reconstructs() <==> frontend_frame(request@) is Ok,
        response.reconstructs() <==> backend_frame(response@) is Ok,
        packet.reconstructs() <==> packet.packet() is Ok,
        reply.reconstructs(),
{
}

} // verus!
