//! Decisions that take a connection from startup to readiness.
//!
//! The caller performs what a step asks for, receiving a message, consulting the
//! authentication policy or sending a frame, and hands the outcome to the next step.

use bytes::Bytes;
use vstd::prelude::*;

use super::authentication::{
    intercepted_response, ClientAuthenticationChallenge, ClientAuthenticationResponse,
};
use crate::auth::{
    initial_body, Auth, AuthCompletion, AuthError, AuthEvent, AuthOffer, AwaitingAuthOk,
    AwaitingStartupReady, PasswordResponse, Ready, Sasl, SaslChallenge, SaslEvent, SaslFinal,
    SaslInitial, TokenAuthEvent, TokenChallenge, TokenResponse,
};
use crate::codec::frame::FrameView;
use crate::codec::frontend::FrontendView;
use crate::codec::layout::{law_network_order, number, text};
use crate::codec::tags;
use crate::codec::{Authentication, BackendMessage, Frame, FrontendMessage, TransactionStatus};
use crate::conn::Conn;
use crate::demux::{CancelKey, CancelKeyView, SessionItem};
use crate::error::ErrorKind;
use crate::grammar::authentication;
use crate::octets::{as_slice, octets};

verus! {

/// Why the exchanged messages cannot lead to a session.
#[derive(Clone, Copy, Debug, PartialEq, Eq, Structural)]
pub enum ProtocolFault {
    /// The verdict on a password is neither success nor an error.
    IllegalCompletion,
    /// The verdict on a SASL exchange is neither success nor an error.
    IllegalSaslCompletion,
    IllegalSaslMessage,
    IllegalTokenMessage,
    /// A request or a response does not fit the mechanism.
    Authentication(AuthError),
    /// Middleware replaced a message with one of another kind.
    UnfitReplacement,
    /// Startup ended in a transaction or with changed parameters.
    NotIdle,
}

impl ProtocolFault {
    /// Description of the fault.
    pub fn message(&self) -> (message: &'static str)
        ensures
            message@ == match *self {
                ProtocolFault::IllegalCompletion => "illegal authentication completion"@,
                ProtocolFault::IllegalSaslCompletion => "illegal SASL authentication completion"@,
                ProtocolFault::IllegalSaslMessage => "illegal SASL authentication message"@,
                ProtocolFault::IllegalTokenMessage => "illegal token authentication message"@,
                ProtocolFault::Authentication(error) => error.text(),
                ProtocolFault::UnfitReplacement =>
                    "middleware replacement during startup readiness is not phase-compatible"@,
                ProtocolFault::NotIdle => "startup did not reach an idle operational phase"@,
            },
    {
        match *self {
            ProtocolFault::IllegalCompletion => "illegal authentication completion",
            ProtocolFault::IllegalSaslCompletion => "illegal SASL authentication completion",
            ProtocolFault::IllegalSaslMessage => "illegal SASL authentication message",
            ProtocolFault::IllegalTokenMessage => "illegal token authentication message",
            ProtocolFault::Authentication(error) => error.message(),
            ProtocolFault::UnfitReplacement =>
                "middleware replacement during startup readiness is not phase-compatible",
            ProtocolFault::NotIdle => "startup did not reach an idle operational phase",
        }
    }

    /// Class of the fault: that of the authentication error if it is one.
    pub fn kind(&self) -> (kind: ErrorKind)
        ensures
            kind == match *self {
                ProtocolFault::Authentication(error) => error.kind_spec(),
                _ => ErrorKind::InvalidData,
            },
    {
        match *self {
            ProtocolFault::Authentication(error) => error.kind(),
            _ => ErrorKind::InvalidData,
        }
    }
}

/// Why a session was not established.
#[derive(Clone, Copy, Debug, PartialEq, Eq, Structural)]
pub enum EstablishFault {
    /// The server rejected authentication.
    Rejected,
    /// The policy's response, or what middleware made of it, does not fit the challenge.
    InvalidResponse,
    Protocol(ProtocolFault),
}

/// How far establishment has come.
#[derive(Clone, Copy, Debug, PartialEq, Eq, Structural)]
pub enum Stage {
    /// The server's choice of a method is awaited.
    Authenticating,
    /// The policy owes a password.
    Password,
    /// The policy owes a mechanism and its first response.
    SaslInitial,
    /// The server's next SASL message is awaited.
    SaslWaiting,
    /// The policy owes the answer to a SASL challenge.
    SaslChallenge,
    /// The policy owes its judgement on the verifier.
    SaslFinal,
    /// The policy owes a token.
    Token,
    /// The server's next token is awaited.
    TokenWaiting,
    /// The server's verdict is awaited.
    AwaitingOk { sasl: bool },
}

/// A connection on its way to readiness.
pub enum Establishment<S> {
    Authenticating(Conn<S, Auth>),
    Password(Conn<S, PasswordResponse>),
    SaslInitial(Conn<S, SaslInitial>),
    SaslWaiting(Conn<S, Sasl>),
    SaslChallenge(Conn<S, SaslChallenge>),
    SaslFinal(Conn<S, SaslFinal>),
    Token(Conn<S, TokenResponse>),
    TokenWaiting(Conn<S, TokenChallenge>),
    AwaitingOk { conn: Conn<S, AwaitingAuthOk>, sasl: bool },
}

impl<S> Establishment<S> {
    /// How far this connection has come.
    pub open spec fn stage(self) -> Stage {
        match self {
            Establishment::Authenticating(_) => Stage::Authenticating,
            Establishment::Password(_) => Stage::Password,
            Establishment::SaslInitial(_) => Stage::SaslInitial,
            Establishment::SaslWaiting(_) => Stage::SaslWaiting,
            Establishment::SaslChallenge(_) => Stage::SaslChallenge,
            Establishment::SaslFinal(_) => Stage::SaslFinal,
            Establishment::Token(_) => Stage::Token,
            Establishment::TokenWaiting(_) => Stage::TokenWaiting,
            Establishment::AwaitingOk { sasl, .. } => Stage::AwaitingOk { sasl },
        }
    }

    /// The transport held.
    pub open spec fn held(self) -> S {
        match self {
            Establishment::Authenticating(conn) => conn.held(),
            Establishment::Password(conn) => conn.held(),
            Establishment::SaslInitial(conn) => conn.held(),
            Establishment::SaslWaiting(conn) => conn.held(),
            Establishment::SaslChallenge(conn) => conn.held(),
            Establishment::SaslFinal(conn) => conn.held(),
            Establishment::Token(conn) => conn.held(),
            Establishment::TokenWaiting(conn) => conn.held(),
            Establishment::AwaitingOk { conn, .. } => conn.held(),
        }
    }
}

/// What a received message leads to.
pub enum Heard {
    /// Receive another message.
    Receive(Stage),
    /// Ask the policy.
    Ask(Stage, ClientAuthenticationChallenge),
    /// Authentication succeeded.
    Authenticated,
    Failed(EstablishFault),
}

/// Whether a stage waits for a message of the server during authentication.
pub open spec fn listens(stage: Stage) -> bool {
    stage == Stage::Authenticating || stage == Stage::SaslWaiting || stage == Stage::TokenWaiting
        || stage is AwaitingOk
}

/// What a message leads to while the server's choice of a method is awaited.
/// Messages that have nothing to do with authentication are skipped.
pub open spec fn heard_choice(message: BackendMessage) -> Heard {
    match message {
        BackendMessage::Authentication(authentication) => match authentication {
            Authentication::Accepted => Heard::Authenticated,
            Authentication::CleartextPassword => Heard::Ask(
                Stage::Password,
                ClientAuthenticationChallenge::CleartextPassword,
            ),
            Authentication::Md5Password { salt } => Heard::Ask(
                Stage::Password,
                ClientAuthenticationChallenge::Md5Password(salt),
            ),
            Authentication::Sasl { mechanisms } => Heard::Ask(
                Stage::SaslInitial,
                ClientAuthenticationChallenge::Sasl(mechanisms),
            ),
            Authentication::Gss => Heard::Ask(Stage::Token, ClientAuthenticationChallenge::Gss),
            Authentication::Sspi => Heard::Ask(Stage::Token, ClientAuthenticationChallenge::Sspi),
            Authentication::KerberosV5 => Heard::Ask(
                Stage::Token,
                ClientAuthenticationChallenge::KerberosV5,
            ),
            _ => Heard::Failed(
                EstablishFault::Protocol(
                    ProtocolFault::Authentication(AuthError::EarlyContinuation),
                ),
            ),
        },
        BackendMessage::ErrorResponse(_) => Heard::Failed(EstablishFault::Rejected),
        _ => Heard::Receive(Stage::Authenticating),
    }
}

/// What a message leads to in a stage that listens.
pub open spec fn heard(stage: Stage, message: BackendMessage) -> Heard {
    match stage {
        Stage::Authenticating => heard_choice(message),
        Stage::SaslWaiting => match message {
            BackendMessage::Authentication(Authentication::SaslContinue(challenge)) => Heard::Ask(
                Stage::SaslChallenge,
                ClientAuthenticationChallenge::SaslContinue(challenge),
            ),
            BackendMessage::Authentication(Authentication::SaslFinal(verifier)) => Heard::Ask(
                Stage::SaslFinal,
                ClientAuthenticationChallenge::SaslFinal(verifier),
            ),
            BackendMessage::ErrorResponse(_) => Heard::Failed(EstablishFault::Rejected),
            _ => Heard::Failed(EstablishFault::Protocol(ProtocolFault::IllegalSaslMessage)),
        },
        Stage::TokenWaiting => match message {
            BackendMessage::Authentication(Authentication::GssContinue(token)) => Heard::Ask(
                Stage::Token,
                ClientAuthenticationChallenge::TokenContinue(token),
            ),
            BackendMessage::Authentication(Authentication::Accepted) => Heard::Authenticated,
            BackendMessage::ErrorResponse(_) => Heard::Failed(EstablishFault::Rejected),
            _ => Heard::Failed(EstablishFault::Protocol(ProtocolFault::IllegalTokenMessage)),
        },
        Stage::AwaitingOk { sasl } => match message {
            BackendMessage::Authentication(Authentication::Accepted) => Heard::Authenticated,
            BackendMessage::ErrorResponse(_) => Heard::Failed(EstablishFault::Rejected),
            _ => Heard::Failed(
                EstablishFault::Protocol(
                    if sasl {
                        ProtocolFault::IllegalSaslCompletion
                    } else {
                        ProtocolFault::IllegalCompletion
                    },
                ),
            ),
        },
        _ => Heard::Receive(stage),
    }
}

/// What to do after a message.
pub enum MessageStep<S> {
    /// Receive another message.
    Receive(Establishment<S>),
    /// Ask the policy to answer a challenge.
    Ask(Establishment<S>, ClientAuthenticationChallenge),
    /// Authentication succeeded; complete startup.
    Authenticated(Conn<S, AwaitingStartupReady>),
    /// The attempt failed; the transport is given back.
    Failed(S, EstablishFault),
}

/// Whether `step` does on `held` what a message leads to.
pub open spec fn follows<S>(step: MessageStep<S>, held: S, expected: Heard) -> bool {
    match expected {
        Heard::Receive(stage) => step matches MessageStep::Receive(next) && next.stage() == stage
            && next.held() == held,
        Heard::Ask(stage, challenge) => step matches MessageStep::Ask(next, asked) && next.stage()
            == stage && next.held() == held && asked == challenge,
        Heard::Authenticated => step matches MessageStep::Authenticated(conn) && conn.held()
            == held,
        Heard::Failed(fault) => step matches MessageStep::Failed(transport, reported) && transport
            == held && reported == fault,
    }
}

/// What to do with a policy's response.
pub enum AnswerStep<S> {
    /// Let middleware see the response, then send it.
    Intercept {
        pending: Establishment<S>,
        /// Mechanism that the response selects.
        mechanism: Option<Bytes>,
        response: Bytes,
    },
    /// Nothing is sent; receive another message.
    Receive(Establishment<S>),
    /// The response does not fit; the transport is given back.
    Failed(S, EstablishFault),
}

/// Whether `step` does on `held` what a response means in a stage.
pub open spec fn answers<S>(
    step: AnswerStep<S>,
    held: S,
    stage: Stage,
    response: ClientAuthenticationResponse,
) -> bool {
    match (stage, response) {
        (Stage::Password, ClientAuthenticationResponse::Password(password)) => step matches
            AnswerStep::Intercept { pending, mechanism, response } && pending.stage() == stage
            && pending.held() == held && mechanism is None && response == password,
        (
            Stage::SaslInitial,
            ClientAuthenticationResponse::SaslInitial { mechanism: chosen, response: first },
        ) => step matches AnswerStep::Intercept { pending, mechanism, response }
            && pending.stage() == stage && pending.held() == held && mechanism == Some(chosen)
            && response == first,
        (Stage::SaslChallenge, ClientAuthenticationResponse::Sasl(reply)) => step matches
            AnswerStep::Intercept { pending, mechanism, response } && pending.stage() == stage
            && pending.held() == held && mechanism is None && response == reply,
        (Stage::Token, ClientAuthenticationResponse::Token(token)) => step matches
            AnswerStep::Intercept { pending, mechanism, response } && pending.stage() == stage
            && pending.held() == held && mechanism is None && response == token,
        (Stage::SaslFinal, ClientAuthenticationResponse::Verified) => step matches
            AnswerStep::Receive(next) && next.stage() == (Stage::AwaitingOk { sasl: true })
            && next.held() == held,
        _ => step matches AnswerStep::Failed(transport, fault) && transport == held && fault
            == EstablishFault::InvalidResponse,
    }
}

/// Frame that carries a response, and the stage that follows.
pub open spec fn sent(stage: Stage, mechanism: Seq<u8>, response: Seq<u8>) -> Result<
    (Stage, FrameView),
    AuthError,
> {
    match stage {
        Stage::Password => if response.contains(0) {
            Err(AuthError::NulInPassword)
        } else {
            Ok(
                (
                    Stage::AwaitingOk { sasl: false },
                    FrameView { tag: tags::PASSWORD, body: response.push(0) },
                ),
            )
        },
        Stage::SaslInitial => if response.len() > i32::MAX {
            Err(AuthError::ResponseTooLarge)
        } else {
            Ok(
                (
                    Stage::SaslWaiting,
                    FrameView { tag: tags::PASSWORD, body: initial_body(mechanism, response) },
                ),
            )
        },
        Stage::SaslChallenge => Ok(
            (Stage::SaslWaiting, FrameView { tag: tags::PASSWORD, body: response }),
        ),
        _ => Ok((Stage::TokenWaiting, FrameView { tag: tags::PASSWORD, body: response })),
    }
}

/// Whether a stage owes the server a frame.
pub open spec fn owes(stage: Stage) -> bool {
    stage == Stage::Password || stage == Stage::SaslInitial || stage == Stage::SaslChallenge
        || stage == Stage::Token
}

/// The octets of a mechanism that may be missing.
pub open spec fn mechanism_octets(mechanism: Option<Bytes>) -> Seq<u8> {
    match mechanism {
        Some(mechanism) => octets(mechanism),
        None => Seq::empty(),
    }
}

/// Whether sending what middleware left of a response gives `result`.
pub open spec fn transmits<S>(
    result: Result<(Establishment<S>, Frame), EstablishFault>,
    held: S,
    stage: Stage,
    mechanism: Seq<u8>,
    message: FrontendMessage,
) -> bool {
    match message {
        FrontendMessage::PasswordResponse(response) => match sent(
            stage,
            mechanism,
            octets(response),
        ) {
            Ok((next, frame)) => result matches Ok((establishment, given)) && establishment.stage()
                == next && establishment.held() == held && given@ == frame,
            Err(error) => result == Err::<(Establishment<S>, Frame), _>(
                EstablishFault::Protocol(ProtocolFault::Authentication(error)),
            ),
        },
        _ => result == Err::<(Establishment<S>, Frame), _>(EstablishFault::InvalidResponse),
    }
}

impl<S> Establishment<S> {
    /// Begins once the startup packet was sent.
    pub fn begin(conn: Conn<S, Auth>) -> (establishment: Self)
        ensures
            establishment.stage() == Stage::Authenticating,
            establishment.held() == conn.held(),
    {
        Establishment::Authenticating(conn)
    }

    /// Gives the transport back.
    pub fn into_transport(self) -> (transport: S)
        ensures
            transport == self.held(),
    {
        match self {
            Establishment::Authenticating(conn) => conn.into_transport(),
            Establishment::Password(conn) => conn.into_transport(),
            Establishment::SaslInitial(conn) => conn.into_transport(),
            Establishment::SaslWaiting(conn) => conn.into_transport(),
            Establishment::SaslChallenge(conn) => conn.into_transport(),
            Establishment::SaslFinal(conn) => conn.into_transport(),
            Establishment::Token(conn) => conn.into_transport(),
            Establishment::TokenWaiting(conn) => conn.into_transport(),
            Establishment::AwaitingOk { conn, .. } => conn.into_transport(),
        }
    }

    /// Mutably borrows the transport, to send or receive.
    pub fn transport_mut(&mut self) -> (transport: &mut S)
        ensures
            *transport == old(self).held(),
            final(self).held() == *final(transport),
            final(self).stage() == old(self).stage(),
    {
        match self {
            Establishment::Authenticating(conn) => conn.transport_mut(),
            Establishment::Password(conn) => conn.transport_mut(),
            Establishment::SaslInitial(conn) => conn.transport_mut(),
            Establishment::SaslWaiting(conn) => conn.transport_mut(),
            Establishment::SaslChallenge(conn) => conn.transport_mut(),
            Establishment::SaslFinal(conn) => conn.transport_mut(),
            Establishment::Token(conn) => conn.transport_mut(),
            Establishment::TokenWaiting(conn) => conn.transport_mut(),
            Establishment::AwaitingOk { conn, .. } => conn.transport_mut(),
        }
    }

    /// Decides on a received message.
    pub fn on_message(self, message: BackendMessage) -> (step: MessageStep<S>)
        requires
            listens(self.stage()),
        ensures
            follows(step, self.held(), heard(self.stage(), message)),
    {
        match self {
            Establishment::Authenticating(conn) => choose_method(conn, message),
            Establishment::SaslWaiting(conn) => match conn.offer_backend(message) {
                Ok(SaslEvent::Continue { conn, challenge }) => MessageStep::Ask(
                    Establishment::SaslChallenge(conn),
                    ClientAuthenticationChallenge::SaslContinue(challenge),
                ),
                Ok(SaslEvent::Final { conn, server_final }) => MessageStep::Ask(
                    Establishment::SaslFinal(conn),
                    ClientAuthenticationChallenge::SaslFinal(server_final),
                ),
                Ok(SaslEvent::Error { conn, .. }) => MessageStep::Failed(
                    conn.into_transport(),
                    EstablishFault::Rejected,
                ),
                Err((conn, _)) => MessageStep::Failed(
                    conn.into_transport(),
                    EstablishFault::Protocol(ProtocolFault::IllegalSaslMessage),
                ),
            },
            Establishment::TokenWaiting(conn) => match conn.offer(message) {
                Ok(TokenAuthEvent::Continue { conn, token }) => MessageStep::Ask(
                    Establishment::Token(conn),
                    ClientAuthenticationChallenge::TokenContinue(token),
                ),
                Ok(TokenAuthEvent::Accepted(conn)) => MessageStep::Authenticated(conn),
                Ok(TokenAuthEvent::Error { conn, .. }) => MessageStep::Failed(
                    conn.into_transport(),
                    EstablishFault::Rejected,
                ),
                Err((conn, _)) => MessageStep::Failed(
                    conn.into_transport(),
                    EstablishFault::Protocol(ProtocolFault::IllegalTokenMessage),
                ),
            },
            Establishment::AwaitingOk { conn, sasl } => match conn.offer(message) {
                Ok(AuthCompletion::Accepted(conn)) => MessageStep::Authenticated(conn),
                Ok(AuthCompletion::Error { conn, .. }) => MessageStep::Failed(
                    conn.into_transport(),
                    EstablishFault::Rejected,
                ),
                Err((conn, _)) => MessageStep::Failed(
                    conn.into_transport(),
                    EstablishFault::Protocol(
                        if sasl {
                            ProtocolFault::IllegalSaslCompletion
                        } else {
                            ProtocolFault::IllegalCompletion
                        },
                    ),
                ),
            },
            other => MessageStep::Receive(other),
        }
    }

    /// Decides on a policy's response to a challenge.
    pub fn on_answer(self, response: ClientAuthenticationResponse) -> (step: AnswerStep<S>)
        requires
            owes(self.stage()) || self.stage() == Stage::SaslFinal,
        ensures
            answers(step, self.held(), self.stage(), response),
    {
        match (self, response) {
            (Establishment::Password(conn), ClientAuthenticationResponse::Password(password)) => {
                AnswerStep::Intercept {
                    pending: Establishment::Password(conn),
                    mechanism: None,
                    response: password,
                }
            },
            (
                Establishment::SaslInitial(conn),
                ClientAuthenticationResponse::SaslInitial { mechanism, response },
            ) => AnswerStep::Intercept {
                pending: Establishment::SaslInitial(conn),
                mechanism: Some(mechanism),
                response,
            },
            (Establishment::SaslChallenge(conn), ClientAuthenticationResponse::Sasl(reply)) => {
                AnswerStep::Intercept {
                    pending: Establishment::SaslChallenge(conn),
                    mechanism: None,
                    response: reply,
                }
            },
            (Establishment::Token(conn), ClientAuthenticationResponse::Token(token)) => {
                AnswerStep::Intercept {
                    pending: Establishment::Token(conn),
                    mechanism: None,
                    response: token,
                }
            },
            (Establishment::SaslFinal(conn), ClientAuthenticationResponse::Verified) => {
                AnswerStep::Receive(
                    Establishment::AwaitingOk { conn: conn.verified(), sasl: true },
                )
            },
            (other, _) => AnswerStep::Failed(
                other.into_transport(),
                EstablishFault::InvalidResponse,
            ),
        }
    }

    /// Makes a frame of what middleware left of a response.
    ///
    /// # Errors
    ///
    /// Middleware must leave a password response, and the response must be encodable.
    pub fn on_intercepted(self, mechanism: Option<Bytes>, message: FrontendMessage) -> (result:
        Result<(Self, Frame), EstablishFault>)
        requires
            owes(self.stage()),
        ensures
            transmits(
                result,
                self.held(),
                self.stage(),
                mechanism_octets(mechanism),
                message,
            ),
    {
        let response = match intercepted_response(message) {
            Some(response) => response,
            None => return Err(EstablishFault::InvalidResponse),
        };
        match self {
            Establishment::Password(conn) => match conn.password(as_slice(&response)) {
                Ok((conn, frame)) => Ok((Establishment::AwaitingOk { conn, sasl: false }, frame)),
                Err(error) => Err(EstablishFault::Protocol(ProtocolFault::Authentication(error))),
            },
            Establishment::SaslInitial(conn) => {
                let empty: Vec<u8> = Vec::new();
                assert(empty@ =~= Seq::<u8>::empty());
                let name = match &mechanism {
                    Some(mechanism) => as_slice(mechanism),
                    None => empty.as_slice(),
                };
                match conn.sasl(name, as_slice(&response)) {
                    Ok((conn, frame)) => Ok((Establishment::SaslWaiting(conn), frame)),
                    Err(error) => Err(
                        EstablishFault::Protocol(ProtocolFault::Authentication(error)),
                    ),
                }
            },
            Establishment::SaslChallenge(conn) => {
                let (conn, frame) = conn.respond(response);
                Ok((Establishment::SaslWaiting(conn), frame))
            },
            Establishment::Token(conn) => {
                let (conn, frame) = conn.respond(response);
                Ok((Establishment::TokenWaiting(conn), frame))
            },
            _ => Err(EstablishFault::InvalidResponse),
        }
    }
}

fn choose_method<S>(conn: Conn<S, Auth>, message: BackendMessage) -> (step: MessageStep<S>)
    ensures
        follows(step, conn.held(), heard_choice(message)),
{
    match conn.offer_backend(message) {
        Ok(AuthEvent::Authentication(offer)) => match offer {
            AuthOffer::Accepted(conn) => MessageStep::Authenticated(conn),
            AuthOffer::Cleartext(conn) => MessageStep::Ask(
                Establishment::Password(conn),
                ClientAuthenticationChallenge::CleartextPassword,
            ),
            AuthOffer::Md5 { conn, salt } => MessageStep::Ask(
                Establishment::Password(conn),
                ClientAuthenticationChallenge::Md5Password(salt),
            ),
            AuthOffer::Sasl { conn, mechanisms } => MessageStep::Ask(
                Establishment::SaslInitial(conn),
                ClientAuthenticationChallenge::Sasl(mechanisms),
            ),
            AuthOffer::Gss(conn) => MessageStep::Ask(
                Establishment::Token(conn),
                ClientAuthenticationChallenge::Gss,
            ),
            AuthOffer::Sspi(conn) => MessageStep::Ask(
                Establishment::Token(conn),
                ClientAuthenticationChallenge::Sspi,
            ),
            AuthOffer::KerberosV5(conn) => MessageStep::Ask(
                Establishment::Token(conn),
                ClientAuthenticationChallenge::KerberosV5,
            ),
        },
        Ok(AuthEvent::Negotiate { conn, .. }) => MessageStep::Receive(
            Establishment::Authenticating(conn),
        ),
        Ok(AuthEvent::Error { conn, .. }) => MessageStep::Failed(
            conn.into_transport(),
            EstablishFault::Rejected,
        ),
        Err((conn, _, Some(error))) => MessageStep::Failed(
            conn.into_transport(),
            EstablishFault::Protocol(ProtocolFault::Authentication(error)),
        ),
        Err((conn, _, None)) => MessageStep::Receive(Establishment::Authenticating(conn)),
    }
}

/// The item after middleware replaced its message: of the same kind, and with what
/// the demux added kept.
pub open spec fn replaced(item: SessionItem, replacement: BackendMessage) -> Option<SessionItem> {
    match (item, replacement) {
        (SessionItem::Message(_), message) => Some(SessionItem::Message(message)),
        (
            SessionItem::ReadyForQuery { parameters_changed, .. },
            BackendMessage::ReadyForQuery(status),
        ) => Some(SessionItem::ReadyForQuery { status, parameters_changed }),
        (
            SessionItem::CommandComplete { command, notices, .. },
            BackendMessage::CommandComplete(tag),
        ) => Some(SessionItem::CommandComplete { tag, command, notices }),
        _ => None,
    }
}

/// Puts middleware's replacement into an item, unless the kinds differ.
pub fn replace_session_item(item: SessionItem, replacement: BackendMessage) -> (result: Option<
    SessionItem,
>)
    ensures
        result == replaced(item, replacement),
{
    match (item, replacement) {
        (SessionItem::Message(_), message) => Some(SessionItem::Message(message)),
        (
            SessionItem::ReadyForQuery { parameters_changed, .. },
            BackendMessage::ReadyForQuery(status),
        ) => Some(SessionItem::ReadyForQuery { status, parameters_changed }),
        (
            SessionItem::CommandComplete { command, notices, .. },
            BackendMessage::CommandComplete(tag),
        ) => Some(SessionItem::CommandComplete { tag, command, notices }),
        _ => None,
    }
}

/// Cancellation key that an item announces.
pub fn announced_key(item: &SessionItem) -> (key: Option<CancelKey>)
    ensures
        key_view(key) == key_in(*item),
{
    match item {
        SessionItem::Message(BackendMessage::BackendKeyData { process_id, secret_key }) => Some(
            CancelKey { process_id: *process_id, secret_key: secret_key.clone() },
        ),
        _ => None,
    }
}

/// The key that an item announces.
pub open spec fn key_in(item: SessionItem) -> Option<CancelKeyView> {
    match item {
        SessionItem::Message(BackendMessage::BackendKeyData { process_id, secret_key }) => Some(
            CancelKeyView { process_id, secret_key: octets(secret_key) },
        ),
        _ => None,
    }
}

/// What a captured key consists of.
pub open spec fn key_view(key: Option<CancelKey>) -> Option<CancelKeyView> {
    match key {
        Some(key) => Some(key@),
        None => None,
    }
}

/// The key captured once another item arrived: a later announcement wins.
pub open spec fn captured(earlier: Option<CancelKeyView>, item: SessionItem) -> Option<
    CancelKeyView,
> {
    match key_in(item) {
        Some(key) => Some(key),
        None => earlier,
    }
}

/// The key captured from the items of a startup, first to last.
pub open spec fn captured_from(items: Seq<SessionItem>) -> Option<CancelKeyView>
    decreases items.len(),
{
    if items.len() == 0 {
        None
    } else {
        captured(captured_from(items.drop_last()), items.last())
    }
}

/// Captures the cancellation key that an item of startup announces; without one the
/// key captured before it stays.
pub fn capture_key(earlier: Option<CancelKey>, item: &SessionItem) -> (key: Option<CancelKey>)
    ensures
        key_view(key) == captured(key_view(earlier), *item),
{
    match announced_key(item) {
        Some(key) => Some(key),
        None => earlier,
    }
}

/// The last key announced during startup is the one captured, whatever followed it;
/// without an announcement there is none.
pub proof fn law_last_announced_key_is_captured(items: Seq<SessionItem>, at: int)
    requires
        -1 <= at < items.len(),
        at >= 0 ==> key_in(items[at]) is Some,
        forall|later: int| at < later < items.len() ==> key_in(#[trigger] items[later]) is None,
    ensures
        captured_from(items) == if at < 0 {
            None
        } else {
            key_in(items[at])
        },
    decreases items.len(),
{
    if items.len() > 0 && at < items.len() - 1 {
        law_last_announced_key_is_captured(items.drop_last(), at);
    }
}

/// What to do after an item during startup.
pub enum ReadyStep<S> {
    /// Receive another item.
    Receive(Conn<S, AwaitingStartupReady>),
    /// The session is ready.
    Ready(Conn<S, Ready>),
    /// The attempt failed; the transport is given back.
    Failed(S, EstablishFault),
}

/// The item that completes startup.
pub open spec fn idle_item() -> SessionItem {
    SessionItem::ReadyForQuery { status: TransactionStatus::Idle, parameters_changed: false }
}

/// Decides on an item, with middleware's replacement for its message, while startup
/// is being completed.
pub fn on_startup_item<S>(
    conn: Conn<S, AwaitingStartupReady>,
    item: SessionItem,
    replacement: BackendMessage,
) -> (step: ReadyStep<S>)
    ensures
        match replaced(item, replacement) {
            None => step matches ReadyStep::Failed(transport, fault) && transport == conn.held()
                && fault == EstablishFault::Protocol(ProtocolFault::UnfitReplacement),
            Some(SessionItem::Message(_)) => step matches ReadyStep::Receive(next) && next.held()
                == conn.held(),
            Some(item) => if item == idle_item() {
                step matches ReadyStep::Ready(ready) && ready.held() == conn.held()
            } else {
                step matches ReadyStep::Failed(transport, fault) && transport == conn.held()
                    && fault == EstablishFault::Protocol(ProtocolFault::NotIdle)
            },
        },
{
    let item = match replace_session_item(item, replacement) {
        Some(item) => item,
        None => {
            return ReadyStep::Failed(
                conn.into_transport(),
                EstablishFault::Protocol(ProtocolFault::UnfitReplacement),
            );
        },
    };
    match conn.offer_ready(item) {
        Ok(ready) => ReadyStep::Ready(ready),
        Err((conn, SessionItem::Message(_))) => ReadyStep::Receive(conn),
        Err((conn, _)) => ReadyStep::Failed(
            conn.into_transport(),
            EstablishFault::Protocol(ProtocolFault::NotIdle),
        ),
    }
}

/// Authentication succeeds only on the server's word, in every stage.
pub proof fn law_authentication_needs_the_servers_word(stage: Stage, message: BackendMessage)
    requires
        listens(stage),
        heard(stage, message) is Authenticated,
    ensures
        message == BackendMessage::Authentication(Authentication::Accepted),
        stage != Stage::SaslWaiting,
{
}

/// An error response ends authentication in every stage.
pub proof fn law_error_response_rejects(stage: Stage, message: BackendMessage)
    requires
        listens(stage),
        message is ErrorResponse,
    ensures
        heard(stage, message) == Heard::Failed(EstablishFault::Rejected),
{
}

/// A SASL exchange succeeds only after the policy verified the server: from the
/// choice of a mechanism on, every path to success passes the stage where the policy
/// judges the verifier.
pub proof fn law_sasl_success_needs_verification(
    message: BackendMessage,
    mechanism: Seq<u8>,
    response: Seq<u8>,
)
    ensures
        !(heard(Stage::SaslWaiting, message) is Authenticated),
        heard(Stage::SaslWaiting, message) matches Heard::Ask(next, _) ==> next
            == Stage::SaslChallenge || next == Stage::SaslFinal,
        sent(Stage::SaslInitial, mechanism, response) matches Ok((next, _)) ==> next
            == Stage::SaslWaiting,
        sent(Stage::SaslChallenge, mechanism, response) matches Ok((next, _)) ==> next
            == Stage::SaslWaiting,
{
}

/// A replacement keeps the kind of an item and what the demux added to it.
pub proof fn law_replacement_keeps_kind(item: SessionItem, replacement: BackendMessage)
    ensures
        replaced(item, replacement) matches Some(result) ==> {
            &&& item is Message <==> result is Message
            &&& item is ReadyForQuery <==> result is ReadyForQuery
            &&& item is CommandComplete <==> result is CommandComplete
            &&& item matches SessionItem::ReadyForQuery { parameters_changed, .. } ==> result
                matches SessionItem::ReadyForQuery { parameters_changed: kept, .. } && kept
                == parameters_changed
            &&& item matches SessionItem::CommandComplete { command, notices, .. } ==> result
                matches SessionItem::CommandComplete { command: same, notices: kept, .. } && same
                == command && kept == notices
        },
{
}

/// Phase of the authentication grammar that a stage is in.
pub open spec fn grammar_phase(stage: Stage) -> authentication::RuntimeState {
    match stage {
        Stage::Authenticating => authentication::RuntimeState::Auth,
        Stage::Password => authentication::RuntimeState::PasswordResponse,
        Stage::SaslInitial => authentication::RuntimeState::SaslInitial,
        Stage::SaslWaiting => authentication::RuntimeState::Sasl,
        Stage::SaslChallenge => authentication::RuntimeState::SaslChallenge,
        Stage::SaslFinal => authentication::RuntimeState::SaslFinal,
        Stage::Token => authentication::RuntimeState::TokenResponse,
        Stage::TokenWaiting => authentication::RuntimeState::TokenChallenge,
        Stage::AwaitingOk { .. } => authentication::RuntimeState::AwaitingAuthOk,
    }
}

/// Establishment follows the authentication grammar: a message that the grammar
/// knows in a phase leads where the grammar says, and any other message moves
/// nothing on.
pub proof fn law_establishment_follows_the_grammar(stage: Stage, message: BackendMessage)
    requires
        listens(stage),
    ensures
        match authentication::external_event(grammar_phase(stage), message@) {
            Some(event) => {
                let target = authentication::allowed(grammar_phase(stage), event)->0.target;
                match heard(stage, message) {
                    Heard::Receive(next) => grammar_phase(next) == target,
                    Heard::Ask(next, _) => grammar_phase(next) == target,
                    Heard::Authenticated => target
                        == authentication::RuntimeState::AwaitingStartupReady,
                    Heard::Failed(fault) => target == authentication::RuntimeState::Terminated
                        && fault == EstablishFault::Rejected,
                }
            },
            None => match heard(stage, message) {
                Heard::Receive(next) => next == stage,
                Heard::Failed(EstablishFault::Protocol(_)) => true,
                _ => false,
            },
        },
{
}

/// What a policy answers follows the authentication grammar, too: the frame that
/// carries it moves on as the grammar says.
pub proof fn law_answers_follow_the_grammar(
    stage: Stage,
    mechanism: Seq<u8>,
    response: Seq<u8>,
    message: FrontendView,
)
    requires
        owes(stage),
        message == FrontendView::PasswordResponse(response),
    ensures
        authentication::internal_event(grammar_phase(stage), message) is Some,
        sent(stage, mechanism, response) matches Ok((next, _)) ==> grammar_phase(next)
            == authentication::allowed(
            grammar_phase(stage),
            authentication::internal_event(grammar_phase(stage), message)->0,
        )->0.target,
{
}

/// What the policy is asked is what the server sent: the method, with its salt or its
/// mechanisms, and each later challenge with its octets.
pub proof fn law_challenges_are_passed_on(
    salt: [u8; 4],
    mechanisms: Vec<Bytes>,
    data: Bytes,
)
    ensures
        heard(
            Stage::Authenticating,
            BackendMessage::Authentication(Authentication::CleartextPassword),
        ) == Heard::Ask(Stage::Password, ClientAuthenticationChallenge::CleartextPassword),
        heard(
            Stage::Authenticating,
            BackendMessage::Authentication(Authentication::Md5Password { salt }),
        ) == Heard::Ask(Stage::Password, ClientAuthenticationChallenge::Md5Password(salt)),
        heard(
            Stage::Authenticating,
            BackendMessage::Authentication(Authentication::Sasl { mechanisms }),
        ) == Heard::Ask(Stage::SaslInitial, ClientAuthenticationChallenge::Sasl(mechanisms)),
        heard(Stage::Authenticating, BackendMessage::Authentication(Authentication::Gss))
            == Heard::Ask(Stage::Token, ClientAuthenticationChallenge::Gss),
        heard(Stage::Authenticating, BackendMessage::Authentication(Authentication::Sspi))
            == Heard::Ask(Stage::Token, ClientAuthenticationChallenge::Sspi),
        heard(Stage::Authenticating, BackendMessage::Authentication(Authentication::KerberosV5))
            == Heard::Ask(Stage::Token, ClientAuthenticationChallenge::KerberosV5),
        heard(
            Stage::SaslWaiting,
            BackendMessage::Authentication(Authentication::SaslContinue(data)),
        ) == Heard::Ask(Stage::SaslChallenge, ClientAuthenticationChallenge::SaslContinue(data)),
        heard(Stage::SaslWaiting, BackendMessage::Authentication(Authentication::SaslFinal(data)))
            == Heard::Ask(Stage::SaslFinal, ClientAuthenticationChallenge::SaslFinal(data)),
        heard(
            Stage::TokenWaiting,
            BackendMessage::Authentication(Authentication::GssContinue(data)),
        ) == Heard::Ask(Stage::Token, ClientAuthenticationChallenge::TokenContinue(data)),
{
}

/// Acceptance ends authentication wherever it may come: at once, after a token, and
/// after the answer to everything else. A SASL exchange does not end so.
pub proof fn law_acceptance_is_taken(stage: Stage)
    requires
        listens(stage),
    ensures
        heard(stage, BackendMessage::Authentication(Authentication::Accepted)) is Authenticated
            <==> stage != Stage::SaslWaiting,
        listens(stage) <==> !(owes(stage) || stage == Stage::SaslFinal),
{
}

/// How an answer is sent: as a password message, with a NUL octet behind a password and
/// with the mechanism and the length before the first SASL response. A password that
/// holds a NUL octet and a response too long for its length are refused.
pub proof fn law_answers_are_framed(stage: Stage, mechanism: Seq<u8>, response: Seq<u8>)
    requires
        owes(stage),
    ensures
        sent(stage, mechanism, response) matches Ok((_, frame)) ==> {
            &&& frame.tag == 0x70
            &&& stage == Stage::Password ==> frame.body == text(response)
            &&& stage == Stage::SaslInitial ==> {
                let at = mechanism.len() as int + 1;
                &&& frame.body.take(at) == text(mechanism)
                &&& number(frame.body.subrange(at, at + 4)) == response.len()
                &&& frame.body.skip(at + 4) == response
            }
            &&& stage == Stage::SaslChallenge || stage == Stage::Token ==> frame.body == response
        },
        sent(stage, mechanism, response) is Err <==> (stage == Stage::Password && response.contains(
            0u8,
        )) || (stage == Stage::SaslInitial && response.len() > 0x7fff_ffff),
        sent(stage, mechanism, response) matches Err(error) ==> (error
            == AuthError::NulInPassword <==> stage == Stage::Password) && (error
            == AuthError::ResponseTooLarge <==> stage == Stage::SaslInitial),
{
    if stage == Stage::Password {
        assert(response.push(0) =~= text(response));
    }
    if let Ok((next, frame)) = sent(stage, mechanism, response) {
        if stage == Stage::SaslInitial {
            let at = mechanism.len() as int + 1;
            law_network_order(0, response.len() as u32, 0, seq![]);
            assert(frame.body.take(at) =~= text(mechanism));
            assert(frame.body.subrange(at, at + 4) =~= crate::wire::be32(response.len() as u32));
            assert(frame.body.skip(at + 4) =~= response);
        }
    }
}

/// Which answers fit which stage: a password a request for one, a mechanism with its
/// first response an offer of mechanisms, a SASL response a challenge, a token a request
/// for one, and a verdict the verifier. Any other answer is refused, and then nothing is
/// sent.
pub proof fn law_only_fitting_answers_pass<S>(
    step: AnswerStep<S>,
    held: S,
    stage: Stage,
    response: ClientAuthenticationResponse,
)
    requires
        answers(step, held, stage, response),
    ensures
        step is Intercept <==> (stage == Stage::Password && response is Password) || (stage
            == Stage::SaslInitial && response is SaslInitial) || (stage == Stage::SaslChallenge
            && response is Sasl) || (stage == Stage::Token && response is Token),
        step is Receive <==> stage == Stage::SaslFinal && response is Verified,
        step matches AnswerStep::Intercept { pending, response: given, .. } ==> {
            &&& pending.stage() == stage
            &&& pending.held() == held
            &&& response matches ClientAuthenticationResponse::Password(octets) ==> given == octets
            &&& response matches ClientAuthenticationResponse::Sasl(octets) ==> given == octets
            &&& response matches ClientAuthenticationResponse::Token(octets) ==> given == octets
            &&& response matches ClientAuthenticationResponse::SaslInitial {
                response: octets,
                ..
            } ==> given == octets
        },
        step matches AnswerStep::Failed(transport, fault) ==> transport == held && fault
            == EstablishFault::InvalidResponse,
{
}

/// A replacement is put in place if and only if its kind fits, and it is the replacement
/// that is put there.
pub proof fn law_fitting_replacements_are_taken(item: SessionItem, replacement: BackendMessage)
    ensures
        replaced(item, replacement) is Some <==> item is Message || (item is ReadyForQuery
            && replacement is ReadyForQuery) || (item is CommandComplete
            && replacement is CommandComplete),
        replaced(item, replacement) matches Some(SessionItem::Message(message)) ==> message
            == replacement,
        replaced(item, replacement) matches Some(SessionItem::ReadyForQuery { status, .. })
            ==> replacement == BackendMessage::ReadyForQuery(status),
        replaced(item, replacement) matches Some(SessionItem::CommandComplete { tag, .. })
            ==> replacement == BackendMessage::CommandComplete(tag),
{
}

/// Startup is complete with readiness outside a transaction and unchanged parameters,
/// and with nothing else.
pub proof fn law_startup_completes_when_idle(item: SessionItem)
    ensures
        item == idle_item() <==> (item matches SessionItem::ReadyForQuery {
            status,
            parameters_changed,
        } && status == TransactionStatus::Idle && !parameters_changed),
{
}

/// Why a message of the server fails an attempt.
pub proof fn law_refused_challenges(stage: Stage, message: BackendMessage)
    requires
        listens(stage),
        !(message is ErrorResponse),
        heard(stage, message) is Failed,
    ensures
        heard(stage, message) == Heard::Failed(
            EstablishFault::Protocol(
                if stage == Stage::Authenticating {
                    ProtocolFault::Authentication(AuthError::EarlyContinuation)
                } else if stage == Stage::SaslWaiting {
                    ProtocolFault::IllegalSaslMessage
                } else if stage == Stage::TokenWaiting {
                    ProtocolFault::IllegalTokenMessage
                } else if stage == (Stage::AwaitingOk { sasl: true }) {
                    ProtocolFault::IllegalSaslCompletion
                } else {
                    ProtocolFault::IllegalCompletion
                },
            ),
        ),
{
}

} // verus!
