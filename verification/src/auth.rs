//! Authentication typestates, including the recursive SASL sub-session.

use bytes::Bytes;
use vstd::prelude::*;
use vstd::utf8::*;

use crate::codec::layout::{law_network_order, number};
use crate::codec::tags;
use crate::codec::{
    Authentication, BackendMessage, DiagnosticResponse, Frame, NegotiateProtocolVersion,
    TransactionStatus,
};
use crate::conn::{Conn, Pristine};
use crate::demux::SessionItem;
use crate::error::ErrorKind;
use crate::grammar::authentication;
use crate::grammar::laws::challenge_received;
use crate::octets::{from_vec, octets};
use crate::pre_startup::{Startup, Terminated};
use crate::scram::{SCRAM_SHA_256, SCRAM_SHA_256_PLUS};
use crate::wire::{append, be32, find_octet, write_u32};

verus! {

/// The backend chooses an authentication method. A type index.
#[derive(Debug)]
pub enum Auth {
    Index,
}

/// A password response is owed. A type index.
#[derive(Debug)]
pub enum PasswordResponse {
    Index,
}

/// A SASL mechanism is to be selected. A type index.
#[derive(Debug)]
pub enum SaslInitial {
    Index,
}

/// The backend continues or completes a SASL exchange. A type index.
#[derive(Debug)]
pub enum Sasl {
    Index,
}

/// A SASL challenge is to be answered. A type index.
#[derive(Debug)]
pub enum SaslChallenge {
    Index,
}

/// The server-final value is to be verified. A type index.
#[derive(Debug)]
pub enum SaslFinal {
    Index,
}

/// A token is to be sent. A type index.
#[derive(Debug)]
pub enum TokenResponse {
    Index,
}

/// The backend continues or completes a token exchange. A type index.
#[derive(Debug)]
pub enum TokenChallenge {
    Index,
}

/// The backend's verdict is awaited. A type index.
#[derive(Debug)]
pub enum AwaitingAuthOk {
    Index,
}

/// The session accepts requests. A type index.
#[derive(Debug)]
pub enum Ready {
    Index,
}

/// Authentication succeeded and startup is being completed. A type index.
#[derive(Debug)]
pub enum AwaitingStartupReady {
    Index,
}

/// A client's first SASL message.
#[derive(Clone, Debug, PartialEq, Eq)]
pub struct SaslInitialResponse {
    pub mechanism: Bytes,
    pub response: Option<Bytes>,
}

/// Reason why an authentication step was refused.
#[derive(Clone, Copy, Debug, PartialEq, Eq, Structural)]
pub enum AuthError {
    /// A continuation came before a mechanism was selected.
    EarlyContinuation,
    /// A password response contains a NUL octet.
    NulInPassword,
    /// A SASL response is too large for its 32-bit length.
    ResponseTooLarge,
}

impl AuthError {
    /// Description of this error.
    pub open spec fn text(self) -> Seq<char> {
        match self {
            AuthError::EarlyContinuation =>
                "authentication continuation before mechanism selection"@,
            AuthError::NulInPassword => "password response contains a NUL byte"@,
            AuthError::ResponseTooLarge => "SASL response too large"@,
        }
    }

    /// Description of this error.
    pub fn message(&self) -> (message: &'static str)
        ensures
            message@ == self.text(),
    {
        match *self {
            AuthError::EarlyContinuation =>
                "authentication continuation before mechanism selection",
            AuthError::NulInPassword => "password response contains a NUL byte",
            AuthError::ResponseTooLarge => "SASL response too large",
        }
    }

    pub open spec fn kind_spec(self) -> ErrorKind {
        match self {
            AuthError::EarlyContinuation => ErrorKind::InvalidData,
            _ => ErrorKind::InvalidInput,
        }
    }

    /// Class of this error.
    pub fn kind(&self) -> (kind: ErrorKind)
        ensures
            kind == self.kind_spec(),
    {
        match *self {
            AuthError::EarlyContinuation => ErrorKind::InvalidData,
            _ => ErrorKind::InvalidInput,
        }
    }
}

/// TLS transports expose the `tls-server-end-point` channel binding.
pub trait TlsServerEndPoint {
    fn tls_server_end_point(&self) -> &[u8];
}

impl<S: TlsServerEndPoint, Phase, Cleanliness> Conn<S, Phase, Cleanliness> {
    /// Returns the peer-certificate binding for custom authentication policy.
    #[must_use]
    pub fn tls_server_end_point(&self) -> (binding: &[u8])
        requires
            call_requires(S::tls_server_end_point, (&self.held(),)),
        ensures
            call_ensures(S::tls_server_end_point, (&self.held(),), binding),
    {
        self.transport().tls_server_end_point()
    }
}

/// External choice offered by the backend during authentication.
#[derive(Debug)]
pub enum AuthOffer<S> {
    Accepted(Conn<S, AwaitingStartupReady>),
    Cleartext(Conn<S, PasswordResponse>),
    Md5 { conn: Conn<S, PasswordResponse>, salt: [u8; 4] },
    Sasl { conn: Conn<S, SaslInitial>, mechanisms: Vec<Bytes> },
    Gss(Conn<S, TokenResponse>),
    Sspi(Conn<S, TokenResponse>),
    KerberosV5(Conn<S, TokenResponse>),
}

#[derive(Debug)]
pub enum AuthEvent<S> {
    Authentication(AuthOffer<S>),
    Negotiate { conn: Conn<S, Auth>, message: NegotiateProtocolVersion },
    Error { conn: Conn<S, Terminated>, error: DiagnosticResponse },
}

#[derive(Debug)]
pub enum SaslEvent<S> {
    Continue { conn: Conn<S, SaslChallenge>, challenge: Bytes },
    Final { conn: Conn<S, SaslFinal>, server_final: Bytes },
    Error { conn: Conn<S, Terminated>, error: DiagnosticResponse },
}

#[derive(Debug)]
pub enum AuthCompletion<S> {
    Accepted(Conn<S, AwaitingStartupReady>),
    Error { conn: Conn<S, Terminated>, error: DiagnosticResponse },
}

#[derive(Debug)]
pub enum TokenAuthEvent<S> {
    Continue { conn: Conn<S, TokenResponse>, token: Bytes },
    Accepted(Conn<S, AwaitingStartupReady>),
    Error { conn: Conn<S, Terminated>, error: DiagnosticResponse },
}

/// Whether a request continues a mechanism that has to be selected first.
pub open spec fn continuation(authentication: Authentication) -> bool {
    authentication is GssContinue || authentication is SaslContinue || authentication is SaslFinal
}

/// Whether `offer` is the branch that an authentication request selects on `held`.
pub open spec fn offers<S>(offer: AuthOffer<S>, held: S, authentication: Authentication) -> bool {
    match authentication {
        Authentication::Accepted => offer matches AuthOffer::Accepted(conn) && conn.held() == held,
        Authentication::CleartextPassword => offer matches AuthOffer::Cleartext(conn)
            && conn.held() == held,
        Authentication::Md5Password { salt } => offer matches AuthOffer::Md5 {
            conn,
            salt: given,
        } && conn.held() == held && given == salt,
        Authentication::Sasl { mechanisms } => offer matches AuthOffer::Sasl {
            conn,
            mechanisms: given,
        } && conn.held() == held && given == mechanisms,
        Authentication::Gss => offer matches AuthOffer::Gss(conn) && conn.held() == held,
        Authentication::Sspi => offer matches AuthOffer::Sspi(conn) && conn.held() == held,
        Authentication::KerberosV5 => offer matches AuthOffer::KerberosV5(conn) && conn.held()
            == held,
        _ => false,
    }
}

impl<S> Conn<S, Startup, Pristine> {
    pub fn authentication(self) -> (conn: Conn<S, Auth>)
        ensures
            conn.held() == self.held(),
    {
        self.transition()
    }
}

impl<S> Conn<S, Auth, Pristine> {
    /// Projects either protocol negotiation or an authentication request.
    ///
    /// # Errors
    ///
    /// Returns the unchanged connection and message when the backend message is
    /// unrelated to startup authentication, with an error when it continues a
    /// mechanism that was not selected.
    pub fn offer_backend(self, message: BackendMessage) -> (result: Result<
        AuthEvent<S>,
        (Self, BackendMessage, Option<AuthError>),
    >)
        ensures
            match message {
                BackendMessage::Authentication(authentication) => if continuation(authentication) {
                    result matches Err((conn, returned, error)) && conn.held() == self.held()
                        && returned == message && error == Some(AuthError::EarlyContinuation)
                } else {
                    result matches Ok(AuthEvent::Authentication(offer)) && offers(
                        offer,
                        self.held(),
                        authentication,
                    )
                },
                BackendMessage::NegotiateProtocolVersion(negotiation) => result matches Ok(
                    AuthEvent::Negotiate { conn, message },
                ) && conn.held() == self.held() && message == negotiation,
                BackendMessage::ErrorResponse(diagnostic) => result matches Ok(
                    AuthEvent::Error { conn, error },
                ) && conn.held() == self.held() && error == diagnostic,
                _ => result matches Err((conn, returned, error)) && conn.held() == self.held()
                    && returned == message && error is None,
            },
    {
        match message {
            BackendMessage::Authentication(authentication) => match authentication {
                Authentication::GssContinue(_)
                | Authentication::SaslContinue(_)
                | Authentication::SaslFinal(_) => Err(
                    (
                        self,
                        BackendMessage::Authentication(authentication),
                        Some(AuthError::EarlyContinuation),
                    ),
                ),
                authentication => Ok(AuthEvent::Authentication(self.select(authentication))),
            },
            BackendMessage::NegotiateProtocolVersion(message) => Ok(
                AuthEvent::Negotiate { conn: self, message },
            ),
            BackendMessage::ErrorResponse(error) => Ok(
                AuthEvent::Error { conn: self.transition(), error },
            ),
            message => Err((self, message, None)),
        }
    }

    fn select(self, authentication: Authentication) -> (offer: AuthOffer<S>)
        requires
            !continuation(authentication),
        ensures
            offers(offer, self.held(), authentication),
    {
        match authentication {
            Authentication::CleartextPassword => AuthOffer::Cleartext(self.transition()),
            Authentication::Md5Password { salt } => AuthOffer::Md5 {
                conn: self.transition(),
                salt,
            },
            Authentication::Sasl { mechanisms } => AuthOffer::Sasl {
                conn: self.transition(),
                mechanisms,
            },
            Authentication::Gss => AuthOffer::Gss(self.transition()),
            Authentication::Sspi => AuthOffer::Sspi(self.transition()),
            Authentication::KerberosV5 => AuthOffer::KerberosV5(self.transition()),
            _ => AuthOffer::Accepted(self.transition()),
        }
    }

    /// Applies one backend authentication request to the session state.
    ///
    /// # Errors
    ///
    /// SASL continuation/final messages are rejected before SASL is selected.
    pub fn offer(self, authentication: Authentication) -> (result: Result<AuthOffer<S>, AuthError>)
        ensures
            match result {
                Ok(offer) => offers(offer, self.held(), authentication),
                Err(error) => continuation(authentication) && error
                    == AuthError::EarlyContinuation,
            },
    {
        match authentication {
            Authentication::GssContinue(_)
            | Authentication::SaslContinue(_)
            | Authentication::SaslFinal(_) => Err(AuthError::EarlyContinuation),
            authentication => Ok(self.select(authentication)),
        }
    }
}

impl<S> Conn<S, TokenResponse, Pristine> {
    /// Sends a GSS, SSPI, or Kerberos token and waits for continuation or success.
    pub fn respond(self, token: Bytes) -> (result: (Conn<S, TokenChallenge>, Frame))
        ensures
            result.0.held() == self.held(),
            result.1 == (Frame { tag: tags::PASSWORD, body: token }),
    {
        (self.transition(), Frame { tag: tags::PASSWORD, body: token })
    }
}

impl<S> Conn<S, TokenChallenge, Pristine> {
    /// Projects recursive GSS continuation, successful authentication, or failure.
    ///
    /// # Errors
    ///
    /// Returns the live connection and message for an illegal response.
    pub fn offer(self, message: BackendMessage) -> (result: Result<
        TokenAuthEvent<S>,
        (Self, BackendMessage),
    >)
        ensures
            match message {
                BackendMessage::Authentication(Authentication::GssContinue(given)) => result
                    matches Ok(TokenAuthEvent::Continue { conn, token }) && conn.held()
                    == self.held() && token == given,
                BackendMessage::Authentication(Authentication::Accepted) => result matches Ok(
                    TokenAuthEvent::Accepted(conn),
                ) && conn.held() == self.held(),
                BackendMessage::ErrorResponse(diagnostic) => result matches Ok(
                    TokenAuthEvent::Error { conn, error },
                ) && conn.held() == self.held() && error == diagnostic,
                _ => result matches Err((conn, returned)) && conn.held() == self.held() && returned
                    == message,
            },
    {
        match message {
            BackendMessage::Authentication(Authentication::GssContinue(token)) => Ok(
                TokenAuthEvent::Continue { conn: self.transition(), token },
            ),
            BackendMessage::Authentication(Authentication::Accepted) => Ok(
                TokenAuthEvent::Accepted(self.transition()),
            ),
            BackendMessage::ErrorResponse(error) => Ok(
                TokenAuthEvent::Error { conn: self.transition(), error },
            ),
            message => Err((self, message)),
        }
    }
}

impl<S> Conn<S, PasswordResponse, Pristine> {
    /// Sends a cleartext or precomputed MD5 password response.
    ///
    /// # Errors
    ///
    /// Returns an error if the response contains a NUL byte.
    pub fn password(self, password: &[u8]) -> (result: Result<
        (Conn<S, AwaitingAuthOk>, Frame),
        AuthError,
    >)
        ensures
            match result {
                Ok((conn, frame)) => !password@.contains(0) && conn.held() == self.held()
                    && frame.tag == tags::PASSWORD && octets(frame.body) == password@.push(0),
                Err(error) => password@.contains(0) && error == AuthError::NulInPassword,
            },
    {
        if find_octet(password, 0).is_some() {
            proof {
                password@.index_of_first_ensures(0u8);
            }
            return Err(AuthError::NulInPassword);
        }
        let mut body: Vec<u8> = Vec::new();
        append(&mut body, password);
        body.push(0);
        assert(body@ =~= password@.push(0));
        Ok((self.transition(), Frame { tag: tags::PASSWORD, body: from_vec(body) }))
    }
}

/// Body of the message that selects a SASL mechanism.
pub open spec fn initial_body(mechanism: Seq<u8>, initial: Seq<u8>) -> Seq<u8> {
    mechanism.push(0) + be32(initial.len() as u32) + initial
}

/// Whether selecting `mechanism` gives `result`.
pub open spec fn selects<S>(
    result: Result<(Conn<S, Sasl>, Frame), AuthError>,
    held: S,
    mechanism: Seq<u8>,
    initial: Seq<u8>,
) -> bool {
    match result {
        Ok((conn, frame)) => initial.len() <= i32::MAX && conn.held() == held && frame.tag
            == tags::PASSWORD && octets(frame.body) == initial_body(mechanism, initial),
        Err(error) => initial.len() > i32::MAX && error == AuthError::ResponseTooLarge,
    }
}

impl<S> Conn<S, SaslInitial, Pristine> {
    /// Selects SCRAM without channel binding.
    ///
    /// # Errors
    ///
    /// Returns an error if the initial response is too large.
    pub fn scram_sha_256(self, initial: &[u8]) -> (result: Result<
        (Conn<S, Sasl>, Frame),
        AuthError,
    >)
        ensures
            selects(result, self.held(), encode_utf8(SCRAM_SHA_256@), initial@),
    {
        sasl_initial(self, SCRAM_SHA_256.as_bytes(), initial)
    }

    /// Selects any mechanism that the backend offered.
    ///
    /// # Errors
    ///
    /// Returns an error if the initial response is too large.
    pub fn sasl(self, mechanism: &[u8], initial: &[u8]) -> (result: Result<
        (Conn<S, Sasl>, Frame),
        AuthError,
    >)
        ensures
            selects(result, self.held(), mechanism@, initial@),
    {
        sasl_initial(self, mechanism, initial)
    }
}

impl<S: TlsServerEndPoint> Conn<S, SaslInitial, Pristine> {
    /// Selects SCRAM-PLUS. This method is unavailable on transports which cannot
    /// provide the peer-certificate channel binding.
    ///
    /// # Errors
    ///
    /// Returns an error if the initial response is too large.
    pub fn scram_sha_256_plus(self, initial: &[u8]) -> (result: Result<
        (Conn<S, Sasl>, Frame),
        AuthError,
    >)
        ensures
            selects(result, self.held(), encode_utf8(SCRAM_SHA_256_PLUS@), initial@),
    {
        sasl_initial(self, SCRAM_SHA_256_PLUS.as_bytes(), initial)
    }
}

impl<S> Conn<S, Sasl, Pristine> {
    /// Projects the next server challenge or final verifier.
    ///
    /// # Errors
    ///
    /// Returns the live connection and authentication message for an illegal branch.
    pub fn offer(self, authentication: Authentication) -> (result: Result<
        SaslEvent<S>,
        (Self, Authentication),
    >)
        ensures
            match authentication {
                Authentication::SaslContinue(given) => result matches Ok(
                    SaslEvent::Continue { conn, challenge },
                ) && conn.held() == self.held() && challenge == given,
                Authentication::SaslFinal(given) => result matches Ok(
                    SaslEvent::Final { conn, server_final },
                ) && conn.held() == self.held() && server_final == given,
                _ => result matches Err((conn, returned)) && conn.held() == self.held() && returned
                    == authentication,
            },
    {
        match authentication {
            Authentication::SaslContinue(challenge) => Ok(
                SaslEvent::Continue { conn: self.transition(), challenge },
            ),
            Authentication::SaslFinal(server_final) => Ok(
                SaslEvent::Final { conn: self.transition(), server_final },
            ),
            authentication => Err((self, authentication)),
        }
    }

    /// Projects an authentication error which terminates an active SASL exchange.
    ///
    /// # Errors
    ///
    /// Returns the live connection and message for an illegal response.
    pub fn offer_backend(self, message: BackendMessage) -> (result: Result<
        SaslEvent<S>,
        (Self, BackendMessage),
    >)
        ensures
            match message {
                BackendMessage::Authentication(Authentication::SaslContinue(given)) => result
                    matches Ok(SaslEvent::Continue { conn, challenge }) && conn.held()
                    == self.held() && challenge == given,
                BackendMessage::Authentication(Authentication::SaslFinal(given)) => result
                    matches Ok(SaslEvent::Final { conn, server_final }) && conn.held()
                    == self.held() && server_final == given,
                BackendMessage::ErrorResponse(diagnostic) => result matches Ok(
                    SaslEvent::Error { conn, error },
                ) && conn.held() == self.held() && error == diagnostic,
                _ => result matches Err((conn, returned)) && conn.held() == self.held() && returned
                    == message,
            },
    {
        match message {
            BackendMessage::Authentication(authentication) => match self.offer(authentication) {
                Ok(event) => Ok(event),
                Err((conn, authentication)) => Err(
                    (conn, BackendMessage::Authentication(authentication)),
                ),
            },
            BackendMessage::ErrorResponse(error) => Ok(
                SaslEvent::Error { conn: self.transition(), error },
            ),
            message => Err((self, message)),
        }
    }
}

impl<S> Conn<S, SaslChallenge, Pristine> {
    /// Sends the response to one received challenge and re-enters the SASL loop.
    pub fn respond(self, response: Bytes) -> (result: (Conn<S, Sasl>, Frame))
        ensures
            result.0.held() == self.held(),
            result.1 == (Frame { tag: tags::PASSWORD, body: response }),
    {
        (self.transition(), Frame { tag: tags::PASSWORD, body: response })
    }
}

impl<S> Conn<S, SaslFinal, Pristine> {
    /// Records that custom SCRAM logic verified the received server-final value.
    pub fn verified(self) -> (conn: Conn<S, AwaitingAuthOk>)
        ensures
            conn.held() == self.held(),
    {
        self.transition()
    }
}

impl<S> Conn<S, AwaitingAuthOk, Pristine> {
    /// Requires backend evidence that authentication succeeded or failed.
    ///
    /// # Errors
    ///
    /// Returns the live connection and message for an illegal response.
    pub fn offer(self, message: BackendMessage) -> (result: Result<
        AuthCompletion<S>,
        (Self, BackendMessage),
    >)
        ensures
            match message {
                BackendMessage::Authentication(Authentication::Accepted) => result matches Ok(
                    AuthCompletion::Accepted(conn),
                ) && conn.held() == self.held(),
                BackendMessage::ErrorResponse(diagnostic) => result matches Ok(
                    AuthCompletion::Error { conn, error },
                ) && conn.held() == self.held() && error == diagnostic,
                _ => result matches Err((conn, returned)) && conn.held() == self.held() && returned
                    == message,
            },
    {
        match message {
            BackendMessage::Authentication(Authentication::Accepted) => Ok(
                AuthCompletion::Accepted(self.transition()),
            ),
            BackendMessage::ErrorResponse(error) => Ok(
                AuthCompletion::Error { conn: self.transition(), error },
            ),
            message => Err((self, message)),
        }
    }
}

impl<S> Conn<S, AwaitingStartupReady, Pristine> {
    /// Completes startup only when presented with a projected `ReadyForQuery`.
    ///
    /// # Errors
    ///
    /// Returns the unchanged connection and item when it is not an idle
    /// `ReadyForQuery` with unchanged parameters.
    pub fn offer_ready(self, item: SessionItem) -> (result: Result<
        Conn<S, Ready>,
        (Self, SessionItem),
    >)
        ensures
            match result {
                Ok(conn) => conn.held() == self.held() && item == (SessionItem::ReadyForQuery {
                    status: TransactionStatus::Idle,
                    parameters_changed: false,
                }),
                Err((conn, returned)) => conn.held() == self.held() && returned == item && item != (
                SessionItem::ReadyForQuery {
                    status: TransactionStatus::Idle,
                    parameters_changed: false,
                }),
            },
    {
        match item {
            SessionItem::ReadyForQuery {
                status: TransactionStatus::Idle,
                parameters_changed: false,
            } => Ok(self.transition()),
            item => Err((self, item)),
        }
    }
}

fn sasl_initial<S>(conn: Conn<S, SaslInitial>, mechanism: &[u8], initial: &[u8]) -> (result: Result<
    (Conn<S, Sasl>, Frame),
    AuthError,
>)
    ensures
        selects(result, conn.held(), mechanism@, initial@),
{
    if initial.len() > 0x7fff_ffff {
        return Err(AuthError::ResponseTooLarge);
    }
    let mut body: Vec<u8> = Vec::new();
    append(&mut body, mechanism);
    body.push(0);
    write_u32(&mut body, initial.len() as u32);
    append(&mut body, initial);
    assert(body@ =~= initial_body(mechanism@, initial@));
    Ok((conn.transition(), Frame { tag: tags::PASSWORD, body: from_vec(body) }))
}

/// Which requests continue a mechanism, and so cannot come before one was selected.
pub proof fn law_continuations(authentication: Authentication)
    ensures
        continuation(authentication) <==> authentication is GssContinue
            || authentication is SaslContinue || authentication is SaslFinal,
{
}

/// A mechanism is selected by its name with a NUL octet, the length of the first
/// response in four octets, and the response.
pub proof fn law_selection_layout(mechanism: Seq<u8>, initial: Seq<u8>)
    requires
        initial.len() <= 0x7fff_ffff,
    ensures
        ({
            let body = initial_body(mechanism, initial);
            let at = mechanism.len() as int + 1;
            &&& body.len() == at + 4 + initial.len()
            &&& body.take(at - 1) == mechanism
            &&& body[at - 1] == 0
            &&& number(body.subrange(at, at + 4)) == initial.len()
            &&& body.skip(at + 4) == initial
        }),
{
    let body = initial_body(mechanism, initial);
    let at = mechanism.len() as int + 1;
    law_network_order(0, initial.len() as u32, 0, seq![]);
    assert(body.take(at - 1) =~= mechanism);
    assert(body.subrange(at, at + 4) =~= be32(initial.len() as u32));
    assert(body.skip(at + 4) =~= initial);
}

/// A selection is sent as a password message, unless the response is too long for its
/// length.
pub proof fn law_selection_is_sent<S>(
    result: Result<(Conn<S, Sasl>, Frame), AuthError>,
    held: S,
    mechanism: Seq<u8>,
    initial: Seq<u8>,
)
    requires
        selects(result, held, mechanism, initial),
    ensures
        result is Ok <==> initial.len() <= 0x7fff_ffff,
        result matches Ok((conn, frame)) ==> frame.tag == 0x70 && conn.held() == held,
        result matches Err(error) ==> error == AuthError::ResponseTooLarge,
{
}

/// Authentication follows the frontend's grammar: what it knows in a phase leads where
/// it says, and any other message is handed back.
pub proof fn law_authentication_follows_the_grammar<S>(
    choosing: (
        Conn<S, Auth>,
        Result<AuthEvent<S>, (Conn<S, Auth>, BackendMessage, Option<AuthError>)>,
    ),
    sasl: (Conn<S, Sasl>, Result<SaslEvent<S>, (Conn<S, Sasl>, BackendMessage)>),
    token: (
        Conn<S, TokenChallenge>,
        Result<TokenAuthEvent<S>, (Conn<S, TokenChallenge>, BackendMessage)>,
    ),
    waiting: (
        Conn<S, AwaitingAuthOk>,
        Result<AuthCompletion<S>, (Conn<S, AwaitingAuthOk>, BackendMessage)>,
    ),
    message: BackendMessage,
)
    requires
        call_ensures(Conn::<S, Auth, Pristine>::offer_backend, (choosing.0, message), choosing.1),
        call_ensures(Conn::<S, Sasl, Pristine>::offer_backend, (sasl.0, message), sasl.1),
        call_ensures(Conn::<S, TokenChallenge, Pristine>::offer, (token.0, message), token.1),
        call_ensures(Conn::<S, AwaitingAuthOk, Pristine>::offer, (waiting.0, message), waiting.1),
    ensures
        challenge_received(authentication::RuntimeState::Auth, message@) == match choosing.1 {
            Ok(AuthEvent::Authentication(AuthOffer::Accepted(_))) => Some(
                authentication::RuntimeState::AwaitingStartupReady,
            ),
            Ok(AuthEvent::Authentication(AuthOffer::Cleartext(_)))
            | Ok(AuthEvent::Authentication(AuthOffer::Md5 { .. })) => Some(
                authentication::RuntimeState::PasswordResponse,
            ),
            Ok(AuthEvent::Authentication(AuthOffer::Sasl { .. })) => Some(
                authentication::RuntimeState::SaslInitial,
            ),
            Ok(AuthEvent::Authentication(_)) => Some(authentication::RuntimeState::TokenResponse),
            Ok(AuthEvent::Negotiate { .. }) => Some(authentication::RuntimeState::Auth),
            Ok(AuthEvent::Error { .. }) => Some(authentication::RuntimeState::Terminated),
            Err(_) => None,
        },
        challenge_received(authentication::RuntimeState::Sasl, message@) == match sasl.1 {
            Ok(SaslEvent::Continue { .. }) => Some(authentication::RuntimeState::SaslChallenge),
            Ok(SaslEvent::Final { .. }) => Some(authentication::RuntimeState::SaslFinal),
            Ok(SaslEvent::Error { .. }) => Some(authentication::RuntimeState::Terminated),
            Err(_) => None,
        },
        challenge_received(authentication::RuntimeState::TokenChallenge, message@) == match token.1 {
            Ok(TokenAuthEvent::Continue { .. }) => Some(authentication::RuntimeState::TokenResponse),
            Ok(TokenAuthEvent::Accepted(_)) => Some(
                authentication::RuntimeState::AwaitingStartupReady,
            ),
            Ok(TokenAuthEvent::Error { .. }) => Some(authentication::RuntimeState::Terminated),
            Err(_) => None,
        },
        challenge_received(authentication::RuntimeState::AwaitingAuthOk, message@) == match waiting.1 {
            Ok(AuthCompletion::Accepted(_)) => Some(
                authentication::RuntimeState::AwaitingStartupReady,
            ),
            Ok(AuthCompletion::Error { .. }) => Some(authentication::RuntimeState::Terminated),
            Err(_) => None,
        },
        choosing.1 matches Err((_, returned, error)) ==> returned == message && (error is Some <==> (
        message matches BackendMessage::Authentication(request) && continuation(request))),
{
}

/// Credentials go out as password messages: a password with a NUL octet, if it holds
/// none, and a token or a SASL response as it is.
pub proof fn law_credentials_are_sent<S>(
    asked: Conn<S, PasswordResponse>,
    password: (&[u8], Result<(Conn<S, AwaitingAuthOk>, Frame), AuthError>),
    challenged: Conn<S, SaslChallenge>,
    response: (Bytes, (Conn<S, Sasl>, Frame)),
    prompted: Conn<S, TokenResponse>,
    token: (Bytes, (Conn<S, TokenChallenge>, Frame)),
)
    requires
        call_ensures(
            Conn::<S, PasswordResponse, Pristine>::password,
            (asked, password.0),
            password.1,
        ),
        call_ensures(
            Conn::<S, SaslChallenge, Pristine>::respond,
            (challenged, response.0),
            response.1,
        ),
        call_ensures(Conn::<S, TokenResponse, Pristine>::respond, (prompted, token.0), token.1),
    ensures
        password.1 is Ok <==> !password.0@.contains(0),
        password.1 matches Ok((next, frame)) ==> next.held() == asked.held() && frame.tag == 0x70u8
            && octets(frame.body) == password.0@ + seq![0u8],
        password.1 matches Err(error) ==> error == AuthError::NulInPassword,
        response.1.0.held() == challenged.held(),
        response.1.1.tag == 0x70u8 && octets(response.1.1.body) == octets(response.0),
        token.1.0.held() == prompted.held(),
        token.1.1.tag == 0x70u8 && octets(token.1.1.body) == octets(token.0),
{
    assert(password.0@.push(0) =~= password.0@ + seq![0u8]);
}

/// The two named mechanisms are selected by their names.
pub proof fn law_named_mechanisms<S>(
    conn: Conn<S, SaslInitial>,
    initial: &[u8],
    result: Result<(Conn<S, Sasl>, Frame), AuthError>,
)
    requires
        call_ensures(Conn::<S, SaslInitial, Pristine>::scram_sha_256, (conn, initial), result),
    ensures
        result is Ok <==> initial@.len() <= 0x7fff_ffff,
        result matches Ok((next, frame)) ==> next.held() == conn.held() && frame.tag == 0x70u8
            && octets(frame.body) == initial_body(encode_utf8("SCRAM-SHA-256"@), initial@),
{
}

/// Startup is complete on an idle readiness with unchanged parameters, and on nothing
/// else.
pub proof fn law_startup_readiness<S>(
    conn: Conn<S, AwaitingStartupReady>,
    item: SessionItem,
    result: Result<Conn<S, Ready>, (Conn<S, AwaitingStartupReady>, SessionItem)>,
)
    requires
        call_ensures(Conn::<S, AwaitingStartupReady, Pristine>::offer_ready, (conn, item), result),
    ensures
        result is Ok <==> (item matches SessionItem::ReadyForQuery { status, parameters_changed }
            && status == TransactionStatus::Idle && !parameters_changed),
        result matches Ok(ready) ==> ready.held() == conn.held(),
        result matches Err((same, returned)) ==> same.held() == conn.held() && returned == item,
{
}

} // verus!
