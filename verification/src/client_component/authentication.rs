//! Authentication policy of a client: challenges, responses, and static credentials.

use bytes::Bytes;
use postgres_protocol::authentication::sasl::ScramSha256;
use vstd::prelude::*;
use vstd::utf8::*;

use crate::codec::FrontendMessage;
use crate::credentials::md5_response;
use crate::crypto::md5_text;
use crate::lists::texts;
use crate::octet_map::same;
use crate::octets::{as_slice, copy_from_slice, from_vec, octets};
use crate::sasl_client::{
    answerable, answers, begin_scram, begins, confirms, continue_scram, finish_scram, scram_stage,
    ScramStage,
};
use crate::scram::SCRAM_SHA_256;

verus! {

/// Explicit client authentication policy which accepts only `AuthenticationOk`.
#[derive(Clone, Copy, PartialEq, Eq, Structural)]
pub struct TrustClientAuthentication;

impl Default for TrustClientAuthentication {
    fn default() -> (policy: Self)
        ensures
            policy == TrustClientAuthentication,
    {
        TrustClientAuthentication
    }
}

impl TrustClientAuthentication {
    /// The response to any challenge: the server is taken as verified, which fits no
    /// challenge that wants a credential.
    pub fn respond(&self, _challenge: ClientAuthenticationChallenge) -> (response:
        ClientAuthenticationResponse)
        ensures
            response == ClientAuthenticationResponse::Verified,
    {
        ClientAuthenticationResponse::Verified
    }
}

/// An authentication request offered by a PostgreSQL server.
#[derive(Clone, Debug, PartialEq, Eq)]
#[non_exhaustive]
pub enum ClientAuthenticationChallenge {
    /// The server requested a cleartext password response.
    CleartextPassword,
    /// The server requested a PostgreSQL MD5 password response.
    Md5Password([u8; 4]),
    /// The server offered SASL mechanisms.
    Sasl(Vec<Bytes>),
    /// The server supplied another SASL challenge.
    SaslContinue(Bytes),
    /// The server supplied the SASL verifier.
    SaslFinal(Bytes),
    /// The server requested an opaque GSS token.
    Gss,
    /// The server requested an opaque SSPI token.
    Sspi,
    /// The server requested Kerberos V5 authentication.
    KerberosV5,
    /// The server supplied another opaque token challenge.
    TokenContinue(Bytes),
}

/// An application authentication policy's wire response.
#[derive(Clone, Debug, PartialEq, Eq)]
#[non_exhaustive]
pub enum ClientAuthenticationResponse {
    /// Send a cleartext or precomputed MD5 password.
    Password(Bytes),
    /// Begin SASL using the named mechanism and initial response.
    SaslInitial {
        /// Selected SASL mechanism name.
        mechanism: Bytes,
        /// Mechanism-specific initial response.
        response: Bytes,
    },
    /// Continue a SASL exchange.
    Sasl(Bytes),
    /// Send an opaque GSS, SSPI, or Kerberos token.
    Token(Bytes),
    /// Accept a verified SASL final message without sending another frame.
    Verified,
}

/// Failure while running an application authentication policy.
#[derive(Debug)]
pub enum ClientAuthenticationError<PolicyError> {
    /// Application policy creation or evaluation failed.
    Policy(PolicyError),
    /// The PostgreSQL server rejected authentication.
    Rejected,
    /// The policy returned a response illegal for the active challenge.
    InvalidResponse,
}

/// Failure while an authentication exchange is driven.
#[derive(Debug)]
pub enum AuthenticationDriveError<PolicyError, ProtocolFailure> {
    Policy(PolicyError),
    Rejected,
    InvalidResponse,
    Protocol(ProtocolFailure),
}

/// Failure while a session is established.
#[derive(Debug)]
pub enum SessionEstablishError<PolicyError, ProtocolFailure> {
    Authentication(ClientAuthenticationError<PolicyError>),
    Protocol(ProtocolFailure),
}

/// Failure while establishing a client-role connection.
pub enum ConnectError<ConnectorError, TlsError, AuthenticationError, ProtocolFailure> {
    /// The application-supplied connector failed.
    Connector(ConnectorError),
    /// The reloadable TLS provider or handshake failed.
    Tls(TlsError),
    /// The application authentication policy failed.
    Authentication(AuthenticationError),
    /// Structured startup values were invalid before network establishment.
    Startup(super::target::StartupParameterError),
    /// PostgreSQL framing, startup, authentication, or readiness failed.
    Protocol(ProtocolFailure),
}

/// Failure while sending a one-shot PostgreSQL cancellation packet.
#[derive(Debug)]
pub enum CancelError<ConnectorError, ProtocolFailure> {
    /// The configured connector could not open the cancellation transport.
    Connector(ConnectorError),
    /// The key could not be encoded or the raw packet could not be written.
    Protocol(ProtocolFailure),
}

/// Attributes a failure of an authentication exchange.
pub fn session_authentication_error<PolicyError, ProtocolFailure>(
    error: AuthenticationDriveError<PolicyError, ProtocolFailure>,
) -> (result: SessionEstablishError<PolicyError, ProtocolFailure>)
    ensures
        match error {
            AuthenticationDriveError::Policy(error) => result
                == SessionEstablishError::<PolicyError, ProtocolFailure>::Authentication(
                ClientAuthenticationError::Policy(error),
            ),
            AuthenticationDriveError::Rejected => result
                == SessionEstablishError::<PolicyError, ProtocolFailure>::Authentication(
                ClientAuthenticationError::Rejected,
            ),
            AuthenticationDriveError::InvalidResponse => result
                == SessionEstablishError::<PolicyError, ProtocolFailure>::Authentication(
                ClientAuthenticationError::InvalidResponse,
            ),
            AuthenticationDriveError::Protocol(error) => result
                == SessionEstablishError::<PolicyError, ProtocolFailure>::Protocol(error),
        },
{
    match error {
        AuthenticationDriveError::Policy(error) => SessionEstablishError::Authentication(
            ClientAuthenticationError::Policy(error),
        ),
        AuthenticationDriveError::Rejected => SessionEstablishError::Authentication(
            ClientAuthenticationError::Rejected,
        ),
        AuthenticationDriveError::InvalidResponse => SessionEstablishError::Authentication(
            ClientAuthenticationError::InvalidResponse,
        ),
        AuthenticationDriveError::Protocol(error) => SessionEstablishError::Protocol(error),
    }
}

/// Attributes a failure of session establishment.
pub fn map_session_error<ConnectorError, TlsError, PolicyError, ProtocolFailure>(
    error: SessionEstablishError<PolicyError, ProtocolFailure>,
) -> (result: ConnectError<
    ConnectorError,
    TlsError,
    ClientAuthenticationError<PolicyError>,
    ProtocolFailure,
>)
    ensures
        match error {
            SessionEstablishError::Authentication(error) => result == ConnectError::<
                ConnectorError,
                TlsError,
                ClientAuthenticationError<PolicyError>,
                ProtocolFailure,
            >::Authentication(error),
            SessionEstablishError::Protocol(error) => result == ConnectError::<
                ConnectorError,
                TlsError,
                ClientAuthenticationError<PolicyError>,
                ProtocolFailure,
            >::Protocol(error),
        },
{
    match error {
        SessionEstablishError::Authentication(error) => ConnectError::Authentication(error),
        SessionEstablishError::Protocol(error) => ConnectError::Protocol(error),
    }
}

/// The response that middleware left to be sent, provided that it is still a
/// password response.
pub fn intercepted_response(message: FrontendMessage) -> (response: Option<Bytes>)
    ensures
        match message {
            FrontendMessage::PasswordResponse(octets) => response == Some(octets),
            _ => response is None,
        },
{
    match message {
        FrontendMessage::PasswordResponse(response) => Some(response),
        _ => None,
    }
}

/// Username and password authentication for PostgreSQL server challenges.
#[derive(Clone, Debug, PartialEq, Eq)]
pub struct StaticClientCredentials {
    username: Bytes,
    password: Bytes,
}

/// What a credential exchange knows, and where SCRAM stands if it has begun.
#[verifier::ext_equal]
pub struct CredentialView {
    pub username: Seq<u8>,
    pub password: Seq<u8>,
    pub scram: Option<ScramStage>,
}

impl StaticClientCredentials {
    /// The username and the password.
    pub closed spec fn parts(self) -> (Seq<u8>, Seq<u8>) {
        (octets(self.username), octets(self.password))
    }

    /// Creates credentials reused by each connection attempt.
    #[must_use]
    pub fn new(username: Bytes, password: Bytes) -> (credentials: Self)
        ensures
            credentials.parts() == (octets(username), octets(password)),
    {
        StaticClientCredentials { username, password }
    }

    /// Begins the exchange of one connection attempt.
    pub fn begin(&self) -> (session: StaticClientCredentialSession)
        ensures
            session@ == (CredentialView {
                username: self.parts().0,
                password: self.parts().1,
                scram: None,
            }),
    {
        StaticClientCredentialSession {
            username: self.username.clone(),
            password: self.password.clone(),
            scram: None,
        }
    }
}

/// Per-connection static credential exchange.
pub struct StaticClientCredentialSession {
    username: Bytes,
    password: Bytes,
    scram: Option<ScramSha256>,
}

impl View for StaticClientCredentialSession {
    type V = CredentialView;

    closed spec fn view(&self) -> CredentialView {
        CredentialView {
            username: octets(self.username),
            password: octets(self.password),
            scram: match self.scram {
                Some(exchange) => Some(scram_stage(exchange)),
                None => None,
            },
        }
    }
}

/// Failure while answering a static credential challenge.
#[derive(Debug)]
pub enum StaticCredentialError {
    /// The server requested an authentication mechanism this adapter does not support.
    UnsupportedAuthentication,
    /// The server sent a challenge out of sequence.
    InvalidChallengeSequence,
    /// A SCRAM message was invalid or failed verification.
    Scram(std::io::Error),
    /// The supplied password did not match.
    AuthenticationFailed,
}

/// Whether plain SCRAM is among the offered mechanisms.
pub open spec fn offers_scram(mechanisms: Seq<Bytes>) -> bool {
    texts(mechanisms).contains(encode_utf8(SCRAM_SHA_256@))
}

/// Whether `result` answers a challenge, and `after` is the exchange then.
pub open spec fn responds(
    before: CredentialView,
    challenge: ClientAuthenticationChallenge,
    result: Result<ClientAuthenticationResponse, StaticCredentialError>,
    after: CredentialView,
) -> bool {
    match challenge {
        ClientAuthenticationChallenge::CleartextPassword => {
            &&& after == before
            &&& result matches Ok(ClientAuthenticationResponse::Password(password))
            &&& octets(password) == before.password
        },
        ClientAuthenticationChallenge::Md5Password(salt) => {
            &&& after == before
            &&& result matches Ok(ClientAuthenticationResponse::Password(password))
            &&& octets(password) == encode_utf8(
                md5_text(before.username, before.password, salt@),
            )
        },
        ClientAuthenticationChallenge::Sasl(mechanisms) => if offers_scram(mechanisms@) {
            &&& after.scram matches Some(stage)
            &&& after == (CredentialView { scram: after.scram, ..before })
            &&& result matches Ok(ClientAuthenticationResponse::SaslInitial { mechanism, response })
            &&& octets(mechanism) == encode_utf8(SCRAM_SHA_256@)
            &&& begins(before.password, octets(response), stage)
        } else {
            after == before && result matches Err(StaticCredentialError::UnsupportedAuthentication)
        },
        ClientAuthenticationChallenge::SaslContinue(message) => match before.scram {
            None => after == before && result matches Err(
                StaticCredentialError::InvalidChallengeSequence,
            ),
            Some(stage) => {
                &&& after.scram matches Some(next)
                &&& after == (CredentialView { scram: after.scram, ..before })
                &&& if answerable(stage, octets(message)) {
                    result matches Ok(ClientAuthenticationResponse::Sasl(response)) && answers(
                        stage,
                        octets(message),
                        octets(response),
                        next,
                    )
                } else {
                    result matches Err(StaticCredentialError::Scram(_)) && next
                        == ScramStage::Spent
                }
            },
        },
        ClientAuthenticationChallenge::SaslFinal(message) => match before.scram {
            None => after == before && result matches Err(
                StaticCredentialError::InvalidChallengeSequence,
            ),
            Some(stage) => {
                &&& after == (CredentialView { scram: Some(ScramStage::Spent), ..before })
                &&& if confirms(stage, octets(message)) {
                    result matches Ok(ClientAuthenticationResponse::Verified)
                } else {
                    result matches Err(StaticCredentialError::Scram(_))
                }
            },
        },
        _ => after == before && result matches Err(
            StaticCredentialError::UnsupportedAuthentication,
        ),
    }
}

#[verifier::loop_isolation(false)]
fn has_scram(mechanisms: &Vec<Bytes>) -> (found: bool)
    ensures
        found == offers_scram(mechanisms@),
{
    let mut at: usize = 0;
    while at < mechanisms.len()
        invariant
            at <= mechanisms@.len(),
            forall|before: int|
                0 <= before < at ==> (#[trigger] texts(mechanisms@)[before]) != encode_utf8(
                    SCRAM_SHA_256@,
                ),
        decreases mechanisms@.len() - at,
    {
        if same(as_slice(&mechanisms[at]), SCRAM_SHA_256.as_bytes()) {
            assert(texts(mechanisms@)[at as int] == encode_utf8(SCRAM_SHA_256@));
            return true;
        }
        at = at + 1;
    }
    false
}

impl StaticClientCredentialSession {
    /// Answers one server authentication challenge.
    ///
    /// # Errors
    ///
    /// Reports an unsupported mechanism, a challenge out of sequence, or a failed
    /// SCRAM step.
    pub fn respond(&mut self, challenge: ClientAuthenticationChallenge) -> (result: Result<
        ClientAuthenticationResponse,
        StaticCredentialError,
    >)
        ensures
            responds(old(self)@, challenge, result, final(self)@),
    {
        match challenge {
            ClientAuthenticationChallenge::CleartextPassword => Ok(
                ClientAuthenticationResponse::Password(self.password.clone()),
            ),
            ClientAuthenticationChallenge::Md5Password(salt) => {
                let response = md5_response(
                    as_slice(&self.username),
                    as_slice(&self.password),
                    salt,
                );
                Ok(
                    ClientAuthenticationResponse::Password(
                        copy_from_slice(response.as_str().as_bytes()),
                    ),
                )
            },
            ClientAuthenticationChallenge::Sasl(mechanisms) => {
                if !has_scram(&mechanisms) {
                    return Err(StaticCredentialError::UnsupportedAuthentication);
                }
                let (scram, message) = begin_scram(as_slice(&self.password));
                self.scram = Some(scram);
                Ok(
                    ClientAuthenticationResponse::SaslInitial {
                        mechanism: copy_from_slice(SCRAM_SHA_256.as_bytes()),
                        response: from_vec(message),
                    },
                )
            },
            ClientAuthenticationChallenge::SaslContinue(message) => {
                let mut scram: Option<ScramSha256> = None;
                std::mem::swap(&mut scram, &mut self.scram);
                match scram {
                    None => Err(StaticCredentialError::InvalidChallengeSequence),
                    Some(mut exchange) => {
                        let outcome = continue_scram(&mut exchange, as_slice(&message));
                        self.scram = Some(exchange);
                        match outcome {
                            Ok(reply) => Ok(ClientAuthenticationResponse::Sasl(from_vec(reply))),
                            Err(error) => Err(StaticCredentialError::Scram(error)),
                        }
                    },
                }
            },
            ClientAuthenticationChallenge::SaslFinal(message) => {
                let mut scram: Option<ScramSha256> = None;
                std::mem::swap(&mut scram, &mut self.scram);
                match scram {
                    None => Err(StaticCredentialError::InvalidChallengeSequence),
                    Some(mut exchange) => {
                        let outcome = finish_scram(&mut exchange, as_slice(&message));
                        self.scram = Some(exchange);
                        match outcome {
                            Ok(_) => Ok(ClientAuthenticationResponse::Verified),
                            Err(error) => Err(StaticCredentialError::Scram(error)),
                        }
                    },
                }
            },
            _ => Err(StaticCredentialError::UnsupportedAuthentication),
        }
    }
}

/// How static credentials answer: a request for a password with the password, one with a
/// salt with the hash, an offer of mechanisms with the plain SCRAM variant or not at all,
/// and a SASL message only after that. Other methods are not supported, and only a
/// confirmed verifier counts as verified.
pub proof fn law_static_answers(
    before: CredentialView,
    challenge: ClientAuthenticationChallenge,
    result: Result<ClientAuthenticationResponse, StaticCredentialError>,
    after: CredentialView,
)
    requires
        responds(before, challenge, result, after),
    ensures
        after.username == before.username,
        after.password == before.password,
        challenge is CleartextPassword ==> (result matches Ok(
            ClientAuthenticationResponse::Password(password),
        ) && octets(password) == before.password),
        challenge matches ClientAuthenticationChallenge::Md5Password(salt) ==> (result matches Ok(
            ClientAuthenticationResponse::Password(password),
        ) && octets(password) == encode_utf8(md5_text(before.username, before.password, salt@))),
        challenge matches ClientAuthenticationChallenge::Sasl(mechanisms) ==> (result is Ok
            <==> texts(mechanisms@).contains(encode_utf8("SCRAM-SHA-256"@))),
        challenge is Gss || challenge is Sspi || challenge is KerberosV5
            || challenge is TokenContinue ==> after == before && (result matches Err(
            StaticCredentialError::UnsupportedAuthentication,
        )),
        (challenge is SaslContinue || challenge is SaslFinal) && before.scram is None ==> after
            == before && (result matches Err(StaticCredentialError::InvalidChallengeSequence)),
        result matches Ok(ClientAuthenticationResponse::Verified) ==> (challenge
            matches ClientAuthenticationChallenge::SaslFinal(message) && before.scram is Some
            && confirms(before.scram->0, octets(message))),
{
}

} // verus!
