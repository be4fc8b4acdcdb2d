//! TLS policy and negotiation decisions of a client connection.

use bytes::Bytes;
use vstd::prelude::*;

use crate::error::ErrorKind;
use crate::octets::octets;
use crate::pre_startup::{
    request_octets, EncryptionReply, PreStartupMessage, SslMode, SSL_REQUEST_CODE,
};

verus! {

/// Explicit libpq-compatible TLS policy and its reloadable configuration provider.
#[derive(Clone, Copy, Debug, PartialEq, Eq, Structural)]
pub enum ClientTlsPolicy {
    /// Intentionally use plaintext transport.
    Disabled,
}

/// A libpq-compatible policy backed by application-owned reloadable TLS material.
/// It has no debug representation, so that the material cannot end up in a log.
pub struct ReloadableClientTls<Provider> {
    mode: SslMode,
    provider: Provider,
}

impl<Provider> ReloadableClientTls<Provider> {
    /// The mode and the provider.
    pub closed spec fn parts(self) -> (SslMode, Provider) {
        (self.mode, self.provider)
    }
}

impl<Provider: Clone> Clone for ReloadableClientTls<Provider> {
    fn clone(&self) -> (copy: Self)
        ensures
            copy.parts().0 == self.parts().0,
            cloned(self.parts().1, copy.parts().1),
    {
        ReloadableClientTls { mode: self.mode, provider: self.provider.clone() }
    }
}

impl ClientTlsPolicy {
    /// Configures a libpq-compatible SSL mode and reloadable provider.
    #[must_use]
    pub fn libpq<Provider>(mode: SslMode, provider: Provider) -> (policy: ReloadableClientTls<
        Provider,
    >)
        ensures
            policy.parts() == (mode, provider),
    {
        ReloadableClientTls { mode, provider }
    }
}

/// Internal shape shared by disabled and reloadable TLS policies.
pub trait ClientTlsConfiguration {
    /// Reloadable provider type.
    type Provider;

    /// The libpq mode and provider, or `None` for explicit plaintext.
    spec fn configuration(&self) -> Option<(SslMode, Self::Provider)>;

    /// Returns the libpq mode and provider, or `None` for explicit plaintext.
    fn configured(&self) -> (configured: Option<(SslMode, &Self::Provider)>)
        ensures
            match configured {
                Some((mode, provider)) => self.configuration() == Some((mode, *provider)),
                None => self.configuration() is None,
            },
    ;
}

impl ClientTlsConfiguration for ClientTlsPolicy {
    type Provider = ();

    open spec fn configuration(&self) -> Option<(SslMode, ())> {
        None
    }

    fn configured(&self) -> (configured: Option<(SslMode, &())>) {
        None
    }
}

impl<P> ClientTlsConfiguration for ReloadableClientTls<P> {
    type Provider = P;

    open spec fn configuration(&self) -> Option<(SslMode, P)> {
        Some(self.parts())
    }

    fn configured(&self) -> (configured: Option<(SslMode, &P)>) {
        Some((self.mode, &self.provider))
    }
}

/// Failure while resolving or establishing client TLS.
#[derive(Debug)]
pub enum ClientTlsError<ProviderError, HandshakeError> {
    /// The application-owned reloadable provider failed.
    Provider(ProviderError),
    /// PostgreSQL negotiation or the TLS handshake failed.
    Handshake(HandshakeError),
}

/// Transport selected by libpq-compatible negotiation.
#[derive(Debug)]
pub enum ClientTransport<Transport, Tls> {
    /// Unencrypted PostgreSQL transport.
    Plain(Transport),
    /// TLS-protected PostgreSQL transport.
    Tls(Box<Tls>),
}

/// Progressively discovered transport security for a client connection.
#[derive(Clone, Copy, Debug, PartialEq, Eq, Structural)]
pub enum ClientTlsStatus {
    /// The connection uses explicitly selected plaintext.
    Plaintext,
    /// The connection is protected by TLS.
    Encrypted,
}

impl<Transport, Tls> ClientTransport<Transport, Tls> {
    /// Security of the selected transport.
    pub fn status(&self) -> (status: ClientTlsStatus)
        ensures
            status == match self {
                ClientTransport::Plain(_) => ClientTlsStatus::Plaintext,
                ClientTransport::Tls(_) => ClientTlsStatus::Encrypted,
            },
    {
        match self {
            ClientTransport::Plain(_) => ClientTlsStatus::Plaintext,
            ClientTransport::Tls(_) => ClientTlsStatus::Encrypted,
        }
    }
}

/// Why TLS negotiation cannot go on.
#[derive(Clone, Copy, Debug, PartialEq, Eq, Structural)]
pub enum TlsFault {
    /// Middleware replaced the SSL request with an incompatible packet.
    IncompatibleRequest,
    /// The server rejected TLS that the mode requires.
    RequiredRejected,
    /// The server terminated negotiation.
    Terminated,
    /// The reply is none that the protocol knows.
    InvalidReply,
}

impl TlsFault {
    /// Description of the fault.
    pub fn message(&self) -> (message: &'static str)
        ensures
            message@ == match *self {
                TlsFault::IncompatibleRequest =>
                    "middleware replaced SSLRequest with an incompatible packet"@,
                TlsFault::RequiredRejected => "server rejected required TLS"@,
                TlsFault::Terminated => "server terminated TLS negotiation"@,
                TlsFault::InvalidReply => "invalid TLS negotiation response"@,
            },
    {
        match *self {
            TlsFault::IncompatibleRequest =>
                "middleware replaced SSLRequest with an incompatible packet",
            TlsFault::RequiredRejected => "server rejected required TLS",
            TlsFault::Terminated => "server terminated TLS negotiation",
            TlsFault::InvalidReply => "invalid TLS negotiation response",
        }
    }

    /// Class of the fault.
    pub fn kind(&self) -> (kind: ErrorKind)
        ensures
            kind == match *self {
                TlsFault::RequiredRejected => ErrorKind::PermissionDenied,
                TlsFault::Terminated => ErrorKind::ConnectionAborted,
                TlsFault::IncompatibleRequest | TlsFault::InvalidReply => ErrorKind::InvalidData,
            },
    {
        match *self {
            TlsFault::RequiredRejected => ErrorKind::PermissionDenied,
            TlsFault::Terminated => ErrorKind::ConnectionAborted,
            TlsFault::IncompatibleRequest | TlsFault::InvalidReply => ErrorKind::InvalidData,
        }
    }
}

/// How a connection attempt proceeds with respect to TLS.
#[derive(Clone, Copy, Debug, PartialEq, Eq, Structural)]
pub enum TlsStep {
    /// Go on without encryption.
    Plaintext,
    /// Send an SSL request and await the reply.
    Request,
    /// Perform the TLS handshake.
    Handshake,
}

/// First step of an attempt in a mode.
pub open spec fn first_step(mode: SslMode) -> TlsStep {
    if mode.strategy_spec().request_on_first_connection {
        TlsStep::Request
    } else {
        TlsStep::Plaintext
    }
}

/// Step after the server's reply.
pub open spec fn reply_step(mode: SslMode, octet: u8) -> Result<TlsStep, TlsFault> {
    if octet == EncryptionReply::Accepted.octet() {
        Ok(TlsStep::Handshake)
    } else if octet == EncryptionReply::Rejected.octet() {
        if mode.strategy_spec().allow_server_rejection {
            Ok(TlsStep::Plaintext)
        } else {
            Err(TlsFault::RequiredRejected)
        }
    } else if octet == EncryptionReply::LegacyError.octet() {
        Err(TlsFault::Terminated)
    } else {
        Err(TlsFault::InvalidReply)
    }
}

/// Mode of a second attempt after the session of the first one was not established.
pub open spec fn retry_mode(configured: Option<SslMode>, failed: bool) -> Option<SslMode> {
    if failed && configured == Some(SslMode::Allow) {
        Some(SslMode::Require)
    } else {
        None
    }
}

/// Decides how an attempt begins.
pub fn begin_negotiation(mode: SslMode) -> (step: TlsStep)
    ensures
        step == first_step(mode),
{
    if mode.strategy().request_on_first_connection {
        TlsStep::Request
    } else {
        TlsStep::Plaintext
    }
}

/// The packet to send, provided that middleware left the request an SSL request.
///
/// # Errors
///
/// Rejects any other message.
pub fn negotiation_packet(request: PreStartupMessage) -> (result: Result<Bytes, TlsFault>)
    ensures
        match result {
            Ok(packet) => request is SslRequest && octets(packet) == request_octets(
                SSL_REQUEST_CODE,
            ),
            Err(fault) => !(request is SslRequest) && fault == TlsFault::IncompatibleRequest,
        },
{
    match request {
        PreStartupMessage::SslRequest => match request.to_packet() {
            Ok(packet) => Ok(packet),
            Err(_) => Err(TlsFault::IncompatibleRequest),
        },
        _ => Err(TlsFault::IncompatibleRequest),
    }
}

/// Decides on the server's reply to an SSL request.
///
/// # Errors
///
/// Reports a reply that the mode does not allow to go on with.
pub fn continue_negotiation(mode: SslMode, reply: u8) -> (result: Result<TlsStep, TlsFault>)
    ensures
        result == reply_step(mode, reply),
{
    match EncryptionReply::try_from_byte(reply) {
        Ok(EncryptionReply::Accepted) => Ok(TlsStep::Handshake),
        Ok(EncryptionReply::Rejected) => if mode.strategy().allow_server_rejection {
            Ok(TlsStep::Plaintext)
        } else {
            Err(TlsFault::RequiredRejected)
        },
        Ok(EncryptionReply::LegacyError) => Err(TlsFault::Terminated),
        Err(_) => {
            assert(EncryptionReply::Accepted.octet() != reply);
            assert(EncryptionReply::Rejected.octet() != reply);
            assert(EncryptionReply::LegacyError.octet() != reply);
            Err(TlsFault::InvalidReply)
        },
    }
}

/// Decides whether a failed session is tried again, and in which mode.
pub fn retry_after(configured: Option<SslMode>, failed: bool) -> (mode: Option<SslMode>)
    ensures
        mode == retry_mode(configured, failed),
{
    match configured {
        Some(SslMode::Allow) => if failed {
            Some(SslMode::Require)
        } else {
            None
        },
        _ => None,
    }
}

/// A mode that insists on TLS never goes on in plaintext, whatever the server
/// replies; every other mode does when the server rejects encryption.
pub proof fn law_required_tls_is_never_downgraded(mode: SslMode, reply: u8)
    ensures
        mode.insists() ==> first_step(mode) == TlsStep::Request,
        mode.insists() ==> reply_step(mode, reply) != Ok::<_, TlsFault>(TlsStep::Plaintext),
        !mode.insists() ==> reply_step(mode, EncryptionReply::Rejected.octet()) == Ok::<
            _,
            TlsFault,
        >(TlsStep::Plaintext),
{
}

/// Only `Allow` is tried a second time: it starts in plaintext, and the second
/// attempt insists on TLS.
pub proof fn law_only_allow_is_retried(configured: Option<SslMode>, failed: bool)
    ensures
        retry_mode(configured, failed) is Some <==> configured == Some(SslMode::Allow) && failed,
        retry_mode(configured, failed) matches Some(mode) ==> mode.insists() && first_step(
            SslMode::Allow,
        ) == TlsStep::Plaintext,
        configured matches Some(mode) ==> (retry_mode(configured, true) is Some
            <==> mode.strategy_spec().retry_with_ssl_after_plaintext_failure),
{
}

/// What a reply to an SSL request means: `S` starts the handshake in every mode, `N`
/// goes on in plaintext unless the mode insists on TLS, `E` ends the connection, and
/// any other octet is no reply.
pub proof fn law_replies_are_honoured(mode: SslMode, reply: u8)
    ensures
        mode.insists() <==> mode == SslMode::Require || mode == SslMode::VerifyCa || mode
            == SslMode::VerifyFull,
        reply == 0x53 <==> reply_step(mode, reply) == Ok::<_, TlsFault>(TlsStep::Handshake),
        reply == 0x4e && !mode.insists() <==> reply_step(mode, reply) == Ok::<_, TlsFault>(
            TlsStep::Plaintext,
        ),
        reply == 0x4e && mode.insists() <==> reply_step(mode, reply) == Err::<TlsStep, _>(
            TlsFault::RequiredRejected,
        ),
        reply == 0x45 <==> reply_step(mode, reply) == Err::<TlsStep, _>(TlsFault::Terminated),
        reply != 0x53 && reply != 0x4e && reply != 0x45 <==> reply_step(mode, reply) == Err::<
            TlsStep,
            _,
        >(TlsFault::InvalidReply),
{
}

/// An attempt begins with an SSL request unless the mode is `Disable` or `Allow`.
pub proof fn law_first_steps(mode: SslMode)
    ensures
        first_step(mode) == TlsStep::Plaintext <==> mode == SslMode::Disable || mode
            == SslMode::Allow,
        first_step(mode) == TlsStep::Request <==> mode != SslMode::Disable && mode
            != SslMode::Allow,
{
}

} // verus!
