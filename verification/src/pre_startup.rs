//! `PostgreSQL`'s untagged pre-startup protocol.
//!
//! These packets precede normal message framing. Encryption acceptance is a raw
//! byte, and a successful negotiation changes the connection's transport type.

use bytes::{Bytes, BytesMut};
use vstd::prelude::*;

use crate::codec::backend::key_length;
use crate::codec::layout::{law_network_order, number};
use crate::conn::{Conn, Pristine};
use crate::error::ProtocolError;
use crate::grammar::pre_startup as grammar;
use crate::grammar::server_pre_startup;
use crate::octet_map::text_list;
use crate::octets::{
    advance, as_slice, buffer_slice, buffer_split_to, buffered, freeze, from_vec, octets,
};
use crate::startup::{
    collected, law_startup_round_trip, startup_of, startup_packet, ProtocolVersion, StartupMessage,
    StartupView,
};
use crate::wire::{append, be32, lemma_be32, lemma_regroup, of32, u32_at, write_u32, Put};

verus! {

pub const SSL_REQUEST_CODE: u32 = 80_877_103;

pub const GSSENC_REQUEST_CODE: u32 = 80_877_104;

pub const CANCEL_REQUEST_CODE: u32 = 80_877_102;

/// `PostgreSQL`'s maximum accepted untagged startup packet size.
pub const DEFAULT_MAX_PRE_STARTUP_PACKET_LEN: usize = 10_000;

/// Connection awaits the client's first untagged startup-family packet.
#[derive(Debug)]
pub enum PreStartup {
    Index,
}

/// A decoded `StartupMessage` is ready for protocol validation.
#[derive(Debug)]
pub enum Startup {
    Index,
}

/// Client role awaits the server's raw SSL decision byte.
#[derive(Debug)]
pub enum AwaitingSslReply {
    Index,
}

/// Client role awaits the server's raw GSS encryption decision byte.
#[derive(Debug)]
pub enum AwaitingGssReply {
    Index,
}

/// SSL was accepted and the transport must complete a TLS handshake.
#[derive(Debug)]
pub enum TlsHandshake {
    Index,
}

/// GSS encryption was accepted and the transport must complete its handshake.
#[derive(Debug)]
pub enum GssHandshake {
    Index,
}

/// Pre-startup processing terminated without entering a normal session.
#[derive(Debug)]
pub enum Terminated {
    Index,
}

/// Server role must accept or reject a client's `SSLRequest`.
#[derive(Debug)]
pub enum ServerSslDecision {
    Index,
}

/// Server role must accept or reject a client's `GSSENCRequest`.
#[derive(Debug)]
pub enum ServerGssDecision {
    Index,
}

/// Server-role projection of the client's first-packet external choice.
#[derive(Debug)]
pub enum PreStartupOffer<S, C = Pristine> {
    /// Client requested TLS negotiation.
    Ssl(Conn<S, ServerSslDecision, C>),
    /// Client requested GSS encryption negotiation.
    Gss(Conn<S, ServerGssDecision, C>),
    /// Client sent an out-of-band cancellation request.
    Cancel {
        /// Terminal connection carrying the received transport.
        conn: Conn<S, Terminated, C>,
        /// Target backend process ID.
        process_id: u32,
        /// Target backend secret key.
        secret_key: Bytes,
    },
    /// Client supplied normal startup parameters.
    Startup {
        /// Connection ready for protocol validation and authentication.
        conn: Conn<S, Startup, C>,
        /// Decoded startup version and parameters.
        message: StartupMessage,
    },
}

/// The server's single-byte answer to an SSL request.
#[derive(Clone, Copy, Debug, PartialEq, Eq, Structural)]
pub enum EncryptionReply {
    /// Server sent `S` and requires an in-place encryption handshake.
    Accepted,
    /// Server sent `N` and declined encryption.
    Rejected,
    /// Historical server sent `E` and terminated the connection.
    LegacyError,
}

/// A raw encryption decision byte other than `S`, `N`, or legacy `E`.
#[derive(Clone, Copy, Debug, PartialEq, Eq, Structural)]
pub struct InvalidEncryptionReply(
    /// Invalid byte received from the server.
    pub u8,
);

/// The `S` octet.
pub const ACCEPTED: u8 = 0x53;

/// The `N` octet.
pub const REJECTED: u8 = 0x4e;

/// The `E` octet.
pub const LEGACY_ERROR: u8 = 0x45;

impl EncryptionReply {
    /// The reply's octet.
    pub open spec fn octet(self) -> u8 {
        match self {
            EncryptionReply::Accepted => ACCEPTED,
            EncryptionReply::Rejected => REJECTED,
            EncryptionReply::LegacyError => LEGACY_ERROR,
        }
    }

    /// Returns `PostgreSQL`'s raw one-byte wire representation.
    pub fn as_byte(self) -> (octet: u8)
        ensures
            octet == self.octet(),
    {
        match self {
            EncryptionReply::Accepted => ACCEPTED,
            EncryptionReply::Rejected => REJECTED,
            EncryptionReply::LegacyError => LEGACY_ERROR,
        }
    }

    /// The reply that a raw byte stands for.
    ///
    /// # Errors
    ///
    /// Returns any byte other than `S`, `N`, or legacy `E`.
    pub fn try_from_byte(value: u8) -> (result: Result<EncryptionReply, InvalidEncryptionReply>)
        ensures
            match result {
                Ok(reply) => reply.octet() == value,
                Err(invalid) => invalid.0 == value && forall|reply: EncryptionReply| #[trigger]
                    reply.octet() != value,
            },
    {
        match value {
            ACCEPTED => Ok(EncryptionReply::Accepted),
            REJECTED => Ok(EncryptionReply::Rejected),
            LEGACY_ERROR => Ok(EncryptionReply::LegacyError),
            byte => Err(InvalidEncryptionReply(byte)),
        }
    }
}

/// The external choice occupying a new connection's untagged first packet.
#[derive(Clone, Debug, PartialEq, Eq)]
pub enum PreStartupMessage {
    /// Raw SSL negotiation request code 80877103.
    SslRequest,
    /// Raw GSS encryption request code 80877104.
    GssEncRequest,
    /// Out-of-band cancellation packet.
    CancelRequest {
        /// Target backend process ID.
        process_id: u32,
        /// Target backend secret key.
        secret_key: Bytes,
    },
    /// Normal protocol startup packet.
    Startup(StartupMessage),
}

/// What a pre-startup message says.
#[verifier::ext_equal]
pub enum PreStartupView {
    SslRequest,
    GssEncRequest,
    CancelRequest { process_id: u32, secret_key: Seq<u8> },
    Startup(StartupView),
}

impl View for PreStartupMessage {
    type V = PreStartupView;

    open spec fn view(&self) -> PreStartupView {
        match self {
            PreStartupMessage::SslRequest => PreStartupView::SslRequest,
            PreStartupMessage::GssEncRequest => PreStartupView::GssEncRequest,
            PreStartupMessage::CancelRequest { process_id, secret_key } =>
                PreStartupView::CancelRequest {
                process_id: *process_id,
                secret_key: octets(*secret_key),
            },
            PreStartupMessage::Startup(message) => PreStartupView::Startup(message@),
        }
    }
}

/// A packet that is only its length and a code.
pub open spec fn request_octets(code: u32) -> Seq<u8> {
    be32(8) + be32(code)
}

/// A cancellation packet, for a key between 4 and 256 octets.
pub open spec fn cancel_octets(process_id: u32, secret_key: Seq<u8>) -> Put {
    if key_length(secret_key.len()) {
        Ok(
            be32((12 + secret_key.len()) as u32) + (be32(CANCEL_REQUEST_CODE) + (be32(process_id)
                + secret_key)),
        )
    } else {
        Err(ProtocolError::UnencodableKeyLength)
    }
}

/// Length of the first packet, once enough of it has arrived to be decoded.
pub open spec fn packet_length(source: Seq<u8>, limit: nat) -> Result<Option<nat>, ProtocolError> {
    if !(8 <= limit <= i32::MAX) {
        Err(ProtocolError::PreStartupLimit)
    } else if source.len() < 4 {
        Ok(None)
    } else if of32(source) < 8 {
        Err(ProtocolError::PreStartupTooShort)
    } else if of32(source) > i32::MAX {
        Err(ProtocolError::PreStartupLength)
    } else if of32(source) > limit {
        Err(ProtocolError::PreStartupTooLarge)
    } else if source.len() < of32(source) {
        Ok(None)
    } else {
        Ok(Some(of32(source) as nat))
    }
}

/// What a whole packet says.
pub open spec fn packet_message(packet: Seq<u8>) -> Result<PreStartupView, ProtocolError> {
    let code = of32(packet.skip(4));
    if code == SSL_REQUEST_CODE && packet.len() == 8 {
        Ok(PreStartupView::SslRequest)
    } else if code == GSSENC_REQUEST_CODE && packet.len() == 8 {
        Ok(PreStartupView::GssEncRequest)
    } else if code == CANCEL_REQUEST_CODE {
        if 16 <= packet.len() <= 268 {
            Ok(
                PreStartupView::CancelRequest {
                    process_id: of32(packet.skip(8)),
                    secret_key: packet.skip(12),
                },
            )
        } else {
            Err(ProtocolError::CancelLength)
        }
    } else {
        match startup_of(packet) {
            Ok((version, parameters)) => Ok(
                PreStartupView::Startup(
                    StartupView { version, parameters: collected(parameters) },
                ),
            ),
            Err(error) => Err(error),
        }
    }
}

/// Encryption requests are read back from their packets.
pub proof fn law_request_round_trip(limit: nat)
    requires
        8 <= limit <= i32::MAX,
    ensures
        packet_length(request_octets(SSL_REQUEST_CODE), limit) == Ok::<_, ProtocolError>(
            Some(8nat),
        ),
        packet_message(request_octets(SSL_REQUEST_CODE)) == Ok::<_, ProtocolError>(
            PreStartupView::SslRequest,
        ),
        packet_length(request_octets(GSSENC_REQUEST_CODE), limit) == Ok::<_, ProtocolError>(
            Some(8nat),
        ),
        packet_message(request_octets(GSSENC_REQUEST_CODE)) == Ok::<_, ProtocolError>(
            PreStartupView::GssEncRequest,
        ),
{
    let none = Seq::<u8>::empty();
    lemma_be32(8, be32(SSL_REQUEST_CODE));
    lemma_be32(8, be32(GSSENC_REQUEST_CODE));
    lemma_be32(SSL_REQUEST_CODE, none);
    lemma_be32(GSSENC_REQUEST_CODE, none);
    assert(be32(SSL_REQUEST_CODE) + none =~= be32(SSL_REQUEST_CODE));
    assert(be32(GSSENC_REQUEST_CODE) + none =~= be32(GSSENC_REQUEST_CODE));
}

/// A cancellation request is read back from its packet.
pub proof fn law_cancel_round_trip(process_id: u32, secret_key: Seq<u8>, limit: nat)
    requires
        key_length(secret_key.len()),
        12 + secret_key.len() <= limit <= i32::MAX,
    ensures
        packet_length(cancel_octets(process_id, secret_key)->Ok_0, limit) == Ok::<
            _,
            ProtocolError,
        >(Some(12 + secret_key.len())),
        packet_message(cancel_octets(process_id, secret_key)->Ok_0) == Ok::<_, ProtocolError>(
            PreStartupView::CancelRequest { process_id, secret_key },
        ),
{
    let packet = cancel_octets(process_id, secret_key)->Ok_0;
    let length = (12 + secret_key.len()) as u32;
    let tail = be32(process_id) + secret_key;
    lemma_be32(length, be32(CANCEL_REQUEST_CODE) + tail);
    lemma_be32(CANCEL_REQUEST_CODE, tail);
    lemma_be32(process_id, secret_key);
    assert(packet.skip(4) =~= be32(CANCEL_REQUEST_CODE) + tail);
    assert(packet.skip(8) =~= tail);
    assert(packet.skip(12) =~= secret_key);
}

/// A startup message is read back from its packet, unless its version code is
/// the one that marks a cancellation request.
pub proof fn law_startup_packet_round_trip(
    version: ProtocolVersion,
    parameters: Seq<(Seq<u8>, Seq<u8>)>,
    limit: nat,
)
    requires
        startup_packet(version, parameters) is Ok,
        startup_packet(version, parameters)->Ok_0.len() <= limit <= i32::MAX,
        version.code_spec() != CANCEL_REQUEST_CODE,
    ensures
        packet_length(startup_packet(version, parameters)->Ok_0, limit) == Ok::<
            _,
            ProtocolError,
        >(Some(startup_packet(version, parameters)->Ok_0.len())),
        packet_message(startup_packet(version, parameters)->Ok_0) == Ok::<_, ProtocolError>(
            PreStartupView::Startup(
                StartupView { version, parameters: collected(parameters) },
            ),
        ),
{
    let packet = startup_packet(version, parameters)->Ok_0;
    let list = crate::lists::put_until_nul(
        crate::startup::parameter_octets(),
        parameters,
    )->Ok_0;
    let length = (list.len() + 8) as u32;
    let code = version.code_spec();
    law_startup_round_trip(version, parameters);
    lemma_be32(length, be32(code) + list);
    lemma_be32(code, list);
    lemma_regroup(be32(length), be32(code), list);
    assert(packet.skip(4) =~= be32(code) + list);
}

/// An encryption request is eight octets: its length, and a version that no server
/// speaks, 1234 with 5679 for TLS and with 5680 for GSSAPI. A cancellation request is
/// its length, the version 1234 with 5678, the process and the secret key.
pub proof fn law_request_layout(process_id: u32, secret_key: Seq<u8>)
    ensures
        ({
            let packet = request_octets(SSL_REQUEST_CODE);
            &&& packet.len() == 8
            &&& number(packet.take(4)) == 8
            &&& number(packet.subrange(4, 8)) == 1234 * 0x1_0000 + 5679
        }),
        ({
            let packet = request_octets(GSSENC_REQUEST_CODE);
            &&& packet.len() == 8
            &&& number(packet.take(4)) == 8
            &&& number(packet.subrange(4, 8)) == 1234 * 0x1_0000 + 5680
        }),
        cancel_octets(process_id, secret_key) is Ok <==> 4 <= secret_key.len() <= 256,
        cancel_octets(process_id, secret_key) matches Ok(packet) ==> {
            &&& number(packet.take(4)) == packet.len()
            &&& number(packet.subrange(4, 8)) == 1234 * 0x1_0000 + 5678
            &&& number(packet.subrange(8, 12)) == process_id
            &&& packet.skip(12) == secret_key
        },
{
    let none = Seq::<u8>::empty();
    law_network_order(0, 8, 0, none);
    law_network_order(0, SSL_REQUEST_CODE, 0, none);
    law_network_order(0, GSSENC_REQUEST_CODE, 0, none);
    law_network_order(0, CANCEL_REQUEST_CODE, 0, none);
    law_network_order(0, process_id, 0, none);
    assert(request_octets(SSL_REQUEST_CODE).take(4) =~= be32(8));
    assert(request_octets(SSL_REQUEST_CODE).subrange(4, 8) =~= be32(SSL_REQUEST_CODE));
    assert(request_octets(GSSENC_REQUEST_CODE).take(4) =~= be32(8));
    assert(request_octets(GSSENC_REQUEST_CODE).subrange(4, 8) =~= be32(GSSENC_REQUEST_CODE));
    if let Ok(packet) = cancel_octets(process_id, secret_key) {
        let length = (12 + secret_key.len()) as u32;
        law_network_order(0, length, 0, none);
        assert(packet.take(4) =~= be32(length));
        assert(packet.subrange(4, 8) =~= be32(CANCEL_REQUEST_CODE));
        assert(packet.subrange(8, 12) =~= be32(process_id));
        assert(packet.skip(12) =~= secret_key);
    }
}

/// What a packet before startup is, by its code and its length: an encryption request
/// has nothing behind its code, a cancellation request has the process and a key of 4
/// to 256 octets there, and all else is a startup packet.
pub proof fn law_packet_kinds(packet: Seq<u8>)
    requires
        packet.len() >= 8,
    ensures
        ({
            let code = number(packet.subrange(4, 8));
            &&& packet_message(packet) == Ok::<_, ProtocolError>(PreStartupView::SslRequest)
                <==> code == 1234 * 0x1_0000 + 5679 && packet.len() == 8
            &&& packet_message(packet) == Ok::<_, ProtocolError>(PreStartupView::GssEncRequest)
                <==> code == 1234 * 0x1_0000 + 5680 && packet.len() == 8
            &&& code == 1234 * 0x1_0000 + 5678 && 16 <= packet.len() <= 268 ==> {
                &&& packet_message(packet) matches Ok(
                    PreStartupView::CancelRequest { process_id, secret_key },
                )
                &&& process_id == number(packet.subrange(8, 12))
                &&& secret_key == packet.skip(12)
            }
            &&& code == 1234 * 0x1_0000 + 5678 && !(16 <= packet.len() <= 268) ==> packet_message(
                packet,
            ) == Err::<PreStartupView, _>(ProtocolError::CancelLength)
            &&& packet_message(packet) is Ok && packet_message(packet)->Ok_0 is CancelRequest
                ==> code == 1234 * 0x1_0000 + 5678
            &&& packet_message(packet) matches Ok(PreStartupView::Startup(message)) ==> {
                &&& startup_of(packet) matches Ok((version, parameters))
                &&& message.version == version
                &&& message.parameters == collected(parameters)
            }
        }),
{
    law_network_order(0, 0, 0, packet.skip(4));
    assert(packet.skip(4).take(4) =~= packet.subrange(4, 8));
    if packet.len() >= 16 {
        law_network_order(0, 0, 0, packet.skip(8));
        assert(packet.skip(8).take(4) =~= packet.subrange(8, 12));
    }
}

/// How long a packet is, by its first four octets: at least eight octets, at most what
/// the limit allows, and complete only once that many are there.
pub proof fn law_packet_length(source: Seq<u8>, limit: nat)
    requires
        8 <= limit <= 0x7fff_ffff,
        source.len() >= 4,
    ensures
        ({
            let length = number(source.take(4));
            &&& length < 8 <==> packet_length(source, limit) == Err::<Option<nat>, _>(
                ProtocolError::PreStartupTooShort,
            )
            &&& length > 0x7fff_ffff <==> packet_length(source, limit) == Err::<Option<nat>, _>(
                ProtocolError::PreStartupLength,
            )
            &&& limit < length <= 0x7fff_ffff <==> packet_length(source, limit) == Err::<
                Option<nat>,
                _,
            >(ProtocolError::PreStartupTooLarge)
            &&& 8 <= length <= limit && source.len() < length <==> packet_length(source, limit)
                == Ok::<Option<nat>, ProtocolError>(None)
            &&& 8 <= length <= limit && source.len() >= length ==> packet_length(source, limit)
                == Ok::<_, ProtocolError>(Some(length))
        }),
{
    law_network_order(0, 0, 0, source);
}

/// A limit that no packet can meet, or that a length cannot express, is refused.
pub proof fn law_packet_limit(source: Seq<u8>, limit: nat)
    ensures
        limit < 8 || limit > 0x7fff_ffff <==> packet_length(source, limit) == Err::<
            Option<nat>,
            _,
        >(ProtocolError::PreStartupLimit),
        8 <= limit <= 0x7fff_ffff && source.len() < 4 ==> packet_length(source, limit) == Ok::<
            Option<nat>,
            ProtocolError,
        >(None),
{
}

/// The octets that answer an encryption request.
pub proof fn law_reply_octets(reply: EncryptionReply)
    ensures
        reply.octet() == 0x53 <==> reply == EncryptionReply::Accepted,
        reply.octet() == 0x4e <==> reply == EncryptionReply::Rejected,
        reply.octet() == 0x45 <==> reply == EncryptionReply::LegacyError,
{
}

/// What a mode asks for: `Disable` never TLS, `Allow` only after plaintext failed,
/// `Prefer` first but not at any price, and the others insist on it, with the
/// certificate's authority checked by two of them and its host by one.
pub proof fn law_ssl_modes(mode: SslMode)
    ensures
        ({
            let strategy = mode.strategy_spec();
            &&& strategy.request_on_first_connection <==> !(mode == SslMode::Disable || mode
                == SslMode::Allow)
            &&& strategy.retry_with_ssl_after_plaintext_failure <==> mode == SslMode::Allow
            &&& strategy.allow_server_rejection <==> mode == SslMode::Disable || mode
                == SslMode::Allow || mode == SslMode::Prefer
            &&& strategy.verification == CertificateVerification::CertificateAuthority <==> mode
                == SslMode::VerifyCa
            &&& strategy.verification == CertificateVerification::CertificateAuthorityAndHost
                <==> mode == SslMode::VerifyFull
        }),
{
}

/// While part of a packet is missing, nothing is decoded or rejected.
pub proof fn law_incomplete_packet_waits(packet: Seq<u8>, received: int, limit: nat)
    requires
        packet_length(packet, limit) == Ok::<_, ProtocolError>(Some(packet.len())),
        0 <= received < packet.len(),
    ensures
        packet_length(packet.take(received), limit) == Ok::<Option<nat>, ProtocolError>(None),
{
    if received >= 4 {
        assert(of32(packet.take(received)) == of32(packet)) by {
            assert(packet.take(received).skip(2)[0] == packet.skip(2)[0]);
            assert(packet.take(received).skip(2)[1] == packet.skip(2)[1]);
        }
    }
}

impl PreStartupMessage {
    /// The packet that the message is sent as.
    pub open spec fn packet(self) -> Put {
        match self {
            PreStartupMessage::SslRequest => Ok(request_octets(SSL_REQUEST_CODE)),
            PreStartupMessage::GssEncRequest => Ok(request_octets(GSSENC_REQUEST_CODE)),
            PreStartupMessage::CancelRequest { process_id, secret_key } => cancel_octets(
                process_id,
                octets(secret_key),
            ),
            PreStartupMessage::Startup(message) => startup_packet(
                message.version,
                text_list(message.parameters.listed()),
            ),
        }
    }

    /// Reconstructs the complete raw packet.
    ///
    /// # Errors
    ///
    /// Returns an error for an invalid cancellation key or startup message.
    pub fn to_packet(&self) -> (result: Result<Bytes, ProtocolError>)
        ensures
            match result {
                Ok(packet) => self.packet() == Ok::<_, ProtocolError>(octets(packet)),
                Err(error) => self.packet() == Err::<Seq<u8>, _>(error),
            },
    {
        match self {
            PreStartupMessage::SslRequest => Ok(from_vec(request_vec(SSL_REQUEST_CODE))),
            PreStartupMessage::GssEncRequest => Ok(from_vec(request_vec(GSSENC_REQUEST_CODE))),
            PreStartupMessage::CancelRequest { process_id, secret_key } => cancel_packet(
                *process_id,
                as_slice(secret_key),
            ),
            PreStartupMessage::Startup(message) => message.encode(),
        }
    }
}

fn request_vec(code: u32) -> (packet: Vec<u8>)
    ensures
        packet@ == request_octets(code),
{
    let mut packet: Vec<u8> = Vec::new();
    write_u32(&mut packet, 8);
    write_u32(&mut packet, code);
    assert(packet@ =~= request_octets(code));
    packet
}

fn request_packet(code: u32) -> (packet: [u8; 8])
    ensures
        packet@ == request_octets(code),
{
    let octets = request_vec(code);
    let packet: [u8; 8] = [
        octets[0],
        octets[1],
        octets[2],
        octets[3],
        octets[4],
        octets[5],
        octets[6],
        octets[7],
    ];
    assert(packet@ =~= octets@);
    packet
}

/// The `SSLRequest` packet.
pub fn ssl_request_packet() -> (packet: [u8; 8])
    ensures
        packet@ == request_octets(SSL_REQUEST_CODE),
{
    request_packet(SSL_REQUEST_CODE)
}

/// The `GSSENCRequest` packet.
pub fn gssenc_request_packet() -> (packet: [u8; 8])
    ensures
        packet@ == request_octets(GSSENC_REQUEST_CODE),
{
    request_packet(GSSENC_REQUEST_CODE)
}

fn cancel_packet(process_id: u32, secret_key: &[u8]) -> (result: Result<Bytes, ProtocolError>)
    ensures
        match result {
            Ok(packet) => cancel_octets(process_id, secret_key@) == Ok::<_, ProtocolError>(
                octets(packet),
            ),
            Err(error) => cancel_octets(process_id, secret_key@) == Err::<Seq<u8>, _>(error),
        },
{
    if secret_key.len() < 4 || secret_key.len() > 256 {
        return Err(ProtocolError::UnencodableKeyLength);
    }
    let mut packet: Vec<u8> = Vec::new();
    write_u32(&mut packet, 12 + secret_key.len() as u32);
    write_u32(&mut packet, CANCEL_REQUEST_CODE);
    write_u32(&mut packet, process_id);
    append(&mut packet, secret_key);
    assert(packet@ =~= cancel_octets(process_id, secret_key@)->Ok_0);
    Ok(from_vec(packet))
}

/// Incrementally decodes one raw pre-startup packet without consuming partial input.
///
/// # Errors
///
/// Returns an error for invalid lengths, special-request shapes, or startup data.
pub fn decode_pre_startup(input: &mut BytesMut) -> (result: Result<
    Option<PreStartupMessage>,
    ProtocolError,
>)
    ensures
        decoded(
            buffered(*old(input)),
            DEFAULT_MAX_PRE_STARTUP_PACKET_LEN as nat,
            result,
            buffered(*final(input)),
        ),
{
    decode_pre_startup_with_limit(input, DEFAULT_MAX_PRE_STARTUP_PACKET_LEN)
}

/// Decoding yields the message of the first whole packet and consumes exactly
/// that packet; without a whole acceptable packet it consumes nothing.
pub open spec fn decoded(
    before: Seq<u8>,
    limit: nat,
    result: Result<Option<PreStartupMessage>, ProtocolError>,
    after: Seq<u8>,
) -> bool {
    match packet_length(before, limit) {
        Err(error) => result == Err::<Option<PreStartupMessage>, _>(error) && after == before,
        Ok(None) => result == Ok::<Option<PreStartupMessage>, ProtocolError>(None) && after
            == before,
        Ok(Some(length)) => after == before.skip(length as int) && match packet_message(
            before.take(length as int),
        ) {
            Ok(view) => result matches Ok(Some(message)) && message@ == view,
            Err(error) => result == Err::<Option<PreStartupMessage>, _>(error),
        },
    }
}

/// Incrementally decodes one raw pre-startup packet with an allocation bound.
///
/// The declared length is checked before any more of a partial packet is
/// awaited.
///
/// # Errors
///
/// Returns an error for an invalid limit, an oversized packet, invalid lengths,
/// special-request shapes, or startup data.
pub fn decode_pre_startup_with_limit(input: &mut BytesMut, max_packet_len: usize) -> (result: Result<
    Option<PreStartupMessage>,
    ProtocolError,
>)
    ensures
        decoded(buffered(*old(input)), max_packet_len as nat, result, buffered(*final(input))),
{
    if max_packet_len < 8 || max_packet_len > i32::MAX as usize {
        return Err(ProtocolError::PreStartupLimit);
    }
    let slice = buffer_slice(input);
    if slice.len() < 4 {
        return Ok(None);
    }
    assert(slice@.skip(0) =~= slice@);
    let length: usize = u32_at(slice, 0) as usize;
    if length < 8 {
        return Err(ProtocolError::PreStartupTooShort);
    }
    if length > i32::MAX as usize {
        return Err(ProtocolError::PreStartupLength);
    }
    if length > max_packet_len {
        return Err(ProtocolError::PreStartupTooLarge);
    }
    if slice.len() < length {
        return Ok(None);
    }
    let mut packet = freeze(buffer_split_to(input, length));
    let ghost whole = octets(packet);
    let code: u32 = u32_at(as_slice(&packet), 4);
    if code == SSL_REQUEST_CODE && length == 8 {
        return Ok(Some(PreStartupMessage::SslRequest));
    }
    if code == GSSENC_REQUEST_CODE && length == 8 {
        return Ok(Some(PreStartupMessage::GssEncRequest));
    }
    if code == CANCEL_REQUEST_CODE {
        if length < 16 || length > 268 {
            return Err(ProtocolError::CancelLength);
        }
        let process_id: u32 = u32_at(as_slice(&packet), 8);
        advance(&mut packet, 12);
        return Ok(Some(PreStartupMessage::CancelRequest { process_id, secret_key: packet }));
    }
    match StartupMessage::decode(packet) {
        Ok(message) => Ok(Some(PreStartupMessage::Startup(message))),
        Err(error) => Err(error),
    }
}

/// libpq-compatible TLS negotiation policy.
#[derive(Clone, Copy, Debug, PartialEq, Eq, Structural)]
pub enum SslMode {
    /// Never request TLS.
    Disable,
    /// Try plaintext first and retry with TLS if plaintext fails.
    Allow,
    /// Request TLS first but permit plaintext fallback.
    Prefer,
    /// Require encryption without certificate verification.
    Require,
    /// Require TLS and validate the certificate chain.
    VerifyCa,
    /// Require TLS and validate both chain and server hostname.
    VerifyFull,
}

/// Peer-certificate checks required by an SSL mode.
#[derive(Clone, Copy, Debug, PartialEq, Eq, Structural)]
pub enum CertificateVerification {
    /// Do not authenticate the peer certificate.
    Unchecked,
    /// Validate the certificate chain against configured roots.
    CertificateAuthority,
    /// Validate the certificate chain and requested hostname.
    CertificateAuthorityAndHost,
}

/// Actions needed to apply an [`SslMode`] across connection attempts.
#[derive(Clone, Copy, Debug, PartialEq, Eq, Structural)]
pub struct SslStrategy {
    /// Whether the first connection should send `SSLRequest`.
    pub request_on_first_connection: bool,
    /// Whether plaintext failure should open a new TLS-first connection.
    pub retry_with_ssl_after_plaintext_failure: bool,
    /// Whether an `N` response permits continuation in plaintext.
    pub allow_server_rejection: bool,
    /// Certificate verification required after TLS acceptance.
    pub verification: CertificateVerification,
}

impl SslMode {
    /// The mode insists on TLS.
    pub open spec fn insists(self) -> bool {
        self == SslMode::Require || self == SslMode::VerifyCa || self == SslMode::VerifyFull
    }

    /// What the mode asks of a connection attempt.
    pub open spec fn strategy_spec(self) -> SslStrategy {
        SslStrategy {
            request_on_first_connection: self == SslMode::Prefer || self.insists(),
            retry_with_ssl_after_plaintext_failure: self == SslMode::Allow,
            allow_server_rejection: !self.insists(),
            verification: if self == SslMode::VerifyCa {
                CertificateVerification::CertificateAuthority
            } else if self == SslMode::VerifyFull {
                CertificateVerification::CertificateAuthorityAndHost
            } else {
                CertificateVerification::Unchecked
            },
        }
    }

    /// Converts libpq-compatible mode semantics into connection actions.
    pub fn strategy(self) -> (strategy: SslStrategy)
        ensures
            strategy == self.strategy_spec(),
    {
        match self {
            SslMode::Disable => SslStrategy {
                request_on_first_connection: false,
                retry_with_ssl_after_plaintext_failure: false,
                allow_server_rejection: true,
                verification: CertificateVerification::Unchecked,
            },
            SslMode::Allow => SslStrategy {
                request_on_first_connection: false,
                retry_with_ssl_after_plaintext_failure: true,
                allow_server_rejection: true,
                verification: CertificateVerification::Unchecked,
            },
            SslMode::Prefer => SslStrategy {
                request_on_first_connection: true,
                retry_with_ssl_after_plaintext_failure: false,
                allow_server_rejection: true,
                verification: CertificateVerification::Unchecked,
            },
            SslMode::Require => SslStrategy {
                request_on_first_connection: true,
                retry_with_ssl_after_plaintext_failure: false,
                allow_server_rejection: false,
                verification: CertificateVerification::Unchecked,
            },
            SslMode::VerifyCa => SslStrategy {
                request_on_first_connection: true,
                retry_with_ssl_after_plaintext_failure: false,
                allow_server_rejection: false,
                verification: CertificateVerification::CertificateAuthority,
            },
            SslMode::VerifyFull => SslStrategy {
                request_on_first_connection: true,
                retry_with_ssl_after_plaintext_failure: false,
                allow_server_rejection: false,
                verification: CertificateVerification::CertificateAuthorityAndHost,
            },
        }
    }
}

/// A reply whose branches deliberately have different typestates.
#[derive(Debug)]
pub enum Negotiation<S, Handshake, C = Pristine> {
    /// Encryption accepted; complete the transport handshake next.
    Accepted(Conn<S, Handshake, C>),
    /// Encryption rejected; plaintext pre-startup choice resumes.
    Rejected(Conn<S, PreStartup, C>),
    /// Historical `E` response terminated negotiation.
    LegacyError(Conn<S, Terminated, C>),
}

impl<S, Handshake, C> Negotiation<S, Handshake, C> {
    /// The branch is the one that the reply names, on the given transport.
    pub open spec fn follows(self, reply: EncryptionReply, transport: S) -> bool {
        match self {
            Negotiation::Accepted(conn) => reply == EncryptionReply::Accepted && conn.held()
                == transport,
            Negotiation::Rejected(conn) => reply == EncryptionReply::Rejected && conn.held()
                == transport,
            Negotiation::LegacyError(conn) => reply == EncryptionReply::LegacyError && conn.held()
                == transport,
        }
    }
}

/// SSL negotiation after applying plaintext-fallback policy.
#[derive(Debug)]
pub enum SslModeNegotiation<S, C = Pristine> {
    /// TLS was accepted and must be handshaken.
    Accepted(Conn<S, TlsHandshake, C>),
    /// Mode permits continuation in plaintext.
    Plaintext(Conn<S, PreStartup, C>),
    /// Server rejected TLS required by the configured mode.
    RequiredRejected {
        /// Terminal connection retaining the transport.
        conn: Conn<S, Terminated, C>,
        /// Mode whose requirement could not be met.
        mode: SslMode,
    },
    /// Historical server error terminated negotiation.
    LegacyError(Conn<S, Terminated, C>),
}

impl<S> Conn<S, PreStartup, Pristine> {
    /// Encodes `SSLRequest` and enters the raw-reply phase.
    pub fn ssl_request(self) -> (result: (Conn<S, AwaitingSslReply>, [u8; 8]))
        ensures
            result.0.held() == self.held(),
            result.1@ == request_octets(SSL_REQUEST_CODE),
    {
        (self.transition(), ssl_request_packet())
    }

    /// Encodes `GSSENCRequest` and enters the raw-reply phase.
    pub fn gssenc_request(self) -> (result: (Conn<S, AwaitingGssReply>, [u8; 8]))
        ensures
            result.0.held() == self.held(),
            result.1@ == request_octets(GSSENC_REQUEST_CODE),
    {
        (self.transition(), gssenc_request_packet())
    }

    /// Encodes and enters the startup phase.
    ///
    /// # Errors
    ///
    /// Returns an error when the startup parameters cannot be encoded.
    pub fn startup(self, message: &StartupMessage) -> (result: Result<
        (Conn<S, Startup>, Bytes),
        ProtocolError,
    >)
        ensures
            match result {
                Ok((conn, packet)) => conn.held() == self.held() && startup_packet(
                    message.version,
                    text_list(message.parameters.listed()),
                ) == Ok::<_, ProtocolError>(octets(packet)),
                Err(error) => startup_packet(
                    message.version,
                    text_list(message.parameters.listed()),
                ) == Err::<Seq<u8>, _>(error),
            },
    {
        let packet = message.encode()?;
        Ok((self.transition(), packet))
    }

    /// Encodes a version 3.0 or 3.2 out-of-band cancellation request.
    ///
    /// # Errors
    ///
    /// Returns an error unless the cancellation key is between 4 and 256 bytes.
    pub fn cancel_request(self, process_id: u32, secret_key: &[u8]) -> (result: Result<
        (Conn<S, Terminated>, Bytes),
        ProtocolError,
    >)
        ensures
            match result {
                Ok((conn, packet)) => conn.held() == self.held() && cancel_octets(
                    process_id,
                    secret_key@,
                ) == Ok::<_, ProtocolError>(octets(packet)),
                Err(error) => cancel_octets(process_id, secret_key@) == Err::<Seq<u8>, _>(error),
            },
    {
        let packet = cancel_packet(process_id, secret_key)?;
        Ok((self.transition(), packet))
    }
}

impl<S, C> Conn<S, PreStartup, C> {
    /// Projects an inspected client pre-startup packet into the server role.
    pub fn offer_pre_startup(self, message: PreStartupMessage) -> (offer: PreStartupOffer<S, C>)
        ensures
            match message {
                PreStartupMessage::SslRequest => offer matches PreStartupOffer::Ssl(conn)
                    && conn.held() == self.held(),
                PreStartupMessage::GssEncRequest => offer matches PreStartupOffer::Gss(conn)
                    && conn.held() == self.held(),
                PreStartupMessage::CancelRequest { process_id, secret_key } =>
                    offer matches PreStartupOffer::Cancel {
                    conn,
                    process_id: offered_id,
                    secret_key: offered_key,
                } && conn.held() == self.held() && offered_id == process_id && offered_key
                    == secret_key,
                PreStartupMessage::Startup(startup) => offer matches PreStartupOffer::Startup {
                    conn,
                    message: offered,
                } && conn.held() == self.held() && offered == startup,
            },
    {
        match message {
            PreStartupMessage::SslRequest => PreStartupOffer::Ssl(self.transition()),
            PreStartupMessage::GssEncRequest => PreStartupOffer::Gss(self.transition()),
            PreStartupMessage::CancelRequest { process_id, secret_key } =>
                PreStartupOffer::Cancel { conn: self.transition(), process_id, secret_key },
            PreStartupMessage::Startup(message) => PreStartupOffer::Startup {
                conn: self.transition(),
                message,
            },
        }
    }
}

impl<S, C> Conn<S, ServerSslDecision, C> {
    /// Rejects SSL and returns to the pre-startup choice on the same transport.
    pub fn reject_ssl(self) -> (result: (Conn<S, PreStartup, C>, u8))
        ensures
            result.0.held() == self.held(),
            result.1 == EncryptionReply::Rejected.octet(),
    {
        (self.transition(), EncryptionReply::Rejected.as_byte())
    }

    /// Accepts SSL and requires the transport handshake before startup is legal.
    pub fn accept_ssl(self) -> (result: (Conn<S, TlsHandshake, C>, u8))
        ensures
            result.0.held() == self.held(),
            result.1 == EncryptionReply::Accepted.octet(),
    {
        (self.transition(), EncryptionReply::Accepted.as_byte())
    }

    /// Emits the historical raw `E` response and terminates negotiation.
    pub fn legacy_ssl_error(self) -> (result: (Conn<S, Terminated, C>, u8))
        ensures
            result.0.held() == self.held(),
            result.1 == EncryptionReply::LegacyError.octet(),
    {
        (self.transition(), EncryptionReply::LegacyError.as_byte())
    }
}

impl<S, C> Conn<S, ServerGssDecision, C> {
    /// Sends `N` and returns to plaintext pre-startup choice.
    pub fn reject_gss(self) -> (result: (Conn<S, PreStartup, C>, u8))
        ensures
            result.0.held() == self.held(),
            result.1 == EncryptionReply::Rejected.octet(),
    {
        (self.transition(), EncryptionReply::Rejected.as_byte())
    }

    /// Sends `S` and requires a server-side GSS transport handshake.
    pub fn accept_gss(self) -> (result: (Conn<S, GssHandshake, C>, u8))
        ensures
            result.0.held() == self.held(),
            result.1 == EncryptionReply::Accepted.octet(),
    {
        (self.transition(), EncryptionReply::Accepted.as_byte())
    }

    /// Emits the historical raw `E` response and terminates negotiation.
    pub fn legacy_gss_error(self) -> (result: (Conn<S, Terminated, C>, u8))
        ensures
            result.0.held() == self.held(),
            result.1 == EncryptionReply::LegacyError.octet(),
    {
        (self.transition(), EncryptionReply::LegacyError.as_byte())
    }
}

impl<S, C> Conn<S, AwaitingSslReply, C> {
    /// Resolves the raw SSL response byte. A pending negotiation cannot send a
    /// startup message.
    pub fn receive_reply(self, reply: EncryptionReply) -> (outcome: Negotiation<
        S,
        TlsHandshake,
        C,
    >)
        ensures
            outcome.follows(reply, self.held()),
    {
        match reply {
            EncryptionReply::Accepted => Negotiation::Accepted(self.transition()),
            EncryptionReply::Rejected => Negotiation::Rejected(self.transition()),
            EncryptionReply::LegacyError => Negotiation::LegacyError(self.transition()),
        }
    }

    /// Resolves the SSL response while enforcing an [`SslMode`]'s fallback rule.
    pub fn apply_ssl_reply(self, reply: EncryptionReply, mode: SslMode) -> (outcome:
        SslModeNegotiation<S, C>)
        ensures
            match reply {
                EncryptionReply::Accepted => outcome matches SslModeNegotiation::Accepted(conn)
                    && conn.held() == self.held(),
                EncryptionReply::Rejected => if mode.strategy_spec().allow_server_rejection {
                    outcome matches SslModeNegotiation::Plaintext(conn) && conn.held()
                        == self.held()
                } else {
                    outcome matches SslModeNegotiation::RequiredRejected { conn, mode: required }
                        && conn.held() == self.held() && required == mode
                },
                EncryptionReply::LegacyError =>
                    outcome matches SslModeNegotiation::LegacyError(conn) && conn.held()
                    == self.held(),
            },
    {
        match reply {
            EncryptionReply::Accepted => SslModeNegotiation::Accepted(self.transition()),
            EncryptionReply::Rejected => if mode.strategy().allow_server_rejection {
                SslModeNegotiation::Plaintext(self.transition())
            } else {
                SslModeNegotiation::RequiredRejected { conn: self.transition(), mode }
            },
            EncryptionReply::LegacyError => SslModeNegotiation::LegacyError(self.transition()),
        }
    }
}

impl<S, C> Conn<S, AwaitingGssReply, C> {
    /// Applies the server's GSS encryption decision byte.
    pub fn receive_reply(self, reply: EncryptionReply) -> (outcome: Negotiation<
        S,
        GssHandshake,
        C,
    >)
        ensures
            outcome.follows(reply, self.held()),
    {
        match reply {
            EncryptionReply::Accepted => Negotiation::Accepted(self.transition()),
            EncryptionReply::Rejected => Negotiation::Rejected(self.transition()),
            EncryptionReply::LegacyError => Negotiation::LegacyError(self.transition()),
        }
    }
}

impl<S, C> Conn<S, TlsHandshake, C> {
    /// Records a completed in-place TLS upgrade, changing the transport type.
    pub fn finish_tls<Tls, F: FnOnce(S) -> Tls>(self, upgrade: F) -> (conn: Conn<
        Tls,
        PreStartup,
        C,
    >)
        requires
            call_requires(upgrade, (self.held(),)),
        ensures
            call_ensures(upgrade, (self.held(),), conn.held()),
    {
        self.map_transport(upgrade).transition()
    }

    /// Records a server-side TLS upgrade while preserving cleanliness.
    pub fn finish_server_tls<Tls, F: FnOnce(S) -> Tls>(self, upgrade: F) -> (conn: Conn<
        Tls,
        PreStartup,
        C,
    >)
        requires
            call_requires(upgrade, (self.held(),)),
        ensures
            call_ensures(upgrade, (self.held(),), conn.held()),
    {
        self.map_transport(upgrade).transition()
    }
}

impl<S> Conn<S, GssHandshake, Pristine> {
    /// Records a completed in-place GSS encryption upgrade.
    pub fn finish_gss<Gss, F: FnOnce(S) -> Gss>(self, upgrade: F) -> (conn: Conn<Gss, PreStartup>)
        requires
            call_requires(upgrade, (self.held(),)),
        ensures
            call_ensures(upgrade, (self.held(),), conn.held()),
    {
        Conn::new(upgrade(self.into_transport()))
    }
}

impl<S, C> Conn<S, GssHandshake, C> {
    /// Completes a server-side GSS upgrade and returns to encrypted pre-startup.
    pub fn finish_server_gss<Gss, F: FnOnce(S) -> Gss>(self, upgrade: F) -> (conn: Conn<
        Gss,
        PreStartup,
        C,
    >)
        requires
            call_requires(upgrade, (self.held(),)),
        ensures
            call_ensures(upgrade, (self.held(),), conn.held()),
    {
        self.map_transport(upgrade).transition()
    }
}

/// What a server is offered before startup, and what a client makes of a reply, follows
/// the grammar of either side.
pub proof fn law_negotiation_follows_the_grammar<S, C>(
    server: (Conn<S, PreStartup, C>, PreStartupOffer<S, C>),
    ssl: (Conn<S, AwaitingSslReply, C>, Negotiation<S, TlsHandshake, C>),
    gss: (Conn<S, AwaitingGssReply, C>, Negotiation<S, GssHandshake, C>),
    message: PreStartupMessage,
    reply: EncryptionReply,
)
    requires
        call_ensures(Conn::<S, PreStartup, C>::offer_pre_startup, (server.0, message), server.1),
        call_ensures(Conn::<S, AwaitingSslReply, C>::receive_reply, (ssl.0, reply), ssl.1),
        call_ensures(Conn::<S, AwaitingGssReply, C>::receive_reply, (gss.0, reply), gss.1),
    ensures
        ({
            let start = server_pre_startup::RuntimeState::PreStartup;
            let event = server_pre_startup::external_event(start, message@);
            server_pre_startup::allowed(start, event->0)->0.target == match server.1 {
                PreStartupOffer::Ssl(_) => server_pre_startup::RuntimeState::SslDecision,
                PreStartupOffer::Gss(_) => server_pre_startup::RuntimeState::GssDecision,
                PreStartupOffer::Cancel { .. } => server_pre_startup::RuntimeState::Terminated,
                PreStartupOffer::Startup { .. } => server_pre_startup::RuntimeState::Auth,
            }
        }),
        ({
            let wait = grammar::RuntimeState::AwaitingSslReply;
            let event = grammar::external_event(wait, reply);
            grammar::allowed(wait, event->0)->0.target == match ssl.1 {
                Negotiation::Accepted(_) => grammar::RuntimeState::TlsHandshake,
                Negotiation::Rejected(_) => grammar::RuntimeState::PreStartup,
                Negotiation::LegacyError(_) => grammar::RuntimeState::Terminated,
            }
        }),
        ({
            let wait = grammar::RuntimeState::AwaitingGssReply;
            let event = grammar::external_event(wait, reply);
            grammar::allowed(wait, event->0)->0.target == match gss.1 {
                Negotiation::Accepted(_) => grammar::RuntimeState::GssHandshake,
                Negotiation::Rejected(_) => grammar::RuntimeState::PreStartup,
                Negotiation::LegacyError(_) => grammar::RuntimeState::Terminated,
            }
        }),
{
}

/// A reply is judged by the mode: accepted encryption goes on to the handshake, rejected
/// encryption to plaintext or, where the mode insists, to an end.
pub proof fn law_reply_is_judged_by_the_mode<S, C>(
    conn: Conn<S, AwaitingSslReply, C>,
    reply: EncryptionReply,
    mode: SslMode,
    outcome: SslModeNegotiation<S, C>,
)
    requires
        call_ensures(
            Conn::<S, AwaitingSslReply, C>::apply_ssl_reply,
            (conn, reply, mode),
            outcome,
        ),
    ensures
        outcome is Accepted <==> reply == EncryptionReply::Accepted,
        outcome is Plaintext <==> reply == EncryptionReply::Rejected && (mode == SslMode::Disable
            || mode == SslMode::Allow || mode == SslMode::Prefer),
        outcome is RequiredRejected <==> reply == EncryptionReply::Rejected && (mode
            == SslMode::Require || mode == SslMode::VerifyCa || mode == SslMode::VerifyFull),
        outcome is LegacyError <==> reply == EncryptionReply::LegacyError,
{
}

/// A client opens by one of four packets, each of its own code.
pub proof fn law_opening_packets<S>(
    conn: Conn<S, PreStartup>,
    ssl: (Conn<S, AwaitingSslReply>, [u8; 8]),
    gss: (Conn<S, AwaitingGssReply>, [u8; 8]),
    key: (u32, &[u8]),
    cancel: Result<(Conn<S, Terminated>, Bytes), ProtocolError>,
    message: &StartupMessage,
    startup: Result<(Conn<S, Startup>, Bytes), ProtocolError>,
)
    requires
        call_ensures(Conn::<S, PreStartup, Pristine>::ssl_request, (conn,), ssl),
        call_ensures(Conn::<S, PreStartup, Pristine>::gssenc_request, (conn,), gss),
        call_ensures(Conn::<S, PreStartup, Pristine>::cancel_request, (conn, key.0, key.1), cancel),
        call_ensures(Conn::<S, PreStartup, Pristine>::startup, (conn, message), startup),
    ensures
        ssl.0.held() == conn.held(),
        number(ssl.1@.subrange(4, 8)) == 1234 * 0x1_0000 + 5679,
        gss.0.held() == conn.held(),
        number(gss.1@.subrange(4, 8)) == 1234 * 0x1_0000 + 5680,
        cancel is Ok <==> 4 <= key.1@.len() <= 256,
        cancel matches Ok((next, packet)) ==> {
            &&& next.held() == conn.held()
            &&& number(octets(packet).take(4)) == octets(packet).len()
            &&& number(octets(packet).subrange(4, 8)) == 1234 * 0x1_0000 + 5678
            &&& number(octets(packet).subrange(8, 12)) == key.0
            &&& octets(packet).skip(12) == key.1@
        },
        startup matches Ok((next, packet)) ==> next.held() == conn.held() && startup_packet(
            message.version,
            text_list(message.parameters.listed()),
        ) == Ok::<_, ProtocolError>(octets(packet)),
{
    law_request_layout(key.0, key.1@);
}

/// A server answers a request for encryption by one octet: `S` to accept, `N` to reject,
/// `E` in the way of old servers.
pub proof fn law_decisions_on_encryption<S, C>(
    ssl: Conn<S, ServerSslDecision, C>,
    ssl_rejected: (Conn<S, PreStartup, C>, u8),
    ssl_accepted: (Conn<S, TlsHandshake, C>, u8),
    ssl_failed: (Conn<S, Terminated, C>, u8),
    gss: Conn<S, ServerGssDecision, C>,
    gss_rejected: (Conn<S, PreStartup, C>, u8),
    gss_accepted: (Conn<S, GssHandshake, C>, u8),
    gss_failed: (Conn<S, Terminated, C>, u8),
)
    requires
        call_ensures(Conn::<S, ServerSslDecision, C>::reject_ssl, (ssl,), ssl_rejected),
        call_ensures(Conn::<S, ServerSslDecision, C>::accept_ssl, (ssl,), ssl_accepted),
        call_ensures(Conn::<S, ServerSslDecision, C>::legacy_ssl_error, (ssl,), ssl_failed),
        call_ensures(Conn::<S, ServerGssDecision, C>::reject_gss, (gss,), gss_rejected),
        call_ensures(Conn::<S, ServerGssDecision, C>::accept_gss, (gss,), gss_accepted),
        call_ensures(Conn::<S, ServerGssDecision, C>::legacy_gss_error, (gss,), gss_failed),
    ensures
        ssl_rejected.0.held() == ssl.held() && ssl_rejected.1 == 0x4e,
        ssl_accepted.0.held() == ssl.held() && ssl_accepted.1 == 0x53,
        ssl_failed.0.held() == ssl.held() && ssl_failed.1 == 0x45,
        gss_rejected.0.held() == gss.held() && gss_rejected.1 == 0x4e,
        gss_accepted.0.held() == gss.held() && gss_accepted.1 == 0x53,
        gss_failed.0.held() == gss.held() && gss_failed.1 == 0x45,
{
}

/// A request that opens a connection is offered as what it is.
pub proof fn law_offered_requests<S, C>(
    conn: Conn<S, PreStartup, C>,
    message: PreStartupMessage,
    offer: PreStartupOffer<S, C>,
)
    requires
        call_ensures(Conn::<S, PreStartup, C>::offer_pre_startup, (conn, message), offer),
    ensures
        message is SslRequest <==> offer is Ssl,
        message is GssEncRequest <==> offer is Gss,
        message is CancelRequest <==> offer is Cancel,
        message is Startup <==> offer is Startup,
        message matches PreStartupMessage::CancelRequest { process_id, secret_key } ==> (offer
            matches PreStartupOffer::Cancel { process_id: same, secret_key: kept, .. } && same
            == process_id && kept == secret_key),
        message matches PreStartupMessage::Startup(startup) ==> (offer matches PreStartupOffer::Startup {
            message: kept,
            ..
        } && kept == startup),
{
}

} // verus!
