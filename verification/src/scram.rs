//! Server-side SCRAM-SHA-256 and SCRAM-SHA-256-PLUS verification.

use bytes::Bytes;
use vstd::prelude::*;
use vstd::slice::slice_subrange;
use vstd::utf8::*;

use crate::crypto::{
    decode_base64, digest, encode_base64, equal_in_constant_time, fill_random, hmac,
    random_graphic, saslprep, utf8_text,
};
use crate::crypto::{
    base64_octets, base64_text, hmac_sha256, prepared_text, sha256, spellable,
};
use crate::error::ErrorKind;
use crate::octets::{from_vec, octets};
use crate::wire::{append, find_octet};

verus! {

pub const SCRAM_SHA_256: &'static str = "SCRAM-SHA-256";

pub const SCRAM_SHA_256_PLUS: &'static str = "SCRAM-SHA-256-PLUS";

pub const DEFAULT_ITERATIONS: u32 = 4096;

pub const SALT_LENGTH: usize = 16;

pub const NONCE_LENGTH: usize = 24;

pub const PROOF_LENGTH: usize = 32;

pub const COMMA: u8 = 0x2c;

pub const EQUALS: u8 = 0x3d;

pub const TILDE: u8 = 0x7e;

pub const ZERO: u8 = 0x30;

pub const CHANNEL_BINDING: u8 = 0x63;

pub const ITERATIONS: u8 = 0x69;

pub const MANDATORY: u8 = 0x6d;

pub const USERNAME: u8 = 0x6e;

pub const PROOF: u8 = 0x70;

pub const NONCE: u8 = 0x72;

pub const SALT: u8 = 0x73;

pub const VERIFIER: u8 = 0x76;

/// Reason why a SCRAM message was rejected.
#[derive(Clone, Copy, Debug, PartialEq, Eq, Structural)]
pub enum ScramError {
    /// The iteration count is below [`DEFAULT_ITERATIONS`].
    WeakIterationCount,
    /// A client message is not UTF-8.
    NotText,
    /// The client-first message has no complete GS2 header.
    MalformedHeader,
    UnsupportedMechanism,
    /// SCRAM-PLUS was requested without usable binding data on both sides.
    BindingUnavailable,
    /// The client believes the server cannot bind channels, but it can.
    BindingDowngrade,
    /// The plain mechanism was requested with a binding header.
    UnexpectedBinding,
    MalformedAttribute,
    DuplicateAttribute,
    MandatoryExtension,
    MissingAttribute,
    InvalidNonce,
    /// The client-final message carries no proof.
    MissingProof,
    NonceMismatch,
    /// An attribute is not padded base64.
    InvalidEncoding,
    BindingMismatch,
    /// Something follows the proof.
    ProofNotLast,
    ProofLength,
    InvalidProof,
}

impl ScramError {
    /// Description of this error.
    pub open spec fn text(self) -> Seq<char> {
        match self {
            ScramError::WeakIterationCount => "SCRAM iteration count is below 4096"@,
            ScramError::NotText => "SCRAM message is not UTF-8"@,
            ScramError::MalformedHeader => "malformed SCRAM GS2 header"@,
            ScramError::UnsupportedMechanism => "unsupported SCRAM mechanism"@,
            ScramError::BindingUnavailable => "SCRAM-PLUS channel binding is unavailable or invalid"@,
            ScramError::BindingDowngrade => "SCRAM channel-binding downgrade detected"@,
            ScramError::UnexpectedBinding => "channel binding used with SCRAM-SHA-256"@,
            ScramError::MalformedAttribute => "malformed SCRAM attribute"@,
            ScramError::DuplicateAttribute => "duplicate SCRAM attribute"@,
            ScramError::MandatoryExtension => "unsupported mandatory SCRAM extension"@,
            ScramError::MissingAttribute => "required SCRAM attribute is missing"@,
            ScramError::InvalidNonce => "invalid SCRAM nonce"@,
            ScramError::MissingProof => "SCRAM client-final has no proof"@,
            ScramError::NonceMismatch => "SCRAM nonce mismatch"@,
            ScramError::InvalidEncoding => "invalid SCRAM base64"@,
            ScramError::BindingMismatch => "SCRAM channel binding mismatch"@,
            ScramError::ProofNotLast => "SCRAM proof is not the final attribute"@,
            ScramError::ProofLength => "SCRAM proof is not 32 bytes"@,
            ScramError::InvalidProof => "invalid SCRAM client proof"@,
        }
    }

    /// Description of this error.
    pub fn message(&self) -> (message: &'static str)
        ensures
            message@ == self.text(),
    {
        match *self {
            ScramError::WeakIterationCount => "SCRAM iteration count is below 4096",
            ScramError::NotText => "SCRAM message is not UTF-8",
            ScramError::MalformedHeader => "malformed SCRAM GS2 header",
            ScramError::UnsupportedMechanism => "unsupported SCRAM mechanism",
            ScramError::BindingUnavailable => "SCRAM-PLUS channel binding is unavailable or invalid",
            ScramError::BindingDowngrade => "SCRAM channel-binding downgrade detected",
            ScramError::UnexpectedBinding => "channel binding used with SCRAM-SHA-256",
            ScramError::MalformedAttribute => "malformed SCRAM attribute",
            ScramError::DuplicateAttribute => "duplicate SCRAM attribute",
            ScramError::MandatoryExtension => "unsupported mandatory SCRAM extension",
            ScramError::MissingAttribute => "required SCRAM attribute is missing",
            ScramError::InvalidNonce => "invalid SCRAM nonce",
            ScramError::MissingProof => "SCRAM client-final has no proof",
            ScramError::NonceMismatch => "SCRAM nonce mismatch",
            ScramError::InvalidEncoding => "invalid SCRAM base64",
            ScramError::BindingMismatch => "SCRAM channel binding mismatch",
            ScramError::ProofNotLast => "SCRAM proof is not the final attribute",
            ScramError::ProofLength => "SCRAM proof is not 32 bytes",
            ScramError::InvalidProof => "invalid SCRAM client proof",
        }
    }

    /// Every rejected SCRAM message is an unacceptable input of the peer.
    pub fn kind(&self) -> (kind: ErrorKind)
        ensures
            kind == ErrorKind::InvalidInput,
    {
        ErrorKind::InvalidInput
    }
}

/// Channel-binding data that the server can offer.
#[derive(Clone, Debug)]
pub enum ServerChannelBinding {
    /// The transport has no binding data.
    Unbound,
    TlsServerEndPoint(Vec<u8>),
}

impl View for ServerChannelBinding {
    type V = Option<Seq<u8>>;

    open spec fn view(&self) -> Option<Seq<u8>> {
        match self {
            ServerChannelBinding::Unbound => None,
            ServerChannelBinding::TlsServerEndPoint(binding) => Some(binding@),
        }
    }
}

/// What a reusable server policy holds.
#[verifier::ext_equal]
pub struct ScramServerView {
    /// Normalised password.
    pub password: Seq<u8>,
    pub salt: Seq<u8>,
    pub iterations: u32,
    pub binding: Option<Seq<u8>>,
}

/// Reusable server policy holding the credential and channel-binding context.
pub struct ScramServer {
    password: Vec<u8>,
    salt: Vec<u8>,
    iterations: u32,
    channel_binding: ServerChannelBinding,
}

impl View for ScramServer {
    type V = ScramServerView;

    closed spec fn view(&self) -> ScramServerView {
        ScramServerView {
            password: self.password@,
            salt: self.salt@,
            iterations: self.iterations,
            binding: self.channel_binding@,
        }
    }
}

/// What a started exchange remembers.
#[verifier::ext_equal]
pub struct ScramExchangeView {
    pub salted_password: Seq<u8>,
    pub client_first_bare: Seq<u8>,
    pub server_first: Seq<u8>,
    pub combined_nonce: Seq<u8>,
    pub expected_binding: Seq<u8>,
}

/// One nonce-bound SCRAM exchange awaiting the client-final message.
pub struct ScramExchange {
    salted_password: Vec<u8>,
    client_first_bare: Vec<u8>,
    server_first: Vec<u8>,
    combined_nonce: Vec<u8>,
    expected_channel_binding: Vec<u8>,
}

impl View for ScramExchange {
    type V = ScramExchangeView;

    closed spec fn view(&self) -> ScramExchangeView {
        ScramExchangeView {
            salted_password: self.salted_password@,
            client_first_bare: self.client_first_bare@,
            server_first: self.server_first@,
            combined_nonce: self.combined_nonce@,
            expected_binding: self.expected_channel_binding@,
        }
    }
}

/// A SCRAM attribute: its letter and its value.
pub type Attribute = (u8, Seq<u8>);

pub open spec fn alphabetic(octet: u8) -> bool {
    0x41 <= octet <= 0x5a || 0x61 <= octet <= 0x7a
}

/// Value of the first attribute with this letter.
pub open spec fn named(attributes: Seq<Attribute>, name: u8) -> Option<Seq<u8>>
    decreases attributes.len(),
{
    if attributes.len() == 0 {
        None
    } else if attributes[0].0 == name {
        Some(attributes[0].1)
    } else {
        named(attributes.skip(1), name)
    }
}

/// Text of a message up to its first comma.
pub open spec fn first_text(message: Seq<u8>) -> Seq<u8> {
    match message.index_of_first(COMMA) {
        Some(end) => message.take(end),
        None => message,
    }
}

/// Attributes of a comma-separated message, after those that came before it.
pub open spec fn scanned(before: Seq<Attribute>, message: Seq<u8>) -> Result<
    Seq<Attribute>,
    ScramError,
>
    decreases message.len(),
{
    proof {
        message.index_of_first_ensures(COMMA);
    }
    let text = first_text(message);
    if text.len() < 2 || text[1] != EQUALS || !alphabetic(text[0]) {
        Err(ScramError::MalformedAttribute)
    } else if named(before, text[0]) is Some {
        Err(ScramError::DuplicateAttribute)
    } else {
        let read = before.push((text[0], text.skip(2)));
        match message.index_of_first(COMMA) {
            Some(end) => scanned(read, message.skip(end + 1)),
            None => Ok(read),
        }
    }
}

/// Attributes of a message that asks for no mandatory extension.
pub open spec fn attributes_of(message: Seq<u8>) -> Result<Seq<Attribute>, ScramError> {
    match scanned(Seq::empty(), message) {
        Ok(attributes) => if named(attributes, MANDATORY) is Some {
            Err(ScramError::MandatoryExtension)
        } else {
            Ok(attributes)
        },
        Err(error) => Err(error),
    }
}

/// The GS2 header, with both of its commas, and what follows it.
pub open spec fn header_and_rest(message: Seq<u8>) -> Result<(Seq<u8>, Seq<u8>), ScramError> {
    match message.index_of_first(COMMA) {
        Some(first) => match message.skip(first + 1).index_of_first(COMMA) {
            Some(second) => {
                let end = first + 1 + second + 1;
                Ok((message.take(end), message.skip(end)))
            },
            None => Err(ScramError::MalformedHeader),
        },
        None => Err(ScramError::MalformedHeader),
    }
}

/// Whether the plus variant is asked for.
pub open spec fn mechanism_of(mechanism: Seq<u8>) -> Result<bool, ScramError> {
    if mechanism == encode_utf8(SCRAM_SHA_256@) {
        Ok(false)
    } else if mechanism == encode_utf8(SCRAM_SHA_256_PLUS@) {
        Ok(true)
    } else {
        Err(ScramError::UnsupportedMechanism)
    }
}

/// Channel-binding octets that the client-final message has to repeat.
pub open spec fn binding_of(plus: bool, binding: Option<Seq<u8>>, header: Seq<u8>) -> Result<
    Seq<u8>,
    ScramError,
> {
    if plus {
        match binding {
            Some(binding) if header == encode_utf8("p=tls-server-end-point,,"@) => Ok(
                header + binding,
            ),
            _ => Err(ScramError::BindingUnavailable),
        }
    } else if header == encode_utf8("y,,"@) {
        if binding is Some {
            Err(ScramError::BindingDowngrade)
        } else {
            Ok(header)
        }
    } else if header == encode_utf8("n,,"@) {
        Ok(header)
    } else {
        Err(ScramError::UnexpectedBinding)
    }
}

/// Printable ASCII other than the comma.
pub open spec fn nonce_octet(octet: u8) -> bool {
    0x21 <= octet <= 0x7e && octet != COMMA
}

pub open spec fn valid_nonce(nonce: Seq<u8>) -> bool {
    nonce.len() > 0 && forall|at: int| 0 <= at < nonce.len() ==> nonce_octet(#[trigger] nonce[at])
}

/// SASLprep of a password that is text and may be prepared; the password itself
/// otherwise.
pub open spec fn normalised(password: Seq<u8>) -> Seq<u8> {
    if valid_utf8(password) {
        match prepared_text(decode_utf8(password)) {
            Some(text) => encode_utf8(text),
            None => password,
        }
    } else {
        password
    }
}

pub open spec fn exclusive_or(first: Seq<u8>, second: Seq<u8>) -> Seq<u8> {
    Seq::new(first.len(), |at: int| first[at] ^ second[at])
}

/// Repeated HMAC of the salt under the password.
pub open spec fn repeated(password: Seq<u8>, salt: Seq<u8>, count: nat) -> Seq<u8>
    decreases count,
{
    if count <= 1 {
        hmac_sha256(password, salt + seq![0u8, 0, 0, 1])
    } else {
        hmac_sha256(password, repeated(password, salt, (count - 1) as nat))
    }
}

/// Exclusive or of the first `count` repetitions.
pub open spec fn salted(password: Seq<u8>, salt: Seq<u8>, count: nat) -> Seq<u8>
    decreases count,
{
    if count <= 1 {
        repeated(password, salt, count)
    } else {
        exclusive_or(
            salted(password, salt, (count - 1) as nat),
            repeated(password, salt, count),
        )
    }
}

/// Decimal digits of a number.
pub open spec fn decimal(number: nat) -> Seq<u8>
    decreases number,
{
    if number < 10 {
        seq![(ZERO + number) as u8]
    } else {
        decimal(number / 10).push((ZERO + number % 10) as u8)
    }
}

/// An attribute as it is written.
pub open spec fn attribute(name: u8, value: Seq<u8>) -> Seq<u8> {
    seq![name, EQUALS] + value
}

/// Two texts with a comma between them.
pub open spec fn listed(first: Seq<u8>, second: Seq<u8>) -> Seq<u8> {
    first.push(COMMA) + second
}

/// The exchange that a client-first message opens once the server nonce is drawn.
pub open spec fn opened(
    server: ScramServerView,
    mechanism: Seq<u8>,
    client_first: Seq<u8>,
    nonce: Seq<u8>,
) -> Result<ScramExchangeView, ScramError> {
    if !valid_utf8(client_first) {
        Err(ScramError::NotText)
    } else {
        match header_and_rest(client_first) {
            Err(error) => Err(error),
            Ok((header, bare)) => match mechanism_of(mechanism) {
                Err(error) => Err(error),
                Ok(plus) => match binding_of(plus, server.binding, header) {
                    Err(error) => Err(error),
                    Ok(binding) => match attributes_of(bare) {
                        Err(error) => Err(error),
                        Ok(attributes) => match named(attributes, NONCE) {
                            None => Err(ScramError::MissingAttribute),
                            Some(client_nonce) => if !valid_nonce(client_nonce) {
                                Err(ScramError::InvalidNonce)
                            } else if named(attributes, USERNAME) is None {
                                Err(ScramError::MissingAttribute)
                            } else {
                                Ok(
                                    ScramExchangeView {
                                        salted_password: salted(
                                            server.password,
                                            server.salt,
                                            server.iterations as nat,
                                        ),
                                        client_first_bare: bare,
                                        server_first: listed(
                                            listed(
                                                attribute(NONCE, client_nonce + nonce),
                                                attribute(SALT, base64_text(server.salt)),
                                            ),
                                            attribute(
                                                ITERATIONS,
                                                decimal(server.iterations as nat),
                                            ),
                                        ),
                                        combined_nonce: client_nonce + nonce,
                                        expected_binding: binding,
                                    },
                                )
                            },
                        },
                    },
                },
            },
        }
    }
}

/// Whether `result` is what opening the exchange with `nonce` gives.
pub open spec fn opens(
    result: Result<(ScramExchange, Bytes), ScramError>,
    server: ScramServerView,
    mechanism: Seq<u8>,
    client_first: Seq<u8>,
    nonce: Seq<u8>,
) -> bool {
    match result {
        Ok((exchange, challenge)) => {
            &&& opened(server, mechanism, client_first, nonce) == Ok::<_, ScramError>(exchange@)
            &&& octets(challenge) == exchange@.server_first
        },
        Err(error) => opened(server, mechanism, client_first, nonce) == Err::<
            ScramExchangeView,
            _,
        >(error),
    }
}

/// Whether a proof attribute starts at `at`, comma included.
pub open spec fn proof_at(message: Seq<u8>, at: int) -> bool {
    0 <= at && at + 3 <= message.len() && message[at] == COMMA && message[at + 1] == PROOF
        && message[at + 2] == EQUALS
}

/// Last position below `bound` where a proof attribute starts.
pub open spec fn last_proof(message: Seq<u8>, bound: nat) -> Option<int>
    decreases bound,
{
    if bound == 0 {
        None
    } else if proof_at(message, bound - 1) {
        Some(bound - 1)
    } else {
        last_proof(message, (bound - 1) as nat)
    }
}

/// What both sides sign.
pub open spec fn auth_message(exchange: ScramExchangeView, without_proof: Seq<u8>) -> Seq<u8> {
    listed(listed(exchange.client_first_bare, exchange.server_first), without_proof)
}

pub open spec fn client_key(exchange: ScramExchangeView) -> Seq<u8> {
    hmac_sha256(exchange.salted_password, encode_utf8("Client Key"@))
}

pub open spec fn client_signature(exchange: ScramExchangeView, without_proof: Seq<u8>) -> Seq<u8> {
    hmac_sha256(sha256(client_key(exchange)), auth_message(exchange, without_proof))
}

pub open spec fn server_signature(exchange: ScramExchangeView, without_proof: Seq<u8>) -> Seq<u8> {
    hmac_sha256(
        hmac_sha256(exchange.salted_password, encode_utf8("Server Key"@)),
        auth_message(exchange, without_proof),
    )
}

/// Judgement on a decoded proof.
pub open spec fn proven(exchange: ScramExchangeView, without_proof: Seq<u8>, evidence: Seq<u8>) -> Result<
    Seq<u8>,
    ScramError,
> {
    if evidence.len() != PROOF_LENGTH {
        Err(ScramError::ProofLength)
    } else if sha256(exclusive_or(evidence, client_signature(exchange, without_proof))) != sha256(
        client_key(exchange),
    ) {
        Err(ScramError::InvalidProof)
    } else {
        Ok(attribute(VERIFIER, base64_text(server_signature(exchange, without_proof))))
    }
}

/// The server-final message that answers a client-final message.
pub open spec fn finished(exchange: ScramExchangeView, client_final: Seq<u8>) -> Result<
    Seq<u8>,
    ScramError,
> {
    if !valid_utf8(client_final) {
        Err(ScramError::NotText)
    } else {
        match last_proof(client_final, client_final.len()) {
            None => Err(ScramError::MissingProof),
            Some(marker) => match attributes_of(client_final) {
                Err(error) => Err(error),
                Ok(attributes) => match (
                    named(attributes, NONCE),
                    named(attributes, CHANNEL_BINDING),
                    named(attributes, PROOF),
                ) {
                    (None, _, _) => Err(ScramError::MissingAttribute),
                    (Some(nonce), binding, evidence) => if nonce != exchange.combined_nonce {
                        Err(ScramError::NonceMismatch)
                    } else {
                        match binding {
                            None => Err(ScramError::MissingAttribute),
                            Some(binding) => match base64_octets(binding) {
                                None => Err(ScramError::InvalidEncoding),
                                Some(binding) => if binding != exchange.expected_binding {
                                    Err(ScramError::BindingMismatch)
                                } else {
                                    match evidence {
                                        None => Err(ScramError::MissingAttribute),
                                        Some(evidence) => if marker + 3 + evidence.len()
                                            != client_final.len() {
                                            Err(ScramError::ProofNotLast)
                                        } else {
                                            match base64_octets(evidence) {
                                                None => Err(ScramError::InvalidEncoding),
                                                Some(evidence) => proven(
                                                    exchange,
                                                    client_final.take(marker),
                                                    evidence,
                                                ),
                                            }
                                        },
                                    }
                                },
                            },
                        }
                    },
                },
            },
        }
    }
}

/// A slice of slices as attributes.
pub open spec fn read_as(attributes: Seq<(u8, &[u8])>) -> Seq<Attribute> {
    Seq::new(attributes.len(), |at: int| (attributes[at].0, attributes[at].1@))
}

/// Whether two octet slices agree.
fn matches_text(octets: &[u8], text: &str) -> (same: bool)
    ensures
        same == (octets@ == encode_utf8(text@)),
{
    crate::octet_map::same(octets, text.as_bytes())
}

/// Splits the GS2 header from what follows it.
fn split_gs2(message: &[u8]) -> (result: Result<(&[u8], &[u8]), ScramError>)
    ensures
        match result {
            Ok((header, rest)) => header_and_rest(message@) == Ok::<_, ScramError>(
                (header@, rest@),
            ),
            Err(error) => header_and_rest(message@) == Err::<(Seq<u8>, Seq<u8>), _>(error),
        },
{
    let first: usize = match find_octet(message, COMMA) {
        Some(at) => at,
        None => return Err(ScramError::MalformedHeader),
    };
    let length: usize = message.len();
    let after = slice_subrange(message, first + 1, length);
    assert(after@ =~= message@.skip(first + 1));
    let second: usize = match find_octet(after, COMMA) {
        Some(at) => at,
        None => return Err(ScramError::MalformedHeader),
    };
    let end: usize = first + 1 + second + 1;
    let header = slice_subrange(message, 0, end);
    let rest = slice_subrange(message, end, message.len());
    assert(header@ =~= message@.take(end as int));
    assert(rest@ =~= message@.skip(end as int));
    Ok((header, rest))
}

/// Value of the attribute with this letter.
#[verifier::loop_isolation(false)]
fn find_attribute<'a>(attributes: &Vec<(u8, &'a [u8])>, name: u8) -> (value: Option<&'a [u8]>)
    ensures
        match value {
            Some(value) => named(read_as(attributes@), name) == Some(value@),
            None => named(read_as(attributes@), name) is None,
        },
{
    let mut at: usize = 0;
    proof {
        assert(read_as(attributes@).skip(0) =~= read_as(attributes@));
    }
    while at < attributes.len()
        invariant
            at <= attributes.len(),
            named(read_as(attributes@), name) == named(read_as(attributes@).skip(at as int), name),
        decreases attributes.len() - at,
    {
        if attributes[at].0 == name {
            return Some(attributes[at].1);
        }
        proof {
            assert(read_as(attributes@).skip(at as int).skip(1) =~= read_as(attributes@).skip(
                at + 1,
            ));
        }
        at = at + 1;
    }
    None
}

/// Reads the attributes of a message.
#[verifier::loop_isolation(false)]
fn read_attributes<'a>(message: &'a [u8]) -> (result: Result<Vec<(u8, &'a [u8])>, ScramError>)
    ensures
        match result {
            Ok(attributes) => scanned(Seq::empty(), message@) == Ok::<_, ScramError>(
                read_as(attributes@),
            ),
            Err(error) => scanned(Seq::empty(), message@) == Err::<Seq<Attribute>, _>(error),
        },
{
    let mut output: Vec<(u8, &'a [u8])> = Vec::new();
    let mut rest: &'a [u8] = message;
    proof {
        assert(read_as(output@) =~= Seq::<Attribute>::empty());
    }
    loop
        invariant
            scanned(Seq::empty(), message@) == scanned(read_as(output@), rest@),
        decreases rest@.len(),
    {
        let end: Option<usize> = find_octet(rest, COMMA);
        let length: usize = match end {
            Some(at) => at,
            None => rest.len(),
        };
        let text = slice_subrange(rest, 0, length);
        proof {
            rest@.index_of_first_ensures(COMMA);
            assert(text@ =~= first_text(rest@));
        }
        if text.len() < 2 || text[1] != EQUALS || !is_alphabetic(text[0]) {
            return Err(ScramError::MalformedAttribute);
        }
        if find_attribute(&output, text[0]).is_some() {
            return Err(ScramError::DuplicateAttribute);
        }
        let value: &'a [u8] = slice_subrange(rest, 2, length);
        proof {
            assert(value@ =~= text@.skip(2));
            assert(read_as(output@.push((text@[0], value))) =~= read_as(output@).push(
                (text@[0], text@.skip(2)),
            ));
        }
        output.push((text[0], value));
        match end {
            Some(at) => {
                let total: usize = rest.len();
                let next = slice_subrange(rest, at + 1, total);
                assert(next@ =~= rest@.skip(at + 1));
                rest = next;
            },
            None => {
                return Ok(output);
            },
        }
    }
}

fn is_alphabetic(octet: u8) -> (result: bool)
    ensures
        result == alphabetic(octet),
{
    (0x41 <= octet && octet <= 0x5a) || (0x61 <= octet && octet <= 0x7a)
}

/// Reads the attributes of a message and refuses a mandatory extension.
fn accepted_attributes<'a>(message: &'a [u8]) -> (result: Result<
    Vec<(u8, &'a [u8])>,
    ScramError,
>)
    ensures
        match result {
            Ok(attributes) => attributes_of(message@) == Ok::<_, ScramError>(read_as(attributes@)),
            Err(error) => attributes_of(message@) == Err::<Seq<Attribute>, _>(error),
        },
{
    let attributes = read_attributes(message)?;
    if find_attribute(&attributes, MANDATORY).is_some() {
        Err(ScramError::MandatoryExtension)
    } else {
        Ok(attributes)
    }
}

#[verifier::loop_isolation(false)]
fn is_valid_nonce(nonce: &[u8]) -> (valid: bool)
    ensures
        valid == valid_nonce(nonce@),
{
    let mut at: usize = 0;
    while at < nonce.len()
        invariant
            at <= nonce.len(),
            forall|before: int| 0 <= before < at ==> nonce_octet(#[trigger] nonce@[before]),
        decreases nonce.len() - at,
    {
        let octet: u8 = nonce[at];
        if octet < 0x21 || octet > 0x7e || octet == COMMA {
            assert(!nonce_octet(nonce@[at as int]));
            return false;
        }
        at = at + 1;
    }
    nonce.len() > 0
}

/// A random server nonce.
#[verifier::loop_isolation(false)]
fn random_nonce() -> (nonce: Vec<u8>)
    ensures
        nonce@.len() == NONCE_LENGTH,
        valid_nonce(nonce@),
{
    let mut nonce: Vec<u8> = Vec::new();
    while nonce.len() < NONCE_LENGTH
        invariant
            nonce@.len() <= NONCE_LENGTH,
            forall|at: int| 0 <= at < nonce@.len() ==> nonce_octet(#[trigger] nonce@[at]),
        decreases NONCE_LENGTH - nonce@.len(),
    {
        let octet: u8 = random_graphic();
        nonce.push(if octet == COMMA { TILDE } else { octet });
    }
    nonce
}

/// Octets of a slice as an owned vector.
fn owned(slice: &[u8]) -> (copy: Vec<u8>)
    ensures
        copy@ == slice@,
{
    let mut copy: Vec<u8> = Vec::new();
    append(&mut copy, slice);
    assert(copy@ =~= slice@);
    copy
}

/// Prepares a password for hashing.
fn normalize(password: &[u8]) -> (prepared: Vec<u8>)
    ensures
        prepared@ == normalised(password@),
{
    match utf8_text(password) {
        None => owned(password),
        Some(text) => {
            proof {
                encode_utf8_decode_utf8(text@);
            }
            match saslprep(text) {
                None => owned(password),
                Some(prepared) => owned(prepared.as_str().as_bytes()),
            }
        },
    }
}

/// Exclusive or of two octet strings of one length.
#[verifier::loop_isolation(false)]
fn combine(first: &[u8], second: &[u8]) -> (combined: Vec<u8>)
    requires
        first@.len() == second@.len(),
    ensures
        combined@ == exclusive_or(first@, second@),
{
    let mut combined: Vec<u8> = Vec::new();
    while combined.len() < first.len()
        invariant
            combined@ == exclusive_or(first@, second@).take(combined@.len() as int),
            combined@.len() <= first@.len(),
        decreases first@.len() - combined@.len(),
    {
        let at: usize = combined.len();
        combined.push(first[at] ^ second[at]);
    }
    assert(combined@ =~= exclusive_or(first@, second@));
    combined
}

/// Derives the salted password.
#[verifier::loop_isolation(false)]
fn hi(password: &[u8], salt: &[u8], iterations: u32) -> (output: Vec<u8>)
    ensures
        output@ == salted(password@, salt@, iterations as nat),
{
    let mut input: Vec<u8> = owned(salt);
    input.push(0);
    input.push(0);
    input.push(0);
    input.push(1);
    assert(input@ =~= salt@ + seq![0u8, 0, 0, 1]);
    let mut previous = hmac(password, input.as_slice());
    let mut output = owned(previous.as_slice());
    let mut done: u32 = 1;
    while done < iterations
        invariant
            1 <= done,
            done <= iterations || (done == 1 && iterations == 0),
            previous@ == repeated(password@, salt@, done as nat),
            output@ == salted(password@, salt@, done as nat),
            previous@.len() == 32,
            output@.len() == 32,
        decreases iterations - done,
    {
        previous = hmac(password, previous.as_slice());
        output = combine(output.as_slice(), previous.as_slice());
        done = done + 1;
    }
    output
}

/// Appends the decimal digits of a number.
fn write_decimal(body: &mut Vec<u8>, number: u32)
    ensures
        final(body)@ == old(body)@ + decimal(number as nat),
    decreases number,
{
    if number >= 10 {
        write_decimal(body, number / 10);
    }
    body.push(ZERO + (number % 10) as u8);
    assert(body@ =~= old(body)@ + decimal(number as nat));
}

/// Appends an attribute.
fn write_attribute(body: &mut Vec<u8>, name: u8, value: &[u8])
    ensures
        final(body)@ == old(body)@ + attribute(name, value@),
{
    body.push(name);
    body.push(EQUALS);
    append(body, value);
    assert(body@ =~= old(body)@ + attribute(name, value@));
}

impl ScramServer {
    /// Creates a server policy with a random 16-byte salt.
    #[must_use]
    pub fn new(password: &[u8], channel_binding: ServerChannelBinding) -> (server: Self)
        ensures
            server@ == (ScramServerView {
                password: normalised(password@),
                salt: server@.salt,
                iterations: DEFAULT_ITERATIONS,
                binding: channel_binding@,
            }),
            server@.salt.len() == SALT_LENGTH,
    {
        let mut salt: Vec<u8> = vec![0;SALT_LENGTH];
        fill_random(&mut salt);
        ScramServer {
            password: normalize(password),
            salt,
            iterations: DEFAULT_ITERATIONS,
            channel_binding,
        }
    }

    /// Creates a deterministic policy, primarily for persisted verifiers.
    ///
    /// Rejects an iteration count below the recommended minimum.
    pub fn with_parameters(
        password: &[u8],
        salt: Vec<u8>,
        iterations: u32,
        channel_binding: ServerChannelBinding,
    ) -> (result: Result<Self, ScramError>)
        ensures
            match result {
                Ok(server) => iterations >= DEFAULT_ITERATIONS && server@ == (ScramServerView {
                    password: normalised(password@),
                    salt: salt@,
                    iterations,
                    binding: channel_binding@,
                }),
                Err(error) => iterations < DEFAULT_ITERATIONS && error
                    == ScramError::WeakIterationCount,
            },
    {
        if iterations < DEFAULT_ITERATIONS {
            return Err(ScramError::WeakIterationCount);
        }
        Ok(ScramServer { password: normalize(password), salt, iterations, channel_binding })
    }

    /// Accepts a SASL initial response and creates the server-first challenge.
    ///
    /// Rejects unsupported mechanisms, malformed attributes, invalid nonces, and
    /// channel-binding downgrade attempts. The challenge extends the client's nonce
    /// by a random one. The salt's text has to fit an allocation.
    pub fn start(&self, mechanism: &[u8], client_first: &[u8]) -> (result: Result<
        (ScramExchange, Bytes),
        ScramError,
    >)
        requires
            spellable(self@.salt.len()),
        ensures
            exists|nonce: Seq<u8>|
                valid_nonce(nonce) && nonce.len() == NONCE_LENGTH && #[trigger] opens(
                    result,
                    self@,
                    mechanism@,
                    client_first@,
                    nonce,
                ),
            result matches Ok((_, challenge)) ==> disclosed(self@).is_suffix_of(octets(challenge)),
    {
        let nonce = random_nonce();
        let result = self.start_with_nonce(mechanism, client_first, nonce.as_slice());
        assert(opens(result, self@, mechanism@, client_first@, nonce@));
        proof {
            if let Ok((exchange, _)) = &result {
                law_challenge_discloses_parameters(
                    self@,
                    mechanism@,
                    client_first@,
                    nonce@,
                    exchange@,
                );
            }
        }
        result
    }

    /// As [`ScramServer::start`], with a server nonce that was drawn before.
    pub fn start_with_nonce(
        &self,
        mechanism: &[u8],
        client_first: &[u8],
        server_nonce: &[u8],
    ) -> (result: Result<(ScramExchange, Bytes), ScramError>)
        requires
            spellable(self@.salt.len()),
        ensures
            opens(result, self@, mechanism@, client_first@, server_nonce@),
    {
        if utf8_text(client_first).is_none() {
            return Err(ScramError::NotText);
        }
        let (gs2_header, client_first_bare) = split_gs2(client_first)?;
        let plus: bool = if matches_text(mechanism, SCRAM_SHA_256) {
            false
        } else if matches_text(mechanism, SCRAM_SHA_256_PLUS) {
            true
        } else {
            return Err(ScramError::UnsupportedMechanism);
        };
        let expected_channel_binding = self.expected_binding(plus, gs2_header)?;
        let attributes = accepted_attributes(client_first_bare)?;
        let client_nonce = match find_attribute(&attributes, NONCE) {
            Some(nonce) => nonce,
            None => return Err(ScramError::MissingAttribute),
        };
        if !is_valid_nonce(client_nonce) {
            return Err(ScramError::InvalidNonce);
        }
        if find_attribute(&attributes, USERNAME).is_none() {
            return Err(ScramError::MissingAttribute);
        }
        let mut combined_nonce: Vec<u8> = owned(client_nonce);
        append(&mut combined_nonce, server_nonce);
        let mut server_first: Vec<u8> = Vec::new();
        write_attribute(&mut server_first, NONCE, combined_nonce.as_slice());
        server_first.push(COMMA);
        write_attribute(&mut server_first, SALT, encode_base64(self.salt.as_slice()).as_slice());
        server_first.push(COMMA);
        server_first.push(ITERATIONS);
        server_first.push(EQUALS);
        write_decimal(&mut server_first, self.iterations);
        let challenge = from_vec(owned(server_first.as_slice()));
        let exchange = ScramExchange {
            salted_password: hi(self.password.as_slice(), self.salt.as_slice(), self.iterations),
            client_first_bare: owned(client_first_bare),
            server_first,
            combined_nonce,
            expected_channel_binding,
        };
        proof {
            let view = exchange@;
            assert(view.server_first =~= listed(
                listed(
                    attribute(NONCE, view.combined_nonce),
                    attribute(SALT, base64_text(self@.salt)),
                ),
                attribute(ITERATIONS, decimal(self@.iterations as nat)),
            ));
        }
        Ok((exchange, challenge))
    }

    fn expected_binding(&self, plus: bool, gs2_header: &[u8]) -> (result: Result<
        Vec<u8>,
        ScramError,
    >)
        ensures
            match result {
                Ok(expected) => binding_of(plus, self@.binding, gs2_header@) == Ok::<_, ScramError>(
                    expected@,
                ),
                Err(error) => binding_of(plus, self@.binding, gs2_header@) == Err::<Seq<u8>, _>(
                    error,
                ),
            },
    {
        if plus {
            match &self.channel_binding {
                ServerChannelBinding::TlsServerEndPoint(binding) => {
                    if matches_text(gs2_header, "p=tls-server-end-point,,") {
                        let mut expected: Vec<u8> = owned(gs2_header);
                        append(&mut expected, binding.as_slice());
                        return Ok(expected);
                    }
                },
                ServerChannelBinding::Unbound => {},
            }
            return Err(ScramError::BindingUnavailable);
        }
        if matches_text(gs2_header, "y,,") {
            match &self.channel_binding {
                ServerChannelBinding::TlsServerEndPoint(_) => Err(ScramError::BindingDowngrade),
                ServerChannelBinding::Unbound => Ok(owned(gs2_header)),
            }
        } else if matches_text(gs2_header, "n,,") {
            Ok(owned(gs2_header))
        } else {
            Err(ScramError::UnexpectedBinding)
        }
    }
}

/// Last position where a proof attribute starts.
#[verifier::loop_isolation(false)]
fn find_proof(message: &[u8]) -> (marker: Option<usize>)
    ensures
        match marker {
            Some(at) => last_proof(message@, message@.len()) == Some(at as int) && proof_at(
                message@,
                at as int,
            ),
            None => last_proof(message@, message@.len()) is None,
        },
{
    let mut bound: usize = message.len();
    while bound > 0
        invariant
            bound <= message.len(),
            last_proof(message@, message@.len()) == last_proof(message@, bound as nat),
        decreases bound,
    {
        let at: usize = bound - 1;
        if message.len() - at >= 3 && message[at] == COMMA && message[at + 1] == PROOF
            && message[at + 2] == EQUALS {
            return Some(at);
        }
        bound = at;
    }
    None
}

impl ScramExchange {
    /// Verifies the client proof and returns the server-final verifier.
    ///
    /// Rejects malformed attributes, nonce or channel-binding mismatches, and
    /// invalid client proofs.
    pub fn finish(self, client_final: &[u8]) -> (result: Result<Bytes, ScramError>)
        ensures
            match result {
                Ok(answer) => finished(self@, client_final@) == Ok::<_, ScramError>(octets(answer)),
                Err(error) => finished(self@, client_final@) == Err::<Seq<u8>, _>(error),
            },
    {
        if utf8_text(client_final).is_none() {
            return Err(ScramError::NotText);
        }
        let proof_marker: usize = match find_proof(client_final) {
            Some(at) => at,
            None => return Err(ScramError::MissingProof),
        };
        let without_proof = slice_subrange(client_final, 0, proof_marker);
        assert(without_proof@ =~= client_final@.take(proof_marker as int));
        let attributes = accepted_attributes(client_final)?;
        match find_attribute(&attributes, NONCE) {
            Some(nonce) => {
                if !crate::octet_map::same(nonce, self.combined_nonce.as_slice()) {
                    return Err(ScramError::NonceMismatch);
                }
            },
            None => return Err(ScramError::MissingAttribute),
        }
        let channel_binding = match find_attribute(&attributes, CHANNEL_BINDING) {
            Some(text) => match decode_base64(text) {
                Some(binding) => binding,
                None => return Err(ScramError::InvalidEncoding),
            },
            None => return Err(ScramError::MissingAttribute),
        };
        if !equal_in_constant_time(
            channel_binding.as_slice(),
            self.expected_channel_binding.as_slice(),
        ) {
            return Err(ScramError::BindingMismatch);
        }
        let encoded_proof = match find_attribute(&attributes, PROOF) {
            Some(text) => text,
            None => return Err(ScramError::MissingAttribute),
        };
        if client_final.len() - proof_marker - 3 != encoded_proof.len() {
            return Err(ScramError::ProofNotLast);
        }
        let proof_octets = match decode_base64(encoded_proof) {
            Some(octets) => octets,
            None => return Err(ScramError::InvalidEncoding),
        };
        self.judge(without_proof, proof_octets.as_slice())
    }

    /// Judges a decoded proof.
    fn judge(&self, without_proof: &[u8], proof_octets: &[u8]) -> (result: Result<Bytes, ScramError>)
        ensures
            match result {
                Ok(answer) => proven(self@, without_proof@, proof_octets@) == Ok::<_, ScramError>(
                    octets(answer),
                ),
                Err(error) => proven(self@, without_proof@, proof_octets@) == Err::<Seq<u8>, _>(
                    error,
                ),
            },
    {
        if proof_octets.len() != PROOF_LENGTH {
            return Err(ScramError::ProofLength);
        }
        let mut auth_message: Vec<u8> = owned(self.client_first_bare.as_slice());
        auth_message.push(COMMA);
        append(&mut auth_message, self.server_first.as_slice());
        auth_message.push(COMMA);
        append(&mut auth_message, without_proof);
        assert(auth_message@ =~= self::auth_message(self@, without_proof@));
        let client_key = hmac(self.salted_password.as_slice(), "Client Key".as_bytes());
        let stored_key = digest(client_key.as_slice());
        let client_signature = hmac(stored_key.as_slice(), auth_message.as_slice());
        let recovered_key = combine(proof_octets, client_signature.as_slice());
        let recovered_stored_key = digest(recovered_key.as_slice());
        if !equal_in_constant_time(recovered_stored_key.as_slice(), stored_key.as_slice()) {
            return Err(ScramError::InvalidProof);
        }
        let server_key = hmac(self.salted_password.as_slice(), "Server Key".as_bytes());
        let server_signature = hmac(server_key.as_slice(), auth_message.as_slice());
        let mut answer: Vec<u8> = Vec::new();
        write_attribute(&mut answer, VERIFIER, encode_base64(server_signature.as_slice()).as_slice());
        assert(answer@ =~= attribute(VERIFIER, base64_text(server_signature@)));
        Ok(from_vec(answer))
    }
}

/// The client-final message of a client that follows the protocol.
pub open spec fn client_final(
    exchange: ScramExchangeView,
    binding_text: Seq<u8>,
    evidence_text: Seq<u8>,
) -> Seq<u8> {
    listed(client_final_bare(exchange, binding_text), attribute(PROOF, evidence_text))
}

/// The part of the client-final message that is signed.
pub open spec fn client_final_bare(exchange: ScramExchangeView, binding_text: Seq<u8>) -> Seq<u8> {
    listed(
        attribute(CHANNEL_BINDING, binding_text),
        attribute(NONCE, exchange.combined_nonce),
    )
}

/// A text without commas ends at the first comma behind it.
pub proof fn lemma_first_comma(text: Seq<u8>, rest: Seq<u8>)
    requires
        !text.contains(COMMA),
    ensures
        listed(text, rest).index_of_first(COMMA) == Some(text.len() as int),
        first_text(listed(text, rest)) == text,
        listed(text, rest).skip(text.len() as int + 1) == rest,
{
    let message = listed(text, rest);
    assert(message[text.len() as int] == COMMA);
    message.index_of_first_ensures(COMMA);
    let at = message.index_of_first(COMMA).unwrap();
    if at < text.len() {
        assert(text[at] == COMMA);
    }
    assert(message.take(text.len() as int) =~= text);
    assert(message.skip(text.len() as int + 1) =~= rest);
}

/// A text without commas is the last one.
pub proof fn lemma_last_text(text: Seq<u8>)
    requires
        !text.contains(COMMA),
    ensures
        text.index_of_first(COMMA) is None,
        first_text(text) == text,
{
    text.index_of_first_ensures(COMMA);
}

proof fn lemma_last_proof(message: Seq<u8>, marker: nat, bound: nat)
    requires
        proof_at(message, marker as int),
        marker < bound <= message.len(),
        forall|at: int| marker < at < message.len() ==> message[at] != COMMA,
    ensures
        last_proof(message, bound) == Some(marker as int),
    decreases bound,
{
    if bound - 1 > marker {
        lemma_last_proof(message, marker, (bound - 1) as nat);
    }
}

proof fn lemma_exclusive_or_cancels(first: Seq<u8>, second: Seq<u8>)
    requires
        first.len() == second.len(),
    ensures
        exclusive_or(exclusive_or(first, second), second) == first,
{
    assert forall|at: int| 0 <= at < first.len() implies (first[at] ^ second[at]) ^ second[at]
        == first[at] by {
        let left = first[at];
        let right = second[at];
        assert((left ^ right) ^ right == left) by (bit_vector);
    }
    assert(exclusive_or(exclusive_or(first, second), second) =~= first);
}

/// The salted password is iterated as often as announced, for every count: it is the
/// exclusive or of all blocks, where the first block is the HMAC of the salt with a
/// block index of one, and each further block is the HMAC of the one before.
pub proof fn law_salted_password_is_iterated(password: Seq<u8>, salt: Seq<u8>, count: nat)
    requires
        count >= 1,
    ensures
        repeated(password, salt, 1) == hmac_sha256(password, salt + seq![0u8, 0u8, 0u8, 1u8]),
        repeated(password, salt, count + 1) == hmac_sha256(
            password,
            repeated(password, salt, count),
        ),
        salted(password, salt, 1) == repeated(password, salt, 1),
        salted(password, salt, count + 1).len() == salted(password, salt, count).len(),
        forall|at: int|
            0 <= at < salted(password, salt, count).len() ==> #[trigger] salted(
                password,
                salt,
                count + 1,
            )[at] == salted(password, salt, count)[at] ^ repeated(password, salt, count + 1)[at],
{
}

/// An exchange keeps the password salted with the server's own salt, as often as its
/// challenge announces.
pub proof fn law_exchange_uses_the_announced_parameters(
    server: ScramServerView,
    mechanism: Seq<u8>,
    client_first: Seq<u8>,
    nonce: Seq<u8>,
    exchange: ScramExchangeView,
    count: nat,
)
    requires
        opened(server, mechanism, client_first, nonce) == Ok::<_, ScramError>(exchange),
        count >= 1,
        exchange.server_first == attribute(NONCE, exchange.combined_nonce) + seq![COMMA]
            + listed(
            attribute(SALT, base64_text(server.salt)),
            attribute(ITERATIONS, decimal(count)),
        ),
    ensures
        server.iterations == count,
        exchange.salted_password == salted(server.password, server.salt, count),
{
    law_challenge_discloses_parameters(server, mechanism, client_first, nonce, exchange);
    let head = attribute(NONCE, exchange.combined_nonce) + seq![COMMA];
    let salt = attribute(SALT, base64_text(server.salt));
    let front = head + salt.push(COMMA) + seq![ITERATIONS, EQUALS];
    let announced = decimal(server.iterations as nat);
    let given = decimal(count);
    assert(exchange.server_first =~= front + announced);
    assert(exchange.server_first =~= front + given);
    assert(exchange.server_first.skip(front.len() as int) =~= announced);
    assert(exchange.server_first.skip(front.len() as int) =~= given);
    lemma_decimal_is_injective(server.iterations as nat, count);
}

/// The number that decimal digits stand for.
spec fn valued(digits: Seq<u8>) -> int
    decreases digits.len(),
{
    if digits.len() == 0 {
        0
    } else {
        valued(digits.drop_last()) * 10 + (digits.last() - ZERO)
    }
}

proof fn lemma_decimal_value(number: nat)
    ensures
        valued(decimal(number)) == number,
    decreases number,
{
    reveal_with_fuel(valued, 2);
    if number >= 10 {
        lemma_decimal_value(number / 10);
        assert(decimal(number).drop_last() =~= decimal(number / 10));
    } else {
        assert(decimal(number).drop_last() =~= Seq::empty());
    }
}

proof fn lemma_decimal_is_injective(first: nat, second: nat)
    requires
        decimal(first) == decimal(second),
    ensures
        first == second,
{
    lemma_decimal_value(first);
    lemma_decimal_value(second);
}

/// Numbers are written in decimal: digits between `0` and `9`, the most significant
/// first and none of them superfluous.
pub proof fn law_decimal_notation(number: nat)
    ensures
        decimal(number).len() > 0,
        forall|at: int|
            0 <= at < decimal(number).len() ==> 0x30 <= (#[trigger] decimal(number)[at]) <= 0x39,
        decimal(number).last() == 0x30 + number % 10,
        number >= 10 ==> decimal(number).drop_last() == decimal(number / 10),
        number > 0 ==> decimal(number)[0] != 0x30,
    decreases number,
{
    if number >= 10 {
        law_decimal_notation(number / 10);
        assert(decimal(number).drop_last() =~= decimal(number / 10));
        assert(decimal(number)[0] == decimal(number / 10)[0]);
    }
}

/// The keys and signatures of an exchange, spelled out: both keys come of the salted
/// password, the client signs with the digest of its key and the server with its own
/// key, and both sign the two first messages and the final one without its proof,
/// with commas between them.
pub proof fn law_scram_signatures(exchange: ScramExchangeView, without_proof: Seq<u8>)
    ensures
        auth_message(exchange, without_proof) == exchange.client_first_bare + seq![0x2cu8]
            + exchange.server_first + seq![0x2cu8] + without_proof,
        client_signature(exchange, without_proof) == hmac_sha256(
            sha256(hmac_sha256(exchange.salted_password, encode_utf8("Client Key"@))),
            auth_message(exchange, without_proof),
        ),
        server_signature(exchange, without_proof) == hmac_sha256(
            hmac_sha256(exchange.salted_password, encode_utf8("Server Key"@)),
            auth_message(exchange, without_proof),
        ),
{
    assert(auth_message(exchange, without_proof) =~= exchange.client_first_bare + seq![0x2cu8]
        + exchange.server_first + seq![0x2cu8] + without_proof);
}

/// Which headers are acceptable, and what the client has to repeat: the plain
/// mechanism takes a header without binding and expects just that header, the plus
/// variant takes the header of the end-point binding and expects it with the
/// server's binding data behind it.
pub proof fn law_acceptable_bindings(plus: bool, binding: Option<Seq<u8>>, header: Seq<u8>)
    ensures
        binding_of(plus, binding, header) is Ok <==> if plus {
            binding is Some && header == encode_utf8("p=tls-server-end-point,,"@)
        } else {
            header == encode_utf8("n,,"@) || (header == encode_utf8("y,,"@) && binding is None)
        },
        binding_of(plus, binding, header) matches Ok(expected) ==> expected == if plus {
            header + binding.unwrap()
        } else {
            header
        },
{
    reveal_strlit("n,,");
    reveal_strlit("y,,");
    encode_utf8_decode_utf8("n,,"@);
    encode_utf8_decode_utf8("y,,"@);
    assert("n,,"@[0] != "y,,"@[0]);
}

/// A password that is text is prepared where preparation allows it; any other
/// password is taken as it is.
pub proof fn law_password_preparation(password: Seq<u8>, text: Seq<char>)
    ensures
        !valid_utf8(password) ==> normalised(password) == password,
        prepared_text(text) matches Some(prepared) ==> normalised(encode_utf8(text))
            == encode_utf8(prepared),
        prepared_text(text) is None ==> normalised(encode_utf8(text)) == encode_utf8(text),
{
    encode_utf8_valid_utf8(text);
    encode_utf8_decode_utf8(text);
}

/// What a challenge ends with: the salt and the iteration count.
pub open spec fn disclosed(server: ScramServerView) -> Seq<u8> {
    seq![COMMA] + listed(
        attribute(SALT, base64_text(server.salt)),
        attribute(ITERATIONS, decimal(server.iterations as nat)),
    )
}

/// Every challenge discloses the salt and the iteration count that the server was
/// made with, behind the nonce that extends the client's.
pub proof fn law_challenge_discloses_parameters(
    server: ScramServerView,
    mechanism: Seq<u8>,
    client_first: Seq<u8>,
    nonce: Seq<u8>,
    exchange: ScramExchangeView,
)
    requires
        opened(server, mechanism, client_first, nonce) == Ok::<_, ScramError>(exchange),
    ensures
        exchange.server_first == attribute(NONCE, exchange.combined_nonce) + disclosed(server),
        disclosed(server).is_suffix_of(exchange.server_first),
        nonce.is_suffix_of(exchange.combined_nonce),
{
    let text = attribute(NONCE, exchange.combined_nonce) + disclosed(server);
    assert(exchange.server_first =~= text);
    assert(text.skip(text.len() - disclosed(server).len()) =~= disclosed(server));
    let combined = exchange.combined_nonce;
    assert(combined.skip(combined.len() - nonce.len()) =~= nonce);
}

/// A client that knows the password is accepted: a client-final message that
/// repeats the channel binding and the combined nonce, and whose proof is the
/// client key combined with the client signature, is answered with the server
/// signature.
pub proof fn law_scram_accepts_honest_client(
    exchange: ScramExchangeView,
    binding_text: Seq<u8>,
    evidence_text: Seq<u8>,
)
    requires
        valid_nonce(exchange.combined_nonce),
        !binding_text.contains(COMMA),
        base64_octets(binding_text) == Some(exchange.expected_binding),
        !evidence_text.contains(COMMA),
        base64_octets(evidence_text) == Some(
            exclusive_or(
                client_key(exchange),
                client_signature(exchange, client_final_bare(exchange, binding_text)),
            ),
        ),
        client_key(exchange).len() == PROOF_LENGTH,
        client_signature(exchange, client_final_bare(exchange, binding_text)).len()
            == PROOF_LENGTH,
        valid_utf8(client_final(exchange, binding_text, evidence_text)),
    ensures
        finished(exchange, client_final(exchange, binding_text, evidence_text)) == Ok::<
            _,
            ScramError,
        >(
            attribute(
                VERIFIER,
                base64_text(
                    server_signature(exchange, client_final_bare(exchange, binding_text)),
                ),
            ),
        ),
{
    let bare = client_final_bare(exchange, binding_text);
    let message = client_final(exchange, binding_text, evidence_text);
    let binding = attribute(CHANNEL_BINDING, binding_text);
    let nonce = attribute(NONCE, exchange.combined_nonce);
    let evidence = attribute(PROOF, evidence_text);
    assert(!binding.contains(COMMA)) by {
        if binding.contains(COMMA) {
            let at = choose|at: int| 0 <= at < binding.len() && binding[at] == COMMA;
            assert(binding_text[at - 2] == COMMA);
        }
    }
    assert(!nonce.contains(COMMA)) by {
        if nonce.contains(COMMA) {
            let at = choose|at: int| 0 <= at < nonce.len() && nonce[at] == COMMA;
            assert(nonce_octet(exchange.combined_nonce[at - 2]));
        }
    }
    assert(!evidence.contains(COMMA)) by {
        if evidence.contains(COMMA) {
            let at = choose|at: int| 0 <= at < evidence.len() && evidence[at] == COMMA;
            assert(evidence_text[at - 2] == COMMA);
        }
    }
    assert(message =~= listed(binding, listed(nonce, evidence)));
    lemma_first_comma(binding, listed(nonce, evidence));
    lemma_first_comma(nonce, evidence);
    lemma_last_text(evidence);
    assert(binding.skip(2) =~= binding_text);
    assert(nonce.skip(2) =~= exchange.combined_nonce);
    assert(evidence.skip(2) =~= evidence_text);
    let none = Seq::<Attribute>::empty();
    let one = none.push((CHANNEL_BINDING, binding_text));
    let two = one.push((NONCE, exchange.combined_nonce));
    let three = two.push((PROOF, evidence_text));
    reveal_with_fuel(named, 4);
    reveal_with_fuel(scanned, 4);
    assert(three.skip(1).skip(1) =~= seq![(PROOF, evidence_text)]);
    assert(two.skip(1) =~= seq![(NONCE, exchange.combined_nonce)]);
    assert(scanned(none, message) == scanned(one, listed(nonce, evidence)));
    assert(scanned(one, listed(nonce, evidence)) == scanned(two, evidence));
    assert(scanned(two, evidence) == Ok::<_, ScramError>(three));
    assert(three.skip(1)[0] == (NONCE, exchange.combined_nonce));
    assert(named(three, CHANNEL_BINDING) == Some(binding_text));
    assert(named(three, NONCE) == Some(exchange.combined_nonce));
    assert(named(three, PROOF) == Some(evidence_text));
    assert(named(three, MANDATORY) is None);
    let marker = bare.len();
    assert(proof_at(message, marker as int));
    assert forall|at: int| marker < at < message.len() implies message[at] != COMMA by {
        assert(message[at] == evidence[at - marker - 1]);
    }
    lemma_last_proof(message, marker, message.len());
    assert(message.take(marker as int) =~= bare);
    lemma_exclusive_or_cancels(client_key(exchange), client_signature(exchange, bare));
}

/// Whether a client-final message repeats the combined nonce and the expected
/// binding, and its proof yields the client key's digest.
pub open spec fn earned(exchange: ScramExchangeView, message: Seq<u8>) -> bool {
    let without_proof = message.take(last_proof(message, message.len()).unwrap());
    &&& attributes_of(message) matches Ok(attributes)
    &&& named(attributes, NONCE) == Some(exchange.combined_nonce)
    &&& named(attributes, CHANNEL_BINDING) matches Some(binding)
    &&& base64_octets(binding) == Some(exchange.expected_binding)
    &&& named(attributes, PROOF) matches Some(evidence)
    &&& base64_octets(evidence) matches Some(octets)
    &&& sha256(exclusive_or(octets, client_signature(exchange, without_proof))) == sha256(
        client_key(exchange),
    )
}

/// An accepted client-final message proves knowledge of the client key: its proof,
/// combined with the client signature, has the digest of the client key. It also
/// repeats the combined nonce and the expected channel binding.
pub proof fn law_scram_acceptance_is_earned(exchange: ScramExchangeView, message: Seq<u8>)
    requires
        finished(exchange, message) is Ok,
    ensures
        earned(exchange, message),
{
}

/// A server that can bind channels never accepts the header of a client that
/// believes otherwise, and the plus variant is only accepted with binding data.
pub proof fn law_scram_refuses_downgrade(
    server: ScramServerView,
    mechanism: Seq<u8>,
    client_first: Seq<u8>,
    nonce: Seq<u8>,
)
    requires
        opened(server, mechanism, client_first, nonce) is Ok,
    ensures
        header_and_rest(client_first) matches Ok((header, _)) && mechanism_of(mechanism) matches Ok(
            plus,
        ) && (plus ==> server.binding is Some) && (server.binding is Some ==> header
            != encode_utf8("y,,"@)),
{
    reveal_strlit("y,,");
    reveal_strlit("p=tls-server-end-point,,");
    if let Ok((header, _)) = header_and_rest(client_first) {
        if header == encode_utf8("y,,"@) && server.binding is Some {
            encode_utf8_decode_utf8("y,,"@);
            encode_utf8_decode_utf8("p=tls-server-end-point,,"@);
            assert("y,,"@.len() != "p=tls-server-end-point,,"@.len());
        }
    }
}

/// Attributes as they stand in a message: each a letter, an equals sign and a value,
/// with commas between them.
pub open spec fn spelled(attributes: Seq<Attribute>) -> Seq<u8>
    decreases attributes.len(),
{
    if attributes.len() == 0 {
        Seq::empty()
    } else {
        let first = seq![attributes[0].0, 0x3du8] + attributes[0].1;
        if attributes.len() == 1 {
            first
        } else {
            first + seq![0x2cu8] + spelled(attributes.skip(1))
        }
    }
}

/// An attribute that can stand in a message: its name is a letter, and its value holds
/// no comma.
pub open spec fn well_formed_attribute(attribute: Attribute) -> bool {
    (0x41 <= attribute.0 <= 0x5a || 0x61 <= attribute.0 <= 0x7a) && !attribute.1.contains(0x2cu8)
}

/// Attributes that can be read: at least one, each well formed, none twice and none the
/// mandatory extension `m`.
pub open spec fn readable(attributes: Seq<Attribute>) -> bool {
    &&& attributes.len() > 0
    &&& forall|i: int|
        0 <= i < attributes.len() ==> well_formed_attribute(#[trigger] attributes[i])
            && attributes[i].0 != 0x6d
    &&& forall|i: int, j: int|
        0 <= i < j < attributes.len() ==> (#[trigger] attributes[i]).0 != (
        #[trigger] attributes[j]).0
}

/// The attributes of a message are what the message spells, and can be read.
pub proof fn law_attributes_are_what_is_spelled(message: Seq<u8>)
    ensures
        attributes_of(message) matches Ok(attributes) ==> spelled(attributes) == message
            && readable(attributes),
{
    lemma_scanned(Seq::empty(), message);
    if let Ok(attributes) = attributes_of(message) {
        assert(attributes.skip(0) =~= attributes);
        lemma_named(attributes, MANDATORY);
    }
}

/// Attributes that can be read are, from what they spell.
pub proof fn law_readable_attributes_are_read(attributes: Seq<Attribute>)
    requires
        readable(attributes),
    ensures
        attributes_of(spelled(attributes)) == Ok::<_, ScramError>(attributes),
        forall|i: int|
            0 <= i < attributes.len() ==> named(attributes, (#[trigger] attributes[i]).0) == Some(
                attributes[i].1,
            ),
{
    lemma_spelled_is_scanned(Seq::empty(), attributes);
    assert(Seq::<Attribute>::empty() + attributes =~= attributes);
    lemma_named(attributes, MANDATORY);
    assert forall|i: int| 0 <= i < attributes.len() implies named(
        attributes,
        (#[trigger] attributes[i]).0,
    ) == Some(attributes[i].1) by {
        lemma_named_at(attributes, i);
    }
}

proof fn lemma_named(attributes: Seq<Attribute>, name: u8)
    ensures
        named(attributes, name) is Some <==> exists|i: int|
            0 <= i < attributes.len() && (#[trigger] attributes[i]).0 == name,
    decreases attributes.len(),
{
    if attributes.len() > 0 && attributes[0].0 != name {
        let rest = attributes.skip(1);
        lemma_named(rest, name);
        if exists|i: int| 0 <= i < rest.len() && (#[trigger] rest[i]).0 == name {
            let i = choose|i: int| 0 <= i < rest.len() && (#[trigger] rest[i]).0 == name;
            assert(attributes[i + 1].0 == name);
        }
        if exists|i: int| 0 <= i < attributes.len() && (#[trigger] attributes[i]).0 == name {
            let i = choose|i: int|
                0 <= i < attributes.len() && (#[trigger] attributes[i]).0 == name;
            assert(rest[i - 1].0 == name);
        }
    }
}

proof fn lemma_named_at(attributes: Seq<Attribute>, at: int)
    requires
        0 <= at < attributes.len(),
        forall|i: int| 0 <= i < at ==> (#[trigger] attributes[i]).0 != attributes[at].0,
    ensures
        named(attributes, attributes[at].0) == Some(attributes[at].1),
    decreases at,
{
    if at > 0 {
        let rest = attributes.skip(1);
        assert(attributes[0].0 != attributes[at].0);
        assert(rest[at - 1] == attributes[at]);
        assert forall|i: int| 0 <= i < at - 1 implies (#[trigger] rest[i]).0 != rest[at - 1].0 by {
            assert(rest[i] == attributes[i + 1]);
        }
        lemma_named_at(rest, at - 1);
    }
}

proof fn lemma_scanned(before: Seq<Attribute>, message: Seq<u8>)
    ensures
        scanned(before, message) matches Ok(all) ==> {
            let added = all.skip(before.len() as int);
            &&& all.len() > before.len()
            &&& all.take(before.len() as int) == before
            &&& spelled(added) == message
            &&& forall|i: int|
                before.len() <= i < all.len() ==> well_formed_attribute(#[trigger] all[i])
            &&& forall|i: int, j: int|
                0 <= i < j < all.len() && before.len() <= j ==> (#[trigger] all[i]).0 != (
                #[trigger] all[j]).0
        },
    decreases message.len(),
{
    message.index_of_first_ensures(COMMA);
    let text = first_text(message);
    if let Ok(all) = scanned(before, message) {
        let read = before.push((text[0], text.skip(2)));
        let count = before.len() as int;
        lemma_named(before, text[0]);
        assert(seq![text[0], 0x3du8] + text.skip(2) =~= text);
        assert(!text.skip(2).contains(0x2cu8)) by {
            if text.skip(2).contains(0x2cu8) {
                let i = choose|i: int| 0 <= i < text.skip(2).len() && text.skip(2)[i] == 0x2cu8;
                assert(message[i + 2] == COMMA);
            }
        }
        match message.index_of_first(COMMA) {
            Some(end) => {
                let rest = message.skip(end + 1);
                lemma_scanned(read, rest);
                let added = all.skip(count);
                assert(all.take(count + 1)[count] == read[count]);
                assert(all[count] == (text[0], text.skip(2)));
                assert(added.skip(1) =~= all.skip(count + 1));
                assert(added.len() > 1);
                assert(text + seq![0x2cu8] + rest =~= message);
                assert(all.take(count) =~= all.take(count + 1).take(count));
                assert(read.take(count) =~= before);
                assert forall|i: int, j: int|
                    0 <= i < j < all.len() && before.len() <= j implies (#[trigger] all[i]).0 != (
                #[trigger] all[j]).0 by {
                    if j == count {
                        assert(all[i] == all.take(count)[i]);
                        assert(before[i] == all[i]);
                    }
                }
            },
            None => {
                assert(all =~= read);
                assert(all.skip(count) =~= seq![(text[0], text.skip(2))]);
                assert(all.take(count) =~= before);
            },
        }
    }
}

proof fn lemma_spelled_is_scanned(before: Seq<Attribute>, attributes: Seq<Attribute>)
    requires
        attributes.len() > 0,
        forall|i: int|
            0 <= i < attributes.len() ==> well_formed_attribute(#[trigger] attributes[i]),
        forall|i: int, j: int|
            0 <= i < j < attributes.len() ==> (#[trigger] attributes[i]).0 != (
            #[trigger] attributes[j]).0,
        forall|i: int, j: int|
            0 <= i < before.len() && 0 <= j < attributes.len() ==> (#[trigger] before[i]).0 != (
            #[trigger] attributes[j]).0,
    ensures
        scanned(before, spelled(attributes)) == Ok::<_, ScramError>(before + attributes),
    decreases attributes.len(),
{
    let message = spelled(attributes);
    let first = seq![attributes[0].0, 0x3du8] + attributes[0].1;
    let rest = attributes.skip(1);
    message.index_of_first_ensures(COMMA);
    assert(well_formed_attribute(attributes[0]));
    assert(!first.contains(COMMA)) by {
        if first.contains(COMMA) {
            let i = choose|i: int| 0 <= i < first.len() && first[i] == COMMA;
            assert(i >= 2);
            assert(attributes[0].1[i - 2] == 0x2cu8);
        }
    }
    lemma_named(before, attributes[0].0);
    let read = before.push(attributes[0]);
    assert(first.skip(2) =~= attributes[0].1);
    if attributes.len() == 1 {
        assert(message =~= first);
        assert(first_text(message) =~= first);
        assert(before + attributes =~= read);
    } else {
        assert(message == first + seq![0x2cu8] + spelled(rest));
        assert(message[first.len() as int] == COMMA);
        let end = message.index_of_first(COMMA)->Some_0;
        if end < first.len() {
            assert(first[end] == COMMA);
        }
        assert(end == first.len());
        assert(message.take(end) =~= first);
        assert(message.skip(end + 1) =~= spelled(rest));
        assert forall|i: int| 0 <= i < rest.len() implies well_formed_attribute(
            #[trigger] rest[i],
        ) by {
            assert(rest[i] == attributes[i + 1]);
        }
        assert forall|i: int, j: int| 0 <= i < j < rest.len() implies (#[trigger] rest[i]).0 != (
        #[trigger] rest[j]).0 by {
            assert(rest[i] == attributes[i + 1] && rest[j] == attributes[j + 1]);
        }
        assert forall|i: int, j: int| 0 <= i < read.len() && 0 <= j < rest.len() implies (
        #[trigger] read[i]).0 != (#[trigger] rest[j]).0 by {
            assert(rest[j] == attributes[j + 1]);
            if i < before.len() {
                assert(read[i] == before[i]);
            }
        }
        lemma_spelled_is_scanned(read, rest);
        assert(read + rest =~= before + attributes);
    }
}

/// The header of a client-first message is all up to its second comma; without two
/// commas there is none.
pub proof fn law_header_ends_at_the_second_comma(message: Seq<u8>)
    ensures
        header_and_rest(message) matches Ok((header, rest)) ==> {
            &&& header + rest == message
            &&& header.len() >= 2
            &&& header.last() == 0x2c
            &&& exists|first: int|
                0 <= first < header.len() - 1 && (#[trigger] header[first]) == 0x2c && forall|i: int|
                    0 <= i < header.len() - 1 && i != first ==> (#[trigger] header[i]) != 0x2c
        },
        header_and_rest(message) is Err ==> forall|i: int, j: int|
            0 <= i < j < message.len() ==> (#[trigger] message[i]) != 0x2c || (
            #[trigger] message[j]) != 0x2c,
{
    message.index_of_first_ensures(COMMA);
    if let Some(first) = message.index_of_first(COMMA) {
        let tail = message.skip(first + 1);
        tail.index_of_first_ensures(COMMA);
        if let Ok((header, rest)) = header_and_rest(message) {
            assert(header + rest =~= message);
            let second = tail.index_of_first(COMMA)->Some_0;
            assert(header.len() == first + 1 + second + 1);
            assert(header.last() == tail[second]);
            assert(header[first] == 0x2c);
            assert forall|i: int| 0 <= i < header.len() - 1 && i != first implies (
            #[trigger] header[i]) != 0x2c by {
                if i > first {
                    assert(tail[i - first - 1] == header[i]);
                }
            }
        } else {
            assert forall|i: int, j: int| 0 <= i < j < message.len() implies (
            #[trigger] message[i]) != 0x2c || (#[trigger] message[j]) != 0x2c by {
                if message[i] == 0x2c && message[j] == 0x2c {
                    assert(first <= i);
                    assert(tail[j - first - 1] == message[j]);
                    assert(tail.contains(COMMA));
                }
            }
        }
    } else {
        assert forall|i: int, j: int| 0 <= i < j < message.len() implies (#[trigger] message[i])
            != 0x2c || (#[trigger] message[j]) != 0x2c by {
            if message[i] == 0x2c {
                assert(message.contains(COMMA));
            }
        }
    }
}

/// A nonce is printable and holds no comma, and the mechanisms are known by name.
pub proof fn law_nonces_and_mechanisms(nonce: Seq<u8>, mechanism: Seq<u8>)
    ensures
        valid_nonce(nonce) <==> nonce.len() > 0 && forall|at: int|
            0 <= at < nonce.len() ==> 0x21 <= (#[trigger] nonce[at]) <= 0x7e && nonce[at] != 0x2c,
        mechanism_of(mechanism) == Ok::<_, ScramError>(false) <==> mechanism == encode_utf8(
            "SCRAM-SHA-256"@,
        ),
        mechanism == encode_utf8("SCRAM-SHA-256-PLUS"@) <==> mechanism_of(mechanism) == Ok::<
            _,
            ScramError,
        >(true),
{
    reveal_strlit("SCRAM-SHA-256");
    reveal_strlit("SCRAM-SHA-256-PLUS");
    encode_utf8_decode_utf8("SCRAM-SHA-256"@);
    encode_utf8_decode_utf8("SCRAM-SHA-256-PLUS"@);
    assert("SCRAM-SHA-256"@.len() != "SCRAM-SHA-256-PLUS"@.len());
    if valid_nonce(nonce) {
        assert forall|at: int| 0 <= at < nonce.len() implies 0x21 <= (#[trigger] nonce[at]) <= 0x7e
            && nonce[at] != 0x2c by {
            assert(nonce_octet(nonce[at]));
        }
    }
}

/// A client-final message that is well formed but answers another challenge, repeats
/// another binding or proves another key is refused for that.
pub proof fn law_wrong_answers_are_refused(
    exchange: ScramExchangeView,
    nonce: Seq<u8>,
    binding_text: Seq<u8>,
    evidence_text: Seq<u8>,
    message: Seq<u8>,
    bare: Seq<u8>,
)
    requires
        bare == spelled(seq![(0x63u8, binding_text), (0x72u8, nonce)]),
        message == spelled(seq![(0x63u8, binding_text), (0x72u8, nonce), (0x70u8, evidence_text)]),
        valid_utf8(message),
        !nonce.contains(COMMA),
        !binding_text.contains(COMMA),
        !evidence_text.contains(COMMA),
    ensures
        nonce != exchange.combined_nonce ==> finished(exchange, message) == Err::<Seq<u8>, _>(
            ScramError::NonceMismatch,
        ),
        nonce == exchange.combined_nonce ==> match base64_octets(binding_text) {
            None => finished(exchange, message) == Err::<Seq<u8>, _>(ScramError::InvalidEncoding),
            Some(binding) => if binding != exchange.expected_binding {
                finished(exchange, message) == Err::<Seq<u8>, _>(ScramError::BindingMismatch)
            } else {
                match base64_octets(evidence_text) {
                    None => finished(exchange, message) == Err::<Seq<u8>, _>(
                        ScramError::InvalidEncoding,
                    ),
                    Some(evidence) => {
                        &&& evidence.len() != 32 ==> finished(exchange, message) == Err::<
                            Seq<u8>,
                            _,
                        >(ScramError::ProofLength)
                        &&& evidence.len() == 32 && sha256(
                            exclusive_or(evidence, client_signature(exchange, bare)),
                        ) != sha256(client_key(exchange)) ==> finished(exchange, message) == Err::<
                            Seq<u8>,
                            _,
                        >(ScramError::InvalidProof)
                        &&& evidence.len() == 32 && sha256(
                            exclusive_or(evidence, client_signature(exchange, bare)),
                        ) == sha256(client_key(exchange)) ==> finished(exchange, message) == Ok::<
                            _,
                            ScramError,
                        >(
                            seq![0x76u8, 0x3du8] + base64_text(server_signature(exchange, bare)),
                        )
                    },
                }
            },
        },
{
    let all = seq![(0x63u8, binding_text), (0x72u8, nonce), (0x70u8, evidence_text)];
    law_readable_attributes_are_read(all);
    assert(all[0].0 == 0x63 && all[1].0 == 0x72 && all[2].0 == 0x70);
    assert(named(all, NONCE) == Some(nonce)) by {
        lemma_named_at(all, 1);
    }
    assert(named(all, CHANNEL_BINDING) == Some(binding_text)) by {
        lemma_named_at(all, 0);
    }
    assert(named(all, PROOF) == Some(evidence_text)) by {
        lemma_named_at(all, 2);
    }
    lemma_final_parts(binding_text, nonce, evidence_text);
    let marker = bare.len() as int;
    assert(message =~= bare + seq![0x2cu8, 0x70u8, 0x3du8] + evidence_text);
    assert(proof_at(message, marker));
    assert forall|at: int| marker < at < message.len() implies message[at] != COMMA by {
        if message[at] == COMMA {
            assert(at >= marker + 3);
            assert(evidence_text[at - marker - 3] == COMMA);
        }
    }
    lemma_last_proof(message, bare.len(), message.len());
    assert(message.take(marker) =~= bare);
}

proof fn lemma_final_parts(binding_text: Seq<u8>, nonce: Seq<u8>, evidence_text: Seq<u8>)
    ensures
        spelled(seq![(0x63u8, binding_text), (0x72u8, nonce)]) == seq![0x63u8, 0x3du8]
            + binding_text + seq![0x2cu8] + (seq![0x72u8, 0x3du8] + nonce),
        spelled(seq![(0x63u8, binding_text), (0x72u8, nonce), (0x70u8, evidence_text)]) == seq![
            0x63u8,
            0x3du8,
        ] + binding_text + seq![0x2cu8] + (seq![0x72u8, 0x3du8] + nonce + seq![0x2cu8] + (seq![
            0x70u8,
            0x3du8,
        ] + evidence_text)),
{
    reveal_with_fuel(spelled, 4);
    let two = seq![(0x63u8, binding_text), (0x72u8, nonce)];
    let three = seq![(0x63u8, binding_text), (0x72u8, nonce), (0x70u8, evidence_text)];
    assert(two.skip(1) =~= seq![(0x72u8, nonce)]);
    assert(three.skip(1) =~= seq![(0x72u8, nonce), (0x70u8, evidence_text)]);
    assert(three.skip(1).skip(1) =~= seq![(0x70u8, evidence_text)]);
}

/// What a server uses unless told otherwise, and the lengths that it works with.
pub proof fn law_scram_sizes()
    ensures
        DEFAULT_ITERATIONS == 4096,
        SALT_LENGTH == 16,
        NONCE_LENGTH == 24,
        PROOF_LENGTH == 32,
{
}

/// A server keeps to the parameters that it was made with: it announces its salt and its
/// count behind the nonce, and salts the prepared password with just these.
pub proof fn law_servers_keep_their_parameters(
    password: &[u8],
    salt: Vec<u8>,
    iterations: u32,
    binding: ServerChannelBinding,
    server: ScramServer,
    mechanism: &[u8],
    client_first: &[u8],
    nonce: &[u8],
    exchange: ScramExchange,
    challenge: Bytes,
)
    requires
        call_ensures(
            ScramServer::with_parameters,
            (password, salt, iterations, binding),
            Ok::<ScramServer, ScramError>(server),
        ),
        call_ensures(
            ScramServer::start_with_nonce,
            (&server, mechanism, client_first, nonce),
            Ok::<(ScramExchange, Bytes), ScramError>((exchange, challenge)),
        ),
    ensures
        iterations >= 4096,
        exchange@.salted_password == salted(normalised(password@), salt@, iterations as nat),
        octets(challenge) == attribute(NONCE, exchange@.combined_nonce) + seq![COMMA] + listed(
            attribute(SALT, base64_text(salt@)),
            attribute(ITERATIONS, decimal(iterations as nat)),
        ),
        nonce@.is_suffix_of(exchange@.combined_nonce),
{
    law_challenge_discloses_parameters(
        server@,
        mechanism@,
        client_first@,
        nonce@,
        exchange@,
    );
    assert(octets(challenge) =~= attribute(NONCE, exchange@.combined_nonce) + seq![COMMA] + listed(
        attribute(SALT, base64_text(salt@)),
        attribute(ITERATIONS, decimal(iterations as nat)),
    ));
}

/// A count below the least one is refused, and no other.
pub proof fn law_weak_counts_are_refused(
    password: &[u8],
    salt: Vec<u8>,
    iterations: u32,
    binding: ServerChannelBinding,
    result: Result<ScramServer, ScramError>,
)
    requires
        call_ensures(ScramServer::with_parameters, (password, salt, iterations, binding), result),
    ensures
        result is Ok <==> iterations >= 4096,
        result matches Err(error) ==> error == ScramError::WeakIterationCount,
{
}

/// An exchange ends well only with a client that proved the password, and the answer
/// proves the server.
pub proof fn law_finished_exchanges_are_earned(
    exchange: ScramExchange,
    client_final: &[u8],
    result: Result<Bytes, ScramError>,
)
    requires
        call_ensures(ScramExchange::finish, (exchange, client_final), result),
    ensures
        result is Ok ==> earned(exchange@, client_final@),
        result is Ok <==> finished(exchange@, client_final@) is Ok,
        result matches Ok(answer) ==> finished(exchange@, client_final@) == Ok::<_, ScramError>(
            octets(answer),
        ),
{
    if result is Ok {
        law_scram_acceptance_is_earned(exchange@, client_final@);
    }
}

} // verus!
