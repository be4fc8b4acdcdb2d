//! Client side of SCRAM, as the `postgres-protocol` crate performs it.

use postgres_protocol::authentication::sasl::{ChannelBinding, ScramSha256};
use vstd::prelude::*;
use vstd::utf8::*;

use crate::crypto::{base64_octets, base64_text, spells};
use crate::scram::{
    attribute, client_final, client_final_bare, client_key, client_signature, decimal, exclusive_or,
    finished, first_text, header_and_rest, law_scram_accepts_honest_client, lemma_first_comma,
    lemma_last_text, listed, named, nonce_octet, normalised, opened, salted, scanned,
    server_signature, valid_nonce, Attribute, ScramError, ScramExchangeView, ScramServerView, COMMA,
    EQUALS, ITERATIONS, NONCE, PROOF_LENGTH, SALT, SCRAM_SHA_256, USERNAME, VERIFIER, ZERO,
};

verus! {

/// Octets of a nonce that the client draws.
pub const CLIENT_NONCE_LENGTH: usize = 24;

/// Most iterations that the client performs for a server.
pub const CLIENT_ITERATION_LIMIT: u32 = 100_000;

/// `postgres_protocol::authentication::sasl::ScramSha256`, a client-side exchange.
#[verifier::external_type_specification]
#[verifier::external_body]
pub struct ExScramSha256(ScramSha256);

/// `std::io::Error`, which a failed exchange is reported with.
#[verifier::external_type_specification]
#[verifier::external_body]
pub struct ExIoError(std::io::Error);

/// The client-first message with a nonce, for a client that cannot bind channels.
pub open spec fn client_first(nonce: Seq<u8>) -> Seq<u8> {
    encode_utf8("n,,n=,r="@) + nonce
}

/// Where a client-side exchange stands.
pub enum ScramStage {
    /// The client-first message is made; the challenge is awaited.
    Opened {
        /// Normalised password.
        password: Seq<u8>,
        nonce: Seq<u8>,
    },
    /// The challenge is answered; the server has to sign.
    Answered { signature: Seq<u8> },
    /// The exchange is over.
    Spent,
}

/// Where a `ScramSha256` stands: the state that its calls read and replace.
pub uninterp spec fn scram_stage(exchange: ScramSha256) -> ScramStage;

/// Whether an exchange with a password starts at `stage` and with `message`, a
/// client-first message with a nonce of full length.
pub open spec fn begins(password: Seq<u8>, message: Seq<u8>, stage: ScramStage) -> bool {
    exists|nonce: Seq<u8>|
        valid_nonce(nonce) && nonce.len() == CLIENT_NONCE_LENGTH && message
            == #[trigger] client_first(nonce) && stage == (ScramStage::Opened {
            password: normalised(password),
            nonce,
        })
}

/// What a challenge gives the client.
#[verifier::ext_equal]
pub struct ScramChallenge {
    pub nonce: Seq<u8>,
    /// Salt in base64.
    pub salt: Seq<u8>,
    /// Iteration count in decimal.
    pub iterations: Seq<u8>,
}

/// The number that decimal digits stand for.
pub open spec fn numeral(digits: Seq<u8>) -> nat
    decreases digits.len(),
{
    if digits.len() == 0 {
        0
    } else {
        numeral(digits.drop_last()) * 10 + (digits.last() - ZERO) as nat
    }
}

pub open spec fn digit(octet: u8) -> bool {
    ZERO <= octet <= 0x39
}

/// A challenge as it is written.
pub open spec fn challenge_text(given: ScramChallenge) -> Seq<u8> {
    listed(
        listed(attribute(NONCE, given.nonce), attribute(SALT, given.salt)),
        attribute(ITERATIONS, given.iterations),
    )
}

/// Whether a challenge is well formed, extends the client's nonce and asks for an
/// acceptable number of iterations.
pub open spec fn challenges(challenge: Seq<u8>, nonce: Seq<u8>, given: ScramChallenge) -> bool {
    &&& challenge == challenge_text(given)
    &&& valid_nonce(given.nonce)
    &&& nonce.is_prefix_of(given.nonce)
    &&& !given.salt.contains(COMMA)
    &&& base64_octets(given.salt) is Some
    &&& given.iterations.len() > 0
    &&& forall|at: int|
        0 <= at < given.iterations.len() ==> digit(#[trigger] given.iterations[at])
    &&& numeral(given.iterations) <= CLIENT_ITERATION_LIMIT
}

/// The exchange as both sides see it once the challenge is known.
pub open spec fn challenged(
    password: Seq<u8>,
    nonce: Seq<u8>,
    challenge: Seq<u8>,
    given: ScramChallenge,
) -> ScramExchangeView {
    ScramExchangeView {
        salted_password: salted(
            password,
            base64_octets(given.salt).unwrap(),
            numeral(given.iterations),
        ),
        client_first_bare: listed(attribute(USERNAME, Seq::empty()), attribute(NONCE, nonce)),
        server_first: challenge,
        combined_nonce: given.nonce,
        expected_binding: encode_utf8("n,,"@),
    }
}

/// The proof that answers a challenge.
pub open spec fn client_proof(exchange: ScramExchangeView) -> Seq<u8> {
    exclusive_or(
        client_key(exchange),
        client_signature(
            exchange,
            client_final_bare(exchange, base64_text(exchange.expected_binding)),
        ),
    )
}

/// Whether an exchange answers a challenge.
pub open spec fn answerable(stage: ScramStage, challenge: Seq<u8>) -> bool {
    stage matches ScramStage::Opened { nonce, .. } && exists|given: ScramChallenge| #[trigger]
        challenges(challenge, nonce, given)
}

/// Whether `reply` answers a challenge, and `after` is the exchange then: it awaits
/// the signature of a server that knows the password too.
pub open spec fn answers(
    stage: ScramStage,
    challenge: Seq<u8>,
    reply: Seq<u8>,
    after: ScramStage,
) -> bool {
    &&& stage matches ScramStage::Opened { password, nonce }
    &&& exists|given: ScramChallenge| #[trigger]
        challenges(challenge, nonce, given) && {
            let exchange = challenged(password, nonce, challenge, given);
            let binding = base64_text(exchange.expected_binding);
            &&& reply == client_final(exchange, binding, base64_text(client_proof(exchange)))
            &&& after == (ScramStage::Answered {
                signature: server_signature(exchange, client_final_bare(exchange, binding)),
            })
        }
}

/// Whether a server-final message carries the signature that an exchange awaits.
pub open spec fn confirms(stage: ScramStage, message: Seq<u8>) -> bool {
    &&& stage matches ScramStage::Answered { signature }
    &&& message.len() >= 2
    &&& message[0] == VERIFIER
    &&& message[1] == EQUALS
    &&& base64_octets(message.skip(2)) == Some(signature)
}

/// `ScramSha256::new` and `ScramSha256::message`: starts an exchange without channel
/// binding, keeps the normalised password, and gives its first message, which carries
/// a random nonce of 24 printable octets.
#[verifier::external_body]
pub(crate) fn begin_scram(password: &[u8]) -> (started: (ScramSha256, Vec<u8>))
    ensures
        begins(password@, started.1@, scram_stage(started.0)),
{
    let scram = ScramSha256::new(password, ChannelBinding::unsupported());
    let message = scram.message().to_vec();
    (scram, message)
}

/// `ScramSha256::update` and, where it succeeded, `ScramSha256::message`: answers a
/// well-formed challenge with the proof of the password, once, and remembers the
/// server's signature. It fails on any other challenge and in any other state, and
/// the exchange is over then.
#[verifier::external_body]
pub(crate) fn continue_scram(scram: &mut ScramSha256, challenge: &[u8]) -> (result: Result<
    Vec<u8>,
    std::io::Error,
>)
    ensures
        result is Ok <==> answerable(scram_stage(*old(scram)), challenge@),
        match result {
            Ok(reply) => answers(
                scram_stage(*old(scram)),
                challenge@,
                reply@,
                scram_stage(*final(scram)),
            ),
            Err(_) => scram_stage(*final(scram)) == ScramStage::Spent,
        },
{
    scram.update(challenge)?;
    Ok(scram.message().to_vec())
}

/// `ScramSha256::finish`: succeeds if and only if the message carries the awaited
/// signature. The exchange is over in either case.
#[verifier::external_body]
pub(crate) fn finish_scram(scram: &mut ScramSha256, verifier: &[u8]) -> (result: Result<
    (),
    std::io::Error,
>)
    ensures
        result is Ok <==> confirms(scram_stage(*old(scram)), verifier@),
        scram_stage(*final(scram)) == ScramStage::Spent,
{
    scram.finish(verifier)
}

proof fn lemma_ascii_is_utf8(octets: Seq<u8>)
    requires
        forall|at: int| 0 <= at < octets.len() ==> (#[trigger] octets[at]) <= 0x7f,
    ensures
        valid_utf8(octets),
    decreases octets.len(),
{
    if octets.len() > 0 {
        let rest = octets.subrange(1, octets.len() as int);
        assert forall|at: int| 0 <= at < rest.len() implies (#[trigger] rest[at]) <= 0x7f by {
            assert(rest[at] == octets[at + 1]);
        }
        lemma_ascii_is_utf8(rest);
        assert(pop_first_scalar(octets) == rest);
    }
}

/// What a server challenges a client with.
pub open spec fn challenge_of(
    server: ScramServerView,
    client_nonce: Seq<u8>,
    server_nonce: Seq<u8>,
) -> ScramChallenge {
    ScramChallenge {
        nonce: client_nonce + server_nonce,
        salt: base64_text(server.salt),
        iterations: decimal(server.iterations as nat),
    }
}

/// Every client-first message opens an exchange of a server, which expects the
/// client's header as channel binding and extends the client's nonce.
pub proof fn law_client_first_opens_exchange(
    server: ScramServerView,
    client_nonce: Seq<u8>,
    server_nonce: Seq<u8>,
)
    requires
        valid_nonce(client_nonce),
    ensures
        opened(server, encode_utf8(SCRAM_SHA_256@), client_first(client_nonce), server_nonce)
            == Ok::<_, ScramError>(
            ScramExchangeView {
                salted_password: salted(server.password, server.salt, server.iterations as nat),
                client_first_bare: listed(
                    attribute(USERNAME, Seq::empty()),
                    attribute(NONCE, client_nonce),
                ),
                server_first: challenge_text(challenge_of(server, client_nonce, server_nonce)),
                combined_nonce: client_nonce + server_nonce,
                expected_binding: encode_utf8("n,,"@),
            },
        ),
{
    reveal_strlit("n,,n=,r=");
    reveal_strlit("n,,");
    reveal_strlit("y,,");
    is_ascii_chars_encode_utf8("n,,n=,r="@);
    is_ascii_chars_encode_utf8("n,,"@);
    is_ascii_chars_encode_utf8("y,,"@);
    let message = client_first(client_nonce);
    let start = encode_utf8("n,,n=,r="@);
    assert(start =~= seq![0x6eu8, COMMA, COMMA, USERNAME, EQUALS, COMMA, NONCE, EQUALS]);
    let header = encode_utf8("n,,"@);
    assert(header =~= seq![0x6eu8, COMMA, COMMA]);
    assert(encode_utf8("y,,"@)[0] == 0x79u8);
    assert forall|at: int| 0 <= at < message.len() implies (#[trigger] message[at]) <= 0x7f by {
        if at >= 8 {
            assert(nonce_octet(client_nonce[at - 8]));
        }
    }
    lemma_ascii_is_utf8(message);
    let username = attribute(USERNAME, Seq::empty());
    let nonce = attribute(NONCE, client_nonce);
    let bare = listed(username, nonce);
    let first = seq![0x6eu8];
    assert(!first.contains(COMMA));
    assert(message =~= listed(first, listed(Seq::empty(), bare)));
    lemma_first_comma(first, listed(Seq::empty(), bare));
    lemma_first_comma(Seq::empty(), bare);
    assert(message.take(3) =~= header);
    assert(message.skip(3) =~= bare);
    assert(header_and_rest(message) == Ok::<_, ScramError>((header, bare)));
    assert(!username.contains(COMMA));
    assert(!nonce.contains(COMMA)) by {
        if nonce.contains(COMMA) {
            let at = choose|at: int| 0 <= at < nonce.len() && nonce[at] == COMMA;
            assert(nonce_octet(client_nonce[at - 2]));
        }
    }
    lemma_first_comma(username, nonce);
    lemma_last_text(nonce);
    assert(username.skip(2) =~= Seq::empty());
    assert(nonce.skip(2) =~= client_nonce);
    let none = Seq::<Attribute>::empty();
    let one = none.push((USERNAME, Seq::empty()));
    let two = one.push((NONCE, client_nonce));
    reveal_with_fuel(named, 3);
    reveal_with_fuel(scanned, 3);
    assert(two.skip(1) =~= seq![(NONCE, client_nonce)]);
    assert(scanned(none, bare) == scanned(one, nonce));
    assert(scanned(one, nonce) == Ok::<_, ScramError>(two));
}

proof fn lemma_decimal_digits(number: nat)
    ensures
        decimal(number).len() > 0,
        forall|at: int| 0 <= at < decimal(number).len() ==> digit(#[trigger] decimal(number)[at]),
        numeral(decimal(number)) == number,
    decreases number,
{
    reveal_with_fuel(numeral, 2);
    if number >= 10 {
        lemma_decimal_digits(number / 10);
        assert(decimal(number).drop_last() =~= decimal(number / 10));
    } else {
        assert(decimal(number).drop_last() =~= Seq::empty());
    }
}

proof fn lemma_attribute_has_no_comma(name: u8, value: Seq<u8>)
    requires
        name != COMMA,
        !value.contains(COMMA),
    ensures
        !attribute(name, value).contains(COMMA),
{
    let text = attribute(name, value);
    if text.contains(COMMA) {
        let at = choose|at: int| 0 <= at < text.len() && text[at] == COMMA;
        assert(value[at - 2] == COMMA);
    }
}

/// A challenge can be read in one way only.
proof fn lemma_challenge_is_read_once(
    challenge: Seq<u8>,
    nonce: Seq<u8>,
    first: ScramChallenge,
    second: ScramChallenge,
)
    requires
        challenges(challenge, nonce, first),
        challenges(challenge, nonce, second),
    ensures
        first == second,
{
    lemma_challenge_parts(challenge, nonce, first);
    lemma_challenge_parts(challenge, nonce, second);
    assert(first =~= second);
}

/// What a challenge gives, read off its text.
proof fn lemma_challenge_parts(challenge: Seq<u8>, nonce: Seq<u8>, given: ScramChallenge)
    requires
        challenges(challenge, nonce, given),
    ensures
        given.nonce == first_text(challenge).skip(2),
        given.salt == first_text(
            challenge.skip(first_text(challenge).len() as int + 1),
        ).skip(2),
        given.iterations == challenge.skip(first_text(challenge).len() as int + 1).skip(
            first_text(challenge.skip(first_text(challenge).len() as int + 1)).len() as int + 1,
        ).skip(2),
{
    let nonce_text = attribute(NONCE, given.nonce);
    let salt_text = attribute(SALT, given.salt);
    let count_text = attribute(ITERATIONS, given.iterations);
    assert(!given.nonce.contains(COMMA)) by {
        if given.nonce.contains(COMMA) {
            let at = choose|at: int| 0 <= at < given.nonce.len() && given.nonce[at] == COMMA;
            assert(nonce_octet(given.nonce[at]));
        }
    }
    lemma_attribute_has_no_comma(NONCE, given.nonce);
    lemma_attribute_has_no_comma(SALT, given.salt);
    assert(challenge =~= listed(nonce_text, listed(salt_text, count_text)));
    lemma_first_comma(nonce_text, listed(salt_text, count_text));
    lemma_first_comma(salt_text, count_text);
    assert(nonce_text.skip(2) =~= given.nonce);
    assert(salt_text.skip(2) =~= given.salt);
    assert(count_text.skip(2) =~= given.iterations);
}

/// What the digests and base64 texts of one exchange look like.
pub open spec fn well_spelled(exchange: ScramExchangeView) -> bool {
    let binding = base64_text(exchange.expected_binding);
    let signature = server_signature(exchange, client_final_bare(exchange, binding));
    &&& spells(binding, exchange.expected_binding)
    &&& spells(base64_text(client_proof(exchange)), client_proof(exchange))
    &&& spells(base64_text(signature), signature)
    &&& client_key(exchange).len() == PROOF_LENGTH
    &&& client_signature(exchange, client_final_bare(exchange, binding)).len() == PROOF_LENGTH
}

/// A client and a server that hold the same password authenticate each other: the
/// client answers the server's challenge, the server accepts the answer, and the
/// client accepts the signature that the server returns.
pub proof fn law_client_and_server_agree(
    server: ScramServerView,
    password: Seq<u8>,
    client_nonce: Seq<u8>,
    server_nonce: Seq<u8>,
    exchange: ScramExchangeView,
)
    requires
        server.password == normalised(password),
        server.iterations <= CLIENT_ITERATION_LIMIT,
        valid_nonce(client_nonce),
        valid_nonce(server_nonce),
        spells(base64_text(server.salt), server.salt),
        opened(server, encode_utf8(SCRAM_SHA_256@), client_first(client_nonce), server_nonce)
            == Ok::<_, ScramError>(exchange),
        well_spelled(exchange),
    ensures
        answerable(
            ScramStage::Opened { password: normalised(password), nonce: client_nonce },
            exchange.server_first,
        ),
        forall|reply: Seq<u8>, after: ScramStage| #[trigger]
            answers(
                ScramStage::Opened { password: normalised(password), nonce: client_nonce },
                exchange.server_first,
                reply,
                after,
            ) ==> (finished(exchange, reply) matches Ok(last) && confirms(after, last)),
{
    law_client_first_opens_exchange(server, client_nonce, server_nonce);
    let given = challenge_of(server, client_nonce, server_nonce);
    let stage = ScramStage::Opened { password: normalised(password), nonce: client_nonce };
    let challenge = exchange.server_first;
    lemma_decimal_digits(server.iterations as nat);
    assert forall|at: int| 0 <= at < given.nonce.len() implies nonce_octet(
        #[trigger] given.nonce[at],
    ) by {
        if at < client_nonce.len() {
            assert(nonce_octet(client_nonce[at]));
        } else {
            assert(nonce_octet(server_nonce[at - client_nonce.len()]));
        }
    }
    assert(challenges(challenge, client_nonce, given));
    assert(challenged(normalised(password), client_nonce, challenge, given) =~= exchange);
    let binding = base64_text(exchange.expected_binding);
    let evidence = base64_text(client_proof(exchange));
    let honest = client_final(exchange, binding, evidence);
    reveal_strlit("n,,");
    is_ascii_chars_encode_utf8("n,,"@);
    assert forall|at: int| 0 <= at < honest.len() implies (#[trigger] honest[at]) <= 0x7f by {
        let nonce_from = 2 + binding.len() + 1 + 2;
        let evidence_from = nonce_from + given.nonce.len() + 1 + 2;
        if 2 <= at < 2 + binding.len() {
            assert(honest[at] == binding[at - 2]);
        } else if nonce_from <= at < nonce_from + given.nonce.len() {
            assert(honest[at] == given.nonce[at - nonce_from]);
        } else if at >= evidence_from {
            assert(honest[at] == evidence[at - evidence_from]);
        }
    }
    lemma_ascii_is_utf8(honest);
    law_scram_accepts_honest_client(exchange, binding, evidence);
    assert forall|reply: Seq<u8>, after: ScramStage| #[trigger]
        answers(stage, challenge, reply, after) implies (finished(exchange, reply) matches Ok(last)
        && confirms(after, last)) by {
        let other = choose|other: ScramChallenge| #[trigger]
            challenges(challenge, client_nonce, other) && {
                let seen = challenged(normalised(password), client_nonce, challenge, other);
                let text = base64_text(seen.expected_binding);
                &&& reply == client_final(seen, text, base64_text(client_proof(seen)))
                &&& after == (ScramStage::Answered {
                    signature: server_signature(seen, client_final_bare(seen, text)),
                })
            };
        lemma_challenge_is_read_once(challenge, client_nonce, given, other);
        let signature = server_signature(exchange, client_final_bare(exchange, binding));
        let last = attribute(VERIFIER, base64_text(signature));
        assert(last.skip(2) =~= base64_text(signature));
    }
}

} // verus!
