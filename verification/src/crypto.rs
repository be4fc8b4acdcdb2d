//! Cryptographic and text-preparation functions that the library calls.

use base64::engine::general_purpose::STANDARD;
use base64::Engine as _;
use hmac::{Hmac, KeyInit as _, Mac as _};
use rand::RngExt as _;
use sha2::{Digest as _, Sha256};
use subtle::ConstantTimeEq as _;
use vstd::prelude::*;
use vstd::utf8::*;

verus! {

/// HMAC-SHA-256 of an input under a key.
pub uninterp spec fn hmac_sha256(key: Seq<u8>, input: Seq<u8>) -> Seq<u8>;

/// SHA-256 digest of an input.
pub uninterp spec fn sha256(input: Seq<u8>) -> Seq<u8>;

/// Padded standard base64 text of an input.
pub uninterp spec fn base64_text(input: Seq<u8>) -> Seq<u8>;

/// What a padded standard base64 text stands for, if it is one.
pub uninterp spec fn base64_octets(text: Seq<u8>) -> Option<Seq<u8>>;

/// SASLprep of a text, unless the text is prohibited.
pub uninterp spec fn prepared_text(text: Seq<char>) -> Option<Seq<char>>;

/// Response to an MD5 password request.
pub uninterp spec fn md5_text(username: Seq<u8>, password: Seq<u8>, salt: Seq<u8>) -> Seq<char>;

/// `Hmac::<Sha256>`: keyed with `key`, fed `input`, finalised. The source
/// accepts keys of any length and yields 32 octets.
#[verifier::external_body]
pub(crate) fn hmac(key: &[u8], input: &[u8]) -> (code: Vec<u8>)
    ensures
        code@ == hmac_sha256(key@, input@),
        code@.len() == 32,
{
    let mut mac = Hmac::<Sha256>::new_from_slice(key).expect("HMAC accepts every key length");
    mac.update(input);
    mac.finalize().into_bytes().to_vec()
}

/// `Sha256::digest`: the digest of `input`, 32 octets.
#[verifier::external_body]
pub(crate) fn digest(input: &[u8]) -> (code: Vec<u8>)
    ensures
        code@ == sha256(input@),
        code@.len() == 32,
{
    Sha256::digest(input).to_vec()
}

/// Whether `text` is ASCII without commas and stands for `octets` in base64.
pub open spec fn spells(text: Seq<u8>, octets: Seq<u8>) -> bool {
    &&& base64_octets(text) == Some(octets)
    &&& !text.contains(0x2cu8)
    &&& forall|at: int| 0 <= at < text.len() ==> (#[trigger] text[at]) <= 0x7f
}

/// Whether the padded base64 text of so many octets fits an allocation.
pub open spec fn spellable(length: nat) -> bool {
    (length + 2) / 3 * 4 <= isize::MAX
}

/// `Engine::encode` of `base64::engine::general_purpose::STANDARD`: the text is
/// ASCII, has no comma and decodes to the input. The source panics when the text
/// would not fit an allocation, which the precondition rules out.
#[verifier::external_body]
pub(crate) fn encode_base64(input: &[u8]) -> (text: Vec<u8>)
    requires
        spellable(input@.len()),
    ensures
        text@ == base64_text(input@),
        spells(text@, input@),
{
    STANDARD.encode(input).into_bytes()
}

/// `Engine::decode` of `base64::engine::general_purpose::STANDARD`: what the text
/// stands for, or nothing where the source reports an error.
#[verifier::external_body]
pub(crate) fn decode_base64(text: &[u8]) -> (octets: Option<Vec<u8>>)
    ensures
        match octets {
            Some(octets) => base64_octets(text@) == Some(octets@),
            None => base64_octets(text@) is None,
        },
{
    STANDARD.decode(text).ok()
}

/// `ConstantTimeEq::ct_eq` on octet slices: whether length and contents agree.
#[verifier::external_body]
pub(crate) fn equal_in_constant_time(first: &[u8], second: &[u8]) -> (equal: bool)
    ensures
        equal == (first@ == second@),
{
    first.ct_eq(second).into()
}

/// `stringprep::saslprep`: the prepared text, or nothing where the source
/// reports an error.
#[verifier::external_body]
pub(crate) fn saslprep(text: &str) -> (prepared: Option<String>)
    ensures
        match prepared {
            Some(prepared) => prepared_text(text@) == Some(prepared@),
            None => prepared_text(text@) is None,
        },
{
    stringprep::saslprep(text).ok().map(|prepared| prepared.into_owned())
}

/// `postgres_protocol::authentication::md5_hash`: the response text.
#[verifier::external_body]
pub(crate) fn md5_hash(username: &[u8], password: &[u8], salt: [u8; 4]) -> (text: String)
    ensures
        text@ == md5_text(username@, password@, salt@),
{
    postgres_protocol::authentication::md5_hash(username, password, salt)
}

/// `RngExt::random_range` of `rand::rng()`: some octet that is graphic in ASCII.
#[verifier::external_body]
pub(crate) fn random_graphic() -> (octet: u8)
    ensures
        0x21 <= octet < 0x7f,
{
    rand::rng().random_range(0x21_u8..0x7f)
}

/// `RngExt::fill` of `rand::rng()`: as many octets as were there, all of them
/// random.
#[verifier::external_body]
pub(crate) fn fill_random(octets: &mut Vec<u8>)
    ensures
        final(octets)@.len() == old(octets)@.len(),
{
    rand::rng().fill(&mut octets[..])
}

/// `std::str::from_utf8`: the octets as a text, if they are valid UTF-8.
#[verifier::external_body]
pub(crate) fn utf8_text(octets: &[u8]) -> (text: Option<&str>)
    ensures
        match text {
            Some(text) => valid_utf8(octets@) && encode_utf8(text@) == octets@,
            None => !valid_utf8(octets@),
        },
{
    std::str::from_utf8(octets).ok()
}

} // verus!
