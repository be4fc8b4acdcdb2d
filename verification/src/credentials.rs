//! Credential transforms shared by client and proxy-side authentication policy.

use vstd::prelude::*;
use vstd::utf8::*;

use crate::crypto::{equal_in_constant_time, md5_hash, md5_text};

verus! {

/// Computes the wire value for `AuthenticationMD5Password`.
pub fn md5_response(username: &[u8], password: &[u8], salt: [u8; 4]) -> (response: String)
    ensures
        response@ == md5_text(username@, password@, salt@),
{
    md5_hash(username, password, salt)
}

/// Verifies an MD5 password response without a data-dependent comparison.
pub fn verify_md5_response(
    response: &[u8],
    username: &[u8],
    password: &[u8],
    salt: [u8; 4],
) -> (valid: bool)
    ensures
        valid == (response@ == encode_utf8(md5_text(username@, password@, salt@))),
{
    equal_in_constant_time(response, md5_response(username, password, salt).as_str().as_bytes())
}

/// Verifies a cleartext password response without a data-dependent comparison.
pub fn verify_cleartext(response: &[u8], expected: &[u8]) -> (valid: bool)
    ensures
        valid == (response@ == expected@),
{
    equal_in_constant_time(response, expected)
}

} // verus!
