//! PostgreSQL credential verification.

use pg_proto::credentials::{md5_response, verify_cleartext, verify_md5_response};

#[test]
fn computes_and_verifies_postgres_md5_response() {
    let salt = [0x2a, 0x3d, 0x8f, 0xe0];
    let response = md5_response(b"md5_user", b"password", salt);
    assert_eq!(response, "md562af4dd09bbb41884907a838a3233294");
    assert!(verify_md5_response(
        response.as_bytes(),
        b"md5_user",
        b"password",
        salt
    ));
    assert!(!verify_md5_response(
        b"md500000000000000000000000000000000",
        b"md5_user",
        b"password",
        salt
    ));
}

#[test]
fn verifies_cleartext_credentials() {
    assert!(verify_cleartext(b"secret", b"secret"));
    assert!(!verify_cleartext(b"secret", b"different"));
}
