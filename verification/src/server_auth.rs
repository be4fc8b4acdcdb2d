//! Typestates of a server that authenticates a client.

use vstd::prelude::*;

verus! {

/// The startup packet was rejected. A type index.
#[derive(Debug)]
pub enum ServerStartupRejected {
    Index,
}

/// The server chooses an authentication method. A type index.
#[derive(Debug)]
pub enum ServerAuth {
    Index,
}

/// A password response is awaited. A type index.
#[derive(Debug)]
pub enum ServerPassword {
    Index,
}

/// The first SASL response is awaited. A type index.
#[derive(Debug)]
pub enum ServerSaslInitial {
    Index,
}

/// The server continues or completes SASL. A type index.
#[derive(Debug)]
pub enum ServerSasl {
    Index,
}

/// A further SASL response is awaited. A type index.
#[derive(Debug)]
pub enum ServerSaslResponse {
    Index,
}

/// A GSSAPI or SSPI token is awaited. A type index.
#[derive(Debug)]
pub enum ServerAuthResponse {
    Index,
}

/// The server decides on a token. A type index.
#[derive(Debug)]
pub enum ServerAuthPolicy {
    Index,
}

/// Authentication succeeded and readiness is owed. A type index.
#[derive(Debug)]
pub enum ServerStartupReady {
    Index,
}

} // verus!
