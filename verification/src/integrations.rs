//! Integration boundaries for platform-specific GSSAPI, Kerberos, and SSPI engines.

use bytes::Bytes;
use vstd::prelude::*;

verus! {

/// One output from a recursive GSSAPI, Kerberos, or SSPI token engine.
#[derive(Clone, Debug, PartialEq, Eq)]
pub enum TokenStep {
    Continue(Bytes),
    Complete(Option<Bytes>),
}

/// Platform-neutral token exchange consumed by the typed authentication loop.
pub trait TokenAuthEngine {
    type Error;

    /// Produces the first token, if the selected mechanism requires one.
    ///
    /// # Errors
    ///
    /// Returns a platform-specific credential or mechanism error.
    fn initial(&mut self) -> Result<TokenStep, Self::Error>;

    /// Processes one peer token and either continues or completes authentication.
    ///
    /// # Errors
    ///
    /// Returns a platform-specific validation or credential error.
    fn step(&mut self, peer_token: &[u8]) -> Result<TokenStep, Self::Error>;
}

} // verus!
