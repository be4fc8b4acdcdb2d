//! Token exchange engines.

use bytes::Bytes;
use pg_proto::integrations::{TokenAuthEngine, TokenStep};

struct ExampleEngine(bool);

impl TokenAuthEngine for ExampleEngine {
    type Error = std::convert::Infallible;

    fn initial(&mut self) -> Result<TokenStep, Self::Error> {
        Ok(TokenStep::Continue(Bytes::from_static(b"initial")))
    }

    fn step(&mut self, peer_token: &[u8]) -> Result<TokenStep, Self::Error> {
        self.0 = true;
        Ok(TokenStep::Complete(Some(Bytes::copy_from_slice(
            peer_token,
        ))))
    }
}

#[test]
fn recursive_token_engine_is_not_coupled_to_platform_credentials() {
    let mut engine = ExampleEngine(false);
    assert!(matches!(engine.initial().unwrap(), TokenStep::Continue(_)));
    assert_eq!(
        engine.step(b"challenge").unwrap(),
        TokenStep::Complete(Some(Bytes::from_static(b"challenge")))
    );
    assert!(engine.0);
}
