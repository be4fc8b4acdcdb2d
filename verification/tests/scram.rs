//! SCRAM verification against an independent client.

use pg_proto::scram::{
    ScramError, ScramServer, ServerChannelBinding, DEFAULT_ITERATIONS, SCRAM_SHA_256,
    SCRAM_SHA_256_PLUS,
};
use postgres_protocol::authentication::sasl::{ChannelBinding, ScramSha256};

fn exchange(binding: ServerChannelBinding, client_binding: ChannelBinding, mechanism: &[u8]) {
    let server = ScramServer::with_parameters(
        b"pencil",
        b"fixed test salt".to_vec(),
        DEFAULT_ITERATIONS,
        binding,
    )
    .unwrap();
    let mut client = ScramSha256::new(b"pencil", client_binding);
    let (exchange, server_first) = server.start(mechanism, client.message()).unwrap();
    client.update(&server_first).unwrap();
    let server_final = exchange.finish(client.message()).unwrap();
    client.finish(&server_final).unwrap();
}

#[test]
fn verifies_scram_sha_256() {
    exchange(
        ServerChannelBinding::Unbound,
        ChannelBinding::unsupported(),
        SCRAM_SHA_256.as_bytes(),
    );
}

#[test]
fn verifies_scram_sha_256_plus() {
    let binding = b"certificate digest".to_vec();
    exchange(
        ServerChannelBinding::TlsServerEndPoint(binding.clone()),
        ChannelBinding::tls_server_end_point(binding),
        SCRAM_SHA_256_PLUS.as_bytes(),
    );
}

#[test]
fn rejects_wrong_password_and_channel_binding() {
    let server = ScramServer::with_parameters(
        b"correct",
        b"fixed test salt".to_vec(),
        DEFAULT_ITERATIONS,
        ServerChannelBinding::Unbound,
    )
    .unwrap();
    let mut client = ScramSha256::new(b"wrong", ChannelBinding::unsupported());
    let (exchange, server_first) = server.start(SCRAM_SHA_256.as_bytes(), client.message()).unwrap();
    client.update(&server_first).unwrap();
    assert!(exchange.finish(client.message()).is_err());

    let server = ScramServer::with_parameters(
        b"correct",
        b"fixed test salt".to_vec(),
        DEFAULT_ITERATIONS,
        ServerChannelBinding::TlsServerEndPoint(b"expected".to_vec()),
    )
    .unwrap();
    let client = ScramSha256::new(
        b"correct",
        ChannelBinding::tls_server_end_point(b"different".to_vec()),
    );
    let (exchange, server_first) = server.start(SCRAM_SHA_256_PLUS.as_bytes(), client.message()).unwrap();
    let mut client = client;
    client.update(&server_first).unwrap();
    assert!(exchange.finish(client.message()).is_err());
}

#[test]
fn known_exchange_is_reproduced() {
    // A published exchange with its salt and nonces.
    let server = ScramServer::with_parameters(
        b"pencil",
        vec![
            0x5b, 0x6d, 0x99, 0x68, 0x9d, 0x12, 0x35, 0x8e, 0xec, 0xa0, 0x4b, 0x14, 0x12, 0x36,
            0xfa, 0x81,
        ],
        4096,
        ServerChannelBinding::Unbound,
    )
    .unwrap();
    let (exchange, server_first) = server
        .start_with_nonce(
            SCRAM_SHA_256.as_bytes(),
            b"n,,n=user,r=rOprNGfwEbeRWgbNEkqO",
            b"%hvYDpWUa2RaTCAfuxFIlj)hNlF$k0",
        )
        .unwrap();
    assert_eq!(
        &server_first[..],
        b"r=rOprNGfwEbeRWgbNEkqO%hvYDpWUa2RaTCAfuxFIlj)hNlF$k0,s=W22ZaJ0SNY7soEsUEjb6gQ==,i=4096"
    );
    let server_final = exchange
        .finish(
            b"c=biws,r=rOprNGfwEbeRWgbNEkqO%hvYDpWUa2RaTCAfuxFIlj)hNlF$k0,p=dHzbZapWIk4jUhN+Ute9ytag9zjfMHgsqmmiz7AndVQ=",
        )
        .unwrap();
    assert_eq!(
        &server_final[..],
        b"v=6rriTRBi23WpRR/wtup+mMhUZUn/dB5nLTJRsjl95G4="
    );
}

#[test]
fn downgraded_and_unknown_mechanisms_are_refused() {
    let server = ScramServer::with_parameters(
        b"pencil",
        b"fixed test salt".to_vec(),
        DEFAULT_ITERATIONS,
        ServerChannelBinding::TlsServerEndPoint(b"certificate".to_vec()),
    )
    .unwrap();
    // A client that could have bound the channel must not be talked out of it.
    assert!(server
        .start(SCRAM_SHA_256.as_bytes(), b"y,,n=,r=nonce")
        .is_err());
    assert!(server.start(b"PLAIN", b"n,,n=,r=nonce").is_err());
    let refused: Result<_, ScramError> =
        ScramServer::with_parameters(b"pencil", vec![1], 0, ServerChannelBinding::Unbound);
    assert!(refused.is_err());
}

#[test]
fn challenges_disclose_salt_and_iterations() {
    let server = ScramServer::with_parameters(
        b"pencil",
        b"salt".to_vec(),
        5000,
        ServerChannelBinding::Unbound,
    )
    .unwrap();
    let (_, challenge) = server
        .start(SCRAM_SHA_256.as_bytes(), b"n,,n=,r=nonce")
        .unwrap();
    assert!(challenge.ends_with(b",s=c2FsdA==,i=5000"));
}

#[test]
fn server_nonces_are_fresh() {
    let server = ScramServer::new(b"pencil", ServerChannelBinding::Unbound);
    let first = server
        .start(SCRAM_SHA_256.as_bytes(), b"n,,n=,r=nonce")
        .unwrap()
        .1;
    let second = server
        .start(SCRAM_SHA_256.as_bytes(), b"n,,n=,r=nonce")
        .unwrap()
        .1;
    assert_ne!(first, second);
    assert!(first.starts_with(b"r=nonce"));
}

fn refused(server: &ScramServer, mechanism: &[u8], message: &[u8]) -> ScramError {
    match server.start(mechanism, message) {
        Ok(_) => panic!("the message is refused"),
        Err(error) => error,
    }
}

#[test]
fn each_defect_of_a_first_message_is_named() {
    let plain = SCRAM_SHA_256.as_bytes();
    let plus = SCRAM_SHA_256_PLUS.as_bytes();
    let server = ScramServer::new(b"pencil", ServerChannelBinding::Unbound);
    let bound = ScramServer::new(
        b"pencil",
        ServerChannelBinding::TlsServerEndPoint(b"digest".to_vec()),
    );
    assert_eq!(refused(&server, plain, b"\xff"), ScramError::NotText);
    assert_eq!(refused(&server, plain, b"n,"), ScramError::MalformedHeader);
    assert_eq!(
        refused(&server, b"PLAIN", b"n,,n=,r=x"),
        ScramError::UnsupportedMechanism
    );
    assert_eq!(
        refused(&server, plus, b"p=tls-server-end-point,,n=,r=x"),
        ScramError::BindingUnavailable
    );
    assert_eq!(
        refused(&bound, plain, b"y,,n=,r=x"),
        ScramError::BindingDowngrade
    );
    assert_eq!(
        refused(&bound, plain, b"p=tls-server-end-point,,n=,r=x"),
        ScramError::UnexpectedBinding
    );
    assert_eq!(
        refused(&server, plain, b"n,,n"),
        ScramError::MalformedAttribute
    );
    assert_eq!(
        refused(&server, plain, b"n,,n=,n=,r=x"),
        ScramError::DuplicateAttribute
    );
    assert_eq!(
        refused(&server, plain, b"n,,m=x,n=,r=x"),
        ScramError::MandatoryExtension
    );
    assert_eq!(
        refused(&server, plain, b"n,,n="),
        ScramError::MissingAttribute
    );
    assert_eq!(
        refused(&server, plain, b"n,,n=,r="),
        ScramError::InvalidNonce
    );
    assert!(matches!(
        ScramServer::with_parameters(
            b"pencil",
            vec![1],
            DEFAULT_ITERATIONS - 1,
            ServerChannelBinding::Unbound
        ),
        Err(ScramError::WeakIterationCount)
    ));
}

fn finished(client_final: &str) -> ScramError {
    let server = ScramServer::with_parameters(
        b"pencil",
        vec![1],
        DEFAULT_ITERATIONS,
        ServerChannelBinding::Unbound,
    )
    .unwrap();
    let (exchange, _) = server
        .start_with_nonce(SCRAM_SHA_256.as_bytes(), b"n,,n=,r=client", b"server")
        .unwrap();
    match exchange.finish(client_final.as_bytes()) {
        Ok(_) => panic!("the message is refused"),
        Err(error) => error,
    }
}

#[test]
fn each_defect_of_a_final_message_is_named() {
    assert_eq!(
        finished("c=biws,r=clientserver"),
        ScramError::MissingProof
    );
    assert_eq!(
        finished("c=biws,r=client,p=AA=="),
        ScramError::NonceMismatch
    );
    assert_eq!(
        finished("c=!,r=clientserver,p=AA=="),
        ScramError::InvalidEncoding
    );
    assert_eq!(
        finished("c=eSws,r=clientserver,p=AA=="),
        ScramError::BindingMismatch
    );
    assert_eq!(
        finished("c=biws,r=clientserver,p=AA==,x=1"),
        ScramError::ProofNotLast
    );
    assert_eq!(
        finished("c=biws,r=clientserver,p=AA=="),
        ScramError::ProofLength
    );
    assert_eq!(
        finished("c=biws,r=clientserver,p=AAAAAAAAAAAAAAAAAAAAAAAAAAAAAAAAAAAAAAAAAAA="),
        ScramError::InvalidProof
    );
    assert_eq!(
        ScramError::InvalidProof.message(),
        "invalid SCRAM client proof"
    );
}
