//! Contextual middleware of a connection.

use bytes::Bytes;
use pg_proto::cancel::CancellationRequest;
use pg_proto::codec::{BackendMessage, FrontendMessage};
use pg_proto::demux::CancelKey;
use pg_proto::pre_startup::PreStartupMessage;
use pg_proto::runtime_middleware::{
    ClientMiddleware, IdentityMiddleware, MiddlewareChain, MiddlewareFactory, ServerMiddleware,
};
use pg_proto::startup::StartupMessage;

/// Records its name, and appends its mark to queries.
#[derive(Debug, PartialEq)]
struct Records(&'static str);

impl Records {
    fn mark(&self, message: FrontendMessage) -> FrontendMessage {
        match message {
            FrontendMessage::Query(text) => {
                let mut text = text.to_vec();
                text.extend_from_slice(self.0.as_bytes());
                FrontendMessage::Query(Bytes::from(text))
            }
            other => other,
        }
    }
}

impl ServerMiddleware<Vec<&'static str>, &'static str> for Records {
    fn pre_startup(
        &mut self,
        _context: &&'static str,
        state: &mut Vec<&'static str>,
        message: PreStartupMessage,
    ) -> PreStartupMessage {
        state.push(self.0);
        message
    }

    fn startup(
        &mut self,
        _context: &&'static str,
        state: &mut Vec<&'static str>,
        message: StartupMessage,
    ) -> StartupMessage {
        state.push(self.0);
        message
    }

    fn cancellation(
        &mut self,
        _context: &&'static str,
        state: &mut Vec<&'static str>,
        message: CancellationRequest,
    ) -> CancellationRequest {
        state.push(self.0);
        message
    }

    fn frontend(
        &mut self,
        context: &&'static str,
        state: &mut Vec<&'static str>,
        message: FrontendMessage,
    ) -> FrontendMessage {
        assert_eq!(context, &"peer-1");
        state.push(self.0);
        self.mark(message)
    }

    fn backend(
        &mut self,
        _context: &&'static str,
        state: &mut Vec<&'static str>,
        message: BackendMessage,
    ) -> BackendMessage {
        state.push(self.0);
        message
    }
}

impl ClientMiddleware<Vec<&'static str>, &'static str> for Records {
    fn pre_startup(
        &mut self,
        _context: &&'static str,
        state: &mut Vec<&'static str>,
        message: PreStartupMessage,
    ) -> PreStartupMessage {
        state.push(self.0);
        message
    }

    fn startup(
        &mut self,
        _context: &&'static str,
        state: &mut Vec<&'static str>,
        message: StartupMessage,
    ) -> StartupMessage {
        state.push(self.0);
        message
    }

    fn frontend(
        &mut self,
        _context: &&'static str,
        state: &mut Vec<&'static str>,
        message: FrontendMessage,
    ) -> FrontendMessage {
        state.push(self.0);
        self.mark(message)
    }

    fn backend(
        &mut self,
        _context: &&'static str,
        state: &mut Vec<&'static str>,
        message: BackendMessage,
    ) -> BackendMessage {
        state.push(self.0);
        message
    }
}

fn first(context: &&'static str) -> Records {
    assert_eq!(context, &"peer-1");
    Records("first")
}

fn second(_context: &&'static str) -> Records {
    Records("second")
}

#[test]
fn middleware_is_fresh_ordered_and_contextual() {
    let factory = MiddlewareChain(MiddlewareChain(IdentityMiddleware, first), second);
    let mut handler = factory.create(&"peer-1");
    assert_eq!(
        handler,
        MiddlewareChain(
            MiddlewareChain(IdentityMiddleware, Records("first")),
            Records("second")
        )
    );
    let mut state = Vec::new();
    let message = ServerMiddleware::frontend(
        &mut handler,
        &"peer-1",
        &mut state,
        FrontendMessage::Query(Bytes::from_static(b"x")),
    );
    assert_eq!(
        message,
        FrontendMessage::Query(Bytes::from_static(b"xfirstsecond"))
    );
    assert_eq!(state, ["first", "second"]);
    assert_eq!((handler.0).1 .0, "first");

    let request = handler.cancellation(
        &"peer-1",
        &mut state,
        CancellationRequest::new(CancelKey {
            process_id: 7,
            secret_key: Bytes::from_static(b"key!"),
        }),
    );
    assert_eq!(request.process_id(), 7);
    assert_eq!(state, ["first", "second", "first", "second"]);
}

#[test]
fn client_chains_run_in_declaration_order() {
    let mut handler = MiddlewareChain(first, second).create(&"peer-1");
    let mut state = Vec::new();
    let message = ClientMiddleware::frontend(
        &mut handler,
        &"peer-1",
        &mut state,
        FrontendMessage::Query(Bytes::from_static(b"x")),
    );
    assert_eq!(
        message,
        FrontendMessage::Query(Bytes::from_static(b"xfirstsecond"))
    );
    let message = ClientMiddleware::backend(
        &mut handler,
        &"peer-1",
        &mut state,
        BackendMessage::BindComplete,
    );
    assert_eq!(message, BackendMessage::BindComplete);
    let message = ClientMiddleware::pre_startup(
        &mut handler,
        &"peer-1",
        &mut state,
        PreStartupMessage::SslRequest,
    );
    assert!(matches!(message, PreStartupMessage::SslRequest));
    assert_eq!(
        state,
        ["first", "second", "first", "second", "first", "second"]
    );
}

#[test]
fn identity_middleware_passes_everything() {
    let mut handler: IdentityMiddleware = IdentityMiddleware.create(&());
    let message = ClientMiddleware::frontend(&mut handler, &(), &mut (), FrontendMessage::Sync);
    assert_eq!(message, FrontendMessage::Sync);
    let message =
        ServerMiddleware::backend(&mut handler, &(), &mut (), BackendMessage::BindComplete);
    assert_eq!(message, BackendMessage::BindComplete);
    assert_eq!(IdentityMiddleware::default(), IdentityMiddleware);
}
