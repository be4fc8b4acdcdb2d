//! The client-facing role of an established pair.

use vstd::prelude::*;

use crate::client_component::{ClientConnectionContext, ClientConnectionCore};
use crate::codec::{BackendMessage, FrontendMessage};
use crate::runtime_middleware::{ClientMiddleware, ServerMiddleware};

verus! {

/// An accepted client's transport with the handler and the facts that belong to it.
pub struct ServerConnectionCore<Transport, Context, Handler> {
    transport: Transport,
    handler: Handler,
    context: Context,
}

impl<Transport, Context, Handler> ServerConnectionCore<Transport, Context, Handler> {
    /// The transport held.
    pub closed spec fn held(self) -> Transport {
        self.transport
    }

    /// The handler.
    pub closed spec fn handling(self) -> Handler {
        self.handler
    }

    /// The facts.
    pub closed spec fn facts(self) -> Context {
        self.context
    }

    pub fn new(transport: Transport, handler: Handler, context: Context) -> (core: Self)
        ensures
            core.held() == transport,
            core.handling() == handler,
            core.facts() == context,
    {
        ServerConnectionCore { transport, handler, context }
    }

    /// Returns immutable connection facts.
    pub fn context(&self) -> (context: &Context)
        ensures
            *context == self.facts(),
    {
        &self.context
    }

    /// Mutably borrows the transport, to send or receive.
    pub fn transport_mut(&mut self) -> (transport: &mut Transport)
        ensures
            *transport == old(self).held(),
            final(self).held() == *final(transport),
            final(self).handling() == old(self).handling(),
            final(self).facts() == old(self).facts(),
    {
        &mut self.transport
    }

    /// Lets the handler see a message of the client.
    pub fn intercept_frontend<State>(&mut self, state: &mut State, message: FrontendMessage) -> (
    result: FrontendMessage) where Handler: ServerMiddleware<State, Context>
        ensures
            server_frontend(
                (*old(self), *old(state)),
                message,
                (*final(self), *final(state)),
                result,
            ),
    {
        self.handler.frontend(&self.context, state, message)
    }

    /// Lets the handler see a message of the server.
    pub fn intercept_backend<State>(&mut self, state: &mut State, message: BackendMessage) -> (
    result: BackendMessage) where Handler: ServerMiddleware<State, Context>
        ensures
            server_backend(
                (*old(self), *old(state)),
                message,
                (*final(self), *final(state)),
                result,
            ),
    {
        self.handler.backend(&self.context, state, message)
    }

    /// Recovers every owned part deliberately.
    pub fn into_parts(self) -> (parts: (Transport, Handler, Context))
        ensures
            parts == (self.held(), self.handling(), self.facts()),
    {
        (self.transport, self.handler, self.context)
    }
}

/// The client-facing handler makes `result` of a request; nothing but the handler and
/// the state changes.
pub open spec fn server_frontend<Transport, Context, State, Handler: ServerMiddleware<State, Context>>(
    before: (ServerConnectionCore<Transport, Context, Handler>, State),
    message: FrontendMessage,
    after: (ServerConnectionCore<Transport, Context, Handler>, State),
    result: FrontendMessage,
) -> bool {
    &&& Handler::frontend_step(
        (before.0.handling(), before.1),
        before.0.facts(),
        message,
        (after.0.handling(), after.1),
        result,
    )
    &&& after.0.held() == before.0.held()
    &&& after.0.facts() == before.0.facts()
}

/// The client-facing handler makes `result` of a response; nothing but the handler
/// and the state changes.
pub open spec fn server_backend<Transport, Context, State, Handler: ServerMiddleware<State, Context>>(
    before: (ServerConnectionCore<Transport, Context, Handler>, State),
    message: BackendMessage,
    after: (ServerConnectionCore<Transport, Context, Handler>, State),
    result: BackendMessage,
) -> bool {
    &&& Handler::backend_step(
        (before.0.handling(), before.1),
        before.0.facts(),
        message,
        (after.0.handling(), after.1),
        result,
    )
    &&& after.0.held() == before.0.held()
    &&& after.0.facts() == before.0.facts()
}

/// The PostgreSQL-facing handler makes `result` of a request; nothing but the handler
/// and the state changes.
pub open spec fn client_frontend<
    Transport,
    Cleanliness,
    Evidence,
    State,
    Handler: ClientMiddleware<State, ClientConnectionContext<Evidence>>,
>(
    before: (ClientConnectionCore<Transport, Cleanliness, Evidence, Handler>, State),
    message: FrontendMessage,
    after: (ClientConnectionCore<Transport, Cleanliness, Evidence, Handler>, State),
    result: FrontendMessage,
) -> bool {
    &&& Handler::frontend_step(
        (before.0.handling(), before.1),
        before.0.facts(),
        message,
        (after.0.handling(), after.1),
        result,
    )
    &&& after.0.held() == before.0.held()
    &&& after.0.facts() == before.0.facts()
}

/// The PostgreSQL-facing handler makes `result` of a response; nothing but the
/// handler and the state changes.
pub open spec fn client_backend<
    Transport,
    Cleanliness,
    Evidence,
    State,
    Handler: ClientMiddleware<State, ClientConnectionContext<Evidence>>,
>(
    before: (ClientConnectionCore<Transport, Cleanliness, Evidence, Handler>, State),
    message: BackendMessage,
    after: (ClientConnectionCore<Transport, Cleanliness, Evidence, Handler>, State),
    result: BackendMessage,
) -> bool {
    &&& Handler::backend_step(
        (before.0.handling(), before.1),
        before.0.facts(),
        message,
        (after.0.handling(), after.1),
        result,
    )
    &&& after.0.held() == before.0.held()
    &&& after.0.facts() == before.0.facts()
}

/// The client-facing handler sees responses one after the other.
pub open spec fn server_backend_all<
    Transport,
    Context,
    State,
    Handler: ServerMiddleware<State, Context>,
>(
    before: (ServerConnectionCore<Transport, Context, Handler>, State),
    messages: Seq<BackendMessage>,
    after: (ServerConnectionCore<Transport, Context, Handler>, State),
    results: Seq<BackendMessage>,
) -> bool
    decreases messages.len(),
{
    &&& results.len() == messages.len()
    &&& if messages.len() == 0 {
        after == before
    } else {
        exists|between: (ServerConnectionCore<Transport, Context, Handler>, State)|
            #[trigger] server_backend(between, messages.last(), after, results.last())
                && server_backend_all(before, messages.drop_last(), between, results.drop_last())
    }
}

} // verus!
