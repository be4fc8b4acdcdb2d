//! Contextual, per-connection middleware used by the builder facade.

use vstd::prelude::*;

use crate::cancel::CancellationRequest;
use crate::codec::{BackendMessage, FrontendMessage};
use crate::pre_startup::PreStartupMessage;
use crate::startup::StartupMessage;

verus! {

/// Creates one isolated handler synchronously for a new connection. Unless it says
/// otherwise, it serves every context and promises nothing of the handler.
pub trait MiddlewareFactory<Context> {
    /// Handler owned by that connection.
    type Handler;

    /// Whether a handler can be created for a context.
    open spec fn serves(&self, context: Context) -> bool {
        true
    }

    /// Whether `handler` may be created for a context.
    open spec fn creates(&self, context: Context, handler: Self::Handler) -> bool {
        true
    }

    /// Creates the handler. Factories are deliberately infallible.
    fn create(&self, context: &Context) -> (handler: Self::Handler)
        requires
            self.serves(*context),
        ensures
            self.creates(*context, handler),
    ;
}

impl<Context, Handler, Factory: Fn(&Context) -> Handler> MiddlewareFactory<Context> for Factory {
    type Handler = Handler;

    open spec fn serves(&self, context: Context) -> bool {
        call_requires(*self, (&context,))
    }

    open spec fn creates(&self, context: Context, handler: Handler) -> bool {
        call_ensures(*self, (&context,), handler)
    }

    fn create(&self, context: &Context) -> (handler: Handler) {
        self(context)
    }
}

/// Default factory and handler: messages pass through unchanged.
#[derive(Clone, Copy, Debug, PartialEq, Eq, Structural)]
pub struct IdentityMiddleware;

impl Default for IdentityMiddleware {
    fn default() -> (middleware: Self)
        ensures
            middleware == IdentityMiddleware,
    {
        IdentityMiddleware
    }
}

impl<Context> MiddlewareFactory<Context> for IdentityMiddleware {
    type Handler = IdentityMiddleware;

    open spec fn serves(&self, context: Context) -> bool {
        true
    }

    open spec fn creates(&self, context: Context, handler: IdentityMiddleware) -> bool {
        handler == *self
    }

    fn create(&self, _context: &Context) -> (handler: IdentityMiddleware) {
        *self
    }
}

/// Two factories/handlers composed in builder declaration order.
#[derive(Clone, Debug, PartialEq, Eq)]
pub struct MiddlewareChain<First, Second>(pub First, pub Second);

impl<
    Context,
    First: MiddlewareFactory<Context>,
    Second: MiddlewareFactory<Context>,
> MiddlewareFactory<Context> for MiddlewareChain<First, Second> {
    type Handler = MiddlewareChain<First::Handler, Second::Handler>;

    open spec fn serves(&self, context: Context) -> bool {
        self.0.serves(context) && self.1.serves(context)
    }

    open spec fn creates(
        &self,
        context: Context,
        handler: MiddlewareChain<First::Handler, Second::Handler>,
    ) -> bool {
        self.0.creates(context, handler.0) && self.1.creates(context, handler.1)
    }

    fn create(&self, context: &Context) -> (handler: MiddlewareChain<
        First::Handler,
        Second::Handler,
    >) {
        let first = self.0.create(context);
        let second = self.1.create(context);
        MiddlewareChain(first, second)
    }
}

/// Middleware for a PostgreSQL client role. For each direction it says how the
/// handler, the state and the message may turn out; one that does not say so
/// promises nothing.
pub trait ClientMiddleware<State, Context>: Sized {
    /// How intercepting a pre-startup negotiation packet may turn out.
    open spec fn pre_startup_step(
        before: (Self, State),
        context: Context,
        message: PreStartupMessage,
        after: (Self, State),
        result: PreStartupMessage,
    ) -> bool {
        true
    }

    /// Intercepts a pre-startup negotiation packet.
    fn pre_startup(&mut self, context: &Context, state: &mut State, message: PreStartupMessage) -> (result: PreStartupMessage)
        ensures
            Self::pre_startup_step(
                (*old(self), *old(state)),
                *context,
                message,
                (*final(self), *final(state)),
                result,
            ),
    ;

    /// How intercepting the owned startup message may turn out.
    open spec fn startup_step(
        before: (Self, State),
        context: Context,
        message: StartupMessage,
        after: (Self, State),
        result: StartupMessage,
    ) -> bool {
        true
    }

    /// Intercepts the owned startup message.
    fn startup(&mut self, context: &Context, state: &mut State, message: StartupMessage) -> (result: StartupMessage)
        ensures
            Self::startup_step(
                (*old(self), *old(state)),
                *context,
                message,
                (*final(self), *final(state)),
                result,
            ),
    ;

    /// How intercepting one message of the client may turn out.
    open spec fn frontend_step(
        before: (Self, State),
        context: Context,
        message: FrontendMessage,
        after: (Self, State),
        result: FrontendMessage,
    ) -> bool {
        true
    }

    /// Intercepts one message of the client.
    fn frontend(&mut self, context: &Context, state: &mut State, message: FrontendMessage) -> (result: FrontendMessage)
        ensures
            Self::frontend_step(
                (*old(self), *old(state)),
                *context,
                message,
                (*final(self), *final(state)),
                result,
            ),
    ;

    /// How intercepting one message of the server may turn out.
    open spec fn backend_step(
        before: (Self, State),
        context: Context,
        message: BackendMessage,
        after: (Self, State),
        result: BackendMessage,
    ) -> bool {
        true
    }

    /// Intercepts one message of the server.
    fn backend(&mut self, context: &Context, state: &mut State, message: BackendMessage) -> (result: BackendMessage)
        ensures
            Self::backend_step(
                (*old(self), *old(state)),
                *context,
                message,
                (*final(self), *final(state)),
                result,
            ),
    ;
}

impl<State, Context> ClientMiddleware<State, Context> for IdentityMiddleware {
    open spec fn pre_startup_step(
        before: (Self, State),
        context: Context,
        message: PreStartupMessage,
        after: (Self, State),
        result: PreStartupMessage,
    ) -> bool {
        after == before && result == message
    }

    fn pre_startup(&mut self, _context: &Context, _state: &mut State, message: PreStartupMessage) -> (result: PreStartupMessage) {
        message
    }

    open spec fn startup_step(
        before: (Self, State),
        context: Context,
        message: StartupMessage,
        after: (Self, State),
        result: StartupMessage,
    ) -> bool {
        after == before && result == message
    }

    fn startup(&mut self, _context: &Context, _state: &mut State, message: StartupMessage) -> (result: StartupMessage) {
        message
    }

    open spec fn frontend_step(
        before: (Self, State),
        context: Context,
        message: FrontendMessage,
        after: (Self, State),
        result: FrontendMessage,
    ) -> bool {
        after == before && result == message
    }

    fn frontend(&mut self, _context: &Context, _state: &mut State, message: FrontendMessage) -> (result: FrontendMessage) {
        message
    }

    open spec fn backend_step(
        before: (Self, State),
        context: Context,
        message: BackendMessage,
        after: (Self, State),
        result: BackendMessage,
    ) -> bool {
        after == before && result == message
    }

    fn backend(&mut self, _context: &Context, _state: &mut State, message: BackendMessage) -> (result: BackendMessage) {
        message
    }
}

/// The first stage turns a message into what it passes on; the second one gets that.
pub open spec fn client_pre_startup_chain<
    State,
    Context,
    First: ClientMiddleware<State, Context>,
    Second: ClientMiddleware<State, Context>,
>(
    before: (MiddlewareChain<First, Second>, State),
    context: Context,
    message: PreStartupMessage,
    passed: (PreStartupMessage, State),
    after: (MiddlewareChain<First, Second>, State),
    result: PreStartupMessage,
) -> bool {
    &&& First::pre_startup_step(
        (before.0.0, before.1),
        context,
        message,
        (after.0.0, passed.1),
        passed.0,
    )
    &&& Second::pre_startup_step(
        (before.0.1, passed.1),
        context,
        passed.0,
        (after.0.1, after.1),
        result,
    )
}

/// The first stage turns a message into what it passes on; the second one gets that.
pub open spec fn client_startup_chain<
    State,
    Context,
    First: ClientMiddleware<State, Context>,
    Second: ClientMiddleware<State, Context>,
>(
    before: (MiddlewareChain<First, Second>, State),
    context: Context,
    message: StartupMessage,
    passed: (StartupMessage, State),
    after: (MiddlewareChain<First, Second>, State),
    result: StartupMessage,
) -> bool {
    &&& First::startup_step(
        (before.0.0, before.1),
        context,
        message,
        (after.0.0, passed.1),
        passed.0,
    )
    &&& Second::startup_step(
        (before.0.1, passed.1),
        context,
        passed.0,
        (after.0.1, after.1),
        result,
    )
}

/// The first stage turns a message into what it passes on; the second one gets that.
pub open spec fn client_frontend_chain<
    State,
    Context,
    First: ClientMiddleware<State, Context>,
    Second: ClientMiddleware<State, Context>,
>(
    before: (MiddlewareChain<First, Second>, State),
    context: Context,
    message: FrontendMessage,
    passed: (FrontendMessage, State),
    after: (MiddlewareChain<First, Second>, State),
    result: FrontendMessage,
) -> bool {
    &&& First::frontend_step(
        (before.0.0, before.1),
        context,
        message,
        (after.0.0, passed.1),
        passed.0,
    )
    &&& Second::frontend_step(
        (before.0.1, passed.1),
        context,
        passed.0,
        (after.0.1, after.1),
        result,
    )
}

/// The first stage turns a message into what it passes on; the second one gets that.
pub open spec fn client_backend_chain<
    State,
    Context,
    First: ClientMiddleware<State, Context>,
    Second: ClientMiddleware<State, Context>,
>(
    before: (MiddlewareChain<First, Second>, State),
    context: Context,
    message: BackendMessage,
    passed: (BackendMessage, State),
    after: (MiddlewareChain<First, Second>, State),
    result: BackendMessage,
) -> bool {
    &&& First::backend_step(
        (before.0.0, before.1),
        context,
        message,
        (after.0.0, passed.1),
        passed.0,
    )
    &&& Second::backend_step(
        (before.0.1, passed.1),
        context,
        passed.0,
        (after.0.1, after.1),
        result,
    )
}

impl<
    State,
    Context,
    First: ClientMiddleware<State, Context>,
    Second: ClientMiddleware<State, Context>,
> ClientMiddleware<State, Context> for MiddlewareChain<First, Second> {
    /// The first stage runs before the second one, which gets its result.
    open spec fn pre_startup_step(
        before: (Self, State),
        context: Context,
        message: PreStartupMessage,
        after: (Self, State),
        result: PreStartupMessage,
    ) -> bool {
        exists|passed: PreStartupMessage, between: State| #[trigger]
            client_pre_startup_chain::<State, Context, First, Second>(
                before,
                context,
                message,
                (passed, between),
                after,
                result,
            )
    }

    fn pre_startup(&mut self, context: &Context, state: &mut State, message: PreStartupMessage) -> (result: PreStartupMessage) {
        let passed = self.0.pre_startup(context, state, message);
        let ghost between = *state;
        let ghost sent = passed;
        let result = self.1.pre_startup(context, state, passed);
        assert(client_pre_startup_chain::<State, Context, First, Second>(
            (*old(self), *old(state)),
            *context,
            message,
            (sent, between),
            (*self, *state),
            result,
        ));
        result
    }

    /// The first stage runs before the second one, which gets its result.
    open spec fn startup_step(
        before: (Self, State),
        context: Context,
        message: StartupMessage,
        after: (Self, State),
        result: StartupMessage,
    ) -> bool {
        exists|passed: StartupMessage, between: State| #[trigger]
            client_startup_chain::<State, Context, First, Second>(
                before,
                context,
                message,
                (passed, between),
                after,
                result,
            )
    }

    fn startup(&mut self, context: &Context, state: &mut State, message: StartupMessage) -> (result: StartupMessage) {
        let passed = self.0.startup(context, state, message);
        let ghost between = *state;
        let ghost sent = passed;
        let result = self.1.startup(context, state, passed);
        assert(client_startup_chain::<State, Context, First, Second>(
            (*old(self), *old(state)),
            *context,
            message,
            (sent, between),
            (*self, *state),
            result,
        ));
        result
    }

    /// The first stage runs before the second one, which gets its result.
    open spec fn frontend_step(
        before: (Self, State),
        context: Context,
        message: FrontendMessage,
        after: (Self, State),
        result: FrontendMessage,
    ) -> bool {
        exists|passed: FrontendMessage, between: State| #[trigger]
            client_frontend_chain::<State, Context, First, Second>(
                before,
                context,
                message,
                (passed, between),
                after,
                result,
            )
    }

    fn frontend(&mut self, context: &Context, state: &mut State, message: FrontendMessage) -> (result: FrontendMessage) {
        let passed = self.0.frontend(context, state, message);
        let ghost between = *state;
        let ghost sent = passed;
        let result = self.1.frontend(context, state, passed);
        assert(client_frontend_chain::<State, Context, First, Second>(
            (*old(self), *old(state)),
            *context,
            message,
            (sent, between),
            (*self, *state),
            result,
        ));
        result
    }

    /// The first stage runs before the second one, which gets its result.
    open spec fn backend_step(
        before: (Self, State),
        context: Context,
        message: BackendMessage,
        after: (Self, State),
        result: BackendMessage,
    ) -> bool {
        exists|passed: BackendMessage, between: State| #[trigger]
            client_backend_chain::<State, Context, First, Second>(
                before,
                context,
                message,
                (passed, between),
                after,
                result,
            )
    }

    fn backend(&mut self, context: &Context, state: &mut State, message: BackendMessage) -> (result: BackendMessage) {
        let passed = self.0.backend(context, state, message);
        let ghost between = *state;
        let ghost sent = passed;
        let result = self.1.backend(context, state, passed);
        assert(client_backend_chain::<State, Context, First, Second>(
            (*old(self), *old(state)),
            *context,
            message,
            (sent, between),
            (*self, *state),
            result,
        ));
        result
    }
}

/// Middleware for a PostgreSQL server role. For each direction it says how the
/// handler, the state and the message may turn out; one that does not say so
/// promises nothing.
pub trait ServerMiddleware<State, Context>: Sized {
    /// How intercepting a pre-startup negotiation packet may turn out.
    open spec fn pre_startup_step(
        before: (Self, State),
        context: Context,
        message: PreStartupMessage,
        after: (Self, State),
        result: PreStartupMessage,
    ) -> bool {
        true
    }

    /// Intercepts a pre-startup negotiation packet.
    fn pre_startup(&mut self, context: &Context, state: &mut State, message: PreStartupMessage) -> (result: PreStartupMessage)
        ensures
            Self::pre_startup_step(
                (*old(self), *old(state)),
                *context,
                message,
                (*final(self), *final(state)),
                result,
            ),
    ;

    /// How intercepting the owned startup message may turn out.
    open spec fn startup_step(
        before: (Self, State),
        context: Context,
        message: StartupMessage,
        after: (Self, State),
        result: StartupMessage,
    ) -> bool {
        true
    }

    /// Intercepts the owned startup message.
    fn startup(&mut self, context: &Context, state: &mut State, message: StartupMessage) -> (result: StartupMessage)
        ensures
            Self::startup_step(
                (*old(self), *old(state)),
                *context,
                message,
                (*final(self), *final(state)),
                result,
            ),
    ;

    /// How intercepting an out-of-band cancellation request may turn out.
    open spec fn cancellation_step(
        before: (Self, State),
        context: Context,
        message: CancellationRequest,
        after: (Self, State),
        result: CancellationRequest,
    ) -> bool {
        true
    }

    /// Intercepts an out-of-band cancellation request.
    fn cancellation(&mut self, context: &Context, state: &mut State, message: CancellationRequest) -> (result: CancellationRequest)
        ensures
            Self::cancellation_step(
                (*old(self), *old(state)),
                *context,
                message,
                (*final(self), *final(state)),
                result,
            ),
    ;

    /// How intercepting one message of the client may turn out.
    open spec fn frontend_step(
        before: (Self, State),
        context: Context,
        message: FrontendMessage,
        after: (Self, State),
        result: FrontendMessage,
    ) -> bool {
        true
    }

    /// Intercepts one message of the client.
    fn frontend(&mut self, context: &Context, state: &mut State, message: FrontendMessage) -> (result: FrontendMessage)
        ensures
            Self::frontend_step(
                (*old(self), *old(state)),
                *context,
                message,
                (*final(self), *final(state)),
                result,
            ),
    ;

    /// How intercepting one message of the server may turn out.
    open spec fn backend_step(
        before: (Self, State),
        context: Context,
        message: BackendMessage,
        after: (Self, State),
        result: BackendMessage,
    ) -> bool {
        true
    }

    /// Intercepts one message of the server.
    fn backend(&mut self, context: &Context, state: &mut State, message: BackendMessage) -> (result: BackendMessage)
        ensures
            Self::backend_step(
                (*old(self), *old(state)),
                *context,
                message,
                (*final(self), *final(state)),
                result,
            ),
    ;
}

impl<State, Context> ServerMiddleware<State, Context> for IdentityMiddleware {
    open spec fn pre_startup_step(
        before: (Self, State),
        context: Context,
        message: PreStartupMessage,
        after: (Self, State),
        result: PreStartupMessage,
    ) -> bool {
        after == before && result == message
    }

    fn pre_startup(&mut self, _context: &Context, _state: &mut State, message: PreStartupMessage) -> (result: PreStartupMessage) {
        message
    }

    open spec fn startup_step(
        before: (Self, State),
        context: Context,
        message: StartupMessage,
        after: (Self, State),
        result: StartupMessage,
    ) -> bool {
        after == before && result == message
    }

    fn startup(&mut self, _context: &Context, _state: &mut State, message: StartupMessage) -> (result: StartupMessage) {
        message
    }

    open spec fn cancellation_step(
        before: (Self, State),
        context: Context,
        message: CancellationRequest,
        after: (Self, State),
        result: CancellationRequest,
    ) -> bool {
        after == before && result == message
    }

    fn cancellation(&mut self, _context: &Context, _state: &mut State, message: CancellationRequest) -> (result: CancellationRequest) {
        message
    }

    open spec fn frontend_step(
        before: (Self, State),
        context: Context,
        message: FrontendMessage,
        after: (Self, State),
        result: FrontendMessage,
    ) -> bool {
        after == before && result == message
    }

    fn frontend(&mut self, _context: &Context, _state: &mut State, message: FrontendMessage) -> (result: FrontendMessage) {
        message
    }

    open spec fn backend_step(
        before: (Self, State),
        context: Context,
        message: BackendMessage,
        after: (Self, State),
        result: BackendMessage,
    ) -> bool {
        after == before && result == message
    }

    fn backend(&mut self, _context: &Context, _state: &mut State, message: BackendMessage) -> (result: BackendMessage) {
        message
    }
}

/// The first stage turns a message into what it passes on; the second one gets that.
pub open spec fn server_pre_startup_chain<
    State,
    Context,
    First: ServerMiddleware<State, Context>,
    Second: ServerMiddleware<State, Context>,
>(
    before: (MiddlewareChain<First, Second>, State),
    context: Context,
    message: PreStartupMessage,
    passed: (PreStartupMessage, State),
    after: (MiddlewareChain<First, Second>, State),
    result: PreStartupMessage,
) -> bool {
    &&& First::pre_startup_step(
        (before.0.0, before.1),
        context,
        message,
        (after.0.0, passed.1),
        passed.0,
    )
    &&& Second::pre_startup_step(
        (before.0.1, passed.1),
        context,
        passed.0,
        (after.0.1, after.1),
        result,
    )
}

/// The first stage turns a message into what it passes on; the second one gets that.
pub open spec fn server_startup_chain<
    State,
    Context,
    First: ServerMiddleware<State, Context>,
    Second: ServerMiddleware<State, Context>,
>(
    before: (MiddlewareChain<First, Second>, State),
    context: Context,
    message: StartupMessage,
    passed: (StartupMessage, State),
    after: (MiddlewareChain<First, Second>, State),
    result: StartupMessage,
) -> bool {
    &&& First::startup_step(
        (before.0.0, before.1),
        context,
        message,
        (after.0.0, passed.1),
        passed.0,
    )
    &&& Second::startup_step(
        (before.0.1, passed.1),
        context,
        passed.0,
        (after.0.1, after.1),
        result,
    )
}

/// The first stage turns a message into what it passes on; the second one gets that.
pub open spec fn server_cancellation_chain<
    State,
    Context,
    First: ServerMiddleware<State, Context>,
    Second: ServerMiddleware<State, Context>,
>(
    before: (MiddlewareChain<First, Second>, State),
    context: Context,
    message: CancellationRequest,
    passed: (CancellationRequest, State),
    after: (MiddlewareChain<First, Second>, State),
    result: CancellationRequest,
) -> bool {
    &&& First::cancellation_step(
        (before.0.0, before.1),
        context,
        message,
        (after.0.0, passed.1),
        passed.0,
    )
    &&& Second::cancellation_step(
        (before.0.1, passed.1),
        context,
        passed.0,
        (after.0.1, after.1),
        result,
    )
}

/// The first stage turns a message into what it passes on; the second one gets that.
pub open spec fn server_frontend_chain<
    State,
    Context,
    First: ServerMiddleware<State, Context>,
    Second: ServerMiddleware<State, Context>,
>(
    before: (MiddlewareChain<First, Second>, State),
    context: Context,
    message: FrontendMessage,
    passed: (FrontendMessage, State),
    after: (MiddlewareChain<First, Second>, State),
    result: FrontendMessage,
) -> bool {
    &&& First::frontend_step(
        (before.0.0, before.1),
        context,
        message,
        (after.0.0, passed.1),
        passed.0,
    )
    &&& Second::frontend_step(
        (before.0.1, passed.1),
        context,
        passed.0,
        (after.0.1, after.1),
        result,
    )
}

/// The first stage turns a message into what it passes on; the second one gets that.
pub open spec fn server_backend_chain<
    State,
    Context,
    First: ServerMiddleware<State, Context>,
    Second: ServerMiddleware<State, Context>,
>(
    before: (MiddlewareChain<First, Second>, State),
    context: Context,
    message: BackendMessage,
    passed: (BackendMessage, State),
    after: (MiddlewareChain<First, Second>, State),
    result: BackendMessage,
) -> bool {
    &&& First::backend_step(
        (before.0.0, before.1),
        context,
        message,
        (after.0.0, passed.1),
        passed.0,
    )
    &&& Second::backend_step(
        (before.0.1, passed.1),
        context,
        passed.0,
        (after.0.1, after.1),
        result,
    )
}

impl<
    State,
    Context,
    First: ServerMiddleware<State, Context>,
    Second: ServerMiddleware<State, Context>,
> ServerMiddleware<State, Context> for MiddlewareChain<First, Second> {
    /// The first stage runs before the second one, which gets its result.
    open spec fn pre_startup_step(
        before: (Self, State),
        context: Context,
        message: PreStartupMessage,
        after: (Self, State),
        result: PreStartupMessage,
    ) -> bool {
        exists|passed: PreStartupMessage, between: State| #[trigger]
            server_pre_startup_chain::<State, Context, First, Second>(
                before,
                context,
                message,
                (passed, between),
                after,
                result,
            )
    }

    fn pre_startup(&mut self, context: &Context, state: &mut State, message: PreStartupMessage) -> (result: PreStartupMessage) {
        let passed = self.0.pre_startup(context, state, message);
        let ghost between = *state;
        let ghost sent = passed;
        let result = self.1.pre_startup(context, state, passed);
        assert(server_pre_startup_chain::<State, Context, First, Second>(
            (*old(self), *old(state)),
            *context,
            message,
            (sent, between),
            (*self, *state),
            result,
        ));
        result
    }

    /// The first stage runs before the second one, which gets its result.
    open spec fn startup_step(
        before: (Self, State),
        context: Context,
        message: StartupMessage,
        after: (Self, State),
        result: StartupMessage,
    ) -> bool {
        exists|passed: StartupMessage, between: State| #[trigger]
            server_startup_chain::<State, Context, First, Second>(
                before,
                context,
                message,
                (passed, between),
                after,
                result,
            )
    }

    fn startup(&mut self, context: &Context, state: &mut State, message: StartupMessage) -> (result: StartupMessage) {
        let passed = self.0.startup(context, state, message);
        let ghost between = *state;
        let ghost sent = passed;
        let result = self.1.startup(context, state, passed);
        assert(server_startup_chain::<State, Context, First, Second>(
            (*old(self), *old(state)),
            *context,
            message,
            (sent, between),
            (*self, *state),
            result,
        ));
        result
    }

    /// The first stage runs before the second one, which gets its result.
    open spec fn cancellation_step(
        before: (Self, State),
        context: Context,
        message: CancellationRequest,
        after: (Self, State),
        result: CancellationRequest,
    ) -> bool {
        exists|passed: CancellationRequest, between: State| #[trigger]
            server_cancellation_chain::<State, Context, First, Second>(
                before,
                context,
                message,
                (passed, between),
                after,
                result,
            )
    }

    fn cancellation(&mut self, context: &Context, state: &mut State, message: CancellationRequest) -> (result: CancellationRequest) {
        let passed = self.0.cancellation(context, state, message);
        let ghost between = *state;
        let ghost sent = passed;
        let result = self.1.cancellation(context, state, passed);
        assert(server_cancellation_chain::<State, Context, First, Second>(
            (*old(self), *old(state)),
            *context,
            message,
            (sent, between),
            (*self, *state),
            result,
        ));
        result
    }

    /// The first stage runs before the second one, which gets its result.
    open spec fn frontend_step(
        before: (Self, State),
        context: Context,
        message: FrontendMessage,
        after: (Self, State),
        result: FrontendMessage,
    ) -> bool {
        exists|passed: FrontendMessage, between: State| #[trigger]
            server_frontend_chain::<State, Context, First, Second>(
                before,
                context,
                message,
                (passed, between),
                after,
                result,
            )
    }

    fn frontend(&mut self, context: &Context, state: &mut State, message: FrontendMessage) -> (result: FrontendMessage) {
        let passed = self.0.frontend(context, state, message);
        let ghost between = *state;
        let ghost sent = passed;
        let result = self.1.frontend(context, state, passed);
        assert(server_frontend_chain::<State, Context, First, Second>(
            (*old(self), *old(state)),
            *context,
            message,
            (sent, between),
            (*self, *state),
            result,
        ));
        result
    }

    /// The first stage runs before the second one, which gets its result.
    open spec fn backend_step(
        before: (Self, State),
        context: Context,
        message: BackendMessage,
        after: (Self, State),
        result: BackendMessage,
    ) -> bool {
        exists|passed: BackendMessage, between: State| #[trigger]
            server_backend_chain::<State, Context, First, Second>(
                before,
                context,
                message,
                (passed, between),
                after,
                result,
            )
    }

    fn backend(&mut self, context: &Context, state: &mut State, message: BackendMessage) -> (result: BackendMessage) {
        let passed = self.0.backend(context, state, message);
        let ghost between = *state;
        let ghost sent = passed;
        let result = self.1.backend(context, state, passed);
        assert(server_backend_chain::<State, Context, First, Second>(
            (*old(self), *old(state)),
            *context,
            message,
            (sent, between),
            (*self, *state),
            result,
        ));
        result
    }
}

/// A chain of two client handlers runs the first one first, in every direction: the
/// second gets what the first one made of the message and of the state.
pub proof fn law_client_chain_runs_in_order<
    State,
    Context,
    First: ClientMiddleware<State, Context>,
    Second: ClientMiddleware<State, Context>,
>(
    before: MiddlewareChain<First, Second>,
    after: MiddlewareChain<First, Second>,
    states: (State, State, State),
    context: Context,
    pre_startup: (PreStartupMessage, PreStartupMessage, PreStartupMessage),
    startup: (StartupMessage, StartupMessage, StartupMessage),
    frontend: (FrontendMessage, FrontendMessage, FrontendMessage),
    backend: (BackendMessage, BackendMessage, BackendMessage),
)
    ensures
        First::pre_startup_step(
            (before.0, states.0),
            context,
            pre_startup.0,
            (after.0, states.1),
            pre_startup.1,
        ) && Second::pre_startup_step(
            (before.1, states.1),
            context,
            pre_startup.1,
            (after.1, states.2),
            pre_startup.2,
        ) ==> <MiddlewareChain<First, Second> as ClientMiddleware<State, Context>>::pre_startup_step(
            (before, states.0),
            context,
            pre_startup.0,
            (after, states.2),
            pre_startup.2,
        ),
        First::startup_step(
            (before.0, states.0),
            context,
            startup.0,
            (after.0, states.1),
            startup.1,
        ) && Second::startup_step(
            (before.1, states.1),
            context,
            startup.1,
            (after.1, states.2),
            startup.2,
        ) ==> <MiddlewareChain<First, Second> as ClientMiddleware<State, Context>>::startup_step(
            (before, states.0),
            context,
            startup.0,
            (after, states.2),
            startup.2,
        ),
        First::frontend_step(
            (before.0, states.0),
            context,
            frontend.0,
            (after.0, states.1),
            frontend.1,
        ) && Second::frontend_step(
            (before.1, states.1),
            context,
            frontend.1,
            (after.1, states.2),
            frontend.2,
        ) ==> <MiddlewareChain<First, Second> as ClientMiddleware<State, Context>>::frontend_step(
            (before, states.0),
            context,
            frontend.0,
            (after, states.2),
            frontend.2,
        ),
        First::backend_step(
            (before.0, states.0),
            context,
            backend.0,
            (after.0, states.1),
            backend.1,
        ) && Second::backend_step(
            (before.1, states.1),
            context,
            backend.1,
            (after.1, states.2),
            backend.2,
        ) ==> <MiddlewareChain<First, Second> as ClientMiddleware<State, Context>>::backend_step(
            (before, states.0),
            context,
            backend.0,
            (after, states.2),
            backend.2,
        ),
{
    if First::pre_startup_step(
        (before.0, states.0),
        context,
        pre_startup.0,
        (after.0, states.1),
        pre_startup.1,
    ) && Second::pre_startup_step(
        (before.1, states.1),
        context,
        pre_startup.1,
        (after.1, states.2),
        pre_startup.2,
    ) {
        assert(client_pre_startup_chain::<State, Context, First, Second>(
            (before, states.0),
            context,
            pre_startup.0,
            (pre_startup.1, states.1),
            (after, states.2),
            pre_startup.2,
        ));
    }
    if First::startup_step(
        (before.0, states.0),
        context,
        startup.0,
        (after.0, states.1),
        startup.1,
    ) && Second::startup_step(
        (before.1, states.1),
        context,
        startup.1,
        (after.1, states.2),
        startup.2,
    ) {
        assert(client_startup_chain::<State, Context, First, Second>(
            (before, states.0),
            context,
            startup.0,
            (startup.1, states.1),
            (after, states.2),
            startup.2,
        ));
    }
    if First::frontend_step(
        (before.0, states.0),
        context,
        frontend.0,
        (after.0, states.1),
        frontend.1,
    ) && Second::frontend_step(
        (before.1, states.1),
        context,
        frontend.1,
        (after.1, states.2),
        frontend.2,
    ) {
        assert(client_frontend_chain::<State, Context, First, Second>(
            (before, states.0),
            context,
            frontend.0,
            (frontend.1, states.1),
            (after, states.2),
            frontend.2,
        ));
    }
    if First::backend_step(
        (before.0, states.0),
        context,
        backend.0,
        (after.0, states.1),
        backend.1,
    ) && Second::backend_step(
        (before.1, states.1),
        context,
        backend.1,
        (after.1, states.2),
        backend.2,
    ) {
        assert(client_backend_chain::<State, Context, First, Second>(
            (before, states.0),
            context,
            backend.0,
            (backend.1, states.1),
            (after, states.2),
            backend.2,
        ));
    }
}

/// A chain of two server handlers runs the first one first, in every direction: the
/// second gets what the first one made of the message and of the state.
pub proof fn law_server_chain_runs_in_order<
    State,
    Context,
    First: ServerMiddleware<State, Context>,
    Second: ServerMiddleware<State, Context>,
>(
    before: MiddlewareChain<First, Second>,
    after: MiddlewareChain<First, Second>,
    states: (State, State, State),
    context: Context,
    pre_startup: (PreStartupMessage, PreStartupMessage, PreStartupMessage),
    startup: (StartupMessage, StartupMessage, StartupMessage),
    cancellation: (CancellationRequest, CancellationRequest, CancellationRequest),
    frontend: (FrontendMessage, FrontendMessage, FrontendMessage),
    backend: (BackendMessage, BackendMessage, BackendMessage),
)
    ensures
        First::pre_startup_step(
            (before.0, states.0),
            context,
            pre_startup.0,
            (after.0, states.1),
            pre_startup.1,
        ) && Second::pre_startup_step(
            (before.1, states.1),
            context,
            pre_startup.1,
            (after.1, states.2),
            pre_startup.2,
        ) ==> <MiddlewareChain<First, Second> as ServerMiddleware<State, Context>>::pre_startup_step(
            (before, states.0),
            context,
            pre_startup.0,
            (after, states.2),
            pre_startup.2,
        ),
        First::startup_step(
            (before.0, states.0),
            context,
            startup.0,
            (after.0, states.1),
            startup.1,
        ) && Second::startup_step(
            (before.1, states.1),
            context,
            startup.1,
            (after.1, states.2),
            startup.2,
        ) ==> <MiddlewareChain<First, Second> as ServerMiddleware<State, Context>>::startup_step(
            (before, states.0),
            context,
            startup.0,
            (after, states.2),
            startup.2,
        ),
        First::cancellation_step(
            (before.0, states.0),
            context,
            cancellation.0,
            (after.0, states.1),
            cancellation.1,
        ) && Second::cancellation_step(
            (before.1, states.1),
            context,
            cancellation.1,
            (after.1, states.2),
            cancellation.2,
        ) ==> <MiddlewareChain<First, Second> as ServerMiddleware<State, Context>>::cancellation_step(
            (before, states.0),
            context,
            cancellation.0,
            (after, states.2),
            cancellation.2,
        ),
        First::frontend_step(
            (before.0, states.0),
            context,
            frontend.0,
            (after.0, states.1),
            frontend.1,
        ) && Second::frontend_step(
            (before.1, states.1),
            context,
            frontend.1,
            (after.1, states.2),
            frontend.2,
        ) ==> <MiddlewareChain<First, Second> as ServerMiddleware<State, Context>>::frontend_step(
            (before, states.0),
            context,
            frontend.0,
            (after, states.2),
            frontend.2,
        ),
        First::backend_step(
            (before.0, states.0),
            context,
            backend.0,
            (after.0, states.1),
            backend.1,
        ) && Second::backend_step(
            (before.1, states.1),
            context,
            backend.1,
            (after.1, states.2),
            backend.2,
        ) ==> <MiddlewareChain<First, Second> as ServerMiddleware<State, Context>>::backend_step(
            (before, states.0),
            context,
            backend.0,
            (after, states.2),
            backend.2,
        ),
{
    if First::pre_startup_step(
        (before.0, states.0),
        context,
        pre_startup.0,
        (after.0, states.1),
        pre_startup.1,
    ) && Second::pre_startup_step(
        (before.1, states.1),
        context,
        pre_startup.1,
        (after.1, states.2),
        pre_startup.2,
    ) {
        assert(server_pre_startup_chain::<State, Context, First, Second>(
            (before, states.0),
            context,
            pre_startup.0,
            (pre_startup.1, states.1),
            (after, states.2),
            pre_startup.2,
        ));
    }
    if First::startup_step(
        (before.0, states.0),
        context,
        startup.0,
        (after.0, states.1),
        startup.1,
    ) && Second::startup_step(
        (before.1, states.1),
        context,
        startup.1,
        (after.1, states.2),
        startup.2,
    ) {
        assert(server_startup_chain::<State, Context, First, Second>(
            (before, states.0),
            context,
            startup.0,
            (startup.1, states.1),
            (after, states.2),
            startup.2,
        ));
    }
    if First::cancellation_step(
        (before.0, states.0),
        context,
        cancellation.0,
        (after.0, states.1),
        cancellation.1,
    ) && Second::cancellation_step(
        (before.1, states.1),
        context,
        cancellation.1,
        (after.1, states.2),
        cancellation.2,
    ) {
        assert(server_cancellation_chain::<State, Context, First, Second>(
            (before, states.0),
            context,
            cancellation.0,
            (cancellation.1, states.1),
            (after, states.2),
            cancellation.2,
        ));
    }
    if First::frontend_step(
        (before.0, states.0),
        context,
        frontend.0,
        (after.0, states.1),
        frontend.1,
    ) && Second::frontend_step(
        (before.1, states.1),
        context,
        frontend.1,
        (after.1, states.2),
        frontend.2,
    ) {
        assert(server_frontend_chain::<State, Context, First, Second>(
            (before, states.0),
            context,
            frontend.0,
            (frontend.1, states.1),
            (after, states.2),
            frontend.2,
        ));
    }
    if First::backend_step(
        (before.0, states.0),
        context,
        backend.0,
        (after.0, states.1),
        backend.1,
    ) && Second::backend_step(
        (before.1, states.1),
        context,
        backend.1,
        (after.1, states.2),
        backend.2,
    ) {
        assert(server_backend_chain::<State, Context, First, Second>(
            (before, states.0),
            context,
            backend.0,
            (backend.1, states.1),
            (after, states.2),
            backend.2,
        ));
    }
}

/// The identity changes neither a message nor the state in the client role, and lets every
/// message pass.
pub proof fn law_identity_is_neutral_for_clients<State, Context>(
    handlers: (IdentityMiddleware, IdentityMiddleware),
    states: (State, State),
    context: Context,
    pre_startup: (PreStartupMessage, PreStartupMessage),
    startup: (StartupMessage, StartupMessage),
    frontend: (FrontendMessage, FrontendMessage),
    backend: (BackendMessage, BackendMessage),
)
    ensures
        <IdentityMiddleware as ClientMiddleware<State, Context>>::pre_startup_step(
            (handlers.0, states.0),
            context,
            pre_startup.0,
            (handlers.1, states.1),
            pre_startup.1,
        ) <==> handlers.0 == handlers.1 && states.0 == states.1 && pre_startup.0 == pre_startup.1,
        <IdentityMiddleware as ClientMiddleware<State, Context>>::startup_step(
            (handlers.0, states.0),
            context,
            startup.0,
            (handlers.1, states.1),
            startup.1,
        ) <==> handlers.0 == handlers.1 && states.0 == states.1 && startup.0 == startup.1,
        <IdentityMiddleware as ClientMiddleware<State, Context>>::frontend_step(
            (handlers.0, states.0),
            context,
            frontend.0,
            (handlers.1, states.1),
            frontend.1,
        ) <==> handlers.0 == handlers.1 && states.0 == states.1 && frontend.0 == frontend.1,
        <IdentityMiddleware as ClientMiddleware<State, Context>>::backend_step(
            (handlers.0, states.0),
            context,
            backend.0,
            (handlers.1, states.1),
            backend.1,
        ) <==> handlers.0 == handlers.1 && states.0 == states.1 && backend.0 == backend.1,
{
}

/// The identity changes neither a message nor the state in the server role, and lets every
/// message pass.
pub proof fn law_identity_is_neutral_for_servers<State, Context>(
    handlers: (IdentityMiddleware, IdentityMiddleware),
    states: (State, State),
    context: Context,
    pre_startup: (PreStartupMessage, PreStartupMessage),
    startup: (StartupMessage, StartupMessage),
    cancellation: (CancellationRequest, CancellationRequest),
    frontend: (FrontendMessage, FrontendMessage),
    backend: (BackendMessage, BackendMessage),
)
    ensures
        <IdentityMiddleware as ServerMiddleware<State, Context>>::pre_startup_step(
            (handlers.0, states.0),
            context,
            pre_startup.0,
            (handlers.1, states.1),
            pre_startup.1,
        ) <==> handlers.0 == handlers.1 && states.0 == states.1 && pre_startup.0 == pre_startup.1,
        <IdentityMiddleware as ServerMiddleware<State, Context>>::startup_step(
            (handlers.0, states.0),
            context,
            startup.0,
            (handlers.1, states.1),
            startup.1,
        ) <==> handlers.0 == handlers.1 && states.0 == states.1 && startup.0 == startup.1,
        <IdentityMiddleware as ServerMiddleware<State, Context>>::cancellation_step(
            (handlers.0, states.0),
            context,
            cancellation.0,
            (handlers.1, states.1),
            cancellation.1,
        ) <==> handlers.0 == handlers.1 && states.0 == states.1 && cancellation.0 == cancellation.1,
        <IdentityMiddleware as ServerMiddleware<State, Context>>::frontend_step(
            (handlers.0, states.0),
            context,
            frontend.0,
            (handlers.1, states.1),
            frontend.1,
        ) <==> handlers.0 == handlers.1 && states.0 == states.1 && frontend.0 == frontend.1,
        <IdentityMiddleware as ServerMiddleware<State, Context>>::backend_step(
            (handlers.0, states.0),
            context,
            backend.0,
            (handlers.1, states.1),
            backend.1,
        ) <==> handlers.0 == handlers.1 && states.0 == states.1 && backend.0 == backend.1,
{
}

} // verus!
