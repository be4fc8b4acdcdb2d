//! Establishment steps with the connection's handler in their place: it sees every
//! message before a decision is made on it, and every response before it is framed.

use bytes::Bytes;
use vstd::prelude::*;

use super::authentication::ClientAuthenticationResponse;
use super::connection::{ClientConnectionContext, ConnectAttempt};
use super::establish::{
    answers, follows, heard, idle_item, law_answers_are_framed,
    law_authentication_needs_the_servers_word, listens,
    mechanism_octets, on_startup_item, owes, replaced, transmits, AnswerStep, EstablishFault, Establishment, MessageStep, ProtocolFault, ReadyStep,
    Stage,
};
use super::tls::{negotiation_packet, TlsFault};
use crate::auth::AwaitingStartupReady;
use crate::codec::layout::number;
use crate::codec::{Authentication, BackendMessage, Frame, FrontendMessage, TransactionStatus};
use crate::conn::Conn;
use crate::demux::SessionItem;
use crate::octets::octets;
use crate::pre_startup::{law_request_layout, request_octets, PreStartupMessage, SSL_REQUEST_CODE};
use crate::runtime_middleware::ClientMiddleware;
use crate::startup::{StartupMessage, StartupView};

verus! {

/// Whether a received message is decided on as the handler left it.
pub open spec fn hears<
    S,
    State,
    Evidence,
    Handler: ClientMiddleware<State, ClientConnectionContext<Evidence>>,
>(
    establishment: Establishment<S>,
    context: ClientConnectionContext<Evidence>,
    before: (Handler, State),
    message: BackendMessage,
    seen: BackendMessage,
    step: MessageStep<S>,
    after: (Handler, State),
) -> bool {
    &&& Handler::backend_step(before, context, message, after, seen)
    &&& follows(step, establishment.held(), heard(establishment.stage(), seen))
}

/// Whether a response is framed as the handler left it.
pub open spec fn frames_response<
    S,
    State,
    Evidence,
    Handler: ClientMiddleware<State, ClientConnectionContext<Evidence>>,
>(
    pending: Establishment<S>,
    context: ClientConnectionContext<Evidence>,
    before: (Handler, State),
    mechanism: Option<Bytes>,
    response: Bytes,
    seen: FrontendMessage,
    framed: Result<(Establishment<S>, Frame), EstablishFault>,
    after: (Handler, State),
) -> bool {
    &&& Handler::frontend_step(
        before,
        context,
        FrontendMessage::PasswordResponse(response),
        after,
        seen,
    )
    &&& transmits(framed, pending.held(), pending.stage(), mechanism_octets(mechanism), seen)
}

/// A framed response as the outcome of an answer.
pub open spec fn answered<S>(framed: Result<(Establishment<S>, Frame), EstablishFault>) -> Result<
    (Establishment<S>, Option<Frame>),
    EstablishFault,
> {
    match framed {
        Ok((next, frame)) => Ok((next, Some(frame))),
        Err(fault) => Err(fault),
    }
}

/// Whether a policy's response is dealt with as it must be, by way of `step`.
pub open spec fn replies<
    S,
    State,
    Evidence,
    Handler: ClientMiddleware<State, ClientConnectionContext<Evidence>>,
>(
    establishment: Establishment<S>,
    context: ClientConnectionContext<Evidence>,
    before: (Handler, State),
    response: ClientAuthenticationResponse,
    step: AnswerStep<S>,
    result: Result<(Establishment<S>, Option<Frame>), EstablishFault>,
    after: (Handler, State),
) -> bool {
    &&& answers(step, establishment.held(), establishment.stage(), response)
    &&& match step {
        AnswerStep::Receive(next) => after == before && result == Ok::<_, EstablishFault>(
            (next, None::<Frame>),
        ),
        AnswerStep::Failed(_, fault) => after == before && result == Err::<
            (Establishment<S>, Option<Frame>),
            _,
        >(fault),
        AnswerStep::Intercept { pending, mechanism, response } => exists|
            seen: FrontendMessage,
            framed: Result<(Establishment<S>, Frame), EstablishFault>,
        | #[trigger]
            frames_response(
                pending,
                context,
                before,
                mechanism,
                response,
                seen,
                framed,
                after,
            ) && result == answered(framed),
    }
}

/// Whether an item of startup is decided on as the handler left its message.
pub open spec fn readies_with<
    S,
    State,
    Evidence,
    Handler: ClientMiddleware<State, ClientConnectionContext<Evidence>>,
>(
    held: S,
    context: ClientConnectionContext<Evidence>,
    before: (Handler, State),
    item: SessionItem,
    message: BackendMessage,
    seen: BackendMessage,
    step: ReadyStep<S>,
    after: (Handler, State),
) -> bool {
    &&& message@ == SessionItem::backend(item@)
    &&& Handler::backend_step(before, context, message, after, seen)
    &&& match replaced(item, seen) {
        None => step == ReadyStep::Failed(
            held,
            EstablishFault::Protocol(ProtocolFault::UnfitReplacement),
        ),
        Some(SessionItem::Message(_)) => step matches ReadyStep::Receive(next) && next.held()
            == held,
        Some(kept) => if kept == idle_item() {
            step matches ReadyStep::Ready(ready) && ready.held() == held
        } else {
            step == ReadyStep::Failed(held, EstablishFault::Protocol(ProtocolFault::NotIdle))
        },
    }
}

/// Whether a packet opens TLS negotiation as the handler left the request.
pub open spec fn opens_negotiation<
    State,
    Evidence,
    Handler: ClientMiddleware<State, ClientConnectionContext<Evidence>>,
>(
    context: ClientConnectionContext<Evidence>,
    before: (Handler, State),
    seen: PreStartupMessage,
    result: Result<Bytes, TlsFault>,
    after: (Handler, State),
) -> bool {
    &&& Handler::pre_startup_step(before, context, PreStartupMessage::SslRequest, after, seen)
    &&& if seen is SslRequest {
        result matches Ok(packet) && octets(packet) == request_octets(SSL_REQUEST_CODE)
    } else {
        result == Err::<Bytes, _>(TlsFault::IncompatibleRequest)
    }
}

/// Whether a startup message is what the handler left of the prepared one.
pub open spec fn opens_session<
    State,
    Evidence,
    Handler: ClientMiddleware<State, ClientConnectionContext<Evidence>>,
>(
    context: ClientConnectionContext<Evidence>,
    before: (Handler, State),
    prepared: StartupView,
    message: StartupMessage,
    result: StartupMessage,
    after: (Handler, State),
) -> bool {
    &&& message@ == prepared
    &&& Handler::startup_step(before, context, message, after, result)
}

impl<S> Establishment<S> {
    /// Lets the handler see a received message, then decides on what it left.
    pub fn hear<
        State,
        Evidence,
        Handler: ClientMiddleware<State, ClientConnectionContext<Evidence>>,
    >(
        self,
        context: &ClientConnectionContext<Evidence>,
        state: &mut State,
        handler: &mut Handler,
        message: BackendMessage,
    ) -> (step: MessageStep<S>)
        requires
            listens(self.stage()),
        ensures
            exists|seen: BackendMessage| #[trigger]
                hears(
                    self,
                    *context,
                    (*old(handler), *old(state)),
                    message,
                    seen,
                    step,
                    (*final(handler), *final(state)),
                ),
    {
        let ghost before = self;
        let seen = handler.backend(context, state, message);
        let ghost shown = seen;
        let step = self.on_message(seen);
        assert(hears(
            before,
            *context,
            (*old(handler), *old(state)),
            message,
            shown,
            step,
            (*handler, *state),
        ));
        step
    }

    /// Deals with a policy's response to a challenge. The handler sees a response that
    /// is to be sent; its frame is returned.
    ///
    /// # Errors
    ///
    /// The response has to fit the challenge, middleware has to leave a password
    /// response, and that has to be encodable.
    pub fn reply<
        State,
        Evidence,
        Handler: ClientMiddleware<State, ClientConnectionContext<Evidence>>,
    >(
        self,
        context: &ClientConnectionContext<Evidence>,
        state: &mut State,
        handler: &mut Handler,
        response: ClientAuthenticationResponse,
    ) -> (result: Result<(Self, Option<Frame>), EstablishFault>)
        requires
            owes(self.stage()) || self.stage() == Stage::SaslFinal,
        ensures
            exists|step: AnswerStep<S>| #[trigger]
                replies(
                    self,
                    *context,
                    (*old(handler), *old(state)),
                    response,
                    step,
                    result,
                    (*final(handler), *final(state)),
                ),
    {
        let ghost before = self;
        let step = self.on_answer(response);
        let ghost taken = step;
        let result = match step {
            AnswerStep::Receive(next) => Ok((next, None)),
            AnswerStep::Failed(_, fault) => Err(fault),
            AnswerStep::Intercept { pending, mechanism, response } => {
                let ghost waiting = pending;
                let ghost chosen = mechanism;
                let seen = handler.frontend(
                    context,
                    state,
                    FrontendMessage::PasswordResponse(response),
                );
                let ghost shown = seen;
                let framed = pending.on_intercepted(mechanism, seen);
                let ghost outcome = framed;
                assert(frames_response(
                    waiting,
                    *context,
                    (*old(handler), *old(state)),
                    chosen,
                    response,
                    shown,
                    outcome,
                    (*handler, *state),
                ));
                let result = match framed {
                    Ok((next, frame)) => Ok((next, Some(frame))),
                    Err(fault) => Err(fault),
                };
                assert(result == answered(outcome));
                result
            },
        };
        assert(replies(
            before,
            *context,
            (*old(handler), *old(state)),
            response,
            taken,
            result,
            (*handler, *state),
        ));
        result
    }
}

/// Lets the handler see an item's message while startup is being completed, then
/// decides on what it left.
pub fn complete_startup<
    S,
    State,
    Evidence,
    Handler: ClientMiddleware<State, ClientConnectionContext<Evidence>>,
>(
    conn: Conn<S, AwaitingStartupReady>,
    context: &ClientConnectionContext<Evidence>,
    state: &mut State,
    handler: &mut Handler,
    item: SessionItem,
) -> (step: ReadyStep<S>)
    ensures
        exists|message: BackendMessage, seen: BackendMessage| #[trigger]
            readies_with(
                conn.held(),
                *context,
                (*old(handler), *old(state)),
                item,
                message,
                seen,
                step,
                (*final(handler), *final(state)),
            ),
{
    let ghost held = conn.held();
    let message = item.as_backend_message();
    let ghost offered = message;
    let seen = handler.backend(context, state, message);
    let ghost shown = seen;
    let step = on_startup_item(conn, item, seen);
    assert(readies_with(
        held,
        *context,
        (*old(handler), *old(state)),
        item,
        offered,
        shown,
        step,
        (*handler, *state),
    ));
    step
}

impl<Evidence> ConnectAttempt<Evidence> {
    /// The packet that opens TLS negotiation, once the handler saw the request.
    ///
    /// # Errors
    ///
    /// Middleware has to leave an SSL request.
    pub fn ssl_request<
        State,
        Handler: ClientMiddleware<State, ClientConnectionContext<Evidence>>,
    >(&self, state: &mut State, handler: &mut Handler) -> (result: Result<Bytes, TlsFault>)
        ensures
            exists|seen: PreStartupMessage| #[trigger]
                opens_negotiation(
                    self.facts(),
                    (*old(handler), *old(state)),
                    seen,
                    result,
                    (*final(handler), *final(state)),
                ),
    {
        let seen = handler.pre_startup(self.context(), state, PreStartupMessage::SslRequest);
        let ghost shown = seen;
        let result = negotiation_packet(seen);
        assert(opens_negotiation(
            self.facts(),
            (*old(handler), *old(state)),
            shown,
            result,
            (*handler, *state),
        ));
        result
    }

    /// The startup message to send, once the handler saw the prepared one.
    pub fn opening_message<
        State,
        Handler: ClientMiddleware<State, ClientConnectionContext<Evidence>>,
    >(&self, state: &mut State, handler: &mut Handler) -> (result: StartupMessage)
        ensures
            exists|message: StartupMessage| #[trigger]
                opens_session(
                    self.facts(),
                    (*old(handler), *old(state)),
                    self@.startup,
                    message,
                    result,
                    (*final(handler), *final(state)),
                ),
    {
        let message = self.startup();
        let ghost prepared = message;
        let result = handler.startup(self.context(), state, message);
        assert(opens_session(
            self.facts(),
            (*old(handler), *old(state)),
            self@.startup,
            prepared,
            result,
            (*handler, *state),
        ));
        result
    }
}

/// Authentication succeeds only on an acceptance that the handler let through.
pub proof fn law_acceptance_passes_the_handler<
    S,
    State,
    Evidence,
    Handler: ClientMiddleware<State, ClientConnectionContext<Evidence>>,
>(
    establishment: Establishment<S>,
    context: ClientConnectionContext<Evidence>,
    before: (Handler, State),
    message: BackendMessage,
    seen: BackendMessage,
    step: MessageStep<S>,
    after: (Handler, State),
)
    requires
        listens(establishment.stage()),
        hears(establishment, context, before, message, seen, step, after),
        step is Authenticated,
    ensures
        seen == BackendMessage::Authentication(Authentication::Accepted),
        Handler::backend_step(before, context, message, after, seen),
{
    law_authentication_needs_the_servers_word(establishment.stage(), seen);
}

/// Startup is complete only when the handler left an idle readiness of an item that
/// reported one, with no parameter changed; every other message waits for more, and
/// what no longer fits its item fails the attempt. The transport is never lost.
pub proof fn law_startup_items_pass_the_handler<
    S,
    State,
    Evidence,
    Handler: ClientMiddleware<State, ClientConnectionContext<Evidence>>,
>(
    held: S,
    context: ClientConnectionContext<Evidence>,
    before: (Handler, State),
    item: SessionItem,
    message: BackendMessage,
    seen: BackendMessage,
    step: ReadyStep<S>,
    after: (Handler, State),
)
    requires
        readies_with(held, context, before, item, message, seen, step, after),
    ensures
        step is Ready <==> seen == BackendMessage::ReadyForQuery(TransactionStatus::Idle) && (item
            matches SessionItem::ReadyForQuery { parameters_changed, .. } && !parameters_changed),
        step is Receive <==> item is Message,
        item is ReadyForQuery && !(seen is ReadyForQuery) || item is CommandComplete && !(seen
            is CommandComplete) <==> step == ReadyStep::Failed(
            held,
            EstablishFault::Protocol(ProtocolFault::UnfitReplacement),
        ),
        match step {
            ReadyStep::Ready(ready) => ready.held() == held,
            ReadyStep::Receive(next) => next.held() == held,
            ReadyStep::Failed(transport, _) => transport == held,
        },
{
}

/// TLS is asked for by eight octets, and only if the handler left the request.
pub proof fn law_negotiation_passes_the_handler<
    State,
    Evidence,
    Handler: ClientMiddleware<State, ClientConnectionContext<Evidence>>,
>(
    context: ClientConnectionContext<Evidence>,
    before: (Handler, State),
    seen: PreStartupMessage,
    result: Result<Bytes, TlsFault>,
    after: (Handler, State),
)
    requires
        opens_negotiation(context, before, seen, result, after),
    ensures
        result is Ok <==> seen is SslRequest,
        result matches Ok(packet) ==> octets(packet).len() == 8 && number(octets(packet).take(4))
            == 8 && number(octets(packet).subrange(4, 8)) == 1234 * 0x1_0000 + 5679,
        result matches Err(fault) ==> fault == TlsFault::IncompatibleRequest,
{
    law_request_layout(0, Seq::empty());
}

/// What is sent in answer to a challenge is a password message with what the handler
/// left, and a handler that left anything else stops the attempt.
pub proof fn law_answers_pass_the_handler<
    S,
    State,
    Evidence,
    Handler: ClientMiddleware<State, ClientConnectionContext<Evidence>>,
>(
    pending: Establishment<S>,
    context: ClientConnectionContext<Evidence>,
    before: (Handler, State),
    mechanism: Option<Bytes>,
    response: Bytes,
    seen: FrontendMessage,
    framed: Result<(Establishment<S>, Frame), EstablishFault>,
    after: (Handler, State),
)
    requires
        owes(pending.stage()),
        frames_response(pending, context, before, mechanism, response, seen, framed, after),
    ensures
        !(seen is PasswordResponse) <==> framed == Err::<(Establishment<S>, Frame), _>(
            EstablishFault::InvalidResponse,
        ),
        framed matches Ok((next, frame)) ==> {
            &&& next.held() == pending.held()
            &&& frame@.tag == 0x70u8
            &&& seen matches FrontendMessage::PasswordResponse(left)
            &&& pending.stage() == Stage::SaslChallenge || pending.stage() == Stage::Token
                ==> frame@.body == octets(left)
            &&& pending.stage() == Stage::Password ==> frame@.body == octets(left) + seq![0u8]
        },
{
    if let FrontendMessage::PasswordResponse(left) = seen {
        law_answers_are_framed(pending.stage(), mechanism_octets(mechanism), octets(left));
    }
}

/// A response that does not fit the challenge reaches neither the handler nor the
/// server, and a verified server is told nothing.
pub proof fn law_unfit_answers_go_nowhere<
    S,
    State,
    Evidence,
    Handler: ClientMiddleware<State, ClientConnectionContext<Evidence>>,
>(
    establishment: Establishment<S>,
    context: ClientConnectionContext<Evidence>,
    before: (Handler, State),
    response: ClientAuthenticationResponse,
    step: AnswerStep<S>,
    result: Result<(Establishment<S>, Option<Frame>), EstablishFault>,
    after: (Handler, State),
)
    requires
        replies(establishment, context, before, response, step, result, after),
    ensures
        step is Failed ==> after == before && result == Err::<
            (Establishment<S>, Option<Frame>),
            _,
        >(EstablishFault::InvalidResponse),
        response is Verified ==> after == before,
        response is Verified && establishment.stage() == Stage::SaslFinal ==> (result matches Ok(
            (next, frame),
        ) && frame is None && next.stage() == (Stage::AwaitingOk { sasl: true })),
        result matches Ok((next, frame)) ==> next.held() == establishment.held() && (frame is None
            <==> response is Verified),
{
}

} // verus!
