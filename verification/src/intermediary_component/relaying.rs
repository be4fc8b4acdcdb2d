//! Messages on their way through an established pair: source role, boundary,
//! destination role.

use vstd::prelude::*;

use super::acceptance::{ConnectionView, IntermediaryConnection};
use super::batching::{
    BackendBatchOutput, BackendFlushReason, BackendMiddlewareOutput, FrontendMiddlewareOutput,
};
use super::forwarding::{
    admits, advances, barrier, decides, keep_holding, kept_outcome, releases,
    BackendBatchForwarding, BackendDecision, ForwardError, ForwardingView, FrontendForwarding,
    LocalView,
};
use super::policy::IntermediaryCancellationRegistry;
use super::roles::{
    client_backend, client_frontend, server_backend, server_backend_all, server_frontend,
    ServerConnectionCore,
};
use crate::client_component::{ClientConnectionContext, ClientConnectionCore};
use crate::codec::{BackendMessage, FrontendMessage};
use crate::demux::views;
use crate::pipeline::{accepts, FrontendHandling, OperationId, PipelinePolicy};
use crate::runtime_middleware::{ClientMiddleware, ServerMiddleware};

verus! {

/// What an established pair of these roles holds.
pub type PairView<DT, SC, SH, UT, CL, E, CH, State, Boundary, K> = ConnectionView<
    ServerConnectionCore<DT, SC, SH>,
    ClientConnectionCore<UT, CL, E, CH>,
    State,
    Boundary,
    K,
>;

/// Whether a request that the boundary passed on is relayed as `sent`.
pub open spec fn relays_forward<
    DT,
    SC,
    SH,
    UT,
    CL,
    E,
    CH: ClientMiddleware<State, ClientConnectionContext<E>>,
    State,
    Boundary,
    K,
    M,
    T,
>(
    before: PairView<DT, SC, SH, UT, CL, E, CH, State, Boundary, K>,
    message: FrontendMessage,
    sent: FrontendMessage,
    result: Result<FrontendForwarding, ForwardError<M, T>>,
    after: PairView<DT, SC, SH, UT, CL, E, CH, State, Boundary, K>,
) -> bool {
    &&& client_frontend(
        (before.upstream, before.state),
        message,
        (after.upstream, after.state),
        sent,
    )
    &&& admits(before.forwarding, sent, result, after.forwarding)
    &&& after == (ConnectionView {
        upstream: after.upstream,
        state: after.state,
        forwarding: after.forwarding,
        ..before
    })
}

/// Whether a request that the boundary answers itself is admitted, and its responses
/// are queued as `queued`.
pub open spec fn relays_local<
    DT,
    SC,
    SH: ServerMiddleware<State, SC>,
    UT,
    CL,
    E,
    CH: ClientMiddleware<State, ClientConnectionContext<E>>,
    State,
    Boundary,
    K,
    M,
    T,
>(
    before: PairView<DT, SC, SH, UT, CL, E, CH, State, Boundary, K>,
    request: FrontendMessage,
    responses: Seq<BackendMessage>,
    queued: Seq<BackendMessage>,
    result: Result<FrontendForwarding, ForwardError<M, T>>,
    after: PairView<DT, SC, SH, UT, CL, E, CH, State, Boundary, K>,
) -> bool {
    &&& server_backend_all(
        (before.downstream, before.state),
        responses,
        (after.downstream, after.state),
        queued,
    )
    &&& after == (ConnectionView {
        downstream: after.downstream,
        state: after.state,
        forwarding: ForwardingView {
            ledger: before.forwarding.ledger.admitted(request@, FrontendHandling::Local),
            local: before.forwarding.local.push(
                LocalView {
                    operation: OperationId::numbered(before.forwarding.ledger.next_id),
                    messages: queued,
                },
            ),
            ..before.forwarding
        },
        ..before
    })
    &&& result matches Ok(FrontendForwarding::LocallyHandled(given))
    &&& given@ == request@
}

/// Whether the boundary's decision on a request is carried out as it must be.
pub open spec fn relays_frontend<
    DT,
    SC,
    SH: ServerMiddleware<State, SC>,
    UT,
    CL,
    E,
    CH: ClientMiddleware<State, ClientConnectionContext<E>>,
    State,
    Boundary,
    K,
    M,
    T,
>(
    before: PairView<DT, SC, SH, UT, CL, E, CH, State, Boundary, K>,
    output: FrontendMiddlewareOutput,
    result: Result<FrontendForwarding, ForwardError<M, T>>,
    after: PairView<DT, SC, SH, UT, CL, E, CH, State, Boundary, K>,
) -> bool {
    match output {
        FrontendMiddlewareOutput::Forward(message) => exists|sent: FrontendMessage| #[trigger]
            relays_forward(before, message, sent, result, after),
        FrontendMiddlewareOutput::Suppress(message) => {
            &&& after == before
            &&& result matches Ok(FrontendForwarding::Suppressed(given))
            &&& given == message
        },
        FrontendMiddlewareOutput::Respond { request, responses } => if before.forwarding.ledger.refusal(
            request@,
        ) is Some {
            &&& after == before
            &&& result matches Err(ForwardError::Frontend(error))
            &&& accepts(
                before.forwarding.ledger,
                request,
                FrontendHandling::Local,
                Err(error),
                before.forwarding.ledger,
            )
        } else {
            exists|queued: Seq<BackendMessage>| #[trigger]
                relays_local(before, request, responses@, queued, result, after)
        },
    }
}

/// Whether the retained request is admitted as it must be, now that it is tried again.
pub open spec fn readmits<M, T>(
    before: ForwardingView,
    message: FrontendMessage,
    result: Result<FrontendForwarding, ForwardError<M, T>>,
    after: ForwardingView,
) -> bool {
    admits(ForwardingView { pending: None, ..before }, message, result, after)
}

/// Whether a response is recorded as the PostgreSQL-facing role left it.
pub open spec fn records_backend<
    DT,
    SC,
    SH: ServerMiddleware<State, SC>,
    UT,
    CL,
    E,
    CH: ClientMiddleware<State, ClientConnectionContext<E>>,
    State,
    Boundary,
    K,
>(
    before: PairView<DT, SC, SH, UT, CL, E, CH, State, Boundary, K>,
    message: BackendMessage,
    seen: BackendMessage,
    flush: bool,
    after: PairView<DT, SC, SH, UT, CL, E, CH, State, Boundary, K>,
) -> bool {
    &&& client_backend(
        (before.upstream, before.state),
        message,
        (after.upstream, after.state),
        seen,
    )
    &&& after == (ConnectionView {
        upstream: after.upstream,
        state: after.state,
        forwarding: ForwardingView { waiting: Some(seen), ..before.forwarding },
        ..before
    })
    &&& flush == (barrier(seen@) && before.forwarding.kept.len() > 0)
}

/// Whether a response is emitted as the client-facing role left it.
pub open spec fn emits_backend<
    DT,
    SC,
    SH: ServerMiddleware<State, SC>,
    UT,
    CL,
    E,
    CH: ClientMiddleware<State, ClientConnectionContext<E>>,
    State,
    Boundary,
    K,
    M,
    T,
>(
    before: PairView<DT, SC, SH, UT, CL, E, CH, State, Boundary, K>,
    message: BackendMessage,
    seen: BackendMessage,
    result: Result<BackendMessage, ForwardError<M, T>>,
    after: PairView<DT, SC, SH, UT, CL, E, CH, State, Boundary, K>,
) -> bool {
    &&& server_backend(
        (before.downstream, before.state),
        message,
        (after.downstream, after.state),
        seen,
    )
    &&& advances(before.forwarding, seen, result, after.forwarding)
    &&& after == (ConnectionView {
        downstream: after.downstream,
        state: after.state,
        forwarding: after.forwarding,
        ..before
    })
}

/// Whether a held span is replaced by what the client-facing role left of the
/// proposed responses.
pub open spec fn replaces_hold<
    DT,
    SC,
    SH: ServerMiddleware<State, SC>,
    UT,
    CL,
    E,
    CH: ClientMiddleware<State, ClientConnectionContext<E>>,
    State,
    Boundary,
    K,
    M,
    T,
>(
    before: PairView<DT, SC, SH, UT, CL, E, CH, State, Boundary, K>,
    proposed: Seq<BackendMessage>,
    messages: Vec<BackendMessage>,
    result: Result<Vec<BackendMessage>, ForwardError<M, T>>,
    after: PairView<DT, SC, SH, UT, CL, E, CH, State, Boundary, K>,
) -> bool {
    &&& server_backend_all(
        (before.downstream, before.state),
        proposed,
        (after.downstream, after.state),
        messages@,
    )
    &&& releases(before.forwarding, messages, result, after.forwarding)
    &&& after == (ConnectionView {
        downstream: after.downstream,
        state: after.state,
        forwarding: after.forwarding,
        ..before
    })
}

/// Whether batch policy's decision on the held span is carried out as it must be.
pub open spec fn flushes<
    DT,
    SC,
    SH: ServerMiddleware<State, SC>,
    UT,
    CL,
    E,
    CH: ClientMiddleware<State, ClientConnectionContext<E>>,
    State,
    Boundary,
    K,
    M,
    T,
>(
    before: PairView<DT, SC, SH, UT, CL, E, CH, State, Boundary, K>,
    reason: BackendFlushReason,
    output: BackendBatchOutput,
    result: Result<BackendBatchForwarding, ForwardError<M, T>>,
    after: PairView<DT, SC, SH, UT, CL, E, CH, State, Boundary, K>,
) -> bool {
    if before.forwarding.kept.len() == 0 {
        after == before && result matches Ok(BackendBatchForwarding::Empty)
    } else {
        match output {
            BackendBatchOutput::KeepHolding => after == before && result == kept_outcome::<M, T>(
                reason,
            ),
            BackendBatchOutput::ReplaceOneToOne(proposed) => exists|
                messages: Vec<BackendMessage>,
                released: Result<Vec<BackendMessage>, ForwardError<M, T>>,
            | #[trigger]
                replaces_hold(before, proposed@, messages, released, after) && result
                    == batch_outcome(released),
        }
    }
}

/// A release as an outcome of batch policy.
pub open spec fn batch_outcome<M, T>(
    released: Result<Vec<BackendMessage>, ForwardError<M, T>>,
) -> Result<BackendBatchForwarding, ForwardError<M, T>> {
    match released {
        Ok(messages) => Ok(BackendBatchForwarding::Released(messages)),
        Err(error) => Err(error),
    }
}

/// What is to be emitted after a decision on a response.
pub enum RelayedResponse {
    /// Send this response.
    Send(BackendMessage),
    /// Emit these responses one after the other in place of the source.
    EmitAll {
        source: BackendMessage,
        messages: Vec<BackendMessage>,
    },
    /// The response advanced the pipeline and is not sent.
    Suppressed(BackendMessage),
    /// The response is held.
    Held,
}

/// An emitted response as the outcome of a decision.
pub open spec fn sent_outcome<M, T>(emitted: Result<BackendMessage, ForwardError<M, T>>) -> Result<
    RelayedResponse,
    ForwardError<M, T>,
> {
    match emitted {
        Ok(message) => Ok(RelayedResponse::Send(message)),
        Err(error) => Err(error),
    }
}

/// A suppressed response as the outcome of a decision.
pub open spec fn suppressed_outcome<M, T>(
    advanced: Result<BackendMessage, ForwardError<M, T>>,
) -> Result<RelayedResponse, ForwardError<M, T>> {
    match advanced {
        Ok(message) => Ok(RelayedResponse::Suppressed(message)),
        Err(error) => Err(error),
    }
}

/// Whether what a decision asks for is carried out as it must be.
pub open spec fn concludes<
    DT,
    SC,
    SH: ServerMiddleware<State, SC>,
    UT,
    CL,
    E,
    CH: ClientMiddleware<State, ClientConnectionContext<E>>,
    State,
    Boundary,
    K,
    M,
    T,
>(
    before: PairView<DT, SC, SH, UT, CL, E, CH, State, Boundary, K>,
    decided: Result<BackendDecision, ForwardError<M, T>>,
    result: Result<RelayedResponse, ForwardError<M, T>>,
    after: PairView<DT, SC, SH, UT, CL, E, CH, State, Boundary, K>,
) -> bool {
    match decided {
        Err(error) => after == before && result == Err::<RelayedResponse, _>(error),
        Ok(BackendDecision::Emit(message)) => exists|
            seen: BackendMessage,
            emitted: Result<BackendMessage, ForwardError<M, T>>,
        | #[trigger]
            emits_backend(before, message, seen, emitted, after) && result == sent_outcome(emitted),
        Ok(BackendDecision::Advance(message)) => {
            &&& after == (ConnectionView { forwarding: after.forwarding, ..before })
            &&& exists|advanced: Result<BackendMessage, ForwardError<M, T>>| #[trigger]
                advances(before.forwarding, message, advanced, after.forwarding) && result
                    == suppressed_outcome(advanced)
        },
        Ok(BackendDecision::EmitAll { source, messages }) => after == before && result == Ok::<
            _,
            ForwardError<M, T>,
        >(RelayedResponse::EmitAll { source, messages }),
        Ok(BackendDecision::Held) => after == before && result == Ok::<_, ForwardError<M, T>>(
            RelayedResponse::Held,
        ),
    }
}

/// Whether the boundary's decision on the waiting response is carried out as it must
/// be, by way of `decided`.
pub open spec fn relays_backend<
    DT,
    SC,
    SH: ServerMiddleware<State, SC>,
    UT,
    CL,
    E,
    CH: ClientMiddleware<State, ClientConnectionContext<E>>,
    State,
    Boundary,
    K,
    M,
    T,
>(
    before: PairView<DT, SC, SH, UT, CL, E, CH, State, Boundary, K>,
    output: BackendMiddlewareOutput,
    decided: Result<BackendDecision, ForwardError<M, T>>,
    middle: PairView<DT, SC, SH, UT, CL, E, CH, State, Boundary, K>,
    result: Result<RelayedResponse, ForwardError<M, T>>,
    after: PairView<DT, SC, SH, UT, CL, E, CH, State, Boundary, K>,
) -> bool {
    &&& decides(
        before.forwarding,
        before.forwarding.waiting->0,
        output,
        decided,
        middle.forwarding,
    )
    &&& middle == (ConnectionView { forwarding: middle.forwarding, ..before })
    &&& concludes(middle, decided, result, after)
}

impl<
    DT,
    SC,
    SH: ServerMiddleware<State, SC>,
    UT,
    CL,
    E,
    CH: ClientMiddleware<State, ClientConnectionContext<E>>,
    State,
    Boundary,
    P: PipelinePolicy,
    K: IntermediaryCancellationRegistry,
> IntermediaryConnection<
    ServerConnectionCore<DT, SC, SH>,
    ClientConnectionCore<UT, CL, E, CH>,
    State,
    Boundary,
    P,
    K,
> {
    /// Lets the client-facing role see a received request, before the boundary does.
    pub fn receive_frontend(&mut self, message: FrontendMessage) -> (result: FrontendMessage)
        ensures
            server_frontend(
                (old(self)@.downstream, old(self)@.state),
                message,
                (final(self)@.downstream, final(self)@.state),
                result,
            ),
            final(self)@ == (ConnectionView {
                downstream: final(self)@.downstream,
                state: final(self)@.state,
                ..old(self)@
            }),
    {
        let parts = self.parts();
        parts.downstream.intercept_frontend(parts.state, message)
    }

    /// Relays a request that the boundary passed on.
    ///
    /// # Errors
    ///
    /// A request without capacity, or one that is illegal now, is retained.
    fn relay_forward<M, T>(&mut self, message: FrontendMessage) -> (result: Result<
        FrontendForwarding,
        ForwardError<M, T>,
    >)
        ensures
            exists|sent: FrontendMessage| #[trigger]
                relays_forward(old(self)@, message, sent, result, final(self)@),
    {
        let parts = self.parts();
        let sent = parts.upstream.intercept_frontend(parts.state, message);
        let ghost sent_seen = sent;
        let result = parts.forwarding.forward_frontend(sent);
        assert(relays_forward(old(self)@, message, sent_seen, result, self@));
        result
    }

    /// Carries out the boundary's decision on a request. A request to be forwarded is
    /// seen by the PostgreSQL-facing role, and responses of the boundary by the
    /// client-facing one.
    ///
    /// # Errors
    ///
    /// A request without capacity, or one that is illegal now, is retained if it was
    /// to be forwarded.
    pub fn process_frontend<M, T>(&mut self, output: FrontendMiddlewareOutput) -> (result: Result<
        FrontendForwarding,
        ForwardError<M, T>,
    >)
        ensures
            relays_frontend(old(self)@, output, result, final(self)@),
    {
        match output {
            FrontendMiddlewareOutput::Forward(message) => self.relay_forward(message),
            FrontendMiddlewareOutput::Suppress(message) => Ok(
                FrontendForwarding::Suppressed(message),
            ),
            FrontendMiddlewareOutput::Respond { request, responses } => {
                let copy = request.duplicate();
                let ghost asked = request;
                let admitted = self.parts().forwarding.admit_local(request);
                let operation = match admitted {
                    Ok(operation) => operation,
                    Err(error) => return Err(error),
                };
                let ghost middle = self@;
                let ghost given = responses@;
                let queued = self.intercept_responses(responses);
                let ghost queue = queued@;
                self.parts().forwarding.queue_local(operation, queued);
                let result = Ok(FrontendForwarding::LocallyHandled(copy));
                assert(relays_local(old(self)@, asked, given, queue, result, self@));
                result
            },
        }
    }

    /// Admits the retained request again, which was intercepted before.
    ///
    /// # Errors
    ///
    /// It is retained once more if it still has no capacity or is illegal.
    pub fn retry_frontend<M, T>(&mut self) -> (result: Option<
        Result<FrontendForwarding, ForwardError<M, T>>,
    >)
        ensures
            match (old(self)@.forwarding.pending, result) {
                (Some(request), Some(outcome)) => exists|message: FrontendMessage|
                    message@ == request && #[trigger] readmits(
                        old(self)@.forwarding,
                        message,
                        outcome,
                        final(self)@.forwarding,
                    ),
                (None, None) => final(self)@ == old(self)@,
                _ => false,
            },
            final(self)@ == (ConnectionView { forwarding: final(self)@.forwarding, ..old(self)@ }),
    {
        let parts = self.parts();
        match parts.forwarding.take_pending_frontend() {
            Some(message) => {
                let ghost taken = message;
                let outcome = parts.forwarding.forward_frontend(message);
                assert(readmits(old(self)@.forwarding, taken, outcome, self@.forwarding));
                Some(outcome)
            },
            None => None,
        }
    }

    /// Lets the PostgreSQL-facing role see a received response and records it. Reports
    /// whether the held span must be flushed before the boundary decides on it.
    pub fn receive_backend(&mut self, message: BackendMessage) -> (flush: bool)
        requires
            old(self)@.forwarding.waiting is None,
        ensures
            exists|seen: BackendMessage| #[trigger]
                records_backend(old(self)@, message, seen, flush, final(self)@),
    {
        let parts = self.parts();
        let seen = parts.upstream.intercept_backend(parts.state, message);
        let ghost recorded = seen;
        let flush = parts.forwarding.receive_backend(seen);
        assert(records_backend(old(self)@, message, recorded, flush, self@));
        flush
    }

    /// Lets the client-facing role see a response and advances the pipeline by what it
    /// left. The result is to be sent.
    ///
    /// # Errors
    ///
    /// Returns a response that has to wait, or one that answers nothing.
    pub fn emit_backend<M, T>(&mut self, message: BackendMessage) -> (result: Result<
        BackendMessage,
        ForwardError<M, T>,
    >)
        ensures
            exists|seen: BackendMessage| #[trigger]
                emits_backend(old(self)@, message, seen, result, final(self)@),
    {
        let parts = self.parts();
        let seen = parts.downstream.intercept_backend(parts.state, message);
        let ghost shown = seen;
        let result = parts.forwarding.advance_backend(seen);
        assert(emits_backend(old(self)@, message, shown, result, self@));
        result
    }

    /// Carries out the boundary's decision on the waiting response. A response to be
    /// forwarded is seen by the client-facing role first; an expansion is emitted by
    /// the caller, one response after the other.
    ///
    /// # Errors
    ///
    /// An expansion needs a response, and holding needs bounds; otherwise the source
    /// keeps waiting. A response that has to wait, or answers nothing, is returned.
    pub fn process_pending_backend<M, T>(&mut self, output: BackendMiddlewareOutput) -> (result:
        Result<RelayedResponse, ForwardError<M, T>>)
        requires
            old(self)@.forwarding.waiting is Some,
        ensures
            exists|
                decided: Result<BackendDecision, ForwardError<M, T>>,
                middle: PairView<DT, SC, SH, UT, CL, E, CH, State, Boundary, K>,
            | #[trigger]
                relays_backend(old(self)@, output, decided, middle, result, final(self)@),
    {
        let decided = self.parts().forwarding.decide_backend(output);
        let ghost choice = decided;
        let ghost middle = self@;
        let result = match decided {
            Err(error) => Err(error),
            Ok(BackendDecision::Emit(message)) => {
                let emitted = self.emit_backend(message);
                let ghost outcome = emitted;
                let result = match emitted {
                    Ok(message) => Ok(RelayedResponse::Send(message)),
                    Err(error) => Err(error),
                };
                assert(result == sent_outcome(outcome));
                result
            },
            Ok(BackendDecision::Advance(message)) => {
                let advanced = self.parts().forwarding.advance_backend(message);
                let ghost outcome = advanced;
                assert(advances(middle.forwarding, message, outcome, self@.forwarding));
                let result = match advanced {
                    Ok(message) => Ok(RelayedResponse::Suppressed(message)),
                    Err(error) => Err(error),
                };
                assert(result == suppressed_outcome(outcome));
                result
            },
            Ok(BackendDecision::EmitAll { source, messages }) => Ok(
                RelayedResponse::EmitAll { source, messages },
            ),
            Ok(BackendDecision::Held) => Ok(RelayedResponse::Held),
        };
        assert(concludes(middle, choice, result, self@));
        assert(relays_backend(old(self)@, output, choice, middle, result, self@));
        result
    }

    /// Carries out batch policy's decision on the held span, which was asked for a
    /// reason. The client-facing role sees the proposed responses first; those that
    /// are released are to be sent in order.
    ///
    /// # Errors
    ///
    /// Only an explicit flush may be declined. Nothing is released if a replacement
    /// cannot be encoded, or if the replacements are no legal one-to-one span.
    pub fn flush_backend_hold_for<M, T>(
        &mut self,
        reason: BackendFlushReason,
        output: BackendBatchOutput,
    ) -> (result: Result<BackendBatchForwarding, ForwardError<M, T>>)
        ensures
            flushes(old(self)@, reason, output, result, final(self)@),
    {
        if self.held_backend_messages().is_empty() {
            return Ok(BackendBatchForwarding::Empty);
        }
        match output {
            BackendBatchOutput::KeepHolding => keep_holding(reason),
            BackendBatchOutput::ReplaceOneToOne(proposed) => {
                let ghost offered = proposed@;
                let messages = self.intercept_responses(proposed);
                let ghost shown = messages;
                let released = self.parts().forwarding.release_hold(messages);
                let ghost outcome = released;
                assert(replaces_hold(old(self)@, offered, shown, outcome, self@));
                match released {
                    Ok(messages) => Ok(BackendBatchForwarding::Released(messages)),
                    Err(error) => Err(error),
                }
            },
        }
    }

    /// Lets the client-facing role see responses one after the other.
    fn intercept_responses(&mut self, responses: Vec<BackendMessage>) -> (results: Vec<
        BackendMessage,
    >)
        ensures
            server_backend_all(
                (old(self)@.downstream, old(self)@.state),
                responses@,
                (final(self)@.downstream, final(self)@.state),
                results@,
            ),
            final(self)@ == (ConnectionView {
                downstream: final(self)@.downstream,
                state: final(self)@.state,
                ..old(self)@
            }),
    {
        let ghost all = responses@;
        let mut results: Vec<BackendMessage> = Vec::new();
        assert(all.take(0) =~= Seq::empty());
        for message in iter: responses
            invariant
                iter.seq() == all,
                results@.len() == iter.index(),
                server_backend_all(
                    (old(self)@.downstream, old(self)@.state),
                    all.take(iter.index()),
                    (self@.downstream, self@.state),
                    results@,
                ),
                self@ == (ConnectionView {
                    downstream: self@.downstream,
                    state: self@.state,
                    ..old(self)@
                }),
        {
            let ghost between = (self@.downstream, self@.state);
            let ghost done = results@;
            let parts = self.parts();
            let seen = parts.downstream.intercept_backend(parts.state, message);
            results.push(seen);
            proof {
                let taken = all.take(iter.index() + 1);
                assert(taken.drop_last() =~= all.take(iter.index()));
                assert(results@.drop_last() =~= done);
                assert(server_backend(
                    between,
                    taken.last(),
                    (self@.downstream, self@.state),
                    results@.last(),
                ));
            }
        }
        assert(all.take(all.len() as int) =~= all);
        results
    }
}

/// A request never touches the client-facing role once the boundary passed it on, and
/// neither transport, target nor cancellation key is touched by any decision on a
/// request.
pub proof fn law_requests_leave_the_other_role_alone<
    DT,
    SC,
    SH: ServerMiddleware<State, SC>,
    UT,
    CL,
    E,
    CH: ClientMiddleware<State, ClientConnectionContext<E>>,
    State,
    Boundary,
    K,
    M,
    T,
>(
    before: PairView<DT, SC, SH, UT, CL, E, CH, State, Boundary, K>,
    output: FrontendMiddlewareOutput,
    result: Result<FrontendForwarding, ForwardError<M, T>>,
    after: PairView<DT, SC, SH, UT, CL, E, CH, State, Boundary, K>,
)
    requires
        relays_frontend(before, output, result, after),
    ensures
        output is Forward ==> after.downstream == before.downstream,
        output is Respond ==> after.upstream == before.upstream,
        after.downstream.held() == before.downstream.held(),
        after.upstream.held() == before.upstream.held(),
        after.boundary == before.boundary,
        after.target == before.target,
        after.acceptance == before.acceptance,
{
    match output {
        FrontendMiddlewareOutput::Forward(message) => {},
        FrontendMiddlewareOutput::Suppress(message) => {},
        FrontendMiddlewareOutput::Respond { request, responses } => {
            if before.forwarding.ledger.refusal(request@) is None {
                let queued = choose|queued: Seq<BackendMessage>| #[trigger]
                    relays_local(before, request, responses@, queued, result, after);
                assert(relays_local(before, request, responses@, queued, result, after));
                lemma_interception_keeps_transport(
                    (before.downstream, before.state),
                    responses@,
                    (after.downstream, after.state),
                    queued,
                );
            }
        },
    }
}

proof fn lemma_interception_keeps_transport<DT, SC, State, SH: ServerMiddleware<State, SC>>(
    before: (ServerConnectionCore<DT, SC, SH>, State),
    messages: Seq<BackendMessage>,
    after: (ServerConnectionCore<DT, SC, SH>, State),
    results: Seq<BackendMessage>,
)
    requires
        server_backend_all(before, messages, after, results),
    ensures
        after.0.held() == before.0.held(),
        after.0.facts() == before.0.facts(),
    decreases messages.len(),
{
    if messages.len() > 0 {
        let between = choose|between: (ServerConnectionCore<DT, SC, SH>, State)|
            #[trigger] server_backend(between, messages.last(), after, results.last())
                && server_backend_all(before, messages.drop_last(), between, results.drop_last());
        lemma_interception_keeps_transport(
            before,
            messages.drop_last(),
            between,
            results.drop_last(),
        );
    }
}

/// Responses that the boundary gives itself are queued last, under the identity of the
/// request that they answer, which the ledger records as handled here.
pub proof fn law_local_responses_are_queued<
    DT,
    SC,
    SH: ServerMiddleware<State, SC>,
    UT,
    CL,
    E,
    CH: ClientMiddleware<State, ClientConnectionContext<E>>,
    State,
    Boundary,
    K,
    M,
    T,
>(
    before: PairView<DT, SC, SH, UT, CL, E, CH, State, Boundary, K>,
    request: FrontendMessage,
    responses: Seq<BackendMessage>,
    queued: Seq<BackendMessage>,
    result: Result<FrontendForwarding, ForwardError<M, T>>,
    after: PairView<DT, SC, SH, UT, CL, E, CH, State, Boundary, K>,
)
    requires
        relays_local(before, request, responses, queued, result, after),
    ensures
        queued.len() == responses.len(),
        after.forwarding.local.len() == before.forwarding.local.len() + 1,
        after.forwarding.local.drop_last() == before.forwarding.local,
        after.forwarding.local.last().messages == queued,
        after.forwarding.local.last().operation == OperationId::numbered(
            before.forwarding.ledger.next_id,
        ),
        after.forwarding.ledger == before.forwarding.ledger.admitted(
            request@,
            FrontendHandling::Local,
        ),
        after.forwarding.pending == before.forwarding.pending,
        after.forwarding.kept == before.forwarding.kept,
        after.upstream == before.upstream,
{
    assert(after.forwarding.local.drop_last() =~= before.forwarding.local);
}

/// What the boundary decides on a request is done: one it suppresses changes nothing,
/// and one it answers that the ledger refuses changes nothing either.
pub proof fn law_boundary_decisions_on_requests<
    DT,
    SC,
    SH: ServerMiddleware<State, SC>,
    UT,
    CL,
    E,
    CH: ClientMiddleware<State, ClientConnectionContext<E>>,
    State,
    Boundary,
    K,
    M,
    T,
>(
    before: PairView<DT, SC, SH, UT, CL, E, CH, State, Boundary, K>,
    output: FrontendMiddlewareOutput,
    result: Result<FrontendForwarding, ForwardError<M, T>>,
    after: PairView<DT, SC, SH, UT, CL, E, CH, State, Boundary, K>,
)
    requires
        relays_frontend(before, output, result, after),
    ensures
        output matches FrontendMiddlewareOutput::Suppress(message) ==> after == before && (result
            matches Ok(FrontendForwarding::Suppressed(given)) && given == message),
        output matches FrontendMiddlewareOutput::Respond { request, .. } ==> (result is Ok
            <==> before.forwarding.ledger.refusal(request@) is None) && (result is Err ==> after
            == before),
        output matches FrontendMiddlewareOutput::Respond { .. } ==> after.upstream
            == before.upstream,
        output matches FrontendMiddlewareOutput::Forward(_) ==> after.downstream
            == before.downstream,
{
}

/// A response waits for the boundary's decision, and asks for a flush if and only if it
/// is a barrier and something is held.
pub proof fn law_recorded_responses_wait<
    DT,
    SC,
    SH: ServerMiddleware<State, SC>,
    UT,
    CL,
    E,
    CH: ClientMiddleware<State, ClientConnectionContext<E>>,
    State,
    Boundary,
    K,
>(
    before: PairView<DT, SC, SH, UT, CL, E, CH, State, Boundary, K>,
    message: BackendMessage,
    seen: BackendMessage,
    flush: bool,
    after: PairView<DT, SC, SH, UT, CL, E, CH, State, Boundary, K>,
)
    requires
        records_backend(before, message, seen, flush, after),
    ensures
        after.forwarding.waiting == Some(seen),
        after.forwarding.ledger == before.forwarding.ledger,
        after.forwarding.kept == before.forwarding.kept,
        after.downstream == before.downstream,
        flush <==> barrier(seen@) && before.forwarding.kept.len() > 0,
{
}

/// A flush of nothing does nothing, and one that keeps what is held does only that.
pub proof fn law_flushes<
    DT,
    SC,
    SH: ServerMiddleware<State, SC>,
    UT,
    CL,
    E,
    CH: ClientMiddleware<State, ClientConnectionContext<E>>,
    State,
    Boundary,
    K,
    M,
    T,
>(
    before: PairView<DT, SC, SH, UT, CL, E, CH, State, Boundary, K>,
    reason: BackendFlushReason,
    output: BackendBatchOutput,
    result: Result<BackendBatchForwarding, ForwardError<M, T>>,
    after: PairView<DT, SC, SH, UT, CL, E, CH, State, Boundary, K>,
)
    requires
        flushes(before, reason, output, result, after),
    ensures
        before.forwarding.kept.len() == 0 ==> after == before && result == Ok::<
            _,
            ForwardError<M, T>,
        >(BackendBatchForwarding::Empty),
        before.forwarding.kept.len() > 0 && output is KeepHolding ==> after == before && (result
            is Ok <==> reason == BackendFlushReason::Explicit),
        result matches Ok(BackendBatchForwarding::Released(released)) ==> {
            &&& released@.len() == before.forwarding.kept.len()
            &&& after.forwarding.kept.len() == 0
            &&& after.forwarding.ledger == before.forwarding.ledger.answered_all(
                views(before.forwarding.kept),
            )
        },
        after.upstream == before.upstream,
{
}

/// What comes of a decision on a response: one that is emitted is what the
/// client-facing role left of it, one that is suppressed moves the ledger alike without
/// being seen by that role, and one that is held moves nothing.
pub proof fn law_decisions_on_responses<
    DT,
    SC,
    SH: ServerMiddleware<State, SC>,
    UT,
    CL,
    E,
    CH: ClientMiddleware<State, ClientConnectionContext<E>>,
    State,
    Boundary,
    K,
    M,
    T,
>(
    before: PairView<DT, SC, SH, UT, CL, E, CH, State, Boundary, K>,
    decided: Result<BackendDecision, ForwardError<M, T>>,
    result: Result<RelayedResponse, ForwardError<M, T>>,
    after: PairView<DT, SC, SH, UT, CL, E, CH, State, Boundary, K>,
)
    requires
        concludes(before, decided, result, after),
    ensures
        decided is Err ==> result is Err,
        result matches Ok(RelayedResponse::Send(message)) ==> {
            &&& decided matches Ok(BackendDecision::Emit(_))
            &&& after.forwarding.ledger == before.forwarding.ledger.offered(None, message@)
            &&& !(before.forwarding.ledger.prepared(None, message@) is Illegal)
            &&& !(before.forwarding.ledger.prepared(None, message@) is Deferred)
        },
        result matches Ok(RelayedResponse::Suppressed(message)) ==> {
            &&& decided matches Ok(BackendDecision::Advance(given))
            &&& given == message
            &&& after.forwarding.ledger == before.forwarding.ledger.offered(None, message@)
        },
        result matches Ok(RelayedResponse::Held) ==> after == before && (decided matches Ok(
            BackendDecision::Held,
        )),
        decided matches Ok(BackendDecision::Held) ==> (result matches Ok(RelayedResponse::Held)),
        decided matches Ok(BackendDecision::EmitAll { source, messages }) ==> after == before && (
        result matches Ok(RelayedResponse::EmitAll { source: kept, messages: given }) && kept
            == source && given == messages),
        decided matches Ok(BackendDecision::Advance(_)) ==> after.downstream == before.downstream
            && after.state == before.state,
        after.upstream == before.upstream,
        after.forwarding.kept == before.forwarding.kept,
        after.forwarding.local == before.forwarding.local,
{
}

} // verus!
