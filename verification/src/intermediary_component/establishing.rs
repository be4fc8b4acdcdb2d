//! Output that completes, or ends, the establishment of a pair.

use vstd::prelude::*;

use super::acceptance::{
    announcement, detaches, disclosed, Acceptance, AcceptanceView, ConnectionView, FailurePoint,
    IntermediaryConnection,
};
use super::batching::BackendMiddlewareOutput;
use super::policy::{CancellationRoute, IntermediaryCancellationRegistry};
use super::roles::{server_backend, ServerConnectionCore};
use crate::codec::backend::BackendView;
use crate::codec::{BackendMessage, TransactionStatus};
use crate::pipeline::PipelinePolicy;
use crate::runtime_middleware::ServerMiddleware;

verus! {

/// Whether a diagnostic is sent as the client-facing role left it: only while it still
/// is one.
pub open spec fn discloses<DT, SC, State, SH: ServerMiddleware<State, SC>>(
    before: (ServerConnectionCore<DT, SC, SH>, State),
    diagnostic: BackendMessage,
    seen: BackendMessage,
    sent: Option<BackendMessage>,
    after: (ServerConnectionCore<DT, SC, SH>, State),
) -> bool {
    &&& server_backend(before, diagnostic, after, seen)
    &&& sent == if seen is ErrorResponse {
        Some(seen)
    } else {
        None
    }
}

/// Whether a failure is disclosed as the policy asks.
pub open spec fn discloses_failure<DT, SC, State, SH: ServerMiddleware<State, SC>>(
    before: (ServerConnectionCore<DT, SC, SH>, State),
    told: Option<BackendView>,
    sent: Option<BackendMessage>,
    after: (ServerConnectionCore<DT, SC, SH>, State),
) -> bool {
    match told {
        None => after == before && sent is None,
        Some(expected) => exists|diagnostic: BackendMessage, seen: BackendMessage|
            diagnostic@ == expected && #[trigger] discloses(
                before,
                diagnostic,
                seen,
                sent,
                after,
            ),
    }
}

/// The registered key is detached.
pub open spec fn detached<K: IntermediaryCancellationRegistry>(
    before: AcceptanceView<K>,
    after: AcceptanceView<K>,
) -> bool {
    &&& after == (AcceptanceView { client_key: None, ..before })
    &&& before.client_key matches Some(client) ==> exists|route: Option<CancellationRoute>|
        #[trigger] detaches(before.registry, client, route)
}

/// Whether the client's key is announced as the client-facing role left it: unchanged,
/// or not at all.
pub open spec fn announces<
    DT,
    SC,
    SH: ServerMiddleware<State, SC>,
    U,
    State,
    Boundary,
    K: IntermediaryCancellationRegistry,
>(
    before: ConnectionView<ServerConnectionCore<DT, SC, SH>, U, State, Boundary, K>,
    message: BackendMessage,
    seen: BackendMessage,
    result: Result<BackendMessage, FailurePoint>,
    after: ConnectionView<ServerConnectionCore<DT, SC, SH>, U, State, Boundary, K>,
) -> bool {
    let shown = ConnectionView { downstream: after.downstream, state: after.state, ..before };
    &&& server_backend(
        (before.downstream, before.state),
        message,
        (after.downstream, after.state),
        seen,
    )
    &&& if seen@ == announcement(before.acceptance.client_key->0) {
        after == shown && result == Ok::<_, FailurePoint>(seen)
    } else {
        &&& after == (ConnectionView { acceptance: after.acceptance, ..shown })
        &&& detached(before.acceptance, after.acceptance)
        &&& result == Err::<BackendMessage, _>(FailurePoint::KeyRewritten)
    }
}

/// Whether readiness is announced as the client-facing role left it: as readiness, or
/// not at all.
pub open spec fn readies<
    DT,
    SC,
    SH: ServerMiddleware<State, SC>,
    U,
    State,
    Boundary,
    K: IntermediaryCancellationRegistry,
>(
    before: ConnectionView<ServerConnectionCore<DT, SC, SH>, U, State, Boundary, K>,
    seen: BackendMessage,
    result: Result<BackendMessage, FailurePoint>,
    after: ConnectionView<ServerConnectionCore<DT, SC, SH>, U, State, Boundary, K>,
) -> bool {
    let shown = ConnectionView { downstream: after.downstream, state: after.state, ..before };
    &&& server_backend(
        (before.downstream, before.state),
        BackendMessage::ReadyForQuery(TransactionStatus::Idle),
        (after.downstream, after.state),
        seen,
    )
    &&& if seen is ReadyForQuery {
        after == shown && result == Ok::<_, FailurePoint>(seen)
    } else {
        &&& after == (ConnectionView { acceptance: after.acceptance, ..shown })
        &&& detached(before.acceptance, after.acceptance)
        &&& result == Err::<BackendMessage, _>(FailurePoint::ReadinessWithheld)
    }
}

impl<K> Acceptance<K> {
    /// What is sent to the client because establishment failed, if anything.
    pub fn disclose<DT, SC, State, SH: ServerMiddleware<State, SC>>(
        &self,
        point: FailurePoint,
        downstream: &mut ServerConnectionCore<DT, SC, SH>,
        state: &mut State,
    ) -> (sent: Option<BackendMessage>)
        ensures
            discloses_failure(
                (*old(downstream), *old(state)),
                disclosed(self@.failure, point),
                sent,
                (*final(downstream), *final(state)),
            ),
    {
        match self.diagnostic(point) {
            None => None,
            Some(diagnostic) => {
                let ghost told = diagnostic;
                let seen = downstream.intercept_backend(state, diagnostic);
                let ghost shown = seen;
                let sent = Acceptance::<K>::on_diagnostic(seen);
                assert(discloses(
                    (*old(downstream), *old(state)),
                    told,
                    shown,
                    sent,
                    (*downstream, *state),
                ));
                sent
            },
        }
    }
}

impl<
    DT,
    SC,
    SH: ServerMiddleware<State, SC>,
    U,
    State,
    Boundary,
    P: PipelinePolicy,
    K: IntermediaryCancellationRegistry,
> IntermediaryConnection<ServerConnectionCore<DT, SC, SH>, U, State, Boundary, P, K> {
    /// Announces the client's key after the boundary decided on it. On a failure the
    /// key is detached.
    ///
    /// # Errors
    ///
    /// The boundary has to forward the key, and middleware must not rewrite it.
    pub fn announce_key(&mut self, output: BackendMiddlewareOutput) -> (result: Result<
        BackendMessage,
        FailurePoint,
    >)
        requires
            old(self)@.acceptance.client_key is Some,
        ensures
            match output {
                BackendMiddlewareOutput::Forward(message) => exists|seen: BackendMessage|
                    #[trigger] announces(old(self)@, message, seen, result, final(self)@),
                _ => {
                    &&& result == Err::<BackendMessage, _>(FailurePoint::KeyWithheld)
                    &&& final(self)@ == (ConnectionView {
                        acceptance: final(self)@.acceptance,
                        ..old(self)@
                    })
                    &&& detached(old(self)@.acceptance, final(self)@.acceptance)
                },
            },
    {
        let message = match Acceptance::<K>::on_boundary(output) {
            Ok(message) => message,
            Err(point) => {
                let _ = self.detach_cancellation();
                return Err(point);
            },
        };
        let parts = self.parts();
        let seen = parts.downstream.intercept_backend(parts.state, message);
        let ghost shown = seen;
        let result = self.acceptance().on_announcement(seen);
        if result.is_err() {
            let _ = self.detach_cancellation();
        }
        assert(announces(old(self)@, message, shown, result, self@));
        result
    }

    /// Announces readiness, which completes establishment. On a failure the client's
    /// key is detached.
    ///
    /// # Errors
    ///
    /// Middleware must leave a readiness.
    pub fn announce_readiness(&mut self) -> (result: Result<BackendMessage, FailurePoint>)
        ensures
            exists|seen: BackendMessage| #[trigger]
                readies(old(self)@, seen, result, final(self)@),
    {
        let parts = self.parts();
        let seen = parts.downstream.intercept_backend(parts.state, Acceptance::<K>::readiness());
        let ghost shown = seen;
        let result = Acceptance::<K>::on_readiness(seen);
        if result.is_err() {
            let _ = self.detach_cancellation();
        }
        assert(readies(old(self)@, shown, result, self@));
        result
    }
}

/// Whatever middleware does, the key that reaches the client is the registered one,
/// and it stays registered.
pub proof fn law_announced_key_is_never_rewritten<
    DT,
    SC,
    SH: ServerMiddleware<State, SC>,
    U,
    State,
    Boundary,
    K: IntermediaryCancellationRegistry,
>(
    before: ConnectionView<ServerConnectionCore<DT, SC, SH>, U, State, Boundary, K>,
    message: BackendMessage,
    seen: BackendMessage,
    sent: BackendMessage,
    after: ConnectionView<ServerConnectionCore<DT, SC, SH>, U, State, Boundary, K>,
)
    requires
        before.acceptance.client_key is Some,
        announces(before, message, seen, Ok::<_, FailurePoint>(sent), after),
    ensures
        sent@ == announcement(before.acceptance.client_key->0),
        after.acceptance == before.acceptance,
{
}

/// Establishment output that middleware spoiled leaves no key registered.
pub proof fn law_spoiled_output_detaches<
    DT,
    SC,
    SH: ServerMiddleware<State, SC>,
    U,
    State,
    Boundary,
    K: IntermediaryCancellationRegistry,
>(
    before: ConnectionView<ServerConnectionCore<DT, SC, SH>, U, State, Boundary, K>,
    message: BackendMessage,
    seen: BackendMessage,
    point: FailurePoint,
    after: ConnectionView<ServerConnectionCore<DT, SC, SH>, U, State, Boundary, K>,
)
    requires
        announces(before, message, seen, Err::<BackendMessage, _>(point), after) || readies(
            before,
            seen,
            Err::<BackendMessage, _>(point),
            after,
        ),
    ensures
        after.acceptance.client_key is None,
        after.forwarding == before.forwarding,
        after.target == before.target,
{
}

/// A failure is told to the client by an error response or not at all, and a policy that
/// keeps it to itself disturbs nothing.
pub proof fn law_failures_are_told_as_errors<DT, SC, State, SH: ServerMiddleware<State, SC>>(
    before: (ServerConnectionCore<DT, SC, SH>, State),
    told: Option<BackendView>,
    sent: Option<BackendMessage>,
    after: (ServerConnectionCore<DT, SC, SH>, State),
)
    requires
        discloses_failure(before, told, sent, after),
    ensures
        sent matches Some(message) ==> message is ErrorResponse && told is Some,
        told is None ==> after == before,
        after.0.held() == before.0.held(),
{
}

/// What middleware leaves of a diagnostic is sent if and only if it is still an error.
pub proof fn law_diagnostics_pass_the_handler<DT, SC, State, SH: ServerMiddleware<State, SC>>(
    before: (ServerConnectionCore<DT, SC, SH>, State),
    diagnostic: BackendMessage,
    seen: BackendMessage,
    sent: Option<BackendMessage>,
    after: (ServerConnectionCore<DT, SC, SH>, State),
)
    requires
        discloses(before, diagnostic, seen, sent, after),
    ensures
        sent is Some <==> seen is ErrorResponse,
        sent matches Some(message) ==> message == seen,
{
}

} // verus!
