//! What the ledger owes its callers: which requests it takes, how it records them
//! and what responses do to it.

use vstd::prelude::*;

use crate::codec::backend::BackendView;
use crate::codec::frontend::FrontendView;
use crate::demux::asynchronous;
use crate::grammar::backend;
use crate::codec::{BackendMessage, FrontendMessage};
use crate::pipeline::{
    accepts, any_live_sync, awaiting, completes, discarded_to_sync, extended_kind, fits, inert,
    lemma_awaiting, live_sync, open_cycle, replaces, responds, response_target, silent_kind,
    BackendAction, BackendProjectionError, BackendSequenceError, FrontendAction, FrontendAdmission,
    FrontendHandling, FrontendPhase, FrontendProjectionError, FrontendRefusal, Ledger, Operation, OperationId,
    OperationKind, Origin, Pipeline, PipelinePolicy, PipelineState, PreparedResponse, RequestState,
};

verus! {

/// Every request that the backend grammar takes in the projected phase is admitted
/// while there is room, and no other. A copy in both directions cannot be failed by
/// the frontend, and a password is no request.
pub proof fn law_legal_requests_are_admitted(ledger: Ledger, message: FrontendView)
    requires
        ledger.operations.len() != ledger.limit || ledger.request.copying(),
    ensures
        ledger.refusal(message) is None <==> backend::external_event(
            ledger.request.phase(),
            message,
        ) is Some && !(ledger.request == RequestState::CopyBoth && message is CopyFail)
            && !(message is PasswordResponse),
        ledger.refusal(message) is Some ==> ledger.refusal(message) == Some(
            FrontendRefusal::Illegal,
        ),
{
}

/// Which requests each projection takes while there is room.
pub proof fn law_admitted_requests(ledger: Ledger, message: FrontendView)
    requires
        ledger.operations.len() != ledger.limit || ledger.request.copying(),
    ensures
        ledger.request == RequestState::Ready ==> (ledger.refusal(message) is None <==> (
        message is Query || message is FunctionCall || message is Parse || message is Bind
            || message is Describe || message is Execute || message is Close
            || message is Terminate)),
        ledger.request is Extended ==> (ledger.refusal(message) is None <==> (message is Parse
            || message is Bind || message is Describe || message is Execute || message is Close
            || message is Flush || message is Sync)),
        ledger.request is ExtendedError ==> (ledger.refusal(message) is None <==> !(
        message is PasswordResponse || message is Recognised)),
        ledger.request == RequestState::CopyIn ==> (ledger.refusal(message) is None <==> (
        message is CopyData || message is CopyDone || message is CopyFail)),
        ledger.request == RequestState::CopyBoth ==> (ledger.refusal(message) is None <==> (
        message is CopyData || message is CopyDone)),
        ledger.request == RequestState::CopyOut || ledger.request == RequestState::Terminated
            ==> ledger.refusal(message) is Some,
{
}

/// A full ledger has no room for any request outside a copy.
pub proof fn law_capacity_is_refused_first(ledger: Ledger, message: FrontendView)
    ensures
        ledger.refusal(message) == Some(FrontendRefusal::Capacity) <==> ledger.operations.len()
            == ledger.limit && ledger.request != RequestState::CopyIn && ledger.request
            != RequestState::CopyBoth,
{
}

/// Kind that an operation is recorded with, as far as the request tells.
pub open spec fn requested(message: FrontendView, kind: OperationKind) -> bool {
    &&& (kind == OperationKind::Query <==> message is Query)
    &&& (kind == OperationKind::FunctionCall <==> message is FunctionCall)
    &&& (kind == OperationKind::Parse <==> message is Parse)
    &&& (kind == OperationKind::Bind <==> message is Bind)
    &&& (kind == OperationKind::Describe <==> message is Describe)
    &&& (kind == OperationKind::Execute <==> message is Execute)
    &&& (kind == OperationKind::Close <==> message is Close)
    &&& (kind == OperationKind::Flush <==> message is Flush)
    &&& (kind == OperationKind::Sync <==> message is Sync)
    &&& (kind == OperationKind::CopyData <==> message is CopyData)
    &&& (kind == OperationKind::CopyDone <==> message is CopyDone)
    &&& (kind == OperationKind::CopyFail <==> message is CopyFail)
    &&& (kind == OperationKind::Terminate <==> message is Terminate)
}

/// The operation that an admitted request adds to those outstanding.
pub open spec fn added(ledger: Ledger, message: FrontendView, handling: FrontendHandling) -> Operation {
    ledger.admitted(message, handling).operations.last()
}

/// A request that asks for a response is recorded last, under the next identity and
/// with its own kind, as forwarded or local by the caller's choice, in the phase that
/// the grammar reaches by the request. What was outstanding before stays so.
pub proof fn law_requests_are_recorded(
    ledger: Ledger,
    message: FrontendView,
    handling: FrontendHandling,
)
    requires
        ledger.sound(),
        ledger.refusal(message) is None,
        ledger.request == RequestState::Ready || ledger.request is Extended || message is Sync,
        !(message is Flush || message is Terminate),
    ensures
        ({
            let after = ledger.admitted(message, handling);
            &&& after.operations.len() == ledger.operations.len() + 1
            &&& forall|i: int|
                0 <= i < ledger.operations.len() ==> #[trigger] after.operations[i]
                    == ledger.head_fed(message)[i]
            &&& added(ledger, message, handling).id == OperationId::numbered(ledger.next_id)
            &&& requested(message, added(ledger, message, handling).kind)
            &&& !added(ledger, message, handling).discarded
            &&& added(ledger, message, handling).origin == (if handling
                == FrontendHandling::Forward {
                Origin::Forwarded
            } else {
                Origin::Local
            })
            &&& backend::allowed(
                ledger.request.phase(),
                backend::external_event(ledger.request.phase(), message)->Some_0,
            ) matches Some(transition)
            &&& transition.target == added(ledger, message, handling).response_state
        }),
{
    let after = ledger.admitted(message, handling);
    if ledger.operations.len() > 0 {
        assert(ledger.head_fed(message)[0].kind == ledger.operations[0].kind);
        assert(ledger.head_fed(message)[0].discarded == ledger.operations[0].discarded);
    }
    let (kind, request) = crate::pipeline::classified(ledger.request, message)->Some_0;
    let operation = Operation {
        id: OperationId::numbered(ledger.next_id),
        kind,
        origin: if ledger.forwards(message, handling) {
            Origin::Forwarded
        } else {
            Origin::Local
        },
        discarded: request is ExtendedError && kind != OperationKind::Sync,
        response_state: crate::pipeline::first_phase(kind),
    };
    let listed = ledger.head_fed(message).push(operation);
    assert(!inert(listed[0]));
    assert(awaiting(listed) == listed);
    assert(after.operations.last() == operation);
}

/// A request behind outstanding operations is recorded behind them whatever it asks,
/// and one that falls to an earlier error, or that asks for no response, is not kept
/// at the front.
pub proof fn law_unanswered_requests_do_not_wait(
    ledger: Ledger,
    message: FrontendView,
    handling: FrontendHandling,
)
    requires
        ledger.sound(),
        ledger.refusal(message) is None,
        message is Flush || message is Terminate || message is CopyData || message is CopyDone
            || message is CopyFail || (ledger.request is ExtendedError && !(message is Sync)),
    ensures
        ledger.operations.len() == 0 ==> ledger.admitted(message, handling).operations.len() == 0,
        ledger.operations.len() > 0 ==> ledger.admitted(message, handling).operations.len()
            == ledger.operations.len() + 1 && requested(
            message,
            added(ledger, message, handling).kind,
        ) && inert(added(ledger, message, handling)),
{
    let after = ledger.admitted(message, handling);
    let (kind, request) = crate::pipeline::classified(ledger.request, message)->Some_0;
    let operation = Operation {
        id: OperationId::numbered(ledger.next_id),
        kind,
        origin: if ledger.forwards(message, handling) {
            Origin::Forwarded
        } else {
            Origin::Local
        },
        discarded: request is ExtendedError && kind != OperationKind::Sync,
        response_state: crate::pipeline::first_phase(kind),
    };
    let listed = ledger.head_fed(message).push(operation);
    if ledger.operations.len() > 0 {
        assert(listed[0].kind == ledger.operations[0].kind);
        assert(listed[0].discarded == ledger.operations[0].discarded);
        assert(awaiting(listed) == listed);
        assert(after.operations.last() == operation);
    } else {
        assert(listed[0] == operation);
        assert(inert(listed[0]));
        assert(listed.skip(1) =~= Seq::empty());
        assert(awaiting(listed.skip(1)) =~= Seq::empty());
        assert(awaiting(listed) == awaiting(listed.skip(1)));
    }
}

/// Where an admitted request takes the projection: simple requests leave it ready,
/// extended ones open a cycle that a `Sync` ends, bound once a portal is in use;
/// termination is final; after an error only `Sync` counts; and the end of copy data
/// hands an incoming copy back to its cycle or fails it.
pub proof fn law_projection_after_a_request(
    ledger: Ledger,
    message: FrontendView,
    handling: FrontendHandling,
)
    requires
        ledger.refusal(message) is None,
    ensures
        ({
            let before = ledger.request;
            let after = ledger.admitted(message, handling).request;
            &&& before == RequestState::Ready && (message is Query || message is FunctionCall)
                ==> after == RequestState::Ready
            &&& before == RequestState::Ready && message is Terminate ==> after
                == RequestState::Terminated
            &&& before == RequestState::Ready && (message is Parse || message is Describe
                || message is Close) ==> after == (RequestState::Extended { bound: false })
            &&& (before == RequestState::Ready || before is Extended) && (message is Bind
                || message is Execute) ==> after == (RequestState::Extended { bound: true })
            &&& before is Extended && (message is Parse || message is Describe || message is Close
                || message is Flush) ==> after == before
            &&& message is Sync ==> after == RequestState::Ready
            &&& before is ExtendedError && !(message is Sync) ==> after == before
            &&& before.copying() && message is CopyData ==> after == before
            &&& before == RequestState::CopyIn && message is CopyDone ==> after == (
            RequestState::Extended { bound: true })
            &&& before == RequestState::CopyIn && message is CopyFail ==> after == (
            RequestState::ExtendedError { local: false })
            &&& before == RequestState::CopyBoth ==> after == before
        }),
        ledger.admitted(message, handling).response == ledger.response,
        ledger.admitted(message, handling).limit == ledger.limit,
        ledger.next_id < u64::MAX ==> ledger.admitted(message, handling).next_id == ledger.next_id
            + 1,
{
}

/// Copy data moves the responses to the head on as the grammar says, and no other
/// operation is touched by a request.
pub proof fn law_copy_data_feeds_the_head(ledger: Ledger, message: FrontendView)
    requires
        ledger.operations.len() > 0,
    ensures
        ledger.head_fed(message).len() == ledger.operations.len(),
        forall|i: int|
            0 < i < ledger.operations.len() ==> #[trigger] ledger.head_fed(message)[i]
                == ledger.operations[i],
        ({
            let was = ledger.operations[0];
            let head = ledger.head_fed(message)[0];
            &&& head.id == was.id
            &&& head.kind == was.kind
            &&& head.origin == was.origin
            &&& head.discarded == was.discarded
            &&& match backend::external_event(was.response_state, message) {
                Some(event) => backend::allowed(was.response_state, event) matches Some(transition)
                    && head.response_state == transition.target,
                None => head.response_state == was.response_state,
            }
        }),
{
    crate::pipeline::law_projected_events_are_allowed(
        ledger.operations[0].response_state,
        BackendView::NoData,
        message,
    );
}

/// Who a request goes to: to the upstream where the caller forwards it, unless it
/// falls to a local rejection that no `Sync` has ended.
pub proof fn law_forwarded_requests(
    ledger: Ledger,
    message: FrontendView,
    handling: FrontendHandling,
)
    ensures
        ledger.forwards(message, handling) <==> handling == FrontendHandling::Forward && (
        message is Sync || ledger.request != (RequestState::ExtendedError { local: true })),
{
}

/// The phase that an interceptor is told of.
pub proof fn law_interception_phase(ledger: Ledger)
    requires
        ledger.sound(),
        ledger.request != RequestState::Terminated,
    ensures
        ledger.interception() == FrontendPhase::Ready <==> ledger.request == RequestState::Ready,
        ledger.interception() == FrontendPhase::Building <==> ledger.request is Extended,
        ledger.interception() == FrontendPhase::ExtendedError <==> ledger.request is ExtendedError,
        ledger.interception() == FrontendPhase::SimpleCopyIn <==> ledger.request
            == RequestState::CopyIn && ledger.operations[0].kind == OperationKind::Query,
        ledger.interception() == FrontendPhase::ExtendedCopyIn <==> ledger.request
            == RequestState::CopyIn && ledger.operations[0].kind == OperationKind::Execute,
        ledger.interception() == FrontendPhase::SimpleCopyBoth <==> ledger.request
            == RequestState::CopyBoth && ledger.operations[0].kind == OperationKind::Query,
        ledger.interception() == FrontendPhase::ExtendedCopyBoth <==> ledger.request
            == RequestState::CopyBoth && ledger.operations[0].kind == OperationKind::Execute,
{
}

/// Kinds of requests that no response answers.
pub proof fn law_silent_kinds(message: FrontendView, kind: OperationKind)
    requires
        requested(message, kind),
    ensures
        silent_kind(kind) <==> (message is Flush || message is Terminate || message is CopyData
            || message is CopyDone || message is CopyFail),
        extended_kind(kind) <==> !(message is Query || message is FunctionCall
            || message is Terminate),
{
}

/// What may be done with a response: asynchronous traffic always passes; otherwise a
/// response is emitted if and only if it is the next one to the oldest operation and
/// comes from where that operation is answered.
pub proof fn law_prepared_responses(
    ledger: Ledger,
    local: Option<OperationId>,
    message: BackendView,
)
    ensures
        ledger.prepared(local, message) == PreparedResponse::Asynchronous <==> asynchronous(
            message,
        ),
        ledger.prepared(local, message) is Emit <==> !asynchronous(message)
            && ledger.operations.len() > 0 && backend::internal_event(
            ledger.operations[0].response_state,
            message,
        ) is Some && match local {
            None => ledger.operations[0].origin == Origin::Forwarded,
            Some(id) => ledger.operations[0].origin == Origin::Local && ledger.operations[0].id
                == id,
        },
        ledger.prepared(local, message) matches PreparedResponse::Emit { phase } ==> phase
            == ledger.operations[0].response_state,
        !asynchronous(message) && ledger.operations.len() == 0 ==> ledger.prepared(local, message)
            == PreparedResponse::Illegal,
        !asynchronous(message) && ledger.operations.len() > 0 && local is Some
            && ledger.operations[0].id != local->0 ==> ledger.prepared(local, message)
            == PreparedResponse::Deferred,
        !asynchronous(message) && ledger.operations.len() > 0 && local == Some(
            ledger.operations[0].id,
        ) && ledger.operations[0].origin == Origin::Forwarded ==> ledger.prepared(local, message)
            == PreparedResponse::Illegal,
{
}

/// An upstream response that the oldest operation does not take is deferred if a later
/// one, that the upstream answers, takes it, and belongs to nothing if none does.
pub proof fn law_deferred_responses(ledger: Ledger, message: BackendView)
    requires
        !asynchronous(message),
        ledger.operations.len() > 0,
        forall|i: int| 0 < i < ledger.operations.len() && (#[trigger] ledger.operations[i]).origin
            == Origin::Local ==> ledger.operations[0].origin == Origin::Local || !fits(
            ledger.operations[i],
            message,
        ),
        !(ledger.prepared(None, message) is Emit),
    ensures
        ledger.prepared(None, message) == PreparedResponse::Deferred <==> exists|i: int|
            0 < i < ledger.operations.len() && (#[trigger] ledger.operations[i]).origin
                == Origin::Forwarded && fits(ledger.operations[i], message),
        ledger.prepared(None, message) == PreparedResponse::Deferred || ledger.prepared(
            None,
            message,
        ) == PreparedResponse::Illegal,
{
    if exists|i: int| 1 <= i < ledger.operations.len() && fits(#[trigger] ledger.operations[i], message) {
        let i = choose|i: int|
            1 <= i < ledger.operations.len() && fits(#[trigger] ledger.operations[i], message);
        assert(ledger.operations[i].origin == Origin::Forwarded || ledger.operations[i].origin
            == Origin::Local);
    }
}

/// Which responses end an operation.
pub proof fn law_last_responses(kind: OperationKind, message: BackendView)
    ensures
        kind == OperationKind::Query || kind == OperationKind::FunctionCall || kind
            == OperationKind::Sync ==> (completes(kind, message) <==> message is ReadyForQuery),
        kind == OperationKind::Parse ==> (completes(kind, message) <==> message is ParseComplete
            || message is ErrorResponse),
        kind == OperationKind::Bind ==> (completes(kind, message) <==> message is BindComplete
            || message is ErrorResponse),
        kind == OperationKind::Describe ==> (completes(kind, message) <==> message is RowDescription
            || message is NoData || message is ErrorResponse),
        kind == OperationKind::Execute ==> (completes(kind, message)
            <==> message is CommandComplete || message is PortalSuspended
            || message is ErrorResponse),
        kind == OperationKind::Close ==> (completes(kind, message) <==> message is CloseComplete
            || message is ErrorResponse),
{
}

/// The last response to the oldest operation takes it out, with what follows it and
/// awaits no response; the rest stays in order.
pub proof fn law_completed_operations_leave(ledger: Ledger, message: BackendView)
    requires
        ledger.operations.len() > 0,
        completes(ledger.operations[0].kind, message),
        !(message is ErrorResponse),
    ensures
        ({
            let left = ledger.answered(message).operations;
            let gone = ledger.operations.len() - left.len();
            &&& gone >= 1
            &&& left == ledger.operations.skip(gone)
            &&& forall|i: int| 1 <= i < gone ==> inert(#[trigger] ledger.operations[i])
            &&& left.len() > 0 ==> !inert(left[0])
        }),
        ledger.answered(message).response is None,
        ledger.answered(message).next_id == ledger.next_id,
        ledger.answered(message).limit == ledger.limit,
{
    let rest = ledger.operations.skip(1);
    lemma_awaiting(rest);
    lemma_awaiting_drops_inert(rest);
    let left = ledger.answered(message).operations;
    let gone = ledger.operations.len() - left.len();
    assert(rest.skip(gone - 1) =~= ledger.operations.skip(gone));
    assert forall|i: int| 1 <= i < gone implies inert(#[trigger] ledger.operations[i]) by {
        assert(rest[i - 1] == ledger.operations[i]);
    }
}

proof fn lemma_awaiting_drops_inert(operations: Seq<Operation>)
    ensures
        awaiting(operations).len() <= operations.len(),
        forall|i: int|
            0 <= i < operations.len() - awaiting(operations).len() ==> inert(
                #[trigger] operations[i],
            ),
    decreases operations.len(),
{
    if operations.len() > 0 && inert(operations[0]) {
        let rest = operations.skip(1);
        lemma_awaiting_drops_inert(rest);
        assert forall|i: int|
            0 <= i < operations.len() - awaiting(operations).len() implies inert(
            #[trigger] operations[i],
        ) by {
            if i > 0 {
                assert(rest[i - 1] == operations[i]);
            }
        }
    }
}

/// What an error discards: all up to the first `Sync` that will be answered, and
/// nothing from there on.
pub proof fn law_discarding_stops_at_sync(operations: Seq<Operation>, sync: int)
    requires
        0 <= sync < operations.len(),
        live_sync(operations[sync]),
        forall|i: int| 0 <= i < sync ==> !live_sync(#[trigger] operations[i]),
    ensures
        discarded_to_sync(operations).len() == operations.len(),
        forall|i: int| 0 <= i < sync ==> (#[trigger] discarded_to_sync(operations)[i]).discarded,
        forall|i: int|
            sync <= i < operations.len() ==> #[trigger] discarded_to_sync(operations)[i]
                == operations[i],
{
    assert forall|i: int| sync <= i < operations.len() implies #[trigger] discarded_to_sync(
        operations,
    )[i] == operations[i] by {
        assert(crate::pipeline::synced_before(operations, i));
    }
    assert forall|i: int| 0 <= i < sync implies (#[trigger] discarded_to_sync(
        operations,
    )[i]).discarded by {
        if crate::pipeline::synced_before(operations, i) {
            let j = choose|j: int|
                0 <= j <= i && j < operations.len() && live_sync(#[trigger] operations[j]);
            assert(!live_sync(operations[j]));
        }
    }
}

/// Where the end of an operation takes the projection.
pub proof fn law_projection_after_completion(ledger: Ledger, message: BackendView)
    requires
        ledger.operations.len() > 0,
        completes(ledger.operations[0].kind, message),
    ensures
        ({
            let head = ledger.operations[0];
            let rest = ledger.operations.skip(1);
            let after = ledger.answered(message).request;
            let failed = message is ErrorResponse && (head.kind == OperationKind::Parse || head.kind
                == OperationKind::Bind || head.kind == OperationKind::Describe || head.kind
                == OperationKind::Execute || head.kind == OperationKind::Close);
            let waiting = ledger.request == (RequestState::ExtendedError { local: true });
            &&& failed && (!any_live_sync(rest) || ledger.request == RequestState::CopyIn
                || ledger.request == RequestState::CopyBoth) ==> after == (
            RequestState::ExtendedError { local: head.origin == Origin::Local })
            &&& !failed && !waiting && head.kind == OperationKind::Query ==> after
                == RequestState::Ready
            &&& !failed && !waiting && head.kind == OperationKind::Execute ==> after == (
            RequestState::Extended { bound: true })
            &&& !failed && !waiting && head.kind == OperationKind::Sync && ledger.request
                != RequestState::Terminated && !open_cycle(rest) ==> after == RequestState::Ready
            &&& !failed && !waiting && (head.kind == OperationKind::Parse || head.kind
                == OperationKind::Bind || head.kind == OperationKind::Describe || head.kind
                == OperationKind::Close || head.kind == OperationKind::FunctionCall) ==> after
                == ledger.request
        }),
{
}

/// A response that does not end the oldest operation moves only its phase on, as the
/// grammar says, and announces a copy while one is under way.
pub proof fn law_intermediate_responses(ledger: Ledger, message: BackendView)
    requires
        ledger.operations.len() > 0,
        fits(ledger.operations[0], message),
        !completes(ledger.operations[0].kind, message),
    ensures
        ({
            let was = ledger.operations[0];
            let after = ledger.answered(message);
            let head = after.operations[0];
            &&& after.operations.len() == ledger.operations.len()
            &&& head == (Operation {
                response_state: response_target(was.response_state, message),
                ..was
            })
            &&& forall|i: int|
                0 < i < ledger.operations.len() ==> {
                    let kept = #[trigger] after.operations[i];
                    &&& kept.id == ledger.operations[i].id
                    &&& kept.kind == ledger.operations[i].kind
                    &&& kept.origin == ledger.operations[i].origin
                    &&& kept.response_state == ledger.operations[i].response_state
                    &&& kept.discarded <==> ledger.operations[i].discarded || (kept.kind
                        == OperationKind::Sync && head.response_state
                        == backend::RuntimeState::ExtendedCopyIn)
                }
            &&& message is CopyInResponse ==> after.request == RequestState::CopyIn
                && after.response == Some(PipelineState::CopyIn)
            &&& message is CopyOutResponse ==> after.request == ledger.request && after.response
                == Some(PipelineState::CopyOut)
            &&& message is CopyBothResponse ==> after.request == RequestState::CopyBoth
                && after.response == Some(PipelineState::CopyBoth)
            &&& message is DataRow || message is RowDescription || message is ParameterDescription
                || message is FunctionCallResponse || message is EmptyQueryResponse
                ==> after.request == ledger.request && after.response is None
            &&& message is CommandComplete || message is ErrorResponse ==> after.request
                == ledger.request && after.response is None
        }),
{
    let rest = ledger.operations.skip(1);
    let after = ledger.answered(message);
    assert forall|i: int| 0 < i < ledger.operations.len() implies ({
        let kept = #[trigger] after.operations[i];
        &&& kept.id == ledger.operations[i].id
        &&& kept.kind == ledger.operations[i].kind
        &&& kept.origin == ledger.operations[i].origin
        &&& kept.response_state == ledger.operations[i].response_state
        &&& kept.discarded <==> ledger.operations[i].discarded || (kept.kind == OperationKind::Sync
            && after.operations[0].response_state == backend::RuntimeState::ExtendedCopyIn)
    }) by {
        assert(rest[i - 1] == ledger.operations[i]);
    }
}

/// The public state shows a copy that the responses announced, and otherwise the
/// projection of the requests.
pub proof fn law_public_state(ledger: Ledger)
    ensures
        ledger.response matches Some(state) ==> ledger.state() == state,
        ledger.response is None ==> {
            &&& (ledger.state() == PipelineState::Ready <==> ledger.request == RequestState::Ready)
            &&& (ledger.state() == PipelineState::Extended <==> ledger.request is Extended)
            &&& (ledger.state() == PipelineState::ExtendedError <==> ledger.request is ExtendedError)
            &&& (ledger.state() == PipelineState::CopyIn <==> ledger.request
                == RequestState::CopyIn)
            &&& (ledger.state() == PipelineState::CopyBoth <==> ledger.request
                == RequestState::CopyBoth)
            &&& (ledger.state() == PipelineState::Terminated <==> ledger.request
                == RequestState::Terminated)
        },
{
}

/// A rejection that has to wait stops what is accepted after it: the open cycle counts
/// as failed here from then on, and nothing else changes.
pub proof fn law_waiting_rejections_are_registered(
    ledger: Ledger,
    at: int,
    message: BackendView,
)
    requires
        0 <= at < ledger.operations.len(),
        ledger.request is Extended,
        message is ErrorResponse,
        ledger.operations[at].origin == Origin::Local,
        !ledger.operations[at].discarded,
        ledger.operations[at].kind == OperationKind::Parse || ledger.operations[at].kind
            == OperationKind::Bind || ledger.operations[at].kind == OperationKind::Describe
            || ledger.operations[at].kind == OperationKind::Execute
            || ledger.operations[at].kind == OperationKind::Close,
        fits(ledger.operations[at], message),
        forall|i: int| at < i < ledger.operations.len() ==> !live_sync(
            #[trigger] ledger.operations[i],
        ),
    ensures
        ledger.registered(ledger.operations[at].id, message) == (Ledger {
            request: RequestState::ExtendedError { local: true },
            ..ledger
        }),
{
    assert(ledger.rejects(at, message));
}

/// Nothing but a rejection is registered.
pub proof fn law_only_rejections_are_registered(
    ledger: Ledger,
    id: OperationId,
    message: BackendView,
)
    requires
        !(message is ErrorResponse) || !(ledger.request is Extended),
    ensures
        ledger.registered(id, message) == ledger,
{
}

/// A cycle is open while an extended request awaits its response with no answered
/// `Sync` behind it.
pub proof fn law_open_cycle(operations: Seq<Operation>)
    ensures
        open_cycle(operations) <==> exists|at: int|
            0 <= at < operations.len() && begun(#[trigger] operations[at]) && forall|i: int|
                at < i < operations.len() ==> !live_sync(#[trigger] operations[i]),
    decreases operations.len(),
{
    if operations.len() > 0 {
        let front = operations.drop_last();
        let last = operations.len() - 1;
        law_open_cycle(front);
        if begun(operations[last]) {
        } else if live_sync(operations[last]) {
            assert forall|at: int| 0 <= at < operations.len() && begun(#[trigger] operations[at]) implies exists|
                i: int,
            |
                at < i < operations.len() && live_sync(#[trigger] operations[i]) by {
                assert(live_sync(operations[last]));
            }
        } else {
            if open_cycle(front) {
                let at = choose|at: int|
                    0 <= at < front.len() && begun(#[trigger] front[at]) && forall|i: int|
                        at < i < front.len() ==> !live_sync(#[trigger] front[i]);
                assert(begun(operations[at]));
                assert forall|i: int| at < i < operations.len() implies !live_sync(
                    #[trigger] operations[i],
                ) by {
                    if i < last {
                        assert(!live_sync(front[i]));
                    }
                }
            }
            if exists|at: int|
                0 <= at < operations.len() && begun(#[trigger] operations[at]) && forall|i: int|
                    at < i < operations.len() ==> !live_sync(#[trigger] operations[i]) {
                let at = choose|at: int|
                    0 <= at < operations.len() && begun(#[trigger] operations[at]) && forall|i: int|
                        at < i < operations.len() ==> !live_sync(#[trigger] operations[i]);
                assert(begun(front[at]));
                assert forall|i: int| at < i < front.len() implies !live_sync(
                    #[trigger] front[i],
                ) by {
                    assert(!live_sync(operations[i]));
                }
            }
        }
    }
}

/// An extended request other than `Sync` that awaits its response.
pub open spec fn begun(operation: Operation) -> bool {
    !operation.discarded && (operation.kind == OperationKind::Parse || operation.kind
        == OperationKind::Bind || operation.kind == OperationKind::Describe || operation.kind
        == OperationKind::Execute || operation.kind == OperationKind::Close)
}

/// The kind of an operation is that of its request, in every projection.
pub proof fn law_request_kinds(state: RequestState, message: FrontendView)
    ensures
        crate::pipeline::classified(state, message) matches Some((kind, _)) ==> requested(
            message,
            kind,
        ),
{
}

/// What a caller is told of a request: it is taken if and only if nothing refuses it,
/// waits if and only if something is outstanding, and is handed back to be forwarded
/// with its identity, or discarded where it is not to be sent.
pub proof fn law_taken_requests(
    before: Ledger,
    message: FrontendMessage,
    handling: FrontendHandling,
    result: Result<FrontendAdmission, FrontendProjectionError>,
    after: Ledger,
)
    requires
        accepts(before, message, handling, result, after),
    ensures
        result is Ok <==> before.refusal(message@) is None,
        result is Ok ==> after == before.admitted(message@, handling),
        result matches Ok(admission) ==> {
            &&& admission is Waiting <==> before.operations.len() > 0
            &&& before.forwards(message@, handling) ==> admission.action() == (
            FrontendAction::Forward { id: OperationId::numbered(before.next_id), message })
            &&& !before.forwards(message@, handling) ==> admission.action() == (
            FrontendAction::Discard { id: OperationId::numbered(before.next_id) })
        },
        result matches Err(FrontendProjectionError::Capacity(_)) <==> before.refusal(message@)
            == Some(FrontendRefusal::Capacity),
{
}

/// What a caller is told of a response: to emit it if it is asynchronous or next in
/// turn, to keep it if it is not yet its turn, and that it is illegal otherwise.
pub proof fn law_offered_responses(
    before: Ledger,
    local: Option<OperationId>,
    message: BackendMessage,
    result: Result<BackendAction, BackendProjectionError>,
    after: Ledger,
)
    requires
        responds(before, local, message, result, after),
    ensures
        result == Ok::<_, BackendProjectionError>(BackendAction::Emit(message)) <==> asynchronous(
            message@,
        ) || before.prepared(local, message@) is Emit,
        result == Ok::<_, BackendProjectionError>(BackendAction::Deferred(message))
            <==> before.prepared(local, message@) == PreparedResponse::Deferred,
        result is Err <==> before.prepared(local, message@) == PreparedResponse::Illegal,
        result matches Err(error) ==> error.message == message && error.state == before.state()
            && after == before,
        before.prepared(local, message@) is Emit ==> after == before.answered(message@),
        asynchronous(message@) ==> after == before,
{
}

/// A replacement of responses is taken if and only if it has as many, both can be
/// emitted in order, the new ones can be framed, and both leave the same outstanding.
pub proof fn law_replaced_responses(
    ledger: Ledger,
    sources: Seq<BackendView>,
    replacements: Seq<BackendView>,
    result: Result<Ledger, BackendSequenceError>,
)
    requires
        replaces(ledger, sources, replacements, result),
    ensures
        result is Ok ==> sources.len() == replacements.len() && ledger.answered_all(sources)
            == ledger.answered_all(replacements),
        result matches Ok(after) ==> after == ledger.answered_all(sources),
        sources.len() != replacements.len() <==> result matches Err(
            BackendSequenceError::Cardinality { .. },
        ),
        result matches Err(BackendSequenceError::Source(at)) ==> at < sources.len()
            && !ledger.answered_all(sources.take(at as int)).emits(sources[at as int]),
        result matches Err(BackendSequenceError::Replacement(at)) ==> at < replacements.len() && (
        !ledger.answered_all(replacements.take(at as int)).emits(replacements[at as int])
            || crate::codec::backend::backend_frame(replacements[at as int]) is Err),
        result matches Err(BackendSequenceError::DifferentSpan) ==> ledger.answered_all(sources)
            != ledger.answered_all(replacements),
{
}

/// Replacing responses by themselves is always possible where they can be emitted and
/// framed.
pub proof fn law_same_responses_replace_themselves(
    ledger: Ledger,
    sources: Seq<BackendView>,
    result: Result<Ledger, BackendSequenceError>,
)
    requires
        replaces(ledger, sources, sources, result),
        ledger.emits_first(sources, sources.len() as int),
        crate::pipeline::all_reconstructable(sources, sources.len() as int),
    ensures
        result == Ok::<_, BackendSequenceError>(ledger.answered_all(sources)),
{
    match result {
        Err(BackendSequenceError::Source(at)) => {
            assert(ledger.answered_all(sources.take(at as int)).emits(sources[at as int]));
        },
        Err(BackendSequenceError::Replacement(at)) => {
            assert(ledger.answered_all(sources.take(at as int)).emits(sources[at as int]));
            assert(crate::codec::backend::backend_frame(sources[at as int]) is Ok);
        },
        _ => {},
    }
}

/// Which responses can be emitted, and what they do, one after the other.
pub proof fn law_responses_in_sequence(
    ledger: Ledger,
    messages: Seq<BackendView>,
    message: BackendView,
)
    ensures
        ledger.answered_all(Seq::empty()) == ledger,
        ledger.answered_all(messages.push(message)) == ledger.answered_all(messages).offered(
            None,
            message,
        ),
        ledger.emits(message) <==> asynchronous(message) || ledger.prepared(None, message) is Emit,
{
    reveal(Ledger::stepped);
    reveal(Ledger::emits);
    assert(messages.push(message).drop_last() =~= messages);
}

/// What an interceptor makes of a request is offered in its place: its error is passed
/// on, and a message that cannot be framed is illegal; neither changes anything.
pub proof fn law_intercepted_requests<E>(
    before: Ledger,
    outcome: Result<FrontendMessage, E>,
    handling: FrontendHandling,
    result: Result<
        FrontendAdmission,
        crate::pipeline::PipelineMiddlewareError<E, FrontendProjectionError>,
    >,
    after: Ledger,
)
    requires
        crate::pipeline::accepts_replacement(before, outcome, handling, result, after),
    ensures
        result is Ok <==> (outcome matches Ok(replaced) && crate::codec::frontend::frontend_frame(
            replaced@,
        ) is Ok && before.refusal(replaced@) is None),
        result is Ok ==> after == before.admitted(outcome->Ok_0@, handling),
        result is Err ==> after == before,
        outcome matches Err(error) ==> result == Err::<FrontendAdmission, _>(
            crate::pipeline::PipelineMiddlewareError::<E, FrontendProjectionError>::Middleware(
                error,
            ),
        ),
{
}

/// What an interceptor makes of a response takes its place only if the ledger deals with
/// it alike and it can be framed; otherwise nothing changes.
pub proof fn law_intercepted_responses<E>(
    before: Ledger,
    local: Option<OperationId>,
    prepared: PreparedResponse,
    outcome: Result<BackendMessage, E>,
    result: Result<
        BackendAction,
        crate::pipeline::PipelineMiddlewareError<E, BackendProjectionError>,
    >,
    after: Ledger,
)
    requires
        crate::pipeline::responds_replacement(before, local, prepared, outcome, result, after),
    ensures
        result is Ok <==> (outcome matches Ok(replaced) && before.prepared(local, replaced@)
            == prepared && crate::codec::backend::backend_frame(replaced@) is Ok),
        result is Ok ==> after == before.offered(local, outcome->Ok_0@) && result->Ok_0
            == BackendAction::Emit(outcome->Ok_0),
        result is Err ==> after == before,
{
}

/// A ledger is full once it has as many operations as it may, unless copy data flows in.
pub proof fn law_full_ledgers(ledger: Ledger)
    ensures
        ledger.full() <==> ledger.operations.len() == ledger.limit && ledger.state()
            != PipelineState::CopyIn && ledger.state() != PipelineState::CopyBoth,
{
}

/// Whatever is registered was a rejection: an error that a waiting operation handled
/// here may be answered with, in an open cycle that no answered `Sync` behind it ends.
pub proof fn law_registered_rejections(ledger: Ledger, id: OperationId, message: BackendView)
    requires
        ledger.registered(id, message) != ledger,
    ensures
        ledger.request is Extended,
        message is ErrorResponse,
        exists|at: int|
            0 <= at < ledger.operations.len() && (#[trigger] ledger.operations[at]).id == id
                && ledger.operations[at].origin == Origin::Local && !ledger.operations[at].discarded
                && fits(ledger.operations[at], message) && forall|i: int|
                at < i < ledger.operations.len() ==> !live_sync(#[trigger] ledger.operations[i]),
{
    let at = choose|at: int|
        0 <= at < ledger.operations.len() && (#[trigger] ledger.operations[at]).id == id
            && ledger.rejects(at, message);
    assert(ledger.rejects(at, message));
}

/// A pipeline takes every request that the backend grammar takes in the projected phase
/// while there is room, tells the phase it is in, and refuses the rest.
pub proof fn law_pipelines_take_legal_requests<P: PipelinePolicy>(
    pipeline: &Pipeline<P>,
    message: &FrontendMessage,
    result: Result<FrontendPhase, FrontendRefusal>,
)
    requires
        call_ensures(Pipeline::<P>::prepare_frontend, (pipeline, message), result),
        pipeline@.operations.len() != pipeline@.limit || pipeline@.request.copying(),
    ensures
        result is Ok <==> backend::external_event(pipeline@.request.phase(), message@) is Some && !(
        pipeline@.request == RequestState::CopyBoth && message@ is CopyFail) && !(
        message@ is PasswordResponse),
        result matches Err(refusal) ==> refusal == FrontendRefusal::Illegal,
{
    law_legal_requests_are_admitted(pipeline@, message@);
}

/// A request that a pipeline accepts outside a copy and that asks for a response is
/// recorded last, under the next identity and with its own kind. One that it refuses is
/// handed back and changes nothing.
pub proof fn law_pipelines_record_requests<P: PipelinePolicy>(
    pipeline: &mut Pipeline<P>,
    message: FrontendMessage,
    handling: FrontendHandling,
    result: Result<FrontendAdmission, FrontendProjectionError>,
)
    requires
        pipeline@.sound(),
        call_ensures(Pipeline::<P>::accept_frontend, (pipeline, message, handling), result),
    ensures
        result is Ok <==> old(pipeline)@.refusal(message@) is None,
        result is Err ==> final(pipeline)@ == old(pipeline)@,
        result matches Err(FrontendProjectionError::Capacity(given)) ==> *given == message,
        result matches Err(FrontendProjectionError::Illegal { message: given, .. }) ==> *given
            == message,
        result is Ok && (old(pipeline)@.request == RequestState::Ready || old(
            pipeline,
        )@.request is Extended || message@ is Sync) && !(message@ is Flush || message@ is Terminate)
            ==> {
            let last = final(pipeline)@.operations.last();
            &&& final(pipeline)@.operations.len() == old(pipeline)@.operations.len() + 1
            &&& last.id == OperationId::numbered(old(pipeline)@.next_id)
            &&& requested(message@, last.kind)
            &&& last.origin == (if handling == FrontendHandling::Forward {
                Origin::Forwarded
            } else {
                Origin::Local
            })
        },
{
    let before = pipeline@;
    if before.refusal(message@) is None && (before.request == RequestState::Ready
        || before.request is Extended || message@ is Sync) && !(message@ is Flush
        || message@ is Terminate) {
        law_requests_are_recorded(before, message@, handling);
    }
}

/// A pipeline emits a response unchanged, keeps none that is not due yet, and refuses one
/// that nothing awaits without a change.
pub proof fn law_pipelines_answer_in_order<P: PipelinePolicy>(
    pipeline: &mut Pipeline<P>,
    message: BackendMessage,
    result: Result<BackendAction, BackendProjectionError>,
)
    requires
        call_ensures(Pipeline::<P>::accept_backend, (pipeline, message), result),
    ensures
        result matches Ok(BackendAction::Emit(given)) ==> given == message,
        result matches Ok(BackendAction::Deferred(given)) ==> given == message,
        result matches Err(error) ==> error.message == message,
        result is Err <==> old(pipeline)@.prepared(None, message@) is Illegal,
        asynchronous(message@) ==> (result matches Ok(BackendAction::Emit(_))) && final(pipeline)@
            == old(pipeline)@,
        old(pipeline)@.operations.len() == 0 && !asynchronous(message@) ==> result is Err,
        result is Err ==> final(pipeline)@ == old(pipeline)@,
{
}

} // verus!
