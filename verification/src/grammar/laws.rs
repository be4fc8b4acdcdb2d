//! What holds of the grammars as wholes and of one against another.

use vstd::prelude::*;

use super::{
    authentication, backend, frontend, pre_startup, server_authentication, server_pre_startup,
    ChoiceKind, Effect,
};
use crate::codec::backend::{AuthenticationView, BackendView, TransactionStatus};
use crate::codec::frontend::FrontendView;
use crate::codec::{BackendMessage, FrontendMessage};
use crate::pre_startup::{EncryptionReply, PreStartupMessage, PreStartupView};

verus! {

/// In the grammar of the frontend before startup, every event that a message stands for is
/// allowed where it was projected, and chosen by the side that sent the message.
pub proof fn law_pre_startup_projection_is_allowed(
    state: pre_startup::RuntimeState,
    sent: PreStartupView,
    received: EncryptionReply,
)
    ensures
        pre_startup::internal_event(state, sent) matches Some(event) ==> (pre_startup::allowed(
            state,
            event,
        ) matches Some(transition) && transition.choice == ChoiceKind::Internal),
        pre_startup::external_event(state, received) matches Some(event) ==> (pre_startup::allowed(
            state,
            event,
        ) matches Some(transition) && transition.choice == ChoiceKind::External),
{
}

/// In the grammar of the frontend before startup, a phase whose next event one side chooses allows only
/// events of that side.
pub proof fn law_pre_startup_choices_agree(state: pre_startup::RuntimeState, event: pre_startup::Event)
    ensures
        pre_startup::allowed(state, event) matches Some(transition) ==> pre_startup::chooser(state)
            == transition.choice || pre_startup::chooser(state) == ChoiceKind::Mixed,
        pre_startup::allowed(pre_startup::RuntimeState::Terminated, event) is None,
{
}

/// In the grammar of the server before startup, every event that a message stands for is
/// allowed where it was projected, and chosen by the side that sent the message.
pub proof fn law_server_pre_startup_projection_is_allowed(
    state: server_pre_startup::RuntimeState,
    sent: EncryptionReply,
    received: PreStartupView,
)
    ensures
        server_pre_startup::internal_event(state, sent) matches Some(event) ==> (server_pre_startup::allowed(
            state,
            event,
        ) matches Some(transition) && transition.choice == ChoiceKind::Internal),
        server_pre_startup::external_event(state, received) matches Some(event) ==> (server_pre_startup::allowed(
            state,
            event,
        ) matches Some(transition) && transition.choice == ChoiceKind::External),
{
}

/// In the grammar of the server before startup, a phase whose next event one side chooses allows only
/// events of that side.
pub proof fn law_server_pre_startup_choices_agree(state: server_pre_startup::RuntimeState, event: server_pre_startup::Event)
    ensures
        server_pre_startup::allowed(state, event) matches Some(transition) ==> server_pre_startup::chooser(state)
            == transition.choice || server_pre_startup::chooser(state) == ChoiceKind::Mixed,
        server_pre_startup::allowed(server_pre_startup::RuntimeState::Terminated, event) is None,
{
}

/// In the grammar of the frontend during authentication, every event that a message stands for is
/// allowed where it was projected, and chosen by the side that sent the message.
pub proof fn law_authentication_projection_is_allowed(
    state: authentication::RuntimeState,
    sent: FrontendView,
    received: BackendView,
)
    ensures
        authentication::internal_event(state, sent) matches Some(event) ==> (authentication::allowed(
            state,
            event,
        ) matches Some(transition) && transition.choice == ChoiceKind::Internal),
        authentication::external_event(state, received) matches Some(event) ==> (authentication::allowed(
            state,
            event,
        ) matches Some(transition) && transition.choice == ChoiceKind::External),
{
}

/// In the grammar of the frontend during authentication, a phase whose next event one side chooses allows only
/// events of that side.
pub proof fn law_authentication_choices_agree(state: authentication::RuntimeState, event: authentication::Event)
    ensures
        authentication::allowed(state, event) matches Some(transition) ==> authentication::chooser(state)
            == transition.choice || authentication::chooser(state) == ChoiceKind::Mixed,
        authentication::allowed(authentication::RuntimeState::Terminated, event) is None,
{
}

/// In the grammar of the server during authentication, every event that a message stands for is
/// allowed where it was projected, and chosen by the side that sent the message.
pub proof fn law_server_authentication_projection_is_allowed(
    state: server_authentication::RuntimeState,
    sent: BackendView,
    received: FrontendView,
)
    ensures
        server_authentication::internal_event(state, sent) matches Some(event) ==> (server_authentication::allowed(
            state,
            event,
        ) matches Some(transition) && transition.choice == ChoiceKind::Internal),
        server_authentication::external_event(state, received) matches Some(event) ==> (server_authentication::allowed(
            state,
            event,
        ) matches Some(transition) && transition.choice == ChoiceKind::External),
{
}

/// In the grammar of the server during authentication, a phase whose next event one side chooses allows only
/// events of that side.
pub proof fn law_server_authentication_choices_agree(state: server_authentication::RuntimeState, event: server_authentication::Event)
    ensures
        server_authentication::allowed(state, event) matches Some(transition) ==> server_authentication::chooser(state)
            == transition.choice || server_authentication::chooser(state) == ChoiceKind::Mixed,
        server_authentication::allowed(server_authentication::RuntimeState::Terminated, event) is None,
{
}

/// In the grammar of an operational frontend, every event that a message stands for is
/// allowed where it was projected, and chosen by the side that sent the message.
pub proof fn law_frontend_projection_is_allowed(
    state: frontend::RuntimeState,
    sent: FrontendView,
    received: BackendView,
)
    ensures
        frontend::internal_event(state, sent) matches Some(event) ==> (frontend::allowed(
            state,
            event,
        ) matches Some(transition) && transition.choice == ChoiceKind::Internal),
        frontend::external_event(state, received) matches Some(event) ==> (frontend::allowed(
            state,
            event,
        ) matches Some(transition) && transition.choice == ChoiceKind::External),
{
}

/// In the grammar of an operational frontend, a phase whose next event one side chooses allows only
/// events of that side.
pub proof fn law_frontend_choices_agree(state: frontend::RuntimeState, event: frontend::Event)
    ensures
        frontend::allowed(state, event) matches Some(transition) ==> frontend::chooser(state)
            == transition.choice || frontend::chooser(state) == ChoiceKind::Mixed,
        frontend::allowed(frontend::RuntimeState::Terminated, event) is None,
{
}

/// In the grammar of an operational backend, every event that a message stands for is
/// allowed where it was projected, and chosen by the side that sent the message.
pub proof fn law_backend_projection_is_allowed(
    state: backend::RuntimeState,
    sent: BackendView,
    received: FrontendView,
)
    ensures
        backend::internal_event(state, sent) matches Some(event) ==> (backend::allowed(
            state,
            event,
        ) matches Some(transition) && transition.choice == ChoiceKind::Internal),
        backend::external_event(state, received) matches Some(event) ==> (backend::allowed(
            state,
            event,
        ) matches Some(transition) && transition.choice == ChoiceKind::External),
{
}

/// In the grammar of an operational backend, a phase whose next event one side chooses allows only
/// events of that side.
pub proof fn law_backend_choices_agree(state: backend::RuntimeState, event: backend::Event)
    ensures
        backend::allowed(state, event) matches Some(transition) ==> backend::chooser(state)
            == transition.choice || backend::chooser(state) == ChoiceKind::Mixed,
        backend::allowed(backend::RuntimeState::Terminated, event) is None,
{
}

/// The server's phase opposite to a phase of the frontend before startup.
pub open spec fn opposite_phase(state: pre_startup::RuntimeState) -> server_pre_startup::RuntimeState {
    match state {
        pre_startup::RuntimeState::PreStartup => server_pre_startup::RuntimeState::PreStartup,
        pre_startup::RuntimeState::AwaitingSslReply => server_pre_startup::RuntimeState::SslDecision,
        pre_startup::RuntimeState::AwaitingGssReply => server_pre_startup::RuntimeState::GssDecision,
        pre_startup::RuntimeState::TlsHandshake => server_pre_startup::RuntimeState::TlsHandshake,
        pre_startup::RuntimeState::GssHandshake => server_pre_startup::RuntimeState::GssHandshake,
        pre_startup::RuntimeState::Auth => server_pre_startup::RuntimeState::Auth,
        pre_startup::RuntimeState::Terminated => server_pre_startup::RuntimeState::Terminated,
    }
}

/// The same step seen from the server.
pub open spec fn opposite_event(event: pre_startup::Event) -> server_pre_startup::Event {
    match event {
        pre_startup::Event::SslRequest => server_pre_startup::Event::SslRequest,
        pre_startup::Event::GssRequest => server_pre_startup::Event::GssRequest,
        pre_startup::Event::Cancel => server_pre_startup::Event::Cancel,
        pre_startup::Event::Startup => server_pre_startup::Event::Startup,
        pre_startup::Event::Accept => server_pre_startup::Event::Accept,
        pre_startup::Event::Reject => server_pre_startup::Event::Reject,
        pre_startup::Event::LegacyError => server_pre_startup::Event::LegacyError,
        pre_startup::Event::HandshakeComplete => server_pre_startup::Event::HandshakeComplete,
    }
}

/// Before startup the server's grammar is the dual of the frontend's: it allows the
/// same steps, they lead to opposite phases, and what one side chooses the other
/// side is offered. Each side completes a handshake for itself.
pub proof fn law_pre_startup_grammars_are_dual(
    state: pre_startup::RuntimeState,
    event: pre_startup::Event,
)
    ensures
        match (
            pre_startup::allowed(state, event),
            server_pre_startup::allowed(opposite_phase(state), opposite_event(event)),
        ) {
            (Some(ours), Some(theirs)) => theirs.target == opposite_phase(ours.target)
                && theirs.effect == ours.effect && (event
                == pre_startup::Event::HandshakeComplete || theirs.choice
                == ours.choice.flipped()),
            (None, None) => true,
            _ => false,
        },
{
}

/// A message that the frontend may send before startup means the same step to the
/// server, and the server's reply means the same step to the frontend.
pub proof fn law_pre_startup_messages_are_dual(
    state: pre_startup::RuntimeState,
    request: PreStartupView,
    reply: EncryptionReply,
)
    ensures
        match (
            pre_startup::internal_event(state, request),
            server_pre_startup::external_event(opposite_phase(state), request),
        ) {
            (Some(sent), Some(received)) => received == opposite_event(sent),
            (None, None) => true,
            _ => false,
        },
        match (
            pre_startup::external_event(state, reply),
            server_pre_startup::internal_event(opposite_phase(state), reply),
        ) {
            (Some(received), Some(sent)) => sent == opposite_event(received),
            (None, None) => true,
            _ => false,
        },
{
}

/// Startup follows an accepted encryption request only after the handshake.
pub proof fn law_accepted_encryption_needs_a_handshake(event: pre_startup::Event)
    ensures
        pre_startup::allowed(pre_startup::RuntimeState::TlsHandshake, event) is Some <==> event
            == pre_startup::Event::HandshakeComplete,
        pre_startup::allowed(pre_startup::RuntimeState::GssHandshake, event) is Some <==> event
            == pre_startup::Event::HandshakeComplete,
        pre_startup::allowed(pre_startup::RuntimeState::AwaitingSslReply, event) matches Some(
            transition,
        ) ==> transition.target != pre_startup::RuntimeState::Auth,
{
}

/// A frontend becomes authenticated only when the server says so.
pub proof fn law_authentication_needs_acceptance(
    state: authentication::RuntimeState,
    event: authentication::Event,
)
    requires
        authentication::allowed(state, event) matches Some(transition) && transition.target
            == authentication::RuntimeState::AwaitingStartupReady,
    ensures
        event == authentication::Event::Accepted,
        authentication::allowed(state, event)->0.choice == ChoiceKind::External,
{
}

/// A SASL exchange of a frontend ends in success only after the verifier was
/// verified.
pub proof fn law_sasl_ends_by_verification(event: authentication::Event)
    ensures
        authentication::allowed(authentication::RuntimeState::Sasl, event) matches Some(transition)
            ==> transition.target != authentication::RuntimeState::AwaitingAuthOk
            && transition.target != authentication::RuntimeState::AwaitingStartupReady,
        authentication::allowed(authentication::RuntimeState::SaslFinal, event) is Some <==> event
            == authentication::Event::Verified,
{
}

/// The phases of a frontend in which COPY data flows.
pub open spec fn frontend_copying(state: frontend::RuntimeState) -> bool {
    match state {
        frontend::RuntimeState::CopyIn
        | frontend::RuntimeState::CopyOut
        | frontend::RuntimeState::CopyBoth
        | frontend::RuntimeState::CopyBothClientDone
        | frontend::RuntimeState::CopyBothServerDone => true,
        _ => false,
    }
}

/// The phases of a backend in which it waits for COPY data.
pub open spec fn backend_copying(state: backend::RuntimeState) -> bool {
    match state {
        backend::RuntimeState::SimpleCopyIn
        | backend::RuntimeState::SimpleCopyOut
        | backend::RuntimeState::SimpleCopyBoth
        | backend::RuntimeState::SimpleCopyBothClientDone
        | backend::RuntimeState::SimpleCopyBothServerDone
        | backend::RuntimeState::ExtendedCopyIn
        | backend::RuntimeState::ExtendedCopyOut
        | backend::RuntimeState::ExtendedCopyBoth
        | backend::RuntimeState::ExtendedCopyBothClientDone
        | backend::RuntimeState::ExtendedCopyBothServerDone => true,
        _ => false,
    }
}

/// No query and no extended message is legal while COPY data flows, on either side.
pub proof fn law_no_requests_during_copy(
    ours: frontend::RuntimeState,
    theirs: backend::RuntimeState,
    message: FrontendView,
)
    requires
        !(message is CopyData),
        !(message is CopyDone),
        !(message is CopyFail),
    ensures
        frontend_copying(ours) ==> frontend::internal_event(ours, message) is None,
        backend_copying(theirs) ==> backend::external_event(theirs, message) is None,
{
}

/// A COPY in both directions ends only after both sides have closed theirs.
pub proof fn law_copy_both_waits_for_both_sides(event: frontend::Event)
    ensures
        frontend::allowed(frontend::RuntimeState::CopyBoth, event) matches Some(transition)
            ==> transition.target != frontend::RuntimeState::AwaitingReady,
        frontend::allowed(frontend::RuntimeState::CopyBothClientDone, event) matches Some(transition)
            ==> (transition.target == frontend::RuntimeState::AwaitingReady <==> event
            == frontend::Event::ReceiveCopyDone),
        frontend::allowed(frontend::RuntimeState::CopyBothServerDone, event) matches Some(transition)
            ==> (transition.target == frontend::RuntimeState::AwaitingReady <==> event
            == frontend::Event::SendCopyDone),
{
}

/// A connection becomes pristine again only by a completed reset that the backend
/// confirms with clean readiness.
pub proof fn law_only_a_confirmed_reset_is_pristine(
    state: frontend::RuntimeState,
    event: frontend::Event,
)
    requires
        frontend::allowed(state, event) matches Some(transition) && transition.effect
            == Effect::Pristine,
    ensures
        state == frontend::RuntimeState::ResetComplete,
        event == frontend::Event::ReadyClean,
{
}

/// The reset is complete only once discarding is.
pub proof fn law_reset_needs_discard(state: frontend::RuntimeState, event: frontend::Event)
    requires
        frontend::allowed(state, event) matches Some(transition) && transition.target
            == frontend::RuntimeState::ResetComplete,
        state != frontend::RuntimeState::ResetComplete,
    ensures
        state == frontend::RuntimeState::Resetting,
        event == frontend::Event::DiscardComplete,
{
}

/// After an extended error the backend takes every request and discards it, until a
/// synchronization, which alone is answered.
pub proof fn law_extended_error_discards_until_sync(message: FrontendView)
    ensures
        backend::external_event(backend::RuntimeState::ExtendedError, message) matches Some(event)
            ==> (backend::allowed(backend::RuntimeState::ExtendedError, event) matches Some(
            transition,
        ) && transition.target == if message is Sync {
            backend::RuntimeState::SyncResponse
        } else {
            backend::RuntimeState::ExtendedError
        }),
        message is Parse || message is Bind || message is Describe || message is Execute
            || message is Close || message is Flush || message is Sync || message is Query
            || message is FunctionCall || message is CopyData || message is CopyDone
            || message is CopyFail ==> backend::external_event(
            backend::RuntimeState::ExtendedError,
            message,
        ) is Some,
{
}

/// A COPY resumes the cycle that it interrupted: an extended one goes on building or
/// fails, a simple one awaits readiness.
pub proof fn law_copy_resumes_its_cycle(event: backend::Event)
    ensures
        backend::allowed(backend::RuntimeState::ExtendedCopyInDone, event) matches Some(transition)
            ==> transition.target == backend::RuntimeState::Building || transition.target
            == backend::RuntimeState::ExtendedError,
        backend::allowed(backend::RuntimeState::ExtendedCopyOutDone, event) matches Some(transition)
            ==> transition.target == backend::RuntimeState::Building,
        backend::allowed(backend::RuntimeState::ExtendedCopyBothDone, event) matches Some(
            transition,
        ) ==> transition.target == backend::RuntimeState::Building,
        backend::allowed(backend::RuntimeState::SimpleCopyInDone, event) matches Some(transition)
            ==> transition.target == backend::RuntimeState::SimpleCopyReady,
        backend::allowed(backend::RuntimeState::SimpleCopyOutDone, event) matches Some(transition)
            ==> transition.target == backend::RuntimeState::SimpleCopyReady,
        backend::allowed(backend::RuntimeState::SimpleCopyBothDone, event) matches Some(transition)
            ==> transition.target == backend::RuntimeState::SimpleCopyReady,
{
}

/// The frontend's phase after it sends a message, where it may.
pub open spec fn frontend_sent(state: frontend::RuntimeState, message: FrontendView) -> Option<
    frontend::RuntimeState,
> {
    match frontend::internal_event(state, message) {
        None => None,
        Some(event) => match frontend::allowed(state, event) {
            None => None,
            Some(transition) => Some(transition.target),
        },
    }
}

/// The frontend's phase after it receives a message, where it may.
pub open spec fn frontend_received(state: frontend::RuntimeState, message: BackendView) -> Option<
    frontend::RuntimeState,
> {
    match frontend::external_event(state, message) {
        None => None,
        Some(event) => match frontend::allowed(state, event) {
            None => None,
            Some(transition) => Some(transition.target),
        },
    }
}

/// The backend's phase after it sends a message, where it may.
pub open spec fn backend_sent(state: backend::RuntimeState, message: BackendView) -> Option<
    backend::RuntimeState,
> {
    match backend::internal_event(state, message) {
        None => None,
        Some(event) => match backend::allowed(state, event) {
            None => None,
            Some(transition) => Some(transition.target),
        },
    }
}

/// The backend's phase after it receives a message, where it may.
pub open spec fn backend_received(state: backend::RuntimeState, message: FrontendView) -> Option<
    backend::RuntimeState,
> {
    match backend::external_event(state, message) {
        None => None,
        Some(event) => match backend::allowed(state, event) {
            None => None,
            Some(transition) => Some(transition.target),
        },
    }
}

/// The phases that the two sides can be in together, outside an extended cycle.
pub open spec fn opposite_sides(ours: frontend::RuntimeState, theirs: backend::RuntimeState) -> bool {
    match theirs {
        backend::RuntimeState::Ready => ours == frontend::RuntimeState::Ready,
        backend::RuntimeState::Simple => ours == frontend::RuntimeState::Simple,
        backend::RuntimeState::SimpleError => ours == frontend::RuntimeState::Draining,
        backend::RuntimeState::FunctionResponse => ours == frontend::RuntimeState::FunctionCalling,
        backend::RuntimeState::FunctionReady | backend::RuntimeState::SimpleCopyReady => ours
            == frontend::RuntimeState::AwaitingReady || ours == frontend::RuntimeState::Draining,
        backend::RuntimeState::SimpleCopyIn => ours == frontend::RuntimeState::CopyIn,
        backend::RuntimeState::SimpleCopyOut => ours == frontend::RuntimeState::CopyOut,
        backend::RuntimeState::SimpleCopyBoth => ours == frontend::RuntimeState::CopyBoth,
        backend::RuntimeState::SimpleCopyBothClientDone => ours
            == frontend::RuntimeState::CopyBothClientDone,
        backend::RuntimeState::SimpleCopyBothServerDone => ours
            == frontend::RuntimeState::CopyBothServerDone,
        backend::RuntimeState::SimpleCopyInDone
        | backend::RuntimeState::SimpleCopyInFailed
        | backend::RuntimeState::SimpleCopyOutDone
        | backend::RuntimeState::SimpleCopyBothDone => ours
            == frontend::RuntimeState::AwaitingReady,
        backend::RuntimeState::Terminated => ours == frontend::RuntimeState::Terminated,
        _ => false,
    }
}

/// Outside an extended cycle the two sides follow each other: what one may send the
/// other takes, and they are in phases that belong together again.
pub proof fn law_simple_exchange_stays_in_step(
    ours: frontend::RuntimeState,
    theirs: backend::RuntimeState,
    request: FrontendView,
    response: BackendView,
)
    requires
        opposite_sides(ours, theirs),
    ensures
        frontend_sent(ours, request) matches Some(after) ==> (backend_received(theirs, request)
            matches Some(opposite) && opposite_sides(after, opposite)),
        backend_sent(theirs, response) matches Some(opposite) ==> (frontend_received(
            ours,
            response,
        ) matches Some(after) && opposite_sides(after, opposite)),
{
}

/// What the backend takes outside an extended cycle the frontend may send: all but a
/// failed copy in both directions, which the frontend does not send.
pub proof fn law_simple_requests_are_offered(
    ours: frontend::RuntimeState,
    theirs: backend::RuntimeState,
    request: FrontendView,
)
    requires
        opposite_sides(ours, theirs),
        !(request is Parse || request is Bind || request is Describe || request is Execute
            || request is Close),
        !(request is CopyFail && (theirs == backend::RuntimeState::SimpleCopyBoth || theirs
            == backend::RuntimeState::SimpleCopyBothServerDone)),
    ensures
        backend_received(theirs, request) is Some ==> frontend_sent(ours, request) is Some,
{
}

/// The kinds of responses that a simple query leads to, and what each does: rows and
/// results go on, a copy starts, an error or readiness ends it.
pub proof fn law_simple_query_responses(response: BackendView)
    ensures
        ({
            let after = frontend_received(frontend::RuntimeState::Simple, response);
            &&& after == Some(frontend::RuntimeState::Simple) <==> response is RowDescription
                || response is DataRow || response is CommandComplete
                || response is EmptyQueryResponse
            &&& after == Some(frontend::RuntimeState::CopyIn) <==> response is CopyInResponse
            &&& after == Some(frontend::RuntimeState::CopyOut) <==> response is CopyOutResponse
            &&& after == Some(frontend::RuntimeState::CopyBoth) <==> response is CopyBothResponse
            &&& after == Some(frontend::RuntimeState::Ready) <==> response is ReadyForQuery
            &&& after == Some(frontend::RuntimeState::Draining) <==> response is ErrorResponse
        }),
{
}

/// The requests that a ready frontend and a ready backend agree on, and the phase that
/// each leads to.
pub proof fn law_ready_requests(request: FrontendView)
    ensures
        frontend_sent(frontend::RuntimeState::Ready, request) == Some(
            frontend::RuntimeState::Simple,
        ) <==> request is Query,
        frontend_sent(frontend::RuntimeState::Ready, request) == Some(
            frontend::RuntimeState::FunctionCalling,
        ) <==> request is FunctionCall,
        frontend_sent(frontend::RuntimeState::Ready, request) == Some(
            frontend::RuntimeState::Terminated,
        ) <==> request is Terminate,
        backend_received(backend::RuntimeState::Ready, request) == Some(
            backend::RuntimeState::Simple,
        ) <==> request is Query,
        backend_received(backend::RuntimeState::Ready, request) == Some(
            backend::RuntimeState::FunctionResponse,
        ) <==> request is FunctionCall,
        backend_received(backend::RuntimeState::Ready, request) == Some(
            backend::RuntimeState::Terminated,
        ) <==> request is Terminate,
        forall|phase: backend::RuntimeState|
            phase == backend::RuntimeState::Ready || phase == backend::RuntimeState::Building ==> {
                let after = #[trigger] backend_received(phase, request);
                &&& after == Some(backend::RuntimeState::ParseResponse) <==> request is Parse
                &&& after == Some(backend::RuntimeState::BindResponse) <==> request is Bind
                &&& after == Some(backend::RuntimeState::DescribeResponse) <==> request is Describe
                &&& after == Some(backend::RuntimeState::ExecuteResponse) <==> request is Execute
                &&& after == Some(backend::RuntimeState::CloseResponse) <==> request is Close
            },
        backend_received(backend::RuntimeState::Building, request) == Some(
            backend::RuntimeState::SyncResponse,
        ) <==> request is Sync,
        backend_received(backend::RuntimeState::Building, request) == Some(
            backend::RuntimeState::Building,
        ) <==> request is Flush,
{
}

/// While it builds a cycle the frontend sends what a building backend takes, execution
/// only once something is bound, and `Sync` alone ends the building.
pub proof fn law_extended_requests_are_taken(request: FrontendView)
    ensures
        frontend_sent(frontend::RuntimeState::BoundBuilding, request) is Some <==> backend_received(
            backend::RuntimeState::Building,
            request,
        ) is Some,
        frontend_sent(frontend::RuntimeState::Building, request) is Some <==> backend_received(
            backend::RuntimeState::Building,
            request,
        ) is Some && !(request is Execute),
        forall|phase: frontend::RuntimeState|
            phase == frontend::RuntimeState::Building || phase
                == frontend::RuntimeState::BoundBuilding ==> {
                let after = #[trigger] frontend_sent(phase, request);
                &&& after == Some(frontend::RuntimeState::AwaitingReady) <==> request is Sync
                &&& request is Bind ==> after == Some(frontend::RuntimeState::BoundBuilding)
                &&& request is Parse || request is Describe || request is Close || request is Flush
                    ==> after == Some(phase)
            },
        request is Execute ==> frontend_sent(frontend::RuntimeState::BoundBuilding, request) == Some(
            frontend::RuntimeState::BoundBuilding,
        ),
{
}

/// The phases in which a backend answers one extended request.
pub open spec fn answering(state: backend::RuntimeState) -> bool {
    match state {
        backend::RuntimeState::ParseResponse
        | backend::RuntimeState::BindResponse
        | backend::RuntimeState::DescribeResponse
        | backend::RuntimeState::ExecuteResponse
        | backend::RuntimeState::CloseResponse
        | backend::RuntimeState::SyncResponse => true,
        _ => false,
    }
}

/// A frontend that awaits readiness takes every response to an extended cycle but the
/// start of a copy; readiness ends the wait and an error starts draining.
pub proof fn law_extended_responses_are_expected(
    theirs: backend::RuntimeState,
    response: BackendView,
)
    requires
        answering(theirs),
        backend_sent(theirs, response) is Some,
    ensures
        ({
            let after = frontend_received(frontend::RuntimeState::AwaitingReady, response);
            &&& after is None <==> response is CopyInResponse || response is CopyOutResponse
                || response is CopyBothResponse
            &&& after == Some(frontend::RuntimeState::Ready) <==> response is ReadyForQuery
            &&& after == Some(frontend::RuntimeState::Draining) <==> response is ErrorResponse
            &&& after == Some(frontend::RuntimeState::AwaitingReady) || after
                == Some(frontend::RuntimeState::Ready) || after
                == Some(frontend::RuntimeState::Draining) || after is None
        }),
{
}

/// What a frontend takes while it awaits readiness some answering phase may send.
pub proof fn law_expected_responses_have_a_source(response: BackendView)
    requires
        frontend_received(frontend::RuntimeState::AwaitingReady, response) is Some,
    ensures
        exists|theirs: backend::RuntimeState|
            answering(theirs) && (#[trigger] backend_sent(theirs, response)) is Some,
{
    assert(answering(backend::RuntimeState::ParseResponse));
    assert(backend_sent(backend::RuntimeState::ParseResponse, response) is Some || backend_sent(
        backend::RuntimeState::BindResponse,
        response,
    ) is Some || backend_sent(backend::RuntimeState::DescribeResponse, response) is Some
        || backend_sent(backend::RuntimeState::ExecuteResponse, response) is Some || backend_sent(
        backend::RuntimeState::CloseResponse,
        response,
    ) is Some || backend_sent(backend::RuntimeState::SyncResponse, response) is Some);
}

/// How each extended request is answered: by its completion, by an error that fails the
/// cycle, and by what may come before either.
pub proof fn law_extended_answers(response: BackendView)
    ensures
        forall|theirs: backend::RuntimeState|
            answering(theirs) && theirs != backend::RuntimeState::SyncResponse ==> (
            (#[trigger] backend_sent(theirs, response)) == Some(
                backend::RuntimeState::ExtendedError,
            ) <==> response is ErrorResponse),
        backend_sent(backend::RuntimeState::SyncResponse, response) is Some
            <==> response is ReadyForQuery,
        backend_sent(backend::RuntimeState::SyncResponse, response) is Some ==> backend_sent(
            backend::RuntimeState::SyncResponse,
            response,
        ) == Some(backend::RuntimeState::Ready),
        backend_sent(backend::RuntimeState::ParseResponse, response) == Some(
            backend::RuntimeState::Building,
        ) <==> response is ParseComplete,
        backend_sent(backend::RuntimeState::BindResponse, response) == Some(
            backend::RuntimeState::Building,
        ) <==> response is BindComplete,
        backend_sent(backend::RuntimeState::CloseResponse, response) == Some(
            backend::RuntimeState::Building,
        ) <==> response is CloseComplete,
        backend_sent(backend::RuntimeState::DescribeResponse, response) == Some(
            backend::RuntimeState::Building,
        ) <==> response is RowDescription || response is NoData,
        backend_sent(backend::RuntimeState::DescribeResponse, response) == Some(
            backend::RuntimeState::DescribeResponse,
        ) <==> response is ParameterDescription,
        backend_sent(backend::RuntimeState::ExecuteResponse, response) == Some(
            backend::RuntimeState::Building,
        ) <==> response is CommandComplete || response is PortalSuspended,
        backend_sent(backend::RuntimeState::ExecuteResponse, response) == Some(
            backend::RuntimeState::ExecuteResponse,
        ) <==> response is RowDescription || response is DataRow || response is EmptyQueryResponse,
        backend_sent(backend::RuntimeState::ExecuteResponse, response) == Some(
            backend::RuntimeState::ExtendedCopyIn,
        ) <==> response is CopyInResponse,
        backend_sent(backend::RuntimeState::ExecuteResponse, response) == Some(
            backend::RuntimeState::ExtendedCopyOut,
        ) <==> response is CopyOutResponse,
        backend_sent(backend::RuntimeState::ExecuteResponse, response) == Some(
            backend::RuntimeState::ExtendedCopyBoth,
        ) <==> response is CopyBothResponse,
{
}

/// The phase of a copy in an extended cycle that is like a phase of a copy in a simple
/// one.
pub open spec fn extended_copy(state: backend::RuntimeState) -> backend::RuntimeState {
    match state {
        backend::RuntimeState::SimpleCopyIn => backend::RuntimeState::ExtendedCopyIn,
        backend::RuntimeState::SimpleCopyInDone => backend::RuntimeState::ExtendedCopyInDone,
        backend::RuntimeState::SimpleCopyInFailed => backend::RuntimeState::ExtendedCopyInFailed,
        backend::RuntimeState::SimpleCopyOut => backend::RuntimeState::ExtendedCopyOut,
        backend::RuntimeState::SimpleCopyOutDone => backend::RuntimeState::ExtendedCopyOutDone,
        backend::RuntimeState::SimpleCopyBoth => backend::RuntimeState::ExtendedCopyBoth,
        backend::RuntimeState::SimpleCopyBothClientDone =>
            backend::RuntimeState::ExtendedCopyBothClientDone,
        backend::RuntimeState::SimpleCopyBothServerDone =>
            backend::RuntimeState::ExtendedCopyBothServerDone,
        backend::RuntimeState::SimpleCopyBothDone => backend::RuntimeState::ExtendedCopyBothDone,
        backend::RuntimeState::SimpleCopyBothFailed =>
            backend::RuntimeState::ExtendedCopyBothFailed,
        _ => state,
    }
}

/// A copy runs alike in both kinds of cycles: it takes and sends the same, and differs
/// only in where it ends. An extended copy may besides be refused after its data.
pub proof fn law_copies_run_alike(
    state: backend::RuntimeState,
    request: FrontendView,
    response: BackendView,
)
    requires
        extended_copy(state) != state,
        !(state == backend::RuntimeState::SimpleCopyInDone && response is ErrorResponse),
    ensures
        match (backend_received(state, request), backend_received(extended_copy(state), request)) {
            (Some(simple), Some(extended)) => extended == extended_copy(simple),
            (None, None) => true,
            _ => false,
        },
        match (backend_sent(state, response), backend_sent(extended_copy(state), response)) {
            (Some(simple), Some(extended)) => if simple == backend::RuntimeState::SimpleCopyReady {
                extended == (if response is ErrorResponse {
                    backend::RuntimeState::ExtendedError
                } else {
                    backend::RuntimeState::Building
                })
            } else {
                extended == extended_copy(simple)
            },
            (None, None) => true,
            _ => false,
        },
{
}

/// Which steps leave a connection with traces of its use.
pub proof fn law_dirty_steps(
    ours: frontend::RuntimeState,
    sent: frontend::Event,
    theirs: backend::RuntimeState,
    received: backend::Event,
)
    ensures
        frontend::allowed(ours, sent) matches Some(transition) ==> (transition.effect
            == Effect::Dirty <==> sent == frontend::Event::Query || sent
            == frontend::Event::FunctionCall || sent == frontend::Event::Reset || sent
            == frontend::Event::Parse || sent == frontend::Event::Bind || sent
            == frontend::Event::ReadyDirty),
        backend::allowed(theirs, received) matches Some(transition) ==> (transition.effect
            == Effect::Dirty <==> received == backend::Event::Query || received
            == backend::Event::FunctionCall || received == backend::Event::Parse || received
            == backend::Event::Bind || received == backend::Event::Execute),
        backend::allowed(theirs, received) matches Some(transition) ==> transition.effect
            != Effect::Pristine,
{
}

/// What a draining frontend waits for: readiness, past everything but a second error.
pub proof fn law_draining_ends_with_readiness(response: BackendView)
    ensures
        frontend_received(frontend::RuntimeState::Draining, response) == Some(
            frontend::RuntimeState::Ready,
        ) <==> response is ReadyForQuery,
        frontend_received(frontend::RuntimeState::Draining, response) == Some(
            frontend::RuntimeState::Draining,
        ) <==> response is RowDescription || response is DataRow || response is CommandComplete
            || response is EmptyQueryResponse || response is ParseComplete
            || response is BindComplete || response is CloseComplete || response is NoData
            || response is ParameterDescription || response is PortalSuspended,
{
}

/// A reset starts from readiness, is discarded by a completed command, and is confirmed
/// by readiness outside a transaction. An error sends it to draining.
pub proof fn law_reset_steps(response: BackendView)
    ensures
        frontend::allowed(frontend::RuntimeState::Ready, frontend::Event::Reset) matches Some(
            transition,
        ) && transition.target == frontend::RuntimeState::Resetting,
        frontend_received(frontend::RuntimeState::Resetting, response) == Some(
            frontend::RuntimeState::ResetComplete,
        ) <==> response is CommandComplete,
        frontend_received(frontend::RuntimeState::Resetting, response) == Some(
            frontend::RuntimeState::Draining,
        ) <==> response is ErrorResponse,
        frontend::external_event(frontend::RuntimeState::ResetComplete, response) == Some(
            frontend::Event::ReadyClean,
        ) <==> response == BackendView::ReadyForQuery(TransactionStatus::Idle),
        frontend::external_event(frontend::RuntimeState::ResetComplete, response) == Some(
            frontend::Event::ReadyDirty,
        ) <==> response is ReadyForQuery && response != BackendView::ReadyForQuery(
            TransactionStatus::Idle,
        ),
        frontend_received(frontend::RuntimeState::ResetComplete, response) == Some(
            frontend::RuntimeState::Draining,
        ) <==> response is ErrorResponse,
        frontend_received(frontend::RuntimeState::ResetComplete, response) == Some(
            frontend::RuntimeState::Ready,
        ) <==> response is ReadyForQuery,
{
}

/// The phases that the two sides of authentication can be in together.
pub open spec fn authenticating(
    ours: authentication::RuntimeState,
    theirs: server_authentication::RuntimeState,
) -> bool {
    match theirs {
        server_authentication::RuntimeState::Auth => ours == authentication::RuntimeState::Auth
            || ours == authentication::RuntimeState::AwaitingAuthOk || ours
            == authentication::RuntimeState::SaslFinal || ours
            == authentication::RuntimeState::TokenChallenge,
        server_authentication::RuntimeState::PasswordResponse => ours
            == authentication::RuntimeState::PasswordResponse,
        server_authentication::RuntimeState::SaslInitial => ours
            == authentication::RuntimeState::SaslInitial,
        server_authentication::RuntimeState::Sasl => ours == authentication::RuntimeState::Sasl,
        server_authentication::RuntimeState::SaslResponse => ours
            == authentication::RuntimeState::SaslChallenge,
        server_authentication::RuntimeState::TokenResponse => ours
            == authentication::RuntimeState::TokenResponse,
        server_authentication::RuntimeState::TokenPolicy => ours
            == authentication::RuntimeState::TokenChallenge,
        server_authentication::RuntimeState::StartupReady => ours
            == authentication::RuntimeState::AwaitingStartupReady,
        server_authentication::RuntimeState::Ready => ours == authentication::RuntimeState::Ready,
        server_authentication::RuntimeState::Terminated => ours
            == authentication::RuntimeState::Terminated,
        server_authentication::RuntimeState::Startup => false,
    }
}

/// The frontend's phase of authentication after it sends a message, where it may.
pub open spec fn credential_sent(
    state: authentication::RuntimeState,
    message: FrontendView,
) -> Option<authentication::RuntimeState> {
    match authentication::internal_event(state, message) {
        None => None,
        Some(event) => match authentication::allowed(state, event) {
            None => None,
            Some(transition) => Some(transition.target),
        },
    }
}

/// The server's phase of authentication after it receives a message, where it may.
pub open spec fn credential_received(
    state: server_authentication::RuntimeState,
    message: FrontendView,
) -> Option<server_authentication::RuntimeState> {
    match server_authentication::external_event(state, message) {
        None => None,
        Some(event) => match server_authentication::allowed(state, event) {
            None => None,
            Some(transition) => Some(transition.target),
        },
    }
}

/// The server's phase of authentication after it sends a message, where it may.
pub open spec fn challenge_sent(
    state: server_authentication::RuntimeState,
    message: BackendView,
) -> Option<server_authentication::RuntimeState> {
    match server_authentication::internal_event(state, message) {
        None => None,
        Some(event) => match server_authentication::allowed(state, event) {
            None => None,
            Some(transition) => Some(transition.target),
        },
    }
}

/// The frontend's phase of authentication after it receives a message, where it may.
pub open spec fn challenge_received(
    state: authentication::RuntimeState,
    message: BackendView,
) -> Option<authentication::RuntimeState> {
    match authentication::external_event(state, message) {
        None => None,
        Some(event) => match authentication::allowed(state, event) {
            None => None,
            Some(transition) => Some(transition.target),
        },
    }
}

/// The two sides of authentication follow each other: what the frontend answers the
/// server takes, and where the frontend takes what the server sends they are in phases
/// that belong together again.
pub proof fn law_authentication_stays_in_step(
    ours: authentication::RuntimeState,
    theirs: server_authentication::RuntimeState,
    answer: FrontendView,
    challenge: BackendView,
)
    requires
        authenticating(ours, theirs),
    ensures
        credential_sent(ours, answer) matches Some(after) ==> (credential_received(theirs, answer)
            matches Some(opposite) && authenticating(after, opposite)),
        credential_received(theirs, answer) is Some ==> credential_sent(ours, answer) is Some,
        challenge_sent(theirs, challenge) matches Some(opposite) ==> (challenge_received(
            ours,
            challenge,
        ) matches Some(after) ==> authenticating(after, opposite)),
{
}

/// What the server may send in authentication the frontend that it belongs to takes,
/// but for session state on the way to readiness, which is asynchronous; and an answer
/// is followed by acceptance or an error, not by another request.
pub proof fn law_challenges_are_expected(
    ours: authentication::RuntimeState,
    theirs: server_authentication::RuntimeState,
    challenge: BackendView,
)
    requires
        authenticating(ours, theirs),
        challenge_sent(theirs, challenge) is Some,
    ensures
        ours == authentication::RuntimeState::Auth || ours == authentication::RuntimeState::Sasl
            || theirs == server_authentication::RuntimeState::TokenPolicy ==> challenge_received(
            ours,
            challenge,
        ) is Some,
        theirs == server_authentication::RuntimeState::StartupReady ==> (challenge_received(
            ours,
            challenge,
        ) is Some <==> !(challenge is ParameterStatus || challenge is BackendKeyData)),
        theirs == server_authentication::RuntimeState::Auth && (ours
            == authentication::RuntimeState::AwaitingAuthOk || ours
            == authentication::RuntimeState::TokenChallenge) ==> (challenge_received(
            ours,
            challenge,
        ) is Some <==> challenge is ErrorResponse || challenge == BackendView::Authentication(
            AuthenticationView::Accepted,
        )),
{
}

/// What each authentication request asks of the frontend.
pub proof fn law_requested_credentials(challenge: BackendView)
    ensures
        ({
            let after = challenge_received(authentication::RuntimeState::Auth, challenge);
            &&& after == Some(authentication::RuntimeState::AwaitingStartupReady) <==> challenge
                == BackendView::Authentication(AuthenticationView::Accepted)
            &&& after == Some(authentication::RuntimeState::Terminated)
                <==> challenge is ErrorResponse
            &&& after == Some(authentication::RuntimeState::Auth)
                <==> challenge is NegotiateProtocolVersion
        }),
        challenge matches BackendView::Authentication(request) ==> {
            let after = challenge_received(authentication::RuntimeState::Auth, challenge);
            &&& after == Some(authentication::RuntimeState::PasswordResponse)
                <==> request is CleartextPassword || request is Md5Password
            &&& after == Some(authentication::RuntimeState::SaslInitial) <==> request is Sasl
            &&& after == Some(authentication::RuntimeState::TokenResponse) <==> request is Gss
                || request is Sspi || request is KerberosV5
        },
{
}

/// An answer is a password message, whatever was asked for, and nothing else is.
pub proof fn law_answers_are_password_messages(
    state: authentication::RuntimeState,
    answer: FrontendView,
)
    ensures
        credential_sent(state, answer) is Some <==> answer is PasswordResponse && (state
            == authentication::RuntimeState::PasswordResponse || state
            == authentication::RuntimeState::TokenResponse || state
            == authentication::RuntimeState::SaslInitial || state
            == authentication::RuntimeState::SaslChallenge),
{
}

/// A server admits a client after a startup only: it begins authentication or rejects
/// the client, accepts it from there, and is ready only after that.
pub proof fn law_server_acceptance(
    state: server_authentication::RuntimeState,
    event: server_authentication::Event,
)
    requires
        server_authentication::allowed(state, event) is Some,
    ensures
        ({
            let target = server_authentication::allowed(state, event)->0.target;
            &&& target == server_authentication::RuntimeState::StartupReady && state
                != server_authentication::RuntimeState::StartupReady ==> state
                == server_authentication::RuntimeState::Auth && event
                == server_authentication::Event::Accepted
            &&& target == server_authentication::RuntimeState::Ready ==> state
                == server_authentication::RuntimeState::StartupReady && event
                == server_authentication::Event::Ready
            &&& target == server_authentication::RuntimeState::Terminated <==> event
                == server_authentication::Event::Reject || event
                == server_authentication::Event::Error
            &&& state == server_authentication::RuntimeState::Startup ==> target
                == server_authentication::RuntimeState::Auth || target
                == server_authentication::RuntimeState::Terminated
        }),
{
}

/// How the first packet before startup is understood, and what an answer to an
/// encryption request leads to.
pub proof fn law_pre_startup_steps(request: PreStartupView, reply: EncryptionReply)
    ensures
        ({
            let start = pre_startup::RuntimeState::PreStartup;
            let event = pre_startup::internal_event(start, request);
            let target = pre_startup::allowed(start, event->0)->0.target;
            &&& event is Some
            &&& target == pre_startup::RuntimeState::AwaitingSslReply <==> request is SslRequest
            &&& target == pre_startup::RuntimeState::AwaitingGssReply <==> request is GssEncRequest
            &&& target == pre_startup::RuntimeState::Terminated <==> request is CancelRequest
            &&& target == pre_startup::RuntimeState::Auth <==> request is Startup
        }),
        ({
            let wait = pre_startup::RuntimeState::AwaitingSslReply;
            let target = pre_startup::allowed(wait, pre_startup::external_event(wait, reply)->0)->0.target;
            &&& pre_startup::external_event(wait, reply) is Some
            &&& target == pre_startup::RuntimeState::TlsHandshake <==> reply
                == EncryptionReply::Accepted
            &&& target == pre_startup::RuntimeState::PreStartup <==> reply
                == EncryptionReply::Rejected
            &&& target == pre_startup::RuntimeState::Terminated <==> reply
                == EncryptionReply::LegacyError
        }),
        ({
            let wait = pre_startup::RuntimeState::AwaitingGssReply;
            let target = pre_startup::allowed(wait, pre_startup::external_event(wait, reply)->0)->0.target;
            &&& pre_startup::external_event(wait, reply) is Some
            &&& target == pre_startup::RuntimeState::GssHandshake <==> reply
                == EncryptionReply::Accepted
            &&& target == pre_startup::RuntimeState::PreStartup <==> reply
                == EncryptionReply::Rejected
            &&& target == pre_startup::RuntimeState::Terminated <==> reply
                == EncryptionReply::LegacyError
        }),
        ({
            let done = pre_startup::Event::HandshakeComplete;
            &&& pre_startup::allowed(pre_startup::RuntimeState::TlsHandshake, done)->0.target
                == pre_startup::RuntimeState::PreStartup
            &&& pre_startup::allowed(pre_startup::RuntimeState::GssHandshake, done)->0.target
                == pre_startup::RuntimeState::PreStartup
        }),
{
}

/// What the frontend expects while the backend has the turn is what the backend may then
/// send, no less and no more.
pub proof fn law_expected_simple_responses(
    ours: frontend::RuntimeState,
    theirs: backend::RuntimeState,
    response: BackendView,
)
    requires
        opposite_sides(ours, theirs),
        theirs == backend::RuntimeState::Simple || theirs == backend::RuntimeState::FunctionResponse
            || theirs == backend::RuntimeState::SimpleCopyOut || theirs
            == backend::RuntimeState::SimpleCopyBoth || theirs
            == backend::RuntimeState::SimpleCopyBothClientDone,
    ensures
        backend_sent(theirs, response) is Some <==> frontend_received(ours, response) is Some,
{
}

/// What the backend owes at the end of a simple exchange: readiness after an error, a
/// function result or a completed copy, completion after the end of copy data, and an
/// error after failed copy data.
pub proof fn law_owed_simple_responses(response: BackendView)
    ensures
        backend_sent(backend::RuntimeState::SimpleError, response) == (if response is ReadyForQuery {
            Some(backend::RuntimeState::Ready)
        } else {
            None
        }),
        backend_sent(backend::RuntimeState::FunctionReady, response) == (
        if response is ReadyForQuery {
            Some(backend::RuntimeState::Ready)
        } else {
            None
        }),
        backend_sent(backend::RuntimeState::SimpleCopyReady, response) == (
        if response is ReadyForQuery {
            Some(backend::RuntimeState::Ready)
        } else {
            None
        }),
        forall|theirs: backend::RuntimeState|
            theirs == backend::RuntimeState::SimpleCopyInDone || theirs
                == backend::RuntimeState::SimpleCopyOutDone || theirs
                == backend::RuntimeState::SimpleCopyBothDone ==> (#[trigger] backend_sent(
                theirs,
                response,
            )) == (if response is CommandComplete {
                Some(backend::RuntimeState::SimpleCopyReady)
            } else {
                None
            }),
        forall|theirs: backend::RuntimeState|
            theirs == backend::RuntimeState::SimpleCopyInFailed || theirs
                == backend::RuntimeState::SimpleCopyBothFailed ==> (#[trigger] backend_sent(
                theirs,
                response,
            )) == (if response is ErrorResponse {
                Some(backend::RuntimeState::SimpleCopyReady)
            } else {
                None
            }),
{
}

/// What copy data from the frontend does: data goes on, its end ends that side, and a
/// failure fails the copy.
pub proof fn law_copy_data_steps(request: FrontendView)
    ensures
        ({
            let after = backend_received(backend::RuntimeState::SimpleCopyIn, request);
            &&& after == Some(backend::RuntimeState::SimpleCopyIn) <==> request is CopyData
            &&& after == Some(backend::RuntimeState::SimpleCopyInDone) <==> request is CopyDone
            &&& after == Some(backend::RuntimeState::SimpleCopyInFailed) <==> request is CopyFail
        }),
        ({
            let after = backend_received(backend::RuntimeState::SimpleCopyBoth, request);
            &&& after == Some(backend::RuntimeState::SimpleCopyBoth) <==> request is CopyData
            &&& after == Some(backend::RuntimeState::SimpleCopyBothClientDone)
                <==> request is CopyDone
            &&& after == Some(backend::RuntimeState::SimpleCopyBothFailed) <==> request is CopyFail
        }),
        ({
            let after = backend_received(backend::RuntimeState::SimpleCopyBothServerDone, request);
            &&& after == Some(backend::RuntimeState::SimpleCopyBothServerDone)
                <==> request is CopyData
            &&& after == Some(backend::RuntimeState::SimpleCopyBothDone) <==> request is CopyDone
            &&& after == Some(backend::RuntimeState::SimpleCopyBothFailed) <==> request is CopyFail
        }),
{
}

/// An extended copy whose data has ended completes its cycle's step or fails the cycle.
pub proof fn law_extended_copy_may_be_refused(response: BackendView)
    ensures
        backend_sent(backend::RuntimeState::ExtendedCopyInDone, response) == (
        if response is CommandComplete {
            Some(backend::RuntimeState::Building)
        } else if response is ErrorResponse {
            Some(backend::RuntimeState::ExtendedError)
        } else {
            None
        }),
{
}

/// What the server may send in authentication is what the frontend expects in the phase
/// opposite to it.
pub proof fn law_expected_challenges(challenge: BackendView)
    ensures
        challenge_sent(server_authentication::RuntimeState::Auth, challenge) is Some
            <==> challenge_received(authentication::RuntimeState::Auth, challenge) is Some,
        challenge_sent(server_authentication::RuntimeState::Sasl, challenge) is Some
            <==> challenge_received(authentication::RuntimeState::Sasl, challenge) is Some,
        challenge_received(authentication::RuntimeState::TokenChallenge, challenge) is Some
            <==> challenge_sent(server_authentication::RuntimeState::TokenPolicy, challenge) is Some
            || challenge == BackendView::Authentication(AuthenticationView::Accepted),
        challenge_sent(server_authentication::RuntimeState::TokenPolicy, challenge) is Some
            <==> challenge is ErrorResponse || (challenge matches BackendView::Authentication(request)
            && request is GssContinue),
        challenge_sent(server_authentication::RuntimeState::Sasl, challenge) is Some
            <==> challenge is ErrorResponse || (challenge matches BackendView::Authentication(request)
            && (request is SaslContinue || request is SaslFinal)),
        challenge_sent(server_authentication::RuntimeState::StartupReady, challenge) is Some
            <==> challenge is ParameterStatus || challenge is BackendKeyData
            || challenge is ReadyForQuery,
        challenge_sent(server_authentication::RuntimeState::Startup, challenge) is Some
            <==> challenge is ErrorResponse,
        challenge_received(authentication::RuntimeState::AwaitingStartupReady, challenge) is Some
            <==> challenge is ReadyForQuery,
        challenge_received(authentication::RuntimeState::AwaitingAuthOk, challenge) is Some
            <==> challenge is ErrorResponse || challenge == BackendView::Authentication(
            AuthenticationView::Accepted,
        ),
{
}

/// The steps of authentication that no message stands for: a verdict on the server's
/// verifier, the begin of a server's authentication and its verdict on a token.
pub proof fn law_silent_authentication_steps()
    ensures
        authentication::allowed(
            authentication::RuntimeState::SaslFinal,
            authentication::Event::Verified,
        ) matches Some(transition) && transition.target
            == authentication::RuntimeState::AwaitingAuthOk,
        server_authentication::allowed(
            server_authentication::RuntimeState::Startup,
            server_authentication::Event::Begin,
        ) matches Some(transition) && transition.target
            == server_authentication::RuntimeState::Auth,
        server_authentication::allowed(
            server_authentication::RuntimeState::TokenPolicy,
            server_authentication::Event::Verified,
        ) matches Some(transition) && transition.target
            == server_authentication::RuntimeState::Auth,
        frontend::allowed(frontend::RuntimeState::Ready, frontend::Event::BeginExtended) matches Some(
            transition,
        ) && transition.target == frontend::RuntimeState::Building && transition.effect
            == Effect::Unchanged,
{
}

/// The machine of the backend takes every message that is projected in its
/// phase, and is then where the grammar leads.
pub proof fn law_backend_machine_takes_projected_messages(
    machine: &mut backend::RuntimeFsm,
    sent: &BackendMessage,
    received: &FrontendMessage,
    event: backend::Event,
    result: Result<(), backend::StepError>,
)
    requires
        call_ensures(backend::project_internal, (machine.current(), sent), Some(event)) || call_ensures(
            backend::project_external,
            (machine.current(), received),
            Some(event),
        ),
        call_ensures(backend::RuntimeFsm::step, (machine, event), result),
    ensures
        result is Ok,
        backend::allowed(old(machine).current(), event) matches Some(transition)
            && final(machine).current() == transition.target,
{
}

/// The machine of the frontend takes every message that is projected in its
/// phase, and is then where the grammar leads.
pub proof fn law_frontend_machine_takes_projected_messages(
    machine: &mut frontend::RuntimeFsm,
    sent: &FrontendMessage,
    received: &BackendMessage,
    event: frontend::Event,
    result: Result<(), frontend::StepError>,
)
    requires
        call_ensures(frontend::project_internal, (machine.current(), sent), Some(event)) || call_ensures(
            frontend::project_external,
            (machine.current(), received),
            Some(event),
        ),
        call_ensures(frontend::RuntimeFsm::step, (machine, event), result),
    ensures
        result is Ok,
        frontend::allowed(old(machine).current(), event) matches Some(transition)
            && final(machine).current() == transition.target,
{
}

/// The machine of the frontend during authentication takes every message that is projected in its
/// phase, and is then where the grammar leads.
pub proof fn law_authentication_machine_takes_projected_messages(
    machine: &mut authentication::RuntimeFsm,
    sent: &FrontendMessage,
    received: &BackendMessage,
    event: authentication::Event,
    result: Result<(), authentication::StepError>,
)
    requires
        call_ensures(authentication::project_internal, (machine.current(), sent), Some(event)) || call_ensures(
            authentication::project_external,
            (machine.current(), received),
            Some(event),
        ),
        call_ensures(authentication::RuntimeFsm::step, (machine, event), result),
    ensures
        result is Ok,
        authentication::allowed(old(machine).current(), event) matches Some(transition)
            && final(machine).current() == transition.target,
{
}

/// The machine of the backend during authentication takes every message that is projected in its
/// phase, and is then where the grammar leads.
pub proof fn law_server_authentication_machine_takes_projected_messages(
    machine: &mut server_authentication::RuntimeFsm,
    sent: &BackendMessage,
    received: &FrontendMessage,
    event: server_authentication::Event,
    result: Result<(), server_authentication::StepError>,
)
    requires
        call_ensures(server_authentication::project_internal, (machine.current(), sent), Some(event)) || call_ensures(
            server_authentication::project_external,
            (machine.current(), received),
            Some(event),
        ),
        call_ensures(server_authentication::RuntimeFsm::step, (machine, event), result),
    ensures
        result is Ok,
        server_authentication::allowed(old(machine).current(), event) matches Some(transition)
            && final(machine).current() == transition.target,
{
}

/// The machine of the frontend before startup takes every message that is projected in its
/// phase, and is then where the grammar leads.
pub proof fn law_pre_startup_machine_takes_projected_messages(
    machine: &mut pre_startup::RuntimeFsm,
    sent: &PreStartupMessage,
    received: &EncryptionReply,
    event: pre_startup::Event,
    result: Result<(), pre_startup::StepError>,
)
    requires
        call_ensures(pre_startup::project_internal, (machine.current(), sent), Some(event)) || call_ensures(
            pre_startup::project_external,
            (machine.current(), received),
            Some(event),
        ),
        call_ensures(pre_startup::RuntimeFsm::step, (machine, event), result),
    ensures
        result is Ok,
        pre_startup::allowed(old(machine).current(), event) matches Some(transition)
            && final(machine).current() == transition.target,
{
}

/// The machine of the backend before startup takes every message that is projected in its
/// phase, and is then where the grammar leads.
pub proof fn law_server_pre_startup_machine_takes_projected_messages(
    machine: &mut server_pre_startup::RuntimeFsm,
    sent: &EncryptionReply,
    received: &PreStartupMessage,
    event: server_pre_startup::Event,
    result: Result<(), server_pre_startup::StepError>,
)
    requires
        call_ensures(server_pre_startup::project_internal, (machine.current(), sent), Some(event)) || call_ensures(
            server_pre_startup::project_external,
            (machine.current(), received),
            Some(event),
        ),
        call_ensures(server_pre_startup::RuntimeFsm::step, (machine, event), result),
    ensures
        result is Ok,
        server_pre_startup::allowed(old(machine).current(), event) matches Some(transition)
            && final(machine).current() == transition.target,
{
}

} // verus!
