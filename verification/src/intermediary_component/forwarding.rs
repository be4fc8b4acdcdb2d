//! Ordering decisions of an established intermediary: what is read next, what a
//! boundary decision does to the pipeline and the hold, and when retained messages
//! leave.

use std::collections::VecDeque;
use vstd::prelude::*;

use super::batching::{
    BackendFlushReason, BackendHoldLimits, BackendMiddlewareOutput, HeldBackendMessages,
};
use crate::backend_hold::{retained_total, BackendHold};
use crate::codec::backend::{backend_frame, BackendView};
use crate::codec::frame::FrameView;
use crate::codec::frontend::FrontendView;
use crate::codec::{BackendMessage, FrontendMessage};
use crate::demux::{asynchronous, views};
use crate::error::ProtocolError;
use crate::pipeline::{
    accepts, replaces, BackendAction, BackendProjectionError, BackendSequenceError,
    FrontendAction, FrontendHandling, FrontendProjectionError, Ledger, OperationId, Pipeline,
    PipelinePolicy, PreparedResponse, RequestState,
};

verus! {

/// Messages that must not overtake a held span.
pub open spec fn barrier(message: BackendView) -> bool {
    match message {
        BackendView::CommandComplete(_)
        | BackendView::PortalSuspended
        | BackendView::EmptyQueryResponse
        | BackendView::ErrorResponse(_)
        | BackendView::ReadyForQuery(_)
        | BackendView::CopyInResponse(_)
        | BackendView::CopyOutResponse(_)
        | BackendView::CopyBothResponse(_)
        | BackendView::CopyDone
        | BackendView::NoticeResponse(_)
        | BackendView::OpaqueNotice(_)
        | BackendView::NotificationResponse { .. }
        | BackendView::ParameterStatus { .. }
        | BackendView::BackendKeyData { .. } => true,
        _ => false,
    }
}

/// Whether a message must not overtake a held span.
pub fn is_backend_batch_barrier(message: &BackendMessage) -> (result: bool)
    ensures
        result == barrier(message@),
{
    match message {
        BackendMessage::CommandComplete(_)
        | BackendMessage::PortalSuspended
        | BackendMessage::EmptyQueryResponse
        | BackendMessage::ErrorResponse(_)
        | BackendMessage::ReadyForQuery(_)
        | BackendMessage::CopyInResponse(_)
        | BackendMessage::CopyOutResponse(_)
        | BackendMessage::CopyBothResponse(_)
        | BackendMessage::CopyDone
        | BackendMessage::NoticeResponse(_)
        | BackendMessage::OpaqueNotice(_)
        | BackendMessage::NotificationResponse { .. }
        | BackendMessage::ParameterStatus { .. }
        | BackendMessage::BackendKeyData { .. } => true,
        _ => false,
    }
}

/// Direction selected by one cancellation-safe duplex forwarding step.
#[derive(Debug)]
pub enum ForwardedMessage {
    /// A client-originated message was forwarded to PostgreSQL.
    Frontend(FrontendMessage),
    /// A PostgreSQL-originated message was forwarded to the client.
    Backend(BackendMessage),
    /// One PostgreSQL response expanded into ordered client responses.
    BackendExpanded {
        /// Response received from PostgreSQL.
        source: BackendMessage,
        /// Responses emitted to the client.
        messages: Vec<BackendMessage>,
    },
    /// A client-originated message was deliberately suppressed.
    FrontendSuppressed(FrontendMessage),
    /// A request was handled locally; responses were emitted or queued in order.
    FrontendLocallyHandled(FrontendMessage),
    /// A PostgreSQL-originated response advanced protocol state but was suppressed.
    BackendSuppressed(BackendMessage),
    /// A PostgreSQL response entered the connection-owned backend hold.
    BackendHeld,
}

/// Observable result of processing one client-originated message.
#[derive(Debug)]
pub enum FrontendForwarding {
    /// The message was sent to PostgreSQL.
    Forwarded(FrontendMessage),
    /// The message was consumed without being sent.
    Suppressed(FrontendMessage),
    /// The request was admitted as local and its responses were emitted or queued.
    LocallyHandled(FrontendMessage),
}

impl FrontendForwarding {
    /// The client message, whatever the outcome.
    pub open spec fn represented(self) -> FrontendMessage {
        match self {
            FrontendForwarding::Forwarded(message) => message,
            FrontendForwarding::Suppressed(message) => message,
            FrontendForwarding::LocallyHandled(message) => message,
        }
    }

    /// Returns the owned client message represented by this outcome.
    pub fn into_message(self) -> (message: FrontendMessage)
        ensures
            message == self.represented(),
    {
        match self {
            FrontendForwarding::Forwarded(message) => message,
            FrontendForwarding::Suppressed(message) => message,
            FrontendForwarding::LocallyHandled(message) => message,
        }
    }

    /// The outcome as a step in either direction.
    pub fn into_step(self) -> (step: ForwardedMessage)
        ensures
            step == match self {
                FrontendForwarding::Forwarded(message) => ForwardedMessage::Frontend(message),
                FrontendForwarding::Suppressed(message) => ForwardedMessage::FrontendSuppressed(
                    message,
                ),
                FrontendForwarding::LocallyHandled(message) =>
                    ForwardedMessage::FrontendLocallyHandled(message),
            },
    {
        match self {
            FrontendForwarding::Forwarded(message) => ForwardedMessage::Frontend(message),
            FrontendForwarding::Suppressed(message) => ForwardedMessage::FrontendSuppressed(
                message,
            ),
            FrontendForwarding::LocallyHandled(message) =>
                ForwardedMessage::FrontendLocallyHandled(message),
        }
    }
}

/// Observable result of processing one PostgreSQL-originated response.
#[derive(Debug)]
pub enum BackendForwarding {
    /// The response was sent to the client.
    Forwarded(BackendMessage),
    /// One PostgreSQL response expanded into these ordered client responses.
    Expanded {
        /// Response received from PostgreSQL after client-role interception.
        source: BackendMessage,
        /// Responses emitted to the client after server-role interception.
        messages: Vec<BackendMessage>,
    },
    /// The response advanced protocol state but was not sent.
    Suppressed(BackendMessage),
    /// The response entered the connection-owned hold without projection.
    Held,
}

impl BackendForwarding {
    /// The response that this outcome owns; none while it is held.
    pub open spec fn represented(self) -> Option<BackendMessage> {
        match self {
            BackendForwarding::Forwarded(message) => Some(message),
            BackendForwarding::Suppressed(message) => Some(message),
            BackendForwarding::Expanded { source, .. } => Some(source),
            BackendForwarding::Held => None,
        }
    }

    /// Returns the owned PostgreSQL response represented by this outcome. A held
    /// response remains owned by the connection.
    pub fn into_message(self) -> (message: BackendMessage)
        requires
            !(self is Held),
        ensures
            self.represented() == Some(message),
    {
        match self {
            BackendForwarding::Forwarded(message) => message,
            BackendForwarding::Suppressed(message) => message,
            BackendForwarding::Expanded { source, .. } => source,
            BackendForwarding::Held => vstd::pervasive::unreached(),
        }
    }

    /// The outcome as a step in either direction.
    pub fn into_step(self) -> (step: ForwardedMessage)
        ensures
            step == match self {
                BackendForwarding::Forwarded(message) => ForwardedMessage::Backend(message),
                BackendForwarding::Expanded { source, messages } =>
                    ForwardedMessage::BackendExpanded { source, messages },
                BackendForwarding::Suppressed(message) => ForwardedMessage::BackendSuppressed(
                    message,
                ),
                BackendForwarding::Held => ForwardedMessage::BackendHeld,
            },
    {
        match self {
            BackendForwarding::Forwarded(message) => ForwardedMessage::Backend(message),
            BackendForwarding::Expanded { source, messages } =>
                ForwardedMessage::BackendExpanded { source, messages },
            BackendForwarding::Suppressed(message) => ForwardedMessage::BackendSuppressed(message),
            BackendForwarding::Held => ForwardedMessage::BackendHeld,
        }
    }
}

/// Observable result of explicitly applying backend batch policy.
#[derive(Debug)]
pub enum BackendBatchForwarding {
    /// The held span was atomically projected and emitted in order.
    Released(Vec<BackendMessage>),
    /// Batch policy elected to retain the unchanged span.
    Kept,
    /// No backend messages were held.
    Empty,
}

/// Validation failure for an ordered one-to-one backend replacement span.
#[derive(Clone, Copy, Debug, PartialEq, Eq, Structural)]
pub enum BackendBatchProjectionError {
    /// Replacement cardinality differed from the held span.
    Cardinality {
        /// Number of authoritative held inputs.
        expected: usize,
        /// Number of proposed replacements.
        actual: usize,
    },
    /// A held source was not attributable at this pipeline position.
    IllegalSource,
    /// A proposed replacement was illegal or not reconstructable.
    IllegalReplacement,
    /// Replacements would consume a different protocol span than the sources.
    DifferentSpan,
}

/// What a sequence error says of a batch.
pub open spec fn batch_error(error: BackendSequenceError) -> BackendBatchProjectionError {
    match error {
        BackendSequenceError::Cardinality { expected, actual } =>
            BackendBatchProjectionError::Cardinality { expected, actual },
        BackendSequenceError::Source(_) => BackendBatchProjectionError::IllegalSource,
        BackendSequenceError::Replacement(_) => BackendBatchProjectionError::IllegalReplacement,
        BackendSequenceError::DifferentSpan => BackendBatchProjectionError::DifferentSpan,
    }
}

impl vstd::std_specs::convert::FromSpecImpl<BackendSequenceError> for BackendBatchProjectionError {
    open spec fn obeys_from_spec() -> bool {
        true
    }

    open spec fn from_spec(error: BackendSequenceError) -> Self {
        batch_error(error)
    }
}

impl From<BackendSequenceError> for BackendBatchProjectionError {
    fn from(error: BackendSequenceError) -> (result: Self) {
        match error {
            BackendSequenceError::Cardinality { expected, actual } =>
                BackendBatchProjectionError::Cardinality { expected, actual },
            BackendSequenceError::Source(_) => BackendBatchProjectionError::IllegalSource,
            BackendSequenceError::Replacement(_) =>
                BackendBatchProjectionError::IllegalReplacement,
            BackendSequenceError::DifferentSpan => BackendBatchProjectionError::DifferentSpan,
        }
    }
}

/// Operational forwarding or pipeline projection failure.
#[derive(Debug)]
pub enum ForwardError<MiddlewareError, TransportError> {
    /// Transport failure.
    Io(TransportError),
    /// Decoding or encoding failure.
    Encoding(ProtocolError),
    /// Frontend backpressure or protocol-legality rejection.
    Frontend(FrontendProjectionError),
    /// Backend protocol-legality rejection.
    Backend(BackendProjectionError),
    /// A bounded response arrived before its operation became emittable.
    Deferred(BackendMessage),
    /// Backend fan-out did not contain a replacement response.
    EmptyExpansion(BackendMessage),
    /// Middleware requested holding without configured finite limits.
    BackendHoldingDisabled(BackendMessage),
    /// Batch policy kept a full hold, so no transport may be polled.
    BackendHoldCapacity,
    /// Batch policy refused a required protocol-boundary release.
    BackendHoldRefused,
    /// A proposed batch failed atomic protocol-span validation.
    BackendBatch {
        /// Validation failure.
        error: BackendBatchProjectionError,
        /// Unsent proposed replacements in order.
        proposed: Vec<BackendMessage>,
    },
    /// Forwarding-boundary middleware rejected a message.
    Middleware(MiddlewareError),
}

impl<MiddlewareError, TransportError> ForwardError<MiddlewareError, TransportError> {
    /// Description of the failure; that of a failed transport or encoding is its own.
    pub fn message(&self) -> (message: Option<&'static str>)
        ensures
            match message {
                None => self is Io || self is Encoding,
                Some(message) => message@ == match self {
                    ForwardError::Frontend(_) =>
                        "frontend message violates pipeline legality or capacity"@,
                    ForwardError::Backend(_) => "backend message violates pipeline legality"@,
                    ForwardError::Deferred(_) => "backend response is not yet emittable"@,
                    ForwardError::EmptyExpansion(_) =>
                        "backend expansion must contain at least one response"@,
                    ForwardError::BackendHoldingDisabled(_) => "backend holding is not configured"@,
                    ForwardError::BackendHoldCapacity =>
                        "backend hold is full and batch policy kept holding"@,
                    ForwardError::BackendHoldRefused =>
                        "backend batch policy refused a required release"@,
                    ForwardError::BackendBatch { .. } =>
                        "backend batch replacement is not a legal one-to-one protocol span"@,
                    ForwardError::Middleware(_) => "forwarding middleware rejected a message"@,
                    _ => ""@,
                } && !(self is Io) && !(self is Encoding),
            },
    {
        match self {
            ForwardError::Io(_) | ForwardError::Encoding(_) => None,
            ForwardError::Frontend(_) => Some(
                "frontend message violates pipeline legality or capacity",
            ),
            ForwardError::Backend(_) => Some("backend message violates pipeline legality"),
            ForwardError::Deferred(_) => Some("backend response is not yet emittable"),
            ForwardError::EmptyExpansion(_) => Some(
                "backend expansion must contain at least one response",
            ),
            ForwardError::BackendHoldingDisabled(_) => Some("backend holding is not configured"),
            ForwardError::BackendHoldCapacity => Some(
                "backend hold is full and batch policy kept holding",
            ),
            ForwardError::BackendHoldRefused => Some(
                "backend batch policy refused a required release",
            ),
            ForwardError::BackendBatch { .. } => Some(
                "backend batch replacement is not a legal one-to-one protocol span",
            ),
            ForwardError::Middleware(_) => Some("forwarding middleware rejected a message"),
        }
    }
}

/// Responses synthesized for one operation that are still to be emitted.
struct PendingLocalResponses {
    operation: OperationId,
    messages: VecDeque<BackendMessage>,
}

/// Responses synthesized for one operation that are still to be emitted, in order.
#[verifier::ext_equal]
pub struct LocalView {
    pub operation: OperationId,
    pub messages: Seq<BackendMessage>,
}

impl View for PendingLocalResponses {
    type V = LocalView;

    closed spec fn view(&self) -> LocalView {
        LocalView { operation: self.operation, messages: self.messages@ }
    }
}

/// Ordering state of an established intermediary.
pub struct Forwarding<P: PipelinePolicy> {
    pipeline: Pipeline<P>,
    pending_frontend: Option<FrontendMessage>,
    hold: BackendHold,
    limits: Option<BackendHoldLimits>,
    local: VecDeque<PendingLocalResponses>,
}

/// What the ordering state records.
#[verifier::ext_equal]
pub struct ForwardingView {
    /// Outstanding operations.
    pub ledger: Ledger,
    /// Request that could not be admitted and is to be tried again.
    pub pending: Option<FrontendView>,
    /// Response on which the boundary has not decided.
    pub waiting: Option<BackendMessage>,
    /// Responses held back, in receipt order.
    pub kept: Seq<BackendMessage>,
    /// Bounds on what is held back; none if nothing may be.
    pub limits: Option<BackendHoldLimits>,
    /// Synthesized responses, in request order.
    pub local: Seq<LocalView>,
}

/// What a request that may be missing says.
pub open spec fn request_view(message: Option<FrontendMessage>) -> Option<FrontendView> {
    match message {
        Some(message) => Some(message@),
        None => None,
    }
}

impl<P: PipelinePolicy> View for Forwarding<P> {
    type V = ForwardingView;

    closed spec fn view(&self) -> ForwardingView {
        ForwardingView {
            ledger: self.pipeline@,
            pending: request_view(self.pending_frontend),
            waiting: self.hold.waiting(),
            kept: self.hold.kept(),
            limits: self.limits,
            local: views(self.local@),
        }
    }
}

/// What a forwarding step works on.
#[derive(Clone, Copy, Debug, PartialEq, Eq, Structural)]
pub enum ForwardSource {
    /// The response on which the boundary has not decided.
    PendingBackend,
    /// The hold is full and has to be flushed before anything is read.
    FullHold,
    /// The retained request, which can be admitted now.
    PendingFrontend,
    /// Only PostgreSQL is read, until capacity recovers.
    Backend,
    /// Whichever side has a message first.
    Either,
}

/// One synthesized response to emit, or why there is none.
pub enum LocalStep {
    /// Nothing can be emitted now.
    Idle,
    /// Emit this response.
    Send(BackendMessage),
    /// The response is illegal for its operation.
    Refused(BackendProjectionError),
}

/// A queue of synthesized responses without the exhausted entries at its front.
pub open spec fn trimmed(local: Seq<LocalView>) -> Seq<LocalView>
    decreases local.len(),
{
    if local.len() > 0 && local[0].messages.len() == 0 {
        trimmed(local.skip(1))
    } else {
        local
    }
}

impl ForwardingView {
    /// The hold has reached a bound.
    pub open spec fn full(self) -> bool {
        match self.limits {
            Some(limits) => self.kept.len() >= limits.count_limit() || retained_total(self.kept)
                >= limits.size_limit(),
            None => false,
        }
    }

    /// What the next step works on.
    pub open spec fn source(self) -> ForwardSource {
        if self.waiting is Some {
            ForwardSource::PendingBackend
        } else if self.full() {
            ForwardSource::FullHold
        } else {
            match self.pending {
                Some(request) => if self.ledger.refusal(request) is None {
                    ForwardSource::PendingFrontend
                } else {
                    ForwardSource::Backend
                },
                None => ForwardSource::Either,
            }
        }
    }

    /// The next synthesized response, and the state once it is dealt with.
    pub open spec fn next_local(self) -> (LocalStep, ForwardingView) {
        let local = trimmed(self.local);
        if local.len() == 0 {
            (LocalStep::Idle, ForwardingView { local, ..self })
        } else {
            let front = local[0];
            let message = front.messages[0];
            let rest = local.update(
                0,
                LocalView { messages: front.messages.skip(1), ..front },
            );
            let ledger = self.ledger.offered(Some(front.operation), message@);
            match self.ledger.prepared(Some(front.operation), message@) {
                PreparedResponse::Asynchronous | PreparedResponse::Emit { .. } => (
                    LocalStep::Send(message),
                    ForwardingView { ledger, local: rest, ..self },
                ),
                PreparedResponse::Deferred => (
                    LocalStep::Idle,
                    ForwardingView { ledger, local, ..self },
                ),
                PreparedResponse::Illegal => (
                    LocalStep::Refused(
                        BackendProjectionError { state: self.ledger.state(), message },
                    ),
                    ForwardingView { ledger, local: rest, ..self },
                ),
            }
        }
    }
}

/// What a boundary decision on a response asks for.
pub enum BackendDecision {
    /// Emit this response in place of the source.
    Emit(BackendMessage),
    /// Emit these responses in order in place of the source.
    EmitAll {
        source: BackendMessage,
        messages: Vec<BackendMessage>,
    },
    /// Advance the pipeline by this response without emitting it.
    Advance(BackendMessage),
    /// The source was held.
    Held,
}

/// Whether a decision is carried out as it must be, on the response `source`.
pub open spec fn decides<M, T>(
    before: ForwardingView,
    source: BackendMessage,
    output: BackendMiddlewareOutput,
    result: Result<BackendDecision, ForwardError<M, T>>,
    after: ForwardingView,
) -> bool {
    let taken = ForwardingView { waiting: None, ..before };
    match output {
        BackendMiddlewareOutput::Forward(message) => {
            &&& after == taken
            &&& result matches Ok(BackendDecision::Emit(given))
            &&& given == message
        },
        BackendMiddlewareOutput::Suppress(message) => {
            &&& after == taken
            &&& result matches Ok(BackendDecision::Advance(given))
            &&& given == message
        },
        BackendMiddlewareOutput::Expand(messages) => if messages@.len() == 0 {
            &&& after == before
            &&& result matches Err(ForwardError::EmptyExpansion(copy))
            &&& copy@ == source@
        } else {
            &&& after == taken
            &&& result matches Ok(BackendDecision::EmitAll { source: given, messages: all })
            &&& given == source
            &&& all == messages
        },
        BackendMiddlewareOutput::Hold => if before.limits is None {
            &&& after == before
            &&& result matches Err(ForwardError::BackendHoldingDisabled(copy))
            &&& copy@ == source@
        } else {
            &&& after == (ForwardingView { kept: before.kept.push(source), ..taken })
            &&& result matches Ok(BackendDecision::Held)
        },
    }
}

/// Whether a request is admitted for forwarding as it must be.
pub open spec fn admits<M, T>(
    before: ForwardingView,
    message: FrontendMessage,
    result: Result<FrontendForwarding, ForwardError<M, T>>,
    after: ForwardingView,
) -> bool {
    match before.ledger.refusal(message@) {
        Some(_) => {
            &&& after == (ForwardingView { pending: Some(message@), ..before })
            &&& result matches Err(ForwardError::Frontend(error))
            &&& accepts(
                before.ledger,
                message,
                FrontendHandling::Forward,
                Err(error),
                before.ledger,
            )
        },
        None => {
            &&& after == (ForwardingView {
                ledger: before.ledger.admitted(message@, FrontendHandling::Forward),
                ..before
            })
            &&& if before.ledger.dropped(message@) {
                result matches Ok(FrontendForwarding::Suppressed(given)) && given@ == message@
            } else {
                result matches Ok(FrontendForwarding::Forwarded(given)) && given == message
            }
        },
    }
}

/// Whether a response advances the pipeline as it must.
pub open spec fn advances<M, T>(
    before: ForwardingView,
    message: BackendMessage,
    result: Result<BackendMessage, ForwardError<M, T>>,
    after: ForwardingView,
) -> bool {
    &&& after == (ForwardingView { ledger: before.ledger.offered(None, message@), ..before })
    &&& match before.ledger.prepared(None, message@) {
        PreparedResponse::Asynchronous | PreparedResponse::Emit { .. } => result matches Ok(given)
            && given == message,
        PreparedResponse::Deferred => result matches Err(ForwardError::Deferred(given)) && given
            == message,
        PreparedResponse::Illegal => result matches Err(ForwardError::Backend(error)) && error == (
        BackendProjectionError { state: before.ledger.state(), message }),
    }
}

/// Whether a held span is released as it must be.
pub open spec fn releases<M, T>(
    before: ForwardingView,
    messages: Vec<BackendMessage>,
    result: Result<Vec<BackendMessage>, ForwardError<M, T>>,
    after: ForwardingView,
) -> bool {
    match result {
        Ok(released) => {
            &&& released == messages
            &&& replaces(
                before.ledger,
                views(before.kept),
                views(messages@),
                Ok(after.ledger),
            )
            &&& after == (ForwardingView { ledger: after.ledger, kept: Seq::empty(), ..before })
        },
        Err(ForwardError::Encoding(error)) => {
            &&& after == before
            &&& exists|i: int|
                0 <= i < messages@.len() && backend_frame((#[trigger] messages@[i])@) == Err::<
                    FrameView,
                    _,
                >(error) && forall|j: int|
                    0 <= j < i ==> backend_frame((#[trigger] messages@[j])@) is Ok
        },
        Err(ForwardError::BackendBatch { error, proposed }) => {
            &&& after == before
            &&& proposed == messages
            &&& forall|j: int|
                0 <= j < messages@.len() ==> backend_frame((#[trigger] messages@[j])@) is Ok
            &&& exists|cause: BackendSequenceError|
                error == #[trigger] batch_error(cause) && replaces(
                    before.ledger,
                    views(before.kept),
                    views(messages@),
                    Err(cause),
                )
        },
        _ => false,
    }
}

/// What keeping a held span means for a flush that was asked for this reason.
pub open spec fn kept_outcome<M, T>(reason: BackendFlushReason) -> Result<
    BackendBatchForwarding,
    ForwardError<M, T>,
> {
    match reason {
        BackendFlushReason::Explicit => Ok(BackendBatchForwarding::Kept),
        BackendFlushReason::Capacity => Err(ForwardError::BackendHoldCapacity),
        BackendFlushReason::ProtocolBarrier => Err(ForwardError::BackendHoldRefused),
        BackendFlushReason::Teardown => Err(ForwardError::BackendHoldRefused),
    }
}

/// Decides what it means that batch policy kept the span.
///
/// # Errors
///
/// Only an explicit flush may be declined.
pub fn keep_holding<M, T>(reason: BackendFlushReason) -> (result: Result<
    BackendBatchForwarding,
    ForwardError<M, T>,
>)
    ensures
        result == kept_outcome::<M, T>(reason),
{
    match reason {
        BackendFlushReason::Explicit => Ok(BackendBatchForwarding::Kept),
        BackendFlushReason::Capacity => Err(ForwardError::BackendHoldCapacity),
        BackendFlushReason::ProtocolBarrier => Err(ForwardError::BackendHoldRefused),
        BackendFlushReason::Teardown => Err(ForwardError::BackendHoldRefused),
    }
}

impl<P: PipelinePolicy> Forwarding<P> {
    /// Nothing outstanding and nothing held.
    pub fn new(policy: P, limits: Option<BackendHoldLimits>) -> (forwarding: Self)
        ensures
            forwarding@ == (ForwardingView {
                ledger: Ledger {
                    operations: Seq::empty(),
                    request: RequestState::Ready,
                    response: None,
                    next_id: 0,
                    limit: policy.operations(),
                },
                pending: None,
                waiting: None,
                kept: Seq::empty(),
                limits,
                local: Seq::empty(),
            }),
    {
        let forwarding = Forwarding {
            pipeline: Pipeline::new(policy),
            pending_frontend: None,
            hold: BackendHold::new(),
            limits,
            local: VecDeque::new(),
        };
        assert(views(forwarding.local@) =~= Seq::<LocalView>::empty());
        forwarding
    }

    /// Whether the hold has reached a bound.
    pub fn backend_hold_is_full(&self) -> (full: bool)
        ensures
            full == self@.full(),
    {
        match self.limits {
            Some(limits) => self.hold.len() >= limits.max_messages() || self.hold.bytes()
                >= limits.max_bytes(),
            None => false,
        }
    }

    /// Decides what the next step works on.
    pub fn forward_next(&self) -> (source: ForwardSource)
        ensures
            source == self@.source(),
    {
        if self.hold.pending().is_some() {
            return ForwardSource::PendingBackend;
        }
        if self.backend_hold_is_full() {
            return ForwardSource::FullHold;
        }
        match &self.pending_frontend {
            Some(request) => match self.pipeline.prepare_frontend(request) {
                Ok(_) => ForwardSource::PendingFrontend,
                Err(_) => ForwardSource::Backend,
            },
            None => ForwardSource::Either,
        }
    }

    /// Ordered borrowed view of retained backend messages.
    pub fn held_backend_messages(&self) -> (held: HeldBackendMessages<'_>)
        ensures
            held.held() == self@.kept,
    {
        HeldBackendMessages::of(&self.hold)
    }

    /// Whether nothing is held and no response waits for a decision.
    pub fn is_settled(&self) -> (settled: bool)
        ensures
            settled == (self@.kept.len() == 0 && self@.waiting is None),
    {
        self.hold.is_empty() && self.hold.pending().is_none()
    }

    /// Takes the request that is to be tried again.
    pub fn take_pending_frontend(&mut self) -> (message: Option<FrontendMessage>)
        ensures
            request_view(message) == old(self)@.pending,
            final(self)@ == (ForwardingView { pending: None, ..old(self)@ }),
    {
        let mut message: Option<FrontendMessage> = None;
        std::mem::swap(&mut message, &mut self.pending_frontend);
        message
    }

    /// Admits a request that is to be forwarded. One that falls to a local rejection
    /// is consumed without being sent.
    ///
    /// # Errors
    ///
    /// A request without capacity, or one that is illegal now, is retained.
    pub fn forward_frontend<M, T>(&mut self, message: FrontendMessage) -> (result: Result<
        FrontendForwarding,
        ForwardError<M, T>,
    >)
        ensures
            admits(old(self)@, message, result, final(self)@),
    {
        let copy = message.duplicate();
        match self.pipeline.accept_frontend(message, FrontendHandling::Forward) {
            Ok(admission) => match admission.into_action() {
                FrontendAction::Forward { message, .. } => Ok(
                    FrontendForwarding::Forwarded(message),
                ),
                FrontendAction::Discard { .. } => Ok(FrontendForwarding::Suppressed(copy)),
            },
            Err(error) => {
                self.pending_frontend = Some(copy);
                Err(ForwardError::Frontend(error))
            },
        }
    }

    /// Admits a request that the boundary answers itself.
    ///
    /// # Errors
    ///
    /// Returns a request without capacity, or one that is illegal now.
    pub fn admit_local<M, T>(&mut self, request: FrontendMessage) -> (result: Result<
        OperationId,
        ForwardError<M, T>,
    >)
        ensures
            match old(self)@.ledger.refusal(request@) {
                Some(_) => {
                    &&& final(self)@ == old(self)@
                    &&& result matches Err(ForwardError::Frontend(error))
                    &&& accepts(
                        old(self)@.ledger,
                        request,
                        FrontendHandling::Local,
                        Err(error),
                        old(self)@.ledger,
                    )
                },
                None => {
                    &&& final(self)@ == (ForwardingView {
                        ledger: old(self)@.ledger.admitted(request@, FrontendHandling::Local),
                        ..old(self)@
                    })
                    &&& result matches Ok(id)
                    &&& id == OperationId::numbered(old(self)@.ledger.next_id)
                },
            },
    {
        match self.pipeline.accept_frontend(request, FrontendHandling::Local) {
            Ok(admission) => match admission.into_action() {
                FrontendAction::Forward { id, .. } => Ok(id),
                FrontendAction::Discard { id } => Ok(id),
            },
            Err(error) => Err(ForwardError::Frontend(error)),
        }
    }

    /// Queues the responses to a request that the boundary answers itself.
    pub fn queue_local(&mut self, operation: OperationId, responses: Vec<BackendMessage>)
        ensures
            final(self)@ == (ForwardingView {
                local: old(self)@.local.push(LocalView { operation, messages: responses@ }),
                ..old(self)@
            }),
    {
        let ghost before = self@;
        let ghost all = responses@;
        let mut remaining = responses;
        let mut messages: VecDeque<BackendMessage> = VecDeque::new();
        while remaining.len() > 0
            invariant
                remaining@ + messages@ == all,
            decreases remaining@.len(),
        {
            match remaining.pop() {
                Some(message) => {
                    messages.push_front(message);
                },
                None => {},
            }
            assert(remaining@ + messages@ =~= all);
        }
        assert(messages@ =~= all);
        self.local.push_back(PendingLocalResponses { operation, messages });
        assert(self@.local =~= before.local.push(LocalView { operation, messages: all }));
    }

    /// The next synthesized response that can be emitted now. Entries that are
    /// exhausted are dropped on the way.
    ///
    /// # Errors
    ///
    /// A response that is illegal for its operation is given back.
    pub fn flush_local_responses(&mut self) -> (step: LocalStep)
        ensures
            (step, final(self)@) == old(self)@.next_local(),
    {
        let ghost before = self@;
        loop
            invariant
                before == old(self)@,
                self@ == (ForwardingView { local: self@.local, ..before }),
                trimmed(self@.local) == trimmed(before.local),
            decreases self@.local.len(),
        {
            let ghost queue = self.local@;
            match self.local.pop_front() {
                None => {
                    assert(self@.local =~= views(queue));
                    assert(trimmed(self@.local) == self@.local);
                    assert(self@ =~= before.next_local().1);
                    return LocalStep::Idle;
                },
                Some(mut front) => {
                    let ghost entry = front@;
                    assert(views(queue)[0] == entry);
                    assert(self@.local =~= views(queue).skip(1));
                    match front.messages.pop_front() {
                        None => {
                            assert(entry.messages.len() == 0);
                        },
                        Some(message) => {
                            let operation = front.operation;
                            assert(trimmed(before.local) == views(queue));
                            let result = self.pipeline.try_emit_local(operation, message);
                            match result {
                                Ok(BackendAction::Emit(message)) => {
                                    self.local.push_front(front);
                                    assert(front@ =~= LocalView {
                                        messages: entry.messages.skip(1),
                                        ..entry
                                    });
                                    assert(self@.local =~= views(queue).update(0, front@));
                                    assert(self@ =~= before.next_local().1);
                                    return LocalStep::Send(message);
                                },
                                Ok(BackendAction::Deferred(message)) => {
                                    front.messages.push_front(message);
                                    assert(front@.messages =~= entry.messages);
                                    self.local.push_front(front);
                                    assert(self@.local =~= views(queue));
                                    return LocalStep::Idle;
                                },
                                Err(error) => {
                                    self.local.push_front(front);
                                    assert(front@ =~= LocalView {
                                        messages: entry.messages.skip(1),
                                        ..entry
                                    });
                                    assert(self@.local =~= views(queue).update(0, front@));
                                    assert(self@ =~= before.next_local().1);
                                    return LocalStep::Refused(error);
                                },
                            }
                        },
                    }
                },
            }
        }
    }

    /// Records a received response. Reports whether the held span must be flushed
    /// before the boundary decides on it.
    pub fn receive_backend(&mut self, message: BackendMessage) -> (flush: bool)
        requires
            old(self)@.waiting is None,
        ensures
            final(self)@ == (ForwardingView { waiting: Some(message), ..old(self)@ }),
            flush == (barrier(message@) && old(self)@.kept.len() > 0),
    {
        let flush: bool = is_backend_batch_barrier(&message) && !self.hold.is_empty();
        self.hold.set_pending(message);
        flush
    }

    /// Another handle on the response on which the boundary has to decide.
    pub fn pending_backend(&self) -> (message: Option<BackendMessage>)
        ensures
            match (message, self@.waiting) {
                (Some(copy), Some(waiting)) => copy@ == waiting@,
                (None, None) => true,
                _ => false,
            },
    {
        match self.hold.pending() {
            Some(message) => Some(message.duplicate()),
            None => None,
        }
    }

    /// Carries out the boundary's decision on the waiting response.
    ///
    /// # Errors
    ///
    /// An expansion needs a response, and holding needs bounds; otherwise the source
    /// keeps waiting.
    pub fn decide_backend<M, T>(&mut self, output: BackendMiddlewareOutput) -> (result: Result<
        BackendDecision,
        ForwardError<M, T>,
    >)
        requires
            old(self)@.waiting is Some,
        ensures
            decides(old(self)@, old(self)@.waiting->0, output, result, final(self)@),
    {
        match output {
            BackendMiddlewareOutput::Forward(message) => {
                let _ = self.hold.take_pending();
                Ok(BackendDecision::Emit(message))
            },
            BackendMiddlewareOutput::Suppress(message) => {
                let _ = self.hold.take_pending();
                Ok(BackendDecision::Advance(message))
            },
            BackendMiddlewareOutput::Expand(messages) => {
                if messages.len() == 0 {
                    let source = match self.hold.pending() {
                        Some(source) => source.duplicate(),
                        None => BackendMessage::NoData,
                    };
                    return Err(ForwardError::EmptyExpansion(source));
                }
                match self.hold.take_pending() {
                    Some(source) => Ok(BackendDecision::EmitAll { source, messages }),
                    None => Ok(BackendDecision::Held),
                }
            },
            BackendMiddlewareOutput::Hold => {
                if self.limits.is_none() {
                    let source = match self.hold.pending() {
                        Some(source) => source.duplicate(),
                        None => BackendMessage::NoData,
                    };
                    return Err(ForwardError::BackendHoldingDisabled(source));
                }
                self.hold.hold_pending();
                Ok(BackendDecision::Held)
            },
        }
    }

    /// Advances the pipeline by a response.
    ///
    /// # Errors
    ///
    /// Returns a response that has to wait, or one that answers nothing.
    pub fn advance_backend<M, T>(&mut self, message: BackendMessage) -> (result: Result<
        BackendMessage,
        ForwardError<M, T>,
    >)
        ensures
            advances(old(self)@, message, result, final(self)@),
    {
        match self.pipeline.accept_backend(message) {
            Ok(BackendAction::Emit(message)) => Ok(message),
            Ok(BackendAction::Deferred(message)) => Err(ForwardError::Deferred(message)),
            Err(error) => Err(ForwardError::Backend(error)),
        }
    }

    /// Replaces the held span, atomically. The messages are then to be sent in order.
    ///
    /// # Errors
    ///
    /// Nothing changes if a replacement cannot be encoded, or if the replacements are
    /// not a legal one-to-one protocol span.
    pub fn release_hold<M, T>(&mut self, messages: Vec<BackendMessage>) -> (result: Result<
        Vec<BackendMessage>,
        ForwardError<M, T>,
    >)
        ensures
            releases(old(self)@, messages, result, final(self)@),
    {
        let mut at: usize = 0;
        while at < messages.len()
            invariant
                at <= messages@.len(),
                *self == *old(self),
                forall|j: int| 0 <= j < at ==> backend_frame((#[trigger] messages@[j])@) is Ok,
            decreases messages@.len() - at,
        {
            match messages[at].to_frame() {
                Ok(_) => {},
                Err(error) => {
                    assert(backend_frame(messages@[at as int]@) == Err::<FrameView, _>(error));
                    return Err(ForwardError::Encoding(error));
                },
            }
            at = at + 1;
        }
        let result = self.pipeline.prepare_backend_replacements(
            self.hold.messages(),
            messages.as_slice(),
        );
        match result {
            Ok(prepared) => {
                self.pipeline = prepared;
                let _ = self.hold.clear();
                Ok(messages)
            },
            Err(cause) => {
                assert(replaces(
                    old(self)@.ledger,
                    views(old(self)@.kept),
                    views(messages@),
                    Err(cause),
                ));
                let error = BackendBatchProjectionError::from(cause);
                assert(error == batch_error(cause));
                Err(ForwardError::BackendBatch { error, proposed: messages })
            },
        }
    }
}

/// No transport is read while a response waits for a decision or the hold is full.
pub proof fn law_full_hold_reads_nothing(state: ForwardingView)
    requires
        state.waiting is Some || state.full(),
    ensures
        state.source() == ForwardSource::PendingBackend || state.source()
            == ForwardSource::FullHold,
{
}

/// While a request is retained the client is not read: PostgreSQL alone is, until
/// the request can be admitted.
pub proof fn law_retained_request_blocks_the_client(state: ForwardingView)
    requires
        state.pending is Some,
    ensures
        state.source() != ForwardSource::Either,
        state.source() == ForwardSource::PendingFrontend ==> state.ledger.refusal(
            state.pending->0,
        ) is None,
{
}

/// A request that is refused changes nothing but that it is retained, unchanged.
pub proof fn law_refused_request_is_retained<M, T>(
    before: ForwardingView,
    message: FrontendMessage,
    result: Result<FrontendForwarding, ForwardError<M, T>>,
    after: ForwardingView,
)
    requires
        admits(before, message, result, after),
        result is Err,
    ensures
        after == (ForwardingView { pending: Some(message@), ..before }),
{
}

/// A response that is held keeps its place behind those held before it, and does not
/// advance the pipeline.
pub proof fn law_held_responses_keep_order<M, T>(
    before: ForwardingView,
    source: BackendMessage,
    result: Result<BackendDecision, ForwardError<M, T>>,
    after: ForwardingView,
)
    requires
        decides(before, source, BackendMiddlewareOutput::Hold, result, after),
        result is Ok,
    ensures
        after.kept == before.kept.push(source),
        after.ledger == before.ledger,
        after.waiting is None,
{
}

/// A released span has one message for each held one, and advances the pipeline just
/// as the held ones would have.
pub proof fn law_release_consumes_the_held_span<M, T>(
    before: ForwardingView,
    messages: Vec<BackendMessage>,
    result: Result<Vec<BackendMessage>, ForwardError<M, T>>,
    after: ForwardingView,
)
    requires
        releases(before, messages, result, after),
        result is Ok,
    ensures
        messages@.len() == before.kept.len(),
        after.ledger == before.ledger.answered_all(views(before.kept)),
        after.kept == Seq::<BackendMessage>::empty(),
{
}

/// A release that fails leaves everything as it was.
pub proof fn law_failed_release_changes_nothing<M, T>(
    before: ForwardingView,
    messages: Vec<BackendMessage>,
    result: Result<Vec<BackendMessage>, ForwardError<M, T>>,
    after: ForwardingView,
)
    requires
        releases(before, messages, result, after),
        result is Err,
    ensures
        after == before,
{
}

/// A synthesized response leaves only when its operation is the oldest outstanding
/// one, unless it belongs to no operation at all.
pub proof fn law_synthesized_responses_await_their_turn(state: ForwardingView)
    requires
        state.next_local().0 is Send,
    ensures
        asynchronous(trimmed(state.local)[0].messages[0]@) || (state.ledger.operations.len() > 0
            && state.ledger.operations[0].id == trimmed(state.local)[0].operation),
{
}

/// Batch policy may decline only a flush that was asked for explicitly.
pub proof fn law_required_flush_cannot_be_declined<M, T>(reason: BackendFlushReason)
    ensures
        kept_outcome::<M, T>(reason) is Ok <==> reason == BackendFlushReason::Explicit,
{
}

/// Every boundary of the protocol forces a flush of what is held before it.
pub proof fn law_barriers_end_held_spans(message: BackendView)
    ensures
        asynchronous(message) ==> barrier(message),
        message is ReadyForQuery || message is ErrorResponse || message is CommandComplete
            ==> barrier(message),
        message is DataRow || message is RowDescription || message is CopyData ==> !barrier(
            message,
        ),
{
}

/// The barriers are the asynchronous messages, the ends of commands, readiness, errors
/// and the ends and beginnings of copies; nothing else is.
pub proof fn law_barriers(message: BackendView)
    ensures
        barrier(message) <==> asynchronous(message) || message is CommandComplete
            || message is PortalSuspended || message is EmptyQueryResponse
            || message is ErrorResponse || message is ReadyForQuery || message is CopyInResponse
            || message is CopyOutResponse || message is CopyBothResponse || message is CopyDone,
{
}

/// What each step works on: first an undecided response, then a full hold, then a
/// retained request if it can be admitted; with one that cannot only PostgreSQL is read,
/// and without one either side.
pub proof fn law_step_sources(state: ForwardingView)
    ensures
        state.source() == ForwardSource::PendingBackend <==> state.waiting is Some,
        state.source() == ForwardSource::FullHold <==> state.waiting is None && state.full(),
        state.source() == ForwardSource::PendingFrontend <==> state.waiting is None && !state.full()
            && state.pending is Some && state.ledger.refusal(state.pending->0) is None,
        state.source() == ForwardSource::Backend <==> state.waiting is None && !state.full()
            && state.pending is Some && state.ledger.refusal(state.pending->0) is Some,
        state.source() == ForwardSource::Either <==> state.waiting is None && !state.full()
            && state.pending is None,
{
}

/// A hold is full once it has as many messages, or as many octets, as its bounds say;
/// without bounds it never is.
pub proof fn law_hold_bounds(state: ForwardingView)
    ensures
        state.limits is None ==> !state.full(),
        state.limits matches Some(limits) ==> (state.full() <==> state.kept.len()
            >= limits.count_limit() || retained_total(state.kept) >= limits.size_limit()),
{
}

/// Synthesized responses leave in order: the next one is the first of the first
/// operation that has any left, and what stays is all the others in their order.
pub proof fn law_synthesized_responses_keep_order(state: ForwardingView, at: int)
    requires
        0 <= at < state.local.len(),
        state.local[at].messages.len() > 0,
        forall|i: int| 0 <= i < at ==> (#[trigger] state.local[i]).messages.len() == 0,
    ensures
        trimmed(state.local) == state.local.skip(at),
        state.next_local().0 matches LocalStep::Send(message) ==> message
            == state.local[at].messages[0] && state.next_local().1.local == state.local.skip(
            at,
        ).update(
            0,
            LocalView {
                operation: state.local[at].operation,
                messages: state.local[at].messages.skip(1),
            },
        ),
        state.next_local().0 is Idle ==> state.next_local().1.local == state.local.skip(at),
        state.next_local().1.ledger == state.ledger.offered(
            Some(state.local[at].operation),
            state.local[at].messages[0]@,
        ),
        state.next_local().1.kept == state.kept,
        state.next_local().1.pending == state.pending,
        state.next_local().1.waiting == state.waiting,
{
    lemma_trimmed(state.local, at);
    assert(state.local.skip(at)[0] == state.local[at]);
}

proof fn lemma_trimmed(local: Seq<LocalView>, at: int)
    requires
        0 <= at < local.len(),
        local[at].messages.len() > 0,
        forall|i: int| 0 <= i < at ==> (#[trigger] local[i]).messages.len() == 0,
    ensures
        trimmed(local) == local.skip(at),
    decreases at,
{
    if at == 0 {
        assert(local.skip(0) =~= local);
    } else {
        let rest = local.skip(1);
        assert(local[0].messages.len() == 0);
        assert(rest[at - 1] == local[at]);
        assert forall|i: int| 0 <= i < at - 1 implies (#[trigger] rest[i]).messages.len() == 0 by {
            assert(rest[i] == local[i + 1]);
        }
        lemma_trimmed(rest, at - 1);
        assert(rest.skip(at - 1) =~= local.skip(at));
    }
}

/// A synthesized response whose turn it is leaves.
pub proof fn law_synthesized_responses_leave_in_turn(state: ForwardingView)
    requires
        trimmed(state.local).len() > 0,
        state.ledger.operations.len() > 0,
        state.ledger.operations[0].id == trimmed(state.local)[0].operation,
        state.ledger.operations[0].origin == crate::pipeline::Origin::Local,
        crate::pipeline::fits(
            state.ledger.operations[0],
            trimmed(state.local)[0].messages[0]@,
        ),
    ensures
        state.next_local().0 is Send,
{
}

/// A request that the ledger takes is recorded and goes on to PostgreSQL, unless it
/// falls to a local rejection, and then it is dropped.
pub proof fn law_admitted_requests_go_on<M, T>(
    before: ForwardingView,
    message: FrontendMessage,
    result: Result<FrontendForwarding, ForwardError<M, T>>,
    after: ForwardingView,
)
    requires
        admits(before, message, result, after),
    ensures
        result is Ok <==> before.ledger.refusal(message@) is None,
        result is Ok ==> after.ledger == before.ledger.admitted(message@, FrontendHandling::Forward)
            && after.pending == before.pending && after.kept == before.kept && after.local
            == before.local && after.waiting == before.waiting,
        result matches Ok(FrontendForwarding::Forwarded(given)) ==> given == message,
        result matches Ok(FrontendForwarding::Suppressed(_)) <==> result is Ok
            && before.ledger.request == (RequestState::ExtendedError { local: true }) && !(
        message@ is Sync),
{
}

/// What a decision does: what is forwarded is emitted, what is suppressed advances the
/// pipeline, what is expanded is emitted in order, and what is held is kept last. A
/// decision that cannot be carried out changes nothing.
pub proof fn law_decisions_are_carried_out<M, T>(
    before: ForwardingView,
    source: BackendMessage,
    output: BackendMiddlewareOutput,
    result: Result<BackendDecision, ForwardError<M, T>>,
    after: ForwardingView,
)
    requires
        decides(before, source, output, result, after),
    ensures
        result is Ok <==> !(output matches BackendMiddlewareOutput::Expand(messages)
            && messages@.len() == 0) && !(output is Hold && before.limits is None),
        result is Err ==> after == before,
        result is Ok ==> after.waiting is None && after.ledger == before.ledger && after.pending
            == before.pending && after.local == before.local && after.limits == before.limits,
        result is Ok && !(output is Hold) ==> after.kept == before.kept,
        result is Ok && output is Hold ==> after.kept == before.kept.push(source) && result->Ok_0
            is Held,
        output matches BackendMiddlewareOutput::Forward(message) ==> result matches Ok(
            BackendDecision::Emit(given),
        ) && given == message,
        output matches BackendMiddlewareOutput::Suppress(message) ==> result matches Ok(
            BackendDecision::Advance(given),
        ) && given == message,
        output matches BackendMiddlewareOutput::Expand(messages) ==> (messages@.len() > 0 ==> (
        result matches Ok(BackendDecision::EmitAll { source: given, messages: all }) && given
            == source && all == messages)),
{
}

/// A response from PostgreSQL advances the ledger and goes on if it is the next one due
/// or asynchronous; otherwise it is deferred or refused, with the ledger as it was.
pub proof fn law_responses_go_on_in_turn<M, T>(
    before: ForwardingView,
    message: BackendMessage,
    result: Result<BackendMessage, ForwardError<M, T>>,
    after: ForwardingView,
)
    requires
        advances(before, message, result, after),
    ensures
        result is Ok <==> asynchronous(message@) || before.ledger.prepared(None, message@) is Emit,
        result matches Ok(given) ==> given == message,
        result matches Err(ForwardError::Deferred(_)) <==> before.ledger.prepared(None, message@)
            == PreparedResponse::Deferred,
        result is Err || asynchronous(message@) ==> after == before,
        after.kept == before.kept && after.pending == before.pending && after.local == before.local,
{
}

/// Why a flush that has to happen cannot be declined.
pub proof fn law_declined_flushes<M, T>()
    ensures
        kept_outcome::<M, T>(BackendFlushReason::Explicit) == Ok::<_, ForwardError<M, T>>(
            BackendBatchForwarding::Kept,
        ),
        kept_outcome::<M, T>(BackendFlushReason::Capacity) == Err::<BackendBatchForwarding, _>(
            ForwardError::<M, T>::BackendHoldCapacity,
        ),
        kept_outcome::<M, T>(BackendFlushReason::ProtocolBarrier) == Err::<
            BackendBatchForwarding,
            _,
        >(ForwardError::<M, T>::BackendHoldRefused),
        kept_outcome::<M, T>(BackendFlushReason::Teardown) == Err::<BackendBatchForwarding, _>(
            ForwardError::<M, T>::BackendHoldRefused,
        ),
{
}

} // verus!
