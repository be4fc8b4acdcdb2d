//! Bounded, payload-free orchestration for proxy request pipelines.
//!
//! The ledger in this module records protocol obligations, not wire messages.
//! Applications retain ownership of decoded messages until [`FrontendAction`] or
//! [`BackendAction`] tells them to forward, emit, retry, or discard the value.
//! [`Pipeline::accept_frontend`] and [`Pipeline::accept_backend`] are the canonical
//! ledger interface. Their typed counterparts additionally hand accepted
//! messages, with their phase, to an interceptor before committing them.
//! Callers receiving [`crate::demux::SessionItem`] values should first consume
//! any pooling or attribution evidence they need, then convert the item with
//! [`crate::demux::SessionItem::into_backend_message`] before backend acceptance.

use std::collections::VecDeque;
use vstd::prelude::*;

use crate::codec::backend::{backend_frame, BackendView};
use crate::codec::frontend::{frontend_frame, FrontendView};
use crate::codec::{BackendMessage, FrontendMessage};
use crate::demux::{asynchronous, next_number, views, Demux};
use crate::grammar::backend;
use crate::middleware::PhaseMessage;

pub mod laws;

verus! {

/// Stable identity of an accepted frontend operation.
#[derive(Clone, Copy, Debug, PartialEq, Eq, PartialOrd, Ord, Hash, Structural)]
pub struct OperationId(u64);

impl OperationId {
    /// The identity of the operation accepted after `number` others.
    pub closed spec fn numbered(number: u64) -> OperationId {
        OperationId(number)
    }
}

/// Pipeline policy which preserves the historical lock-step behaviour.
#[derive(Clone, Copy, Debug, PartialEq, Eq, Structural)]
pub struct NoPipeline;

/// Configuration for a bounded frontend operation pipeline.
#[derive(Clone, Copy, Debug, PartialEq, Eq, Structural)]
pub struct BoundedPipeline {
    max_operations: usize,
}

/// A zero operation-count limit is not a usable pipeline configuration.
#[derive(Clone, Copy, Debug, PartialEq, Eq, Structural)]
pub struct PipelineConfigError;

impl BoundedPipeline {
    /// The maximum number of incomplete operations.
    pub closed spec fn limit(self) -> nat {
        self.max_operations as nat
    }

    /// Creates a pipeline with a non-zero operation-count limit.
    ///
    /// # Errors
    ///
    /// Returns an error when `max_operations` is zero.
    pub fn new(max_operations: usize) -> (result: Result<BoundedPipeline, PipelineConfigError>)
        ensures
            match result {
                Ok(policy) => max_operations > 0 && policy.limit() == max_operations,
                Err(_) => max_operations == 0,
            },
    {
        if max_operations == 0 {
            return Err(PipelineConfigError);
        }
        Ok(BoundedPipeline { max_operations })
    }

    /// Returns the maximum number of incomplete operations.
    pub fn max_operations(self) -> (limit: usize)
        ensures
            limit == self.limit(),
    {
        self.max_operations
    }
}

impl PipelineConfigError {
    /// Explains the failure.
    pub fn message(&self) -> (message: &'static str)
        ensures
            message@ == "pipeline operation limit must be non-zero"@,
    {
        "pipeline operation limit must be non-zero"
    }
}

/// Configuration accepted by [`Pipeline`].
pub trait PipelinePolicy: Copy {
    /// Maximum number of incomplete operation records.
    spec fn operations(self) -> nat;

    /// Maximum number of incomplete operation records.
    fn operation_limit(self) -> (limit: usize)
        ensures
            limit == self.operations(),
    ;
}

impl PipelinePolicy for NoPipeline {
    open spec fn operations(self) -> nat {
        1
    }

    fn operation_limit(self) -> (limit: usize) {
        1
    }
}

impl PipelinePolicy for BoundedPipeline {
    open spec fn operations(self) -> nat {
        self.limit()
    }

    fn operation_limit(self) -> (limit: usize) {
        self.max_operations
    }
}

/// Whether an accepted frontend operation is locally handled or forwarded.
#[derive(Clone, Copy, Debug, PartialEq, Eq, Structural)]
pub enum FrontendHandling {
    /// Send the returned message to the upstream connection.
    Forward,
    /// Do not send the request upstream; application code will synthesize its response.
    Local,
}

/// Application action for one successfully projected frontend message.
#[derive(Debug, PartialEq, Eq)]
pub enum FrontendAction {
    /// Forward the owned message upstream.
    Forward {
        /// Accepted operation identity.
        id: OperationId,
        /// Original, unretained frontend message.
        message: FrontendMessage,
    },
    /// The operation is not sent upstream and the message can be discarded.
    Discard {
        /// Accepted operation identity.
        id: OperationId,
    },
}

/// Position of a successfully accepted operation.
#[derive(Debug, PartialEq, Eq)]
pub enum FrontendAdmission {
    /// Nothing earlier prevents this operation's response from being emitted.
    Immediate(FrontendAction),
    /// The operation was accepted but an earlier response must be emitted first.
    Waiting(FrontendAction),
}

impl FrontendAdmission {
    /// The action, whatever the position.
    pub open spec fn action(self) -> FrontendAction {
        match self {
            FrontendAdmission::Immediate(action) => action,
            FrontendAdmission::Waiting(action) => action,
        }
    }

    /// Returns the application action, discarding only the positional annotation.
    pub fn into_action(self) -> (action: FrontendAction)
        ensures
            action == self.action(),
    {
        match self {
            FrontendAdmission::Immediate(action) => action,
            FrontendAdmission::Waiting(action) => action,
        }
    }
}

/// Why a frontend message could not be accepted.
#[derive(Debug, PartialEq, Eq)]
pub enum FrontendProjectionError {
    /// The bounded ledger is full; the unchanged message may be retried.
    Capacity(Box<FrontendMessage>),
    /// The message is not legal in the projected frontend protocol state.
    Illegal {
        /// Projected state at rejection.
        state: PipelineState,
        /// Unchanged illegal message.
        message: Box<FrontendMessage>,
    },
}

/// Application action for a backend message.
#[derive(Debug, PartialEq, Eq)]
pub enum BackendAction {
    /// Emit this owned message to the downstream client now.
    Emit(BackendMessage),
    /// An earlier operation must complete; retry this unchanged message later.
    Deferred(BackendMessage),
}

/// A backend message was not legal for any outstanding operation.
#[derive(Debug, PartialEq, Eq)]
pub struct BackendProjectionError {
    /// Current response-side state.
    pub state: PipelineState,
    /// Unchanged illegal message.
    pub message: BackendMessage,
}

/// Why an ordered replacement of backend messages was not prepared.
#[derive(Clone, Copy, Debug, PartialEq, Eq, Structural)]
pub enum BackendSequenceError {
    /// The numbers of sources and replacements differ.
    Cardinality {
        /// Number of sources.
        expected: usize,
        /// Number of replacements.
        actual: usize,
    },
    /// The source at this position was not attributable.
    Source(usize),
    /// The replacement at this position was illegal or not reconstructable.
    Replacement(usize),
    /// The replacements would consume a different protocol span than the sources.
    DifferentSpan,
}

/// Public summary of the pipeline's projected frontend state.
#[derive(Clone, Copy, Debug, PartialEq, Eq, Structural)]
pub enum PipelineState {
    /// A simple or extended cycle may begin.
    Ready,
    /// Extended-query messages are being accepted.
    Extended,
    /// An extended error discards messages through `Sync`.
    ExtendedError,
    /// COPY IN accepts frontend data.
    CopyIn,
    /// COPY OUT accepts only backend data.
    CopyOut,
    /// COPY BOTH accepts data in both directions.
    CopyBoth,
    /// The connection has terminated.
    Terminated,
}

/// Error returned while dispatching a pipeline message through an interceptor.
#[derive(Debug)]
pub enum PipelineMiddlewareError<MiddlewareError, ProjectionError> {
    /// The interceptor rejected the message.
    Middleware(MiddlewareError),
    /// The pipeline rejected the original or rewritten message.
    Projection(ProjectionError),
}

/// Adapts direction-wide middleware to every typed pipeline hook.
pub struct PipelineWireAdapter<Handler> {
    handler: Handler,
}

impl<Handler> PipelineWireAdapter<Handler> {
    /// The wrapped middleware.
    pub closed spec fn wrapped(self) -> Handler {
        self.handler
    }

    /// Wraps direction-wide middleware for runtime phase dispatch.
    pub fn new(handler: Handler) -> (adapter: Self)
        ensures
            adapter.wrapped() == handler,
    {
        PipelineWireAdapter { handler }
    }

    /// Mutably borrows the wrapped direction-wide middleware.
    pub fn handler_mut(&mut self) -> (handler: &mut Handler)
        ensures
            *handler == old(self).wrapped(),
            final(self).wrapped() == *final(handler),
    {
        &mut self.handler
    }

    /// Returns the wrapped direction-wide middleware.
    pub fn into_inner(self) -> (handler: Handler)
        ensures
            handler == self.wrapped(),
    {
        self.handler
    }
}

/// Failure from direction-wide middleware adapted to typed pipeline dispatch.
#[derive(Debug)]
pub enum FrontendPipelineWireAdapterError<Error> {
    /// The wrapped middleware rejected a message.
    Middleware(Error),
    /// The wrapped middleware returned a frontend message illegal in the selected phase.
    IllegalFrontend(FrontendMessage),
}

/// Failure from backend wire middleware adapted to typed pipeline dispatch.
#[derive(Debug)]
pub enum BackendPipelineWireAdapterError<Error> {
    /// The wrapped middleware rejected a message.
    Middleware(Error),
    /// The wrapped middleware returned a message illegal in the selected phase.
    Illegal(BackendMessage),
}

/// Projects what direction-wide middleware returned back into the selected phase.
///
/// # Errors
///
/// Returns the middleware's error, or a replacement that is illegal in the phase.
pub fn adapt_frontend<Message: PhaseMessage<FrontendMessage>, Error>(
    outcome: Result<FrontendMessage, Error>,
) -> (result: Result<Message, FrontendPipelineWireAdapterError<Error>>)
    ensures
        match outcome {
            Ok(wire) => if Message::admissible(wire) {
                result matches Ok(message) && message.wire_message() == wire
            } else {
                result == Err::<Message, _>(
                    FrontendPipelineWireAdapterError::<Error>::IllegalFrontend(wire),
                )
            },
            Err(error) => result == Err::<Message, _>(
                FrontendPipelineWireAdapterError::Middleware(error),
            ),
        },
{
    match outcome {
        Ok(wire) => match Message::try_from_wire(wire) {
            Ok(message) => Ok(message),
            Err(wire) => Err(FrontendPipelineWireAdapterError::IllegalFrontend(wire)),
        },
        Err(error) => Err(FrontendPipelineWireAdapterError::Middleware(error)),
    }
}

/// Projects what direction-wide middleware returned back into the selected phase.
///
/// # Errors
///
/// Returns the middleware's error, or a replacement that is illegal in the phase.
pub fn adapt_backend<Message: PhaseMessage<BackendMessage>, Error>(
    outcome: Result<BackendMessage, Error>,
) -> (result: Result<Message, BackendPipelineWireAdapterError<Error>>)
    ensures
        match outcome {
            Ok(wire) => if Message::admissible(wire) {
                result matches Ok(message) && message.wire_message() == wire
            } else {
                result == Err::<Message, _>(
                    BackendPipelineWireAdapterError::<Error>::Illegal(wire),
                )
            },
            Err(error) => result == Err::<Message, _>(
                BackendPipelineWireAdapterError::Middleware(error),
            ),
        },
{
    match outcome {
        Ok(wire) => match Message::try_from_wire(wire) {
            Ok(message) => Ok(message),
            Err(wire) => Err(BackendPipelineWireAdapterError::Illegal(wire)),
        },
        Err(error) => Err(BackendPipelineWireAdapterError::Middleware(error)),
    }
}

/// Phase that an accepted frontend message is handed to an interceptor with.
#[derive(Clone, Copy, Debug, PartialEq, Eq, Structural)]
pub enum FrontendPhase {
    Ready,
    Building,
    ExtendedError,
    SimpleCopyIn,
    ExtendedCopyIn,
    SimpleCopyBoth,
    ExtendedCopyBoth,
}

/// Projection of the frontend messages accepted so far.
#[derive(Clone, Copy, Debug, PartialEq, Eq, Structural)]
pub enum RequestState {
    Ready,
    Extended { bound: bool },
    /// Messages up to `Sync` are discarded: by the upstream that failed, or, if
    /// `local`, here, because the upstream knows of no failure.
    ExtendedError { local: bool },
    CopyIn,
    CopyOut,
    CopyBoth,
    Terminated,
}

/// Who answers an operation.
#[derive(Clone, Copy, Debug, PartialEq, Eq, Structural)]
pub enum Origin {
    Forwarded,
    Local,
}

/// Kind of an accepted frontend operation.
#[derive(Clone, Copy, Debug, PartialEq, Eq, Structural)]
pub enum OperationKind {
    Query,
    FunctionCall,
    Parse,
    Bind,
    Describe,
    Execute,
    Close,
    Flush,
    Sync,
    CopyData,
    CopyDone,
    CopyFail,
    Terminate,
}

/// Record of one accepted operation that is not complete.
#[derive(Clone, Copy, Debug, PartialEq, Eq, Structural)]
pub struct Operation {
    pub id: OperationId,
    pub kind: OperationKind,
    pub origin: Origin,
    /// No response is owed: the operation falls to an earlier error.
    pub discarded: bool,
    /// Backend grammar phase that its responses have reached.
    pub response_state: backend::RuntimeState,
}

/// What may be done with a response at this point.
#[derive(Clone, Copy, Debug, PartialEq, Eq, Structural)]
pub enum PreparedResponse {
    /// Independent of the ledger; emit without advancing it.
    Asynchronous,
    /// Emit; it advances the head, whose responses are in `phase`.
    Emit { phase: backend::RuntimeState },
    /// It belongs behind another response.
    Deferred,
    /// It belongs to no outstanding operation.
    Illegal,
}

/// Why a frontend message was refused.
#[derive(Clone, Copy, Debug, PartialEq, Eq, Structural)]
pub enum FrontendRefusal {
    Capacity,
    Illegal,
}

impl RequestState {
    /// Public summary of the projection.
    pub open spec fn summary(self) -> PipelineState {
        match self {
            RequestState::Ready => PipelineState::Ready,
            RequestState::Extended { .. } => PipelineState::Extended,
            RequestState::ExtendedError { .. } => PipelineState::ExtendedError,
            RequestState::CopyIn => PipelineState::CopyIn,
            RequestState::CopyOut => PipelineState::CopyOut,
            RequestState::CopyBoth => PipelineState::CopyBoth,
            RequestState::Terminated => PipelineState::Terminated,
        }
    }

    /// The frontend owes copy data.
    pub open spec fn copying(self) -> bool {
        self == RequestState::CopyIn || self == RequestState::CopyBoth
    }

    /// The backend grammar phase whose peer events are legal here.
    pub open spec fn phase(self) -> backend::RuntimeState {
        match self {
            RequestState::Ready => backend::RuntimeState::Ready,
            RequestState::Extended { .. } => backend::RuntimeState::Building,
            RequestState::ExtendedError { .. } => backend::RuntimeState::ExtendedError,
            RequestState::CopyIn => backend::RuntimeState::ExtendedCopyIn,
            RequestState::CopyOut => backend::RuntimeState::ExtendedCopyOut,
            RequestState::CopyBoth => backend::RuntimeState::ExtendedCopyBoth,
            RequestState::Terminated => backend::RuntimeState::Terminated,
        }
    }

    fn public(self) -> (state: PipelineState)
        ensures
            state == self.summary(),
    {
        match self {
            RequestState::Ready => PipelineState::Ready,
            RequestState::Extended { .. } => PipelineState::Extended,
            RequestState::ExtendedError { .. } => PipelineState::ExtendedError,
            RequestState::CopyIn => PipelineState::CopyIn,
            RequestState::CopyOut => PipelineState::CopyOut,
            RequestState::CopyBoth => PipelineState::CopyBoth,
            RequestState::Terminated => PipelineState::Terminated,
        }
    }

    fn is_copying(self) -> (result: bool)
        ensures
            result == self.copying(),
    {
        match self {
            RequestState::CopyIn | RequestState::CopyBoth => true,
            _ => false,
        }
    }
}

/// Kind of an operation that an extended error discards.
pub open spec fn discard_kind(message: FrontendView) -> Option<OperationKind> {
    match message {
        FrontendView::Parse(_) => Some(OperationKind::Parse),
        FrontendView::Bind(_) => Some(OperationKind::Bind),
        FrontendView::Describe(_) => Some(OperationKind::Describe),
        FrontendView::Execute(_) => Some(OperationKind::Execute),
        FrontendView::Close(_) => Some(OperationKind::Close),
        FrontendView::Flush => Some(OperationKind::Flush),
        FrontendView::Query(_) => Some(OperationKind::Query),
        FrontendView::FunctionCall(_) => Some(OperationKind::FunctionCall),
        FrontendView::CopyData(_) => Some(OperationKind::CopyData),
        FrontendView::CopyDone => Some(OperationKind::CopyDone),
        FrontendView::CopyFail(_) => Some(OperationKind::CopyFail),
        FrontendView::Terminate => Some(OperationKind::Terminate),
        _ => None,
    }
}

/// Kind of the operation that a message requests, and the projection after it.
pub open spec fn classified(state: RequestState, message: FrontendView) -> Option<
    (OperationKind, RequestState),
> {
    match state {
        RequestState::Ready => match message {
            FrontendView::Query(_) => Some((OperationKind::Query, RequestState::Ready)),
            FrontendView::FunctionCall(_) => Some(
                (OperationKind::FunctionCall, RequestState::Ready),
            ),
            FrontendView::Parse(_) => Some(
                (OperationKind::Parse, RequestState::Extended { bound: false }),
            ),
            FrontendView::Bind(_) => Some(
                (OperationKind::Bind, RequestState::Extended { bound: true }),
            ),
            FrontendView::Describe(_) => Some(
                (OperationKind::Describe, RequestState::Extended { bound: false }),
            ),
            FrontendView::Execute(_) => Some(
                (OperationKind::Execute, RequestState::Extended { bound: true }),
            ),
            FrontendView::Close(_) => Some(
                (OperationKind::Close, RequestState::Extended { bound: false }),
            ),
            FrontendView::Terminate => Some((OperationKind::Terminate, RequestState::Terminated)),
            _ => None,
        },
        RequestState::Extended { bound } => match message {
            FrontendView::Parse(_) => Some((OperationKind::Parse, state)),
            FrontendView::Bind(_) => Some(
                (OperationKind::Bind, RequestState::Extended { bound: true }),
            ),
            FrontendView::Describe(_) => Some((OperationKind::Describe, state)),
            FrontendView::Execute(_) => Some(
                (OperationKind::Execute, RequestState::Extended { bound: true }),
            ),
            FrontendView::Close(_) => Some((OperationKind::Close, state)),
            FrontendView::Flush => Some((OperationKind::Flush, state)),
            FrontendView::Sync => Some((OperationKind::Sync, RequestState::Ready)),
            _ => None,
        },
        RequestState::ExtendedError { .. } => match message {
            FrontendView::Sync => Some((OperationKind::Sync, RequestState::Ready)),
            _ => match discard_kind(message) {
                Some(kind) => Some((kind, state)),
                None => None,
            },
        },
        RequestState::CopyIn => match message {
            FrontendView::CopyData(_) => Some((OperationKind::CopyData, RequestState::CopyIn)),
            FrontendView::CopyDone => Some(
                (OperationKind::CopyDone, RequestState::Extended { bound: true }),
            ),
            FrontendView::CopyFail(_) => Some(
                (OperationKind::CopyFail, RequestState::ExtendedError { local: false }),
            ),
            _ => None,
        },
        RequestState::CopyBoth => match message {
            FrontendView::CopyData(_) => Some((OperationKind::CopyData, RequestState::CopyBoth)),
            FrontendView::CopyDone => Some((OperationKind::CopyDone, RequestState::CopyBoth)),
            _ => None,
        },
        RequestState::CopyOut => None,
        RequestState::Terminated => None,
    }
}

/// Phase in which an operation's first response is due.
pub open spec fn first_phase(kind: OperationKind) -> backend::RuntimeState {
    match kind {
        OperationKind::Query => backend::RuntimeState::Simple,
        OperationKind::FunctionCall => backend::RuntimeState::FunctionResponse,
        OperationKind::Parse => backend::RuntimeState::ParseResponse,
        OperationKind::Bind => backend::RuntimeState::BindResponse,
        OperationKind::Describe => backend::RuntimeState::DescribeResponse,
        OperationKind::Execute => backend::RuntimeState::ExecuteResponse,
        OperationKind::Close => backend::RuntimeState::CloseResponse,
        OperationKind::Sync => backend::RuntimeState::SyncResponse,
        _ => backend::RuntimeState::Terminated,
    }
}

/// The message may be the next response to the operation.
pub open spec fn fits(operation: Operation, message: BackendView) -> bool {
    backend::internal_event(operation.response_state, message) is Some
}

/// Phase of the operation's responses after this one.
pub open spec fn response_target(
    phase: backend::RuntimeState,
    message: BackendView,
) -> backend::RuntimeState {
    backend::allowed(phase, backend::internal_event(phase, message)->Some_0)->Some_0.target
}

/// The message is the last response to an operation of this kind.
pub open spec fn completes(kind: OperationKind, message: BackendView) -> bool {
    match kind {
        OperationKind::Query | OperationKind::FunctionCall | OperationKind::Sync =>
            message is ReadyForQuery,
        OperationKind::Parse => message is ParseComplete || message is ErrorResponse,
        OperationKind::Bind => message is BindComplete || message is ErrorResponse,
        OperationKind::Describe => message is RowDescription || message is NoData
            || message is ErrorResponse,
        OperationKind::Execute => message is CommandComplete || message is PortalSuspended
            || message is ErrorResponse,
        OperationKind::Close => message is CloseComplete || message is ErrorResponse,
        OperationKind::CopyDone => message is CopyDone || message is CommandComplete
            || message is ErrorResponse,
        OperationKind::CopyFail => message is ErrorResponse,
        OperationKind::Flush | OperationKind::CopyData | OperationKind::Terminate => true,
    }
}

/// Kinds whose failure discards what follows up to `Sync`.
pub open spec fn extended_kind(kind: OperationKind) -> bool {
    !(kind == OperationKind::Query || kind == OperationKind::FunctionCall || kind
        == OperationKind::Terminate)
}

/// Kinds that never await a response of their own.
pub open spec fn silent_kind(kind: OperationKind) -> bool {
    kind == OperationKind::Flush || kind == OperationKind::CopyData || kind
        == OperationKind::CopyDone || kind == OperationKind::CopyFail || kind
        == OperationKind::Terminate
}

/// The operation awaits no response.
pub open spec fn inert(operation: Operation) -> bool {
    operation.discarded || silent_kind(operation.kind)
}

/// A `Sync` that the upstream will answer.
pub open spec fn live_sync(operation: Operation) -> bool {
    operation.kind == OperationKind::Sync && !operation.discarded
}

/// An operation of an extended cycle that still awaits its response.
pub open spec fn live_cycle(operation: Operation) -> bool {
    !operation.discarded && (operation.kind == OperationKind::Parse || operation.kind
        == OperationKind::Bind || operation.kind == OperationKind::Describe || operation.kind
        == OperationKind::Execute || operation.kind == OperationKind::Close || operation.kind
        == OperationKind::Sync)
}

pub open spec fn any_live_sync(operations: Seq<Operation>) -> bool {
    exists|i: int| 0 <= i < operations.len() && live_sync(#[trigger] operations[i])
}

/// The last extended operation that awaits its response is not a `Sync`: a cycle
/// was begun that no `Sync` ends yet.
pub open spec fn open_cycle(operations: Seq<Operation>) -> bool
    decreases operations.len(),
{
    operations.len() > 0 && !live_sync(operations.last()) && (live_cycle(operations.last())
        || open_cycle(operations.drop_last()))
}

/// A `Sync` that will be answered stands at or before position `at`.
pub open spec fn synced_before(operations: Seq<Operation>, at: int) -> bool {
    exists|i: int| 0 <= i <= at && i < operations.len() && live_sync(#[trigger] operations[i])
}

/// The operations up to the first answered `Sync` await no response any more.
pub open spec fn discarded_to_sync(operations: Seq<Operation>) -> Seq<Operation> {
    Seq::new(
        operations.len(),
        |i: int|
            Operation {
                discarded: operations[i].discarded || !synced_before(operations, i),
                ..operations[i]
            },
    )
}

/// No `Sync` awaits a response any more: a server that entered COPY IN ignores
/// those that were sent before the copy ended.
pub open spec fn syncs_absorbed(operations: Seq<Operation>) -> Seq<Operation> {
    Seq::new(
        operations.len(),
        |i: int|
            Operation {
                discarded: operations[i].discarded || operations[i].kind == OperationKind::Sync,
                ..operations[i]
            },
    )
}

/// The operations from the first one on that awaits a response.
pub open spec fn awaiting(operations: Seq<Operation>) -> Seq<Operation>
    decreases operations.len(),
{
    if operations.len() > 0 && inert(operations[0]) {
        awaiting(operations.skip(1))
    } else {
        operations
    }
}

/// Projection that a response phase imposes, if it is a copy phase.
pub open spec fn copy_projection(phase: backend::RuntimeState) -> Option<RequestState> {
    match phase {
        backend::RuntimeState::SimpleCopyIn | backend::RuntimeState::ExtendedCopyIn => Some(
            RequestState::CopyIn,
        ),
        backend::RuntimeState::SimpleCopyOut | backend::RuntimeState::ExtendedCopyOut => Some(
            RequestState::CopyOut,
        ),
        backend::RuntimeState::SimpleCopyBoth
        | backend::RuntimeState::SimpleCopyBothClientDone
        | backend::RuntimeState::SimpleCopyBothServerDone
        | backend::RuntimeState::ExtendedCopyBoth
        | backend::RuntimeState::ExtendedCopyBothClientDone
        | backend::RuntimeState::ExtendedCopyBothServerDone => Some(RequestState::CopyBoth),
        _ => None,
    }
}

/// What a ledger records.
#[verifier::ext_equal]
pub struct Ledger {
    /// Accepted operations that are not complete, oldest first.
    pub operations: Seq<Operation>,
    /// Projection of the accepted frontend messages.
    pub request: RequestState,
    /// Copy state announced by the responses to the head, if any.
    pub response: Option<PipelineState>,
    /// Identity of the next operation.
    pub next_id: u64,
    /// Largest number of operations outside a copy.
    pub limit: nat,
}

/// Phases that the responses to an operation of this kind can be in.
pub open spec fn phase_fits_kind(kind: OperationKind, phase: backend::RuntimeState) -> bool {
    match kind {
        OperationKind::Query => match phase {
            backend::RuntimeState::Simple
            | backend::RuntimeState::SimpleError
            | backend::RuntimeState::SimpleCopyIn
            | backend::RuntimeState::SimpleCopyInDone
            | backend::RuntimeState::SimpleCopyInFailed
            | backend::RuntimeState::SimpleCopyOut
            | backend::RuntimeState::SimpleCopyOutDone
            | backend::RuntimeState::SimpleCopyReady
            | backend::RuntimeState::SimpleCopyBoth
            | backend::RuntimeState::SimpleCopyBothClientDone
            | backend::RuntimeState::SimpleCopyBothServerDone
            | backend::RuntimeState::SimpleCopyBothDone
            | backend::RuntimeState::SimpleCopyBothFailed => true,
            _ => false,
        },
        OperationKind::Execute => match phase {
            backend::RuntimeState::ExecuteResponse
            | backend::RuntimeState::ExtendedCopyIn
            | backend::RuntimeState::ExtendedCopyInDone
            | backend::RuntimeState::ExtendedCopyInFailed
            | backend::RuntimeState::ExtendedCopyOut
            | backend::RuntimeState::ExtendedCopyOutDone
            | backend::RuntimeState::ExtendedCopyBoth
            | backend::RuntimeState::ExtendedCopyBothClientDone
            | backend::RuntimeState::ExtendedCopyBothServerDone
            | backend::RuntimeState::ExtendedCopyBothDone
            | backend::RuntimeState::ExtendedCopyBothFailed => true,
            _ => false,
        },
        OperationKind::FunctionCall => phase == backend::RuntimeState::FunctionResponse || phase
            == backend::RuntimeState::FunctionReady,
        _ => phase == first_phase(kind),
    }
}

/// Phases in which a copy towards the frontend flows or may still begin.
pub open spec fn before_copy(phase: backend::RuntimeState) -> bool {
    match phase {
        backend::RuntimeState::Simple
        | backend::RuntimeState::SimpleCopyOut
        | backend::RuntimeState::ExecuteResponse
        | backend::RuntimeState::ExtendedCopyOut => true,
        _ => false,
    }
}

/// The public state announces a copy that takes data from the frontend.
pub open spec fn copy_accepted(state: PipelineState) -> bool {
    state == PipelineState::CopyIn || state == PipelineState::CopyBoth
}

impl Ledger {
    /// Every response phase belongs to its operation's kind; the head awaits a
    /// response; and copy data is owed only while the head is a copy, which the
    /// public state shows.
    pub open spec fn sound(self) -> bool {
        &&& forall|i: int|
            0 <= i < self.operations.len() ==> phase_fits_kind(
                (#[trigger] self.operations[i]).kind,
                self.operations[i].response_state,
            )
        &&& self.operations.len() > 0 ==> !inert(self.operations[0])
        &&& self.request.copying() ==> self.operations.len() > 0 && (self.operations[0].kind
            == OperationKind::Query || self.operations[0].kind == OperationKind::Execute)
            && !before_copy(self.operations[0].response_state) && copy_accepted(self.state())
        &&& self.request != RequestState::CopyOut
    }

    /// Public summary of the state.
    pub open spec fn state(self) -> PipelineState {
        match self.response {
            Some(state) => state,
            None => self.request.summary(),
        }
    }

    /// No further operation is recorded while the public state announces no copy
    /// that takes data from the frontend.
    pub open spec fn full(self) -> bool {
        self.operations.len() == self.limit && !copy_accepted(self.state())
    }

    /// Why a frontend message would be refused now, if it would.
    pub open spec fn refusal(self, message: FrontendView) -> Option<FrontendRefusal> {
        if self.operations.len() == self.limit && !self.request.copying() {
            Some(FrontendRefusal::Capacity)
        } else if backend::external_event(self.request.phase(), message) is None || classified(
            self.request,
            message,
        ) is None {
            Some(FrontendRefusal::Illegal)
        } else {
            None
        }
    }

    /// Phase in which an accepted message is intercepted.
    pub open spec fn interception(self) -> FrontendPhase {
        let head = if self.operations.len() > 0 {
            Some(self.operations[0].kind)
        } else {
            None
        };
        intercepted_in(self.request, head)
    }

    /// The message falls to a local rejection and must not reach the upstream.
    pub open spec fn dropped(self, message: FrontendView) -> bool {
        self.request == (RequestState::ExtendedError { local: true }) && !(message is Sync)
    }

    /// The message is sent upstream.
    pub open spec fn forwards(self, message: FrontendView, handling: FrontendHandling) -> bool {
        handling == FrontendHandling::Forward && !self.dropped(message)
    }

    /// The head's response phase moved on by copy data from the frontend.
    pub open spec fn head_fed(self, message: FrontendView) -> Seq<Operation> {
        if self.operations.len() == 0 {
            self.operations
        } else {
            let head = self.operations[0];
            match backend::external_event(head.response_state, message) {
                None => self.operations,
                Some(event) => match backend::allowed(head.response_state, event) {
                    None => self.operations,
                    Some(transition) => self.operations.update(
                        0,
                        Operation { response_state: transition.target, ..head },
                    ),
                },
            }
        }
    }

    /// The ledger after a message that is not refused.
    pub open spec fn admitted(self, message: FrontendView, handling: FrontendHandling) -> Ledger {
        let (kind, request) = classified(self.request, message)->Some_0;
        let operation = Operation {
            id: OperationId::numbered(self.next_id),
            kind,
            origin: if self.forwards(message, handling) {
                Origin::Forwarded
            } else {
                Origin::Local
            },
            discarded: request is ExtendedError && kind != OperationKind::Sync,
            response_state: first_phase(kind),
        };
        Ledger {
            operations: awaiting(self.head_fed(message).push(operation)),
            request,
            next_id: next_number(self.next_id),
            ..self
        }
    }

    /// What may be done with a response now: with one from upstream, or with one
    /// synthesized for the operation `local`.
    pub open spec fn prepared(
        self,
        local: Option<OperationId>,
        message: BackendView,
    ) -> PreparedResponse {
        if asynchronous(message) {
            PreparedResponse::Asynchronous
        } else if self.operations.len() == 0 {
            PreparedResponse::Illegal
        } else {
            let head = self.operations[0];
            if local matches Some(id) && head.id != id {
                PreparedResponse::Deferred
            } else if local is Some && head.origin != Origin::Local {
                PreparedResponse::Illegal
            } else if local is None && head.origin == Origin::Local {
                if exists|i: int|
                    1 <= i < self.operations.len() && (#[trigger] self.operations[i]).origin
                        == Origin::Forwarded && fits(self.operations[i], message) {
                    PreparedResponse::Deferred
                } else {
                    PreparedResponse::Illegal
                }
            } else if !fits(head, message) {
                if exists|i: int|
                    1 <= i < self.operations.len() && fits(
                        #[trigger] self.operations[i],
                        message,
                    ) {
                    PreparedResponse::Deferred
                } else {
                    PreparedResponse::Illegal
                }
            } else {
                PreparedResponse::Emit { phase: head.response_state }
            }
        }
    }

    /// Projection once the head is complete. A local rejection that waits for its
    /// turn stays in force, and a `Sync` rewinds nothing that was accepted after it.
    pub open spec fn completed_request(self, failed: bool) -> RequestState {
        let head = self.operations[0];
        let rest = self.operations.skip(1);
        if failed {
            if any_live_sync(rest) && !self.request.copying() {
                self.request
            } else {
                RequestState::ExtendedError { local: head.origin == Origin::Local }
            }
        } else if self.request == (RequestState::ExtendedError { local: true }) {
            self.request
        } else {
            match head.kind {
                OperationKind::Query => RequestState::Ready,
                OperationKind::Sync => if open_cycle(rest) || self.request
                    == RequestState::Terminated {
                    self.request
                } else {
                    RequestState::Ready
                },
                OperationKind::Execute => RequestState::Extended { bound: true },
                _ => self.request,
            }
        }
    }

    /// The ledger after a response to the head.
    pub open spec fn answered(self, message: BackendView) -> Ledger {
        let head = self.operations[0];
        let rest = self.operations.skip(1);
        let target = response_target(head.response_state, message);
        if completes(head.kind, message) {
            let failed = message is ErrorResponse && extended_kind(head.kind);
            Ledger {
                operations: awaiting(
                    if failed {
                        discarded_to_sync(rest)
                    } else {
                        rest
                    },
                ),
                request: self.completed_request(failed),
                response: None,
                ..self
            }
        } else {
            Ledger {
                operations: seq![Operation { response_state: target, ..head }] + (if target
                    == backend::RuntimeState::ExtendedCopyIn {
                    syncs_absorbed(rest)
                } else {
                    rest
                }),
                request: match copy_projection(target) {
                    Some(RequestState::CopyIn) => RequestState::CopyIn,
                    Some(RequestState::CopyBoth) => RequestState::CopyBoth,
                    _ => self.request,
                },
                response: match copy_projection(target) {
                    Some(state) => Some(state.summary()),
                    None => None,
                },
                ..self
            }
        }
    }

    /// The operation at `at` is local, awaits a response, and would fail its
    /// extended cycle with this message, in which no answered `Sync` follows it.
    pub open spec fn rejects(self, at: int, message: BackendView) -> bool {
        let operation = self.operations[at];
        &&& operation.origin == Origin::Local
        &&& !inert(operation)
        &&& extended_kind(operation.kind)
        &&& message is ErrorResponse
        &&& fits(operation, message)
        &&& forall|i: int| at < i < self.operations.len() ==> !live_sync(#[trigger] self.operations[i])
    }

    /// The ledger after a synthesized response that has to wait. A rejection
    /// takes effect on what is accepted after it.
    pub open spec fn registered(self, id: OperationId, message: BackendView) -> Ledger {
        if self.request is Extended && exists|i: int|
            0 <= i < self.operations.len() && (#[trigger] self.operations[i]).id == id
                && self.rejects(i, message) {
            Ledger { request: RequestState::ExtendedError { local: true }, ..self }
        } else {
            self
        }
    }

    /// The ledger after a response is offered.
    pub open spec fn offered(self, local: Option<OperationId>, message: BackendView) -> Ledger {
        match self.prepared(local, message) {
            PreparedResponse::Emit { .. } => self.answered(message),
            PreparedResponse::Deferred => match local {
                Some(id) => self.registered(id, message),
                None => self,
            },
            _ => self,
        }
    }

    /// The ledger after one response from upstream.
    #[verifier::opaque]
    pub open spec fn stepped(self, message: BackendView) -> Ledger {
        self.offered(None, message)
    }

    /// The message can be emitted now.
    #[verifier::opaque]
    pub open spec fn emits(self, message: BackendView) -> bool {
        match self.prepared(None, message) {
            PreparedResponse::Asynchronous | PreparedResponse::Emit { .. } => true,
            _ => false,
        }
    }

    /// The ledger after upstream responses that can all be emitted in order.
    pub open spec fn answered_all(self, messages: Seq<BackendView>) -> Ledger
        decreases messages.len(),
    {
        if messages.len() == 0 {
            self
        } else {
            self.answered_all(messages.drop_last()).stepped(messages.last())
        }
    }

    /// The first responses up to `count` can all be emitted in order.
    pub open spec fn emits_first(self, messages: Seq<BackendView>, count: int) -> bool {
        forall|i: int|
            0 <= i < count ==> self.answered_all(#[trigger] messages.take(i)).emits(messages[i])
    }
}


/// A bounded ledger coordinating independently owned frontend and backend values.
#[derive(Debug)]
pub struct Pipeline<P: PipelinePolicy = NoPipeline> {
    policy: P,
    operations: VecDeque<Operation>,
    request_state: RequestState,
    response_state: Option<PipelineState>,
    next_id: u64,
}

impl<P: PipelinePolicy> View for Pipeline<P> {
    type V = Ledger;

    closed spec fn view(&self) -> Ledger {
        Ledger {
            operations: self.operations@,
            request: self.request_state,
            response: self.response_state,
            next_id: self.next_id,
            limit: self.policy.operations(),
        }
    }
}

fn classify_discard(message: &FrontendMessage) -> (kind: Option<OperationKind>)
    ensures
        kind == discard_kind(message@),
{
    match message {
        FrontendMessage::Parse(_) => Some(OperationKind::Parse),
        FrontendMessage::Bind(_) => Some(OperationKind::Bind),
        FrontendMessage::Describe(_) => Some(OperationKind::Describe),
        FrontendMessage::Execute(_) => Some(OperationKind::Execute),
        FrontendMessage::Close(_) => Some(OperationKind::Close),
        FrontendMessage::Flush => Some(OperationKind::Flush),
        FrontendMessage::Query(_) => Some(OperationKind::Query),
        FrontendMessage::FunctionCall(_) => Some(OperationKind::FunctionCall),
        FrontendMessage::CopyData(_) => Some(OperationKind::CopyData),
        FrontendMessage::CopyDone => Some(OperationKind::CopyDone),
        FrontendMessage::CopyFail(_) => Some(OperationKind::CopyFail),
        FrontendMessage::Terminate => Some(OperationKind::Terminate),
        _ => None,
    }
}

fn classify_frontend(state: RequestState, message: &FrontendMessage) -> (result: Option<
    (OperationKind, RequestState),
>)
    ensures
        result == classified(state, message@),
{
    match state {
        RequestState::Ready => match message {
            FrontendMessage::Query(_) => Some((OperationKind::Query, RequestState::Ready)),
            FrontendMessage::FunctionCall(_) => Some(
                (OperationKind::FunctionCall, RequestState::Ready),
            ),
            FrontendMessage::Parse(_) => Some(
                (OperationKind::Parse, RequestState::Extended { bound: false }),
            ),
            FrontendMessage::Bind(_) => Some(
                (OperationKind::Bind, RequestState::Extended { bound: true }),
            ),
            FrontendMessage::Describe(_) => Some(
                (OperationKind::Describe, RequestState::Extended { bound: false }),
            ),
            FrontendMessage::Execute(_) => Some(
                (OperationKind::Execute, RequestState::Extended { bound: true }),
            ),
            FrontendMessage::Close(_) => Some(
                (OperationKind::Close, RequestState::Extended { bound: false }),
            ),
            FrontendMessage::Terminate => Some(
                (OperationKind::Terminate, RequestState::Terminated),
            ),
            _ => None,
        },
        RequestState::Extended { .. } => match message {
            FrontendMessage::Parse(_) => Some((OperationKind::Parse, state)),
            FrontendMessage::Bind(_) => Some(
                (OperationKind::Bind, RequestState::Extended { bound: true }),
            ),
            FrontendMessage::Describe(_) => Some((OperationKind::Describe, state)),
            FrontendMessage::Execute(_) => Some(
                (OperationKind::Execute, RequestState::Extended { bound: true }),
            ),
            FrontendMessage::Close(_) => Some((OperationKind::Close, state)),
            FrontendMessage::Flush => Some((OperationKind::Flush, state)),
            FrontendMessage::Sync => Some((OperationKind::Sync, RequestState::Ready)),
            _ => None,
        },
        RequestState::ExtendedError { .. } => match message {
            FrontendMessage::Sync => Some((OperationKind::Sync, RequestState::Ready)),
            _ => match classify_discard(message) {
                Some(kind) => Some((kind, state)),
                None => None,
            },
        },
        RequestState::CopyIn => match message {
            FrontendMessage::CopyData(_) => Some((OperationKind::CopyData, RequestState::CopyIn)),
            FrontendMessage::CopyDone => Some(
                (OperationKind::CopyDone, RequestState::Extended { bound: true }),
            ),
            FrontendMessage::CopyFail(_) => Some(
                (OperationKind::CopyFail, RequestState::ExtendedError { local: false }),
            ),
            _ => None,
        },
        RequestState::CopyBoth => match message {
            FrontendMessage::CopyData(_) => Some(
                (OperationKind::CopyData, RequestState::CopyBoth),
            ),
            FrontendMessage::CopyDone => Some((OperationKind::CopyDone, RequestState::CopyBoth)),
            _ => None,
        },
        RequestState::CopyOut | RequestState::Terminated => None,
    }
}

fn project_frontend(state: RequestState, message: &FrontendMessage) -> (result: Option<
    (OperationKind, RequestState),
>)
    ensures
        result == if backend::external_event(state.phase(), message@) is None {
            None
        } else {
            classified(state, message@)
        },
{
    let phase = match state {
        RequestState::Ready => backend::RuntimeState::Ready,
        RequestState::Extended { .. } => backend::RuntimeState::Building,
        RequestState::ExtendedError { .. } => backend::RuntimeState::ExtendedError,
        RequestState::CopyIn => backend::RuntimeState::ExtendedCopyIn,
        RequestState::CopyOut => backend::RuntimeState::ExtendedCopyOut,
        RequestState::CopyBoth => backend::RuntimeState::ExtendedCopyBoth,
        RequestState::Terminated => backend::RuntimeState::Terminated,
    };
    if backend::project_external(phase, message).is_none() {
        return None;
    }
    classify_frontend(state, message)
}

/// Phase that a message accepted in `state` is intercepted in, while an
/// operation of kind `head` is answered.
pub open spec fn intercepted_in(state: RequestState, head: Option<OperationKind>) -> FrontendPhase {
    match state {
        RequestState::Ready => FrontendPhase::Ready,
        RequestState::Extended { .. } => FrontendPhase::Building,
        RequestState::CopyIn => if head == Some(OperationKind::Query) {
            FrontendPhase::SimpleCopyIn
        } else {
            FrontendPhase::ExtendedCopyIn
        },
        RequestState::CopyBoth => if head == Some(OperationKind::Query) {
            FrontendPhase::SimpleCopyBoth
        } else {
            FrontendPhase::ExtendedCopyBoth
        },
        _ => FrontendPhase::ExtendedError,
    }
}

fn frontend_phase(state: RequestState, head: Option<OperationKind>) -> (phase: FrontendPhase)
    requires
        state.copying() ==> head == Some(OperationKind::Query) || head == Some(
            OperationKind::Execute,
        ),
        state != RequestState::CopyOut,
        state != RequestState::Terminated,
    ensures
        phase == intercepted_in(state, head),
{
    match state {
        RequestState::Ready => FrontendPhase::Ready,
        RequestState::Extended { .. } => FrontendPhase::Building,
        RequestState::ExtendedError { .. } => FrontendPhase::ExtendedError,
        RequestState::CopyIn => match head {
            Some(OperationKind::Query) => FrontendPhase::SimpleCopyIn,
            _ => FrontendPhase::ExtendedCopyIn,
        },
        RequestState::CopyBoth => match head {
            Some(OperationKind::Query) => FrontendPhase::SimpleCopyBoth,
            _ => FrontendPhase::ExtendedCopyBoth,
        },
        RequestState::CopyOut | RequestState::Terminated => FrontendPhase::ExtendedError,
    }
}

fn initial_response_state(kind: OperationKind) -> (phase: backend::RuntimeState)
    ensures
        phase == first_phase(kind),
{
    match kind {
        OperationKind::Query => backend::RuntimeState::Simple,
        OperationKind::FunctionCall => backend::RuntimeState::FunctionResponse,
        OperationKind::Parse => backend::RuntimeState::ParseResponse,
        OperationKind::Bind => backend::RuntimeState::BindResponse,
        OperationKind::Describe => backend::RuntimeState::DescribeResponse,
        OperationKind::Execute => backend::RuntimeState::ExecuteResponse,
        OperationKind::Close => backend::RuntimeState::CloseResponse,
        OperationKind::Sync => backend::RuntimeState::SyncResponse,
        _ => backend::RuntimeState::Terminated,
    }
}

fn response_fits(operation: Operation, message: &BackendMessage) -> (result: bool)
    ensures
        result == fits(operation, message@),
{
    backend::project_internal(operation.response_state, message).is_some()
}

fn is_error(message: &BackendMessage) -> (result: bool)
    ensures
        result == (message@ is ErrorResponse),
{
    match message {
        BackendMessage::ErrorResponse(_) => true,
        _ => false,
    }
}

fn response_is_terminal(kind: OperationKind, message: &BackendMessage) -> (result: bool)
    ensures
        result == completes(kind, message@),
{
    match kind {
        OperationKind::Query | OperationKind::FunctionCall | OperationKind::Sync => match message {
            BackendMessage::ReadyForQuery(_) => true,
            _ => false,
        },
        OperationKind::Parse => match message {
            BackendMessage::ParseComplete | BackendMessage::ErrorResponse(_) => true,
            _ => false,
        },
        OperationKind::Bind => match message {
            BackendMessage::BindComplete | BackendMessage::ErrorResponse(_) => true,
            _ => false,
        },
        OperationKind::Describe => match message {
            BackendMessage::RowDescription(_)
            | BackendMessage::NoData
            | BackendMessage::ErrorResponse(_) => true,
            _ => false,
        },
        OperationKind::Execute => match message {
            BackendMessage::CommandComplete(_)
            | BackendMessage::PortalSuspended
            | BackendMessage::ErrorResponse(_) => true,
            _ => false,
        },
        OperationKind::Close => match message {
            BackendMessage::CloseComplete | BackendMessage::ErrorResponse(_) => true,
            _ => false,
        },
        OperationKind::CopyDone => match message {
            BackendMessage::CopyDone
            | BackendMessage::CommandComplete(_)
            | BackendMessage::ErrorResponse(_) => true,
            _ => false,
        },
        OperationKind::CopyFail => is_error(message),
        OperationKind::Flush | OperationKind::CopyData | OperationKind::Terminate => true,
    }
}

fn is_extended_kind(kind: OperationKind) -> (result: bool)
    ensures
        result == extended_kind(kind),
{
    match kind {
        OperationKind::Query | OperationKind::FunctionCall | OperationKind::Terminate => false,
        _ => true,
    }
}

fn is_inert(operation: Operation) -> (result: bool)
    ensures
        result == inert(operation),
{
    operation.discarded || match operation.kind {
        OperationKind::Flush
        | OperationKind::CopyData
        | OperationKind::CopyDone
        | OperationKind::CopyFail
        | OperationKind::Terminate => true,
        _ => false,
    }
}

fn is_live_sync(operation: Operation) -> (result: bool)
    ensures
        result == live_sync(operation),
{
    !operation.discarded && operation.kind == OperationKind::Sync
}

fn is_live_cycle(operation: Operation) -> (result: bool)
    ensures
        result == live_cycle(operation),
{
    !operation.discarded && match operation.kind {
        OperationKind::Parse
        | OperationKind::Bind
        | OperationKind::Describe
        | OperationKind::Execute
        | OperationKind::Close
        | OperationKind::Sync => true,
        _ => false,
    }
}

fn response_copy_state(phase: backend::RuntimeState) -> (state: Option<RequestState>)
    ensures
        state == copy_projection(phase),
{
    match phase {
        backend::RuntimeState::SimpleCopyIn | backend::RuntimeState::ExtendedCopyIn => Some(
            RequestState::CopyIn,
        ),
        backend::RuntimeState::SimpleCopyOut | backend::RuntimeState::ExtendedCopyOut => Some(
            RequestState::CopyOut,
        ),
        backend::RuntimeState::SimpleCopyBoth
        | backend::RuntimeState::SimpleCopyBothClientDone
        | backend::RuntimeState::SimpleCopyBothServerDone
        | backend::RuntimeState::ExtendedCopyBoth
        | backend::RuntimeState::ExtendedCopyBothClientDone
        | backend::RuntimeState::ExtendedCopyBothServerDone => Some(RequestState::CopyBoth),
        _ => None,
    }
}

fn has_live_sync(operations: &VecDeque<Operation>, start: usize) -> (result: bool)
    requires
        start <= operations@.len(),
    ensures
        result == any_live_sync(operations@.skip(start as int)),
{
    let ghost rest = operations@.skip(start as int);
    let mut at: usize = start;
    while at < operations.len()
        invariant
            rest == operations@.skip(start as int),
            start <= at <= operations@.len(),
            forall|i: int| 0 <= i < at - start ==> !live_sync(#[trigger] rest[i]),
        decreases operations@.len() - at,
    {
        assert(rest[at - start] == operations@[at as int]);
        if is_live_sync(operations[at]) {
            return true;
        }
        at = at + 1;
    }
    false
}

fn has_open_cycle(operations: &VecDeque<Operation>) -> (result: bool)
    ensures
        result == open_cycle(operations@),
{
    let mut open: bool = false;
    let mut at: usize = 0;
    while at < operations.len()
        invariant
            at <= operations@.len(),
            open == open_cycle(operations@.take(at as int)),
        decreases operations@.len() - at,
    {
        assert(operations@.take(at + 1).drop_last() =~= operations@.take(at as int));
        if is_live_sync(operations[at]) {
            open = false;
        } else if is_live_cycle(operations[at]) {
            open = true;
        }
        at = at + 1;
    }
    assert(operations@.take(at as int) =~= operations@);
    open
}

fn discard_to_sync(operations: VecDeque<Operation>) -> (result: VecDeque<Operation>)
    ensures
        result@ == discarded_to_sync(operations@),
{
    let mut result: VecDeque<Operation> = VecDeque::new();
    let mut synced: bool = false;
    let mut at: usize = 0;
    while at < operations.len()
        invariant
            at <= operations@.len(),
            synced == synced_before(operations@, at - 1),
            result@ == discarded_to_sync(operations@).take(at as int),
        decreases operations@.len() - at,
    {
        let mut operation: Operation = operations[at];
        if is_live_sync(operation) {
            synced = true;
        }
        assert(synced == synced_before(operations@, at as int)) by {
            if synced_before(operations@, at as int) && !synced_before(operations@, at - 1) {
                let i = choose|i: int|
                    0 <= i <= at && i < operations@.len() && live_sync(#[trigger] operations@[i]);
                assert(i == at);
            }
            if synced_before(operations@, at - 1) {
                let i = choose|i: int|
                    0 <= i <= at - 1 && i < operations@.len() && live_sync(
                        #[trigger] operations@[i],
                    );
                assert(live_sync(operations@[i]));
            }
            if live_sync(operations@[at as int]) {
                assert(synced_before(operations@, at as int));
            }
        }
        if !synced {
            operation.discarded = true;
        }
        result.push_back(operation);
        at = at + 1;
        assert(result@ =~= discarded_to_sync(operations@).take(at as int));
    }
    assert(discarded_to_sync(operations@).take(at as int) =~= discarded_to_sync(operations@));
    result
}

fn absorb_syncs(operations: &VecDeque<Operation>, head: Operation) -> (result: VecDeque<Operation>)
    requires
        operations@.len() > 0,
    ensures
        result@ == seq![head] + syncs_absorbed(operations@.skip(1)),
{
    let ghost rest = operations@.skip(1);
    let mut result: VecDeque<Operation> = VecDeque::new();
    result.push_back(head);
    let mut at: usize = 1;
    while at < operations.len()
        invariant
            rest == operations@.skip(1),
            1 <= at <= operations@.len(),
            result@ == seq![head] + syncs_absorbed(rest).take(at - 1),
        decreases operations@.len() - at,
    {
        let mut operation: Operation = operations[at];
        if operation.kind == OperationKind::Sync {
            operation.discarded = true;
        }
        result.push_back(operation);
        at = at + 1;
        assert(result@ =~= seq![head] + syncs_absorbed(rest).take(at - 1));
    }
    assert(syncs_absorbed(rest).take(at - 1) =~= syncs_absorbed(rest));
    result
}

fn drop_inert(operations: &mut VecDeque<Operation>)
    ensures
        final(operations)@ == awaiting(old(operations)@),
{
    while operations.len() > 0 && is_inert(operations[0])
        invariant
            awaiting(operations@) == awaiting(old(operations)@),
        decreases operations@.len(),
    {
        let ghost before = operations@;
        operations.pop_front();
        assert(operations@ =~= before.skip(1));
    }
}

proof fn lemma_awaiting(operations: Seq<Operation>)
    ensures
        awaiting(operations).len() <= operations.len(),
        awaiting(operations) == operations.skip(operations.len() - awaiting(operations).len()),
        awaiting(operations).len() > 0 ==> !inert(awaiting(operations)[0]),
    decreases operations.len(),
{
    if operations.len() > 0 && inert(operations[0]) {
        lemma_awaiting(operations.skip(1));
        let rest = awaiting(operations.skip(1));
        assert(operations.skip(1).skip(operations.len() - 1 - rest.len()) =~= operations.skip(
            operations.len() - rest.len(),
        ));
    } else {
        assert(operations.skip(0) =~= operations);
    }
}

/// A message that projects to an event of a phase is an event that the phase
/// allows, on the side that sent it.
pub proof fn law_projected_events_are_allowed(
    phase: backend::RuntimeState,
    response: BackendView,
    request: FrontendView,
)
    ensures
        backend::internal_event(phase, response) matches Some(event) ==> backend::allowed(
            phase,
            event,
        ) matches Some(transition) && transition.choice == backend::ChoiceKind::Internal,
        backend::external_event(phase, request) matches Some(event) ==> backend::allowed(
            phase,
            event,
        ) matches Some(transition) && transition.choice == backend::ChoiceKind::External,
{
}

/// An operation is complete exactly when its response hands the turn back to the
/// frontend in the backend grammar.
pub proof fn law_completion_hands_the_turn_back(
    kind: OperationKind,
    phase: backend::RuntimeState,
    message: BackendView,
)
    requires
        phase_fits_kind(kind, phase),
        !silent_kind(kind),
        backend::internal_event(phase, message) is Some,
    ensures
        completes(kind, message) <==> {
            let target = response_target(phase, message);
            target == backend::RuntimeState::Ready || target == backend::RuntimeState::Building
                || target == backend::RuntimeState::ExtendedError
        },
        !completes(kind, message) ==> phase_fits_kind(kind, response_target(phase, message)),
{
}

proof fn lemma_fed_phase(kind: OperationKind, phase: backend::RuntimeState, message: FrontendView)
    requires
        phase_fits_kind(kind, phase),
        !silent_kind(kind),
        backend::external_event(phase, message) is Some,
    ensures
        phase_fits_kind(
            kind,
            backend::allowed(phase, backend::external_event(phase, message)->Some_0)->Some_0.target,
        ),
{
}

/// Accepting a message keeps the ledger sound.
pub proof fn law_admission_is_sound(
    ledger: Ledger,
    message: FrontendView,
    handling: FrontendHandling,
)
    requires
        ledger.sound(),
        ledger.refusal(message) is None,
    ensures
        ledger.admitted(message, handling).sound(),
{
    let after = ledger.admitted(message, handling);
    let fed = ledger.head_fed(message);
    let (kind, request) = classified(ledger.request, message)->Some_0;
    let operation = Operation {
        id: OperationId::numbered(ledger.next_id),
        kind,
        origin: if ledger.forwards(message, handling) {
            Origin::Forwarded
        } else {
            Origin::Local
        },
        discarded: request is ExtendedError && kind != OperationKind::Sync,
        response_state: first_phase(kind),
    };
    let all = fed.push(operation);
    if ledger.operations.len() > 0 {
        let head = ledger.operations[0];
        if backend::external_event(head.response_state, message) is Some {
            lemma_fed_phase(head.kind, head.response_state, message);
        }
    }
    assert forall|i: int| 0 <= i < all.len() implies phase_fits_kind(
        (#[trigger] all[i]).kind,
        all[i].response_state,
    ) by {
        if i < fed.len() && i > 0 {
            assert(all[i] == ledger.operations[i]);
        }
    }
    lemma_awaiting(all);
    let cut = all.len() - awaiting(all).len();
    assert forall|i: int| 0 <= i < after.operations.len() implies phase_fits_kind(
        (#[trigger] after.operations[i]).kind,
        after.operations[i].response_state,
    ) by {
        assert(after.operations[i] == all[i + cut]);
    }
    if ledger.operations.len() > 0 {
        assert(all[0].kind == ledger.operations[0].kind);
        assert(all[0].discarded == ledger.operations[0].discarded);
        assert(awaiting(all) == all);
    }
}

/// Emitting a response keeps the ledger sound.
pub proof fn law_response_is_sound(
    ledger: Ledger,
    local: Option<OperationId>,
    message: BackendView,
)
    requires
        ledger.sound(),
    ensures
        ledger.offered(local, message).sound(),
{
    if let PreparedResponse::Emit { phase } = ledger.prepared(local, message) {
        let after = ledger.answered(message);
        let head = ledger.operations[0];
        let rest = ledger.operations.skip(1);
        law_completion_hands_the_turn_back(head.kind, head.response_state, message);
        if completes(head.kind, message) {
            let failed = message is ErrorResponse && extended_kind(head.kind);
            let left = if failed {
                discarded_to_sync(rest)
            } else {
                rest
            };
            lemma_awaiting(left);
            let cut = left.len() - awaiting(left).len();
            assert forall|i: int| 0 <= i < after.operations.len() implies phase_fits_kind(
                (#[trigger] after.operations[i]).kind,
                after.operations[i].response_state,
            ) by {
                assert(after.operations[i] == left[i + cut]);
                assert(left[i + cut].kind == rest[i + cut].kind);
                assert(rest[i + cut] == ledger.operations[i + cut + 1]);
            }
        } else {
            assert forall|i: int| 0 <= i < after.operations.len() implies phase_fits_kind(
                (#[trigger] after.operations[i]).kind,
                after.operations[i].response_state,
            ) by {
                if i > 0 {
                    assert(rest[i - 1] == ledger.operations[i]);
                }
            }
        }
    }
}

impl<P: PipelinePolicy> Pipeline<P> {
    #[verifier::type_invariant]
    spec fn well_formed(self) -> bool {
        self@.sound()
    }

    /// Creates an empty pipeline using `policy`.
    pub fn new(policy: P) -> (pipeline: Self)
        ensures
            pipeline@ == (Ledger {
                operations: Seq::empty(),
                request: RequestState::Ready,
                response: None,
                next_id: 0,
                limit: policy.operations(),
            }),
    {
        let operations: VecDeque<Operation> = VecDeque::new();
        assert(operations@ =~= Seq::empty());
        Pipeline {
            policy,
            operations,
            request_state: RequestState::Ready,
            response_state: None,
            next_id: 0,
        }
    }

    /// Returns the projected frontend protocol state.
    pub fn state(&self) -> (state: PipelineState)
        ensures
            state == self@.state(),
    {
        match self.response_state {
            Some(state) => state,
            None => self.request_state.public(),
        }
    }

    /// Returns the number of incomplete lightweight operation records.
    pub fn len(&self) -> (length: usize)
        ensures
            length == self@.operations.len(),
    {
        self.operations.len()
    }

    /// Reports whether no operations remain outstanding.
    pub fn is_empty(&self) -> (empty: bool)
        ensures
            empty == (self@.operations.len() == 0),
    {
        self.operations.len() == 0
    }

    /// Whether a synthesized response to this operation can be emitted now.
    pub fn is_emittable(&self, id: OperationId) -> (result: bool)
        ensures
            result == (self@.operations.len() > 0 && self@.operations[0].id == id),
    {
        self.operations.len() > 0 && self.operations[0].id == id
    }

    /// Decides whether a frontend message would be accepted, and the phase in
    /// which it would be intercepted.
    ///
    /// # Errors
    ///
    /// Returns why the message would be refused.
    pub fn prepare_frontend(&self, message: &FrontendMessage) -> (result: Result<
        FrontendPhase,
        FrontendRefusal,
    >)
        ensures
            match result {
                Ok(phase) => self@.refusal(message@) is None && phase
                    == self@.interception(),
                Err(refusal) => self@.refusal(message@) == Some(refusal),
            },
    {
        proof {
            use_type_invariant(self);
        }
        if self.operations.len() == self.policy.operation_limit()
            && !self.request_state.is_copying() {
            return Err(FrontendRefusal::Capacity);
        }
        if project_frontend(self.request_state, message).is_none() {
            return Err(FrontendRefusal::Illegal);
        }
        let head: Option<OperationKind> = if self.operations.len() > 0 {
            Some(self.operations[0].kind)
        } else {
            None
        };
        Ok(frontend_phase(self.request_state, head))
    }

    fn commit_frontend(&mut self, message: FrontendMessage, handling: FrontendHandling) -> (
        admission: FrontendAdmission)
        requires
            old(self)@.refusal(message@) is None,
        ensures
            final(self)@ == old(self)@.admitted(message@, handling),
            admission is Waiting <==> old(self)@.operations.len() > 0,
            old(self)@.forwards(message@, handling) ==> admission.action() == (
            FrontendAction::Forward { id: OperationId::numbered(old(self)@.next_id), message }),
            !old(self)@.forwards(message@, handling) ==> admission.action() == (
            FrontendAction::Discard { id: OperationId::numbered(old(self)@.next_id) }),
    {
        let ghost before = self@;
        proof {
            use_type_invariant(&*self);
            law_admission_is_sound(before, message@, handling);
        }
        let (kind, request_state) = match classify_frontend(self.request_state, &message) {
            Some(classified) => classified,
            None => (OperationKind::Flush, self.request_state),
        };
        let waiting: bool = self.operations.len() > 0;
        let id = OperationId(self.next_id);
        let dropped: bool = match self.request_state {
            RequestState::ExtendedError { local } => local && kind != OperationKind::Sync,
            _ => false,
        };
        let forwarded: bool = handling == FrontendHandling::Forward && !dropped;
        let mut operations: VecDeque<Operation> = VecDeque::new();
        let mut at: usize = 0;
        while at < self.operations.len()
            invariant
                at <= self.operations@.len(),
                *self == *old(self),
                before == self@,
                operations@ == before.head_fed(message@).take(at as int),
            decreases self.operations@.len() - at,
        {
            let mut operation: Operation = self.operations[at];
            if at == 0 {
                if let Some(event) = backend::project_external(
                    operation.response_state,
                    &message,
                ) {
                    if let Some(transition) = backend::transition(
                        operation.response_state,
                        event,
                    ) {
                        operation.response_state = transition.target;
                    }
                }
            }
            operations.push_back(operation);
            at = at + 1;
            assert(operations@ =~= before.head_fed(message@).take(at as int));
        }
        assert(operations@ =~= before.head_fed(message@));
        let discarded: bool = match request_state {
            RequestState::ExtendedError { .. } => kind != OperationKind::Sync,
            _ => false,
        };
        operations.push_back(
            Operation {
                id,
                kind,
                origin: if forwarded {
                    Origin::Forwarded
                } else {
                    Origin::Local
                },
                discarded,
                response_state: initial_response_state(kind),
            },
        );
        drop_inert(&mut operations);
        *self = Pipeline {
            policy: self.policy,
            operations,
            request_state,
            response_state: self.response_state,
            next_id: self.next_id.saturating_add(1),
        };
        let action = if forwarded {
            FrontendAction::Forward { id, message }
        } else {
            FrontendAction::Discard { id }
        };
        if waiting {
            FrontendAdmission::Waiting(action)
        } else {
            FrontendAdmission::Immediate(action)
        }
    }

    /// Projects and accepts one frontend message without retaining its payload.
    ///
    /// Capacity and legality failures return the original owned message and
    /// mutate neither the projected state nor the ledger.
    ///
    /// # Errors
    ///
    /// Returns the unchanged boxed message when capacity is exhausted or the
    /// message is illegal in the projected state.
    pub fn accept_frontend(&mut self, message: FrontendMessage, handling: FrontendHandling) -> (
        result: Result<FrontendAdmission, FrontendProjectionError>)
        ensures
            accepts(old(self)@, message, handling, result, final(self)@),
            old(self)@.full() ==> result matches Err(FrontendProjectionError::Capacity(_)),
    {
        proof {
            use_type_invariant(&*self);
        }
        match self.prepare_frontend(&message) {
            Ok(_) => Ok(self.commit_frontend(message, handling)),
            Err(FrontendRefusal::Capacity) => Err(
                FrontendProjectionError::Capacity(Box::new(message)),
            ),
            Err(FrontendRefusal::Illegal) => Err(
                FrontendProjectionError::Illegal {
                    state: self.state(),
                    message: Box::new(message),
                },
            ),
        }
    }
}

/// Outcome of offering a frontend message to a ledger.
pub open spec fn accepts(
    before: Ledger,
    message: FrontendMessage,
    handling: FrontendHandling,
    result: Result<FrontendAdmission, FrontendProjectionError>,
    after: Ledger,
) -> bool {
    match before.refusal(message@) {
        Some(FrontendRefusal::Capacity) => result == Err::<FrontendAdmission, _>(
            FrontendProjectionError::Capacity(Box::new(message)),
        ) && after == before,
        Some(FrontendRefusal::Illegal) => result == Err::<FrontendAdmission, _>(
            (FrontendProjectionError::Illegal {
                state: before.state(),
                message: Box::new(message),
            }),
        ) && after == before,
        None => {
            &&& after == before.admitted(message@, handling)
            &&& result matches Ok(admission)
            &&& (admission is Waiting <==> before.operations.len() > 0)
            &&& admission.action() == if before.forwards(message@, handling) {
                FrontendAction::Forward { id: OperationId::numbered(before.next_id), message }
            } else {
                FrontendAction::Discard { id: OperationId::numbered(before.next_id) }
            }
        },
    }
}

impl Default for Pipeline<NoPipeline> {
    fn default() -> (pipeline: Self)
        ensures
            pipeline@.operations.len() == 0,
            pipeline@.request == RequestState::Ready,
            pipeline@.response is None,
            pipeline@.next_id == 0,
            pipeline@.limit == 1,
    {
        Pipeline::new(NoPipeline)
    }
}

/// Outcome of offering a response to a ledger: one from upstream, or one
/// synthesized for the operation `local`.
pub open spec fn responds(
    before: Ledger,
    local: Option<OperationId>,
    message: BackendMessage,
    result: Result<BackendAction, BackendProjectionError>,
    after: Ledger,
) -> bool {
    &&& after == before.offered(local, message@)
    &&& match before.prepared(local, message@) {
        PreparedResponse::Asynchronous | PreparedResponse::Emit { .. } => result == Ok::<
            _,
            BackendProjectionError,
        >(BackendAction::Emit(message)),
        PreparedResponse::Deferred => result == Ok::<_, BackendProjectionError>(
            BackendAction::Deferred(message),
        ),
        PreparedResponse::Illegal => result == Err::<BackendAction, _>(
            (BackendProjectionError { state: before.state(), message }),
        ),
    }
}

/// Outcome of offering what an interceptor returned.
pub open spec fn accepts_replacement<E>(
    before: Ledger,
    outcome: Result<FrontendMessage, E>,
    handling: FrontendHandling,
    result: Result<FrontendAdmission, PipelineMiddlewareError<E, FrontendProjectionError>>,
    after: Ledger,
) -> bool {
    match outcome {
        Err(error) => after == before && result == Err::<FrontendAdmission, _>(
            PipelineMiddlewareError::<E, FrontendProjectionError>::Middleware(error),
        ),
        Ok(replaced) => if frontend_frame(replaced@) is Err {
            after == before && result == Err::<FrontendAdmission, _>(
                PipelineMiddlewareError::<E, FrontendProjectionError>::Projection(
                    (FrontendProjectionError::Illegal {
                        state: before.state(),
                        message: Box::new(replaced),
                    }),
                ),
            )
        } else {
            match result {
                Ok(admission) => accepts(before, replaced, handling, Ok(admission), after),
                Err(PipelineMiddlewareError::Projection(error)) => accepts(
                    before,
                    replaced,
                    handling,
                    Err(error),
                    after,
                ),
                Err(PipelineMiddlewareError::Middleware(_)) => false,
            }
        },
    }
}

/// Outcome of intercepting and then offering a frontend message. The
/// interceptor sees only messages that would be accepted, with their phase.
pub open spec fn accepts_intercepted<
    E,
    H: FnOnce(FrontendPhase, FrontendMessage) -> Result<FrontendMessage, E>,
>(
    before: Ledger,
    interceptor: H,
    message: FrontendMessage,
    handling: FrontendHandling,
    result: Result<FrontendAdmission, PipelineMiddlewareError<E, FrontendProjectionError>>,
    after: Ledger,
) -> bool {
    match before.refusal(message@) {
        Some(_) => result matches Err(PipelineMiddlewareError::Projection(error)) && accepts(
            before,
            message,
            handling,
            Err(error),
            after,
        ),
        None => {
            let phase = before.interception();
            exists|outcome: Result<FrontendMessage, E>|
                #![trigger call_ensures(interceptor, (phase, message), outcome)]
                call_ensures(interceptor, (phase, message), outcome) && accepts_replacement(
                    before,
                    outcome,
                    handling,
                    result,
                    after,
                )
        },
    }
}

/// Outcome of offering what an interceptor returned for a response that may be
/// dealt with as `prepared` says: the replacement has to be dealt with alike.
pub open spec fn responds_replacement<E>(
    before: Ledger,
    local: Option<OperationId>,
    prepared: PreparedResponse,
    outcome: Result<BackendMessage, E>,
    result: Result<BackendAction, PipelineMiddlewareError<E, BackendProjectionError>>,
    after: Ledger,
) -> bool {
    match outcome {
        Err(error) => after == before && result == Err::<BackendAction, _>(
            PipelineMiddlewareError::<E, BackendProjectionError>::Middleware(error),
        ),
        Ok(replaced) => if before.prepared(local, replaced@) != prepared || backend_frame(
            replaced@,
        ) is Err {
            after == before && result == Err::<BackendAction, _>(
                PipelineMiddlewareError::<E, BackendProjectionError>::Projection(
                    (BackendProjectionError { state: before.state(), message: replaced }),
                ),
            )
        } else {
            after == before.offered(local, replaced@) && result == Ok::<
                _,
                PipelineMiddlewareError<E, BackendProjectionError>,
            >(BackendAction::Emit(replaced))
        },
    }
}

/// Outcome of intercepting and then offering a response. The interceptor sees
/// only responses that would be emitted, with what may be done with them.
pub open spec fn responds_intercepted<
    E,
    H: FnOnce(PreparedResponse, BackendMessage) -> Result<BackendMessage, E>,
>(
    before: Ledger,
    local: Option<OperationId>,
    interceptor: H,
    message: BackendMessage,
    result: Result<BackendAction, PipelineMiddlewareError<E, BackendProjectionError>>,
    after: Ledger,
) -> bool {
    let prepared = before.prepared(local, message@);
    match prepared {
        PreparedResponse::Deferred => result == Ok::<
            _,
            PipelineMiddlewareError<E, BackendProjectionError>,
        >(BackendAction::Deferred(message)) && after == before.offered(local, message@),
        PreparedResponse::Illegal => result == Err::<BackendAction, _>(
            PipelineMiddlewareError::<E, BackendProjectionError>::Projection(
                (BackendProjectionError { state: before.state(), message }),
            ),
        ) && after == before,
        _ => exists|outcome: Result<BackendMessage, E>|
            #![trigger call_ensures(interceptor, (prepared, message), outcome)]
            call_ensures(interceptor, (prepared, message), outcome) && responds_replacement(
                before,
                local,
                prepared,
                outcome,
                result,
                after,
            ),
    }
}

impl<P: PipelinePolicy> Pipeline<P> {
    /// Decides what may be done with a response: with one from upstream, or with
    /// one synthesized for the operation `local`.
    #[verifier::loop_isolation(false)]
    pub fn prepare_response(&self, local: Option<OperationId>, message: &BackendMessage) -> (
        prepared: PreparedResponse)
        ensures
            prepared == self@.prepared(local, message@),
    {
        proof {
            use_type_invariant(self);
        }
        if Demux::is_asynchronous(message) {
            return PreparedResponse::Asynchronous;
        }
        if self.operations.len() == 0 {
            return PreparedResponse::Illegal;
        }
        let head: Operation = self.operations[0];
        let mut forwarded_only: bool = false;
        match local {
            Some(id) => {
                if head.id != id {
                    return PreparedResponse::Deferred;
                }
                if head.origin != Origin::Local {
                    return PreparedResponse::Illegal;
                }
            },
            None => {
                if head.origin == Origin::Local {
                    forwarded_only = true;
                }
            },
        }
        if !forwarded_only && response_fits(head, message) {
            return PreparedResponse::Emit { phase: head.response_state };
        }
        let mut at: usize = 1;
        while at < self.operations.len()
            invariant
                1 <= at <= self.operations@.len(),
                forall|i: int|
                    1 <= i < at ==> !(fits(#[trigger] self.operations@[i], message@) && (
                    !forwarded_only || self.operations@[i].origin == Origin::Forwarded)),
            decreases self.operations@.len() - at,
        {
            let operation: Operation = self.operations[at];
            if response_fits(operation, message) && (!forwarded_only || operation.origin
                == Origin::Forwarded) {
                assert(fits(self@.operations[at as int], message@));
                return PreparedResponse::Deferred;
            }
            at = at + 1;
        }
        PreparedResponse::Illegal
    }

    fn commit_response(&mut self, message: &BackendMessage)
        requires
            old(self)@.operations.len() > 0,
            fits(old(self)@.operations[0], message@),
            exists|local: Option<OperationId>| #[trigger]
                old(self)@.prepared(local, message@) is Emit,
        ensures
            final(self)@ == old(self)@.answered(message@),
    {
        let ghost before = self@;
        proof {
            use_type_invariant(&*self);
            let local = choose|local: Option<OperationId>| #[trigger]
                before.prepared(local, message@) is Emit;
            law_response_is_sound(before, local, message@);
            law_projected_events_are_allowed(
                before.operations[0].response_state,
                message@,
                FrontendView::Sync,
            );
            law_completion_hands_the_turn_back(
                before.operations[0].kind,
                before.operations[0].response_state,
                message@,
            );
        }
        let head: Operation = self.operations[0];
        let mut target: backend::RuntimeState = head.response_state;
        if let Some(event) = backend::project_internal(head.response_state, message) {
            if let Some(transition) = backend::transition(head.response_state, event) {
                target = transition.target;
            }
        }
        assert(target == response_target(head.response_state, message@));
        let mut operations: VecDeque<Operation> = VecDeque::new();
        if response_is_terminal(head.kind, message) {
            let failed: bool = is_error(message) && is_extended_kind(head.kind);
            let copying: bool = self.request_state.is_copying();
            let synced: bool = has_live_sync(&self.operations, 1);
            let mut at: usize = 1;
            while at < self.operations.len()
                invariant
                    1 <= at <= self.operations@.len(),
                    *self == *old(self),
                    before == self@,
                    operations@ == before.operations.skip(1).take(at - 1),
                decreases self.operations@.len() - at,
            {
                operations.push_back(self.operations[at]);
                at = at + 1;
                assert(operations@ =~= before.operations.skip(1).take(at - 1));
            }
            assert(operations@ =~= before.operations.skip(1));
            let open: bool = has_open_cycle(&operations);
            let request_state = if failed {
                if synced && !copying {
                    self.request_state
                } else {
                    RequestState::ExtendedError { local: head.origin == Origin::Local }
                }
            } else if self.request_state == (RequestState::ExtendedError { local: true }) {
                self.request_state
            } else {
                match head.kind {
                    OperationKind::Query => RequestState::Ready,
                    OperationKind::Sync => if open || self.request_state
                        == RequestState::Terminated {
                        self.request_state
                    } else {
                        RequestState::Ready
                    },
                    OperationKind::Execute => RequestState::Extended { bound: true },
                    _ => self.request_state,
                }
            };
            if failed {
                operations = discard_to_sync(operations);
            }
            drop_inert(&mut operations);
            *self = Pipeline {
                policy: self.policy,
                operations,
                request_state,
                response_state: None,
                next_id: self.next_id,
            };
        } else {
            let advanced = Operation { response_state: target, ..head };
            if target == backend::RuntimeState::ExtendedCopyIn {
                operations = absorb_syncs(&self.operations, advanced);
            } else {
                operations.push_back(advanced);
                let mut at: usize = 1;
                while at < self.operations.len()
                    invariant
                        1 <= at <= self.operations@.len(),
                        *self == *old(self),
                        before == self@,
                        operations@ == seq![advanced] + before.operations.skip(1).take(at - 1),
                    decreases self.operations@.len() - at,
                {
                    operations.push_back(self.operations[at]);
                    at = at + 1;
                    assert(operations@ =~= seq![advanced] + before.operations.skip(1).take(at - 1));
                }
                assert(before.operations.skip(1).take(at - 1) =~= before.operations.skip(1));
            }
            let copy_state = response_copy_state(target);
            let request_state = match copy_state {
                Some(RequestState::CopyIn) => RequestState::CopyIn,
                Some(RequestState::CopyBoth) => RequestState::CopyBoth,
                _ => self.request_state,
            };
            let response_state = match copy_state {
                Some(state) => Some(state.public()),
                None => None,
            };
            *self = Pipeline {
                policy: self.policy,
                operations,
                request_state,
                response_state,
                next_id: self.next_id,
            };
        }
    }

    fn register(&mut self, id: OperationId, message: &BackendMessage)
        ensures
            final(self)@ == old(self)@.registered(id, message@),
    {
        proof {
            use_type_invariant(&*self);
        }
        let ghost before = self@;
        let extended: bool = match self.request_state {
            RequestState::Extended { .. } => true,
            _ => false,
        };
        if !extended || !is_error(message) {
            return;
        }
        let mut at: usize = 0;
        let mut rejected: bool = false;
        while at < self.operations.len()
            invariant
                at <= self.operations@.len(),
                *self == *old(self),
                before == self@,
                message@ is ErrorResponse,
                rejected == exists|i: int|
                    0 <= i < at && (#[trigger] before.operations[i]).id == id && before.rejects(
                        i,
                        message@,
                    ),
            decreases self.operations@.len() - at,
        {
            let operation: Operation = self.operations[at];
            let synced: bool = has_live_sync(&self.operations, at + 1);
            let rejects: bool = operation.origin == Origin::Local && !is_inert(operation)
                && is_extended_kind(operation.kind) && response_fits(operation, message) && !synced;
            proof {
                let rest = before.operations.skip(at as int + 1);
                if synced {
                    let i = choose|i: int| 0 <= i < rest.len() && live_sync(#[trigger] rest[i]);
                    assert(live_sync(before.operations[at as int + 1 + i]));
                } else {
                    assert forall|i: int| at < i < before.operations.len() implies !live_sync(
                        #[trigger] before.operations[i],
                    ) by {
                        assert(!live_sync(rest[i - at - 1]));
                    }
                }
                assert(rejects == before.rejects(at as int, message@));
            }
            if operation.id == id && rejects {
                rejected = true;
            }
            at = at + 1;
        }
        if rejected {
            let mut operations: VecDeque<Operation> = VecDeque::new();
            std::mem::swap(&mut operations, &mut self.operations);
            *self = Pipeline {
                policy: self.policy,
                operations,
                request_state: RequestState::ExtendedError { local: true },
                response_state: self.response_state,
                next_id: self.next_id,
            };
        }
    }

    fn accept_response(&mut self, local: Option<OperationId>, message: BackendMessage) -> (
        result: Result<BackendAction, BackendProjectionError>)
        ensures
            responds(old(self)@, local, message, result, final(self)@),
    {
        match self.prepare_response(local, &message) {
            PreparedResponse::Asynchronous => Ok(BackendAction::Emit(message)),
            PreparedResponse::Emit { .. } => {
                assert(self@.prepared(local, message@) is Emit);
                self.commit_response(&message);
                Ok(BackendAction::Emit(message))
            },
            PreparedResponse::Deferred => {
                if let Some(id) = local {
                    self.register(id, &message);
                }
                Ok(BackendAction::Deferred(message))
            },
            PreparedResponse::Illegal => Err(
                BackendProjectionError { state: self.state(), message },
            ),
        }
    }

    /// Projects one upstream backend message and preserves response order.
    ///
    /// # Errors
    ///
    /// Returns an unchanged response which cannot belong to any outstanding operation.
    pub fn accept_backend(&mut self, message: BackendMessage) -> (result: Result<
        BackendAction,
        BackendProjectionError,
    >)
        ensures
            responds(old(self)@, None, message, result, final(self)@),
    {
        self.accept_response(None, message)
    }

    /// Attempts to register and emit a locally synthesized response.
    ///
    /// The message is returned as [`BackendAction::Deferred`] when `id` has not
    /// reached the head. No backend payload is retained by the ledger. A
    /// rejection that has to wait already discards what is accepted after it,
    /// up to `Sync`.
    ///
    /// # Errors
    ///
    /// Returns the unchanged message when it is illegal for the named operation.
    pub fn try_emit_local(&mut self, id: OperationId, message: BackendMessage) -> (result: Result<
        BackendAction,
        BackendProjectionError,
    >)
        ensures
            responds(old(self)@, Some(id), message, result, final(self)@),
    {
        self.accept_response(Some(id), message)
    }

    /// Projects, intercepts, and accepts one frontend message.
    ///
    /// The ledger selects the phase that the interceptor is told. The
    /// interceptor is not invoked when the message would be refused.
    ///
    /// # Errors
    ///
    /// Returns the interceptor's error, an illegal original or replacement
    /// message, or the unchanged message when capacity is exhausted.
    pub fn accept_frontend_typed<
        E,
        H: FnOnce(FrontendPhase, FrontendMessage) -> Result<FrontendMessage, E>,
    >(
        &mut self,
        interceptor: H,
        message: FrontendMessage,
        handling: FrontendHandling,
    ) -> (result: Result<FrontendAdmission, PipelineMiddlewareError<E, FrontendProjectionError>>)
        requires
            forall|phase: FrontendPhase| #[trigger] call_requires(interceptor, (phase, message)),
        ensures
            accepts_intercepted(
                old(self)@,
                interceptor,
                message,
                handling,
                result,
                final(self)@,
            ),
    {
        let phase = match self.prepare_frontend(&message) {
            Ok(phase) => phase,
            Err(_) => {
                return match self.accept_frontend(message, handling) {
                    Ok(admission) => Ok(admission),
                    Err(error) => Err(PipelineMiddlewareError::Projection(error)),
                };
            },
        };
        let outcome = interceptor(phase, message);
        assert(call_ensures(interceptor, (self@.interception(), message), outcome));
        let result = self.finish_frontend(outcome, handling);
        assert(accepts_replacement(old(self)@, outcome, handling, result, self@));
        result
    }

    /// Offers what an interceptor returned for a message that would be accepted.
    ///
    /// # Errors
    ///
    /// Returns the interceptor's error, or an illegal replacement.
    pub fn finish_frontend<E>(
        &mut self,
        outcome: Result<FrontendMessage, E>,
        handling: FrontendHandling,
    ) -> (result: Result<FrontendAdmission, PipelineMiddlewareError<E, FrontendProjectionError>>)
        ensures
            accepts_replacement(old(self)@, outcome, handling, result, final(self)@),
    {
        match outcome {
            Err(error) => Err(PipelineMiddlewareError::Middleware(error)),
            Ok(replaced) => if replaced.to_frame().is_err() {
                Err(
                    PipelineMiddlewareError::Projection(
                        FrontendProjectionError::Illegal {
                            state: self.state(),
                            message: Box::new(replaced),
                        },
                    ),
                )
            } else {
                match self.accept_frontend(replaced, handling) {
                    Ok(admission) => Ok(admission),
                    Err(error) => Err(PipelineMiddlewareError::Projection(error)),
                }
            },
        }
    }

    /// Offers what an interceptor returned for a response that `prepared` was
    /// decided for.
    ///
    /// # Errors
    ///
    /// Returns the interceptor's error, or a replacement that is illegal or would be
    /// dealt with otherwise.
    pub fn finish_response<E>(
        &mut self,
        local: Option<OperationId>,
        prepared: PreparedResponse,
        outcome: Result<BackendMessage, E>,
    ) -> (result: Result<BackendAction, PipelineMiddlewareError<E, BackendProjectionError>>)
        requires
            prepared is Asynchronous || prepared is Emit,
        ensures
            responds_replacement(old(self)@, local, prepared, outcome, result, final(self)@),
    {
        match outcome {
            Err(error) => Err(PipelineMiddlewareError::Middleware(error)),
            Ok(replaced) => {
                if self.prepare_response(local, &replaced) != prepared
                    || replaced.to_frame().is_err() {
                    return Err(
                        PipelineMiddlewareError::Projection(
                            BackendProjectionError { state: self.state(), message: replaced },
                        ),
                    );
                }
                match self.accept_response(local, replaced) {
                    Ok(action) => Ok(action),
                    Err(error) => Err(PipelineMiddlewareError::Projection(error)),
                }
            },
        }
    }

    fn accept_response_typed<
        E,
        H: FnOnce(PreparedResponse, BackendMessage) -> Result<BackendMessage, E>,
    >(&mut self, local: Option<OperationId>, interceptor: H, message: BackendMessage) -> (
        result: Result<BackendAction, PipelineMiddlewareError<E, BackendProjectionError>>)
        requires
            forall|prepared: PreparedResponse| #[trigger]
                call_requires(interceptor, (prepared, message)),
        ensures
            responds_intercepted(
                old(self)@,
                local,
                interceptor,
                message,
                result,
                final(self)@,
            ),
    {
        let prepared = self.prepare_response(local, &message);
        match prepared {
            PreparedResponse::Deferred | PreparedResponse::Illegal => {
                return match self.accept_response(local, message) {
                    Ok(action) => Ok(action),
                    Err(error) => Err(PipelineMiddlewareError::Projection(error)),
                };
            },
            _ => {},
        }
        let outcome = interceptor(prepared, message);
        assert(call_ensures(interceptor, (prepared, message), outcome));
        let result = self.finish_response(local, prepared, outcome);
        assert(responds_replacement(old(self)@, local, prepared, outcome, result, self@));
        result
    }

    /// Intercepts an emittable backend response with its operation's phase.
    ///
    /// Responses belonging to a later operation are returned unchanged as
    /// [`BackendAction::Deferred`] and are intercepted only when retried at the
    /// response head. Asynchronous messages are intercepted without advancing
    /// the ledger.
    ///
    /// # Errors
    ///
    /// Returns the interceptor's error or an unchanged response which cannot
    /// belong to any outstanding operation.
    pub fn accept_backend_typed<
        E,
        H: FnOnce(PreparedResponse, BackendMessage) -> Result<BackendMessage, E>,
    >(&mut self, interceptor: H, message: BackendMessage) -> (result: Result<
        BackendAction,
        PipelineMiddlewareError<E, BackendProjectionError>,
    >)
        requires
            forall|prepared: PreparedResponse| #[trigger]
                call_requires(interceptor, (prepared, message)),
        ensures
            responds_intercepted(
                old(self)@,
                None,
                interceptor,
                message,
                result,
                final(self)@,
            ),
    {
        self.accept_response_typed(None, interceptor, message)
    }

    /// Intercepting counterpart to [`Self::try_emit_local`].
    ///
    /// Deferred local responses are not intercepted until their operation reaches
    /// the response head.
    ///
    /// # Errors
    ///
    /// Returns the interceptor's error or an illegal response for the named
    /// operation.
    pub fn try_emit_local_typed<
        E,
        H: FnOnce(PreparedResponse, BackendMessage) -> Result<BackendMessage, E>,
    >(&mut self, interceptor: H, id: OperationId, message: BackendMessage) -> (result: Result<
        BackendAction,
        PipelineMiddlewareError<E, BackendProjectionError>,
    >)
        requires
            forall|prepared: PreparedResponse| #[trigger]
                call_requires(interceptor, (prepared, message)),
        ensures
            responds_intercepted(
                old(self)@,
                Some(id),
                interceptor,
                message,
                result,
                final(self)@,
            ),
    {
        self.accept_response_typed(Some(id), interceptor, message)
    }
}

/// Every message can be framed.
pub open spec fn all_reconstructable(messages: Seq<BackendView>, count: int) -> bool {
    forall|i: int| 0 <= i < count ==> backend_frame(#[trigger] messages[i]) is Ok
}

/// Outcome of preparing an ordered one-to-one replacement of responses.
pub open spec fn replaces(
    ledger: Ledger,
    sources: Seq<BackendView>,
    replacements: Seq<BackendView>,
    result: Result<Ledger, BackendSequenceError>,
) -> bool {
    let count = sources.len() as int;
    let illegal_source = |i: int|
        0 <= i < count && ledger.emits_first(sources, i) && !ledger.answered_all(
            sources.take(i),
        ).emits(sources[i]);
    let illegal_replacement = |i: int|
        0 <= i < count && ledger.emits_first(replacements, i) && all_reconstructable(
            replacements,
            i,
        ) && !(ledger.answered_all(replacements.take(i)).emits(replacements[i]) && backend_frame(
            replacements[i],
        ) is Ok);
    match result {
        Err(BackendSequenceError::Cardinality { expected, actual }) => expected == count && actual
            == replacements.len() && expected != actual,
        Err(BackendSequenceError::Source(at)) => count == replacements.len() && illegal_source(
            at as int,
        ),
        Err(BackendSequenceError::Replacement(at)) => count == replacements.len()
            && ledger.emits_first(sources, count) && illegal_replacement(at as int),
        Err(BackendSequenceError::DifferentSpan) => count == replacements.len()
            && ledger.emits_first(sources, count) && ledger.emits_first(replacements, count)
            && all_reconstructable(replacements, count) && ledger.answered_all(sources)
            != ledger.answered_all(replacements),
        Ok(after) => count == replacements.len() && ledger.emits_first(sources, count)
            && ledger.emits_first(replacements, count) && all_reconstructable(replacements, count)
            && ledger.answered_all(sources) == ledger.answered_all(replacements) && after
            == ledger.answered_all(replacements),
    }
}

fn same_operations(first: &VecDeque<Operation>, second: &VecDeque<Operation>) -> (result: bool)
    ensures
        result == (first@ == second@),
{
    if first.len() != second.len() {
        return false;
    }
    let mut at: usize = 0;
    while at < first.len()
        invariant
            at <= first@.len(),
            first@.len() == second@.len(),
            forall|i: int| 0 <= i < at ==> first@[i] == second@[i],
        decreases first@.len() - at,
    {
        if first[at] != second[at] {
            assert(first@[at as int] != second@[at as int]);
            return false;
        }
        at = at + 1;
    }
    assert(first@ =~= second@);
    true
}

impl<P: PipelinePolicy> Pipeline<P> {
    /// A ledger with the same record.
    fn duplicate(&self) -> (copy: Self)
        ensures
            copy@ == self@,
    {
        proof {
            use_type_invariant(self);
        }
        let mut operations: VecDeque<Operation> = VecDeque::new();
        let mut at: usize = 0;
        while at < self.operations.len()
            invariant
                at <= self.operations@.len(),
                operations@ == self.operations@.take(at as int),
            decreases self.operations@.len() - at,
        {
            operations.push_back(self.operations[at]);
            at = at + 1;
            assert(operations@ =~= self.operations@.take(at as int));
        }
        assert(operations@ =~= self.operations@);
        Pipeline {
            policy: self.policy,
            operations,
            request_state: self.request_state,
            response_state: self.response_state,
            next_id: self.next_id,
        }
    }

    /// Emits one upstream response on this ledger, if it can be emitted now.
    fn advance(&mut self, message: &BackendMessage) -> (emitted: bool)
        ensures
            emitted == old(self)@.emits(message@),
            emitted ==> final(self)@ == old(self)@.stepped(message@),
            !emitted ==> final(self)@ == old(self)@,
    {
        reveal(Ledger::stepped);
        reveal(Ledger::emits);
        match self.prepare_response(None, message) {
            PreparedResponse::Asynchronous => true,
            PreparedResponse::Emit { .. } => {
                assert(self@.prepared(None, message@) is Emit);
                self.commit_response(message);
                true
            },
            _ => false,
        }
    }

    /// Emits upstream responses in order on a copy of this ledger. With `framed`,
    /// each must also be reconstructable.
    #[verifier::spinoff_prover]
    fn rehearse(&self, messages: &[BackendMessage], framed: bool) -> (result: Result<
        Pipeline<P>,
        usize,
    >)
        ensures
            match result {
                Ok(after) => after@ == self@.answered_all(views(messages@)) && self@.emits_first(
                    views(messages@),
                    messages@.len() as int,
                ) && (framed ==> all_reconstructable(views(messages@), messages@.len() as int)),
                Err(at) => at < messages@.len() && self@.emits_first(views(messages@), at as int)
                    && (framed ==> all_reconstructable(views(messages@), at as int)) && !(
                self@.answered_all(views(messages@).take(at as int)).emits(
                    views(messages@)[at as int],
                ) && (framed ==> backend_frame(views(messages@)[at as int]) is Ok)),
            },
    {
        let ghost all = views(messages@);
        let ghost start = self@;
        let mut ledger = self.duplicate();
        let mut at: usize = 0;
        assert(all.take(0) =~= Seq::empty());
        while at < messages.len()
            invariant
                at <= messages@.len(),
                all == views(messages@),
                start == self@,
                ledger@ == start.answered_all(all.take(at as int)),
                start.emits_first(all, at as int),
                framed ==> all_reconstructable(all, at as int),
            decreases messages@.len() - at,
        {
            assert(all[at as int] == messages@[at as int]@);
            if framed && messages[at].to_frame().is_err() {
                return Err(at);
            }
            if !ledger.advance(&messages[at]) {
                return Err(at);
            }
            proof {
                lemma_one_more_emitted(start, all, at as int);
            }
            at = at + 1;
        }
        assert(all.take(at as int) =~= all);
        Ok(ledger)
    }

    /// Prepares an ordered one-to-one replacement of upstream responses, without
    /// touching this ledger. The ledger returned is the one to go on with once
    /// the replacements are emitted.
    ///
    /// # Errors
    ///
    /// Returns an error when the numbers differ, when a source is not
    /// attributable, when a replacement is illegal or not reconstructable, or
    /// when the replacements would consume another protocol span than the
    /// sources.
    pub fn prepare_backend_replacements(
        &self,
        sources: &[BackendMessage],
        replacements: &[BackendMessage],
    ) -> (result: Result<Pipeline<P>, BackendSequenceError>)
        ensures
            replaces(
                self@,
                views(sources@),
                views(replacements@),
                match result {
                    Ok(prepared) => Ok(prepared@),
                    Err(error) => Err(error),
                },
            ),
    {
        if sources.len() != replacements.len() {
            return Err(
                BackendSequenceError::Cardinality {
                    expected: sources.len(),
                    actual: replacements.len(),
                },
            );
        }
        let source = match self.rehearse(sources, false) {
            Ok(source) => source,
            Err(at) => return Err(BackendSequenceError::Source(at)),
        };
        let prepared = match self.rehearse(replacements, true) {
            Ok(prepared) => prepared,
            Err(at) => return Err(BackendSequenceError::Replacement(at)),
        };
        proof {
            lemma_answered_all_keeps_identity(self@, views(sources@));
            lemma_answered_all_keeps_identity(self@, views(replacements@));
        }
        if !same_operations(&source.operations, &prepared.operations) || source.request_state
            != prepared.request_state || source.response_state != prepared.response_state {
            return Err(BackendSequenceError::DifferentSpan);
        }
        Ok(prepared)
    }
}

proof fn lemma_one_more_emitted(ledger: Ledger, messages: Seq<BackendView>, count: int)
    requires
        0 <= count < messages.len(),
        ledger.emits_first(messages, count),
        ledger.answered_all(messages.take(count)).emits(messages[count]),
    ensures
        ledger.emits_first(messages, count + 1),
        ledger.answered_all(messages.take(count + 1)) == ledger.answered_all(
            messages.take(count),
        ).stepped(messages[count]),
{
    assert(messages.take(count + 1).drop_last() =~= messages.take(count));
}

proof fn lemma_answered_all_keeps_identity(ledger: Ledger, messages: Seq<BackendView>)
    ensures
        ledger.answered_all(messages).next_id == ledger.next_id,
        ledger.answered_all(messages).limit == ledger.limit,
    decreases messages.len(),
{
    if messages.len() > 0 {
        reveal(Ledger::stepped);
        lemma_answered_all_keeps_identity(ledger, messages.drop_last());
    }
}

/// A refused message, a response that is not emitted now, and asynchronous
/// traffic leave the outstanding operations alone.
pub proof fn law_only_emitted_responses_advance(
    ledger: Ledger,
    local: Option<OperationId>,
    message: BackendView,
)
    requires
        !(ledger.prepared(local, message) is Emit),
    ensures
        ledger.offered(local, message).operations == ledger.operations,
        ledger.offered(local, message).response == ledger.response,
        asynchronous(message) ==> ledger.offered(local, message) == ledger,
{
}

/// Responses keep request order: what is emitted answers the oldest outstanding
/// operation, from upstream if that operation was forwarded and synthesized if
/// it was handled locally.
pub proof fn law_only_the_head_is_answered(
    ledger: Ledger,
    local: Option<OperationId>,
    message: BackendView,
)
    requires
        ledger.prepared(local, message) is Emit,
    ensures
        ledger.operations.len() > 0,
        fits(ledger.operations[0], message),
        match local {
            None => ledger.operations[0].origin == Origin::Forwarded,
            Some(id) => ledger.operations[0].origin == Origin::Local && ledger.operations[0].id
                == id,
        },
{
}

/// What a response leaves outstanding is what was outstanding, in the same
/// order, less completed operations from the front.
pub proof fn law_responses_keep_order(ledger: Ledger, message: BackendView)
    requires
        ledger.operations.len() > 0,
    ensures
        ledger.answered(message).operations.len() <= ledger.operations.len(),
        forall|i: int|
            0 <= i < ledger.answered(message).operations.len() ==> {
                let kept = #[trigger] ledger.answered(message).operations[i];
                let was = ledger.operations[i + ledger.operations.len() - ledger.answered(
                    message,
                ).operations.len()];
                kept.id == was.id && kept.kind == was.kind && kept.origin == was.origin
            },
{
    let after = ledger.answered(message);
    let head = ledger.operations[0];
    let rest = ledger.operations.skip(1);
    if completes(head.kind, message) {
        let failed = message is ErrorResponse && extended_kind(head.kind);
        let left = if failed {
            discarded_to_sync(rest)
        } else {
            rest
        };
        lemma_awaiting(left);
        let cut = left.len() - after.operations.len();
        assert forall|i: int| 0 <= i < after.operations.len() implies ({
            let kept = #[trigger] after.operations[i];
            let was = ledger.operations[i + ledger.operations.len() - after.operations.len()];
            kept.id == was.id && kept.kind == was.kind && kept.origin == was.origin
        }) by {
            assert(after.operations[i] == left[i + cut]);
            assert(rest[i + cut] == ledger.operations[i + cut + 1]);
        }
    }
}

proof fn lemma_awaiting_discarded(operations: Seq<Operation>)
    requires
        forall|i: int|
            0 <= i < operations.len() && !synced_before(operations, i) ==> (
            #[trigger] operations[i]).discarded,
    ensures
        awaiting(operations).len() > 0 ==> live_sync(awaiting(operations)[0]),
    decreases operations.len(),
{
    if operations.len() > 0 {
        if live_sync(operations[0]) {
        } else {
            assert(!synced_before(operations, 0)) by {
                if synced_before(operations, 0) {
                    let i = choose|i: int|
                        0 <= i <= 0 && i < operations.len() && live_sync(#[trigger] operations[i]);
                    assert(i == 0);
                }
            }
            let rest = operations.skip(1);
            assert forall|i: int| 0 <= i < rest.len() && !synced_before(rest, i) implies (
            #[trigger] rest[i]).discarded by {
                assert(rest[i] == operations[i + 1]);
                if synced_before(operations, i + 1) {
                    let j = choose|j: int|
                        0 <= j <= i + 1 && j < operations.len() && live_sync(
                            #[trigger] operations[j],
                        );
                    assert(j > 0);
                    assert(live_sync(rest[j - 1]));
                    assert(synced_before(rest, i));
                }
            }
            lemma_awaiting_discarded(rest);
        }
    }
}

/// An extended error discards what follows it up to `Sync`: the next response
/// that is owed, if any, answers a `Sync`.
pub proof fn law_extended_error_discards_until_sync(ledger: Ledger, message: BackendView)
    requires
        ledger.operations.len() > 0,
        message is ErrorResponse,
        extended_kind(ledger.operations[0].kind),
        completes(ledger.operations[0].kind, message),
    ensures
        ledger.answered(message).operations.len() > 0 ==> live_sync(
            ledger.answered(message).operations[0],
        ),
        ledger.answered(message).operations.len() == 0 ==> ledger.answered(message).request is ExtendedError,
{
    let rest = ledger.operations.skip(1);
    let left = discarded_to_sync(rest);
    assert forall|i: int| 0 <= i < left.len() && !synced_before(left, i) implies (
    #[trigger] left[i]).discarded by {
        if synced_before(rest, i) {
            let j = choose|j: int|
                0 <= j <= i && j < rest.len() && live_sync(#[trigger] rest[j]);
            assert(synced_before(rest, j));
            assert(live_sync(left[j]));
        }
    }
    lemma_awaiting_discarded(left);
    if any_live_sync(rest) {
        let j = choose|j: int| 0 <= j < rest.len() && live_sync(#[trigger] rest[j]);
        assert(synced_before(rest, j));
        assert(live_sync(left[j]));
        lemma_awaiting_keeps_live(left, j);
    }
}

proof fn lemma_awaiting_keeps_live(operations: Seq<Operation>, at: int)
    requires
        0 <= at < operations.len(),
        live_sync(operations[at]),
    ensures
        awaiting(operations).len() > 0,
    decreases operations.len(),
{
    if inert(operations[0]) {
        assert(operations.skip(1)[at - 1] == operations[at]);
        lemma_awaiting_keeps_live(operations.skip(1), at - 1);
    }
}

/// After a local rejection nothing but `Sync` reaches the upstream, and what is
/// dropped on the way awaits no response.
pub proof fn law_local_rejection_withholds_until_sync(
    ledger: Ledger,
    message: FrontendView,
    handling: FrontendHandling,
)
    requires
        ledger.sound(),
        ledger.request == (RequestState::ExtendedError { local: true }),
        ledger.refusal(message) is None,
    ensures
        !(message is Sync) ==> !ledger.forwards(message, handling) && ledger.admitted(
            message,
            handling,
        ).request == ledger.request && (ledger.operations.len() == 0 ==> ledger.admitted(
            message,
            handling,
        ).operations.len() == 0),
        message is Sync ==> ledger.admitted(message, handling).request == RequestState::Ready,
{
    if !(message is Sync) && ledger.operations.len() == 0 {
        let after = ledger.admitted(message, handling);
        let (kind, request) = classified(ledger.request, message)->Some_0;
        let operation = Operation {
            id: OperationId::numbered(ledger.next_id),
            kind,
            origin: Origin::Local,
            discarded: true,
            response_state: first_phase(kind),
        };
        let all = ledger.operations.push(operation);
        assert(ledger.head_fed(message).push(operation) =~= all);
        assert(all.skip(1) =~= Seq::empty());
        assert(awaiting(all.skip(1)) =~= Seq::empty());
        assert(inert(all[0]));
    }
}

/// A refused message is handed back and changes nothing; and a full ledger refuses
/// every message for want of capacity, be it legal or not.
pub proof fn law_refused_requests_change_nothing(
    before: Ledger,
    message: FrontendMessage,
    handling: FrontendHandling,
    result: Result<FrontendAdmission, FrontendProjectionError>,
    after: Ledger,
)
    requires
        before.sound(),
        accepts(before, message, handling, result, after),
    ensures
        result matches Err(FrontendProjectionError::Capacity(returned)) ==> *returned == message
            && after == before,
        result matches Err(FrontendProjectionError::Illegal { message: returned, state })
            ==> *returned == message && state == before.state() && after == before,
        before.full() ==> result matches Err(FrontendProjectionError::Capacity(_)),
{
}

/// Outside a copy the ledger never grows beyond its limit.
pub proof fn law_ledger_is_bounded(
    ledger: Ledger,
    message: FrontendView,
    handling: FrontendHandling,
)
    requires
        !ledger.request.copying(),
        ledger.operations.len() <= ledger.limit,
        ledger.refusal(message) is None,
    ensures
        ledger.admitted(message, handling).operations.len() <= ledger.limit,
{
    let (kind, request) = classified(ledger.request, message)->Some_0;
    let operation = Operation {
        id: OperationId::numbered(ledger.next_id),
        kind,
        origin: if ledger.forwards(message, handling) {
            Origin::Forwarded
        } else {
            Origin::Local
        },
        discarded: request is ExtendedError && kind != OperationKind::Sync,
        response_state: first_phase(kind),
    };
    lemma_awaiting(ledger.head_fed(message).push(operation));
}

/// Completing an earlier `Sync` does not rewind the projection while a later extended
/// cycle is under way, nor once the connection terminates.
pub proof fn law_completed_sync_does_not_rewind(ledger: Ledger, message: BackendView)
    requires
        ledger.operations.len() > 0,
        ledger.operations[0].kind == OperationKind::Sync,
        completes(OperationKind::Sync, message),
        open_cycle(ledger.operations.skip(1)) || ledger.request == RequestState::Terminated,
    ensures
        ledger.answered(message).request == ledger.request,
{
}

/// A local rejection that waits for its turn stays in force while operations before
/// it complete.
pub proof fn law_waiting_rejection_stays_in_force(ledger: Ledger, message: BackendView)
    requires
        ledger.operations.len() > 0,
        completes(ledger.operations[0].kind, message),
        ledger.request == (RequestState::ExtendedError { local: true }),
        !(message is ErrorResponse && extended_kind(ledger.operations[0].kind)),
    ensures
        ledger.answered(message).request == ledger.request,
{
}

/// An error in an earlier cycle leaves the projection of later cycles alone once
/// the `Sync` that ends it was accepted.
pub proof fn law_error_before_accepted_sync_keeps_projection(ledger: Ledger, message: BackendView)
    requires
        ledger.operations.len() > 0,
        completes(ledger.operations[0].kind, message),
        !ledger.request.copying(),
        any_live_sync(ledger.operations.skip(1)),
        message is ErrorResponse,
        extended_kind(ledger.operations[0].kind),
    ensures
        ledger.answered(message).request == ledger.request,
{
}

/// A message that is accepted is legal in the backend grammar's phase.
pub proof fn law_accepted_messages_are_legal(ledger: Ledger, message: FrontendView)
    requires
        ledger.refusal(message) is None,
    ensures
        backend::external_event(ledger.request.phase(), message) matches Some(event)
            && backend::allowed(ledger.request.phase(), event) is Some,
{
    law_projected_events_are_allowed(ledger.request.phase(), BackendView::NoData, message);
}

} // verus!
