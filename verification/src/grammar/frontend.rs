//! Session grammar of a frontend, from its first idle moment on.

use bytes::Bytes;
use std::marker::PhantomData;
use vstd::prelude::*;

pub use super::{ChoiceKind, Effect};
use crate::codec::{
    BackendMessage, Bind, Close, CopyResponse, Describe, DiagnosticResponse, Execute,
    FrontendMessage, FunctionCall, Parse, TransactionStatus,
};
use crate::codec::backend::BackendView;
use crate::codec::frontend::FrontendView;
pub use crate::conn::{Dirty, Pristine};

verus! {

/// A phase of this grammar.
#[derive(Clone, Copy, Debug, PartialEq, Eq, Hash, Structural)]
pub enum RuntimeState {
    Ready,
    FunctionCalling,
    Simple,
    Building,
    BoundBuilding,
    AwaitingReady,
    CopyIn,
    CopyOut,
    CopyBoth,
    CopyBothClientDone,
    CopyBothServerDone,
    Draining,
    Resetting,
    ResetComplete,
    Terminated,
}

/// A step of this grammar.
#[derive(Clone, Copy, Debug, PartialEq, Eq, Hash, Structural)]
pub enum Event {
    Query,
    BeginExtended,
    FunctionCall,
    Reset,
    Terminate,
    FunctionResponse,
    Error,
    Continue,
    CopyIn,
    CopyOut,
    CopyBoth,
    Ready,
    Parse,
    Describe,
    Bind,
    Close,
    Flush,
    Sync,
    Execute,
    CopyData,
    CopyDone,
    CopyFail,
    SendCopyData,
    ReceiveCopyData,
    SendCopyDone,
    ReceiveCopyDone,
    DiscardComplete,
    ReadyClean,
    ReadyDirty,
}

/// An event that its phase does not allow. The machine stays in `state`.
#[derive(Clone, Copy, Debug, PartialEq, Eq, Structural)]
pub struct StepError {
    pub state: RuntimeState,
    pub event: Event,
}

/// Where an allowed event leads, who chooses it, and what it does to cleanliness.
#[derive(Clone, Copy, Debug, PartialEq, Eq, Structural)]
pub struct Transition {
    pub target: RuntimeState,
    pub choice: ChoiceKind,
    pub effect: Effect,
}

/// The outcome of an allowed event.
pub open spec fn to(target: RuntimeState, choice: ChoiceKind, effect: Effect) -> Option<Transition> {
    Some(Transition { target, choice, effect })
}

/// The grammar: which events each phase allows.
pub open spec fn allowed(state: RuntimeState, event: Event) -> Option<Transition> {
    match state {
        RuntimeState::Ready => match event {
            Event::Query => to(RuntimeState::Simple, ChoiceKind::Internal, Effect::Dirty),
            Event::BeginExtended => to(RuntimeState::Building, ChoiceKind::Internal, Effect::Unchanged),
            Event::FunctionCall => to(RuntimeState::FunctionCalling, ChoiceKind::Internal, Effect::Dirty),
            Event::Reset => to(RuntimeState::Resetting, ChoiceKind::Internal, Effect::Dirty),
            Event::Terminate => to(RuntimeState::Terminated, ChoiceKind::Internal, Effect::Unchanged),
            _ => None,
        },
        RuntimeState::FunctionCalling => match event {
            Event::FunctionResponse => to(RuntimeState::AwaitingReady, ChoiceKind::External, Effect::Unchanged),
            Event::Error => to(RuntimeState::Draining, ChoiceKind::External, Effect::Unchanged),
            _ => None,
        },
        RuntimeState::Simple => match event {
            Event::Continue => to(RuntimeState::Simple, ChoiceKind::External, Effect::Unchanged),
            Event::CopyIn => to(RuntimeState::CopyIn, ChoiceKind::External, Effect::Unchanged),
            Event::CopyOut => to(RuntimeState::CopyOut, ChoiceKind::External, Effect::Unchanged),
            Event::CopyBoth => to(RuntimeState::CopyBoth, ChoiceKind::External, Effect::Unchanged),
            Event::Ready => to(RuntimeState::Ready, ChoiceKind::External, Effect::Unchanged),
            Event::Error => to(RuntimeState::Draining, ChoiceKind::External, Effect::Unchanged),
            _ => None,
        },
        RuntimeState::Building => match event {
            Event::Parse => to(RuntimeState::Building, ChoiceKind::Internal, Effect::Dirty),
            Event::Describe => to(RuntimeState::Building, ChoiceKind::Internal, Effect::Unchanged),
            Event::Bind => to(RuntimeState::BoundBuilding, ChoiceKind::Internal, Effect::Dirty),
            Event::Close => to(RuntimeState::Building, ChoiceKind::Internal, Effect::Unchanged),
            Event::Flush => to(RuntimeState::Building, ChoiceKind::Internal, Effect::Unchanged),
            Event::Sync => to(RuntimeState::AwaitingReady, ChoiceKind::Internal, Effect::Unchanged),
            _ => None,
        },
        RuntimeState::BoundBuilding => match event {
            Event::Parse => to(RuntimeState::BoundBuilding, ChoiceKind::Internal, Effect::Dirty),
            Event::Describe => to(RuntimeState::BoundBuilding, ChoiceKind::Internal, Effect::Unchanged),
            Event::Bind => to(RuntimeState::BoundBuilding, ChoiceKind::Internal, Effect::Dirty),
            Event::Execute => to(RuntimeState::BoundBuilding, ChoiceKind::Internal, Effect::Unchanged),
            Event::Close => to(RuntimeState::BoundBuilding, ChoiceKind::Internal, Effect::Unchanged),
            Event::Flush => to(RuntimeState::BoundBuilding, ChoiceKind::Internal, Effect::Unchanged),
            Event::Sync => to(RuntimeState::AwaitingReady, ChoiceKind::Internal, Effect::Unchanged),
            _ => None,
        },
        RuntimeState::AwaitingReady => match event {
            Event::Continue => to(RuntimeState::AwaitingReady, ChoiceKind::External, Effect::Unchanged),
            Event::Ready => to(RuntimeState::Ready, ChoiceKind::External, Effect::Unchanged),
            Event::Error => to(RuntimeState::Draining, ChoiceKind::External, Effect::Unchanged),
            _ => None,
        },
        RuntimeState::CopyIn => match event {
            Event::CopyData => to(RuntimeState::CopyIn, ChoiceKind::Internal, Effect::Unchanged),
            Event::CopyDone => to(RuntimeState::AwaitingReady, ChoiceKind::Internal, Effect::Unchanged),
            Event::CopyFail => to(RuntimeState::AwaitingReady, ChoiceKind::Internal, Effect::Unchanged),
            Event::Error => to(RuntimeState::Draining, ChoiceKind::External, Effect::Unchanged),
            _ => None,
        },
        RuntimeState::CopyOut => match event {
            Event::CopyData => to(RuntimeState::CopyOut, ChoiceKind::External, Effect::Unchanged),
            Event::CopyDone => to(RuntimeState::AwaitingReady, ChoiceKind::External, Effect::Unchanged),
            Event::Error => to(RuntimeState::Draining, ChoiceKind::External, Effect::Unchanged),
            _ => None,
        },
        RuntimeState::CopyBoth => match event {
            Event::SendCopyData => to(RuntimeState::CopyBoth, ChoiceKind::Internal, Effect::Unchanged),
            Event::ReceiveCopyData => to(RuntimeState::CopyBoth, ChoiceKind::External, Effect::Unchanged),
            Event::SendCopyDone => to(RuntimeState::CopyBothClientDone, ChoiceKind::Internal, Effect::Unchanged),
            Event::ReceiveCopyDone => to(RuntimeState::CopyBothServerDone, ChoiceKind::External, Effect::Unchanged),
            Event::Error => to(RuntimeState::Draining, ChoiceKind::External, Effect::Unchanged),
            _ => None,
        },
        RuntimeState::CopyBothClientDone => match event {
            Event::ReceiveCopyData => to(RuntimeState::CopyBothClientDone, ChoiceKind::External, Effect::Unchanged),
            Event::ReceiveCopyDone => to(RuntimeState::AwaitingReady, ChoiceKind::External, Effect::Unchanged),
            Event::Error => to(RuntimeState::Draining, ChoiceKind::External, Effect::Unchanged),
            _ => None,
        },
        RuntimeState::CopyBothServerDone => match event {
            Event::SendCopyData => to(RuntimeState::CopyBothServerDone, ChoiceKind::Internal, Effect::Unchanged),
            Event::SendCopyDone => to(RuntimeState::AwaitingReady, ChoiceKind::Internal, Effect::Unchanged),
            _ => None,
        },
        RuntimeState::Draining => match event {
            Event::Continue => to(RuntimeState::Draining, ChoiceKind::External, Effect::Unchanged),
            Event::Ready => to(RuntimeState::Ready, ChoiceKind::External, Effect::Unchanged),
            _ => None,
        },
        RuntimeState::Resetting => match event {
            Event::Continue => to(RuntimeState::Resetting, ChoiceKind::External, Effect::Unchanged),
            Event::DiscardComplete => to(RuntimeState::ResetComplete, ChoiceKind::External, Effect::Unchanged),
            Event::Error => to(RuntimeState::Draining, ChoiceKind::External, Effect::Unchanged),
            _ => None,
        },
        RuntimeState::ResetComplete => match event {
            Event::Continue => to(RuntimeState::ResetComplete, ChoiceKind::External, Effect::Unchanged),
            Event::ReadyClean => to(RuntimeState::Ready, ChoiceKind::External, Effect::Pristine),
            Event::ReadyDirty => to(RuntimeState::Ready, ChoiceKind::External, Effect::Dirty),
            Event::Error => to(RuntimeState::Draining, ChoiceKind::External, Effect::Unchanged),
            _ => None,
        },
        RuntimeState::Terminated => None,
    }
}

/// Who chooses the next event in a phase.
pub open spec fn chooser(state: RuntimeState) -> ChoiceKind {
    match state {
        RuntimeState::Ready => ChoiceKind::Internal,
        RuntimeState::FunctionCalling => ChoiceKind::External,
        RuntimeState::Simple => ChoiceKind::External,
        RuntimeState::Building => ChoiceKind::Internal,
        RuntimeState::BoundBuilding => ChoiceKind::Internal,
        RuntimeState::AwaitingReady => ChoiceKind::External,
        RuntimeState::CopyIn => ChoiceKind::Mixed,
        RuntimeState::CopyOut => ChoiceKind::External,
        RuntimeState::CopyBoth => ChoiceKind::Mixed,
        RuntimeState::CopyBothClientDone => ChoiceKind::External,
        RuntimeState::CopyBothServerDone => ChoiceKind::Internal,
        RuntimeState::Draining => ChoiceKind::External,
        RuntimeState::Resetting => ChoiceKind::External,
        RuntimeState::ResetComplete => ChoiceKind::External,
        RuntimeState::Terminated => ChoiceKind::External,
    }
}

/// The locally chosen event that a message stands for in a phase.
pub open spec fn internal_event(state: RuntimeState, message: FrontendView) -> Option<Event> {
    match state {
        RuntimeState::Ready => match message {
            FrontendView::Query(_) => Some(Event::Query),
            FrontendView::FunctionCall(_) => Some(Event::FunctionCall),
            FrontendView::Terminate => Some(Event::Terminate),
            _ => None,
        },
        RuntimeState::Building => match message {
            FrontendView::Parse(_) => Some(Event::Parse),
            FrontendView::Describe(_) => Some(Event::Describe),
            FrontendView::Bind(_) => Some(Event::Bind),
            FrontendView::Close(_) => Some(Event::Close),
            FrontendView::Flush => Some(Event::Flush),
            FrontendView::Sync => Some(Event::Sync),
            _ => None,
        },
        RuntimeState::BoundBuilding => match message {
            FrontendView::Parse(_) => Some(Event::Parse),
            FrontendView::Describe(_) => Some(Event::Describe),
            FrontendView::Bind(_) => Some(Event::Bind),
            FrontendView::Execute(_) => Some(Event::Execute),
            FrontendView::Close(_) => Some(Event::Close),
            FrontendView::Flush => Some(Event::Flush),
            FrontendView::Sync => Some(Event::Sync),
            _ => None,
        },
        RuntimeState::CopyIn => match message {
            FrontendView::CopyData(_) => Some(Event::CopyData),
            FrontendView::CopyDone => Some(Event::CopyDone),
            FrontendView::CopyFail(_) => Some(Event::CopyFail),
            _ => None,
        },
        RuntimeState::CopyBoth => match message {
            FrontendView::CopyData(_) => Some(Event::SendCopyData),
            FrontendView::CopyDone => Some(Event::SendCopyDone),
            _ => None,
        },
        RuntimeState::CopyBothServerDone => match message {
            FrontendView::CopyData(_) => Some(Event::SendCopyData),
            FrontendView::CopyDone => Some(Event::SendCopyDone),
            _ => None,
        },
        _ => None,
    }
}

/// The peer's event that a message stands for in a phase.
pub open spec fn external_event(state: RuntimeState, message: BackendView) -> Option<Event> {
    match state {
        RuntimeState::FunctionCalling => match message {
            BackendView::FunctionCallResponse(_) => Some(Event::FunctionResponse),
            BackendView::ErrorResponse(_) => Some(Event::Error),
            _ => None,
        },
        RuntimeState::Simple => match message {
            BackendView::RowDescription(_)
            | BackendView::DataRow(_)
            | BackendView::CommandComplete(_)
            | BackendView::EmptyQueryResponse => Some(Event::Continue),
            BackendView::CopyInResponse(_) => Some(Event::CopyIn),
            BackendView::CopyOutResponse(_) => Some(Event::CopyOut),
            BackendView::CopyBothResponse(_) => Some(Event::CopyBoth),
            BackendView::ReadyForQuery(_) => Some(Event::Ready),
            BackendView::ErrorResponse(_) => Some(Event::Error),
            _ => None,
        },
        RuntimeState::AwaitingReady => match message {
            BackendView::ParseComplete
            | BackendView::BindComplete
            | BackendView::CloseComplete
            | BackendView::RowDescription(_)
            | BackendView::NoData
            | BackendView::ParameterDescription(_)
            | BackendView::DataRow(_)
            | BackendView::CommandComplete(_)
            | BackendView::PortalSuspended
            | BackendView::EmptyQueryResponse => Some(Event::Continue),
            BackendView::ReadyForQuery(_) => Some(Event::Ready),
            BackendView::ErrorResponse(_) => Some(Event::Error),
            _ => None,
        },
        RuntimeState::CopyIn => match message {
            BackendView::ErrorResponse(_) => Some(Event::Error),
            _ => None,
        },
        RuntimeState::CopyOut => match message {
            BackendView::CopyData(_) => Some(Event::CopyData),
            BackendView::CopyDone => Some(Event::CopyDone),
            BackendView::ErrorResponse(_) => Some(Event::Error),
            _ => None,
        },
        RuntimeState::CopyBoth => match message {
            BackendView::CopyData(_) => Some(Event::ReceiveCopyData),
            BackendView::CopyDone => Some(Event::ReceiveCopyDone),
            BackendView::ErrorResponse(_) => Some(Event::Error),
            _ => None,
        },
        RuntimeState::CopyBothClientDone => match message {
            BackendView::CopyData(_) => Some(Event::ReceiveCopyData),
            BackendView::CopyDone => Some(Event::ReceiveCopyDone),
            BackendView::ErrorResponse(_) => Some(Event::Error),
            _ => None,
        },
        RuntimeState::Draining => match message {
            BackendView::RowDescription(_)
            | BackendView::DataRow(_)
            | BackendView::CommandComplete(_)
            | BackendView::EmptyQueryResponse
            | BackendView::ParseComplete
            | BackendView::BindComplete
            | BackendView::CloseComplete
            | BackendView::NoData
            | BackendView::ParameterDescription(_)
            | BackendView::PortalSuspended => Some(Event::Continue),
            BackendView::ReadyForQuery(_) => Some(Event::Ready),
            _ => None,
        },
        RuntimeState::Resetting => match message {
            BackendView::RowDescription(_)
            | BackendView::DataRow(_)
            | BackendView::EmptyQueryResponse => Some(Event::Continue),
            BackendView::CommandComplete(_) => Some(Event::DiscardComplete),
            BackendView::ErrorResponse(_) => Some(Event::Error),
            _ => None,
        },
        RuntimeState::ResetComplete => match message {
            BackendView::RowDescription(_)
            | BackendView::DataRow(_)
            | BackendView::CommandComplete(_)
            | BackendView::EmptyQueryResponse => Some(Event::Continue),
            BackendView::ReadyForQuery(TransactionStatus::Idle) => Some(Event::ReadyClean),
            BackendView::ReadyForQuery(TransactionStatus::InTransaction | TransactionStatus::FailedTransaction) => Some(Event::ReadyDirty),
            BackendView::ErrorResponse(_) => Some(Event::Error),
            _ => None,
        },
        _ => None,
    }
}

/// What an event does in a phase, where the phase allows it.
pub fn transition(state: RuntimeState, event: Event) -> (result: Option<Transition>)
    ensures
        result == allowed(state, event),
{
    let (target, choice, effect) = match state {
        RuntimeState::Ready => match event {
            Event::Query => (RuntimeState::Simple, ChoiceKind::Internal, Effect::Dirty),
            Event::BeginExtended => (RuntimeState::Building, ChoiceKind::Internal, Effect::Unchanged),
            Event::FunctionCall => (RuntimeState::FunctionCalling, ChoiceKind::Internal, Effect::Dirty),
            Event::Reset => (RuntimeState::Resetting, ChoiceKind::Internal, Effect::Dirty),
            Event::Terminate => (RuntimeState::Terminated, ChoiceKind::Internal, Effect::Unchanged),
            _ => return None,
        },
        RuntimeState::FunctionCalling => match event {
            Event::FunctionResponse => (RuntimeState::AwaitingReady, ChoiceKind::External, Effect::Unchanged),
            Event::Error => (RuntimeState::Draining, ChoiceKind::External, Effect::Unchanged),
            _ => return None,
        },
        RuntimeState::Simple => match event {
            Event::Continue => (RuntimeState::Simple, ChoiceKind::External, Effect::Unchanged),
            Event::CopyIn => (RuntimeState::CopyIn, ChoiceKind::External, Effect::Unchanged),
            Event::CopyOut => (RuntimeState::CopyOut, ChoiceKind::External, Effect::Unchanged),
            Event::CopyBoth => (RuntimeState::CopyBoth, ChoiceKind::External, Effect::Unchanged),
            Event::Ready => (RuntimeState::Ready, ChoiceKind::External, Effect::Unchanged),
            Event::Error => (RuntimeState::Draining, ChoiceKind::External, Effect::Unchanged),
            _ => return None,
        },
        RuntimeState::Building => match event {
            Event::Parse => (RuntimeState::Building, ChoiceKind::Internal, Effect::Dirty),
            Event::Describe => (RuntimeState::Building, ChoiceKind::Internal, Effect::Unchanged),
            Event::Bind => (RuntimeState::BoundBuilding, ChoiceKind::Internal, Effect::Dirty),
            Event::Close => (RuntimeState::Building, ChoiceKind::Internal, Effect::Unchanged),
            Event::Flush => (RuntimeState::Building, ChoiceKind::Internal, Effect::Unchanged),
            Event::Sync => (RuntimeState::AwaitingReady, ChoiceKind::Internal, Effect::Unchanged),
            _ => return None,
        },
        RuntimeState::BoundBuilding => match event {
            Event::Parse => (RuntimeState::BoundBuilding, ChoiceKind::Internal, Effect::Dirty),
            Event::Describe => (RuntimeState::BoundBuilding, ChoiceKind::Internal, Effect::Unchanged),
            Event::Bind => (RuntimeState::BoundBuilding, ChoiceKind::Internal, Effect::Dirty),
            Event::Execute => (RuntimeState::BoundBuilding, ChoiceKind::Internal, Effect::Unchanged),
            Event::Close => (RuntimeState::BoundBuilding, ChoiceKind::Internal, Effect::Unchanged),
            Event::Flush => (RuntimeState::BoundBuilding, ChoiceKind::Internal, Effect::Unchanged),
            Event::Sync => (RuntimeState::AwaitingReady, ChoiceKind::Internal, Effect::Unchanged),
            _ => return None,
        },
        RuntimeState::AwaitingReady => match event {
            Event::Continue => (RuntimeState::AwaitingReady, ChoiceKind::External, Effect::Unchanged),
            Event::Ready => (RuntimeState::Ready, ChoiceKind::External, Effect::Unchanged),
            Event::Error => (RuntimeState::Draining, ChoiceKind::External, Effect::Unchanged),
            _ => return None,
        },
        RuntimeState::CopyIn => match event {
            Event::CopyData => (RuntimeState::CopyIn, ChoiceKind::Internal, Effect::Unchanged),
            Event::CopyDone => (RuntimeState::AwaitingReady, ChoiceKind::Internal, Effect::Unchanged),
            Event::CopyFail => (RuntimeState::AwaitingReady, ChoiceKind::Internal, Effect::Unchanged),
            Event::Error => (RuntimeState::Draining, ChoiceKind::External, Effect::Unchanged),
            _ => return None,
        },
        RuntimeState::CopyOut => match event {
            Event::CopyData => (RuntimeState::CopyOut, ChoiceKind::External, Effect::Unchanged),
            Event::CopyDone => (RuntimeState::AwaitingReady, ChoiceKind::External, Effect::Unchanged),
            Event::Error => (RuntimeState::Draining, ChoiceKind::External, Effect::Unchanged),
            _ => return None,
        },
        RuntimeState::CopyBoth => match event {
            Event::SendCopyData => (RuntimeState::CopyBoth, ChoiceKind::Internal, Effect::Unchanged),
            Event::ReceiveCopyData => (RuntimeState::CopyBoth, ChoiceKind::External, Effect::Unchanged),
            Event::SendCopyDone => (RuntimeState::CopyBothClientDone, ChoiceKind::Internal, Effect::Unchanged),
            Event::ReceiveCopyDone => (RuntimeState::CopyBothServerDone, ChoiceKind::External, Effect::Unchanged),
            Event::Error => (RuntimeState::Draining, ChoiceKind::External, Effect::Unchanged),
            _ => return None,
        },
        RuntimeState::CopyBothClientDone => match event {
            Event::ReceiveCopyData => (RuntimeState::CopyBothClientDone, ChoiceKind::External, Effect::Unchanged),
            Event::ReceiveCopyDone => (RuntimeState::AwaitingReady, ChoiceKind::External, Effect::Unchanged),
            Event::Error => (RuntimeState::Draining, ChoiceKind::External, Effect::Unchanged),
            _ => return None,
        },
        RuntimeState::CopyBothServerDone => match event {
            Event::SendCopyData => (RuntimeState::CopyBothServerDone, ChoiceKind::Internal, Effect::Unchanged),
            Event::SendCopyDone => (RuntimeState::AwaitingReady, ChoiceKind::Internal, Effect::Unchanged),
            _ => return None,
        },
        RuntimeState::Draining => match event {
            Event::Continue => (RuntimeState::Draining, ChoiceKind::External, Effect::Unchanged),
            Event::Ready => (RuntimeState::Ready, ChoiceKind::External, Effect::Unchanged),
            _ => return None,
        },
        RuntimeState::Resetting => match event {
            Event::Continue => (RuntimeState::Resetting, ChoiceKind::External, Effect::Unchanged),
            Event::DiscardComplete => (RuntimeState::ResetComplete, ChoiceKind::External, Effect::Unchanged),
            Event::Error => (RuntimeState::Draining, ChoiceKind::External, Effect::Unchanged),
            _ => return None,
        },
        RuntimeState::ResetComplete => match event {
            Event::Continue => (RuntimeState::ResetComplete, ChoiceKind::External, Effect::Unchanged),
            Event::ReadyClean => (RuntimeState::Ready, ChoiceKind::External, Effect::Pristine),
            Event::ReadyDirty => (RuntimeState::Ready, ChoiceKind::External, Effect::Dirty),
            Event::Error => (RuntimeState::Draining, ChoiceKind::External, Effect::Unchanged),
            _ => return None,
        },
        RuntimeState::Terminated => return None,
    };
    Some(Transition { target, choice, effect })
}

/// The locally chosen event that a message stands for in a phase, if it is legal there.
pub fn project_internal(state: RuntimeState, message: &FrontendMessage) -> (event: Option<Event>)
    ensures
        event == internal_event(state, message@),
{
    match state {
        RuntimeState::Ready => match message {
            FrontendMessage::Query(_) => Some(Event::Query),
            FrontendMessage::FunctionCall(_) => Some(Event::FunctionCall),
            FrontendMessage::Terminate => Some(Event::Terminate),
            _ => None,
        },
        RuntimeState::Building => match message {
            FrontendMessage::Parse(_) => Some(Event::Parse),
            FrontendMessage::Describe(_) => Some(Event::Describe),
            FrontendMessage::Bind(_) => Some(Event::Bind),
            FrontendMessage::Close(_) => Some(Event::Close),
            FrontendMessage::Flush => Some(Event::Flush),
            FrontendMessage::Sync => Some(Event::Sync),
            _ => None,
        },
        RuntimeState::BoundBuilding => match message {
            FrontendMessage::Parse(_) => Some(Event::Parse),
            FrontendMessage::Describe(_) => Some(Event::Describe),
            FrontendMessage::Bind(_) => Some(Event::Bind),
            FrontendMessage::Execute(_) => Some(Event::Execute),
            FrontendMessage::Close(_) => Some(Event::Close),
            FrontendMessage::Flush => Some(Event::Flush),
            FrontendMessage::Sync => Some(Event::Sync),
            _ => None,
        },
        RuntimeState::CopyIn => match message {
            FrontendMessage::CopyData(_) => Some(Event::CopyData),
            FrontendMessage::CopyDone => Some(Event::CopyDone),
            FrontendMessage::CopyFail(_) => Some(Event::CopyFail),
            _ => None,
        },
        RuntimeState::CopyBoth => match message {
            FrontendMessage::CopyData(_) => Some(Event::SendCopyData),
            FrontendMessage::CopyDone => Some(Event::SendCopyDone),
            _ => None,
        },
        RuntimeState::CopyBothServerDone => match message {
            FrontendMessage::CopyData(_) => Some(Event::SendCopyData),
            FrontendMessage::CopyDone => Some(Event::SendCopyDone),
            _ => None,
        },
        _ => None,
    }
}

/// The peer's event that a message stands for in a phase, if it is legal there.
pub fn project_external(state: RuntimeState, message: &BackendMessage) -> (event: Option<Event>)
    ensures
        event == external_event(state, message@),
{
    match state {
        RuntimeState::FunctionCalling => match message {
            BackendMessage::FunctionCallResponse(_) => Some(Event::FunctionResponse),
            BackendMessage::ErrorResponse(_) => Some(Event::Error),
            _ => None,
        },
        RuntimeState::Simple => match message {
            BackendMessage::RowDescription(_)
            | BackendMessage::DataRow(_)
            | BackendMessage::CommandComplete(_)
            | BackendMessage::EmptyQueryResponse => Some(Event::Continue),
            BackendMessage::CopyInResponse(_) => Some(Event::CopyIn),
            BackendMessage::CopyOutResponse(_) => Some(Event::CopyOut),
            BackendMessage::CopyBothResponse(_) => Some(Event::CopyBoth),
            BackendMessage::ReadyForQuery(_) => Some(Event::Ready),
            BackendMessage::ErrorResponse(_) => Some(Event::Error),
            _ => None,
        },
        RuntimeState::AwaitingReady => match message {
            BackendMessage::ParseComplete
            | BackendMessage::BindComplete
            | BackendMessage::CloseComplete
            | BackendMessage::RowDescription(_)
            | BackendMessage::NoData
            | BackendMessage::ParameterDescription(_)
            | BackendMessage::DataRow(_)
            | BackendMessage::CommandComplete(_)
            | BackendMessage::PortalSuspended
            | BackendMessage::EmptyQueryResponse => Some(Event::Continue),
            BackendMessage::ReadyForQuery(_) => Some(Event::Ready),
            BackendMessage::ErrorResponse(_) => Some(Event::Error),
            _ => None,
        },
        RuntimeState::CopyIn => match message {
            BackendMessage::ErrorResponse(_) => Some(Event::Error),
            _ => None,
        },
        RuntimeState::CopyOut => match message {
            BackendMessage::CopyData(_) => Some(Event::CopyData),
            BackendMessage::CopyDone => Some(Event::CopyDone),
            BackendMessage::ErrorResponse(_) => Some(Event::Error),
            _ => None,
        },
        RuntimeState::CopyBoth => match message {
            BackendMessage::CopyData(_) => Some(Event::ReceiveCopyData),
            BackendMessage::CopyDone => Some(Event::ReceiveCopyDone),
            BackendMessage::ErrorResponse(_) => Some(Event::Error),
            _ => None,
        },
        RuntimeState::CopyBothClientDone => match message {
            BackendMessage::CopyData(_) => Some(Event::ReceiveCopyData),
            BackendMessage::CopyDone => Some(Event::ReceiveCopyDone),
            BackendMessage::ErrorResponse(_) => Some(Event::Error),
            _ => None,
        },
        RuntimeState::Draining => match message {
            BackendMessage::RowDescription(_)
            | BackendMessage::DataRow(_)
            | BackendMessage::CommandComplete(_)
            | BackendMessage::EmptyQueryResponse
            | BackendMessage::ParseComplete
            | BackendMessage::BindComplete
            | BackendMessage::CloseComplete
            | BackendMessage::NoData
            | BackendMessage::ParameterDescription(_)
            | BackendMessage::PortalSuspended => Some(Event::Continue),
            BackendMessage::ReadyForQuery(_) => Some(Event::Ready),
            _ => None,
        },
        RuntimeState::Resetting => match message {
            BackendMessage::RowDescription(_)
            | BackendMessage::DataRow(_)
            | BackendMessage::EmptyQueryResponse => Some(Event::Continue),
            BackendMessage::CommandComplete(_) => Some(Event::DiscardComplete),
            BackendMessage::ErrorResponse(_) => Some(Event::Error),
            _ => None,
        },
        RuntimeState::ResetComplete => match message {
            BackendMessage::RowDescription(_)
            | BackendMessage::DataRow(_)
            | BackendMessage::CommandComplete(_)
            | BackendMessage::EmptyQueryResponse => Some(Event::Continue),
            BackendMessage::ReadyForQuery(TransactionStatus::Idle) => Some(Event::ReadyClean),
            BackendMessage::ReadyForQuery(TransactionStatus::InTransaction | TransactionStatus::FailedTransaction) => Some(Event::ReadyDirty),
            BackendMessage::ErrorResponse(_) => Some(Event::Error),
            _ => None,
        },
        _ => None,
    }
}

/// Every event of this grammar, once.
pub fn all_events() -> (events: Vec<Event>)
    ensures
        events@.no_duplicates(),
        forall|event: Event| #[trigger] events@.contains(event),
{
    let events = vec![
        Event::Query,
        Event::BeginExtended,
        Event::FunctionCall,
        Event::Reset,
        Event::Terminate,
        Event::FunctionResponse,
        Event::Error,
        Event::Continue,
        Event::CopyIn,
        Event::CopyOut,
        Event::CopyBoth,
        Event::Ready,
        Event::Parse,
        Event::Describe,
        Event::Bind,
        Event::Close,
        Event::Flush,
        Event::Sync,
        Event::Execute,
        Event::CopyData,
        Event::CopyDone,
        Event::CopyFail,
        Event::SendCopyData,
        Event::ReceiveCopyData,
        Event::SendCopyDone,
        Event::ReceiveCopyDone,
        Event::DiscardComplete,
        Event::ReadyClean,
        Event::ReadyDirty,
    ];
    assert forall|event: Event| #[trigger] events@.contains(event) by {
        match event {
            Event::Query => assert(events@[0] == event),
            Event::BeginExtended => assert(events@[1] == event),
            Event::FunctionCall => assert(events@[2] == event),
            Event::Reset => assert(events@[3] == event),
            Event::Terminate => assert(events@[4] == event),
            Event::FunctionResponse => assert(events@[5] == event),
            Event::Error => assert(events@[6] == event),
            Event::Continue => assert(events@[7] == event),
            Event::CopyIn => assert(events@[8] == event),
            Event::CopyOut => assert(events@[9] == event),
            Event::CopyBoth => assert(events@[10] == event),
            Event::Ready => assert(events@[11] == event),
            Event::Parse => assert(events@[12] == event),
            Event::Describe => assert(events@[13] == event),
            Event::Bind => assert(events@[14] == event),
            Event::Close => assert(events@[15] == event),
            Event::Flush => assert(events@[16] == event),
            Event::Sync => assert(events@[17] == event),
            Event::Execute => assert(events@[18] == event),
            Event::CopyData => assert(events@[19] == event),
            Event::CopyDone => assert(events@[20] == event),
            Event::CopyFail => assert(events@[21] == event),
            Event::SendCopyData => assert(events@[22] == event),
            Event::ReceiveCopyData => assert(events@[23] == event),
            Event::SendCopyDone => assert(events@[24] == event),
            Event::ReceiveCopyDone => assert(events@[25] == event),
            Event::DiscardComplete => assert(events@[26] == event),
            Event::ReadyClean => assert(events@[27] == event),
            Event::ReadyDirty => assert(events@[28] == event),
        }
    }
    events
}

/// Runtime machine that follows this grammar.
#[derive(Clone, Copy, Debug, PartialEq, Eq, Structural)]
pub struct RuntimeFsm {
    state: RuntimeState,
}

impl RuntimeFsm {
    /// The phase that the machine is in.
    pub closed spec fn current(self) -> RuntimeState {
        self.state
    }

    /// A machine in the initial phase.
    pub fn new() -> (machine: RuntimeFsm)
        ensures
            machine.current() == RuntimeState::Ready,
    {
        RuntimeFsm { state: RuntimeState::Ready }
    }

    /// The phase that the machine is in.
    pub fn state(&self) -> (state: RuntimeState)
        ensures
            state == self.current(),
    {
        self.state
    }

    /// Who chooses the next event.
    pub fn choice(&self) -> (choice: ChoiceKind)
        ensures
            choice == chooser(self.current()),
    {
        match self.state {
            RuntimeState::Ready => ChoiceKind::Internal,
            RuntimeState::FunctionCalling => ChoiceKind::External,
            RuntimeState::Simple => ChoiceKind::External,
            RuntimeState::Building => ChoiceKind::Internal,
            RuntimeState::BoundBuilding => ChoiceKind::Internal,
            RuntimeState::AwaitingReady => ChoiceKind::External,
            RuntimeState::CopyIn => ChoiceKind::Mixed,
            RuntimeState::CopyOut => ChoiceKind::External,
            RuntimeState::CopyBoth => ChoiceKind::Mixed,
            RuntimeState::CopyBothClientDone => ChoiceKind::External,
            RuntimeState::CopyBothServerDone => ChoiceKind::Internal,
            RuntimeState::Draining => ChoiceKind::External,
            RuntimeState::Resetting => ChoiceKind::External,
            RuntimeState::ResetComplete => ChoiceKind::External,
            RuntimeState::Terminated => ChoiceKind::External,
        }
    }

    /// Who chooses `event` in the current phase, if the phase allows it.
    pub fn event_choice(&self, event: Event) -> (choice: Option<ChoiceKind>)
        ensures
            choice == choice_of(allowed(self.current(), event)),
    {
        match transition(self.state, event) {
            Some(transition) => Some(transition.choice),
            None => None,
        }
    }

    /// Who chooses `event` as seen from the peer.
    pub fn dual_event_choice(&self, event: Event) -> (choice: Option<ChoiceKind>)
        ensures
            choice == match choice_of(allowed(self.current(), event)) {
                Some(choice) => Some(choice.flipped()),
                None => None,
            },
    {
        match transition(self.state, event) {
            Some(transition) => Some(transition.choice.dual()),
            None => None,
        }
    }

    /// Follows an event.
    ///
    /// # Errors
    ///
    /// Returns the event when the current phase does not allow it; the machine
    /// then stays where it was.
    pub fn step(&mut self, event: Event) -> (result: Result<(), StepError>)
        ensures
            match allowed(old(self).current(), event) {
                Some(transition) => result == Ok::<(), StepError>(()) && final(self).current()
                    == transition.target,
                None => result == Err::<(), StepError>(
                    (StepError { state: old(self).current(), event }),
                ) && *final(self) == *old(self),
            },
    {
        match transition(self.state, event) {
            Some(transition) => {
                self.state = transition.target;
                Ok(())
            },
            None => Err(StepError { state: self.state, event }),
        }
    }

    /// Projects a wire message in the current phase and follows the event.
    ///
    /// # Errors
    ///
    /// Returns the current phase when it has no event for the message, or does
    /// not allow the event; the machine then stays where it was.
    pub fn step_projected<M, F: Fn(RuntimeState, &M) -> Option<Event>>(
        &mut self,
        message: &M,
        project: F,
    ) -> (result: Result<Event, RuntimeState>)
        requires
            call_requires(project, (old(self).current(), message)),
        ensures
            match result {
                Ok(event) => call_ensures(
                    project,
                    (old(self).current(), message),
                    Some(event),
                ) && allowed(old(self).current(), event) is Some && final(self).current()
                    == allowed(old(self).current(), event)->Some_0.target,
                Err(state) => {
                    &&& *final(self) == *old(self)
                    &&& state == old(self).current()
                    &&& exists|event: Option<Event>| #[trigger]
                        call_ensures(project, (old(self).current(), message), event) && (
                        event matches Some(event) ==> allowed(old(self).current(), event) is None)
                },
            },
    {
        match project(self.state, message) {
            Some(event) => match self.step(event) {
                Ok(_) => Ok(event),
                Err(_) => Err(self.state),
            },
            None => Err(self.state),
        }
    }
}

/// Who chooses an event, where it is allowed.
pub open spec fn choice_of(transition: Option<Transition>) -> Option<ChoiceKind> {
    match transition {
        Some(transition) => Some(transition.choice),
        None => None,
    }
}

impl Default for RuntimeFsm {
    fn default() -> (machine: RuntimeFsm)
        ensures
            machine.current() == RuntimeState::Ready,
    {
        RuntimeFsm::new()
    }
}

/// A compile-time phase index.
pub trait Phase {
    /// The runtime phase of the same name.
    spec fn state() -> RuntimeState;

    /// The runtime phase of the same name.
    fn runtime_state() -> (state: RuntimeState)
        ensures
            state == Self::state(),
    ;
}

/// Phase index.
#[derive(Debug)]
pub struct Ready;

impl Phase for Ready {
    open spec fn state() -> RuntimeState {
        RuntimeState::Ready
    }

    fn runtime_state() -> (state: RuntimeState) {
        RuntimeState::Ready
    }
}

/// Phase index.
#[derive(Debug)]
pub struct FunctionCalling;

impl Phase for FunctionCalling {
    open spec fn state() -> RuntimeState {
        RuntimeState::FunctionCalling
    }

    fn runtime_state() -> (state: RuntimeState) {
        RuntimeState::FunctionCalling
    }
}

/// Phase index.
#[derive(Debug)]
pub struct Simple;

impl Phase for Simple {
    open spec fn state() -> RuntimeState {
        RuntimeState::Simple
    }

    fn runtime_state() -> (state: RuntimeState) {
        RuntimeState::Simple
    }
}

/// Phase index.
#[derive(Debug)]
pub struct Building;

impl Phase for Building {
    open spec fn state() -> RuntimeState {
        RuntimeState::Building
    }

    fn runtime_state() -> (state: RuntimeState) {
        RuntimeState::Building
    }
}

/// Phase index.
#[derive(Debug)]
pub struct BoundBuilding;

impl Phase for BoundBuilding {
    open spec fn state() -> RuntimeState {
        RuntimeState::BoundBuilding
    }

    fn runtime_state() -> (state: RuntimeState) {
        RuntimeState::BoundBuilding
    }
}

/// Phase index.
#[derive(Debug)]
pub struct AwaitingReady;

impl Phase for AwaitingReady {
    open spec fn state() -> RuntimeState {
        RuntimeState::AwaitingReady
    }

    fn runtime_state() -> (state: RuntimeState) {
        RuntimeState::AwaitingReady
    }
}

/// Phase index.
#[derive(Debug)]
pub struct CopyIn;

impl Phase for CopyIn {
    open spec fn state() -> RuntimeState {
        RuntimeState::CopyIn
    }

    fn runtime_state() -> (state: RuntimeState) {
        RuntimeState::CopyIn
    }
}

/// Phase index.
#[derive(Debug)]
pub struct CopyOut;

impl Phase for CopyOut {
    open spec fn state() -> RuntimeState {
        RuntimeState::CopyOut
    }

    fn runtime_state() -> (state: RuntimeState) {
        RuntimeState::CopyOut
    }
}

/// Phase index.
#[derive(Debug)]
pub struct CopyBoth;

impl Phase for CopyBoth {
    open spec fn state() -> RuntimeState {
        RuntimeState::CopyBoth
    }

    fn runtime_state() -> (state: RuntimeState) {
        RuntimeState::CopyBoth
    }
}

/// Phase index.
#[derive(Debug)]
pub struct CopyBothClientDone;

impl Phase for CopyBothClientDone {
    open spec fn state() -> RuntimeState {
        RuntimeState::CopyBothClientDone
    }

    fn runtime_state() -> (state: RuntimeState) {
        RuntimeState::CopyBothClientDone
    }
}

/// Phase index.
#[derive(Debug)]
pub struct CopyBothServerDone;

impl Phase for CopyBothServerDone {
    open spec fn state() -> RuntimeState {
        RuntimeState::CopyBothServerDone
    }

    fn runtime_state() -> (state: RuntimeState) {
        RuntimeState::CopyBothServerDone
    }
}

/// Phase index.
#[derive(Debug)]
pub struct Draining;

impl Phase for Draining {
    open spec fn state() -> RuntimeState {
        RuntimeState::Draining
    }

    fn runtime_state() -> (state: RuntimeState) {
        RuntimeState::Draining
    }
}

/// Phase index.
#[derive(Debug)]
pub struct Resetting;

impl Phase for Resetting {
    open spec fn state() -> RuntimeState {
        RuntimeState::Resetting
    }

    fn runtime_state() -> (state: RuntimeState) {
        RuntimeState::Resetting
    }
}

/// Phase index.
#[derive(Debug)]
pub struct ResetComplete;

impl Phase for ResetComplete {
    open spec fn state() -> RuntimeState {
        RuntimeState::ResetComplete
    }

    fn runtime_state() -> (state: RuntimeState) {
        RuntimeState::ResetComplete
    }
}

/// Phase index.
#[derive(Debug)]
pub struct Terminated;

impl Phase for Terminated {
    open spec fn state() -> RuntimeState {
        RuntimeState::Terminated
    }

    fn runtime_state() -> (state: RuntimeState) {
        RuntimeState::Terminated
    }
}

/// Payload-free witness that a sequence of events follows this grammar. Each
/// phase offers only the events that it allows.
#[derive(Debug)]
pub struct Session<P> {
    _phase: PhantomData<P>,
}

impl<P: Phase> Session<P> {
    /// The runtime phase that this witness stands for.
    pub open spec fn state(self) -> RuntimeState {
        P::state()
    }
}

/// A transport together with the phase and cleanliness that its events led to.
#[derive(Debug)]
pub struct TypedSession<T, P, C> {
    transport: T,
    _index: PhantomData<(P, C)>,
}

impl<T, P, C> TypedSession<T, P, C> {
    /// The transport held.
    pub closed spec fn held(self) -> T {
        self.transport
    }

    /// Starts from a transport that is in phase `P`.
    pub fn with_transport(transport: T) -> (session: Self)
        ensures
            session.held() == transport,
    {
        TypedSession { transport, _index: PhantomData }
    }

    /// Returns the transport when deliberately leaving the typed API.
    pub fn into_transport(self) -> (transport: T)
        ensures
            transport == self.held(),
    {
        self.transport
    }

    /// Changes transport representation without changing either index.
    pub fn map_transport<N, F: FnOnce(T) -> N>(self, map: F) -> (session: TypedSession<N, P, C>)
        requires
            call_requires(map, (self.held(),)),
        ensures
            call_ensures(map, (self.held(),), session.held()),
    {
        TypedSession { transport: map(self.transport), _index: PhantomData }
    }

    fn advanced<N, D>(self) -> (session: TypedSession<T, N, D>)
        ensures
            session.held() == self.held(),
    {
        TypedSession { transport: self.transport, _index: PhantomData }
    }

    fn run<N, D, M, O, E, H: FnOnce(T, M) -> (T, Result<O, E>)>(self, payload: M, handler: H) -> (
        result: Result<(TypedSession<T, N, D>, O), (Self, E)>)
        requires
            call_requires(handler, (self.held(), payload)),
        ensures
            match result {
                Ok((next, out)) => call_ensures(
                    handler,
                    (self.held(), payload),
                    (next.held(), Ok::<O, E>(out)),
                ),
                Err((same, error)) => call_ensures(
                    handler,
                    (self.held(), payload),
                    (same.held(), Err::<O, E>(error)),
                ),
            },
    {
        let (transport, outcome) = handler(self.transport, payload);
        match outcome {
            Ok(out) => Ok((TypedSession { transport, _index: PhantomData }, out)),
            Err(error) => Err((TypedSession { transport, _index: PhantomData }, error)),
        }
    }
}

impl<T, P: Phase, C> TypedSession<T, P, C> {
    /// The runtime phase that this session is in.
    pub open spec fn state(self) -> RuntimeState {
        P::state()
    }
}

/// A message that the local side may send in the phase `P`.
pub struct InternalMessage<P: Phase> {
    message: FrontendMessage,
    event: Event,
    _phase: PhantomData<P>,
}

impl<P: Phase> InternalMessage<P> {
    /// The message itself.
    pub closed spec fn wire(self) -> FrontendMessage {
        self.message
    }

    #[verifier::type_invariant]
    spec fn legal(&self) -> bool {
        internal_event(P::state(), self.message@) == Some(self.event)
    }

    /// Admits a message that is legal in this phase, and returns any other.
    pub fn try_from(message: FrontendMessage) -> (result: Result<Self, FrontendMessage>)
        ensures
            match result {
                Ok(admitted) => admitted.wire() == message && internal_event(
                    P::state(),
                    message@,
                ) is Some,
                Err(returned) => returned == message && internal_event(P::state(), message@) is None,
            },
    {
        match project_internal(P::runtime_state(), &message) {
            Some(event) => Ok(InternalMessage { message, event, _phase: PhantomData }),
            None => Err(message),
        }
    }

    /// The event that the message stands for.
    pub fn event(&self) -> (event: Event)
        ensures
            internal_event(P::state(), self.wire()@) == Some(event),
    {
        proof {
            use_type_invariant(self);
        }
        self.event
    }

    /// Borrows the message.
    pub fn as_wire(&self) -> (message: &FrontendMessage)
        ensures
            *message == self.wire(),
    {
        &self.message
    }

    /// Returns the message.
    pub fn into_wire(self) -> (message: FrontendMessage)
        ensures
            message == self.wire(),
            internal_event(P::state(), message@) is Some,
    {
        proof {
            use_type_invariant(&self);
        }
        self.message
    }
}

pub type ReadyInternalMessage = InternalMessage<Ready>;

pub type FunctionCallingInternalMessage = InternalMessage<FunctionCalling>;

pub type SimpleInternalMessage = InternalMessage<Simple>;

pub type BuildingInternalMessage = InternalMessage<Building>;

pub type BoundBuildingInternalMessage = InternalMessage<BoundBuilding>;

pub type AwaitingReadyInternalMessage = InternalMessage<AwaitingReady>;

pub type CopyInInternalMessage = InternalMessage<CopyIn>;

pub type CopyOutInternalMessage = InternalMessage<CopyOut>;

pub type CopyBothInternalMessage = InternalMessage<CopyBoth>;

pub type CopyBothClientDoneInternalMessage = InternalMessage<CopyBothClientDone>;

pub type CopyBothServerDoneInternalMessage = InternalMessage<CopyBothServerDone>;

pub type DrainingInternalMessage = InternalMessage<Draining>;

pub type ResettingInternalMessage = InternalMessage<Resetting>;

pub type ResetCompleteInternalMessage = InternalMessage<ResetComplete>;

pub type TerminatedInternalMessage = InternalMessage<Terminated>;

/// A message that the peer may send in the phase `P`.
pub struct ExternalMessage<P: Phase> {
    message: BackendMessage,
    event: Event,
    _phase: PhantomData<P>,
}

impl<P: Phase> ExternalMessage<P> {
    /// The message itself.
    pub closed spec fn wire(self) -> BackendMessage {
        self.message
    }

    #[verifier::type_invariant]
    spec fn legal(&self) -> bool {
        external_event(P::state(), self.message@) == Some(self.event)
    }

    /// Admits a message that is legal in this phase, and returns any other.
    pub fn try_from(message: BackendMessage) -> (result: Result<Self, BackendMessage>)
        ensures
            match result {
                Ok(admitted) => admitted.wire() == message && external_event(
                    P::state(),
                    message@,
                ) is Some,
                Err(returned) => returned == message && external_event(P::state(), message@) is None,
            },
    {
        match project_external(P::runtime_state(), &message) {
            Some(event) => Ok(ExternalMessage { message, event, _phase: PhantomData }),
            None => Err(message),
        }
    }

    /// The event that the message stands for.
    pub fn event(&self) -> (event: Event)
        ensures
            external_event(P::state(), self.wire()@) == Some(event),
    {
        proof {
            use_type_invariant(self);
        }
        self.event
    }

    /// Borrows the message.
    pub fn as_wire(&self) -> (message: &BackendMessage)
        ensures
            *message == self.wire(),
    {
        &self.message
    }

    /// Returns the message.
    pub fn into_wire(self) -> (message: BackendMessage)
        ensures
            message == self.wire(),
            external_event(P::state(), message@) is Some,
    {
        proof {
            use_type_invariant(&self);
        }
        self.message
    }
}

pub type ReadyExternalMessage = ExternalMessage<Ready>;

pub type FunctionCallingExternalMessage = ExternalMessage<FunctionCalling>;

pub type SimpleExternalMessage = ExternalMessage<Simple>;

pub type BuildingExternalMessage = ExternalMessage<Building>;

pub type BoundBuildingExternalMessage = ExternalMessage<BoundBuilding>;

pub type AwaitingReadyExternalMessage = ExternalMessage<AwaitingReady>;

pub type CopyInExternalMessage = ExternalMessage<CopyIn>;

pub type CopyOutExternalMessage = ExternalMessage<CopyOut>;

pub type CopyBothExternalMessage = ExternalMessage<CopyBoth>;

pub type CopyBothClientDoneExternalMessage = ExternalMessage<CopyBothClientDone>;

pub type CopyBothServerDoneExternalMessage = ExternalMessage<CopyBothServerDone>;

pub type DrainingExternalMessage = ExternalMessage<Draining>;

pub type ResettingExternalMessage = ExternalMessage<Resetting>;

pub type ResetCompleteExternalMessage = ExternalMessage<ResetComplete>;

pub type TerminatedExternalMessage = ExternalMessage<Terminated>;

impl Session<Ready> {
    /// A witness of the initial phase.
    pub fn new() -> (session: Self)
        ensures
            session.state() == RuntimeState::Ready,
    {
        Session { _phase: PhantomData }
    }

    pub fn query(self) -> (next: Session<Simple>)
        ensures
            allowed(self.state(), Event::Query) matches Some(transition) && transition.target
                == next.state(),
    {
        Session { _phase: PhantomData }
    }

    pub fn begin_extended(self) -> (next: Session<Building>)
        ensures
            allowed(self.state(), Event::BeginExtended) matches Some(transition) && transition.target
                == next.state(),
    {
        Session { _phase: PhantomData }
    }

    pub fn function_call(self) -> (next: Session<FunctionCalling>)
        ensures
            allowed(self.state(), Event::FunctionCall) matches Some(transition) && transition.target
                == next.state(),
    {
        Session { _phase: PhantomData }
    }

    pub fn reset(self) -> (next: Session<Resetting>)
        ensures
            allowed(self.state(), Event::Reset) matches Some(transition) && transition.target
                == next.state(),
    {
        Session { _phase: PhantomData }
    }

    pub fn terminate(self) -> (next: Session<Terminated>)
        ensures
            allowed(self.state(), Event::Terminate) matches Some(transition) && transition.target
                == next.state(),
    {
        Session { _phase: PhantomData }
    }
}

impl Session<FunctionCalling> {
    pub fn function_response(self) -> (next: Session<AwaitingReady>)
        ensures
            allowed(self.state(), Event::FunctionResponse) matches Some(transition) && transition.target
                == next.state(),
    {
        Session { _phase: PhantomData }
    }

    pub fn error(self) -> (next: Session<Draining>)
        ensures
            allowed(self.state(), Event::Error) matches Some(transition) && transition.target
                == next.state(),
    {
        Session { _phase: PhantomData }
    }
}

impl Session<Simple> {
    pub fn continue_response(self) -> (next: Session<Simple>)
        ensures
            allowed(self.state(), Event::Continue) matches Some(transition) && transition.target
                == next.state(),
    {
        Session { _phase: PhantomData }
    }

    pub fn enter_copy_in(self) -> (next: Session<CopyIn>)
        ensures
            allowed(self.state(), Event::CopyIn) matches Some(transition) && transition.target
                == next.state(),
    {
        Session { _phase: PhantomData }
    }

    pub fn enter_copy_out(self) -> (next: Session<CopyOut>)
        ensures
            allowed(self.state(), Event::CopyOut) matches Some(transition) && transition.target
                == next.state(),
    {
        Session { _phase: PhantomData }
    }

    pub fn enter_copy_both(self) -> (next: Session<CopyBoth>)
        ensures
            allowed(self.state(), Event::CopyBoth) matches Some(transition) && transition.target
                == next.state(),
    {
        Session { _phase: PhantomData }
    }

    pub fn ready(self) -> (next: Session<Ready>)
        ensures
            allowed(self.state(), Event::Ready) matches Some(transition) && transition.target
                == next.state(),
    {
        Session { _phase: PhantomData }
    }

    pub fn error(self) -> (next: Session<Draining>)
        ensures
            allowed(self.state(), Event::Error) matches Some(transition) && transition.target
                == next.state(),
    {
        Session { _phase: PhantomData }
    }
}

impl Session<Building> {
    pub fn parse(self) -> (next: Session<Building>)
        ensures
            allowed(self.state(), Event::Parse) matches Some(transition) && transition.target
                == next.state(),
    {
        Session { _phase: PhantomData }
    }

    pub fn describe(self) -> (next: Session<Building>)
        ensures
            allowed(self.state(), Event::Describe) matches Some(transition) && transition.target
                == next.state(),
    {
        Session { _phase: PhantomData }
    }

    pub fn bind(self) -> (next: Session<BoundBuilding>)
        ensures
            allowed(self.state(), Event::Bind) matches Some(transition) && transition.target
                == next.state(),
    {
        Session { _phase: PhantomData }
    }

    pub fn close(self) -> (next: Session<Building>)
        ensures
            allowed(self.state(), Event::Close) matches Some(transition) && transition.target
                == next.state(),
    {
        Session { _phase: PhantomData }
    }

    pub fn flush(self) -> (next: Session<Building>)
        ensures
            allowed(self.state(), Event::Flush) matches Some(transition) && transition.target
                == next.state(),
    {
        Session { _phase: PhantomData }
    }

    pub fn sync(self) -> (next: Session<AwaitingReady>)
        ensures
            allowed(self.state(), Event::Sync) matches Some(transition) && transition.target
                == next.state(),
    {
        Session { _phase: PhantomData }
    }
}

impl Session<BoundBuilding> {
    pub fn parse(self) -> (next: Session<BoundBuilding>)
        ensures
            allowed(self.state(), Event::Parse) matches Some(transition) && transition.target
                == next.state(),
    {
        Session { _phase: PhantomData }
    }

    pub fn describe(self) -> (next: Session<BoundBuilding>)
        ensures
            allowed(self.state(), Event::Describe) matches Some(transition) && transition.target
                == next.state(),
    {
        Session { _phase: PhantomData }
    }

    pub fn bind(self) -> (next: Session<BoundBuilding>)
        ensures
            allowed(self.state(), Event::Bind) matches Some(transition) && transition.target
                == next.state(),
    {
        Session { _phase: PhantomData }
    }

    pub fn execute(self) -> (next: Session<BoundBuilding>)
        ensures
            allowed(self.state(), Event::Execute) matches Some(transition) && transition.target
                == next.state(),
    {
        Session { _phase: PhantomData }
    }

    pub fn close(self) -> (next: Session<BoundBuilding>)
        ensures
            allowed(self.state(), Event::Close) matches Some(transition) && transition.target
                == next.state(),
    {
        Session { _phase: PhantomData }
    }

    pub fn flush(self) -> (next: Session<BoundBuilding>)
        ensures
            allowed(self.state(), Event::Flush) matches Some(transition) && transition.target
                == next.state(),
    {
        Session { _phase: PhantomData }
    }

    pub fn sync(self) -> (next: Session<AwaitingReady>)
        ensures
            allowed(self.state(), Event::Sync) matches Some(transition) && transition.target
                == next.state(),
    {
        Session { _phase: PhantomData }
    }
}

impl Session<AwaitingReady> {
    pub fn continue_response(self) -> (next: Session<AwaitingReady>)
        ensures
            allowed(self.state(), Event::Continue) matches Some(transition) && transition.target
                == next.state(),
    {
        Session { _phase: PhantomData }
    }

    pub fn ready(self) -> (next: Session<Ready>)
        ensures
            allowed(self.state(), Event::Ready) matches Some(transition) && transition.target
                == next.state(),
    {
        Session { _phase: PhantomData }
    }

    pub fn error(self) -> (next: Session<Draining>)
        ensures
            allowed(self.state(), Event::Error) matches Some(transition) && transition.target
                == next.state(),
    {
        Session { _phase: PhantomData }
    }
}

impl Session<CopyIn> {
    pub fn copy_data(self) -> (next: Session<CopyIn>)
        ensures
            allowed(self.state(), Event::CopyData) matches Some(transition) && transition.target
                == next.state(),
    {
        Session { _phase: PhantomData }
    }

    pub fn copy_done(self) -> (next: Session<AwaitingReady>)
        ensures
            allowed(self.state(), Event::CopyDone) matches Some(transition) && transition.target
                == next.state(),
    {
        Session { _phase: PhantomData }
    }

    pub fn copy_fail(self) -> (next: Session<AwaitingReady>)
        ensures
            allowed(self.state(), Event::CopyFail) matches Some(transition) && transition.target
                == next.state(),
    {
        Session { _phase: PhantomData }
    }

    pub fn error(self) -> (next: Session<Draining>)
        ensures
            allowed(self.state(), Event::Error) matches Some(transition) && transition.target
                == next.state(),
    {
        Session { _phase: PhantomData }
    }
}

impl Session<CopyOut> {
    pub fn copy_data(self) -> (next: Session<CopyOut>)
        ensures
            allowed(self.state(), Event::CopyData) matches Some(transition) && transition.target
                == next.state(),
    {
        Session { _phase: PhantomData }
    }

    pub fn copy_done(self) -> (next: Session<AwaitingReady>)
        ensures
            allowed(self.state(), Event::CopyDone) matches Some(transition) && transition.target
                == next.state(),
    {
        Session { _phase: PhantomData }
    }

    pub fn error(self) -> (next: Session<Draining>)
        ensures
            allowed(self.state(), Event::Error) matches Some(transition) && transition.target
                == next.state(),
    {
        Session { _phase: PhantomData }
    }
}

impl Session<CopyBoth> {
    pub fn send_copy_data(self) -> (next: Session<CopyBoth>)
        ensures
            allowed(self.state(), Event::SendCopyData) matches Some(transition) && transition.target
                == next.state(),
    {
        Session { _phase: PhantomData }
    }

    pub fn receive_copy_data(self) -> (next: Session<CopyBoth>)
        ensures
            allowed(self.state(), Event::ReceiveCopyData) matches Some(transition) && transition.target
                == next.state(),
    {
        Session { _phase: PhantomData }
    }

    pub fn send_copy_done(self) -> (next: Session<CopyBothClientDone>)
        ensures
            allowed(self.state(), Event::SendCopyDone) matches Some(transition) && transition.target
                == next.state(),
    {
        Session { _phase: PhantomData }
    }

    pub fn receive_copy_done(self) -> (next: Session<CopyBothServerDone>)
        ensures
            allowed(self.state(), Event::ReceiveCopyDone) matches Some(transition) && transition.target
                == next.state(),
    {
        Session { _phase: PhantomData }
    }

    pub fn error(self) -> (next: Session<Draining>)
        ensures
            allowed(self.state(), Event::Error) matches Some(transition) && transition.target
                == next.state(),
    {
        Session { _phase: PhantomData }
    }
}

impl Session<CopyBothClientDone> {
    pub fn receive_copy_data(self) -> (next: Session<CopyBothClientDone>)
        ensures
            allowed(self.state(), Event::ReceiveCopyData) matches Some(transition) && transition.target
                == next.state(),
    {
        Session { _phase: PhantomData }
    }

    pub fn receive_copy_done(self) -> (next: Session<AwaitingReady>)
        ensures
            allowed(self.state(), Event::ReceiveCopyDone) matches Some(transition) && transition.target
                == next.state(),
    {
        Session { _phase: PhantomData }
    }

    pub fn error(self) -> (next: Session<Draining>)
        ensures
            allowed(self.state(), Event::Error) matches Some(transition) && transition.target
                == next.state(),
    {
        Session { _phase: PhantomData }
    }
}

impl Session<CopyBothServerDone> {
    pub fn send_copy_data(self) -> (next: Session<CopyBothServerDone>)
        ensures
            allowed(self.state(), Event::SendCopyData) matches Some(transition) && transition.target
                == next.state(),
    {
        Session { _phase: PhantomData }
    }

    pub fn send_copy_done(self) -> (next: Session<AwaitingReady>)
        ensures
            allowed(self.state(), Event::SendCopyDone) matches Some(transition) && transition.target
                == next.state(),
    {
        Session { _phase: PhantomData }
    }
}

impl Session<Draining> {
    pub fn continue_response(self) -> (next: Session<Draining>)
        ensures
            allowed(self.state(), Event::Continue) matches Some(transition) && transition.target
                == next.state(),
    {
        Session { _phase: PhantomData }
    }

    pub fn ready(self) -> (next: Session<Ready>)
        ensures
            allowed(self.state(), Event::Ready) matches Some(transition) && transition.target
                == next.state(),
    {
        Session { _phase: PhantomData }
    }
}

impl Session<Resetting> {
    pub fn continue_reset(self) -> (next: Session<Resetting>)
        ensures
            allowed(self.state(), Event::Continue) matches Some(transition) && transition.target
                == next.state(),
    {
        Session { _phase: PhantomData }
    }

    pub fn discard_complete(self) -> (next: Session<ResetComplete>)
        ensures
            allowed(self.state(), Event::DiscardComplete) matches Some(transition) && transition.target
                == next.state(),
    {
        Session { _phase: PhantomData }
    }

    pub fn error(self) -> (next: Session<Draining>)
        ensures
            allowed(self.state(), Event::Error) matches Some(transition) && transition.target
                == next.state(),
    {
        Session { _phase: PhantomData }
    }
}

impl Session<ResetComplete> {
    pub fn continue_reset(self) -> (next: Session<ResetComplete>)
        ensures
            allowed(self.state(), Event::Continue) matches Some(transition) && transition.target
                == next.state(),
    {
        Session { _phase: PhantomData }
    }

    pub fn ready_clean(self) -> (next: Session<Ready>)
        ensures
            allowed(self.state(), Event::ReadyClean) matches Some(transition) && transition.target
                == next.state(),
    {
        Session { _phase: PhantomData }
    }

    pub fn ready_dirty(self) -> (next: Session<Ready>)
        ensures
            allowed(self.state(), Event::ReadyDirty) matches Some(transition) && transition.target
                == next.state(),
    {
        Session { _phase: PhantomData }
    }

    pub fn error(self) -> (next: Session<Draining>)
        ensures
            allowed(self.state(), Event::Error) matches Some(transition) && transition.target
                == next.state(),
    {
        Session { _phase: PhantomData }
    }
}

impl<T, C> TypedSession<T, Ready, C> {
    pub fn query<O, E, H: FnOnce(T, Bytes) -> (T, Result<O, E>)>(
        self,
        payload: Bytes,
        handler: H,
    ) -> (result: Result<(TypedSession<T, Simple, Dirty>, O), (Self, E)>)
        requires
            call_requires(handler, (self.held(), payload)),
        ensures
            match result {
                Ok((next, out)) => call_ensures(
                    handler,
                    (self.held(), payload),
                    (next.held(), Ok::<O, E>(out)),
                ) && allowed(self.state(), Event::Query) == to(next.state(), ChoiceKind::Internal, Effect::Dirty),
                Err((same, error)) => call_ensures(
                    handler,
                    (self.held(), payload),
                    (same.held(), Err::<O, E>(error)),
                ),
            },
    {
        self.run(payload, handler)
    }

    pub fn begin_extended(self) -> (next: TypedSession<T, Building, C>)
        ensures
            next.held() == self.held(),
            allowed(self.state(), Event::BeginExtended) == to(next.state(), ChoiceKind::Internal, Effect::Unchanged),
    {
        self.advanced()
    }

    pub fn function_call<O, E, H: FnOnce(T, FunctionCall) -> (T, Result<O, E>)>(
        self,
        payload: FunctionCall,
        handler: H,
    ) -> (result: Result<(TypedSession<T, FunctionCalling, Dirty>, O), (Self, E)>)
        requires
            call_requires(handler, (self.held(), payload)),
        ensures
            match result {
                Ok((next, out)) => call_ensures(
                    handler,
                    (self.held(), payload),
                    (next.held(), Ok::<O, E>(out)),
                ) && allowed(self.state(), Event::FunctionCall) == to(next.state(), ChoiceKind::Internal, Effect::Dirty),
                Err((same, error)) => call_ensures(
                    handler,
                    (self.held(), payload),
                    (same.held(), Err::<O, E>(error)),
                ),
            },
    {
        self.run(payload, handler)
    }

    pub fn reset(self) -> (next: TypedSession<T, Resetting, Dirty>)
        ensures
            next.held() == self.held(),
            allowed(self.state(), Event::Reset) == to(next.state(), ChoiceKind::Internal, Effect::Dirty),
    {
        self.advanced()
    }

    pub fn terminate(self) -> (next: TypedSession<T, Terminated, C>)
        ensures
            next.held() == self.held(),
            allowed(self.state(), Event::Terminate) == to(next.state(), ChoiceKind::Internal, Effect::Unchanged),
    {
        self.advanced()
    }
}

impl<T, C> TypedSession<T, FunctionCalling, C> {
    pub fn function_response<O, E, H: FnOnce(T, Bytes) -> (T, Result<O, E>)>(
        self,
        payload: Bytes,
        handler: H,
    ) -> (result: Result<(TypedSession<T, AwaitingReady, C>, O), (Self, E)>)
        requires
            call_requires(handler, (self.held(), payload)),
        ensures
            match result {
                Ok((next, out)) => call_ensures(
                    handler,
                    (self.held(), payload),
                    (next.held(), Ok::<O, E>(out)),
                ) && allowed(self.state(), Event::FunctionResponse) == to(next.state(), ChoiceKind::External, Effect::Unchanged),
                Err((same, error)) => call_ensures(
                    handler,
                    (self.held(), payload),
                    (same.held(), Err::<O, E>(error)),
                ),
            },
    {
        self.run(payload, handler)
    }

    pub fn error<O, E, H: FnOnce(T, DiagnosticResponse) -> (T, Result<O, E>)>(
        self,
        payload: DiagnosticResponse,
        handler: H,
    ) -> (result: Result<(TypedSession<T, Draining, C>, O), (Self, E)>)
        requires
            call_requires(handler, (self.held(), payload)),
        ensures
            match result {
                Ok((next, out)) => call_ensures(
                    handler,
                    (self.held(), payload),
                    (next.held(), Ok::<O, E>(out)),
                ) && allowed(self.state(), Event::Error) == to(next.state(), ChoiceKind::External, Effect::Unchanged),
                Err((same, error)) => call_ensures(
                    handler,
                    (self.held(), payload),
                    (same.held(), Err::<O, E>(error)),
                ),
            },
    {
        self.run(payload, handler)
    }
}

impl<T, C> TypedSession<T, Simple, C> {
    pub fn continue_response<O, E, H: FnOnce(T, BackendMessage) -> (T, Result<O, E>)>(
        self,
        payload: BackendMessage,
        handler: H,
    ) -> (result: Result<(TypedSession<T, Simple, C>, O), (Self, E)>)
        requires
            call_requires(handler, (self.held(), payload)),
        ensures
            match result {
                Ok((next, out)) => call_ensures(
                    handler,
                    (self.held(), payload),
                    (next.held(), Ok::<O, E>(out)),
                ) && allowed(self.state(), Event::Continue) == to(next.state(), ChoiceKind::External, Effect::Unchanged),
                Err((same, error)) => call_ensures(
                    handler,
                    (self.held(), payload),
                    (same.held(), Err::<O, E>(error)),
                ),
            },
    {
        self.run(payload, handler)
    }

    pub fn enter_copy_in<O, E, H: FnOnce(T, CopyResponse) -> (T, Result<O, E>)>(
        self,
        payload: CopyResponse,
        handler: H,
    ) -> (result: Result<(TypedSession<T, CopyIn, C>, O), (Self, E)>)
        requires
            call_requires(handler, (self.held(), payload)),
        ensures
            match result {
                Ok((next, out)) => call_ensures(
                    handler,
                    (self.held(), payload),
                    (next.held(), Ok::<O, E>(out)),
                ) && allowed(self.state(), Event::CopyIn) == to(next.state(), ChoiceKind::External, Effect::Unchanged),
                Err((same, error)) => call_ensures(
                    handler,
                    (self.held(), payload),
                    (same.held(), Err::<O, E>(error)),
                ),
            },
    {
        self.run(payload, handler)
    }

    pub fn enter_copy_out<O, E, H: FnOnce(T, CopyResponse) -> (T, Result<O, E>)>(
        self,
        payload: CopyResponse,
        handler: H,
    ) -> (result: Result<(TypedSession<T, CopyOut, C>, O), (Self, E)>)
        requires
            call_requires(handler, (self.held(), payload)),
        ensures
            match result {
                Ok((next, out)) => call_ensures(
                    handler,
                    (self.held(), payload),
                    (next.held(), Ok::<O, E>(out)),
                ) && allowed(self.state(), Event::CopyOut) == to(next.state(), ChoiceKind::External, Effect::Unchanged),
                Err((same, error)) => call_ensures(
                    handler,
                    (self.held(), payload),
                    (same.held(), Err::<O, E>(error)),
                ),
            },
    {
        self.run(payload, handler)
    }

    pub fn enter_copy_both<O, E, H: FnOnce(T, CopyResponse) -> (T, Result<O, E>)>(
        self,
        payload: CopyResponse,
        handler: H,
    ) -> (result: Result<(TypedSession<T, CopyBoth, C>, O), (Self, E)>)
        requires
            call_requires(handler, (self.held(), payload)),
        ensures
            match result {
                Ok((next, out)) => call_ensures(
                    handler,
                    (self.held(), payload),
                    (next.held(), Ok::<O, E>(out)),
                ) && allowed(self.state(), Event::CopyBoth) == to(next.state(), ChoiceKind::External, Effect::Unchanged),
                Err((same, error)) => call_ensures(
                    handler,
                    (self.held(), payload),
                    (same.held(), Err::<O, E>(error)),
                ),
            },
    {
        self.run(payload, handler)
    }

    pub fn ready<O, E, H: FnOnce(T, TransactionStatus) -> (T, Result<O, E>)>(
        self,
        payload: TransactionStatus,
        handler: H,
    ) -> (result: Result<(TypedSession<T, Ready, C>, O), (Self, E)>)
        requires
            call_requires(handler, (self.held(), payload)),
        ensures
            match result {
                Ok((next, out)) => call_ensures(
                    handler,
                    (self.held(), payload),
                    (next.held(), Ok::<O, E>(out)),
                ) && allowed(self.state(), Event::Ready) == to(next.state(), ChoiceKind::External, Effect::Unchanged),
                Err((same, error)) => call_ensures(
                    handler,
                    (self.held(), payload),
                    (same.held(), Err::<O, E>(error)),
                ),
            },
    {
        self.run(payload, handler)
    }

    pub fn error<O, E, H: FnOnce(T, DiagnosticResponse) -> (T, Result<O, E>)>(
        self,
        payload: DiagnosticResponse,
        handler: H,
    ) -> (result: Result<(TypedSession<T, Draining, C>, O), (Self, E)>)
        requires
            call_requires(handler, (self.held(), payload)),
        ensures
            match result {
                Ok((next, out)) => call_ensures(
                    handler,
                    (self.held(), payload),
                    (next.held(), Ok::<O, E>(out)),
                ) && allowed(self.state(), Event::Error) == to(next.state(), ChoiceKind::External, Effect::Unchanged),
                Err((same, error)) => call_ensures(
                    handler,
                    (self.held(), payload),
                    (same.held(), Err::<O, E>(error)),
                ),
            },
    {
        self.run(payload, handler)
    }
}

impl<T, C> TypedSession<T, Building, C> {
    pub fn parse<O, E, H: FnOnce(T, Parse) -> (T, Result<O, E>)>(
        self,
        payload: Parse,
        handler: H,
    ) -> (result: Result<(TypedSession<T, Building, Dirty>, O), (Self, E)>)
        requires
            call_requires(handler, (self.held(), payload)),
        ensures
            match result {
                Ok((next, out)) => call_ensures(
                    handler,
                    (self.held(), payload),
                    (next.held(), Ok::<O, E>(out)),
                ) && allowed(self.state(), Event::Parse) == to(next.state(), ChoiceKind::Internal, Effect::Dirty),
                Err((same, error)) => call_ensures(
                    handler,
                    (self.held(), payload),
                    (same.held(), Err::<O, E>(error)),
                ),
            },
    {
        self.run(payload, handler)
    }

    pub fn describe<O, E, H: FnOnce(T, Describe) -> (T, Result<O, E>)>(
        self,
        payload: Describe,
        handler: H,
    ) -> (result: Result<(TypedSession<T, Building, C>, O), (Self, E)>)
        requires
            call_requires(handler, (self.held(), payload)),
        ensures
            match result {
                Ok((next, out)) => call_ensures(
                    handler,
                    (self.held(), payload),
                    (next.held(), Ok::<O, E>(out)),
                ) && allowed(self.state(), Event::Describe) == to(next.state(), ChoiceKind::Internal, Effect::Unchanged),
                Err((same, error)) => call_ensures(
                    handler,
                    (self.held(), payload),
                    (same.held(), Err::<O, E>(error)),
                ),
            },
    {
        self.run(payload, handler)
    }

    pub fn bind<O, E, H: FnOnce(T, Bind) -> (T, Result<O, E>)>(
        self,
        payload: Bind,
        handler: H,
    ) -> (result: Result<(TypedSession<T, BoundBuilding, Dirty>, O), (Self, E)>)
        requires
            call_requires(handler, (self.held(), payload)),
        ensures
            match result {
                Ok((next, out)) => call_ensures(
                    handler,
                    (self.held(), payload),
                    (next.held(), Ok::<O, E>(out)),
                ) && allowed(self.state(), Event::Bind) == to(next.state(), ChoiceKind::Internal, Effect::Dirty),
                Err((same, error)) => call_ensures(
                    handler,
                    (self.held(), payload),
                    (same.held(), Err::<O, E>(error)),
                ),
            },
    {
        self.run(payload, handler)
    }

    pub fn close<O, E, H: FnOnce(T, Close) -> (T, Result<O, E>)>(
        self,
        payload: Close,
        handler: H,
    ) -> (result: Result<(TypedSession<T, Building, C>, O), (Self, E)>)
        requires
            call_requires(handler, (self.held(), payload)),
        ensures
            match result {
                Ok((next, out)) => call_ensures(
                    handler,
                    (self.held(), payload),
                    (next.held(), Ok::<O, E>(out)),
                ) && allowed(self.state(), Event::Close) == to(next.state(), ChoiceKind::Internal, Effect::Unchanged),
                Err((same, error)) => call_ensures(
                    handler,
                    (self.held(), payload),
                    (same.held(), Err::<O, E>(error)),
                ),
            },
    {
        self.run(payload, handler)
    }

    pub fn flush(self) -> (next: TypedSession<T, Building, C>)
        ensures
            next.held() == self.held(),
            allowed(self.state(), Event::Flush) == to(next.state(), ChoiceKind::Internal, Effect::Unchanged),
    {
        self.advanced()
    }

    pub fn sync(self) -> (next: TypedSession<T, AwaitingReady, C>)
        ensures
            next.held() == self.held(),
            allowed(self.state(), Event::Sync) == to(next.state(), ChoiceKind::Internal, Effect::Unchanged),
    {
        self.advanced()
    }
}

impl<T, C> TypedSession<T, BoundBuilding, C> {
    pub fn parse<O, E, H: FnOnce(T, Parse) -> (T, Result<O, E>)>(
        self,
        payload: Parse,
        handler: H,
    ) -> (result: Result<(TypedSession<T, BoundBuilding, Dirty>, O), (Self, E)>)
        requires
            call_requires(handler, (self.held(), payload)),
        ensures
            match result {
                Ok((next, out)) => call_ensures(
                    handler,
                    (self.held(), payload),
                    (next.held(), Ok::<O, E>(out)),
                ) && allowed(self.state(), Event::Parse) == to(next.state(), ChoiceKind::Internal, Effect::Dirty),
                Err((same, error)) => call_ensures(
                    handler,
                    (self.held(), payload),
                    (same.held(), Err::<O, E>(error)),
                ),
            },
    {
        self.run(payload, handler)
    }

    pub fn describe<O, E, H: FnOnce(T, Describe) -> (T, Result<O, E>)>(
        self,
        payload: Describe,
        handler: H,
    ) -> (result: Result<(TypedSession<T, BoundBuilding, C>, O), (Self, E)>)
        requires
            call_requires(handler, (self.held(), payload)),
        ensures
            match result {
                Ok((next, out)) => call_ensures(
                    handler,
                    (self.held(), payload),
                    (next.held(), Ok::<O, E>(out)),
                ) && allowed(self.state(), Event::Describe) == to(next.state(), ChoiceKind::Internal, Effect::Unchanged),
                Err((same, error)) => call_ensures(
                    handler,
                    (self.held(), payload),
                    (same.held(), Err::<O, E>(error)),
                ),
            },
    {
        self.run(payload, handler)
    }

    pub fn bind<O, E, H: FnOnce(T, Bind) -> (T, Result<O, E>)>(
        self,
        payload: Bind,
        handler: H,
    ) -> (result: Result<(TypedSession<T, BoundBuilding, Dirty>, O), (Self, E)>)
        requires
            call_requires(handler, (self.held(), payload)),
        ensures
            match result {
                Ok((next, out)) => call_ensures(
                    handler,
                    (self.held(), payload),
                    (next.held(), Ok::<O, E>(out)),
                ) && allowed(self.state(), Event::Bind) == to(next.state(), ChoiceKind::Internal, Effect::Dirty),
                Err((same, error)) => call_ensures(
                    handler,
                    (self.held(), payload),
                    (same.held(), Err::<O, E>(error)),
                ),
            },
    {
        self.run(payload, handler)
    }

    pub fn execute<O, E, H: FnOnce(T, Execute) -> (T, Result<O, E>)>(
        self,
        payload: Execute,
        handler: H,
    ) -> (result: Result<(TypedSession<T, BoundBuilding, C>, O), (Self, E)>)
        requires
            call_requires(handler, (self.held(), payload)),
        ensures
            match result {
                Ok((next, out)) => call_ensures(
                    handler,
                    (self.held(), payload),
                    (next.held(), Ok::<O, E>(out)),
                ) && allowed(self.state(), Event::Execute) == to(next.state(), ChoiceKind::Internal, Effect::Unchanged),
                Err((same, error)) => call_ensures(
                    handler,
                    (self.held(), payload),
                    (same.held(), Err::<O, E>(error)),
                ),
            },
    {
        self.run(payload, handler)
    }

    pub fn close<O, E, H: FnOnce(T, Close) -> (T, Result<O, E>)>(
        self,
        payload: Close,
        handler: H,
    ) -> (result: Result<(TypedSession<T, BoundBuilding, C>, O), (Self, E)>)
        requires
            call_requires(handler, (self.held(), payload)),
        ensures
            match result {
                Ok((next, out)) => call_ensures(
                    handler,
                    (self.held(), payload),
                    (next.held(), Ok::<O, E>(out)),
                ) && allowed(self.state(), Event::Close) == to(next.state(), ChoiceKind::Internal, Effect::Unchanged),
                Err((same, error)) => call_ensures(
                    handler,
                    (self.held(), payload),
                    (same.held(), Err::<O, E>(error)),
                ),
            },
    {
        self.run(payload, handler)
    }

    pub fn flush(self) -> (next: TypedSession<T, BoundBuilding, C>)
        ensures
            next.held() == self.held(),
            allowed(self.state(), Event::Flush) == to(next.state(), ChoiceKind::Internal, Effect::Unchanged),
    {
        self.advanced()
    }

    pub fn sync(self) -> (next: TypedSession<T, AwaitingReady, C>)
        ensures
            next.held() == self.held(),
            allowed(self.state(), Event::Sync) == to(next.state(), ChoiceKind::Internal, Effect::Unchanged),
    {
        self.advanced()
    }
}

impl<T, C> TypedSession<T, AwaitingReady, C> {
    pub fn continue_response<O, E, H: FnOnce(T, BackendMessage) -> (T, Result<O, E>)>(
        self,
        payload: BackendMessage,
        handler: H,
    ) -> (result: Result<(TypedSession<T, AwaitingReady, C>, O), (Self, E)>)
        requires
            call_requires(handler, (self.held(), payload)),
        ensures
            match result {
                Ok((next, out)) => call_ensures(
                    handler,
                    (self.held(), payload),
                    (next.held(), Ok::<O, E>(out)),
                ) && allowed(self.state(), Event::Continue) == to(next.state(), ChoiceKind::External, Effect::Unchanged),
                Err((same, error)) => call_ensures(
                    handler,
                    (self.held(), payload),
                    (same.held(), Err::<O, E>(error)),
                ),
            },
    {
        self.run(payload, handler)
    }

    pub fn ready<O, E, H: FnOnce(T, TransactionStatus) -> (T, Result<O, E>)>(
        self,
        payload: TransactionStatus,
        handler: H,
    ) -> (result: Result<(TypedSession<T, Ready, C>, O), (Self, E)>)
        requires
            call_requires(handler, (self.held(), payload)),
        ensures
            match result {
                Ok((next, out)) => call_ensures(
                    handler,
                    (self.held(), payload),
                    (next.held(), Ok::<O, E>(out)),
                ) && allowed(self.state(), Event::Ready) == to(next.state(), ChoiceKind::External, Effect::Unchanged),
                Err((same, error)) => call_ensures(
                    handler,
                    (self.held(), payload),
                    (same.held(), Err::<O, E>(error)),
                ),
            },
    {
        self.run(payload, handler)
    }

    pub fn error<O, E, H: FnOnce(T, DiagnosticResponse) -> (T, Result<O, E>)>(
        self,
        payload: DiagnosticResponse,
        handler: H,
    ) -> (result: Result<(TypedSession<T, Draining, C>, O), (Self, E)>)
        requires
            call_requires(handler, (self.held(), payload)),
        ensures
            match result {
                Ok((next, out)) => call_ensures(
                    handler,
                    (self.held(), payload),
                    (next.held(), Ok::<O, E>(out)),
                ) && allowed(self.state(), Event::Error) == to(next.state(), ChoiceKind::External, Effect::Unchanged),
                Err((same, error)) => call_ensures(
                    handler,
                    (self.held(), payload),
                    (same.held(), Err::<O, E>(error)),
                ),
            },
    {
        self.run(payload, handler)
    }
}

impl<T, C> TypedSession<T, CopyIn, C> {
    pub fn copy_data<O, E, H: FnOnce(T, Bytes) -> (T, Result<O, E>)>(
        self,
        payload: Bytes,
        handler: H,
    ) -> (result: Result<(TypedSession<T, CopyIn, C>, O), (Self, E)>)
        requires
            call_requires(handler, (self.held(), payload)),
        ensures
            match result {
                Ok((next, out)) => call_ensures(
                    handler,
                    (self.held(), payload),
                    (next.held(), Ok::<O, E>(out)),
                ) && allowed(self.state(), Event::CopyData) == to(next.state(), ChoiceKind::Internal, Effect::Unchanged),
                Err((same, error)) => call_ensures(
                    handler,
                    (self.held(), payload),
                    (same.held(), Err::<O, E>(error)),
                ),
            },
    {
        self.run(payload, handler)
    }

    pub fn copy_done(self) -> (next: TypedSession<T, AwaitingReady, C>)
        ensures
            next.held() == self.held(),
            allowed(self.state(), Event::CopyDone) == to(next.state(), ChoiceKind::Internal, Effect::Unchanged),
    {
        self.advanced()
    }

    pub fn copy_fail<O, E, H: FnOnce(T, Bytes) -> (T, Result<O, E>)>(
        self,
        payload: Bytes,
        handler: H,
    ) -> (result: Result<(TypedSession<T, AwaitingReady, C>, O), (Self, E)>)
        requires
            call_requires(handler, (self.held(), payload)),
        ensures
            match result {
                Ok((next, out)) => call_ensures(
                    handler,
                    (self.held(), payload),
                    (next.held(), Ok::<O, E>(out)),
                ) && allowed(self.state(), Event::CopyFail) == to(next.state(), ChoiceKind::Internal, Effect::Unchanged),
                Err((same, error)) => call_ensures(
                    handler,
                    (self.held(), payload),
                    (same.held(), Err::<O, E>(error)),
                ),
            },
    {
        self.run(payload, handler)
    }

    pub fn error<O, E, H: FnOnce(T, DiagnosticResponse) -> (T, Result<O, E>)>(
        self,
        payload: DiagnosticResponse,
        handler: H,
    ) -> (result: Result<(TypedSession<T, Draining, C>, O), (Self, E)>)
        requires
            call_requires(handler, (self.held(), payload)),
        ensures
            match result {
                Ok((next, out)) => call_ensures(
                    handler,
                    (self.held(), payload),
                    (next.held(), Ok::<O, E>(out)),
                ) && allowed(self.state(), Event::Error) == to(next.state(), ChoiceKind::External, Effect::Unchanged),
                Err((same, error)) => call_ensures(
                    handler,
                    (self.held(), payload),
                    (same.held(), Err::<O, E>(error)),
                ),
            },
    {
        self.run(payload, handler)
    }
}

impl<T, C> TypedSession<T, CopyOut, C> {
    pub fn copy_data<O, E, H: FnOnce(T, Bytes) -> (T, Result<O, E>)>(
        self,
        payload: Bytes,
        handler: H,
    ) -> (result: Result<(TypedSession<T, CopyOut, C>, O), (Self, E)>)
        requires
            call_requires(handler, (self.held(), payload)),
        ensures
            match result {
                Ok((next, out)) => call_ensures(
                    handler,
                    (self.held(), payload),
                    (next.held(), Ok::<O, E>(out)),
                ) && allowed(self.state(), Event::CopyData) == to(next.state(), ChoiceKind::External, Effect::Unchanged),
                Err((same, error)) => call_ensures(
                    handler,
                    (self.held(), payload),
                    (same.held(), Err::<O, E>(error)),
                ),
            },
    {
        self.run(payload, handler)
    }

    pub fn copy_done(self) -> (next: TypedSession<T, AwaitingReady, C>)
        ensures
            next.held() == self.held(),
            allowed(self.state(), Event::CopyDone) == to(next.state(), ChoiceKind::External, Effect::Unchanged),
    {
        self.advanced()
    }

    pub fn error<O, E, H: FnOnce(T, DiagnosticResponse) -> (T, Result<O, E>)>(
        self,
        payload: DiagnosticResponse,
        handler: H,
    ) -> (result: Result<(TypedSession<T, Draining, C>, O), (Self, E)>)
        requires
            call_requires(handler, (self.held(), payload)),
        ensures
            match result {
                Ok((next, out)) => call_ensures(
                    handler,
                    (self.held(), payload),
                    (next.held(), Ok::<O, E>(out)),
                ) && allowed(self.state(), Event::Error) == to(next.state(), ChoiceKind::External, Effect::Unchanged),
                Err((same, error)) => call_ensures(
                    handler,
                    (self.held(), payload),
                    (same.held(), Err::<O, E>(error)),
                ),
            },
    {
        self.run(payload, handler)
    }
}

impl<T, C> TypedSession<T, CopyBoth, C> {
    pub fn send_copy_data<O, E, H: FnOnce(T, Bytes) -> (T, Result<O, E>)>(
        self,
        payload: Bytes,
        handler: H,
    ) -> (result: Result<(TypedSession<T, CopyBoth, C>, O), (Self, E)>)
        requires
            call_requires(handler, (self.held(), payload)),
        ensures
            match result {
                Ok((next, out)) => call_ensures(
                    handler,
                    (self.held(), payload),
                    (next.held(), Ok::<O, E>(out)),
                ) && allowed(self.state(), Event::SendCopyData) == to(next.state(), ChoiceKind::Internal, Effect::Unchanged),
                Err((same, error)) => call_ensures(
                    handler,
                    (self.held(), payload),
                    (same.held(), Err::<O, E>(error)),
                ),
            },
    {
        self.run(payload, handler)
    }

    pub fn receive_copy_data<O, E, H: FnOnce(T, Bytes) -> (T, Result<O, E>)>(
        self,
        payload: Bytes,
        handler: H,
    ) -> (result: Result<(TypedSession<T, CopyBoth, C>, O), (Self, E)>)
        requires
            call_requires(handler, (self.held(), payload)),
        ensures
            match result {
                Ok((next, out)) => call_ensures(
                    handler,
                    (self.held(), payload),
                    (next.held(), Ok::<O, E>(out)),
                ) && allowed(self.state(), Event::ReceiveCopyData) == to(next.state(), ChoiceKind::External, Effect::Unchanged),
                Err((same, error)) => call_ensures(
                    handler,
                    (self.held(), payload),
                    (same.held(), Err::<O, E>(error)),
                ),
            },
    {
        self.run(payload, handler)
    }

    pub fn send_copy_done(self) -> (next: TypedSession<T, CopyBothClientDone, C>)
        ensures
            next.held() == self.held(),
            allowed(self.state(), Event::SendCopyDone) == to(next.state(), ChoiceKind::Internal, Effect::Unchanged),
    {
        self.advanced()
    }

    pub fn receive_copy_done(self) -> (next: TypedSession<T, CopyBothServerDone, C>)
        ensures
            next.held() == self.held(),
            allowed(self.state(), Event::ReceiveCopyDone) == to(next.state(), ChoiceKind::External, Effect::Unchanged),
    {
        self.advanced()
    }

    pub fn error<O, E, H: FnOnce(T, DiagnosticResponse) -> (T, Result<O, E>)>(
        self,
        payload: DiagnosticResponse,
        handler: H,
    ) -> (result: Result<(TypedSession<T, Draining, C>, O), (Self, E)>)
        requires
            call_requires(handler, (self.held(), payload)),
        ensures
            match result {
                Ok((next, out)) => call_ensures(
                    handler,
                    (self.held(), payload),
                    (next.held(), Ok::<O, E>(out)),
                ) && allowed(self.state(), Event::Error) == to(next.state(), ChoiceKind::External, Effect::Unchanged),
                Err((same, error)) => call_ensures(
                    handler,
                    (self.held(), payload),
                    (same.held(), Err::<O, E>(error)),
                ),
            },
    {
        self.run(payload, handler)
    }
}

impl<T, C> TypedSession<T, CopyBothClientDone, C> {
    pub fn receive_copy_data<O, E, H: FnOnce(T, Bytes) -> (T, Result<O, E>)>(
        self,
        payload: Bytes,
        handler: H,
    ) -> (result: Result<(TypedSession<T, CopyBothClientDone, C>, O), (Self, E)>)
        requires
            call_requires(handler, (self.held(), payload)),
        ensures
            match result {
                Ok((next, out)) => call_ensures(
                    handler,
                    (self.held(), payload),
                    (next.held(), Ok::<O, E>(out)),
                ) && allowed(self.state(), Event::ReceiveCopyData) == to(next.state(), ChoiceKind::External, Effect::Unchanged),
                Err((same, error)) => call_ensures(
                    handler,
                    (self.held(), payload),
                    (same.held(), Err::<O, E>(error)),
                ),
            },
    {
        self.run(payload, handler)
    }

    pub fn receive_copy_done(self) -> (next: TypedSession<T, AwaitingReady, C>)
        ensures
            next.held() == self.held(),
            allowed(self.state(), Event::ReceiveCopyDone) == to(next.state(), ChoiceKind::External, Effect::Unchanged),
    {
        self.advanced()
    }

    pub fn error<O, E, H: FnOnce(T, DiagnosticResponse) -> (T, Result<O, E>)>(
        self,
        payload: DiagnosticResponse,
        handler: H,
    ) -> (result: Result<(TypedSession<T, Draining, C>, O), (Self, E)>)
        requires
            call_requires(handler, (self.held(), payload)),
        ensures
            match result {
                Ok((next, out)) => call_ensures(
                    handler,
                    (self.held(), payload),
                    (next.held(), Ok::<O, E>(out)),
                ) && allowed(self.state(), Event::Error) == to(next.state(), ChoiceKind::External, Effect::Unchanged),
                Err((same, error)) => call_ensures(
                    handler,
                    (self.held(), payload),
                    (same.held(), Err::<O, E>(error)),
                ),
            },
    {
        self.run(payload, handler)
    }
}

impl<T, C> TypedSession<T, CopyBothServerDone, C> {
    pub fn send_copy_data<O, E, H: FnOnce(T, Bytes) -> (T, Result<O, E>)>(
        self,
        payload: Bytes,
        handler: H,
    ) -> (result: Result<(TypedSession<T, CopyBothServerDone, C>, O), (Self, E)>)
        requires
            call_requires(handler, (self.held(), payload)),
        ensures
            match result {
                Ok((next, out)) => call_ensures(
                    handler,
                    (self.held(), payload),
                    (next.held(), Ok::<O, E>(out)),
                ) && allowed(self.state(), Event::SendCopyData) == to(next.state(), ChoiceKind::Internal, Effect::Unchanged),
                Err((same, error)) => call_ensures(
                    handler,
                    (self.held(), payload),
                    (same.held(), Err::<O, E>(error)),
                ),
            },
    {
        self.run(payload, handler)
    }

    pub fn send_copy_done(self) -> (next: TypedSession<T, AwaitingReady, C>)
        ensures
            next.held() == self.held(),
            allowed(self.state(), Event::SendCopyDone) == to(next.state(), ChoiceKind::Internal, Effect::Unchanged),
    {
        self.advanced()
    }
}

impl<T, C> TypedSession<T, Draining, C> {
    pub fn continue_response<O, E, H: FnOnce(T, BackendMessage) -> (T, Result<O, E>)>(
        self,
        payload: BackendMessage,
        handler: H,
    ) -> (result: Result<(TypedSession<T, Draining, C>, O), (Self, E)>)
        requires
            call_requires(handler, (self.held(), payload)),
        ensures
            match result {
                Ok((next, out)) => call_ensures(
                    handler,
                    (self.held(), payload),
                    (next.held(), Ok::<O, E>(out)),
                ) && allowed(self.state(), Event::Continue) == to(next.state(), ChoiceKind::External, Effect::Unchanged),
                Err((same, error)) => call_ensures(
                    handler,
                    (self.held(), payload),
                    (same.held(), Err::<O, E>(error)),
                ),
            },
    {
        self.run(payload, handler)
    }

    pub fn ready<O, E, H: FnOnce(T, TransactionStatus) -> (T, Result<O, E>)>(
        self,
        payload: TransactionStatus,
        handler: H,
    ) -> (result: Result<(TypedSession<T, Ready, C>, O), (Self, E)>)
        requires
            call_requires(handler, (self.held(), payload)),
        ensures
            match result {
                Ok((next, out)) => call_ensures(
                    handler,
                    (self.held(), payload),
                    (next.held(), Ok::<O, E>(out)),
                ) && allowed(self.state(), Event::Ready) == to(next.state(), ChoiceKind::External, Effect::Unchanged),
                Err((same, error)) => call_ensures(
                    handler,
                    (self.held(), payload),
                    (same.held(), Err::<O, E>(error)),
                ),
            },
    {
        self.run(payload, handler)
    }
}

impl<T, C> TypedSession<T, Resetting, C> {
    pub fn continue_reset<O, E, H: FnOnce(T, BackendMessage) -> (T, Result<O, E>)>(
        self,
        payload: BackendMessage,
        handler: H,
    ) -> (result: Result<(TypedSession<T, Resetting, C>, O), (Self, E)>)
        requires
            call_requires(handler, (self.held(), payload)),
        ensures
            match result {
                Ok((next, out)) => call_ensures(
                    handler,
                    (self.held(), payload),
                    (next.held(), Ok::<O, E>(out)),
                ) && allowed(self.state(), Event::Continue) == to(next.state(), ChoiceKind::External, Effect::Unchanged),
                Err((same, error)) => call_ensures(
                    handler,
                    (self.held(), payload),
                    (same.held(), Err::<O, E>(error)),
                ),
            },
    {
        self.run(payload, handler)
    }

    pub fn discard_complete<O, E, H: FnOnce(T, Bytes) -> (T, Result<O, E>)>(
        self,
        payload: Bytes,
        handler: H,
    ) -> (result: Result<(TypedSession<T, ResetComplete, C>, O), (Self, E)>)
        requires
            call_requires(handler, (self.held(), payload)),
        ensures
            match result {
                Ok((next, out)) => call_ensures(
                    handler,
                    (self.held(), payload),
                    (next.held(), Ok::<O, E>(out)),
                ) && allowed(self.state(), Event::DiscardComplete) == to(next.state(), ChoiceKind::External, Effect::Unchanged),
                Err((same, error)) => call_ensures(
                    handler,
                    (self.held(), payload),
                    (same.held(), Err::<O, E>(error)),
                ),
            },
    {
        self.run(payload, handler)
    }

    pub fn error<O, E, H: FnOnce(T, DiagnosticResponse) -> (T, Result<O, E>)>(
        self,
        payload: DiagnosticResponse,
        handler: H,
    ) -> (result: Result<(TypedSession<T, Draining, C>, O), (Self, E)>)
        requires
            call_requires(handler, (self.held(), payload)),
        ensures
            match result {
                Ok((next, out)) => call_ensures(
                    handler,
                    (self.held(), payload),
                    (next.held(), Ok::<O, E>(out)),
                ) && allowed(self.state(), Event::Error) == to(next.state(), ChoiceKind::External, Effect::Unchanged),
                Err((same, error)) => call_ensures(
                    handler,
                    (self.held(), payload),
                    (same.held(), Err::<O, E>(error)),
                ),
            },
    {
        self.run(payload, handler)
    }
}

impl<T, C> TypedSession<T, ResetComplete, C> {
    pub fn continue_reset<O, E, H: FnOnce(T, BackendMessage) -> (T, Result<O, E>)>(
        self,
        payload: BackendMessage,
        handler: H,
    ) -> (result: Result<(TypedSession<T, ResetComplete, C>, O), (Self, E)>)
        requires
            call_requires(handler, (self.held(), payload)),
        ensures
            match result {
                Ok((next, out)) => call_ensures(
                    handler,
                    (self.held(), payload),
                    (next.held(), Ok::<O, E>(out)),
                ) && allowed(self.state(), Event::Continue) == to(next.state(), ChoiceKind::External, Effect::Unchanged),
                Err((same, error)) => call_ensures(
                    handler,
                    (self.held(), payload),
                    (same.held(), Err::<O, E>(error)),
                ),
            },
    {
        self.run(payload, handler)
    }

    pub fn ready_clean<O, E, H: FnOnce(T, TransactionStatus) -> (T, Result<O, E>)>(
        self,
        payload: TransactionStatus,
        handler: H,
    ) -> (result: Result<(TypedSession<T, Ready, Pristine>, O), (Self, E)>)
        requires
            call_requires(handler, (self.held(), payload)),
        ensures
            match result {
                Ok((next, out)) => call_ensures(
                    handler,
                    (self.held(), payload),
                    (next.held(), Ok::<O, E>(out)),
                ) && allowed(self.state(), Event::ReadyClean) == to(next.state(), ChoiceKind::External, Effect::Pristine),
                Err((same, error)) => call_ensures(
                    handler,
                    (self.held(), payload),
                    (same.held(), Err::<O, E>(error)),
                ),
            },
    {
        self.run(payload, handler)
    }

    pub fn ready_dirty<O, E, H: FnOnce(T, TransactionStatus) -> (T, Result<O, E>)>(
        self,
        payload: TransactionStatus,
        handler: H,
    ) -> (result: Result<(TypedSession<T, Ready, Dirty>, O), (Self, E)>)
        requires
            call_requires(handler, (self.held(), payload)),
        ensures
            match result {
                Ok((next, out)) => call_ensures(
                    handler,
                    (self.held(), payload),
                    (next.held(), Ok::<O, E>(out)),
                ) && allowed(self.state(), Event::ReadyDirty) == to(next.state(), ChoiceKind::External, Effect::Dirty),
                Err((same, error)) => call_ensures(
                    handler,
                    (self.held(), payload),
                    (same.held(), Err::<O, E>(error)),
                ),
            },
    {
        self.run(payload, handler)
    }

    pub fn error<O, E, H: FnOnce(T, DiagnosticResponse) -> (T, Result<O, E>)>(
        self,
        payload: DiagnosticResponse,
        handler: H,
    ) -> (result: Result<(TypedSession<T, Draining, C>, O), (Self, E)>)
        requires
            call_requires(handler, (self.held(), payload)),
        ensures
            match result {
                Ok((next, out)) => call_ensures(
                    handler,
                    (self.held(), payload),
                    (next.held(), Ok::<O, E>(out)),
                ) && allowed(self.state(), Event::Error) == to(next.state(), ChoiceKind::External, Effect::Unchanged),
                Err((same, error)) => call_ensures(
                    handler,
                    (self.held(), payload),
                    (same.held(), Err::<O, E>(error)),
                ),
            },
    {
        self.run(payload, handler)
    }
}

} // verus!
