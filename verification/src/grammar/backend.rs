//! Session grammar of a backend, from its first idle moment on.

use bytes::Bytes;
use std::marker::PhantomData;
use vstd::prelude::*;

pub use super::{ChoiceKind, Effect};
use crate::codec::{
    BackendMessage, Bind, Close, CopyResponse, Describe, DiagnosticResponse, Execute,
    FrontendMessage, FunctionCall, Parse, RowDescription, TransactionStatus,
};
use crate::codec::backend::BackendView;
use crate::codec::frontend::FrontendView;
pub use crate::conn::{Dirty, Pristine};

verus! {

/// A phase of this grammar.
#[derive(Clone, Copy, Debug, PartialEq, Eq, Hash, Structural)]
pub enum RuntimeState {
    Ready,
    Simple,
    SimpleError,
    Building,
    ParseResponse,
    BindResponse,
    DescribeResponse,
    ExecuteResponse,
    CloseResponse,
    ExtendedError,
    SyncResponse,
    FunctionResponse,
    FunctionReady,
    SimpleCopyIn,
    SimpleCopyInDone,
    SimpleCopyInFailed,
    SimpleCopyOut,
    SimpleCopyOutDone,
    SimpleCopyReady,
    ExtendedCopyIn,
    ExtendedCopyInDone,
    ExtendedCopyInFailed,
    ExtendedCopyOut,
    ExtendedCopyOutDone,
    SimpleCopyBoth,
    SimpleCopyBothClientDone,
    SimpleCopyBothServerDone,
    SimpleCopyBothDone,
    SimpleCopyBothFailed,
    ExtendedCopyBoth,
    ExtendedCopyBothClientDone,
    ExtendedCopyBothServerDone,
    ExtendedCopyBothDone,
    ExtendedCopyBothFailed,
    Terminated,
}

/// A step of this grammar.
#[derive(Clone, Copy, Debug, PartialEq, Eq, Hash, Structural)]
pub enum Event {
    Query,
    Parse,
    Bind,
    Describe,
    Execute,
    Close,
    FunctionCall,
    Terminate,
    Continue,
    CopyIn,
    CopyOut,
    CopyBoth,
    Ready,
    Error,
    Flush,
    Sync,
    Complete,
    ParameterDescription,
    RowDescription,
    NoData,
    CommandComplete,
    PortalSuspended,
    Discard,
    FunctionResult,
    Data,
    Done,
    Fail,
    SendData,
    ReceiveData,
    SendDone,
    ReceiveDone,
}

/// An event that its phase does not allow. The machine stays in `state`.
#[derive(Clone, Copy, Debug, PartialEq, Eq, Structural)]
pub struct StepError {
    pub state: RuntimeState,
    pub event: Event,
}

/// Where an allowed event leads, who chooses it, and what it does to cleanliness.
#[derive(Clone, Copy, Debug, PartialEq, Eq, Structural)]
pub struct Transition {
    pub target: RuntimeState,
    pub choice: ChoiceKind,
    pub effect: Effect,
}

/// The outcome of an allowed event.
pub open spec fn to(target: RuntimeState, choice: ChoiceKind, effect: Effect) -> Option<Transition> {
    Some(Transition { target, choice, effect })
}

/// The grammar: which events each phase allows.
pub open spec fn allowed(state: RuntimeState, event: Event) -> Option<Transition> {
    match state {
        RuntimeState::Ready => match event {
            Event::Query => to(RuntimeState::Simple, ChoiceKind::External, Effect::Dirty),
            Event::Parse => to(RuntimeState::ParseResponse, ChoiceKind::External, Effect::Dirty),
            Event::Bind => to(RuntimeState::BindResponse, ChoiceKind::External, Effect::Dirty),
            Event::Describe => to(RuntimeState::DescribeResponse, ChoiceKind::External, Effect::Unchanged),
            Event::Execute => to(RuntimeState::ExecuteResponse, ChoiceKind::External, Effect::Dirty),
            Event::Close => to(RuntimeState::CloseResponse, ChoiceKind::External, Effect::Unchanged),
            Event::FunctionCall => to(RuntimeState::FunctionResponse, ChoiceKind::External, Effect::Dirty),
            Event::Terminate => to(RuntimeState::Terminated, ChoiceKind::External, Effect::Unchanged),
            _ => None,
        },
        RuntimeState::Simple => match event {
            Event::Continue => to(RuntimeState::Simple, ChoiceKind::Internal, Effect::Unchanged),
            Event::CopyIn => to(RuntimeState::SimpleCopyIn, ChoiceKind::Internal, Effect::Unchanged),
            Event::CopyOut => to(RuntimeState::SimpleCopyOut, ChoiceKind::Internal, Effect::Unchanged),
            Event::CopyBoth => to(RuntimeState::SimpleCopyBoth, ChoiceKind::Internal, Effect::Unchanged),
            Event::Ready => to(RuntimeState::Ready, ChoiceKind::Internal, Effect::Unchanged),
            Event::Error => to(RuntimeState::SimpleError, ChoiceKind::Internal, Effect::Unchanged),
            _ => None,
        },
        RuntimeState::SimpleError => match event {
            Event::Ready => to(RuntimeState::Ready, ChoiceKind::Internal, Effect::Unchanged),
            _ => None,
        },
        RuntimeState::Building => match event {
            Event::Parse => to(RuntimeState::ParseResponse, ChoiceKind::External, Effect::Dirty),
            Event::Bind => to(RuntimeState::BindResponse, ChoiceKind::External, Effect::Dirty),
            Event::Describe => to(RuntimeState::DescribeResponse, ChoiceKind::External, Effect::Unchanged),
            Event::Execute => to(RuntimeState::ExecuteResponse, ChoiceKind::External, Effect::Dirty),
            Event::Close => to(RuntimeState::CloseResponse, ChoiceKind::External, Effect::Unchanged),
            Event::Flush => to(RuntimeState::Building, ChoiceKind::External, Effect::Unchanged),
            Event::Sync => to(RuntimeState::SyncResponse, ChoiceKind::External, Effect::Unchanged),
            _ => None,
        },
        RuntimeState::ParseResponse => match event {
            Event::Complete => to(RuntimeState::Building, ChoiceKind::Internal, Effect::Unchanged),
            Event::Error => to(RuntimeState::ExtendedError, ChoiceKind::Internal, Effect::Unchanged),
            _ => None,
        },
        RuntimeState::BindResponse => match event {
            Event::Complete => to(RuntimeState::Building, ChoiceKind::Internal, Effect::Unchanged),
            Event::Error => to(RuntimeState::ExtendedError, ChoiceKind::Internal, Effect::Unchanged),
            _ => None,
        },
        RuntimeState::DescribeResponse => match event {
            Event::ParameterDescription => to(RuntimeState::DescribeResponse, ChoiceKind::Internal, Effect::Unchanged),
            Event::RowDescription => to(RuntimeState::Building, ChoiceKind::Internal, Effect::Unchanged),
            Event::NoData => to(RuntimeState::Building, ChoiceKind::Internal, Effect::Unchanged),
            Event::Error => to(RuntimeState::ExtendedError, ChoiceKind::Internal, Effect::Unchanged),
            _ => None,
        },
        RuntimeState::ExecuteResponse => match event {
            Event::Continue => to(RuntimeState::ExecuteResponse, ChoiceKind::Internal, Effect::Unchanged),
            Event::CopyIn => to(RuntimeState::ExtendedCopyIn, ChoiceKind::Internal, Effect::Unchanged),
            Event::CopyOut => to(RuntimeState::ExtendedCopyOut, ChoiceKind::Internal, Effect::Unchanged),
            Event::CopyBoth => to(RuntimeState::ExtendedCopyBoth, ChoiceKind::Internal, Effect::Unchanged),
            Event::CommandComplete => to(RuntimeState::Building, ChoiceKind::Internal, Effect::Unchanged),
            Event::PortalSuspended => to(RuntimeState::Building, ChoiceKind::Internal, Effect::Unchanged),
            Event::Error => to(RuntimeState::ExtendedError, ChoiceKind::Internal, Effect::Unchanged),
            _ => None,
        },
        RuntimeState::CloseResponse => match event {
            Event::Complete => to(RuntimeState::Building, ChoiceKind::Internal, Effect::Unchanged),
            Event::Error => to(RuntimeState::ExtendedError, ChoiceKind::Internal, Effect::Unchanged),
            _ => None,
        },
        RuntimeState::ExtendedError => match event {
            Event::Discard => to(RuntimeState::ExtendedError, ChoiceKind::External, Effect::Unchanged),
            Event::Sync => to(RuntimeState::SyncResponse, ChoiceKind::External, Effect::Unchanged),
            _ => None,
        },
        RuntimeState::SyncResponse => match event {
            Event::Ready => to(RuntimeState::Ready, ChoiceKind::Internal, Effect::Unchanged),
            _ => None,
        },
        RuntimeState::FunctionResponse => match event {
            Event::FunctionResult => to(RuntimeState::FunctionReady, ChoiceKind::Internal, Effect::Unchanged),
            Event::Error => to(RuntimeState::FunctionReady, ChoiceKind::Internal, Effect::Unchanged),
            _ => None,
        },
        RuntimeState::FunctionReady => match event {
            Event::Ready => to(RuntimeState::Ready, ChoiceKind::Internal, Effect::Unchanged),
            _ => None,
        },
        RuntimeState::SimpleCopyIn => match event {
            Event::Data => to(RuntimeState::SimpleCopyIn, ChoiceKind::External, Effect::Unchanged),
            Event::Done => to(RuntimeState::SimpleCopyInDone, ChoiceKind::External, Effect::Unchanged),
            Event::Fail => to(RuntimeState::SimpleCopyInFailed, ChoiceKind::External, Effect::Unchanged),
            _ => None,
        },
        RuntimeState::SimpleCopyInDone => match event {
            Event::CommandComplete => to(RuntimeState::SimpleCopyReady, ChoiceKind::Internal, Effect::Unchanged),
            _ => None,
        },
        RuntimeState::SimpleCopyInFailed => match event {
            Event::Error => to(RuntimeState::SimpleCopyReady, ChoiceKind::Internal, Effect::Unchanged),
            _ => None,
        },
        RuntimeState::SimpleCopyOut => match event {
            Event::Data => to(RuntimeState::SimpleCopyOut, ChoiceKind::Internal, Effect::Unchanged),
            Event::Done => to(RuntimeState::SimpleCopyOutDone, ChoiceKind::Internal, Effect::Unchanged),
            Event::Error => to(RuntimeState::SimpleCopyReady, ChoiceKind::Internal, Effect::Unchanged),
            _ => None,
        },
        RuntimeState::SimpleCopyOutDone => match event {
            Event::CommandComplete => to(RuntimeState::SimpleCopyReady, ChoiceKind::Internal, Effect::Unchanged),
            _ => None,
        },
        RuntimeState::SimpleCopyReady => match event {
            Event::Ready => to(RuntimeState::Ready, ChoiceKind::Internal, Effect::Unchanged),
            _ => None,
        },
        RuntimeState::ExtendedCopyIn => match event {
            Event::Data => to(RuntimeState::ExtendedCopyIn, ChoiceKind::External, Effect::Unchanged),
            Event::Done => to(RuntimeState::ExtendedCopyInDone, ChoiceKind::External, Effect::Unchanged),
            Event::Fail => to(RuntimeState::ExtendedCopyInFailed, ChoiceKind::External, Effect::Unchanged),
            _ => None,
        },
        RuntimeState::ExtendedCopyInDone => match event {
            Event::CommandComplete => to(RuntimeState::Building, ChoiceKind::Internal, Effect::Unchanged),
            Event::Error => to(RuntimeState::ExtendedError, ChoiceKind::Internal, Effect::Unchanged),
            _ => None,
        },
        RuntimeState::ExtendedCopyInFailed => match event {
            Event::Error => to(RuntimeState::ExtendedError, ChoiceKind::Internal, Effect::Unchanged),
            _ => None,
        },
        RuntimeState::ExtendedCopyOut => match event {
            Event::Data => to(RuntimeState::ExtendedCopyOut, ChoiceKind::Internal, Effect::Unchanged),
            Event::Done => to(RuntimeState::ExtendedCopyOutDone, ChoiceKind::Internal, Effect::Unchanged),
            Event::Error => to(RuntimeState::ExtendedError, ChoiceKind::Internal, Effect::Unchanged),
            _ => None,
        },
        RuntimeState::ExtendedCopyOutDone => match event {
            Event::CommandComplete => to(RuntimeState::Building, ChoiceKind::Internal, Effect::Unchanged),
            _ => None,
        },
        RuntimeState::SimpleCopyBoth => match event {
            Event::SendData => to(RuntimeState::SimpleCopyBoth, ChoiceKind::Internal, Effect::Unchanged),
            Event::ReceiveData => to(RuntimeState::SimpleCopyBoth, ChoiceKind::External, Effect::Unchanged),
            Event::SendDone => to(RuntimeState::SimpleCopyBothServerDone, ChoiceKind::Internal, Effect::Unchanged),
            Event::ReceiveDone => to(RuntimeState::SimpleCopyBothClientDone, ChoiceKind::External, Effect::Unchanged),
            Event::Fail => to(RuntimeState::SimpleCopyBothFailed, ChoiceKind::External, Effect::Unchanged),
            Event::Error => to(RuntimeState::SimpleCopyReady, ChoiceKind::Internal, Effect::Unchanged),
            _ => None,
        },
        RuntimeState::SimpleCopyBothClientDone => match event {
            Event::SendData => to(RuntimeState::SimpleCopyBothClientDone, ChoiceKind::Internal, Effect::Unchanged),
            Event::SendDone => to(RuntimeState::SimpleCopyBothDone, ChoiceKind::Internal, Effect::Unchanged),
            Event::Error => to(RuntimeState::SimpleCopyReady, ChoiceKind::Internal, Effect::Unchanged),
            _ => None,
        },
        RuntimeState::SimpleCopyBothServerDone => match event {
            Event::ReceiveData => to(RuntimeState::SimpleCopyBothServerDone, ChoiceKind::External, Effect::Unchanged),
            Event::ReceiveDone => to(RuntimeState::SimpleCopyBothDone, ChoiceKind::External, Effect::Unchanged),
            Event::Fail => to(RuntimeState::SimpleCopyBothFailed, ChoiceKind::External, Effect::Unchanged),
            _ => None,
        },
        RuntimeState::SimpleCopyBothDone => match event {
            Event::CommandComplete => to(RuntimeState::SimpleCopyReady, ChoiceKind::Internal, Effect::Unchanged),
            _ => None,
        },
        RuntimeState::SimpleCopyBothFailed => match event {
            Event::Error => to(RuntimeState::SimpleCopyReady, ChoiceKind::Internal, Effect::Unchanged),
            _ => None,
        },
        RuntimeState::ExtendedCopyBoth => match event {
            Event::SendData => to(RuntimeState::ExtendedCopyBoth, ChoiceKind::Internal, Effect::Unchanged),
            Event::ReceiveData => to(RuntimeState::ExtendedCopyBoth, ChoiceKind::External, Effect::Unchanged),
            Event::SendDone => to(RuntimeState::ExtendedCopyBothServerDone, ChoiceKind::Internal, Effect::Unchanged),
            Event::ReceiveDone => to(RuntimeState::ExtendedCopyBothClientDone, ChoiceKind::External, Effect::Unchanged),
            Event::Fail => to(RuntimeState::ExtendedCopyBothFailed, ChoiceKind::External, Effect::Unchanged),
            Event::Error => to(RuntimeState::ExtendedError, ChoiceKind::Internal, Effect::Unchanged),
            _ => None,
        },
        RuntimeState::ExtendedCopyBothClientDone => match event {
            Event::SendData => to(RuntimeState::ExtendedCopyBothClientDone, ChoiceKind::Internal, Effect::Unchanged),
            Event::SendDone => to(RuntimeState::ExtendedCopyBothDone, ChoiceKind::Internal, Effect::Unchanged),
            Event::Error => to(RuntimeState::ExtendedError, ChoiceKind::Internal, Effect::Unchanged),
            _ => None,
        },
        RuntimeState::ExtendedCopyBothServerDone => match event {
            Event::ReceiveData => to(RuntimeState::ExtendedCopyBothServerDone, ChoiceKind::External, Effect::Unchanged),
            Event::ReceiveDone => to(RuntimeState::ExtendedCopyBothDone, ChoiceKind::External, Effect::Unchanged),
            Event::Fail => to(RuntimeState::ExtendedCopyBothFailed, ChoiceKind::External, Effect::Unchanged),
            _ => None,
        },
        RuntimeState::ExtendedCopyBothDone => match event {
            Event::CommandComplete => to(RuntimeState::Building, ChoiceKind::Internal, Effect::Unchanged),
            _ => None,
        },
        RuntimeState::ExtendedCopyBothFailed => match event {
            Event::Error => to(RuntimeState::ExtendedError, ChoiceKind::Internal, Effect::Unchanged),
            _ => None,
        },
        RuntimeState::Terminated => None,
    }
}

/// Who chooses the next event in a phase.
pub open spec fn chooser(state: RuntimeState) -> ChoiceKind {
    match state {
        RuntimeState::Ready => ChoiceKind::External,
        RuntimeState::Simple => ChoiceKind::Internal,
        RuntimeState::SimpleError => ChoiceKind::Internal,
        RuntimeState::Building => ChoiceKind::External,
        RuntimeState::ParseResponse => ChoiceKind::Internal,
        RuntimeState::BindResponse => ChoiceKind::Internal,
        RuntimeState::DescribeResponse => ChoiceKind::Internal,
        RuntimeState::ExecuteResponse => ChoiceKind::Internal,
        RuntimeState::CloseResponse => ChoiceKind::Internal,
        RuntimeState::ExtendedError => ChoiceKind::External,
        RuntimeState::SyncResponse => ChoiceKind::Internal,
        RuntimeState::FunctionResponse => ChoiceKind::Internal,
        RuntimeState::FunctionReady => ChoiceKind::Internal,
        RuntimeState::SimpleCopyIn => ChoiceKind::External,
        RuntimeState::SimpleCopyInDone => ChoiceKind::Internal,
        RuntimeState::SimpleCopyInFailed => ChoiceKind::Internal,
        RuntimeState::SimpleCopyOut => ChoiceKind::Internal,
        RuntimeState::SimpleCopyOutDone => ChoiceKind::Internal,
        RuntimeState::SimpleCopyReady => ChoiceKind::Internal,
        RuntimeState::ExtendedCopyIn => ChoiceKind::External,
        RuntimeState::ExtendedCopyInDone => ChoiceKind::Internal,
        RuntimeState::ExtendedCopyInFailed => ChoiceKind::Internal,
        RuntimeState::ExtendedCopyOut => ChoiceKind::Internal,
        RuntimeState::ExtendedCopyOutDone => ChoiceKind::Internal,
        RuntimeState::SimpleCopyBoth => ChoiceKind::Mixed,
        RuntimeState::SimpleCopyBothClientDone => ChoiceKind::Internal,
        RuntimeState::SimpleCopyBothServerDone => ChoiceKind::External,
        RuntimeState::SimpleCopyBothDone => ChoiceKind::Internal,
        RuntimeState::SimpleCopyBothFailed => ChoiceKind::Internal,
        RuntimeState::ExtendedCopyBoth => ChoiceKind::Mixed,
        RuntimeState::ExtendedCopyBothClientDone => ChoiceKind::Internal,
        RuntimeState::ExtendedCopyBothServerDone => ChoiceKind::External,
        RuntimeState::ExtendedCopyBothDone => ChoiceKind::Internal,
        RuntimeState::ExtendedCopyBothFailed => ChoiceKind::Internal,
        RuntimeState::Terminated => ChoiceKind::External,
    }
}

/// The locally chosen event that a message stands for in a phase.
pub open spec fn internal_event(state: RuntimeState, message: BackendView) -> Option<Event> {
    match state {
        RuntimeState::Simple => match message {
            BackendView::RowDescription(_)
            | BackendView::DataRow(_)
            | BackendView::CommandComplete(_)
            | BackendView::EmptyQueryResponse => Some(Event::Continue),
            BackendView::CopyInResponse(_) => Some(Event::CopyIn),
            BackendView::CopyOutResponse(_) => Some(Event::CopyOut),
            BackendView::CopyBothResponse(_) => Some(Event::CopyBoth),
            BackendView::ReadyForQuery(_) => Some(Event::Ready),
            BackendView::ErrorResponse(_) => Some(Event::Error),
            _ => None,
        },
        RuntimeState::SimpleError => match message {
            BackendView::ReadyForQuery(_) => Some(Event::Ready),
            _ => None,
        },
        RuntimeState::ParseResponse => match message {
            BackendView::ParseComplete => Some(Event::Complete),
            BackendView::ErrorResponse(_) => Some(Event::Error),
            _ => None,
        },
        RuntimeState::BindResponse => match message {
            BackendView::BindComplete => Some(Event::Complete),
            BackendView::ErrorResponse(_) => Some(Event::Error),
            _ => None,
        },
        RuntimeState::DescribeResponse => match message {
            BackendView::ParameterDescription(_) => Some(Event::ParameterDescription),
            BackendView::RowDescription(_) => Some(Event::RowDescription),
            BackendView::NoData => Some(Event::NoData),
            BackendView::ErrorResponse(_) => Some(Event::Error),
            _ => None,
        },
        RuntimeState::ExecuteResponse => match message {
            BackendView::RowDescription(_)
            | BackendView::DataRow(_)
            | BackendView::EmptyQueryResponse => Some(Event::Continue),
            BackendView::CopyInResponse(_) => Some(Event::CopyIn),
            BackendView::CopyOutResponse(_) => Some(Event::CopyOut),
            BackendView::CopyBothResponse(_) => Some(Event::CopyBoth),
            BackendView::CommandComplete(_) => Some(Event::CommandComplete),
            BackendView::PortalSuspended => Some(Event::PortalSuspended),
            BackendView::ErrorResponse(_) => Some(Event::Error),
            _ => None,
        },
        RuntimeState::CloseResponse => match message {
            BackendView::CloseComplete => Some(Event::Complete),
            BackendView::ErrorResponse(_) => Some(Event::Error),
            _ => None,
        },
        RuntimeState::SyncResponse => match message {
            BackendView::ReadyForQuery(_) => Some(Event::Ready),
            _ => None,
        },
        RuntimeState::FunctionResponse => match message {
            BackendView::FunctionCallResponse(_) => Some(Event::FunctionResult),
            BackendView::ErrorResponse(_) => Some(Event::Error),
            _ => None,
        },
        RuntimeState::FunctionReady => match message {
            BackendView::ReadyForQuery(_) => Some(Event::Ready),
            _ => None,
        },
        RuntimeState::SimpleCopyInDone => match message {
            BackendView::CommandComplete(_) => Some(Event::CommandComplete),
            _ => None,
        },
        RuntimeState::SimpleCopyInFailed => match message {
            BackendView::ErrorResponse(_) => Some(Event::Error),
            _ => None,
        },
        RuntimeState::SimpleCopyOut => match message {
            BackendView::CopyData(_) => Some(Event::Data),
            BackendView::CopyDone => Some(Event::Done),
            BackendView::ErrorResponse(_) => Some(Event::Error),
            _ => None,
        },
        RuntimeState::SimpleCopyOutDone => match message {
            BackendView::CommandComplete(_) => Some(Event::CommandComplete),
            _ => None,
        },
        RuntimeState::SimpleCopyReady => match message {
            BackendView::ReadyForQuery(_) => Some(Event::Ready),
            _ => None,
        },
        RuntimeState::ExtendedCopyInDone => match message {
            BackendView::CommandComplete(_) => Some(Event::CommandComplete),
            BackendView::ErrorResponse(_) => Some(Event::Error),
            _ => None,
        },
        RuntimeState::ExtendedCopyInFailed => match message {
            BackendView::ErrorResponse(_) => Some(Event::Error),
            _ => None,
        },
        RuntimeState::ExtendedCopyOut => match message {
            BackendView::CopyData(_) => Some(Event::Data),
            BackendView::CopyDone => Some(Event::Done),
            BackendView::ErrorResponse(_) => Some(Event::Error),
            _ => None,
        },
        RuntimeState::ExtendedCopyOutDone => match message {
            BackendView::CommandComplete(_) => Some(Event::CommandComplete),
            _ => None,
        },
        RuntimeState::SimpleCopyBoth => match message {
            BackendView::CopyData(_) => Some(Event::SendData),
            BackendView::CopyDone => Some(Event::SendDone),
            BackendView::ErrorResponse(_) => Some(Event::Error),
            _ => None,
        },
        RuntimeState::SimpleCopyBothClientDone => match message {
            BackendView::CopyData(_) => Some(Event::SendData),
            BackendView::CopyDone => Some(Event::SendDone),
            BackendView::ErrorResponse(_) => Some(Event::Error),
            _ => None,
        },
        RuntimeState::SimpleCopyBothDone => match message {
            BackendView::CommandComplete(_) => Some(Event::CommandComplete),
            _ => None,
        },
        RuntimeState::SimpleCopyBothFailed => match message {
            BackendView::ErrorResponse(_) => Some(Event::Error),
            _ => None,
        },
        RuntimeState::ExtendedCopyBoth => match message {
            BackendView::CopyData(_) => Some(Event::SendData),
            BackendView::CopyDone => Some(Event::SendDone),
            BackendView::ErrorResponse(_) => Some(Event::Error),
            _ => None,
        },
        RuntimeState::ExtendedCopyBothClientDone => match message {
            BackendView::CopyData(_) => Some(Event::SendData),
            BackendView::CopyDone => Some(Event::SendDone),
            BackendView::ErrorResponse(_) => Some(Event::Error),
            _ => None,
        },
        RuntimeState::ExtendedCopyBothDone => match message {
            BackendView::CommandComplete(_) => Some(Event::CommandComplete),
            _ => None,
        },
        RuntimeState::ExtendedCopyBothFailed => match message {
            BackendView::ErrorResponse(_) => Some(Event::Error),
            _ => None,
        },
        _ => None,
    }
}

/// The peer's event that a message stands for in a phase.
pub open spec fn external_event(state: RuntimeState, message: FrontendView) -> Option<Event> {
    match state {
        RuntimeState::Ready => match message {
            FrontendView::Query(_) => Some(Event::Query),
            FrontendView::Parse(_) => Some(Event::Parse),
            FrontendView::Bind(_) => Some(Event::Bind),
            FrontendView::Describe(_) => Some(Event::Describe),
            FrontendView::Execute(_) => Some(Event::Execute),
            FrontendView::Close(_) => Some(Event::Close),
            FrontendView::FunctionCall(_) => Some(Event::FunctionCall),
            FrontendView::Terminate => Some(Event::Terminate),
            _ => None,
        },
        RuntimeState::Building => match message {
            FrontendView::Parse(_) => Some(Event::Parse),
            FrontendView::Bind(_) => Some(Event::Bind),
            FrontendView::Describe(_) => Some(Event::Describe),
            FrontendView::Execute(_) => Some(Event::Execute),
            FrontendView::Close(_) => Some(Event::Close),
            FrontendView::Flush => Some(Event::Flush),
            FrontendView::Sync => Some(Event::Sync),
            _ => None,
        },
        RuntimeState::ExtendedError => match message {
            FrontendView::Parse(_)
            | FrontendView::Bind(_)
            | FrontendView::Describe(_)
            | FrontendView::Execute(_)
            | FrontendView::Close(_)
            | FrontendView::Flush
            | FrontendView::Query(_)
            | FrontendView::FunctionCall(_)
            | FrontendView::Terminate
            | FrontendView::CopyData(_)
            | FrontendView::CopyDone
            | FrontendView::CopyFail(_)
            | FrontendView::PasswordResponse(_) => Some(Event::Discard),
            FrontendView::Sync => Some(Event::Sync),
            _ => None,
        },
        RuntimeState::SimpleCopyIn => match message {
            FrontendView::CopyData(_) => Some(Event::Data),
            FrontendView::CopyDone => Some(Event::Done),
            FrontendView::CopyFail(_) => Some(Event::Fail),
            _ => None,
        },
        RuntimeState::ExtendedCopyIn => match message {
            FrontendView::CopyData(_) => Some(Event::Data),
            FrontendView::CopyDone => Some(Event::Done),
            FrontendView::CopyFail(_) => Some(Event::Fail),
            _ => None,
        },
        RuntimeState::SimpleCopyBoth => match message {
            FrontendView::CopyData(_) => Some(Event::ReceiveData),
            FrontendView::CopyDone => Some(Event::ReceiveDone),
            FrontendView::CopyFail(_) => Some(Event::Fail),
            _ => None,
        },
        RuntimeState::SimpleCopyBothServerDone => match message {
            FrontendView::CopyData(_) => Some(Event::ReceiveData),
            FrontendView::CopyDone => Some(Event::ReceiveDone),
            FrontendView::CopyFail(_) => Some(Event::Fail),
            _ => None,
        },
        RuntimeState::ExtendedCopyBoth => match message {
            FrontendView::CopyData(_) => Some(Event::ReceiveData),
            FrontendView::CopyDone => Some(Event::ReceiveDone),
            FrontendView::CopyFail(_) => Some(Event::Fail),
            _ => None,
        },
        RuntimeState::ExtendedCopyBothServerDone => match message {
            FrontendView::CopyData(_) => Some(Event::ReceiveData),
            FrontendView::CopyDone => Some(Event::ReceiveDone),
            FrontendView::CopyFail(_) => Some(Event::Fail),
            _ => None,
        },
        _ => None,
    }
}

/// What an event does in a phase, where the phase allows it.
pub fn transition(state: RuntimeState, event: Event) -> (result: Option<Transition>)
    ensures
        result == allowed(state, event),
{
    let (target, choice, effect) = match state {
        RuntimeState::Ready => match event {
            Event::Query => (RuntimeState::Simple, ChoiceKind::External, Effect::Dirty),
            Event::Parse => (RuntimeState::ParseResponse, ChoiceKind::External, Effect::Dirty),
            Event::Bind => (RuntimeState::BindResponse, ChoiceKind::External, Effect::Dirty),
            Event::Describe => (RuntimeState::DescribeResponse, ChoiceKind::External, Effect::Unchanged),
            Event::Execute => (RuntimeState::ExecuteResponse, ChoiceKind::External, Effect::Dirty),
            Event::Close => (RuntimeState::CloseResponse, ChoiceKind::External, Effect::Unchanged),
            Event::FunctionCall => (RuntimeState::FunctionResponse, ChoiceKind::External, Effect::Dirty),
            Event::Terminate => (RuntimeState::Terminated, ChoiceKind::External, Effect::Unchanged),
            _ => return None,
        },
        RuntimeState::Simple => match event {
            Event::Continue => (RuntimeState::Simple, ChoiceKind::Internal, Effect::Unchanged),
            Event::CopyIn => (RuntimeState::SimpleCopyIn, ChoiceKind::Internal, Effect::Unchanged),
            Event::CopyOut => (RuntimeState::SimpleCopyOut, ChoiceKind::Internal, Effect::Unchanged),
            Event::CopyBoth => (RuntimeState::SimpleCopyBoth, ChoiceKind::Internal, Effect::Unchanged),
            Event::Ready => (RuntimeState::Ready, ChoiceKind::Internal, Effect::Unchanged),
            Event::Error => (RuntimeState::SimpleError, ChoiceKind::Internal, Effect::Unchanged),
            _ => return None,
        },
        RuntimeState::SimpleError => match event {
            Event::Ready => (RuntimeState::Ready, ChoiceKind::Internal, Effect::Unchanged),
            _ => return None,
        },
        RuntimeState::Building => match event {
            Event::Parse => (RuntimeState::ParseResponse, ChoiceKind::External, Effect::Dirty),
            Event::Bind => (RuntimeState::BindResponse, ChoiceKind::External, Effect::Dirty),
            Event::Describe => (RuntimeState::DescribeResponse, ChoiceKind::External, Effect::Unchanged),
            Event::Execute => (RuntimeState::ExecuteResponse, ChoiceKind::External, Effect::Dirty),
            Event::Close => (RuntimeState::CloseResponse, ChoiceKind::External, Effect::Unchanged),
            Event::Flush => (RuntimeState::Building, ChoiceKind::External, Effect::Unchanged),
            Event::Sync => (RuntimeState::SyncResponse, ChoiceKind::External, Effect::Unchanged),
            _ => return None,
        },
        RuntimeState::ParseResponse => match event {
            Event::Complete => (RuntimeState::Building, ChoiceKind::Internal, Effect::Unchanged),
            Event::Error => (RuntimeState::ExtendedError, ChoiceKind::Internal, Effect::Unchanged),
            _ => return None,
        },
        RuntimeState::BindResponse => match event {
            Event::Complete => (RuntimeState::Building, ChoiceKind::Internal, Effect::Unchanged),
            Event::Error => (RuntimeState::ExtendedError, ChoiceKind::Internal, Effect::Unchanged),
            _ => return None,
        },
        RuntimeState::DescribeResponse => match event {
            Event::ParameterDescription => (RuntimeState::DescribeResponse, ChoiceKind::Internal, Effect::Unchanged),
            Event::RowDescription => (RuntimeState::Building, ChoiceKind::Internal, Effect::Unchanged),
            Event::NoData => (RuntimeState::Building, ChoiceKind::Internal, Effect::Unchanged),
            Event::Error => (RuntimeState::ExtendedError, ChoiceKind::Internal, Effect::Unchanged),
            _ => return None,
        },
        RuntimeState::ExecuteResponse => match event {
            Event::Continue => (RuntimeState::ExecuteResponse, ChoiceKind::Internal, Effect::Unchanged),
            Event::CopyIn => (RuntimeState::ExtendedCopyIn, ChoiceKind::Internal, Effect::Unchanged),
            Event::CopyOut => (RuntimeState::ExtendedCopyOut, ChoiceKind::Internal, Effect::Unchanged),
            Event::CopyBoth => (RuntimeState::ExtendedCopyBoth, ChoiceKind::Internal, Effect::Unchanged),
            Event::CommandComplete => (RuntimeState::Building, ChoiceKind::Internal, Effect::Unchanged),
            Event::PortalSuspended => (RuntimeState::Building, ChoiceKind::Internal, Effect::Unchanged),
            Event::Error => (RuntimeState::ExtendedError, ChoiceKind::Internal, Effect::Unchanged),
            _ => return None,
        },
        RuntimeState::CloseResponse => match event {
            Event::Complete => (RuntimeState::Building, ChoiceKind::Internal, Effect::Unchanged),
            Event::Error => (RuntimeState::ExtendedError, ChoiceKind::Internal, Effect::Unchanged),
            _ => return None,
        },
        RuntimeState::ExtendedError => match event {
            Event::Discard => (RuntimeState::ExtendedError, ChoiceKind::External, Effect::Unchanged),
            Event::Sync => (RuntimeState::SyncResponse, ChoiceKind::External, Effect::Unchanged),
            _ => return None,
        },
        RuntimeState::SyncResponse => match event {
            Event::Ready => (RuntimeState::Ready, ChoiceKind::Internal, Effect::Unchanged),
            _ => return None,
        },
        RuntimeState::FunctionResponse => match event {
            Event::FunctionResult => (RuntimeState::FunctionReady, ChoiceKind::Internal, Effect::Unchanged),
            Event::Error => (RuntimeState::FunctionReady, ChoiceKind::Internal, Effect::Unchanged),
            _ => return None,
        },
        RuntimeState::FunctionReady => match event {
            Event::Ready => (RuntimeState::Ready, ChoiceKind::Internal, Effect::Unchanged),
            _ => return None,
        },
        RuntimeState::SimpleCopyIn => match event {
            Event::Data => (RuntimeState::SimpleCopyIn, ChoiceKind::External, Effect::Unchanged),
            Event::Done => (RuntimeState::SimpleCopyInDone, ChoiceKind::External, Effect::Unchanged),
            Event::Fail => (RuntimeState::SimpleCopyInFailed, ChoiceKind::External, Effect::Unchanged),
            _ => return None,
        },
        RuntimeState::SimpleCopyInDone => match event {
            Event::CommandComplete => (RuntimeState::SimpleCopyReady, ChoiceKind::Internal, Effect::Unchanged),
            _ => return None,
        },
        RuntimeState::SimpleCopyInFailed => match event {
            Event::Error => (RuntimeState::SimpleCopyReady, ChoiceKind::Internal, Effect::Unchanged),
            _ => return None,
        },
        RuntimeState::SimpleCopyOut => match event {
            Event::Data => (RuntimeState::SimpleCopyOut, ChoiceKind::Internal, Effect::Unchanged),
            Event::Done => (RuntimeState::SimpleCopyOutDone, ChoiceKind::Internal, Effect::Unchanged),
            Event::Error => (RuntimeState::SimpleCopyReady, ChoiceKind::Internal, Effect::Unchanged),
            _ => return None,
        },
        RuntimeState::SimpleCopyOutDone => match event {
            Event::CommandComplete => (RuntimeState::SimpleCopyReady, ChoiceKind::Internal, Effect::Unchanged),
            _ => return None,
        },
        RuntimeState::SimpleCopyReady => match event {
            Event::Ready => (RuntimeState::Ready, ChoiceKind::Internal, Effect::Unchanged),
            _ => return None,
        },
        RuntimeState::ExtendedCopyIn => match event {
            Event::Data => (RuntimeState::ExtendedCopyIn, ChoiceKind::External, Effect::Unchanged),
            Event::Done => (RuntimeState::ExtendedCopyInDone, ChoiceKind::External, Effect::Unchanged),
            Event::Fail => (RuntimeState::ExtendedCopyInFailed, ChoiceKind::External, Effect::Unchanged),
            _ => return None,
        },
        RuntimeState::ExtendedCopyInDone => match event {
            Event::CommandComplete => (RuntimeState::Building, ChoiceKind::Internal, Effect::Unchanged),
            Event::Error => (RuntimeState::ExtendedError, ChoiceKind::Internal, Effect::Unchanged),
            _ => return None,
        },
        RuntimeState::ExtendedCopyInFailed => match event {
            Event::Error => (RuntimeState::ExtendedError, ChoiceKind::Internal, Effect::Unchanged),
            _ => return None,
        },
        RuntimeState::ExtendedCopyOut => match event {
            Event::Data => (RuntimeState::ExtendedCopyOut, ChoiceKind::Internal, Effect::Unchanged),
            Event::Done => (RuntimeState::ExtendedCopyOutDone, ChoiceKind::Internal, Effect::Unchanged),
            Event::Error => (RuntimeState::ExtendedError, ChoiceKind::Internal, Effect::Unchanged),
            _ => return None,
        },
        RuntimeState::ExtendedCopyOutDone => match event {
            Event::CommandComplete => (RuntimeState::Building, ChoiceKind::Internal, Effect::Unchanged),
            _ => return None,
        },
        RuntimeState::SimpleCopyBoth => match event {
            Event::SendData => (RuntimeState::SimpleCopyBoth, ChoiceKind::Internal, Effect::Unchanged),
            Event::ReceiveData => (RuntimeState::SimpleCopyBoth, ChoiceKind::External, Effect::Unchanged),
            Event::SendDone => (RuntimeState::SimpleCopyBothServerDone, ChoiceKind::Internal, Effect::Unchanged),
            Event::ReceiveDone => (RuntimeState::SimpleCopyBothClientDone, ChoiceKind::External, Effect::Unchanged),
            Event::Fail => (RuntimeState::SimpleCopyBothFailed, ChoiceKind::External, Effect::Unchanged),
            Event::Error => (RuntimeState::SimpleCopyReady, ChoiceKind::Internal, Effect::Unchanged),
            _ => return None,
        },
        RuntimeState::SimpleCopyBothClientDone => match event {
            Event::SendData => (RuntimeState::SimpleCopyBothClientDone, ChoiceKind::Internal, Effect::Unchanged),
            Event::SendDone => (RuntimeState::SimpleCopyBothDone, ChoiceKind::Internal, Effect::Unchanged),
            Event::Error => (RuntimeState::SimpleCopyReady, ChoiceKind::Internal, Effect::Unchanged),
            _ => return None,
        },
        RuntimeState::SimpleCopyBothServerDone => match event {
            Event::ReceiveData => (RuntimeState::SimpleCopyBothServerDone, ChoiceKind::External, Effect::Unchanged),
            Event::ReceiveDone => (RuntimeState::SimpleCopyBothDone, ChoiceKind::External, Effect::Unchanged),
            Event::Fail => (RuntimeState::SimpleCopyBothFailed, ChoiceKind::External, Effect::Unchanged),
            _ => return None,
        },
        RuntimeState::SimpleCopyBothDone => match event {
            Event::CommandComplete => (RuntimeState::SimpleCopyReady, ChoiceKind::Internal, Effect::Unchanged),
            _ => return None,
        },
        RuntimeState::SimpleCopyBothFailed => match event {
            Event::Error => (RuntimeState::SimpleCopyReady, ChoiceKind::Internal, Effect::Unchanged),
            _ => return None,
        },
        RuntimeState::ExtendedCopyBoth => match event {
            Event::SendData => (RuntimeState::ExtendedCopyBoth, ChoiceKind::Internal, Effect::Unchanged),
            Event::ReceiveData => (RuntimeState::ExtendedCopyBoth, ChoiceKind::External, Effect::Unchanged),
            Event::SendDone => (RuntimeState::ExtendedCopyBothServerDone, ChoiceKind::Internal, Effect::Unchanged),
            Event::ReceiveDone => (RuntimeState::ExtendedCopyBothClientDone, ChoiceKind::External, Effect::Unchanged),
            Event::Fail => (RuntimeState::ExtendedCopyBothFailed, ChoiceKind::External, Effect::Unchanged),
            Event::Error => (RuntimeState::ExtendedError, ChoiceKind::Internal, Effect::Unchanged),
            _ => return None,
        },
        RuntimeState::ExtendedCopyBothClientDone => match event {
            Event::SendData => (RuntimeState::ExtendedCopyBothClientDone, ChoiceKind::Internal, Effect::Unchanged),
            Event::SendDone => (RuntimeState::ExtendedCopyBothDone, ChoiceKind::Internal, Effect::Unchanged),
            Event::Error => (RuntimeState::ExtendedError, ChoiceKind::Internal, Effect::Unchanged),
            _ => return None,
        },
        RuntimeState::ExtendedCopyBothServerDone => match event {
            Event::ReceiveData => (RuntimeState::ExtendedCopyBothServerDone, ChoiceKind::External, Effect::Unchanged),
            Event::ReceiveDone => (RuntimeState::ExtendedCopyBothDone, ChoiceKind::External, Effect::Unchanged),
            Event::Fail => (RuntimeState::ExtendedCopyBothFailed, ChoiceKind::External, Effect::Unchanged),
            _ => return None,
        },
        RuntimeState::ExtendedCopyBothDone => match event {
            Event::CommandComplete => (RuntimeState::Building, ChoiceKind::Internal, Effect::Unchanged),
            _ => return None,
        },
        RuntimeState::ExtendedCopyBothFailed => match event {
            Event::Error => (RuntimeState::ExtendedError, ChoiceKind::Internal, Effect::Unchanged),
            _ => return None,
        },
        RuntimeState::Terminated => return None,
    };
    Some(Transition { target, choice, effect })
}

/// The locally chosen event that a message stands for in a phase, if it is legal there.
pub fn project_internal(state: RuntimeState, message: &BackendMessage) -> (event: Option<Event>)
    ensures
        event == internal_event(state, message@),
{
    match state {
        RuntimeState::Simple => match message {
            BackendMessage::RowDescription(_)
            | BackendMessage::DataRow(_)
            | BackendMessage::CommandComplete(_)
            | BackendMessage::EmptyQueryResponse => Some(Event::Continue),
            BackendMessage::CopyInResponse(_) => Some(Event::CopyIn),
            BackendMessage::CopyOutResponse(_) => Some(Event::CopyOut),
            BackendMessage::CopyBothResponse(_) => Some(Event::CopyBoth),
            BackendMessage::ReadyForQuery(_) => Some(Event::Ready),
            BackendMessage::ErrorResponse(_) => Some(Event::Error),
            _ => None,
        },
        RuntimeState::SimpleError => match message {
            BackendMessage::ReadyForQuery(_) => Some(Event::Ready),
            _ => None,
        },
        RuntimeState::ParseResponse => match message {
            BackendMessage::ParseComplete => Some(Event::Complete),
            BackendMessage::ErrorResponse(_) => Some(Event::Error),
            _ => None,
        },
        RuntimeState::BindResponse => match message {
            BackendMessage::BindComplete => Some(Event::Complete),
            BackendMessage::ErrorResponse(_) => Some(Event::Error),
            _ => None,
        },
        RuntimeState::DescribeResponse => match message {
            BackendMessage::ParameterDescription(_) => Some(Event::ParameterDescription),
            BackendMessage::RowDescription(_) => Some(Event::RowDescription),
            BackendMessage::NoData => Some(Event::NoData),
            BackendMessage::ErrorResponse(_) => Some(Event::Error),
            _ => None,
        },
        RuntimeState::ExecuteResponse => match message {
            BackendMessage::RowDescription(_)
            | BackendMessage::DataRow(_)
            | BackendMessage::EmptyQueryResponse => Some(Event::Continue),
            BackendMessage::CopyInResponse(_) => Some(Event::CopyIn),
            BackendMessage::CopyOutResponse(_) => Some(Event::CopyOut),
            BackendMessage::CopyBothResponse(_) => Some(Event::CopyBoth),
            BackendMessage::CommandComplete(_) => Some(Event::CommandComplete),
            BackendMessage::PortalSuspended => Some(Event::PortalSuspended),
            BackendMessage::ErrorResponse(_) => Some(Event::Error),
            _ => None,
        },
        RuntimeState::CloseResponse => match message {
            BackendMessage::CloseComplete => Some(Event::Complete),
            BackendMessage::ErrorResponse(_) => Some(Event::Error),
            _ => None,
        },
        RuntimeState::SyncResponse => match message {
            BackendMessage::ReadyForQuery(_) => Some(Event::Ready),
            _ => None,
        },
        RuntimeState::FunctionResponse => match message {
            BackendMessage::FunctionCallResponse(_) => Some(Event::FunctionResult),
            BackendMessage::ErrorResponse(_) => Some(Event::Error),
            _ => None,
        },
        RuntimeState::FunctionReady => match message {
            BackendMessage::ReadyForQuery(_) => Some(Event::Ready),
            _ => None,
        },
        RuntimeState::SimpleCopyInDone => match message {
            BackendMessage::CommandComplete(_) => Some(Event::CommandComplete),
            _ => None,
        },
        RuntimeState::SimpleCopyInFailed => match message {
            BackendMessage::ErrorResponse(_) => Some(Event::Error),
            _ => None,
        },
        RuntimeState::SimpleCopyOut => match message {
            BackendMessage::CopyData(_) => Some(Event::Data),
            BackendMessage::CopyDone => Some(Event::Done),
            BackendMessage::ErrorResponse(_) => Some(Event::Error),
            _ => None,
        },
        RuntimeState::SimpleCopyOutDone => match message {
            BackendMessage::CommandComplete(_) => Some(Event::CommandComplete),
            _ => None,
        },
        RuntimeState::SimpleCopyReady => match message {
            BackendMessage::ReadyForQuery(_) => Some(Event::Ready),
            _ => None,
        },
        RuntimeState::ExtendedCopyInDone => match message {
            BackendMessage::CommandComplete(_) => Some(Event::CommandComplete),
            BackendMessage::ErrorResponse(_) => Some(Event::Error),
            _ => None,
        },
        RuntimeState::ExtendedCopyInFailed => match message {
            BackendMessage::ErrorResponse(_) => Some(Event::Error),
            _ => None,
        },
        RuntimeState::ExtendedCopyOut => match message {
            BackendMessage::CopyData(_) => Some(Event::Data),
            BackendMessage::CopyDone => Some(Event::Done),
            BackendMessage::ErrorResponse(_) => Some(Event::Error),
            _ => None,
        },
        RuntimeState::ExtendedCopyOutDone => match message {
            BackendMessage::CommandComplete(_) => Some(Event::CommandComplete),
            _ => None,
        },
        RuntimeState::SimpleCopyBoth => match message {
            BackendMessage::CopyData(_) => Some(Event::SendData),
            BackendMessage::CopyDone => Some(Event::SendDone),
            BackendMessage::ErrorResponse(_) => Some(Event::Error),
            _ => None,
        },
        RuntimeState::SimpleCopyBothClientDone => match message {
            BackendMessage::CopyData(_) => Some(Event::SendData),
            BackendMessage::CopyDone => Some(Event::SendDone),
            BackendMessage::ErrorResponse(_) => Some(Event::Error),
            _ => None,
        },
        RuntimeState::SimpleCopyBothDone => match message {
            BackendMessage::CommandComplete(_) => Some(Event::CommandComplete),
            _ => None,
        },
        RuntimeState::SimpleCopyBothFailed => match message {
            BackendMessage::ErrorResponse(_) => Some(Event::Error),
            _ => None,
        },
        RuntimeState::ExtendedCopyBoth => match message {
            BackendMessage::CopyData(_) => Some(Event::SendData),
            BackendMessage::CopyDone => Some(Event::SendDone),
            BackendMessage::ErrorResponse(_) => Some(Event::Error),
            _ => None,
        },
        RuntimeState::ExtendedCopyBothClientDone => match message {
            BackendMessage::CopyData(_) => Some(Event::SendData),
            BackendMessage::CopyDone => Some(Event::SendDone),
            BackendMessage::ErrorResponse(_) => Some(Event::Error),
            _ => None,
        },
        RuntimeState::ExtendedCopyBothDone => match message {
            BackendMessage::CommandComplete(_) => Some(Event::CommandComplete),
            _ => None,
        },
        RuntimeState::ExtendedCopyBothFailed => match message {
            BackendMessage::ErrorResponse(_) => Some(Event::Error),
            _ => None,
        },
        _ => None,
    }
}

/// The peer's event that a message stands for in a phase, if it is legal there.
pub fn project_external(state: RuntimeState, message: &FrontendMessage) -> (event: Option<Event>)
    ensures
        event == external_event(state, message@),
{
    match state {
        RuntimeState::Ready => match message {
            FrontendMessage::Query(_) => Some(Event::Query),
            FrontendMessage::Parse(_) => Some(Event::Parse),
            FrontendMessage::Bind(_) => Some(Event::Bind),
            FrontendMessage::Describe(_) => Some(Event::Describe),
            FrontendMessage::Execute(_) => Some(Event::Execute),
            FrontendMessage::Close(_) => Some(Event::Close),
            FrontendMessage::FunctionCall(_) => Some(Event::FunctionCall),
            FrontendMessage::Terminate => Some(Event::Terminate),
            _ => None,
        },
        RuntimeState::Building => match message {
            FrontendMessage::Parse(_) => Some(Event::Parse),
            FrontendMessage::Bind(_) => Some(Event::Bind),
            FrontendMessage::Describe(_) => Some(Event::Describe),
            FrontendMessage::Execute(_) => Some(Event::Execute),
            FrontendMessage::Close(_) => Some(Event::Close),
            FrontendMessage::Flush => Some(Event::Flush),
            FrontendMessage::Sync => Some(Event::Sync),
            _ => None,
        },
        RuntimeState::ExtendedError => match message {
            FrontendMessage::Parse(_)
            | FrontendMessage::Bind(_)
            | FrontendMessage::Describe(_)
            | FrontendMessage::Execute(_)
            | FrontendMessage::Close(_)
            | FrontendMessage::Flush
            | FrontendMessage::Query(_)
            | FrontendMessage::FunctionCall(_)
            | FrontendMessage::Terminate
            | FrontendMessage::CopyData(_)
            | FrontendMessage::CopyDone
            | FrontendMessage::CopyFail(_)
            | FrontendMessage::PasswordResponse(_) => Some(Event::Discard),
            FrontendMessage::Sync => Some(Event::Sync),
            _ => None,
        },
        RuntimeState::SimpleCopyIn => match message {
            FrontendMessage::CopyData(_) => Some(Event::Data),
            FrontendMessage::CopyDone => Some(Event::Done),
            FrontendMessage::CopyFail(_) => Some(Event::Fail),
            _ => None,
        },
        RuntimeState::ExtendedCopyIn => match message {
            FrontendMessage::CopyData(_) => Some(Event::Data),
            FrontendMessage::CopyDone => Some(Event::Done),
            FrontendMessage::CopyFail(_) => Some(Event::Fail),
            _ => None,
        },
        RuntimeState::SimpleCopyBoth => match message {
            FrontendMessage::CopyData(_) => Some(Event::ReceiveData),
            FrontendMessage::CopyDone => Some(Event::ReceiveDone),
            FrontendMessage::CopyFail(_) => Some(Event::Fail),
            _ => None,
        },
        RuntimeState::SimpleCopyBothServerDone => match message {
            FrontendMessage::CopyData(_) => Some(Event::ReceiveData),
            FrontendMessage::CopyDone => Some(Event::ReceiveDone),
            FrontendMessage::CopyFail(_) => Some(Event::Fail),
            _ => None,
        },
        RuntimeState::ExtendedCopyBoth => match message {
            FrontendMessage::CopyData(_) => Some(Event::ReceiveData),
            FrontendMessage::CopyDone => Some(Event::ReceiveDone),
            FrontendMessage::CopyFail(_) => Some(Event::Fail),
            _ => None,
        },
        RuntimeState::ExtendedCopyBothServerDone => match message {
            FrontendMessage::CopyData(_) => Some(Event::ReceiveData),
            FrontendMessage::CopyDone => Some(Event::ReceiveDone),
            FrontendMessage::CopyFail(_) => Some(Event::Fail),
            _ => None,
        },
        _ => None,
    }
}

/// Every event of this grammar, once.
pub fn all_events() -> (events: Vec<Event>)
    ensures
        events@.no_duplicates(),
        forall|event: Event| #[trigger] events@.contains(event),
{
    let events = vec![
        Event::Query,
        Event::Parse,
        Event::Bind,
        Event::Describe,
        Event::Execute,
        Event::Close,
        Event::FunctionCall,
        Event::Terminate,
        Event::Continue,
        Event::CopyIn,
        Event::CopyOut,
        Event::CopyBoth,
        Event::Ready,
        Event::Error,
        Event::Flush,
        Event::Sync,
        Event::Complete,
        Event::ParameterDescription,
        Event::RowDescription,
        Event::NoData,
        Event::CommandComplete,
        Event::PortalSuspended,
        Event::Discard,
        Event::FunctionResult,
        Event::Data,
        Event::Done,
        Event::Fail,
        Event::SendData,
        Event::ReceiveData,
        Event::SendDone,
        Event::ReceiveDone,
    ];
    assert forall|event: Event| #[trigger] events@.contains(event) by {
        match event {
            Event::Query => assert(events@[0] == event),
            Event::Parse => assert(events@[1] == event),
            Event::Bind => assert(events@[2] == event),
            Event::Describe => assert(events@[3] == event),
            Event::Execute => assert(events@[4] == event),
            Event::Close => assert(events@[5] == event),
            Event::FunctionCall => assert(events@[6] == event),
            Event::Terminate => assert(events@[7] == event),
            Event::Continue => assert(events@[8] == event),
            Event::CopyIn => assert(events@[9] == event),
            Event::CopyOut => assert(events@[10] == event),
            Event::CopyBoth => assert(events@[11] == event),
            Event::Ready => assert(events@[12] == event),
            Event::Error => assert(events@[13] == event),
            Event::Flush => assert(events@[14] == event),
            Event::Sync => assert(events@[15] == event),
            Event::Complete => assert(events@[16] == event),
            Event::ParameterDescription => assert(events@[17] == event),
            Event::RowDescription => assert(events@[18] == event),
            Event::NoData => assert(events@[19] == event),
            Event::CommandComplete => assert(events@[20] == event),
            Event::PortalSuspended => assert(events@[21] == event),
            Event::Discard => assert(events@[22] == event),
            Event::FunctionResult => assert(events@[23] == event),
            Event::Data => assert(events@[24] == event),
            Event::Done => assert(events@[25] == event),
            Event::Fail => assert(events@[26] == event),
            Event::SendData => assert(events@[27] == event),
            Event::ReceiveData => assert(events@[28] == event),
            Event::SendDone => assert(events@[29] == event),
            Event::ReceiveDone => assert(events@[30] == event),
        }
    }
    events
}

/// Runtime machine that follows this grammar.
#[derive(Clone, Copy, Debug, PartialEq, Eq, Structural)]
pub struct RuntimeFsm {
    state: RuntimeState,
}

impl RuntimeFsm {
    /// The phase that the machine is in.
    pub closed spec fn current(self) -> RuntimeState {
        self.state
    }

    /// A machine in the initial phase.
    pub fn new() -> (machine: RuntimeFsm)
        ensures
            machine.current() == RuntimeState::Ready,
    {
        RuntimeFsm { state: RuntimeState::Ready }
    }

    /// The phase that the machine is in.
    pub fn state(&self) -> (state: RuntimeState)
        ensures
            state == self.current(),
    {
        self.state
    }

    /// Who chooses the next event.
    pub fn choice(&self) -> (choice: ChoiceKind)
        ensures
            choice == chooser(self.current()),
    {
        match self.state {
            RuntimeState::Ready => ChoiceKind::External,
            RuntimeState::Simple => ChoiceKind::Internal,
            RuntimeState::SimpleError => ChoiceKind::Internal,
            RuntimeState::Building => ChoiceKind::External,
            RuntimeState::ParseResponse => ChoiceKind::Internal,
            RuntimeState::BindResponse => ChoiceKind::Internal,
            RuntimeState::DescribeResponse => ChoiceKind::Internal,
            RuntimeState::ExecuteResponse => ChoiceKind::Internal,
            RuntimeState::CloseResponse => ChoiceKind::Internal,
            RuntimeState::ExtendedError => ChoiceKind::External,
            RuntimeState::SyncResponse => ChoiceKind::Internal,
            RuntimeState::FunctionResponse => ChoiceKind::Internal,
            RuntimeState::FunctionReady => ChoiceKind::Internal,
            RuntimeState::SimpleCopyIn => ChoiceKind::External,
            RuntimeState::SimpleCopyInDone => ChoiceKind::Internal,
            RuntimeState::SimpleCopyInFailed => ChoiceKind::Internal,
            RuntimeState::SimpleCopyOut => ChoiceKind::Internal,
            RuntimeState::SimpleCopyOutDone => ChoiceKind::Internal,
            RuntimeState::SimpleCopyReady => ChoiceKind::Internal,
            RuntimeState::ExtendedCopyIn => ChoiceKind::External,
            RuntimeState::ExtendedCopyInDone => ChoiceKind::Internal,
            RuntimeState::ExtendedCopyInFailed => ChoiceKind::Internal,
            RuntimeState::ExtendedCopyOut => ChoiceKind::Internal,
            RuntimeState::ExtendedCopyOutDone => ChoiceKind::Internal,
            RuntimeState::SimpleCopyBoth => ChoiceKind::Mixed,
            RuntimeState::SimpleCopyBothClientDone => ChoiceKind::Internal,
            RuntimeState::SimpleCopyBothServerDone => ChoiceKind::External,
            RuntimeState::SimpleCopyBothDone => ChoiceKind::Internal,
            RuntimeState::SimpleCopyBothFailed => ChoiceKind::Internal,
            RuntimeState::ExtendedCopyBoth => ChoiceKind::Mixed,
            RuntimeState::ExtendedCopyBothClientDone => ChoiceKind::Internal,
            RuntimeState::ExtendedCopyBothServerDone => ChoiceKind::External,
            RuntimeState::ExtendedCopyBothDone => ChoiceKind::Internal,
            RuntimeState::ExtendedCopyBothFailed => ChoiceKind::Internal,
            RuntimeState::Terminated => ChoiceKind::External,
        }
    }

    /// Who chooses `event` in the current phase, if the phase allows it.
    pub fn event_choice(&self, event: Event) -> (choice: Option<ChoiceKind>)
        ensures
            choice == choice_of(allowed(self.current(), event)),
    {
        match transition(self.state, event) {
            Some(transition) => Some(transition.choice),
            None => None,
        }
    }

    /// Who chooses `event` as seen from the peer.
    pub fn dual_event_choice(&self, event: Event) -> (choice: Option<ChoiceKind>)
        ensures
            choice == match choice_of(allowed(self.current(), event)) {
                Some(choice) => Some(choice.flipped()),
                None => None,
            },
    {
        match transition(self.state, event) {
            Some(transition) => Some(transition.choice.dual()),
            None => None,
        }
    }

    /// Follows an event.
    ///
    /// # Errors
    ///
    /// Returns the event when the current phase does not allow it; the machine
    /// then stays where it was.
    pub fn step(&mut self, event: Event) -> (result: Result<(), StepError>)
        ensures
            match allowed(old(self).current(), event) {
                Some(transition) => result == Ok::<(), StepError>(()) && final(self).current()
                    == transition.target,
                None => result == Err::<(), StepError>(
                    (StepError { state: old(self).current(), event }),
                ) && *final(self) == *old(self),
            },
    {
        match transition(self.state, event) {
            Some(transition) => {
                self.state = transition.target;
                Ok(())
            },
            None => Err(StepError { state: self.state, event }),
        }
    }

    /// Projects a wire message in the current phase and follows the event.
    ///
    /// # Errors
    ///
    /// Returns the current phase when it has no event for the message, or does
    /// not allow the event; the machine then stays where it was.
    pub fn step_projected<M, F: Fn(RuntimeState, &M) -> Option<Event>>(
        &mut self,
        message: &M,
        project: F,
    ) -> (result: Result<Event, RuntimeState>)
        requires
            call_requires(project, (old(self).current(), message)),
        ensures
            match result {
                Ok(event) => call_ensures(
                    project,
                    (old(self).current(), message),
                    Some(event),
                ) && allowed(old(self).current(), event) is Some && final(self).current()
                    == allowed(old(self).current(), event)->Some_0.target,
                Err(state) => {
                    &&& *final(self) == *old(self)
                    &&& state == old(self).current()
                    &&& exists|event: Option<Event>| #[trigger]
                        call_ensures(project, (old(self).current(), message), event) && (
                        event matches Some(event) ==> allowed(old(self).current(), event) is None)
                },
            },
    {
        match project(self.state, message) {
            Some(event) => match self.step(event) {
                Ok(_) => Ok(event),
                Err(_) => Err(self.state),
            },
            None => Err(self.state),
        }
    }
}

/// Who chooses an event, where it is allowed.
pub open spec fn choice_of(transition: Option<Transition>) -> Option<ChoiceKind> {
    match transition {
        Some(transition) => Some(transition.choice),
        None => None,
    }
}

impl Default for RuntimeFsm {
    fn default() -> (machine: RuntimeFsm)
        ensures
            machine.current() == RuntimeState::Ready,
    {
        RuntimeFsm::new()
    }
}

/// A compile-time phase index.
pub trait Phase {
    /// The runtime phase of the same name.
    spec fn state() -> RuntimeState;

    /// The runtime phase of the same name.
    fn runtime_state() -> (state: RuntimeState)
        ensures
            state == Self::state(),
    ;
}

/// Phase index.
#[derive(Debug)]
pub struct Ready;

impl Phase for Ready {
    open spec fn state() -> RuntimeState {
        RuntimeState::Ready
    }

    fn runtime_state() -> (state: RuntimeState) {
        RuntimeState::Ready
    }
}

/// Phase index.
#[derive(Debug)]
pub struct Simple;

impl Phase for Simple {
    open spec fn state() -> RuntimeState {
        RuntimeState::Simple
    }

    fn runtime_state() -> (state: RuntimeState) {
        RuntimeState::Simple
    }
}

/// Phase index.
#[derive(Debug)]
pub struct SimpleError;

impl Phase for SimpleError {
    open spec fn state() -> RuntimeState {
        RuntimeState::SimpleError
    }

    fn runtime_state() -> (state: RuntimeState) {
        RuntimeState::SimpleError
    }
}

/// Phase index.
#[derive(Debug)]
pub struct Building;

impl Phase for Building {
    open spec fn state() -> RuntimeState {
        RuntimeState::Building
    }

    fn runtime_state() -> (state: RuntimeState) {
        RuntimeState::Building
    }
}

/// Phase index.
#[derive(Debug)]
pub struct ParseResponse;

impl Phase for ParseResponse {
    open spec fn state() -> RuntimeState {
        RuntimeState::ParseResponse
    }

    fn runtime_state() -> (state: RuntimeState) {
        RuntimeState::ParseResponse
    }
}

/// Phase index.
#[derive(Debug)]
pub struct BindResponse;

impl Phase for BindResponse {
    open spec fn state() -> RuntimeState {
        RuntimeState::BindResponse
    }

    fn runtime_state() -> (state: RuntimeState) {
        RuntimeState::BindResponse
    }
}

/// Phase index.
#[derive(Debug)]
pub struct DescribeResponse;

impl Phase for DescribeResponse {
    open spec fn state() -> RuntimeState {
        RuntimeState::DescribeResponse
    }

    fn runtime_state() -> (state: RuntimeState) {
        RuntimeState::DescribeResponse
    }
}

/// Phase index.
#[derive(Debug)]
pub struct ExecuteResponse;

impl Phase for ExecuteResponse {
    open spec fn state() -> RuntimeState {
        RuntimeState::ExecuteResponse
    }

    fn runtime_state() -> (state: RuntimeState) {
        RuntimeState::ExecuteResponse
    }
}

/// Phase index.
#[derive(Debug)]
pub struct CloseResponse;

impl Phase for CloseResponse {
    open spec fn state() -> RuntimeState {
        RuntimeState::CloseResponse
    }

    fn runtime_state() -> (state: RuntimeState) {
        RuntimeState::CloseResponse
    }
}

/// Phase index.
#[derive(Debug)]
pub struct ExtendedError;

impl Phase for ExtendedError {
    open spec fn state() -> RuntimeState {
        RuntimeState::ExtendedError
    }

    fn runtime_state() -> (state: RuntimeState) {
        RuntimeState::ExtendedError
    }
}

/// Phase index.
#[derive(Debug)]
pub struct SyncResponse;

impl Phase for SyncResponse {
    open spec fn state() -> RuntimeState {
        RuntimeState::SyncResponse
    }

    fn runtime_state() -> (state: RuntimeState) {
        RuntimeState::SyncResponse
    }
}

/// Phase index.
#[derive(Debug)]
pub struct FunctionResponse;

impl Phase for FunctionResponse {
    open spec fn state() -> RuntimeState {
        RuntimeState::FunctionResponse
    }

    fn runtime_state() -> (state: RuntimeState) {
        RuntimeState::FunctionResponse
    }
}

/// Phase index.
#[derive(Debug)]
pub struct FunctionReady;

impl Phase for FunctionReady {
    open spec fn state() -> RuntimeState {
        RuntimeState::FunctionReady
    }

    fn runtime_state() -> (state: RuntimeState) {
        RuntimeState::FunctionReady
    }
}

/// Phase index.
#[derive(Debug)]
pub struct SimpleCopyIn;

impl Phase for SimpleCopyIn {
    open spec fn state() -> RuntimeState {
        RuntimeState::SimpleCopyIn
    }

    fn runtime_state() -> (state: RuntimeState) {
        RuntimeState::SimpleCopyIn
    }
}

/// Phase index.
#[derive(Debug)]
pub struct SimpleCopyInDone;

impl Phase for SimpleCopyInDone {
    open spec fn state() -> RuntimeState {
        RuntimeState::SimpleCopyInDone
    }

    fn runtime_state() -> (state: RuntimeState) {
        RuntimeState::SimpleCopyInDone
    }
}

/// Phase index.
#[derive(Debug)]
pub struct SimpleCopyInFailed;

impl Phase for SimpleCopyInFailed {
    open spec fn state() -> RuntimeState {
        RuntimeState::SimpleCopyInFailed
    }

    fn runtime_state() -> (state: RuntimeState) {
        RuntimeState::SimpleCopyInFailed
    }
}

/// Phase index.
#[derive(Debug)]
pub struct SimpleCopyOut;

impl Phase for SimpleCopyOut {
    open spec fn state() -> RuntimeState {
        RuntimeState::SimpleCopyOut
    }

    fn runtime_state() -> (state: RuntimeState) {
        RuntimeState::SimpleCopyOut
    }
}

/// Phase index.
#[derive(Debug)]
pub struct SimpleCopyOutDone;

impl Phase for SimpleCopyOutDone {
    open spec fn state() -> RuntimeState {
        RuntimeState::SimpleCopyOutDone
    }

    fn runtime_state() -> (state: RuntimeState) {
        RuntimeState::SimpleCopyOutDone
    }
}

/// Phase index.
#[derive(Debug)]
pub struct SimpleCopyReady;

impl Phase for SimpleCopyReady {
    open spec fn state() -> RuntimeState {
        RuntimeState::SimpleCopyReady
    }

    fn runtime_state() -> (state: RuntimeState) {
        RuntimeState::SimpleCopyReady
    }
}

/// Phase index.
#[derive(Debug)]
pub struct ExtendedCopyIn;

impl Phase for ExtendedCopyIn {
    open spec fn state() -> RuntimeState {
        RuntimeState::ExtendedCopyIn
    }

    fn runtime_state() -> (state: RuntimeState) {
        RuntimeState::ExtendedCopyIn
    }
}

/// Phase index.
#[derive(Debug)]
pub struct ExtendedCopyInDone;

impl Phase for ExtendedCopyInDone {
    open spec fn state() -> RuntimeState {
        RuntimeState::ExtendedCopyInDone
    }

    fn runtime_state() -> (state: RuntimeState) {
        RuntimeState::ExtendedCopyInDone
    }
}

/// Phase index.
#[derive(Debug)]
pub struct ExtendedCopyInFailed;

impl Phase for ExtendedCopyInFailed {
    open spec fn state() -> RuntimeState {
        RuntimeState::ExtendedCopyInFailed
    }

    fn runtime_state() -> (state: RuntimeState) {
        RuntimeState::ExtendedCopyInFailed
    }
}

/// Phase index.
#[derive(Debug)]
pub struct ExtendedCopyOut;

impl Phase for ExtendedCopyOut {
    open spec fn state() -> RuntimeState {
        RuntimeState::ExtendedCopyOut
    }

    fn runtime_state() -> (state: RuntimeState) {
        RuntimeState::ExtendedCopyOut
    }
}

/// Phase index.
#[derive(Debug)]
pub struct ExtendedCopyOutDone;

impl Phase for ExtendedCopyOutDone {
    open spec fn state() -> RuntimeState {
        RuntimeState::ExtendedCopyOutDone
    }

    fn runtime_state() -> (state: RuntimeState) {
        RuntimeState::ExtendedCopyOutDone
    }
}

/// Phase index.
#[derive(Debug)]
pub struct SimpleCopyBoth;

impl Phase for SimpleCopyBoth {
    open spec fn state() -> RuntimeState {
        RuntimeState::SimpleCopyBoth
    }

    fn runtime_state() -> (state: RuntimeState) {
        RuntimeState::SimpleCopyBoth
    }
}

/// Phase index.
#[derive(Debug)]
pub struct SimpleCopyBothClientDone;

impl Phase for SimpleCopyBothClientDone {
    open spec fn state() -> RuntimeState {
        RuntimeState::SimpleCopyBothClientDone
    }

    fn runtime_state() -> (state: RuntimeState) {
        RuntimeState::SimpleCopyBothClientDone
    }
}

/// Phase index.
#[derive(Debug)]
pub struct SimpleCopyBothServerDone;

impl Phase for SimpleCopyBothServerDone {
    open spec fn state() -> RuntimeState {
        RuntimeState::SimpleCopyBothServerDone
    }

    fn runtime_state() -> (state: RuntimeState) {
        RuntimeState::SimpleCopyBothServerDone
    }
}

/// Phase index.
#[derive(Debug)]
pub struct SimpleCopyBothDone;

impl Phase for SimpleCopyBothDone {
    open spec fn state() -> RuntimeState {
        RuntimeState::SimpleCopyBothDone
    }

    fn runtime_state() -> (state: RuntimeState) {
        RuntimeState::SimpleCopyBothDone
    }
}

/// Phase index.
#[derive(Debug)]
pub struct SimpleCopyBothFailed;

impl Phase for SimpleCopyBothFailed {
    open spec fn state() -> RuntimeState {
        RuntimeState::SimpleCopyBothFailed
    }

    fn runtime_state() -> (state: RuntimeState) {
        RuntimeState::SimpleCopyBothFailed
    }
}

/// Phase index.
#[derive(Debug)]
pub struct ExtendedCopyBoth;

impl Phase for ExtendedCopyBoth {
    open spec fn state() -> RuntimeState {
        RuntimeState::ExtendedCopyBoth
    }

    fn runtime_state() -> (state: RuntimeState) {
        RuntimeState::ExtendedCopyBoth
    }
}

/// Phase index.
#[derive(Debug)]
pub struct ExtendedCopyBothClientDone;

impl Phase for ExtendedCopyBothClientDone {
    open spec fn state() -> RuntimeState {
        RuntimeState::ExtendedCopyBothClientDone
    }

    fn runtime_state() -> (state: RuntimeState) {
        RuntimeState::ExtendedCopyBothClientDone
    }
}

/// Phase index.
#[derive(Debug)]
pub struct ExtendedCopyBothServerDone;

impl Phase for ExtendedCopyBothServerDone {
    open spec fn state() -> RuntimeState {
        RuntimeState::ExtendedCopyBothServerDone
    }

    fn runtime_state() -> (state: RuntimeState) {
        RuntimeState::ExtendedCopyBothServerDone
    }
}

/// Phase index.
#[derive(Debug)]
pub struct ExtendedCopyBothDone;

impl Phase for ExtendedCopyBothDone {
    open spec fn state() -> RuntimeState {
        RuntimeState::ExtendedCopyBothDone
    }

    fn runtime_state() -> (state: RuntimeState) {
        RuntimeState::ExtendedCopyBothDone
    }
}

/// Phase index.
#[derive(Debug)]
pub struct ExtendedCopyBothFailed;

impl Phase for ExtendedCopyBothFailed {
    open spec fn state() -> RuntimeState {
        RuntimeState::ExtendedCopyBothFailed
    }

    fn runtime_state() -> (state: RuntimeState) {
        RuntimeState::ExtendedCopyBothFailed
    }
}

/// Phase index.
#[derive(Debug)]
pub struct Terminated;

impl Phase for Terminated {
    open spec fn state() -> RuntimeState {
        RuntimeState::Terminated
    }

    fn runtime_state() -> (state: RuntimeState) {
        RuntimeState::Terminated
    }
}

/// Payload-free witness that a sequence of events follows this grammar. Each
/// phase offers only the events that it allows.
#[derive(Debug)]
pub struct Session<P> {
    _phase: PhantomData<P>,
}

impl<P: Phase> Session<P> {
    /// The runtime phase that this witness stands for.
    pub open spec fn state(self) -> RuntimeState {
        P::state()
    }
}

/// A transport together with the phase and cleanliness that its events led to.
#[derive(Debug)]
pub struct TypedSession<T, P, C> {
    transport: T,
    _index: PhantomData<(P, C)>,
}

impl<T, P, C> TypedSession<T, P, C> {
    /// The transport held.
    pub closed spec fn held(self) -> T {
        self.transport
    }

    /// Starts from a transport that is in phase `P`.
    pub fn with_transport(transport: T) -> (session: Self)
        ensures
            session.held() == transport,
    {
        TypedSession { transport, _index: PhantomData }
    }

    /// Returns the transport when deliberately leaving the typed API.
    pub fn into_transport(self) -> (transport: T)
        ensures
            transport == self.held(),
    {
        self.transport
    }

    /// Changes transport representation without changing either index.
    pub fn map_transport<N, F: FnOnce(T) -> N>(self, map: F) -> (session: TypedSession<N, P, C>)
        requires
            call_requires(map, (self.held(),)),
        ensures
            call_ensures(map, (self.held(),), session.held()),
    {
        TypedSession { transport: map(self.transport), _index: PhantomData }
    }

    fn advanced<N, D>(self) -> (session: TypedSession<T, N, D>)
        ensures
            session.held() == self.held(),
    {
        TypedSession { transport: self.transport, _index: PhantomData }
    }

    fn run<N, D, M, O, E, H: FnOnce(T, M) -> (T, Result<O, E>)>(self, payload: M, handler: H) -> (
        result: Result<(TypedSession<T, N, D>, O), (Self, E)>)
        requires
            call_requires(handler, (self.held(), payload)),
        ensures
            match result {
                Ok((next, out)) => call_ensures(
                    handler,
                    (self.held(), payload),
                    (next.held(), Ok::<O, E>(out)),
                ),
                Err((same, error)) => call_ensures(
                    handler,
                    (self.held(), payload),
                    (same.held(), Err::<O, E>(error)),
                ),
            },
    {
        let (transport, outcome) = handler(self.transport, payload);
        match outcome {
            Ok(out) => Ok((TypedSession { transport, _index: PhantomData }, out)),
            Err(error) => Err((TypedSession { transport, _index: PhantomData }, error)),
        }
    }
}

impl<T, P: Phase, C> TypedSession<T, P, C> {
    /// The runtime phase that this session is in.
    pub open spec fn state(self) -> RuntimeState {
        P::state()
    }
}

/// A message that the local side may send in the phase `P`.
pub struct InternalMessage<P: Phase> {
    message: BackendMessage,
    event: Event,
    _phase: PhantomData<P>,
}

impl<P: Phase> InternalMessage<P> {
    /// The message itself.
    pub closed spec fn wire(self) -> BackendMessage {
        self.message
    }

    #[verifier::type_invariant]
    spec fn legal(&self) -> bool {
        internal_event(P::state(), self.message@) == Some(self.event)
    }

    /// Admits a message that is legal in this phase, and returns any other.
    pub fn try_from(message: BackendMessage) -> (result: Result<Self, BackendMessage>)
        ensures
            match result {
                Ok(admitted) => admitted.wire() == message && internal_event(
                    P::state(),
                    message@,
                ) is Some,
                Err(returned) => returned == message && internal_event(P::state(), message@) is None,
            },
    {
        match project_internal(P::runtime_state(), &message) {
            Some(event) => Ok(InternalMessage { message, event, _phase: PhantomData }),
            None => Err(message),
        }
    }

    /// The event that the message stands for.
    pub fn event(&self) -> (event: Event)
        ensures
            internal_event(P::state(), self.wire()@) == Some(event),
    {
        proof {
            use_type_invariant(self);
        }
        self.event
    }

    /// Borrows the message.
    pub fn as_wire(&self) -> (message: &BackendMessage)
        ensures
            *message == self.wire(),
    {
        &self.message
    }

    /// Returns the message.
    pub fn into_wire(self) -> (message: BackendMessage)
        ensures
            message == self.wire(),
            internal_event(P::state(), message@) is Some,
    {
        proof {
            use_type_invariant(&self);
        }
        self.message
    }
}

pub type ReadyInternalMessage = InternalMessage<Ready>;

pub type SimpleInternalMessage = InternalMessage<Simple>;

pub type SimpleErrorInternalMessage = InternalMessage<SimpleError>;

pub type BuildingInternalMessage = InternalMessage<Building>;

pub type ParseResponseInternalMessage = InternalMessage<ParseResponse>;

pub type BindResponseInternalMessage = InternalMessage<BindResponse>;

pub type DescribeResponseInternalMessage = InternalMessage<DescribeResponse>;

pub type ExecuteResponseInternalMessage = InternalMessage<ExecuteResponse>;

pub type CloseResponseInternalMessage = InternalMessage<CloseResponse>;

pub type ExtendedErrorInternalMessage = InternalMessage<ExtendedError>;

pub type SyncResponseInternalMessage = InternalMessage<SyncResponse>;

pub type FunctionResponseInternalMessage = InternalMessage<FunctionResponse>;

pub type FunctionReadyInternalMessage = InternalMessage<FunctionReady>;

pub type SimpleCopyInInternalMessage = InternalMessage<SimpleCopyIn>;

pub type SimpleCopyInDoneInternalMessage = InternalMessage<SimpleCopyInDone>;

pub type SimpleCopyInFailedInternalMessage = InternalMessage<SimpleCopyInFailed>;

pub type SimpleCopyOutInternalMessage = InternalMessage<SimpleCopyOut>;

pub type SimpleCopyOutDoneInternalMessage = InternalMessage<SimpleCopyOutDone>;

pub type SimpleCopyReadyInternalMessage = InternalMessage<SimpleCopyReady>;

pub type ExtendedCopyInInternalMessage = InternalMessage<ExtendedCopyIn>;

pub type ExtendedCopyInDoneInternalMessage = InternalMessage<ExtendedCopyInDone>;

pub type ExtendedCopyInFailedInternalMessage = InternalMessage<ExtendedCopyInFailed>;

pub type ExtendedCopyOutInternalMessage = InternalMessage<ExtendedCopyOut>;

pub type ExtendedCopyOutDoneInternalMessage = InternalMessage<ExtendedCopyOutDone>;

pub type SimpleCopyBothInternalMessage = InternalMessage<SimpleCopyBoth>;

pub type SimpleCopyBothClientDoneInternalMessage = InternalMessage<SimpleCopyBothClientDone>;

pub type SimpleCopyBothServerDoneInternalMessage = InternalMessage<SimpleCopyBothServerDone>;

pub type SimpleCopyBothDoneInternalMessage = InternalMessage<SimpleCopyBothDone>;

pub type SimpleCopyBothFailedInternalMessage = InternalMessage<SimpleCopyBothFailed>;

pub type ExtendedCopyBothInternalMessage = InternalMessage<ExtendedCopyBoth>;

pub type ExtendedCopyBothClientDoneInternalMessage = InternalMessage<ExtendedCopyBothClientDone>;

pub type ExtendedCopyBothServerDoneInternalMessage = InternalMessage<ExtendedCopyBothServerDone>;

pub type ExtendedCopyBothDoneInternalMessage = InternalMessage<ExtendedCopyBothDone>;

pub type ExtendedCopyBothFailedInternalMessage = InternalMessage<ExtendedCopyBothFailed>;

pub type TerminatedInternalMessage = InternalMessage<Terminated>;

/// A message that the peer may send in the phase `P`.
pub struct ExternalMessage<P: Phase> {
    message: FrontendMessage,
    event: Event,
    _phase: PhantomData<P>,
}

impl<P: Phase> ExternalMessage<P> {
    /// The message itself.
    pub closed spec fn wire(self) -> FrontendMessage {
        self.message
    }

    #[verifier::type_invariant]
    spec fn legal(&self) -> bool {
        external_event(P::state(), self.message@) == Some(self.event)
    }

    /// Admits a message that is legal in this phase, and returns any other.
    pub fn try_from(message: FrontendMessage) -> (result: Result<Self, FrontendMessage>)
        ensures
            match result {
                Ok(admitted) => admitted.wire() == message && external_event(
                    P::state(),
                    message@,
                ) is Some,
                Err(returned) => returned == message && external_event(P::state(), message@) is None,
            },
    {
        match project_external(P::runtime_state(), &message) {
            Some(event) => Ok(ExternalMessage { message, event, _phase: PhantomData }),
            None => Err(message),
        }
    }

    /// The event that the message stands for.
    pub fn event(&self) -> (event: Event)
        ensures
            external_event(P::state(), self.wire()@) == Some(event),
    {
        proof {
            use_type_invariant(self);
        }
        self.event
    }

    /// Borrows the message.
    pub fn as_wire(&self) -> (message: &FrontendMessage)
        ensures
            *message == self.wire(),
    {
        &self.message
    }

    /// Returns the message.
    pub fn into_wire(self) -> (message: FrontendMessage)
        ensures
            message == self.wire(),
            external_event(P::state(), message@) is Some,
    {
        proof {
            use_type_invariant(&self);
        }
        self.message
    }
}

pub type ReadyExternalMessage = ExternalMessage<Ready>;

pub type SimpleExternalMessage = ExternalMessage<Simple>;

pub type SimpleErrorExternalMessage = ExternalMessage<SimpleError>;

pub type BuildingExternalMessage = ExternalMessage<Building>;

pub type ParseResponseExternalMessage = ExternalMessage<ParseResponse>;

pub type BindResponseExternalMessage = ExternalMessage<BindResponse>;

pub type DescribeResponseExternalMessage = ExternalMessage<DescribeResponse>;

pub type ExecuteResponseExternalMessage = ExternalMessage<ExecuteResponse>;

pub type CloseResponseExternalMessage = ExternalMessage<CloseResponse>;

pub type ExtendedErrorExternalMessage = ExternalMessage<ExtendedError>;

pub type SyncResponseExternalMessage = ExternalMessage<SyncResponse>;

pub type FunctionResponseExternalMessage = ExternalMessage<FunctionResponse>;

pub type FunctionReadyExternalMessage = ExternalMessage<FunctionReady>;

pub type SimpleCopyInExternalMessage = ExternalMessage<SimpleCopyIn>;

pub type SimpleCopyInDoneExternalMessage = ExternalMessage<SimpleCopyInDone>;

pub type SimpleCopyInFailedExternalMessage = ExternalMessage<SimpleCopyInFailed>;

pub type SimpleCopyOutExternalMessage = ExternalMessage<SimpleCopyOut>;

pub type SimpleCopyOutDoneExternalMessage = ExternalMessage<SimpleCopyOutDone>;

pub type SimpleCopyReadyExternalMessage = ExternalMessage<SimpleCopyReady>;

pub type ExtendedCopyInExternalMessage = ExternalMessage<ExtendedCopyIn>;

pub type ExtendedCopyInDoneExternalMessage = ExternalMessage<ExtendedCopyInDone>;

pub type ExtendedCopyInFailedExternalMessage = ExternalMessage<ExtendedCopyInFailed>;

pub type ExtendedCopyOutExternalMessage = ExternalMessage<ExtendedCopyOut>;

pub type ExtendedCopyOutDoneExternalMessage = ExternalMessage<ExtendedCopyOutDone>;

pub type SimpleCopyBothExternalMessage = ExternalMessage<SimpleCopyBoth>;

pub type SimpleCopyBothClientDoneExternalMessage = ExternalMessage<SimpleCopyBothClientDone>;

pub type SimpleCopyBothServerDoneExternalMessage = ExternalMessage<SimpleCopyBothServerDone>;

pub type SimpleCopyBothDoneExternalMessage = ExternalMessage<SimpleCopyBothDone>;

pub type SimpleCopyBothFailedExternalMessage = ExternalMessage<SimpleCopyBothFailed>;

pub type ExtendedCopyBothExternalMessage = ExternalMessage<ExtendedCopyBoth>;

pub type ExtendedCopyBothClientDoneExternalMessage = ExternalMessage<ExtendedCopyBothClientDone>;

pub type ExtendedCopyBothServerDoneExternalMessage = ExternalMessage<ExtendedCopyBothServerDone>;

pub type ExtendedCopyBothDoneExternalMessage = ExternalMessage<ExtendedCopyBothDone>;

pub type ExtendedCopyBothFailedExternalMessage = ExternalMessage<ExtendedCopyBothFailed>;

pub type TerminatedExternalMessage = ExternalMessage<Terminated>;

impl Session<Ready> {
    /// A witness of the initial phase.
    pub fn new() -> (session: Self)
        ensures
            session.state() == RuntimeState::Ready,
    {
        Session { _phase: PhantomData }
    }

    pub fn query(self) -> (next: Session<Simple>)
        ensures
            allowed(self.state(), Event::Query) matches Some(transition) && transition.target
                == next.state(),
    {
        Session { _phase: PhantomData }
    }

    pub fn parse(self) -> (next: Session<ParseResponse>)
        ensures
            allowed(self.state(), Event::Parse) matches Some(transition) && transition.target
                == next.state(),
    {
        Session { _phase: PhantomData }
    }

    pub fn bind(self) -> (next: Session<BindResponse>)
        ensures
            allowed(self.state(), Event::Bind) matches Some(transition) && transition.target
                == next.state(),
    {
        Session { _phase: PhantomData }
    }

    pub fn describe(self) -> (next: Session<DescribeResponse>)
        ensures
            allowed(self.state(), Event::Describe) matches Some(transition) && transition.target
                == next.state(),
    {
        Session { _phase: PhantomData }
    }

    pub fn execute(self) -> (next: Session<ExecuteResponse>)
        ensures
            allowed(self.state(), Event::Execute) matches Some(transition) && transition.target
                == next.state(),
    {
        Session { _phase: PhantomData }
    }

    pub fn close(self) -> (next: Session<CloseResponse>)
        ensures
            allowed(self.state(), Event::Close) matches Some(transition) && transition.target
                == next.state(),
    {
        Session { _phase: PhantomData }
    }

    pub fn function_call(self) -> (next: Session<FunctionResponse>)
        ensures
            allowed(self.state(), Event::FunctionCall) matches Some(transition) && transition.target
                == next.state(),
    {
        Session { _phase: PhantomData }
    }

    pub fn terminate(self) -> (next: Session<Terminated>)
        ensures
            allowed(self.state(), Event::Terminate) matches Some(transition) && transition.target
                == next.state(),
    {
        Session { _phase: PhantomData }
    }
}

impl Session<Simple> {
    pub fn continue_response(self) -> (next: Session<Simple>)
        ensures
            allowed(self.state(), Event::Continue) matches Some(transition) && transition.target
                == next.state(),
    {
        Session { _phase: PhantomData }
    }

    pub fn copy_in(self) -> (next: Session<SimpleCopyIn>)
        ensures
            allowed(self.state(), Event::CopyIn) matches Some(transition) && transition.target
                == next.state(),
    {
        Session { _phase: PhantomData }
    }

    pub fn copy_out(self) -> (next: Session<SimpleCopyOut>)
        ensures
            allowed(self.state(), Event::CopyOut) matches Some(transition) && transition.target
                == next.state(),
    {
        Session { _phase: PhantomData }
    }

    pub fn copy_both(self) -> (next: Session<SimpleCopyBoth>)
        ensures
            allowed(self.state(), Event::CopyBoth) matches Some(transition) && transition.target
                == next.state(),
    {
        Session { _phase: PhantomData }
    }

    pub fn ready(self) -> (next: Session<Ready>)
        ensures
            allowed(self.state(), Event::Ready) matches Some(transition) && transition.target
                == next.state(),
    {
        Session { _phase: PhantomData }
    }

    pub fn error(self) -> (next: Session<SimpleError>)
        ensures
            allowed(self.state(), Event::Error) matches Some(transition) && transition.target
                == next.state(),
    {
        Session { _phase: PhantomData }
    }
}

impl Session<SimpleError> {
    pub fn ready(self) -> (next: Session<Ready>)
        ensures
            allowed(self.state(), Event::Ready) matches Some(transition) && transition.target
                == next.state(),
    {
        Session { _phase: PhantomData }
    }
}

impl Session<Building> {
    pub fn parse(self) -> (next: Session<ParseResponse>)
        ensures
            allowed(self.state(), Event::Parse) matches Some(transition) && transition.target
                == next.state(),
    {
        Session { _phase: PhantomData }
    }

    pub fn bind(self) -> (next: Session<BindResponse>)
        ensures
            allowed(self.state(), Event::Bind) matches Some(transition) && transition.target
                == next.state(),
    {
        Session { _phase: PhantomData }
    }

    pub fn describe(self) -> (next: Session<DescribeResponse>)
        ensures
            allowed(self.state(), Event::Describe) matches Some(transition) && transition.target
                == next.state(),
    {
        Session { _phase: PhantomData }
    }

    pub fn execute(self) -> (next: Session<ExecuteResponse>)
        ensures
            allowed(self.state(), Event::Execute) matches Some(transition) && transition.target
                == next.state(),
    {
        Session { _phase: PhantomData }
    }

    pub fn close(self) -> (next: Session<CloseResponse>)
        ensures
            allowed(self.state(), Event::Close) matches Some(transition) && transition.target
                == next.state(),
    {
        Session { _phase: PhantomData }
    }

    pub fn flush(self) -> (next: Session<Building>)
        ensures
            allowed(self.state(), Event::Flush) matches Some(transition) && transition.target
                == next.state(),
    {
        Session { _phase: PhantomData }
    }

    pub fn sync(self) -> (next: Session<SyncResponse>)
        ensures
            allowed(self.state(), Event::Sync) matches Some(transition) && transition.target
                == next.state(),
    {
        Session { _phase: PhantomData }
    }
}

impl Session<ParseResponse> {
    pub fn complete(self) -> (next: Session<Building>)
        ensures
            allowed(self.state(), Event::Complete) matches Some(transition) && transition.target
                == next.state(),
    {
        Session { _phase: PhantomData }
    }

    pub fn error(self) -> (next: Session<ExtendedError>)
        ensures
            allowed(self.state(), Event::Error) matches Some(transition) && transition.target
                == next.state(),
    {
        Session { _phase: PhantomData }
    }
}

impl Session<BindResponse> {
    pub fn complete(self) -> (next: Session<Building>)
        ensures
            allowed(self.state(), Event::Complete) matches Some(transition) && transition.target
                == next.state(),
    {
        Session { _phase: PhantomData }
    }

    pub fn error(self) -> (next: Session<ExtendedError>)
        ensures
            allowed(self.state(), Event::Error) matches Some(transition) && transition.target
                == next.state(),
    {
        Session { _phase: PhantomData }
    }
}

impl Session<DescribeResponse> {
    pub fn parameter_description(self) -> (next: Session<DescribeResponse>)
        ensures
            allowed(self.state(), Event::ParameterDescription) matches Some(transition) && transition.target
                == next.state(),
    {
        Session { _phase: PhantomData }
    }

    pub fn row_description(self) -> (next: Session<Building>)
        ensures
            allowed(self.state(), Event::RowDescription) matches Some(transition) && transition.target
                == next.state(),
    {
        Session { _phase: PhantomData }
    }

    pub fn no_data(self) -> (next: Session<Building>)
        ensures
            allowed(self.state(), Event::NoData) matches Some(transition) && transition.target
                == next.state(),
    {
        Session { _phase: PhantomData }
    }

    pub fn error(self) -> (next: Session<ExtendedError>)
        ensures
            allowed(self.state(), Event::Error) matches Some(transition) && transition.target
                == next.state(),
    {
        Session { _phase: PhantomData }
    }
}

impl Session<ExecuteResponse> {
    pub fn continue_response(self) -> (next: Session<ExecuteResponse>)
        ensures
            allowed(self.state(), Event::Continue) matches Some(transition) && transition.target
                == next.state(),
    {
        Session { _phase: PhantomData }
    }

    pub fn copy_in(self) -> (next: Session<ExtendedCopyIn>)
        ensures
            allowed(self.state(), Event::CopyIn) matches Some(transition) && transition.target
                == next.state(),
    {
        Session { _phase: PhantomData }
    }

    pub fn copy_out(self) -> (next: Session<ExtendedCopyOut>)
        ensures
            allowed(self.state(), Event::CopyOut) matches Some(transition) && transition.target
                == next.state(),
    {
        Session { _phase: PhantomData }
    }

    pub fn copy_both(self) -> (next: Session<ExtendedCopyBoth>)
        ensures
            allowed(self.state(), Event::CopyBoth) matches Some(transition) && transition.target
                == next.state(),
    {
        Session { _phase: PhantomData }
    }

    pub fn command_complete(self) -> (next: Session<Building>)
        ensures
            allowed(self.state(), Event::CommandComplete) matches Some(transition) && transition.target
                == next.state(),
    {
        Session { _phase: PhantomData }
    }

    pub fn portal_suspended(self) -> (next: Session<Building>)
        ensures
            allowed(self.state(), Event::PortalSuspended) matches Some(transition) && transition.target
                == next.state(),
    {
        Session { _phase: PhantomData }
    }

    pub fn error(self) -> (next: Session<ExtendedError>)
        ensures
            allowed(self.state(), Event::Error) matches Some(transition) && transition.target
                == next.state(),
    {
        Session { _phase: PhantomData }
    }
}

impl Session<CloseResponse> {
    pub fn complete(self) -> (next: Session<Building>)
        ensures
            allowed(self.state(), Event::Complete) matches Some(transition) && transition.target
                == next.state(),
    {
        Session { _phase: PhantomData }
    }

    pub fn error(self) -> (next: Session<ExtendedError>)
        ensures
            allowed(self.state(), Event::Error) matches Some(transition) && transition.target
                == next.state(),
    {
        Session { _phase: PhantomData }
    }
}

impl Session<ExtendedError> {
    pub fn discard(self) -> (next: Session<ExtendedError>)
        ensures
            allowed(self.state(), Event::Discard) matches Some(transition) && transition.target
                == next.state(),
    {
        Session { _phase: PhantomData }
    }

    pub fn sync(self) -> (next: Session<SyncResponse>)
        ensures
            allowed(self.state(), Event::Sync) matches Some(transition) && transition.target
                == next.state(),
    {
        Session { _phase: PhantomData }
    }
}

impl Session<SyncResponse> {
    pub fn ready(self) -> (next: Session<Ready>)
        ensures
            allowed(self.state(), Event::Ready) matches Some(transition) && transition.target
                == next.state(),
    {
        Session { _phase: PhantomData }
    }
}

impl Session<FunctionResponse> {
    pub fn result(self) -> (next: Session<FunctionReady>)
        ensures
            allowed(self.state(), Event::FunctionResult) matches Some(transition) && transition.target
                == next.state(),
    {
        Session { _phase: PhantomData }
    }

    pub fn error(self) -> (next: Session<FunctionReady>)
        ensures
            allowed(self.state(), Event::Error) matches Some(transition) && transition.target
                == next.state(),
    {
        Session { _phase: PhantomData }
    }
}

impl Session<FunctionReady> {
    pub fn ready(self) -> (next: Session<Ready>)
        ensures
            allowed(self.state(), Event::Ready) matches Some(transition) && transition.target
                == next.state(),
    {
        Session { _phase: PhantomData }
    }
}

impl Session<SimpleCopyIn> {
    pub fn data(self) -> (next: Session<SimpleCopyIn>)
        ensures
            allowed(self.state(), Event::Data) matches Some(transition) && transition.target
                == next.state(),
    {
        Session { _phase: PhantomData }
    }

    pub fn done(self) -> (next: Session<SimpleCopyInDone>)
        ensures
            allowed(self.state(), Event::Done) matches Some(transition) && transition.target
                == next.state(),
    {
        Session { _phase: PhantomData }
    }

    pub fn fail(self) -> (next: Session<SimpleCopyInFailed>)
        ensures
            allowed(self.state(), Event::Fail) matches Some(transition) && transition.target
                == next.state(),
    {
        Session { _phase: PhantomData }
    }
}

impl Session<SimpleCopyInDone> {
    pub fn command_complete(self) -> (next: Session<SimpleCopyReady>)
        ensures
            allowed(self.state(), Event::CommandComplete) matches Some(transition) && transition.target
                == next.state(),
    {
        Session { _phase: PhantomData }
    }
}

impl Session<SimpleCopyInFailed> {
    pub fn error(self) -> (next: Session<SimpleCopyReady>)
        ensures
            allowed(self.state(), Event::Error) matches Some(transition) && transition.target
                == next.state(),
    {
        Session { _phase: PhantomData }
    }
}

impl Session<SimpleCopyOut> {
    pub fn data(self) -> (next: Session<SimpleCopyOut>)
        ensures
            allowed(self.state(), Event::Data) matches Some(transition) && transition.target
                == next.state(),
    {
        Session { _phase: PhantomData }
    }

    pub fn done(self) -> (next: Session<SimpleCopyOutDone>)
        ensures
            allowed(self.state(), Event::Done) matches Some(transition) && transition.target
                == next.state(),
    {
        Session { _phase: PhantomData }
    }

    pub fn error(self) -> (next: Session<SimpleCopyReady>)
        ensures
            allowed(self.state(), Event::Error) matches Some(transition) && transition.target
                == next.state(),
    {
        Session { _phase: PhantomData }
    }
}

impl Session<SimpleCopyOutDone> {
    pub fn command_complete(self) -> (next: Session<SimpleCopyReady>)
        ensures
            allowed(self.state(), Event::CommandComplete) matches Some(transition) && transition.target
                == next.state(),
    {
        Session { _phase: PhantomData }
    }
}

impl Session<SimpleCopyReady> {
    pub fn ready(self) -> (next: Session<Ready>)
        ensures
            allowed(self.state(), Event::Ready) matches Some(transition) && transition.target
                == next.state(),
    {
        Session { _phase: PhantomData }
    }
}

impl Session<ExtendedCopyIn> {
    pub fn data(self) -> (next: Session<ExtendedCopyIn>)
        ensures
            allowed(self.state(), Event::Data) matches Some(transition) && transition.target
                == next.state(),
    {
        Session { _phase: PhantomData }
    }

    pub fn done(self) -> (next: Session<ExtendedCopyInDone>)
        ensures
            allowed(self.state(), Event::Done) matches Some(transition) && transition.target
                == next.state(),
    {
        Session { _phase: PhantomData }
    }

    pub fn fail(self) -> (next: Session<ExtendedCopyInFailed>)
        ensures
            allowed(self.state(), Event::Fail) matches Some(transition) && transition.target
                == next.state(),
    {
        Session { _phase: PhantomData }
    }
}

impl Session<ExtendedCopyInDone> {
    pub fn command_complete(self) -> (next: Session<Building>)
        ensures
            allowed(self.state(), Event::CommandComplete) matches Some(transition) && transition.target
                == next.state(),
    {
        Session { _phase: PhantomData }
    }

    pub fn error(self) -> (next: Session<ExtendedError>)
        ensures
            allowed(self.state(), Event::Error) matches Some(transition) && transition.target
                == next.state(),
    {
        Session { _phase: PhantomData }
    }
}

impl Session<ExtendedCopyInFailed> {
    pub fn error(self) -> (next: Session<ExtendedError>)
        ensures
            allowed(self.state(), Event::Error) matches Some(transition) && transition.target
                == next.state(),
    {
        Session { _phase: PhantomData }
    }
}

impl Session<ExtendedCopyOut> {
    pub fn data(self) -> (next: Session<ExtendedCopyOut>)
        ensures
            allowed(self.state(), Event::Data) matches Some(transition) && transition.target
                == next.state(),
    {
        Session { _phase: PhantomData }
    }

    pub fn done(self) -> (next: Session<ExtendedCopyOutDone>)
        ensures
            allowed(self.state(), Event::Done) matches Some(transition) && transition.target
                == next.state(),
    {
        Session { _phase: PhantomData }
    }

    pub fn error(self) -> (next: Session<ExtendedError>)
        ensures
            allowed(self.state(), Event::Error) matches Some(transition) && transition.target
                == next.state(),
    {
        Session { _phase: PhantomData }
    }
}

impl Session<ExtendedCopyOutDone> {
    pub fn command_complete(self) -> (next: Session<Building>)
        ensures
            allowed(self.state(), Event::CommandComplete) matches Some(transition) && transition.target
                == next.state(),
    {
        Session { _phase: PhantomData }
    }
}

impl Session<SimpleCopyBoth> {
    pub fn send_data(self) -> (next: Session<SimpleCopyBoth>)
        ensures
            allowed(self.state(), Event::SendData) matches Some(transition) && transition.target
                == next.state(),
    {
        Session { _phase: PhantomData }
    }

    pub fn receive_data(self) -> (next: Session<SimpleCopyBoth>)
        ensures
            allowed(self.state(), Event::ReceiveData) matches Some(transition) && transition.target
                == next.state(),
    {
        Session { _phase: PhantomData }
    }

    pub fn send_done(self) -> (next: Session<SimpleCopyBothServerDone>)
        ensures
            allowed(self.state(), Event::SendDone) matches Some(transition) && transition.target
                == next.state(),
    {
        Session { _phase: PhantomData }
    }

    pub fn receive_done(self) -> (next: Session<SimpleCopyBothClientDone>)
        ensures
            allowed(self.state(), Event::ReceiveDone) matches Some(transition) && transition.target
                == next.state(),
    {
        Session { _phase: PhantomData }
    }

    pub fn fail(self) -> (next: Session<SimpleCopyBothFailed>)
        ensures
            allowed(self.state(), Event::Fail) matches Some(transition) && transition.target
                == next.state(),
    {
        Session { _phase: PhantomData }
    }

    pub fn error(self) -> (next: Session<SimpleCopyReady>)
        ensures
            allowed(self.state(), Event::Error) matches Some(transition) && transition.target
                == next.state(),
    {
        Session { _phase: PhantomData }
    }
}

impl Session<SimpleCopyBothClientDone> {
    pub fn send_data(self) -> (next: Session<SimpleCopyBothClientDone>)
        ensures
            allowed(self.state(), Event::SendData) matches Some(transition) && transition.target
                == next.state(),
    {
        Session { _phase: PhantomData }
    }

    pub fn send_done(self) -> (next: Session<SimpleCopyBothDone>)
        ensures
            allowed(self.state(), Event::SendDone) matches Some(transition) && transition.target
                == next.state(),
    {
        Session { _phase: PhantomData }
    }

    pub fn error(self) -> (next: Session<SimpleCopyReady>)
        ensures
            allowed(self.state(), Event::Error) matches Some(transition) && transition.target
                == next.state(),
    {
        Session { _phase: PhantomData }
    }
}

impl Session<SimpleCopyBothServerDone> {
    pub fn receive_data(self) -> (next: Session<SimpleCopyBothServerDone>)
        ensures
            allowed(self.state(), Event::ReceiveData) matches Some(transition) && transition.target
                == next.state(),
    {
        Session { _phase: PhantomData }
    }

    pub fn receive_done(self) -> (next: Session<SimpleCopyBothDone>)
        ensures
            allowed(self.state(), Event::ReceiveDone) matches Some(transition) && transition.target
                == next.state(),
    {
        Session { _phase: PhantomData }
    }

    pub fn fail(self) -> (next: Session<SimpleCopyBothFailed>)
        ensures
            allowed(self.state(), Event::Fail) matches Some(transition) && transition.target
                == next.state(),
    {
        Session { _phase: PhantomData }
    }
}

impl Session<SimpleCopyBothDone> {
    pub fn command_complete(self) -> (next: Session<SimpleCopyReady>)
        ensures
            allowed(self.state(), Event::CommandComplete) matches Some(transition) && transition.target
                == next.state(),
    {
        Session { _phase: PhantomData }
    }
}

impl Session<SimpleCopyBothFailed> {
    pub fn error(self) -> (next: Session<SimpleCopyReady>)
        ensures
            allowed(self.state(), Event::Error) matches Some(transition) && transition.target
                == next.state(),
    {
        Session { _phase: PhantomData }
    }
}

impl Session<ExtendedCopyBoth> {
    pub fn send_data(self) -> (next: Session<ExtendedCopyBoth>)
        ensures
            allowed(self.state(), Event::SendData) matches Some(transition) && transition.target
                == next.state(),
    {
        Session { _phase: PhantomData }
    }

    pub fn receive_data(self) -> (next: Session<ExtendedCopyBoth>)
        ensures
            allowed(self.state(), Event::ReceiveData) matches Some(transition) && transition.target
                == next.state(),
    {
        Session { _phase: PhantomData }
    }

    pub fn send_done(self) -> (next: Session<ExtendedCopyBothServerDone>)
        ensures
            allowed(self.state(), Event::SendDone) matches Some(transition) && transition.target
                == next.state(),
    {
        Session { _phase: PhantomData }
    }

    pub fn receive_done(self) -> (next: Session<ExtendedCopyBothClientDone>)
        ensures
            allowed(self.state(), Event::ReceiveDone) matches Some(transition) && transition.target
                == next.state(),
    {
        Session { _phase: PhantomData }
    }

    pub fn fail(self) -> (next: Session<ExtendedCopyBothFailed>)
        ensures
            allowed(self.state(), Event::Fail) matches Some(transition) && transition.target
                == next.state(),
    {
        Session { _phase: PhantomData }
    }

    pub fn error(self) -> (next: Session<ExtendedError>)
        ensures
            allowed(self.state(), Event::Error) matches Some(transition) && transition.target
                == next.state(),
    {
        Session { _phase: PhantomData }
    }
}

impl Session<ExtendedCopyBothClientDone> {
    pub fn send_data(self) -> (next: Session<ExtendedCopyBothClientDone>)
        ensures
            allowed(self.state(), Event::SendData) matches Some(transition) && transition.target
                == next.state(),
    {
        Session { _phase: PhantomData }
    }

    pub fn send_done(self) -> (next: Session<ExtendedCopyBothDone>)
        ensures
            allowed(self.state(), Event::SendDone) matches Some(transition) && transition.target
                == next.state(),
    {
        Session { _phase: PhantomData }
    }

    pub fn error(self) -> (next: Session<ExtendedError>)
        ensures
            allowed(self.state(), Event::Error) matches Some(transition) && transition.target
                == next.state(),
    {
        Session { _phase: PhantomData }
    }
}

impl Session<ExtendedCopyBothServerDone> {
    pub fn receive_data(self) -> (next: Session<ExtendedCopyBothServerDone>)
        ensures
            allowed(self.state(), Event::ReceiveData) matches Some(transition) && transition.target
                == next.state(),
    {
        Session { _phase: PhantomData }
    }

    pub fn receive_done(self) -> (next: Session<ExtendedCopyBothDone>)
        ensures
            allowed(self.state(), Event::ReceiveDone) matches Some(transition) && transition.target
                == next.state(),
    {
        Session { _phase: PhantomData }
    }

    pub fn fail(self) -> (next: Session<ExtendedCopyBothFailed>)
        ensures
            allowed(self.state(), Event::Fail) matches Some(transition) && transition.target
                == next.state(),
    {
        Session { _phase: PhantomData }
    }
}

impl Session<ExtendedCopyBothDone> {
    pub fn command_complete(self) -> (next: Session<Building>)
        ensures
            allowed(self.state(), Event::CommandComplete) matches Some(transition) && transition.target
                == next.state(),
    {
        Session { _phase: PhantomData }
    }
}

impl Session<ExtendedCopyBothFailed> {
    pub fn error(self) -> (next: Session<ExtendedError>)
        ensures
            allowed(self.state(), Event::Error) matches Some(transition) && transition.target
                == next.state(),
    {
        Session { _phase: PhantomData }
    }
}

impl<T, C> TypedSession<T, Ready, C> {
    pub fn query<O, E, H: FnOnce(T, Bytes) -> (T, Result<O, E>)>(
        self,
        payload: Bytes,
        handler: H,
    ) -> (result: Result<(TypedSession<T, Simple, Dirty>, O), (Self, E)>)
        requires
            call_requires(handler, (self.held(), payload)),
        ensures
            match result {
                Ok((next, out)) => call_ensures(
                    handler,
                    (self.held(), payload),
                    (next.held(), Ok::<O, E>(out)),
                ) && allowed(self.state(), Event::Query) == to(next.state(), ChoiceKind::External, Effect::Dirty),
                Err((same, error)) => call_ensures(
                    handler,
                    (self.held(), payload),
                    (same.held(), Err::<O, E>(error)),
                ),
            },
    {
        self.run(payload, handler)
    }

    pub fn parse<O, E, H: FnOnce(T, Parse) -> (T, Result<O, E>)>(
        self,
        payload: Parse,
        handler: H,
    ) -> (result: Result<(TypedSession<T, ParseResponse, Dirty>, O), (Self, E)>)
        requires
            call_requires(handler, (self.held(), payload)),
        ensures
            match result {
                Ok((next, out)) => call_ensures(
                    handler,
                    (self.held(), payload),
                    (next.held(), Ok::<O, E>(out)),
                ) && allowed(self.state(), Event::Parse) == to(next.state(), ChoiceKind::External, Effect::Dirty),
                Err((same, error)) => call_ensures(
                    handler,
                    (self.held(), payload),
                    (same.held(), Err::<O, E>(error)),
                ),
            },
    {
        self.run(payload, handler)
    }

    pub fn bind<O, E, H: FnOnce(T, Bind) -> (T, Result<O, E>)>(
        self,
        payload: Bind,
        handler: H,
    ) -> (result: Result<(TypedSession<T, BindResponse, Dirty>, O), (Self, E)>)
        requires
            call_requires(handler, (self.held(), payload)),
        ensures
            match result {
                Ok((next, out)) => call_ensures(
                    handler,
                    (self.held(), payload),
                    (next.held(), Ok::<O, E>(out)),
                ) && allowed(self.state(), Event::Bind) == to(next.state(), ChoiceKind::External, Effect::Dirty),
                Err((same, error)) => call_ensures(
                    handler,
                    (self.held(), payload),
                    (same.held(), Err::<O, E>(error)),
                ),
            },
    {
        self.run(payload, handler)
    }

    pub fn describe<O, E, H: FnOnce(T, Describe) -> (T, Result<O, E>)>(
        self,
        payload: Describe,
        handler: H,
    ) -> (result: Result<(TypedSession<T, DescribeResponse, C>, O), (Self, E)>)
        requires
            call_requires(handler, (self.held(), payload)),
        ensures
            match result {
                Ok((next, out)) => call_ensures(
                    handler,
                    (self.held(), payload),
                    (next.held(), Ok::<O, E>(out)),
                ) && allowed(self.state(), Event::Describe) == to(next.state(), ChoiceKind::External, Effect::Unchanged),
                Err((same, error)) => call_ensures(
                    handler,
                    (self.held(), payload),
                    (same.held(), Err::<O, E>(error)),
                ),
            },
    {
        self.run(payload, handler)
    }

    pub fn execute<O, E, H: FnOnce(T, Execute) -> (T, Result<O, E>)>(
        self,
        payload: Execute,
        handler: H,
    ) -> (result: Result<(TypedSession<T, ExecuteResponse, Dirty>, O), (Self, E)>)
        requires
            call_requires(handler, (self.held(), payload)),
        ensures
            match result {
                Ok((next, out)) => call_ensures(
                    handler,
                    (self.held(), payload),
                    (next.held(), Ok::<O, E>(out)),
                ) && allowed(self.state(), Event::Execute) == to(next.state(), ChoiceKind::External, Effect::Dirty),
                Err((same, error)) => call_ensures(
                    handler,
                    (self.held(), payload),
                    (same.held(), Err::<O, E>(error)),
                ),
            },
    {
        self.run(payload, handler)
    }

    pub fn close<O, E, H: FnOnce(T, Close) -> (T, Result<O, E>)>(
        self,
        payload: Close,
        handler: H,
    ) -> (result: Result<(TypedSession<T, CloseResponse, C>, O), (Self, E)>)
        requires
            call_requires(handler, (self.held(), payload)),
        ensures
            match result {
                Ok((next, out)) => call_ensures(
                    handler,
                    (self.held(), payload),
                    (next.held(), Ok::<O, E>(out)),
                ) && allowed(self.state(), Event::Close) == to(next.state(), ChoiceKind::External, Effect::Unchanged),
                Err((same, error)) => call_ensures(
                    handler,
                    (self.held(), payload),
                    (same.held(), Err::<O, E>(error)),
                ),
            },
    {
        self.run(payload, handler)
    }

    pub fn function_call<O, E, H: FnOnce(T, FunctionCall) -> (T, Result<O, E>)>(
        self,
        payload: FunctionCall,
        handler: H,
    ) -> (result: Result<(TypedSession<T, FunctionResponse, Dirty>, O), (Self, E)>)
        requires
            call_requires(handler, (self.held(), payload)),
        ensures
            match result {
                Ok((next, out)) => call_ensures(
                    handler,
                    (self.held(), payload),
                    (next.held(), Ok::<O, E>(out)),
                ) && allowed(self.state(), Event::FunctionCall) == to(next.state(), ChoiceKind::External, Effect::Dirty),
                Err((same, error)) => call_ensures(
                    handler,
                    (self.held(), payload),
                    (same.held(), Err::<O, E>(error)),
                ),
            },
    {
        self.run(payload, handler)
    }

    pub fn terminate(self) -> (next: TypedSession<T, Terminated, C>)
        ensures
            next.held() == self.held(),
            allowed(self.state(), Event::Terminate) == to(next.state(), ChoiceKind::External, Effect::Unchanged),
    {
        self.advanced()
    }
}

impl<T, C> TypedSession<T, Simple, C> {
    pub fn continue_response<O, E, H: FnOnce(T, BackendMessage) -> (T, Result<O, E>)>(
        self,
        payload: BackendMessage,
        handler: H,
    ) -> (result: Result<(TypedSession<T, Simple, C>, O), (Self, E)>)
        requires
            call_requires(handler, (self.held(), payload)),
        ensures
            match result {
                Ok((next, out)) => call_ensures(
                    handler,
                    (self.held(), payload),
                    (next.held(), Ok::<O, E>(out)),
                ) && allowed(self.state(), Event::Continue) == to(next.state(), ChoiceKind::Internal, Effect::Unchanged),
                Err((same, error)) => call_ensures(
                    handler,
                    (self.held(), payload),
                    (same.held(), Err::<O, E>(error)),
                ),
            },
    {
        self.run(payload, handler)
    }

    pub fn copy_in<O, E, H: FnOnce(T, CopyResponse) -> (T, Result<O, E>)>(
        self,
        payload: CopyResponse,
        handler: H,
    ) -> (result: Result<(TypedSession<T, SimpleCopyIn, C>, O), (Self, E)>)
        requires
            call_requires(handler, (self.held(), payload)),
        ensures
            match result {
                Ok((next, out)) => call_ensures(
                    handler,
                    (self.held(), payload),
                    (next.held(), Ok::<O, E>(out)),
                ) && allowed(self.state(), Event::CopyIn) == to(next.state(), ChoiceKind::Internal, Effect::Unchanged),
                Err((same, error)) => call_ensures(
                    handler,
                    (self.held(), payload),
                    (same.held(), Err::<O, E>(error)),
                ),
            },
    {
        self.run(payload, handler)
    }

    pub fn copy_out<O, E, H: FnOnce(T, CopyResponse) -> (T, Result<O, E>)>(
        self,
        payload: CopyResponse,
        handler: H,
    ) -> (result: Result<(TypedSession<T, SimpleCopyOut, C>, O), (Self, E)>)
        requires
            call_requires(handler, (self.held(), payload)),
        ensures
            match result {
                Ok((next, out)) => call_ensures(
                    handler,
                    (self.held(), payload),
                    (next.held(), Ok::<O, E>(out)),
                ) && allowed(self.state(), Event::CopyOut) == to(next.state(), ChoiceKind::Internal, Effect::Unchanged),
                Err((same, error)) => call_ensures(
                    handler,
                    (self.held(), payload),
                    (same.held(), Err::<O, E>(error)),
                ),
            },
    {
        self.run(payload, handler)
    }

    pub fn copy_both<O, E, H: FnOnce(T, CopyResponse) -> (T, Result<O, E>)>(
        self,
        payload: CopyResponse,
        handler: H,
    ) -> (result: Result<(TypedSession<T, SimpleCopyBoth, C>, O), (Self, E)>)
        requires
            call_requires(handler, (self.held(), payload)),
        ensures
            match result {
                Ok((next, out)) => call_ensures(
                    handler,
                    (self.held(), payload),
                    (next.held(), Ok::<O, E>(out)),
                ) && allowed(self.state(), Event::CopyBoth) == to(next.state(), ChoiceKind::Internal, Effect::Unchanged),
                Err((same, error)) => call_ensures(
                    handler,
                    (self.held(), payload),
                    (same.held(), Err::<O, E>(error)),
                ),
            },
    {
        self.run(payload, handler)
    }

    pub fn ready<O, E, H: FnOnce(T, TransactionStatus) -> (T, Result<O, E>)>(
        self,
        payload: TransactionStatus,
        handler: H,
    ) -> (result: Result<(TypedSession<T, Ready, C>, O), (Self, E)>)
        requires
            call_requires(handler, (self.held(), payload)),
        ensures
            match result {
                Ok((next, out)) => call_ensures(
                    handler,
                    (self.held(), payload),
                    (next.held(), Ok::<O, E>(out)),
                ) && allowed(self.state(), Event::Ready) == to(next.state(), ChoiceKind::Internal, Effect::Unchanged),
                Err((same, error)) => call_ensures(
                    handler,
                    (self.held(), payload),
                    (same.held(), Err::<O, E>(error)),
                ),
            },
    {
        self.run(payload, handler)
    }

    pub fn error<O, E, H: FnOnce(T, DiagnosticResponse) -> (T, Result<O, E>)>(
        self,
        payload: DiagnosticResponse,
        handler: H,
    ) -> (result: Result<(TypedSession<T, SimpleError, C>, O), (Self, E)>)
        requires
            call_requires(handler, (self.held(), payload)),
        ensures
            match result {
                Ok((next, out)) => call_ensures(
                    handler,
                    (self.held(), payload),
                    (next.held(), Ok::<O, E>(out)),
                ) && allowed(self.state(), Event::Error) == to(next.state(), ChoiceKind::Internal, Effect::Unchanged),
                Err((same, error)) => call_ensures(
                    handler,
                    (self.held(), payload),
                    (same.held(), Err::<O, E>(error)),
                ),
            },
    {
        self.run(payload, handler)
    }
}

impl<T, C> TypedSession<T, SimpleError, C> {
    pub fn ready<O, E, H: FnOnce(T, TransactionStatus) -> (T, Result<O, E>)>(
        self,
        payload: TransactionStatus,
        handler: H,
    ) -> (result: Result<(TypedSession<T, Ready, C>, O), (Self, E)>)
        requires
            call_requires(handler, (self.held(), payload)),
        ensures
            match result {
                Ok((next, out)) => call_ensures(
                    handler,
                    (self.held(), payload),
                    (next.held(), Ok::<O, E>(out)),
                ) && allowed(self.state(), Event::Ready) == to(next.state(), ChoiceKind::Internal, Effect::Unchanged),
                Err((same, error)) => call_ensures(
                    handler,
                    (self.held(), payload),
                    (same.held(), Err::<O, E>(error)),
                ),
            },
    {
        self.run(payload, handler)
    }
}

impl<T, C> TypedSession<T, Building, C> {
    pub fn parse<O, E, H: FnOnce(T, Parse) -> (T, Result<O, E>)>(
        self,
        payload: Parse,
        handler: H,
    ) -> (result: Result<(TypedSession<T, ParseResponse, Dirty>, O), (Self, E)>)
        requires
            call_requires(handler, (self.held(), payload)),
        ensures
            match result {
                Ok((next, out)) => call_ensures(
                    handler,
                    (self.held(), payload),
                    (next.held(), Ok::<O, E>(out)),
                ) && allowed(self.state(), Event::Parse) == to(next.state(), ChoiceKind::External, Effect::Dirty),
                Err((same, error)) => call_ensures(
                    handler,
                    (self.held(), payload),
                    (same.held(), Err::<O, E>(error)),
                ),
            },
    {
        self.run(payload, handler)
    }

    pub fn bind<O, E, H: FnOnce(T, Bind) -> (T, Result<O, E>)>(
        self,
        payload: Bind,
        handler: H,
    ) -> (result: Result<(TypedSession<T, BindResponse, Dirty>, O), (Self, E)>)
        requires
            call_requires(handler, (self.held(), payload)),
        ensures
            match result {
                Ok((next, out)) => call_ensures(
                    handler,
                    (self.held(), payload),
                    (next.held(), Ok::<O, E>(out)),
                ) && allowed(self.state(), Event::Bind) == to(next.state(), ChoiceKind::External, Effect::Dirty),
                Err((same, error)) => call_ensures(
                    handler,
                    (self.held(), payload),
                    (same.held(), Err::<O, E>(error)),
                ),
            },
    {
        self.run(payload, handler)
    }

    pub fn describe<O, E, H: FnOnce(T, Describe) -> (T, Result<O, E>)>(
        self,
        payload: Describe,
        handler: H,
    ) -> (result: Result<(TypedSession<T, DescribeResponse, C>, O), (Self, E)>)
        requires
            call_requires(handler, (self.held(), payload)),
        ensures
            match result {
                Ok((next, out)) => call_ensures(
                    handler,
                    (self.held(), payload),
                    (next.held(), Ok::<O, E>(out)),
                ) && allowed(self.state(), Event::Describe) == to(next.state(), ChoiceKind::External, Effect::Unchanged),
                Err((same, error)) => call_ensures(
                    handler,
                    (self.held(), payload),
                    (same.held(), Err::<O, E>(error)),
                ),
            },
    {
        self.run(payload, handler)
    }

    pub fn execute<O, E, H: FnOnce(T, Execute) -> (T, Result<O, E>)>(
        self,
        payload: Execute,
        handler: H,
    ) -> (result: Result<(TypedSession<T, ExecuteResponse, Dirty>, O), (Self, E)>)
        requires
            call_requires(handler, (self.held(), payload)),
        ensures
            match result {
                Ok((next, out)) => call_ensures(
                    handler,
                    (self.held(), payload),
                    (next.held(), Ok::<O, E>(out)),
                ) && allowed(self.state(), Event::Execute) == to(next.state(), ChoiceKind::External, Effect::Dirty),
                Err((same, error)) => call_ensures(
                    handler,
                    (self.held(), payload),
                    (same.held(), Err::<O, E>(error)),
                ),
            },
    {
        self.run(payload, handler)
    }

    pub fn close<O, E, H: FnOnce(T, Close) -> (T, Result<O, E>)>(
        self,
        payload: Close,
        handler: H,
    ) -> (result: Result<(TypedSession<T, CloseResponse, C>, O), (Self, E)>)
        requires
            call_requires(handler, (self.held(), payload)),
        ensures
            match result {
                Ok((next, out)) => call_ensures(
                    handler,
                    (self.held(), payload),
                    (next.held(), Ok::<O, E>(out)),
                ) && allowed(self.state(), Event::Close) == to(next.state(), ChoiceKind::External, Effect::Unchanged),
                Err((same, error)) => call_ensures(
                    handler,
                    (self.held(), payload),
                    (same.held(), Err::<O, E>(error)),
                ),
            },
    {
        self.run(payload, handler)
    }

    pub fn flush(self) -> (next: TypedSession<T, Building, C>)
        ensures
            next.held() == self.held(),
            allowed(self.state(), Event::Flush) == to(next.state(), ChoiceKind::External, Effect::Unchanged),
    {
        self.advanced()
    }

    pub fn sync(self) -> (next: TypedSession<T, SyncResponse, C>)
        ensures
            next.held() == self.held(),
            allowed(self.state(), Event::Sync) == to(next.state(), ChoiceKind::External, Effect::Unchanged),
    {
        self.advanced()
    }
}

impl<T, C> TypedSession<T, ParseResponse, C> {
    pub fn complete(self) -> (next: TypedSession<T, Building, C>)
        ensures
            next.held() == self.held(),
            allowed(self.state(), Event::Complete) == to(next.state(), ChoiceKind::Internal, Effect::Unchanged),
    {
        self.advanced()
    }

    pub fn error<O, E, H: FnOnce(T, DiagnosticResponse) -> (T, Result<O, E>)>(
        self,
        payload: DiagnosticResponse,
        handler: H,
    ) -> (result: Result<(TypedSession<T, ExtendedError, C>, O), (Self, E)>)
        requires
            call_requires(handler, (self.held(), payload)),
        ensures
            match result {
                Ok((next, out)) => call_ensures(
                    handler,
                    (self.held(), payload),
                    (next.held(), Ok::<O, E>(out)),
                ) && allowed(self.state(), Event::Error) == to(next.state(), ChoiceKind::Internal, Effect::Unchanged),
                Err((same, error)) => call_ensures(
                    handler,
                    (self.held(), payload),
                    (same.held(), Err::<O, E>(error)),
                ),
            },
    {
        self.run(payload, handler)
    }
}

impl<T, C> TypedSession<T, BindResponse, C> {
    pub fn complete(self) -> (next: TypedSession<T, Building, C>)
        ensures
            next.held() == self.held(),
            allowed(self.state(), Event::Complete) == to(next.state(), ChoiceKind::Internal, Effect::Unchanged),
    {
        self.advanced()
    }

    pub fn error<O, E, H: FnOnce(T, DiagnosticResponse) -> (T, Result<O, E>)>(
        self,
        payload: DiagnosticResponse,
        handler: H,
    ) -> (result: Result<(TypedSession<T, ExtendedError, C>, O), (Self, E)>)
        requires
            call_requires(handler, (self.held(), payload)),
        ensures
            match result {
                Ok((next, out)) => call_ensures(
                    handler,
                    (self.held(), payload),
                    (next.held(), Ok::<O, E>(out)),
                ) && allowed(self.state(), Event::Error) == to(next.state(), ChoiceKind::Internal, Effect::Unchanged),
                Err((same, error)) => call_ensures(
                    handler,
                    (self.held(), payload),
                    (same.held(), Err::<O, E>(error)),
                ),
            },
    {
        self.run(payload, handler)
    }
}

impl<T, C> TypedSession<T, DescribeResponse, C> {
    pub fn parameter_description<O, E, H: FnOnce(T, Vec<u32>) -> (T, Result<O, E>)>(
        self,
        payload: Vec<u32>,
        handler: H,
    ) -> (result: Result<(TypedSession<T, DescribeResponse, C>, O), (Self, E)>)
        requires
            call_requires(handler, (self.held(), payload)),
        ensures
            match result {
                Ok((next, out)) => call_ensures(
                    handler,
                    (self.held(), payload),
                    (next.held(), Ok::<O, E>(out)),
                ) && allowed(self.state(), Event::ParameterDescription) == to(next.state(), ChoiceKind::Internal, Effect::Unchanged),
                Err((same, error)) => call_ensures(
                    handler,
                    (self.held(), payload),
                    (same.held(), Err::<O, E>(error)),
                ),
            },
    {
        self.run(payload, handler)
    }

    pub fn row_description<O, E, H: FnOnce(T, RowDescription) -> (T, Result<O, E>)>(
        self,
        payload: RowDescription,
        handler: H,
    ) -> (result: Result<(TypedSession<T, Building, C>, O), (Self, E)>)
        requires
            call_requires(handler, (self.held(), payload)),
        ensures
            match result {
                Ok((next, out)) => call_ensures(
                    handler,
                    (self.held(), payload),
                    (next.held(), Ok::<O, E>(out)),
                ) && allowed(self.state(), Event::RowDescription) == to(next.state(), ChoiceKind::Internal, Effect::Unchanged),
                Err((same, error)) => call_ensures(
                    handler,
                    (self.held(), payload),
                    (same.held(), Err::<O, E>(error)),
                ),
            },
    {
        self.run(payload, handler)
    }

    pub fn no_data(self) -> (next: TypedSession<T, Building, C>)
        ensures
            next.held() == self.held(),
            allowed(self.state(), Event::NoData) == to(next.state(), ChoiceKind::Internal, Effect::Unchanged),
    {
        self.advanced()
    }

    pub fn error<O, E, H: FnOnce(T, DiagnosticResponse) -> (T, Result<O, E>)>(
        self,
        payload: DiagnosticResponse,
        handler: H,
    ) -> (result: Result<(TypedSession<T, ExtendedError, C>, O), (Self, E)>)
        requires
            call_requires(handler, (self.held(), payload)),
        ensures
            match result {
                Ok((next, out)) => call_ensures(
                    handler,
                    (self.held(), payload),
                    (next.held(), Ok::<O, E>(out)),
                ) && allowed(self.state(), Event::Error) == to(next.state(), ChoiceKind::Internal, Effect::Unchanged),
                Err((same, error)) => call_ensures(
                    handler,
                    (self.held(), payload),
                    (same.held(), Err::<O, E>(error)),
                ),
            },
    {
        self.run(payload, handler)
    }
}

impl<T, C> TypedSession<T, ExecuteResponse, C> {
    pub fn continue_response<O, E, H: FnOnce(T, BackendMessage) -> (T, Result<O, E>)>(
        self,
        payload: BackendMessage,
        handler: H,
    ) -> (result: Result<(TypedSession<T, ExecuteResponse, C>, O), (Self, E)>)
        requires
            call_requires(handler, (self.held(), payload)),
        ensures
            match result {
                Ok((next, out)) => call_ensures(
                    handler,
                    (self.held(), payload),
                    (next.held(), Ok::<O, E>(out)),
                ) && allowed(self.state(), Event::Continue) == to(next.state(), ChoiceKind::Internal, Effect::Unchanged),
                Err((same, error)) => call_ensures(
                    handler,
                    (self.held(), payload),
                    (same.held(), Err::<O, E>(error)),
                ),
            },
    {
        self.run(payload, handler)
    }

    pub fn copy_in<O, E, H: FnOnce(T, CopyResponse) -> (T, Result<O, E>)>(
        self,
        payload: CopyResponse,
        handler: H,
    ) -> (result: Result<(TypedSession<T, ExtendedCopyIn, C>, O), (Self, E)>)
        requires
            call_requires(handler, (self.held(), payload)),
        ensures
            match result {
                Ok((next, out)) => call_ensures(
                    handler,
                    (self.held(), payload),
                    (next.held(), Ok::<O, E>(out)),
                ) && allowed(self.state(), Event::CopyIn) == to(next.state(), ChoiceKind::Internal, Effect::Unchanged),
                Err((same, error)) => call_ensures(
                    handler,
                    (self.held(), payload),
                    (same.held(), Err::<O, E>(error)),
                ),
            },
    {
        self.run(payload, handler)
    }

    pub fn copy_out<O, E, H: FnOnce(T, CopyResponse) -> (T, Result<O, E>)>(
        self,
        payload: CopyResponse,
        handler: H,
    ) -> (result: Result<(TypedSession<T, ExtendedCopyOut, C>, O), (Self, E)>)
        requires
            call_requires(handler, (self.held(), payload)),
        ensures
            match result {
                Ok((next, out)) => call_ensures(
                    handler,
                    (self.held(), payload),
                    (next.held(), Ok::<O, E>(out)),
                ) && allowed(self.state(), Event::CopyOut) == to(next.state(), ChoiceKind::Internal, Effect::Unchanged),
                Err((same, error)) => call_ensures(
                    handler,
                    (self.held(), payload),
                    (same.held(), Err::<O, E>(error)),
                ),
            },
    {
        self.run(payload, handler)
    }

    pub fn copy_both<O, E, H: FnOnce(T, CopyResponse) -> (T, Result<O, E>)>(
        self,
        payload: CopyResponse,
        handler: H,
    ) -> (result: Result<(TypedSession<T, ExtendedCopyBoth, C>, O), (Self, E)>)
        requires
            call_requires(handler, (self.held(), payload)),
        ensures
            match result {
                Ok((next, out)) => call_ensures(
                    handler,
                    (self.held(), payload),
                    (next.held(), Ok::<O, E>(out)),
                ) && allowed(self.state(), Event::CopyBoth) == to(next.state(), ChoiceKind::Internal, Effect::Unchanged),
                Err((same, error)) => call_ensures(
                    handler,
                    (self.held(), payload),
                    (same.held(), Err::<O, E>(error)),
                ),
            },
    {
        self.run(payload, handler)
    }

    pub fn command_complete<O, E, H: FnOnce(T, Bytes) -> (T, Result<O, E>)>(
        self,
        payload: Bytes,
        handler: H,
    ) -> (result: Result<(TypedSession<T, Building, C>, O), (Self, E)>)
        requires
            call_requires(handler, (self.held(), payload)),
        ensures
            match result {
                Ok((next, out)) => call_ensures(
                    handler,
                    (self.held(), payload),
                    (next.held(), Ok::<O, E>(out)),
                ) && allowed(self.state(), Event::CommandComplete) == to(next.state(), ChoiceKind::Internal, Effect::Unchanged),
                Err((same, error)) => call_ensures(
                    handler,
                    (self.held(), payload),
                    (same.held(), Err::<O, E>(error)),
                ),
            },
    {
        self.run(payload, handler)
    }

    pub fn portal_suspended(self) -> (next: TypedSession<T, Building, C>)
        ensures
            next.held() == self.held(),
            allowed(self.state(), Event::PortalSuspended) == to(next.state(), ChoiceKind::Internal, Effect::Unchanged),
    {
        self.advanced()
    }

    pub fn error<O, E, H: FnOnce(T, DiagnosticResponse) -> (T, Result<O, E>)>(
        self,
        payload: DiagnosticResponse,
        handler: H,
    ) -> (result: Result<(TypedSession<T, ExtendedError, C>, O), (Self, E)>)
        requires
            call_requires(handler, (self.held(), payload)),
        ensures
            match result {
                Ok((next, out)) => call_ensures(
                    handler,
                    (self.held(), payload),
                    (next.held(), Ok::<O, E>(out)),
                ) && allowed(self.state(), Event::Error) == to(next.state(), ChoiceKind::Internal, Effect::Unchanged),
                Err((same, error)) => call_ensures(
                    handler,
                    (self.held(), payload),
                    (same.held(), Err::<O, E>(error)),
                ),
            },
    {
        self.run(payload, handler)
    }
}

impl<T, C> TypedSession<T, CloseResponse, C> {
    pub fn complete(self) -> (next: TypedSession<T, Building, C>)
        ensures
            next.held() == self.held(),
            allowed(self.state(), Event::Complete) == to(next.state(), ChoiceKind::Internal, Effect::Unchanged),
    {
        self.advanced()
    }

    pub fn error<O, E, H: FnOnce(T, DiagnosticResponse) -> (T, Result<O, E>)>(
        self,
        payload: DiagnosticResponse,
        handler: H,
    ) -> (result: Result<(TypedSession<T, ExtendedError, C>, O), (Self, E)>)
        requires
            call_requires(handler, (self.held(), payload)),
        ensures
            match result {
                Ok((next, out)) => call_ensures(
                    handler,
                    (self.held(), payload),
                    (next.held(), Ok::<O, E>(out)),
                ) && allowed(self.state(), Event::Error) == to(next.state(), ChoiceKind::Internal, Effect::Unchanged),
                Err((same, error)) => call_ensures(
                    handler,
                    (self.held(), payload),
                    (same.held(), Err::<O, E>(error)),
                ),
            },
    {
        self.run(payload, handler)
    }
}

impl<T, C> TypedSession<T, ExtendedError, C> {
    pub fn discard(self) -> (next: TypedSession<T, ExtendedError, C>)
        ensures
            next.held() == self.held(),
            allowed(self.state(), Event::Discard) == to(next.state(), ChoiceKind::External, Effect::Unchanged),
    {
        self.advanced()
    }

    pub fn sync(self) -> (next: TypedSession<T, SyncResponse, C>)
        ensures
            next.held() == self.held(),
            allowed(self.state(), Event::Sync) == to(next.state(), ChoiceKind::External, Effect::Unchanged),
    {
        self.advanced()
    }
}

impl<T, C> TypedSession<T, SyncResponse, C> {
    pub fn ready<O, E, H: FnOnce(T, TransactionStatus) -> (T, Result<O, E>)>(
        self,
        payload: TransactionStatus,
        handler: H,
    ) -> (result: Result<(TypedSession<T, Ready, C>, O), (Self, E)>)
        requires
            call_requires(handler, (self.held(), payload)),
        ensures
            match result {
                Ok((next, out)) => call_ensures(
                    handler,
                    (self.held(), payload),
                    (next.held(), Ok::<O, E>(out)),
                ) && allowed(self.state(), Event::Ready) == to(next.state(), ChoiceKind::Internal, Effect::Unchanged),
                Err((same, error)) => call_ensures(
                    handler,
                    (self.held(), payload),
                    (same.held(), Err::<O, E>(error)),
                ),
            },
    {
        self.run(payload, handler)
    }
}

impl<T, C> TypedSession<T, FunctionResponse, C> {
    pub fn result<O, E, H: FnOnce(T, Bytes) -> (T, Result<O, E>)>(
        self,
        payload: Bytes,
        handler: H,
    ) -> (result: Result<(TypedSession<T, FunctionReady, C>, O), (Self, E)>)
        requires
            call_requires(handler, (self.held(), payload)),
        ensures
            match result {
                Ok((next, out)) => call_ensures(
                    handler,
                    (self.held(), payload),
                    (next.held(), Ok::<O, E>(out)),
                ) && allowed(self.state(), Event::FunctionResult) == to(next.state(), ChoiceKind::Internal, Effect::Unchanged),
                Err((same, error)) => call_ensures(
                    handler,
                    (self.held(), payload),
                    (same.held(), Err::<O, E>(error)),
                ),
            },
    {
        self.run(payload, handler)
    }

    pub fn error<O, E, H: FnOnce(T, DiagnosticResponse) -> (T, Result<O, E>)>(
        self,
        payload: DiagnosticResponse,
        handler: H,
    ) -> (result: Result<(TypedSession<T, FunctionReady, C>, O), (Self, E)>)
        requires
            call_requires(handler, (self.held(), payload)),
        ensures
            match result {
                Ok((next, out)) => call_ensures(
                    handler,
                    (self.held(), payload),
                    (next.held(), Ok::<O, E>(out)),
                ) && allowed(self.state(), Event::Error) == to(next.state(), ChoiceKind::Internal, Effect::Unchanged),
                Err((same, error)) => call_ensures(
                    handler,
                    (self.held(), payload),
                    (same.held(), Err::<O, E>(error)),
                ),
            },
    {
        self.run(payload, handler)
    }
}

impl<T, C> TypedSession<T, FunctionReady, C> {
    pub fn ready<O, E, H: FnOnce(T, TransactionStatus) -> (T, Result<O, E>)>(
        self,
        payload: TransactionStatus,
        handler: H,
    ) -> (result: Result<(TypedSession<T, Ready, C>, O), (Self, E)>)
        requires
            call_requires(handler, (self.held(), payload)),
        ensures
            match result {
                Ok((next, out)) => call_ensures(
                    handler,
                    (self.held(), payload),
                    (next.held(), Ok::<O, E>(out)),
                ) && allowed(self.state(), Event::Ready) == to(next.state(), ChoiceKind::Internal, Effect::Unchanged),
                Err((same, error)) => call_ensures(
                    handler,
                    (self.held(), payload),
                    (same.held(), Err::<O, E>(error)),
                ),
            },
    {
        self.run(payload, handler)
    }
}

impl<T, C> TypedSession<T, SimpleCopyIn, C> {
    pub fn data<O, E, H: FnOnce(T, Bytes) -> (T, Result<O, E>)>(
        self,
        payload: Bytes,
        handler: H,
    ) -> (result: Result<(TypedSession<T, SimpleCopyIn, C>, O), (Self, E)>)
        requires
            call_requires(handler, (self.held(), payload)),
        ensures
            match result {
                Ok((next, out)) => call_ensures(
                    handler,
                    (self.held(), payload),
                    (next.held(), Ok::<O, E>(out)),
                ) && allowed(self.state(), Event::Data) == to(next.state(), ChoiceKind::External, Effect::Unchanged),
                Err((same, error)) => call_ensures(
                    handler,
                    (self.held(), payload),
                    (same.held(), Err::<O, E>(error)),
                ),
            },
    {
        self.run(payload, handler)
    }

    pub fn done(self) -> (next: TypedSession<T, SimpleCopyInDone, C>)
        ensures
            next.held() == self.held(),
            allowed(self.state(), Event::Done) == to(next.state(), ChoiceKind::External, Effect::Unchanged),
    {
        self.advanced()
    }

    pub fn fail<O, E, H: FnOnce(T, Bytes) -> (T, Result<O, E>)>(
        self,
        payload: Bytes,
        handler: H,
    ) -> (result: Result<(TypedSession<T, SimpleCopyInFailed, C>, O), (Self, E)>)
        requires
            call_requires(handler, (self.held(), payload)),
        ensures
            match result {
                Ok((next, out)) => call_ensures(
                    handler,
                    (self.held(), payload),
                    (next.held(), Ok::<O, E>(out)),
                ) && allowed(self.state(), Event::Fail) == to(next.state(), ChoiceKind::External, Effect::Unchanged),
                Err((same, error)) => call_ensures(
                    handler,
                    (self.held(), payload),
                    (same.held(), Err::<O, E>(error)),
                ),
            },
    {
        self.run(payload, handler)
    }
}

impl<T, C> TypedSession<T, SimpleCopyInDone, C> {
    pub fn command_complete<O, E, H: FnOnce(T, Bytes) -> (T, Result<O, E>)>(
        self,
        payload: Bytes,
        handler: H,
    ) -> (result: Result<(TypedSession<T, SimpleCopyReady, C>, O), (Self, E)>)
        requires
            call_requires(handler, (self.held(), payload)),
        ensures
            match result {
                Ok((next, out)) => call_ensures(
                    handler,
                    (self.held(), payload),
                    (next.held(), Ok::<O, E>(out)),
                ) && allowed(self.state(), Event::CommandComplete) == to(next.state(), ChoiceKind::Internal, Effect::Unchanged),
                Err((same, error)) => call_ensures(
                    handler,
                    (self.held(), payload),
                    (same.held(), Err::<O, E>(error)),
                ),
            },
    {
        self.run(payload, handler)
    }
}

impl<T, C> TypedSession<T, SimpleCopyInFailed, C> {
    pub fn error<O, E, H: FnOnce(T, DiagnosticResponse) -> (T, Result<O, E>)>(
        self,
        payload: DiagnosticResponse,
        handler: H,
    ) -> (result: Result<(TypedSession<T, SimpleCopyReady, C>, O), (Self, E)>)
        requires
            call_requires(handler, (self.held(), payload)),
        ensures
            match result {
                Ok((next, out)) => call_ensures(
                    handler,
                    (self.held(), payload),
                    (next.held(), Ok::<O, E>(out)),
                ) && allowed(self.state(), Event::Error) == to(next.state(), ChoiceKind::Internal, Effect::Unchanged),
                Err((same, error)) => call_ensures(
                    handler,
                    (self.held(), payload),
                    (same.held(), Err::<O, E>(error)),
                ),
            },
    {
        self.run(payload, handler)
    }
}

impl<T, C> TypedSession<T, SimpleCopyOut, C> {
    pub fn data<O, E, H: FnOnce(T, Bytes) -> (T, Result<O, E>)>(
        self,
        payload: Bytes,
        handler: H,
    ) -> (result: Result<(TypedSession<T, SimpleCopyOut, C>, O), (Self, E)>)
        requires
            call_requires(handler, (self.held(), payload)),
        ensures
            match result {
                Ok((next, out)) => call_ensures(
                    handler,
                    (self.held(), payload),
                    (next.held(), Ok::<O, E>(out)),
                ) && allowed(self.state(), Event::Data) == to(next.state(), ChoiceKind::Internal, Effect::Unchanged),
                Err((same, error)) => call_ensures(
                    handler,
                    (self.held(), payload),
                    (same.held(), Err::<O, E>(error)),
                ),
            },
    {
        self.run(payload, handler)
    }

    pub fn done(self) -> (next: TypedSession<T, SimpleCopyOutDone, C>)
        ensures
            next.held() == self.held(),
            allowed(self.state(), Event::Done) == to(next.state(), ChoiceKind::Internal, Effect::Unchanged),
    {
        self.advanced()
    }

    pub fn error<O, E, H: FnOnce(T, DiagnosticResponse) -> (T, Result<O, E>)>(
        self,
        payload: DiagnosticResponse,
        handler: H,
    ) -> (result: Result<(TypedSession<T, SimpleCopyReady, C>, O), (Self, E)>)
        requires
            call_requires(handler, (self.held(), payload)),
        ensures
            match result {
                Ok((next, out)) => call_ensures(
                    handler,
                    (self.held(), payload),
                    (next.held(), Ok::<O, E>(out)),
                ) && allowed(self.state(), Event::Error) == to(next.state(), ChoiceKind::Internal, Effect::Unchanged),
                Err((same, error)) => call_ensures(
                    handler,
                    (self.held(), payload),
                    (same.held(), Err::<O, E>(error)),
                ),
            },
    {
        self.run(payload, handler)
    }
}

impl<T, C> TypedSession<T, SimpleCopyOutDone, C> {
    pub fn command_complete<O, E, H: FnOnce(T, Bytes) -> (T, Result<O, E>)>(
        self,
        payload: Bytes,
        handler: H,
    ) -> (result: Result<(TypedSession<T, SimpleCopyReady, C>, O), (Self, E)>)
        requires
            call_requires(handler, (self.held(), payload)),
        ensures
            match result {
                Ok((next, out)) => call_ensures(
                    handler,
                    (self.held(), payload),
                    (next.held(), Ok::<O, E>(out)),
                ) && allowed(self.state(), Event::CommandComplete) == to(next.state(), ChoiceKind::Internal, Effect::Unchanged),
                Err((same, error)) => call_ensures(
                    handler,
                    (self.held(), payload),
                    (same.held(), Err::<O, E>(error)),
                ),
            },
    {
        self.run(payload, handler)
    }
}

impl<T, C> TypedSession<T, SimpleCopyReady, C> {
    pub fn ready<O, E, H: FnOnce(T, TransactionStatus) -> (T, Result<O, E>)>(
        self,
        payload: TransactionStatus,
        handler: H,
    ) -> (result: Result<(TypedSession<T, Ready, C>, O), (Self, E)>)
        requires
            call_requires(handler, (self.held(), payload)),
        ensures
            match result {
                Ok((next, out)) => call_ensures(
                    handler,
                    (self.held(), payload),
                    (next.held(), Ok::<O, E>(out)),
                ) && allowed(self.state(), Event::Ready) == to(next.state(), ChoiceKind::Internal, Effect::Unchanged),
                Err((same, error)) => call_ensures(
                    handler,
                    (self.held(), payload),
                    (same.held(), Err::<O, E>(error)),
                ),
            },
    {
        self.run(payload, handler)
    }
}

impl<T, C> TypedSession<T, ExtendedCopyIn, C> {
    pub fn data<O, E, H: FnOnce(T, Bytes) -> (T, Result<O, E>)>(
        self,
        payload: Bytes,
        handler: H,
    ) -> (result: Result<(TypedSession<T, ExtendedCopyIn, C>, O), (Self, E)>)
        requires
            call_requires(handler, (self.held(), payload)),
        ensures
            match result {
                Ok((next, out)) => call_ensures(
                    handler,
                    (self.held(), payload),
                    (next.held(), Ok::<O, E>(out)),
                ) && allowed(self.state(), Event::Data) == to(next.state(), ChoiceKind::External, Effect::Unchanged),
                Err((same, error)) => call_ensures(
                    handler,
                    (self.held(), payload),
                    (same.held(), Err::<O, E>(error)),
                ),
            },
    {
        self.run(payload, handler)
    }

    pub fn done(self) -> (next: TypedSession<T, ExtendedCopyInDone, C>)
        ensures
            next.held() == self.held(),
            allowed(self.state(), Event::Done) == to(next.state(), ChoiceKind::External, Effect::Unchanged),
    {
        self.advanced()
    }

    pub fn fail<O, E, H: FnOnce(T, Bytes) -> (T, Result<O, E>)>(
        self,
        payload: Bytes,
        handler: H,
    ) -> (result: Result<(TypedSession<T, ExtendedCopyInFailed, C>, O), (Self, E)>)
        requires
            call_requires(handler, (self.held(), payload)),
        ensures
            match result {
                Ok((next, out)) => call_ensures(
                    handler,
                    (self.held(), payload),
                    (next.held(), Ok::<O, E>(out)),
                ) && allowed(self.state(), Event::Fail) == to(next.state(), ChoiceKind::External, Effect::Unchanged),
                Err((same, error)) => call_ensures(
                    handler,
                    (self.held(), payload),
                    (same.held(), Err::<O, E>(error)),
                ),
            },
    {
        self.run(payload, handler)
    }
}

impl<T, C> TypedSession<T, ExtendedCopyInDone, C> {
    pub fn command_complete<O, E, H: FnOnce(T, Bytes) -> (T, Result<O, E>)>(
        self,
        payload: Bytes,
        handler: H,
    ) -> (result: Result<(TypedSession<T, Building, C>, O), (Self, E)>)
        requires
            call_requires(handler, (self.held(), payload)),
        ensures
            match result {
                Ok((next, out)) => call_ensures(
                    handler,
                    (self.held(), payload),
                    (next.held(), Ok::<O, E>(out)),
                ) && allowed(self.state(), Event::CommandComplete) == to(next.state(), ChoiceKind::Internal, Effect::Unchanged),
                Err((same, error)) => call_ensures(
                    handler,
                    (self.held(), payload),
                    (same.held(), Err::<O, E>(error)),
                ),
            },
    {
        self.run(payload, handler)
    }

    pub fn error<O, E, H: FnOnce(T, DiagnosticResponse) -> (T, Result<O, E>)>(
        self,
        payload: DiagnosticResponse,
        handler: H,
    ) -> (result: Result<(TypedSession<T, ExtendedError, C>, O), (Self, E)>)
        requires
            call_requires(handler, (self.held(), payload)),
        ensures
            match result {
                Ok((next, out)) => call_ensures(
                    handler,
                    (self.held(), payload),
                    (next.held(), Ok::<O, E>(out)),
                ) && allowed(self.state(), Event::Error) == to(next.state(), ChoiceKind::Internal, Effect::Unchanged),
                Err((same, error)) => call_ensures(
                    handler,
                    (self.held(), payload),
                    (same.held(), Err::<O, E>(error)),
                ),
            },
    {
        self.run(payload, handler)
    }
}

impl<T, C> TypedSession<T, ExtendedCopyInFailed, C> {
    pub fn error<O, E, H: FnOnce(T, DiagnosticResponse) -> (T, Result<O, E>)>(
        self,
        payload: DiagnosticResponse,
        handler: H,
    ) -> (result: Result<(TypedSession<T, ExtendedError, C>, O), (Self, E)>)
        requires
            call_requires(handler, (self.held(), payload)),
        ensures
            match result {
                Ok((next, out)) => call_ensures(
                    handler,
                    (self.held(), payload),
                    (next.held(), Ok::<O, E>(out)),
                ) && allowed(self.state(), Event::Error) == to(next.state(), ChoiceKind::Internal, Effect::Unchanged),
                Err((same, error)) => call_ensures(
                    handler,
                    (self.held(), payload),
                    (same.held(), Err::<O, E>(error)),
                ),
            },
    {
        self.run(payload, handler)
    }
}

impl<T, C> TypedSession<T, ExtendedCopyOut, C> {
    pub fn data<O, E, H: FnOnce(T, Bytes) -> (T, Result<O, E>)>(
        self,
        payload: Bytes,
        handler: H,
    ) -> (result: Result<(TypedSession<T, ExtendedCopyOut, C>, O), (Self, E)>)
        requires
            call_requires(handler, (self.held(), payload)),
        ensures
            match result {
                Ok((next, out)) => call_ensures(
                    handler,
                    (self.held(), payload),
                    (next.held(), Ok::<O, E>(out)),
                ) && allowed(self.state(), Event::Data) == to(next.state(), ChoiceKind::Internal, Effect::Unchanged),
                Err((same, error)) => call_ensures(
                    handler,
                    (self.held(), payload),
                    (same.held(), Err::<O, E>(error)),
                ),
            },
    {
        self.run(payload, handler)
    }

    pub fn done(self) -> (next: TypedSession<T, ExtendedCopyOutDone, C>)
        ensures
            next.held() == self.held(),
            allowed(self.state(), Event::Done) == to(next.state(), ChoiceKind::Internal, Effect::Unchanged),
    {
        self.advanced()
    }

    pub fn error<O, E, H: FnOnce(T, DiagnosticResponse) -> (T, Result<O, E>)>(
        self,
        payload: DiagnosticResponse,
        handler: H,
    ) -> (result: Result<(TypedSession<T, ExtendedError, C>, O), (Self, E)>)
        requires
            call_requires(handler, (self.held(), payload)),
        ensures
            match result {
                Ok((next, out)) => call_ensures(
                    handler,
                    (self.held(), payload),
                    (next.held(), Ok::<O, E>(out)),
                ) && allowed(self.state(), Event::Error) == to(next.state(), ChoiceKind::Internal, Effect::Unchanged),
                Err((same, error)) => call_ensures(
                    handler,
                    (self.held(), payload),
                    (same.held(), Err::<O, E>(error)),
                ),
            },
    {
        self.run(payload, handler)
    }
}

impl<T, C> TypedSession<T, ExtendedCopyOutDone, C> {
    pub fn command_complete<O, E, H: FnOnce(T, Bytes) -> (T, Result<O, E>)>(
        self,
        payload: Bytes,
        handler: H,
    ) -> (result: Result<(TypedSession<T, Building, C>, O), (Self, E)>)
        requires
            call_requires(handler, (self.held(), payload)),
        ensures
            match result {
                Ok((next, out)) => call_ensures(
                    handler,
                    (self.held(), payload),
                    (next.held(), Ok::<O, E>(out)),
                ) && allowed(self.state(), Event::CommandComplete) == to(next.state(), ChoiceKind::Internal, Effect::Unchanged),
                Err((same, error)) => call_ensures(
                    handler,
                    (self.held(), payload),
                    (same.held(), Err::<O, E>(error)),
                ),
            },
    {
        self.run(payload, handler)
    }
}

impl<T, C> TypedSession<T, SimpleCopyBoth, C> {
    pub fn send_data<O, E, H: FnOnce(T, Bytes) -> (T, Result<O, E>)>(
        self,
        payload: Bytes,
        handler: H,
    ) -> (result: Result<(TypedSession<T, SimpleCopyBoth, C>, O), (Self, E)>)
        requires
            call_requires(handler, (self.held(), payload)),
        ensures
            match result {
                Ok((next, out)) => call_ensures(
                    handler,
                    (self.held(), payload),
                    (next.held(), Ok::<O, E>(out)),
                ) && allowed(self.state(), Event::SendData) == to(next.state(), ChoiceKind::Internal, Effect::Unchanged),
                Err((same, error)) => call_ensures(
                    handler,
                    (self.held(), payload),
                    (same.held(), Err::<O, E>(error)),
                ),
            },
    {
        self.run(payload, handler)
    }

    pub fn receive_data<O, E, H: FnOnce(T, Bytes) -> (T, Result<O, E>)>(
        self,
        payload: Bytes,
        handler: H,
    ) -> (result: Result<(TypedSession<T, SimpleCopyBoth, C>, O), (Self, E)>)
        requires
            call_requires(handler, (self.held(), payload)),
        ensures
            match result {
                Ok((next, out)) => call_ensures(
                    handler,
                    (self.held(), payload),
                    (next.held(), Ok::<O, E>(out)),
                ) && allowed(self.state(), Event::ReceiveData) == to(next.state(), ChoiceKind::External, Effect::Unchanged),
                Err((same, error)) => call_ensures(
                    handler,
                    (self.held(), payload),
                    (same.held(), Err::<O, E>(error)),
                ),
            },
    {
        self.run(payload, handler)
    }

    pub fn send_done(self) -> (next: TypedSession<T, SimpleCopyBothServerDone, C>)
        ensures
            next.held() == self.held(),
            allowed(self.state(), Event::SendDone) == to(next.state(), ChoiceKind::Internal, Effect::Unchanged),
    {
        self.advanced()
    }

    pub fn receive_done(self) -> (next: TypedSession<T, SimpleCopyBothClientDone, C>)
        ensures
            next.held() == self.held(),
            allowed(self.state(), Event::ReceiveDone) == to(next.state(), ChoiceKind::External, Effect::Unchanged),
    {
        self.advanced()
    }

    pub fn fail<O, E, H: FnOnce(T, Bytes) -> (T, Result<O, E>)>(
        self,
        payload: Bytes,
        handler: H,
    ) -> (result: Result<(TypedSession<T, SimpleCopyBothFailed, C>, O), (Self, E)>)
        requires
            call_requires(handler, (self.held(), payload)),
        ensures
            match result {
                Ok((next, out)) => call_ensures(
                    handler,
                    (self.held(), payload),
                    (next.held(), Ok::<O, E>(out)),
                ) && allowed(self.state(), Event::Fail) == to(next.state(), ChoiceKind::External, Effect::Unchanged),
                Err((same, error)) => call_ensures(
                    handler,
                    (self.held(), payload),
                    (same.held(), Err::<O, E>(error)),
                ),
            },
    {
        self.run(payload, handler)
    }

    pub fn error<O, E, H: FnOnce(T, DiagnosticResponse) -> (T, Result<O, E>)>(
        self,
        payload: DiagnosticResponse,
        handler: H,
    ) -> (result: Result<(TypedSession<T, SimpleCopyReady, C>, O), (Self, E)>)
        requires
            call_requires(handler, (self.held(), payload)),
        ensures
            match result {
                Ok((next, out)) => call_ensures(
                    handler,
                    (self.held(), payload),
                    (next.held(), Ok::<O, E>(out)),
                ) && allowed(self.state(), Event::Error) == to(next.state(), ChoiceKind::Internal, Effect::Unchanged),
                Err((same, error)) => call_ensures(
                    handler,
                    (self.held(), payload),
                    (same.held(), Err::<O, E>(error)),
                ),
            },
    {
        self.run(payload, handler)
    }
}

impl<T, C> TypedSession<T, SimpleCopyBothClientDone, C> {
    pub fn send_data<O, E, H: FnOnce(T, Bytes) -> (T, Result<O, E>)>(
        self,
        payload: Bytes,
        handler: H,
    ) -> (result: Result<(TypedSession<T, SimpleCopyBothClientDone, C>, O), (Self, E)>)
        requires
            call_requires(handler, (self.held(), payload)),
        ensures
            match result {
                Ok((next, out)) => call_ensures(
                    handler,
                    (self.held(), payload),
                    (next.held(), Ok::<O, E>(out)),
                ) && allowed(self.state(), Event::SendData) == to(next.state(), ChoiceKind::Internal, Effect::Unchanged),
                Err((same, error)) => call_ensures(
                    handler,
                    (self.held(), payload),
                    (same.held(), Err::<O, E>(error)),
                ),
            },
    {
        self.run(payload, handler)
    }

    pub fn send_done(self) -> (next: TypedSession<T, SimpleCopyBothDone, C>)
        ensures
            next.held() == self.held(),
            allowed(self.state(), Event::SendDone) == to(next.state(), ChoiceKind::Internal, Effect::Unchanged),
    {
        self.advanced()
    }

    pub fn error<O, E, H: FnOnce(T, DiagnosticResponse) -> (T, Result<O, E>)>(
        self,
        payload: DiagnosticResponse,
        handler: H,
    ) -> (result: Result<(TypedSession<T, SimpleCopyReady, C>, O), (Self, E)>)
        requires
            call_requires(handler, (self.held(), payload)),
        ensures
            match result {
                Ok((next, out)) => call_ensures(
                    handler,
                    (self.held(), payload),
                    (next.held(), Ok::<O, E>(out)),
                ) && allowed(self.state(), Event::Error) == to(next.state(), ChoiceKind::Internal, Effect::Unchanged),
                Err((same, error)) => call_ensures(
                    handler,
                    (self.held(), payload),
                    (same.held(), Err::<O, E>(error)),
                ),
            },
    {
        self.run(payload, handler)
    }
}

impl<T, C> TypedSession<T, SimpleCopyBothServerDone, C> {
    pub fn receive_data<O, E, H: FnOnce(T, Bytes) -> (T, Result<O, E>)>(
        self,
        payload: Bytes,
        handler: H,
    ) -> (result: Result<(TypedSession<T, SimpleCopyBothServerDone, C>, O), (Self, E)>)
        requires
            call_requires(handler, (self.held(), payload)),
        ensures
            match result {
                Ok((next, out)) => call_ensures(
                    handler,
                    (self.held(), payload),
                    (next.held(), Ok::<O, E>(out)),
                ) && allowed(self.state(), Event::ReceiveData) == to(next.state(), ChoiceKind::External, Effect::Unchanged),
                Err((same, error)) => call_ensures(
                    handler,
                    (self.held(), payload),
                    (same.held(), Err::<O, E>(error)),
                ),
            },
    {
        self.run(payload, handler)
    }

    pub fn receive_done(self) -> (next: TypedSession<T, SimpleCopyBothDone, C>)
        ensures
            next.held() == self.held(),
            allowed(self.state(), Event::ReceiveDone) == to(next.state(), ChoiceKind::External, Effect::Unchanged),
    {
        self.advanced()
    }

    pub fn fail<O, E, H: FnOnce(T, Bytes) -> (T, Result<O, E>)>(
        self,
        payload: Bytes,
        handler: H,
    ) -> (result: Result<(TypedSession<T, SimpleCopyBothFailed, C>, O), (Self, E)>)
        requires
            call_requires(handler, (self.held(), payload)),
        ensures
            match result {
                Ok((next, out)) => call_ensures(
                    handler,
                    (self.held(), payload),
                    (next.held(), Ok::<O, E>(out)),
                ) && allowed(self.state(), Event::Fail) == to(next.state(), ChoiceKind::External, Effect::Unchanged),
                Err((same, error)) => call_ensures(
                    handler,
                    (self.held(), payload),
                    (same.held(), Err::<O, E>(error)),
                ),
            },
    {
        self.run(payload, handler)
    }
}

impl<T, C> TypedSession<T, SimpleCopyBothDone, C> {
    pub fn command_complete<O, E, H: FnOnce(T, Bytes) -> (T, Result<O, E>)>(
        self,
        payload: Bytes,
        handler: H,
    ) -> (result: Result<(TypedSession<T, SimpleCopyReady, C>, O), (Self, E)>)
        requires
            call_requires(handler, (self.held(), payload)),
        ensures
            match result {
                Ok((next, out)) => call_ensures(
                    handler,
                    (self.held(), payload),
                    (next.held(), Ok::<O, E>(out)),
                ) && allowed(self.state(), Event::CommandComplete) == to(next.state(), ChoiceKind::Internal, Effect::Unchanged),
                Err((same, error)) => call_ensures(
                    handler,
                    (self.held(), payload),
                    (same.held(), Err::<O, E>(error)),
                ),
            },
    {
        self.run(payload, handler)
    }
}

impl<T, C> TypedSession<T, SimpleCopyBothFailed, C> {
    pub fn error<O, E, H: FnOnce(T, DiagnosticResponse) -> (T, Result<O, E>)>(
        self,
        payload: DiagnosticResponse,
        handler: H,
    ) -> (result: Result<(TypedSession<T, SimpleCopyReady, C>, O), (Self, E)>)
        requires
            call_requires(handler, (self.held(), payload)),
        ensures
            match result {
                Ok((next, out)) => call_ensures(
                    handler,
                    (self.held(), payload),
                    (next.held(), Ok::<O, E>(out)),
                ) && allowed(self.state(), Event::Error) == to(next.state(), ChoiceKind::Internal, Effect::Unchanged),
                Err((same, error)) => call_ensures(
                    handler,
                    (self.held(), payload),
                    (same.held(), Err::<O, E>(error)),
                ),
            },
    {
        self.run(payload, handler)
    }
}

impl<T, C> TypedSession<T, ExtendedCopyBoth, C> {
    pub fn send_data<O, E, H: FnOnce(T, Bytes) -> (T, Result<O, E>)>(
        self,
        payload: Bytes,
        handler: H,
    ) -> (result: Result<(TypedSession<T, ExtendedCopyBoth, C>, O), (Self, E)>)
        requires
            call_requires(handler, (self.held(), payload)),
        ensures
            match result {
                Ok((next, out)) => call_ensures(
                    handler,
                    (self.held(), payload),
                    (next.held(), Ok::<O, E>(out)),
                ) && allowed(self.state(), Event::SendData) == to(next.state(), ChoiceKind::Internal, Effect::Unchanged),
                Err((same, error)) => call_ensures(
                    handler,
                    (self.held(), payload),
                    (same.held(), Err::<O, E>(error)),
                ),
            },
    {
        self.run(payload, handler)
    }

    pub fn receive_data<O, E, H: FnOnce(T, Bytes) -> (T, Result<O, E>)>(
        self,
        payload: Bytes,
        handler: H,
    ) -> (result: Result<(TypedSession<T, ExtendedCopyBoth, C>, O), (Self, E)>)
        requires
            call_requires(handler, (self.held(), payload)),
        ensures
            match result {
                Ok((next, out)) => call_ensures(
                    handler,
                    (self.held(), payload),
                    (next.held(), Ok::<O, E>(out)),
                ) && allowed(self.state(), Event::ReceiveData) == to(next.state(), ChoiceKind::External, Effect::Unchanged),
                Err((same, error)) => call_ensures(
                    handler,
                    (self.held(), payload),
                    (same.held(), Err::<O, E>(error)),
                ),
            },
    {
        self.run(payload, handler)
    }

    pub fn send_done(self) -> (next: TypedSession<T, ExtendedCopyBothServerDone, C>)
        ensures
            next.held() == self.held(),
            allowed(self.state(), Event::SendDone) == to(next.state(), ChoiceKind::Internal, Effect::Unchanged),
    {
        self.advanced()
    }

    pub fn receive_done(self) -> (next: TypedSession<T, ExtendedCopyBothClientDone, C>)
        ensures
            next.held() == self.held(),
            allowed(self.state(), Event::ReceiveDone) == to(next.state(), ChoiceKind::External, Effect::Unchanged),
    {
        self.advanced()
    }

    pub fn fail<O, E, H: FnOnce(T, Bytes) -> (T, Result<O, E>)>(
        self,
        payload: Bytes,
        handler: H,
    ) -> (result: Result<(TypedSession<T, ExtendedCopyBothFailed, C>, O), (Self, E)>)
        requires
            call_requires(handler, (self.held(), payload)),
        ensures
            match result {
                Ok((next, out)) => call_ensures(
                    handler,
                    (self.held(), payload),
                    (next.held(), Ok::<O, E>(out)),
                ) && allowed(self.state(), Event::Fail) == to(next.state(), ChoiceKind::External, Effect::Unchanged),
                Err((same, error)) => call_ensures(
                    handler,
                    (self.held(), payload),
                    (same.held(), Err::<O, E>(error)),
                ),
            },
    {
        self.run(payload, handler)
    }

    pub fn error<O, E, H: FnOnce(T, DiagnosticResponse) -> (T, Result<O, E>)>(
        self,
        payload: DiagnosticResponse,
        handler: H,
    ) -> (result: Result<(TypedSession<T, ExtendedError, C>, O), (Self, E)>)
        requires
            call_requires(handler, (self.held(), payload)),
        ensures
            match result {
                Ok((next, out)) => call_ensures(
                    handler,
                    (self.held(), payload),
                    (next.held(), Ok::<O, E>(out)),
                ) && allowed(self.state(), Event::Error) == to(next.state(), ChoiceKind::Internal, Effect::Unchanged),
                Err((same, error)) => call_ensures(
                    handler,
                    (self.held(), payload),
                    (same.held(), Err::<O, E>(error)),
                ),
            },
    {
        self.run(payload, handler)
    }
}

impl<T, C> TypedSession<T, ExtendedCopyBothClientDone, C> {
    pub fn send_data<O, E, H: FnOnce(T, Bytes) -> (T, Result<O, E>)>(
        self,
        payload: Bytes,
        handler: H,
    ) -> (result: Result<(TypedSession<T, ExtendedCopyBothClientDone, C>, O), (Self, E)>)
        requires
            call_requires(handler, (self.held(), payload)),
        ensures
            match result {
                Ok((next, out)) => call_ensures(
                    handler,
                    (self.held(), payload),
                    (next.held(), Ok::<O, E>(out)),
                ) && allowed(self.state(), Event::SendData) == to(next.state(), ChoiceKind::Internal, Effect::Unchanged),
                Err((same, error)) => call_ensures(
                    handler,
                    (self.held(), payload),
                    (same.held(), Err::<O, E>(error)),
                ),
            },
    {
        self.run(payload, handler)
    }

    pub fn send_done(self) -> (next: TypedSession<T, ExtendedCopyBothDone, C>)
        ensures
            next.held() == self.held(),
            allowed(self.state(), Event::SendDone) == to(next.state(), ChoiceKind::Internal, Effect::Unchanged),
    {
        self.advanced()
    }

    pub fn error<O, E, H: FnOnce(T, DiagnosticResponse) -> (T, Result<O, E>)>(
        self,
        payload: DiagnosticResponse,
        handler: H,
    ) -> (result: Result<(TypedSession<T, ExtendedError, C>, O), (Self, E)>)
        requires
            call_requires(handler, (self.held(), payload)),
        ensures
            match result {
                Ok((next, out)) => call_ensures(
                    handler,
                    (self.held(), payload),
                    (next.held(), Ok::<O, E>(out)),
                ) && allowed(self.state(), Event::Error) == to(next.state(), ChoiceKind::Internal, Effect::Unchanged),
                Err((same, error)) => call_ensures(
                    handler,
                    (self.held(), payload),
                    (same.held(), Err::<O, E>(error)),
                ),
            },
    {
        self.run(payload, handler)
    }
}

impl<T, C> TypedSession<T, ExtendedCopyBothServerDone, C> {
    pub fn receive_data<O, E, H: FnOnce(T, Bytes) -> (T, Result<O, E>)>(
        self,
        payload: Bytes,
        handler: H,
    ) -> (result: Result<(TypedSession<T, ExtendedCopyBothServerDone, C>, O), (Self, E)>)
        requires
            call_requires(handler, (self.held(), payload)),
        ensures
            match result {
                Ok((next, out)) => call_ensures(
                    handler,
                    (self.held(), payload),
                    (next.held(), Ok::<O, E>(out)),
                ) && allowed(self.state(), Event::ReceiveData) == to(next.state(), ChoiceKind::External, Effect::Unchanged),
                Err((same, error)) => call_ensures(
                    handler,
                    (self.held(), payload),
                    (same.held(), Err::<O, E>(error)),
                ),
            },
    {
        self.run(payload, handler)
    }

    pub fn receive_done(self) -> (next: TypedSession<T, ExtendedCopyBothDone, C>)
        ensures
            next.held() == self.held(),
            allowed(self.state(), Event::ReceiveDone) == to(next.state(), ChoiceKind::External, Effect::Unchanged),
    {
        self.advanced()
    }

    pub fn fail<O, E, H: FnOnce(T, Bytes) -> (T, Result<O, E>)>(
        self,
        payload: Bytes,
        handler: H,
    ) -> (result: Result<(TypedSession<T, ExtendedCopyBothFailed, C>, O), (Self, E)>)
        requires
            call_requires(handler, (self.held(), payload)),
        ensures
            match result {
                Ok((next, out)) => call_ensures(
                    handler,
                    (self.held(), payload),
                    (next.held(), Ok::<O, E>(out)),
                ) && allowed(self.state(), Event::Fail) == to(next.state(), ChoiceKind::External, Effect::Unchanged),
                Err((same, error)) => call_ensures(
                    handler,
                    (self.held(), payload),
                    (same.held(), Err::<O, E>(error)),
                ),
            },
    {
        self.run(payload, handler)
    }
}

impl<T, C> TypedSession<T, ExtendedCopyBothDone, C> {
    pub fn command_complete<O, E, H: FnOnce(T, Bytes) -> (T, Result<O, E>)>(
        self,
        payload: Bytes,
        handler: H,
    ) -> (result: Result<(TypedSession<T, Building, C>, O), (Self, E)>)
        requires
            call_requires(handler, (self.held(), payload)),
        ensures
            match result {
                Ok((next, out)) => call_ensures(
                    handler,
                    (self.held(), payload),
                    (next.held(), Ok::<O, E>(out)),
                ) && allowed(self.state(), Event::CommandComplete) == to(next.state(), ChoiceKind::Internal, Effect::Unchanged),
                Err((same, error)) => call_ensures(
                    handler,
                    (self.held(), payload),
                    (same.held(), Err::<O, E>(error)),
                ),
            },
    {
        self.run(payload, handler)
    }
}

impl<T, C> TypedSession<T, ExtendedCopyBothFailed, C> {
    pub fn error<O, E, H: FnOnce(T, DiagnosticResponse) -> (T, Result<O, E>)>(
        self,
        payload: DiagnosticResponse,
        handler: H,
    ) -> (result: Result<(TypedSession<T, ExtendedError, C>, O), (Self, E)>)
        requires
            call_requires(handler, (self.held(), payload)),
        ensures
            match result {
                Ok((next, out)) => call_ensures(
                    handler,
                    (self.held(), payload),
                    (next.held(), Ok::<O, E>(out)),
                ) && allowed(self.state(), Event::Error) == to(next.state(), ChoiceKind::Internal, Effect::Unchanged),
                Err((same, error)) => call_ensures(
                    handler,
                    (self.held(), payload),
                    (same.held(), Err::<O, E>(error)),
                ),
            },
    {
        self.run(payload, handler)
    }
}

} // verus!
