//! Session typestates of a frontend: extended-query building, response
//! consumption, recovery and pool reset.

use vstd::prelude::*;
use vstd::utf8::*;

use crate::auth::Ready;
use crate::codec::frontend::{frontend_frame, FrontendView};
use crate::codec::layout::law_frontend_layout;
use crate::codec::tags;
use crate::codec::{
    BackendMessage, Bind, Close, CopyResponse, Describe, DiagnosticResponse, Execute, Frame,
    FrontendMessage, Parse, TransactionStatus,
};
use crate::conn::{Conn, Dirty, Pristine};
use crate::demux::SessionItem;
use crate::error::ProtocolError;
use crate::grammar::frontend;
use crate::grammar::laws::frontend_received;
use crate::octets::{copy_from_slice, from_vec};

verus! {

/// An extended-query cycle without a bound portal. A type index.
#[derive(Debug)]
pub enum Building {
    Index,
}

/// An extended-query cycle with a bound portal. A type index.
#[derive(Debug)]
pub enum BoundBuilding {
    Index,
}

/// The response to a simple query is awaited. A type index.
#[derive(Debug)]
pub enum SimpleQuery {
    Index,
}

/// The response to an extended-query cycle is awaited. A type index.
#[derive(Debug)]
pub enum AwaitingReady {
    Index,
}

/// An error response was received and readiness is awaited. A type index.
#[derive(Debug)]
pub enum Draining {
    Index,
}

/// The frontend sends COPY data. A type index.
#[derive(Debug)]
pub enum CopyIn {
    Index,
}

/// The backend sends COPY data. A type index.
#[derive(Debug)]
pub enum CopyOut {
    Index,
}

/// Both sides send COPY data. A type index.
#[derive(Debug)]
pub enum CopyBoth {
    Index,
}

/// The client finished its side of a bidirectional COPY. A type index.
#[derive(Debug)]
pub enum CopyBothClientDone {
    Index,
}

/// The server finished its side of a bidirectional COPY. A type index.
#[derive(Debug)]
pub enum CopyBothServerDone {
    Index,
}

/// The response to a function call is awaited. A type index.
#[derive(Debug)]
pub enum FunctionCalling {
    Index,
}

/// The response to a reset is awaited. A type index.
#[derive(Debug)]
pub enum Resetting {
    Index,
}

/// The reset completed and readiness is awaited. A type index.
#[derive(Debug)]
pub enum ResetComplete {
    Index,
}

/// Query that discards session state.
pub const RESET_QUERY: &'static str = "DISCARD ALL";

/// Diagnostic of a failed request.
pub type ErrorResponse = DiagnosticResponse;

/// Readiness together with its effect on cleanliness.
#[derive(Debug)]
pub enum ReadyState<S, C> {
    /// The connection retained its existing cleanliness index.
    Clean(Conn<S, Ready, C>),
    /// Transaction or parameter evidence made the connection dirty.
    Dirty {
        conn: Conn<S, Ready, Dirty>,
        /// Transaction status reported by `ReadyForQuery`.
        status: TransactionStatus,
        /// Whether reported parameters differ from their startup values.
        parameters_changed: bool,
    },
}

/// Projection while awaiting readiness after an extended-query cycle.
#[derive(Debug)]
pub enum AwaitingReadyTransition<S, C> {
    /// A non-terminal item was consumed; continue waiting.
    Continue(Conn<S, AwaitingReady, C>, SessionItem),
    /// `ReadyForQuery` completed the cycle.
    Ready(ReadyState<S, C>),
    /// An error entered the drain-until-ready recovery phase.
    Error(Conn<S, Draining, C>, ErrorResponse),
}

/// Projection while draining a failed cycle.
#[derive(Debug)]
pub enum DrainingTransition<S, C> {
    /// A non-terminal item was consumed; continue draining.
    Continue(Conn<S, Draining, C>, SessionItem),
    /// `ReadyForQuery` completed recovery.
    Ready(ReadyState<S, C>),
}

/// Projection while consuming the response to a simple query.
#[derive(Debug)]
pub enum SimpleTransition<S, C> {
    Continue(Conn<S, SimpleQuery, C>, SessionItem),
    Ready(ReadyState<S, C>),
    Error(Conn<S, Draining, C>, ErrorResponse),
    CopyIn(Conn<S, CopyIn, C>, CopyResponse),
    CopyOut(Conn<S, CopyOut, C>, CopyResponse),
    CopyBoth(Conn<S, CopyBoth, C>, CopyResponse),
}

/// Projection while a reset is in progress.
#[derive(Debug)]
pub enum ResettingTransition<S> {
    Continue(Conn<S, Resetting, Dirty>, SessionItem),
    /// The discarding command completed.
    Complete(Conn<S, ResetComplete, Dirty>),
    Error(Conn<S, Draining, Dirty>, ErrorResponse),
}

/// Projection after a reset completed.
#[derive(Debug)]
pub enum ResetCompleteTransition<S> {
    Continue(Conn<S, ResetComplete, Dirty>, SessionItem),
    /// Idle readiness restored the pristine index.
    Ready(Conn<S, Ready, Pristine>),
    /// Readiness inside a transaction, or with changed parameters.
    Dirty(Conn<S, Ready, Dirty>),
    Error(Conn<S, Draining, Dirty>, ErrorResponse),
}

/// Whether sending a message on `held` gives `result`.
pub open spec fn sends<S, P, C>(
    result: Result<(Conn<S, P, C>, Frame), ProtocolError>,
    held: S,
    message: FrontendView,
) -> bool {
    match result {
        Ok((conn, frame)) => conn.held() == held && frontend_frame(message) == Ok::<
            _,
            ProtocolError,
        >(frame@),
        Err(error) => frontend_frame(message) == Err::<crate::codec::frame::FrameView, _>(error),
    }
}

/// Whether readiness evidence leaves the cleanliness index alone.
pub open spec fn clean_evidence(status: TransactionStatus, parameters_changed: bool) -> bool {
    status == TransactionStatus::Idle && !parameters_changed
}

/// Whether `ready` is what readiness evidence gives on `held`.
pub open spec fn readies<S, C>(
    ready: ReadyState<S, C>,
    held: S,
    status: TransactionStatus,
    parameters_changed: bool,
) -> bool {
    match ready {
        ReadyState::Clean(conn) => clean_evidence(status, parameters_changed) && conn.held()
            == held,
        ReadyState::Dirty { conn, status: reported, parameters_changed: changed } => {
            !clean_evidence(status, parameters_changed) && conn.held() == held && reported == status
                && changed == parameters_changed
        },
    }
}

impl<S, P> Conn<S, P, Pristine> {
    /// Records that session-local state may have changed.
    pub fn mark_dirty(self) -> (conn: Conn<S, P, Dirty>)
        ensures
            conn.held() == self.held(),
    {
        self.transition()
    }
}

impl<S> Conn<S, Ready, Pristine> {
    /// Gives the transport of a pristine, idle connection back for reuse.
    pub fn release(self) -> (transport: S)
        ensures
            transport == self.held(),
    {
        self.into_transport()
    }
}

impl<S> Conn<S, Ready, Dirty> {
    /// Asks the backend to discard session state.
    ///
    /// # Errors
    ///
    /// Returns an error if the query cannot be reconstructed on the wire.
    pub fn begin_reset(self) -> (result: Result<(Conn<S, Resetting, Dirty>, Frame), ProtocolError>)
        ensures
            sends(result, self.held(), FrontendView::Query(encode_utf8(RESET_QUERY@))),
    {
        let frame = query_frame(RESET_QUERY.as_bytes())?;
        Ok((self.transition(), frame))
    }
}

fn query_frame(query: &[u8]) -> (result: Result<Frame, ProtocolError>)
    ensures
        crate::codec::frame::agrees(result, frontend_frame(FrontendView::Query(query@))),
{
    FrontendMessage::Query(copy_from_slice(query)).to_frame()
}

impl<S, C> Conn<S, Ready, C> {
    /// Begins an extended-query cycle.
    pub fn begin_extended(self) -> (conn: Conn<S, Building, C>)
        ensures
            conn.held() == self.held(),
    {
        self.transition()
    }

    /// Sends a simple query.
    ///
    /// # Errors
    ///
    /// Returns an error if the query cannot be reconstructed on the wire.
    pub fn push_query(self, query: &[u8]) -> (result: Result<
        (Conn<S, SimpleQuery, Dirty>, Frame),
        ProtocolError,
    >)
        ensures
            sends(result, self.held(), FrontendView::Query(query@)),
    {
        let frame = query_frame(query)?;
        Ok((self.transition(), frame))
    }
}

impl<S, C> Conn<S, Building, C> {
    /// Sends a `Parse` message.
    ///
    /// # Errors
    ///
    /// Returns an error if the message cannot be reconstructed on the wire.
    pub fn push_parse(self, message: &Parse) -> (result: Result<
        (Conn<S, Building, Dirty>, Frame),
        ProtocolError,
    >)
        ensures
            sends(result, self.held(), FrontendView::Parse(message@)),
    {
        let frame = message.to_frame()?;
        Ok((self.transition(), frame))
    }

    /// Sends a `Bind` message, which makes the cycle executable.
    ///
    /// # Errors
    ///
    /// Returns an error if the message cannot be reconstructed on the wire.
    pub fn push_bind(self, message: &Bind) -> (result: Result<
        (Conn<S, BoundBuilding, Dirty>, Frame),
        ProtocolError,
    >)
        ensures
            sends(result, self.held(), FrontendView::Bind(message@)),
    {
        let frame = message.to_frame()?;
        Ok((self.transition(), frame))
    }

    /// Sends a `Describe` message.
    ///
    /// # Errors
    ///
    /// Returns an error if the message cannot be reconstructed on the wire.
    pub fn push_describe(self, message: &Describe) -> (result: Result<
        (Conn<S, Building, C>, Frame),
        ProtocolError,
    >)
        ensures
            sends(result, self.held(), FrontendView::Describe(message@)),
    {
        let frame = message.to_frame()?;
        Ok((self.transition(), frame))
    }

    /// Sends a `Close` message.
    ///
    /// # Errors
    ///
    /// Returns an error if the message cannot be reconstructed on the wire.
    pub fn push_close(self, message: &Close) -> (result: Result<
        (Conn<S, Building, C>, Frame),
        ProtocolError,
    >)
        ensures
            sends(result, self.held(), FrontendView::Close(message@)),
    {
        let frame = message.to_frame()?;
        Ok((self.transition(), frame))
    }

    /// Sends a `Flush` message.
    pub fn push_flush(self) -> (result: (Conn<S, Building, C>, Frame))
        ensures
            result.0.held() == self.held(),
            frontend_frame(FrontendView::Flush) == Ok::<_, ProtocolError>(result.1@),
    {
        let body: Vec<u8> = Vec::new();
        assert(body@ =~= Seq::<u8>::empty());
        (self.transition(), Frame { tag: tags::FLUSH, body: from_vec(body) })
    }

    /// Sends a `Sync` message, which ends the cycle.
    pub fn push_sync(self) -> (result: (Conn<S, AwaitingReady, C>, Frame))
        ensures
            result.0.held() == self.held(),
            frontend_frame(FrontendView::Sync) == Ok::<_, ProtocolError>(result.1@),
    {
        let body: Vec<u8> = Vec::new();
        assert(body@ =~= Seq::<u8>::empty());
        (self.transition(), Frame { tag: tags::SYNC, body: from_vec(body) })
    }
}

impl<S, C> Conn<S, BoundBuilding, C> {
    /// Sends a `Parse` message.
    ///
    /// # Errors
    ///
    /// Returns an error if the message cannot be reconstructed on the wire.
    pub fn push_parse(self, message: &Parse) -> (result: Result<
        (Conn<S, BoundBuilding, Dirty>, Frame),
        ProtocolError,
    >)
        ensures
            sends(result, self.held(), FrontendView::Parse(message@)),
    {
        let frame = message.to_frame()?;
        Ok((self.transition(), frame))
    }

    /// Sends a `Bind` message, which makes the cycle executable.
    ///
    /// # Errors
    ///
    /// Returns an error if the message cannot be reconstructed on the wire.
    pub fn push_bind(self, message: &Bind) -> (result: Result<
        (Conn<S, BoundBuilding, Dirty>, Frame),
        ProtocolError,
    >)
        ensures
            sends(result, self.held(), FrontendView::Bind(message@)),
    {
        let frame = message.to_frame()?;
        Ok((self.transition(), frame))
    }

    /// Sends a `Describe` message.
    ///
    /// # Errors
    ///
    /// Returns an error if the message cannot be reconstructed on the wire.
    pub fn push_describe(self, message: &Describe) -> (result: Result<
        (Conn<S, BoundBuilding, C>, Frame),
        ProtocolError,
    >)
        ensures
            sends(result, self.held(), FrontendView::Describe(message@)),
    {
        let frame = message.to_frame()?;
        Ok((self.transition(), frame))
    }

    /// Sends an `Execute` message.
    ///
    /// # Errors
    ///
    /// Returns an error if the message cannot be reconstructed on the wire.
    pub fn push_execute(self, message: &Execute) -> (result: Result<
        (Conn<S, BoundBuilding, C>, Frame),
        ProtocolError,
    >)
        ensures
            sends(result, self.held(), FrontendView::Execute(message@)),
    {
        let frame = message.to_frame()?;
        Ok((self.transition(), frame))
    }

    /// Sends a `Close` message.
    ///
    /// # Errors
    ///
    /// Returns an error if the message cannot be reconstructed on the wire.
    pub fn push_close(self, message: &Close) -> (result: Result<
        (Conn<S, BoundBuilding, C>, Frame),
        ProtocolError,
    >)
        ensures
            sends(result, self.held(), FrontendView::Close(message@)),
    {
        let frame = message.to_frame()?;
        Ok((self.transition(), frame))
    }

    /// Sends a `Flush` message.
    pub fn push_flush(self) -> (result: (Conn<S, BoundBuilding, C>, Frame))
        ensures
            result.0.held() == self.held(),
            frontend_frame(FrontendView::Flush) == Ok::<_, ProtocolError>(result.1@),
    {
        let body: Vec<u8> = Vec::new();
        assert(body@ =~= Seq::<u8>::empty());
        (self.transition(), Frame { tag: tags::FLUSH, body: from_vec(body) })
    }

    /// Sends a `Sync` message, which ends the cycle.
    pub fn push_sync(self) -> (result: (Conn<S, AwaitingReady, C>, Frame))
        ensures
            result.0.held() == self.held(),
            frontend_frame(FrontendView::Sync) == Ok::<_, ProtocolError>(result.1@),
    {
        let body: Vec<u8> = Vec::new();
        assert(body@ =~= Seq::<u8>::empty());
        (self.transition(), Frame { tag: tags::SYNC, body: from_vec(body) })
    }
}

fn ready_state<S, P, C>(
    conn: Conn<S, P, C>,
    status: TransactionStatus,
    parameters_changed: bool,
) -> (ready: ReadyState<S, C>)
    ensures
        readies(ready, conn.held(), status, parameters_changed),
{
    match status {
        TransactionStatus::Idle => {
            if !parameters_changed {
                return ReadyState::Clean(conn.transition());
            }
        },
        _ => {},
    }
    ReadyState::Dirty { conn: conn.transition(), status, parameters_changed }
}

impl<S, C> Conn<S, AwaitingReady, C> {
    /// Consumes one item of the response.
    pub fn offer(self, item: SessionItem) -> (transition: AwaitingReadyTransition<S, C>)
        ensures
            match item {
                SessionItem::ReadyForQuery { status, parameters_changed } => transition matches
                    AwaitingReadyTransition::Ready(ready) && readies(
                    ready,
                    self.held(),
                    status,
                    parameters_changed,
                ),
                SessionItem::Message(BackendMessage::ErrorResponse(diagnostic)) => transition
                    matches AwaitingReadyTransition::Error(conn, error) && conn.held()
                    == self.held() && error == diagnostic,
                _ => transition matches AwaitingReadyTransition::Continue(conn, returned)
                    && conn.held() == self.held() && returned == item,
            },
    {
        match item {
            SessionItem::ReadyForQuery { status, parameters_changed } => {
                AwaitingReadyTransition::Ready(ready_state(self, status, parameters_changed))
            },
            SessionItem::Message(BackendMessage::ErrorResponse(error)) => {
                AwaitingReadyTransition::Error(self.transition(), error)
            },
            item => AwaitingReadyTransition::Continue(self, item),
        }
    }
}

impl<S, C> Conn<S, Draining, C> {
    /// Consumes one item after an error.
    pub fn offer(self, item: SessionItem) -> (transition: DrainingTransition<S, C>)
        ensures
            match item {
                SessionItem::ReadyForQuery { status, parameters_changed } => transition matches
                    DrainingTransition::Ready(ready) && readies(
                    ready,
                    self.held(),
                    status,
                    parameters_changed,
                ),
                _ => transition matches DrainingTransition::Continue(conn, returned) && conn.held()
                    == self.held() && returned == item,
            },
    {
        match item {
            SessionItem::ReadyForQuery { status, parameters_changed } => {
                DrainingTransition::Ready(ready_state(self, status, parameters_changed))
            },
            item => DrainingTransition::Continue(self, item),
        }
    }
}

/// Whether an item may occur inside the response to a simple query.
pub open spec fn simple_item(item: SessionItem) -> bool {
    match item {
        SessionItem::Message(BackendMessage::RowDescription(_))
        | SessionItem::Message(BackendMessage::DataRow(_))
        | SessionItem::Message(BackendMessage::EmptyQueryResponse)
        | SessionItem::CommandComplete { .. } => true,
        _ => false,
    }
}

impl<S, C> Conn<S, SimpleQuery, C> {
    /// Consumes one item of the response to a simple query.
    ///
    /// # Errors
    ///
    /// Returns the unchanged connection and an item that is illegal here.
    pub fn offer(self, item: SessionItem) -> (result: Result<
        SimpleTransition<S, C>,
        (Self, SessionItem),
    >)
        ensures
            match item {
                SessionItem::ReadyForQuery { status, parameters_changed } => result matches Ok(
                    SimpleTransition::Ready(ready),
                ) && readies(ready, self.held(), status, parameters_changed),
                SessionItem::Message(BackendMessage::ErrorResponse(diagnostic)) => result
                    matches Ok(SimpleTransition::Error(conn, error)) && conn.held() == self.held()
                    && error == diagnostic,
                SessionItem::Message(BackendMessage::CopyInResponse(response)) => result
                    matches Ok(SimpleTransition::CopyIn(conn, given)) && conn.held() == self.held()
                    && given == response,
                SessionItem::Message(BackendMessage::CopyOutResponse(response)) => result
                    matches Ok(SimpleTransition::CopyOut(conn, given)) && conn.held() == self.held()
                    && given == response,
                SessionItem::Message(BackendMessage::CopyBothResponse(response)) => result
                    matches Ok(SimpleTransition::CopyBoth(conn, given)) && conn.held()
                    == self.held() && given == response,
                _ => if simple_item(item) {
                    result matches Ok(SimpleTransition::Continue(conn, returned)) && conn.held()
                        == self.held() && returned == item
                } else {
                    result matches Err((conn, returned)) && conn.held() == self.held() && returned
                        == item
                },
            },
    {
        match item {
            SessionItem::ReadyForQuery { status, parameters_changed } => Ok(
                SimpleTransition::Ready(ready_state(self, status, parameters_changed)),
            ),
            SessionItem::CommandComplete { .. } => Ok(SimpleTransition::Continue(self, item)),
            SessionItem::Message(message) => match message {
                BackendMessage::ErrorResponse(error) => Ok(
                    SimpleTransition::Error(self.transition(), error),
                ),
                BackendMessage::CopyInResponse(response) => Ok(
                    SimpleTransition::CopyIn(self.transition(), response),
                ),
                BackendMessage::CopyOutResponse(response) => Ok(
                    SimpleTransition::CopyOut(self.transition(), response),
                ),
                BackendMessage::CopyBothResponse(response) => Ok(
                    SimpleTransition::CopyBoth(self.transition(), response),
                ),
                BackendMessage::RowDescription(_)
                | BackendMessage::DataRow(_)
                | BackendMessage::EmptyQueryResponse => Ok(
                    SimpleTransition::Continue(self, SessionItem::Message(message)),
                ),
                message => Err((self, SessionItem::Message(message))),
            },
        }
    }
}

impl<S> Conn<S, Resetting, Dirty> {
    /// Consumes one item of the response to a reset.
    pub fn offer(self, item: SessionItem) -> (transition: ResettingTransition<S>)
        ensures
            match item {
                SessionItem::CommandComplete { .. } => transition matches
                    ResettingTransition::Complete(conn) && conn.held() == self.held(),
                SessionItem::Message(BackendMessage::ErrorResponse(diagnostic)) => transition
                    matches ResettingTransition::Error(conn, error) && conn.held() == self.held()
                    && error == diagnostic,
                _ => transition matches ResettingTransition::Continue(conn, returned) && conn.held()
                    == self.held() && returned == item,
            },
    {
        match item {
            SessionItem::CommandComplete { .. } => ResettingTransition::Complete(self.transition()),
            SessionItem::Message(BackendMessage::ErrorResponse(error)) => {
                ResettingTransition::Error(self.transition(), error)
            },
            item => ResettingTransition::Continue(self, item),
        }
    }
}

impl<S> Conn<S, ResetComplete, Dirty> {
    /// Consumes one item after the discarding command completed.
    pub fn offer(self, item: SessionItem) -> (transition: ResetCompleteTransition<S>)
        ensures
            match item {
                SessionItem::ReadyForQuery { status, parameters_changed } => if clean_evidence(
                    status,
                    parameters_changed,
                ) {
                    transition matches ResetCompleteTransition::Ready(conn) && conn.held()
                        == self.held()
                } else {
                    transition matches ResetCompleteTransition::Dirty(conn) && conn.held()
                        == self.held()
                },
                SessionItem::Message(BackendMessage::ErrorResponse(diagnostic)) => transition
                    matches ResetCompleteTransition::Error(conn, error) && conn.held()
                    == self.held() && error == diagnostic,
                _ => transition matches ResetCompleteTransition::Continue(conn, returned)
                    && conn.held() == self.held() && returned == item,
            },
    {
        match item {
            SessionItem::ReadyForQuery { status, parameters_changed } => {
                match ready_state::<S, ResetComplete, Dirty>(self, status, parameters_changed) {
                    ReadyState::Clean(conn) => ResetCompleteTransition::Ready(conn.transition()),
                    ReadyState::Dirty { conn, .. } => ResetCompleteTransition::Dirty(conn),
                }
            },
            SessionItem::Message(BackendMessage::ErrorResponse(error)) => {
                ResetCompleteTransition::Error(self.transition(), error)
            },
            item => ResetCompleteTransition::Continue(self, item),
        }
    }
}

/// What goes on inside the response to a simple query is what the frontend's grammar
/// goes on with there, and nothing else.
pub proof fn law_simple_items_follow_the_grammar(item: SessionItem)
    ensures
        simple_item(item) <==> crate::grammar::frontend::external_event(
            crate::grammar::frontend::RuntimeState::Simple,
            SessionItem::backend(item@),
        ) == Some(crate::grammar::frontend::Event::Continue) && !(item matches SessionItem::Message(
            BackendMessage::CommandComplete(_),
        )),
{
}

/// Readiness leaves a connection clean only outside a transaction and with unchanged
/// parameters; any other readiness is reported with what it said.
pub proof fn law_clean_readiness<S, C>(
    ready: ReadyState<S, C>,
    held: S,
    status: TransactionStatus,
    parameters_changed: bool,
)
    requires
        readies(ready, held, status, parameters_changed),
    ensures
        ready is Clean <==> status == TransactionStatus::Idle && !parameters_changed,
        ready matches ReadyState::Dirty { status: reported, parameters_changed: changed, .. }
            ==> reported == status && changed == parameters_changed,
{
}

/// A message is sent if and only if it can be written, and as it is written.
pub proof fn law_sent_messages<S, P, C>(
    result: Result<(Conn<S, P, C>, Frame), ProtocolError>,
    held: S,
    message: FrontendView,
)
    requires
        sends(result, held, message),
    ensures
        result is Ok <==> frontend_frame(message) is Ok,
        result matches Ok((conn, frame)) ==> conn.held() == held && frontend_frame(message) == Ok::<
            _,
            ProtocolError,
        >(frame@),
{
}

/// The query that discards a session's state.
pub proof fn law_reset_query()
    ensures
        RESET_QUERY@ == "DISCARD ALL"@,
{
}

/// An item as the demux gives it out: readiness and completion never come as plain
/// messages.
pub open spec fn projected(item: SessionItem) -> bool {
    item matches SessionItem::Message(message) ==> !(message is ReadyForQuery) && !(
    message is CommandComplete)
}

/// The response to a simple query is consumed as the frontend's grammar says, and an item
/// that it does not know there is handed back.
pub proof fn law_simple_query_follows_the_grammar<S, C>(
    conn: Conn<S, SimpleQuery, C>,
    item: SessionItem,
    result: Result<SimpleTransition<S, C>, (Conn<S, SimpleQuery, C>, SessionItem)>,
)
    requires
        projected(item),
        call_ensures(Conn::<S, SimpleQuery, C>::offer, (conn, item), result),
    ensures
        frontend_received(frontend::RuntimeState::Simple, SessionItem::backend(item@)) == match result {
            Ok(SimpleTransition::Continue(..)) => Some(frontend::RuntimeState::Simple),
            Ok(SimpleTransition::Ready(_)) => Some(frontend::RuntimeState::Ready),
            Ok(SimpleTransition::Error(..)) => Some(frontend::RuntimeState::Draining),
            Ok(SimpleTransition::CopyIn(..)) => Some(frontend::RuntimeState::CopyIn),
            Ok(SimpleTransition::CopyOut(..)) => Some(frontend::RuntimeState::CopyOut),
            Ok(SimpleTransition::CopyBoth(..)) => Some(frontend::RuntimeState::CopyBoth),
            Err(_) => None,
        },
        result matches Err((same, returned)) ==> same.held() == conn.held() && returned == item,
        result matches Ok(SimpleTransition::Ready(ready)) ==> (item matches SessionItem::ReadyForQuery {
            status,
            parameters_changed,
        } && readies(ready, conn.held(), status, parameters_changed)),
{
}

/// While readiness is awaited, after an error and during a reset, what the frontend's
/// grammar knows there is consumed as it says.
pub proof fn law_waiting_follows_the_grammar<S, C>(
    awaiting: (Conn<S, AwaitingReady, C>, AwaitingReadyTransition<S, C>),
    draining: (Conn<S, Draining, C>, DrainingTransition<S, C>),
    item: SessionItem,
)
    requires
        projected(item),
        call_ensures(Conn::<S, AwaitingReady, C>::offer, (awaiting.0, item), awaiting.1),
        call_ensures(Conn::<S, Draining, C>::offer, (draining.0, item), draining.1),
    ensures
        frontend_received(frontend::RuntimeState::AwaitingReady, SessionItem::backend(item@))
            matches Some(after) ==> after == match awaiting.1 {
            AwaitingReadyTransition::Continue(..) => frontend::RuntimeState::AwaitingReady,
            AwaitingReadyTransition::Ready(_) => frontend::RuntimeState::Ready,
            AwaitingReadyTransition::Error(..) => frontend::RuntimeState::Draining,
        },
        awaiting.1 is Ready <==> item is ReadyForQuery,
        frontend_received(frontend::RuntimeState::Draining, SessionItem::backend(item@))
            matches Some(after) ==> after == match draining.1 {
            DrainingTransition::Continue(..) => frontend::RuntimeState::Draining,
            DrainingTransition::Ready(_) => frontend::RuntimeState::Ready,
        },
        draining.1 is Ready <==> item is ReadyForQuery,
{
}

/// A reset follows the frontend's grammar, and restores the pristine index only by
/// readiness outside a transaction and with unchanged parameters.
pub proof fn law_reset_follows_the_grammar<S>(
    resetting: (Conn<S, Resetting, Dirty>, ResettingTransition<S>),
    complete: (Conn<S, ResetComplete, Dirty>, ResetCompleteTransition<S>),
    item: SessionItem,
)
    requires
        projected(item),
        call_ensures(Conn::<S, Resetting, Dirty>::offer, (resetting.0, item), resetting.1),
        call_ensures(Conn::<S, ResetComplete, Dirty>::offer, (complete.0, item), complete.1),
    ensures
        frontend_received(frontend::RuntimeState::Resetting, SessionItem::backend(item@))
            matches Some(after) ==> after == match resetting.1 {
            ResettingTransition::Continue(..) => frontend::RuntimeState::Resetting,
            ResettingTransition::Complete(_) => frontend::RuntimeState::ResetComplete,
            ResettingTransition::Error(..) => frontend::RuntimeState::Draining,
        },
        frontend_received(frontend::RuntimeState::ResetComplete, SessionItem::backend(item@))
            matches Some(after) ==> after == match complete.1 {
            ResetCompleteTransition::Continue(..) => frontend::RuntimeState::ResetComplete,
            ResetCompleteTransition::Ready(_) | ResetCompleteTransition::Dirty(_) =>
                frontend::RuntimeState::Ready,
            ResetCompleteTransition::Error(..) => frontend::RuntimeState::Draining,
        },
        complete.1 is Ready <==> item == (SessionItem::ReadyForQuery {
            status: TransactionStatus::Idle,
            parameters_changed: false,
        }),
        complete.1 is Dirty <==> item is ReadyForQuery && item != (SessionItem::ReadyForQuery {
            status: TransactionStatus::Idle,
            parameters_changed: false,
        }),
{
}

/// Each message of an extended-query cycle without a bound portal goes out under its own tag with its own
/// fields, if it can be written at all, and on the same transport.
pub proof fn law_cycle_messages_are_sent<S, C>(
    conn: Conn<S, Building, C>,
    parse: (Parse, Result<(Conn<S, Building, Dirty>, Frame), ProtocolError>),
    bind: (Bind, Result<(Conn<S, BoundBuilding, Dirty>, Frame), ProtocolError>),
    describe: (Describe, Result<(Conn<S, Building, C>, Frame), ProtocolError>),
    close: (Close, Result<(Conn<S, Building, C>, Frame), ProtocolError>),
    flush: (Conn<S, Building, C>, Frame),
    sync: (Conn<S, AwaitingReady, C>, Frame),
)
    requires
        call_ensures(Conn::<S, Building, C>::push_parse, (conn, &parse.0), parse.1),
        call_ensures(Conn::<S, Building, C>::push_bind, (conn, &bind.0), bind.1),
        call_ensures(Conn::<S, Building, C>::push_describe, (conn, &describe.0), describe.1),
        call_ensures(Conn::<S, Building, C>::push_close, (conn, &close.0), close.1),
        call_ensures(Conn::<S, Building, C>::push_flush, (conn,), flush),
        call_ensures(Conn::<S, Building, C>::push_sync, (conn,), sync),
    ensures
        parse.1 is Ok <==> frontend_frame(FrontendView::Parse(parse.0@)) is Ok,
        parse.1 matches Ok((next, frame)) ==> next.held() == conn.held() && frame@.tag == 0x50u8
            && frontend_frame(FrontendView::Parse(parse.0@)) == Ok::<_, ProtocolError>(frame@),
        bind.1 is Ok <==> frontend_frame(FrontendView::Bind(bind.0@)) is Ok,
        bind.1 matches Ok((next, frame)) ==> next.held() == conn.held() && frame@.tag == 0x42u8
            && frontend_frame(FrontendView::Bind(bind.0@)) == Ok::<_, ProtocolError>(frame@),
        describe.1 is Ok <==> frontend_frame(FrontendView::Describe(describe.0@)) is Ok,
        describe.1 matches Ok((next, frame)) ==> next.held() == conn.held() && frame@.tag == 0x44u8
            && frontend_frame(FrontendView::Describe(describe.0@)) == Ok::<_, ProtocolError>(
            frame@,
        ),
        close.1 is Ok <==> frontend_frame(FrontendView::Close(close.0@)) is Ok,
        close.1 matches Ok((next, frame)) ==> next.held() == conn.held() && frame@.tag == 0x43u8
            && frontend_frame(FrontendView::Close(close.0@)) == Ok::<_, ProtocolError>(frame@),
        flush.0.held() == conn.held(),
        flush.1@.tag == 0x48u8 && flush.1@.body.len() == 0,
        sync.0.held() == conn.held(),
        sync.1@.tag == 0x53u8 && sync.1@.body.len() == 0,
{
    law_frontend_layout(FrontendView::Parse(parse.0@));
    law_frontend_layout(FrontendView::Bind(bind.0@));
    law_frontend_layout(FrontendView::Describe(describe.0@));
    law_frontend_layout(FrontendView::Close(close.0@));
    law_frontend_layout(FrontendView::Flush);
    law_frontend_layout(FrontendView::Sync);
}

/// Each message of an extended-query cycle with a bound portal goes out under its own tag with its own
/// fields, if it can be written at all, and on the same transport.
pub proof fn law_bound_cycle_messages_are_sent<S, C>(
    conn: Conn<S, BoundBuilding, C>,
    parse: (Parse, Result<(Conn<S, BoundBuilding, Dirty>, Frame), ProtocolError>),
    bind: (Bind, Result<(Conn<S, BoundBuilding, Dirty>, Frame), ProtocolError>),
    describe: (Describe, Result<(Conn<S, BoundBuilding, C>, Frame), ProtocolError>),
    close: (Close, Result<(Conn<S, BoundBuilding, C>, Frame), ProtocolError>),
    flush: (Conn<S, BoundBuilding, C>, Frame),
    sync: (Conn<S, AwaitingReady, C>, Frame),
)
    requires
        call_ensures(Conn::<S, BoundBuilding, C>::push_parse, (conn, &parse.0), parse.1),
        call_ensures(Conn::<S, BoundBuilding, C>::push_bind, (conn, &bind.0), bind.1),
        call_ensures(Conn::<S, BoundBuilding, C>::push_describe, (conn, &describe.0), describe.1),
        call_ensures(Conn::<S, BoundBuilding, C>::push_close, (conn, &close.0), close.1),
        call_ensures(Conn::<S, BoundBuilding, C>::push_flush, (conn,), flush),
        call_ensures(Conn::<S, BoundBuilding, C>::push_sync, (conn,), sync),
    ensures
        parse.1 is Ok <==> frontend_frame(FrontendView::Parse(parse.0@)) is Ok,
        parse.1 matches Ok((next, frame)) ==> next.held() == conn.held() && frame@.tag == 0x50u8
            && frontend_frame(FrontendView::Parse(parse.0@)) == Ok::<_, ProtocolError>(frame@),
        bind.1 is Ok <==> frontend_frame(FrontendView::Bind(bind.0@)) is Ok,
        bind.1 matches Ok((next, frame)) ==> next.held() == conn.held() && frame@.tag == 0x42u8
            && frontend_frame(FrontendView::Bind(bind.0@)) == Ok::<_, ProtocolError>(frame@),
        describe.1 is Ok <==> frontend_frame(FrontendView::Describe(describe.0@)) is Ok,
        describe.1 matches Ok((next, frame)) ==> next.held() == conn.held() && frame@.tag == 0x44u8
            && frontend_frame(FrontendView::Describe(describe.0@)) == Ok::<_, ProtocolError>(
            frame@,
        ),
        close.1 is Ok <==> frontend_frame(FrontendView::Close(close.0@)) is Ok,
        close.1 matches Ok((next, frame)) ==> next.held() == conn.held() && frame@.tag == 0x43u8
            && frontend_frame(FrontendView::Close(close.0@)) == Ok::<_, ProtocolError>(frame@),
        flush.0.held() == conn.held(),
        flush.1@.tag == 0x48u8 && flush.1@.body.len() == 0,
        sync.0.held() == conn.held(),
        sync.1@.tag == 0x53u8 && sync.1@.body.len() == 0,
{
    law_frontend_layout(FrontendView::Parse(parse.0@));
    law_frontend_layout(FrontendView::Bind(bind.0@));
    law_frontend_layout(FrontendView::Describe(describe.0@));
    law_frontend_layout(FrontendView::Close(close.0@));
    law_frontend_layout(FrontendView::Flush);
    law_frontend_layout(FrontendView::Sync);
}

/// A query goes out as its text with a NUL octet, a reset as the query that discards the
/// session's state, and an execution under its own tag.
pub proof fn law_queries_and_executions_are_sent<S, C>(
    ready: Conn<S, Ready, C>,
    query: (&[u8], Result<(Conn<S, SimpleQuery, Dirty>, Frame), ProtocolError>),
    dirty: Conn<S, Ready, Dirty>,
    reset: Result<(Conn<S, Resetting, Dirty>, Frame), ProtocolError>,
    bound: Conn<S, BoundBuilding, C>,
    execute: (Execute, Result<(Conn<S, BoundBuilding, C>, Frame), ProtocolError>),
)
    requires
        call_ensures(Conn::<S, Ready, C>::push_query, (ready, query.0), query.1),
        call_ensures(Conn::<S, Ready, Dirty>::begin_reset, (dirty,), reset),
        call_ensures(Conn::<S, BoundBuilding, C>::push_execute, (bound, &execute.0), execute.1),
    ensures
        query.1 is Ok <==> !query.0@.contains(0),
        query.1 matches Ok((next, frame)) ==> next.held() == ready.held() && frame@.tag == 0x51u8
            && frame@.body == query.0@ + seq![0u8],
        reset matches Ok((next, frame)) ==> next.held() == dirty.held() && frame@.tag == 0x51u8
            && frame@.body == encode_utf8("DISCARD ALL"@) + seq![0u8],
        execute.1 is Ok <==> frontend_frame(FrontendView::Execute(execute.0@)) is Ok,
        execute.1 matches Ok((next, frame)) ==> next.held() == bound.held() && frame@.tag == 0x45u8
            && frontend_frame(FrontendView::Execute(execute.0@)) == Ok::<_, ProtocolError>(frame@),
{
    law_frontend_layout(FrontendView::Query(query.0@));
    law_frontend_layout(FrontendView::Query(encode_utf8(RESET_QUERY@)));
    law_frontend_layout(FrontendView::Execute(execute.0@));
}

} // verus!
