//! Decisions of a simple query, from its text to operational readiness.

use vstd::prelude::*;

use super::connection::{
    ClientConnection, ClientConnectionContext, ClientConnectionCore, ConnectionChanged,
};
use super::establish::{replace_session_item, replaced};
use crate::codec::frontend::{frontend_frame, FrontendView};
use crate::codec::{BackendMessage, Frame, FrontendMessage};
use crate::conn::{Conn, Dirty};
use crate::demux::SessionItem;
use crate::error::{ErrorKind, ProtocolError};
use crate::octets::{copy_from_slice, octets};
use crate::runtime_middleware::ClientMiddleware;
use crate::session::{simple_item, ReadyState, SimpleQuery, SimpleTransition};

verus! {

/// Why a simple query did not reach readiness.
#[derive(Clone, Debug, PartialEq, Eq)]
pub enum QueryFault {
    /// Middleware replaced the query with another kind of message.
    IncompatibleQuery,
    /// The query cannot be encoded.
    Encoding(ProtocolError),
    /// Middleware replaced a response with one of another kind.
    UnfitReplacement,
    /// The backend answered with an error.
    Rejected,
    EnteredCopyIn,
    EnteredCopyOut,
    EnteredCopyBoth,
    IllegalResponse,
}

impl QueryFault {
    /// Description of the fault.
    pub fn message(&self) -> (message: &'static str)
        ensures
            message@ == match *self {
                QueryFault::IncompatibleQuery =>
                    "middleware replaced Query with an incompatible message"@,
                QueryFault::Encoding(error) => error.text(),
                QueryFault::UnfitReplacement =>
                    "middleware replacement during simple query is not phase-compatible"@,
                QueryFault::Rejected => "backend rejected simple query"@,
                QueryFault::EnteredCopyIn => "simple query entered COPY IN"@,
                QueryFault::EnteredCopyOut => "simple query entered COPY OUT"@,
                QueryFault::EnteredCopyBoth => "simple query entered COPY BOTH"@,
                QueryFault::IllegalResponse => "illegal simple-query response"@,
            },
    {
        match self {
            QueryFault::IncompatibleQuery =>
                "middleware replaced Query with an incompatible message",
            QueryFault::Encoding(error) => error.message(),
            QueryFault::UnfitReplacement =>
                "middleware replacement during simple query is not phase-compatible",
            QueryFault::Rejected => "backend rejected simple query",
            QueryFault::EnteredCopyIn => "simple query entered COPY IN",
            QueryFault::EnteredCopyOut => "simple query entered COPY OUT",
            QueryFault::EnteredCopyBoth => "simple query entered COPY BOTH",
            QueryFault::IllegalResponse => "illegal simple-query response",
        }
    }

    /// Class of the fault: that of the encoding error if it is one.
    pub fn kind(&self) -> (kind: ErrorKind)
        ensures
            kind == match *self {
                QueryFault::Encoding(error) => error.kind_spec(),
                QueryFault::IncompatibleQuery
                | QueryFault::UnfitReplacement
                | QueryFault::IllegalResponse => ErrorKind::InvalidData,
                QueryFault::Rejected
                | QueryFault::EnteredCopyIn
                | QueryFault::EnteredCopyOut
                | QueryFault::EnteredCopyBoth => ErrorKind::Other,
            },
    {
        match self {
            QueryFault::Encoding(error) => error.kind(),
            QueryFault::IncompatibleQuery
            | QueryFault::UnfitReplacement
            | QueryFault::IllegalResponse => ErrorKind::InvalidData,
            QueryFault::Rejected
            | QueryFault::EnteredCopyIn
            | QueryFault::EnteredCopyOut
            | QueryFault::EnteredCopyBoth => ErrorKind::Other,
        }
    }
}

/// A simple query whose response is being received.
pub struct QueryRun<Transport, State, Evidence, Handler> {
    connection: Conn<Transport, SimpleQuery, Dirty>,
    handler: Handler,
    context: ClientConnectionContext<Evidence>,
    state: State,
    messages: Vec<BackendMessage>,
}

impl<Transport, State, Evidence, Handler> QueryRun<Transport, State, Evidence, Handler> {
    /// The transport held.
    pub closed spec fn held(self) -> Transport {
        self.connection.held()
    }

    /// The handler and the caller's state.
    pub closed spec fn layers(self) -> (Handler, State) {
        (self.handler, self.state)
    }

    /// The facts about the connection.
    pub closed spec fn facts(self) -> ClientConnectionContext<Evidence> {
        self.context
    }

    /// The messages observed so far, as middleware left them.
    pub closed spec fn observed(self) -> Seq<BackendMessage> {
        self.messages@
    }
}

/// Whether a query begins as it must when middleware made `outbound` of it.
pub open spec fn query_sent<Transport, State, Cleanliness, Evidence, Handler>(
    connection: ClientConnection<Transport, State, Cleanliness, Evidence, Handler>,
    outbound: FrontendMessage,
    after: (Handler, State),
    result: Result<(QueryRun<Transport, State, Evidence, Handler>, Frame), (Transport, QueryFault)>,
) -> bool {
    match outbound {
        FrontendMessage::Query(text) => match frontend_frame(FrontendView::Query(octets(text))) {
            Ok(expected) => result matches Ok((run, frame)) && frame@ == expected && run.held()
                == connection.inner().held() && run.facts() == connection.inner().facts()
                && run.layers() == after && run.observed().len() == 0,
            Err(error) => result matches Err((transport, fault)) && transport
                == connection.inner().held() && fault == QueryFault::Encoding(error),
        },
        _ => result matches Err((transport, fault)) && transport == connection.inner().held()
            && fault == QueryFault::IncompatibleQuery,
    }
}

/// Whether a query begins as it must: middleware sees the query first.
pub open spec fn query_begins<
    Transport,
    State,
    Cleanliness,
    Evidence,
    Handler: ClientMiddleware<State, ClientConnectionContext<Evidence>>,
>(
    connection: ClientConnection<Transport, State, Cleanliness, Evidence, Handler>,
    query: FrontendMessage,
    outbound: FrontendMessage,
    after: (Handler, State),
    result: Result<(QueryRun<Transport, State, Evidence, Handler>, Frame), (Transport, QueryFault)>,
) -> bool {
    &&& Handler::frontend_step(
        (connection.inner().handling(), connection.owned()),
        connection.inner().facts(),
        query,
        after,
        outbound,
    )
    &&& query_sent(connection, outbound, after, result)
}

/// What to do after an item of the response.
pub enum QueryStep<Transport, State, Evidence, Handler> {
    /// Receive another item.
    Receive(QueryRun<Transport, State, Evidence, Handler>),
    /// The connection is ready again, conservatively marked changed.
    Finished(
        ClientConnection<Transport, State, ConnectionChanged, Evidence, Handler>,
        Vec<BackendMessage>,
    ),
    /// The query failed; the transport is given back.
    Failed(Transport, QueryFault),
}

/// Whether a run goes on as it must after an item that middleware left as it is.
pub open spec fn query_moves<Transport, State, Evidence, Handler>(
    run: QueryRun<Transport, State, Evidence, Handler>,
    item: SessionItem,
    seen: BackendMessage,
    after: (Handler, State),
    step: QueryStep<Transport, State, Evidence, Handler>,
) -> bool {
    match item {
        SessionItem::ReadyForQuery { .. } => step matches QueryStep::Finished(connection, messages)
            && connection.inner().held() == run.held() && connection.inner().facts() == run.facts()
            && (connection.inner().handling(), connection.owned()) == after && recorded(
            messages@,
            run.observed(),
            seen,
        ),
        SessionItem::Message(BackendMessage::ErrorResponse(_)) => step == QueryStep::<
            Transport,
            State,
            Evidence,
            Handler,
        >::Failed(run.held(), QueryFault::Rejected),
        SessionItem::Message(BackendMessage::CopyInResponse(_)) => step == QueryStep::<
            Transport,
            State,
            Evidence,
            Handler,
        >::Failed(run.held(), QueryFault::EnteredCopyIn),
        SessionItem::Message(BackendMessage::CopyOutResponse(_)) => step == QueryStep::<
            Transport,
            State,
            Evidence,
            Handler,
        >::Failed(run.held(), QueryFault::EnteredCopyOut),
        SessionItem::Message(BackendMessage::CopyBothResponse(_)) => step == QueryStep::<
            Transport,
            State,
            Evidence,
            Handler,
        >::Failed(run.held(), QueryFault::EnteredCopyBoth),
        _ => if simple_item(item) {
            step matches QueryStep::Receive(next) && next.held() == run.held() && next.facts()
                == run.facts() && next.layers() == after && recorded(
                next.observed(),
                run.observed(),
                seen,
            )
        } else {
            step == QueryStep::<Transport, State, Evidence, Handler>::Failed(
                run.held(),
                QueryFault::IllegalResponse,
            )
        },
    }
}

/// Whether `all` are the messages before with one more that says what `seen` says.
pub open spec fn recorded(
    all: Seq<BackendMessage>,
    before: Seq<BackendMessage>,
    seen: BackendMessage,
) -> bool {
    &&& all.len() == before.len() + 1
    &&& all.drop_last() == before
    &&& all.last()@ == seen@
}

/// Whether a run goes on as it must after an item: middleware sees the item's
/// message, and what it leaves takes the message's place.
pub open spec fn query_follows<
    Transport,
    State,
    Evidence,
    Handler: ClientMiddleware<State, ClientConnectionContext<Evidence>>,
>(
    run: QueryRun<Transport, State, Evidence, Handler>,
    item: SessionItem,
    message: BackendMessage,
    seen: BackendMessage,
    after: (Handler, State),
    step: QueryStep<Transport, State, Evidence, Handler>,
) -> bool {
    &&& message@ == SessionItem::backend(item@)
    &&& Handler::backend_step(run.layers(), run.facts(), message, after, seen)
    &&& match replaced(item, seen) {
        Some(kept) => query_moves(run, kept, seen, after, step),
        None => step == QueryStep::<Transport, State, Evidence, Handler>::Failed(
            run.held(),
            QueryFault::UnfitReplacement,
        ),
    }
}

impl<
    Transport,
    State,
    Cleanliness,
    Evidence,
    Handler: ClientMiddleware<State, ClientConnectionContext<Evidence>>,
> ClientConnection<Transport, State, Cleanliness, Evidence, Handler> {
    /// Begins a simple query. The frame is to be sent, and the response's items are
    /// then put to the run.
    ///
    /// # Errors
    ///
    /// Middleware must leave a query, and the text must be encodable. The transport
    /// is given back.
    pub fn simple_query(self, query: &[u8]) -> (result: Result<
        (QueryRun<Transport, State, Evidence, Handler>, Frame),
        (Transport, QueryFault),
    >)
        ensures
            exists|message: FrontendMessage, outbound: FrontendMessage, after: (Handler, State)|
                message@ == FrontendView::Query(query@) && #[trigger] query_begins(
                    self,
                    message,
                    outbound,
                    after,
                    result,
                ),
    {
        let ghost before = self;
        let (transport, mut state, mut handler, context) = self.into_parts();
        let message = FrontendMessage::Query(copy_from_slice(query));
        let ghost message_seen = message;
        assert(message_seen@ == FrontendView::Query(query@));
        let outbound = handler.frontend(&context, &mut state, message);
        let ghost sent = outbound;
        let ghost after = (handler, state);
        let text = match outbound {
            FrontendMessage::Query(text) => text,
            _ => {
                let result = Err((transport, QueryFault::IncompatibleQuery));
                assert(query_begins(before, message_seen, sent, after, result));
                return result;
            },
        };
        match FrontendMessage::Query(text).to_frame() {
            Ok(frame) => {
                let messages: Vec<BackendMessage> = Vec::new();
                let run = QueryRun {
                    connection: Conn::indexed(transport),
                    handler,
                    context,
                    state,
                    messages,
                };
                let result = Ok((run, frame));
                assert(query_begins(before, message_seen, sent, after, result));
                result
            },
            Err(error) => {
                let result = Err((transport, QueryFault::Encoding(error)));
                assert(query_begins(before, message_seen, sent, after, result));
                result
            },
        }
    }
}

impl<
    Transport,
    State,
    Evidence,
    Handler: ClientMiddleware<State, ClientConnectionContext<Evidence>>,
> QueryRun<Transport, State, Evidence, Handler> {
    /// Mutably borrows the transport, to send or receive.
    pub fn transport_mut(&mut self) -> (transport: &mut Transport)
        ensures
            *transport == old(self).held(),
            final(self).held() == *final(transport),
            final(self).layers() == old(self).layers(),
            final(self).facts() == old(self).facts(),
            final(self).observed() == old(self).observed(),
    {
        self.connection.transport_mut()
    }

    /// Gives the transport back.
    pub fn into_transport(self) -> (transport: Transport)
        ensures
            transport == self.held(),
    {
        self.connection.into_transport()
    }

    /// Decides on one item of the response.
    pub fn on_item(self, item: SessionItem) -> (step: QueryStep<Transport, State, Evidence, Handler>)
        ensures
            exists|message: BackendMessage, seen: BackendMessage, after: (Handler, State)|
                #[trigger] query_follows(self, item, message, seen, after, step),
    {
        let ghost before = self;
        let QueryRun { connection, mut handler, context, mut state, mut messages } = self;
        let message = item.as_backend_message();
        let ghost offered = message;
        let seen = handler.backend(&context, &mut state, message);
        let ghost kept = seen;
        let ghost after = (handler, state);
        let record = seen.duplicate();
        let replacement = match replace_session_item(item, seen) {
            Some(replacement) => replacement,
            None => {
                let step = QueryStep::Failed(
                    connection.into_transport(),
                    QueryFault::UnfitReplacement,
                );
                assert(query_follows(before, item, offered, kept, after, step));
                return step;
            },
        };
        messages.push(record);
        assert(messages@.drop_last() =~= before.observed());
        let step = match connection.offer(replacement) {
            Ok(SimpleTransition::Continue(connection, _)) => QueryStep::Receive(
                QueryRun { connection, handler, context, state, messages },
            ),
            Ok(SimpleTransition::Ready(ready)) => {
                let connection: Conn<Transport, crate::auth::Ready, ConnectionChanged> =
                    match ready {
                    ReadyState::Clean(connection) => connection.transition(),
                    ReadyState::Dirty { conn, .. } => conn.transition(),
                };
                QueryStep::Finished(
                    ClientConnection::new(
                        ClientConnectionCore::new(connection, handler, context),
                        state,
                    ),
                    messages,
                )
            },
            Ok(SimpleTransition::Error(connection, _)) => QueryStep::Failed(
                connection.into_transport(),
                QueryFault::Rejected,
            ),
            Ok(SimpleTransition::CopyIn(connection, _)) => QueryStep::Failed(
                connection.into_transport(),
                QueryFault::EnteredCopyIn,
            ),
            Ok(SimpleTransition::CopyOut(connection, _)) => QueryStep::Failed(
                connection.into_transport(),
                QueryFault::EnteredCopyOut,
            ),
            Ok(SimpleTransition::CopyBoth(connection, _)) => QueryStep::Failed(
                connection.into_transport(),
                QueryFault::EnteredCopyBoth,
            ),
            Err((connection, _)) => QueryStep::Failed(
                connection.into_transport(),
                QueryFault::IllegalResponse,
            ),
        };
        assert(query_follows(before, item, offered, kept, after, step));
        step
    }
}

/// A query finishes only on readiness.
pub proof fn law_query_finishes_on_readiness<Transport, State, Evidence, Handler>(
    run: QueryRun<Transport, State, Evidence, Handler>,
    item: SessionItem,
    seen: BackendMessage,
    after: (Handler, State),
    step: QueryStep<Transport, State, Evidence, Handler>,
)
    requires
        query_moves(run, item, seen, after, step),
    ensures
        step is Finished <==> item is ReadyForQuery,
{
}

/// Every message observed stays observed, in order, until the query is done.
pub proof fn law_query_records_every_message<Transport, State, Evidence, Handler>(
    run: QueryRun<Transport, State, Evidence, Handler>,
    item: SessionItem,
    seen: BackendMessage,
    after: (Handler, State),
    step: QueryStep<Transport, State, Evidence, Handler>,
)
    requires
        query_moves(run, item, seen, after, step),
    ensures
        step matches QueryStep::Receive(next) ==> run.observed().is_prefix_of(next.observed()),
        step matches QueryStep::Finished(_, messages) ==> run.observed().is_prefix_of(messages@),
{
    match step {
        QueryStep::Receive(next) => {
            assert(run.observed() =~= next.observed().take(run.observed().len() as int));
        },
        QueryStep::Finished(_, messages) => {
            assert(run.observed() =~= messages@.take(run.observed().len() as int));
        },
        QueryStep::Failed(..) => {},
    }
}

/// What each item of a response does to a query: readiness finishes it, rows and
/// results go on, an error rejects it, and a copy or anything else fails it with its own
/// fault.
pub proof fn law_query_steps<Transport, State, Evidence, Handler>(
    run: QueryRun<Transport, State, Evidence, Handler>,
    item: SessionItem,
    seen: BackendMessage,
    after: (Handler, State),
    step: QueryStep<Transport, State, Evidence, Handler>,
)
    requires
        query_moves(run, item, seen, after, step),
    ensures
        step is Finished <==> item is ReadyForQuery,
        step is Receive <==> item is CommandComplete || (item matches SessionItem::Message(message)
            && (message is RowDescription || message is DataRow || message is EmptyQueryResponse)),
        step matches QueryStep::Failed(transport, fault) ==> {
            &&& transport == run.held()
            &&& item matches SessionItem::Message(message)
            &&& fault == QueryFault::Rejected <==> message is ErrorResponse
            &&& fault == QueryFault::EnteredCopyIn <==> message is CopyInResponse
            &&& fault == QueryFault::EnteredCopyOut <==> message is CopyOutResponse
            &&& fault == QueryFault::EnteredCopyBoth <==> message is CopyBothResponse
        },
{
}

/// A query is sent as middleware left it, and only if that is a query that can be
/// written.
pub proof fn law_queries_are_sent<Transport, State, Cleanliness, Evidence, Handler>(
    connection: ClientConnection<Transport, State, Cleanliness, Evidence, Handler>,
    outbound: FrontendMessage,
    after: (Handler, State),
    result: Result<(QueryRun<Transport, State, Evidence, Handler>, Frame), (Transport, QueryFault)>,
)
    requires
        query_sent(connection, outbound, after, result),
    ensures
        result is Ok <==> outbound@ is Query && frontend_frame(outbound@) is Ok,
        result matches Ok((run, frame)) ==> frontend_frame(outbound@) == Ok::<
            _,
            ProtocolError,
        >(frame@) && run.observed().len() == 0 && run.held() == connection.inner().held(),
        result matches Err((transport, fault)) ==> transport == connection.inner().held() && (fault
            == QueryFault::IncompatibleQuery <==> !(outbound@ is Query)),
{
}

/// What middleware leaves of an item must still fit it: a readiness that is no longer
/// one, or a completion that is no longer one, fails the query with the transport given
/// back, and every other message takes the place of the one received.
pub proof fn law_query_replacements<
    Transport,
    State,
    Evidence,
    Handler: ClientMiddleware<State, ClientConnectionContext<Evidence>>,
>(
    run: QueryRun<Transport, State, Evidence, Handler>,
    item: SessionItem,
    message: BackendMessage,
    seen: BackendMessage,
    after: (Handler, State),
    step: QueryStep<Transport, State, Evidence, Handler>,
)
    requires
        query_follows(run, item, message, seen, after, step),
    ensures
        item is ReadyForQuery && !(seen is ReadyForQuery) || item is CommandComplete && !(seen
            is CommandComplete) <==> step == QueryStep::<
            Transport,
            State,
            Evidence,
            Handler,
        >::Failed(run.held(), QueryFault::UnfitReplacement),
        item is ReadyForQuery && seen is ReadyForQuery <==> step is Finished,
        item is CommandComplete && seen is CommandComplete ==> step is Receive,
        item is Message ==> (step is Receive <==> seen is RowDescription || seen is DataRow || seen
            is EmptyQueryResponse),
{
}

} // verus!
