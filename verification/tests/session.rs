//! Client typestates of an established session.

use bytes::Bytes;
use pg_proto::auth::Ready;
use pg_proto::codec::{
    BackendMessage, Bind, Close, CopyResponse, Describe, DescribeTarget, DiagnosticResponse,
    Execute, Parse, TransactionStatus,
};
use pg_proto::conn::{Conn, Dirty, Pristine};
use pg_proto::demux::{CommandIndex, SessionItem};
use pg_proto::error::ProtocolError;
use pg_proto::session::{
    AwaitingReadyTransition, DrainingTransition, ReadyState, ResetCompleteTransition,
    ResettingTransition, SimpleTransition,
};

fn connected() -> Conn<&'static str, Ready, Pristine> {
    Conn::new("transport").transition()
}

fn error() -> SessionItem {
    SessionItem::Message(BackendMessage::ErrorResponse(DiagnosticResponse {
        fields: vec![],
    }))
}

fn ready(status: TransactionStatus, parameters_changed: bool) -> SessionItem {
    SessionItem::ReadyForQuery {
        status,
        parameters_changed,
    }
}

fn complete(tag: &'static [u8]) -> SessionItem {
    SessionItem::CommandComplete {
        tag: Bytes::from_static(tag),
        command: CommandIndex(0),
        notices: vec![],
    }
}

fn parse() -> Parse {
    Parse {
        statement: Bytes::from_static(b"s"),
        query: Bytes::from_static(b"select 1"),
        parameter_types: vec![],
    }
}

#[test]
fn a_pristine_connection_is_released() {
    assert_eq!(connected().release(), "transport");
}

#[test]
fn extended_cycles_are_framed_in_order() {
    let bind = Bind {
        portal: Bytes::from_static(b"p"),
        statement: Bytes::from_static(b"s"),
        parameter_formats: vec![],
        parameters: vec![],
        result_formats: vec![],
    };
    let describe = Describe {
        target: DescribeTarget::Statement,
        name: Bytes::from_static(b"s"),
    };
    let close = Close {
        target: DescribeTarget::Statement,
        name: Bytes::from_static(b"s"),
    };
    let execute = Execute {
        portal: Bytes::from_static(b"p"),
        max_rows: 7,
    };
    let building = connected().begin_extended();
    let (building, frame) = building.push_parse(&parse()).unwrap();
    assert_eq!(frame.tag, b'P');
    assert_eq!(frame.body, Bytes::from_static(b"s\0select 1\0\0\0"));
    let (building, frame) = building.push_describe(&describe).unwrap();
    assert_eq!(frame.body, Bytes::from_static(b"Ss\0"));
    let (building, frame) = building.push_close(&close).unwrap();
    assert_eq!(frame.tag, b'C');
    let (building, frame) = building.push_flush();
    assert_eq!((frame.tag, frame.body.len()), (b'H', 0));
    let (bound, frame) = building.push_bind(&bind).unwrap();
    assert_eq!(frame.body, Bytes::from_static(b"p\0s\0\0\0\0\0\0\0"));
    let (bound, frame) = bound.push_execute(&execute).unwrap();
    assert_eq!(frame.body, Bytes::from_static(b"p\0\0\0\0\x07"));
    let (bound, _) = bound.push_parse(&parse()).unwrap();
    let (bound, _) = bound.push_describe(&describe).unwrap();
    let (bound, _) = bound.push_close(&close).unwrap();
    let (bound, _) = bound.push_flush();
    let (bound, _) = bound.push_bind(&bind).unwrap();
    let (awaiting, frame) = bound.push_sync();
    assert_eq!((frame.tag, frame.body.len()), (b'S', 0));
    let AwaitingReadyTransition::Continue(awaiting, item) =
        awaiting.offer(SessionItem::Message(BackendMessage::ParseComplete))
    else {
        panic!("a completion leaves the cycle open")
    };
    assert_eq!(item, SessionItem::Message(BackendMessage::ParseComplete));
    let AwaitingReadyTransition::Ready(ReadyState::Clean(conn)) =
        awaiting.offer(ready(TransactionStatus::Idle, false))
    else {
        panic!("idle readiness keeps the index")
    };
    assert_eq!(conn.into_transport(), "transport");
}

#[test]
fn a_failed_cycle_is_drained() {
    let (awaiting, _) = connected().begin_extended().push_sync();
    let AwaitingReadyTransition::Error(draining, _) = awaiting.offer(error()) else {
        panic!("an error fails the cycle")
    };
    let DrainingTransition::Continue(draining, _) = draining.offer(complete(b"SELECT 1")) else {
        panic!("only readiness ends draining")
    };
    let DrainingTransition::Ready(ReadyState::Dirty {
        status,
        parameters_changed,
        ..
    }) = draining.offer(ready(TransactionStatus::FailedTransaction, true))
    else {
        panic!("a failed transaction is evidence of change")
    };
    assert_eq!(status, TransactionStatus::FailedTransaction);
    assert!(parameters_changed);
}

#[test]
fn unencodable_messages_are_refused() {
    let invalid = Parse {
        statement: Bytes::from_static(b"a\0b"),
        ..parse()
    };
    assert_eq!(
        connected().begin_extended().push_parse(&invalid).err(),
        Some(ProtocolError::NulInString)
    );
    assert_eq!(
        connected().push_query(b"a\0b").err(),
        Some(ProtocolError::NulInString)
    );
}

#[test]
fn simple_queries_project_their_responses() {
    let (query, frame) = connected().push_query(b"select 1").unwrap();
    assert_eq!(frame.body, Bytes::from_static(b"select 1\0"));
    let Ok(SimpleTransition::Continue(query, _)) = query.offer(complete(b"SELECT 1")) else {
        panic!("a completion leaves the query open")
    };
    let Err((query, item)) = query.offer(SessionItem::Message(BackendMessage::BindComplete)) else {
        panic!("a simple query binds nothing")
    };
    assert_eq!(item, SessionItem::Message(BackendMessage::BindComplete));
    let copy = CopyResponse {
        overall_format: 0,
        column_formats: vec![],
    };
    let Ok(SimpleTransition::CopyBoth(copying, response)) =
        query.offer(SessionItem::Message(BackendMessage::CopyBothResponse(copy)))
    else {
        panic!("the backend started a copy")
    };
    assert_eq!(response.overall_format, 0);
    assert_eq!(copying.into_transport(), "transport");
}

#[test]
fn only_a_confirmed_reset_is_pristine() {
    let dirty: Conn<&'static str, Ready, Dirty> = connected().mark_dirty();
    let (resetting, frame) = dirty.begin_reset().unwrap();
    assert_eq!(frame.body, Bytes::from_static(b"DISCARD ALL\0"));
    let ResettingTransition::Continue(resetting, _) =
        resetting.offer(ready(TransactionStatus::Idle, false))
    else {
        panic!("readiness does not confirm the reset")
    };
    let ResettingTransition::Complete(done) = resetting.offer(complete(b"DISCARD ALL")) else {
        panic!("the command completed")
    };
    let ResetCompleteTransition::Ready(pristine) =
        done.offer(ready(TransactionStatus::Idle, false))
    else {
        panic!("idle readiness restores the index")
    };
    assert_eq!(pristine.release(), "transport");

    let dirty: Conn<&'static str, Ready, Dirty> = connected().mark_dirty();
    let (resetting, _) = dirty.begin_reset().unwrap();
    assert!(matches!(
        resetting.offer(error()),
        ResettingTransition::Error(_, _)
    ));
    let dirty: Conn<&'static str, Ready, Dirty> = connected().mark_dirty();
    let (resetting, _) = dirty.begin_reset().unwrap();
    let ResettingTransition::Complete(done) = resetting.offer(complete(b"DISCARD ALL")) else {
        panic!("the command completed")
    };
    assert!(matches!(
        done.offer(ready(TransactionStatus::InTransaction, false)),
        ResetCompleteTransition::Dirty(_)
    ));
}
