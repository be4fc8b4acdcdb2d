//! Branded statements and portals.

use bytes::Bytes;
use pg_proto::auth::Ready;
use pg_proto::codec::{BackendMessage, TransactionStatus};
use pg_proto::conn::Conn;
use pg_proto::demux::SessionItem;
use pg_proto::resources::{
    with_connection_resources, with_resources, ResourceAwaitingTransition, ResourceError,
    ResourceReadyState,
};

#[test]
fn resource_connection_sends_only_its_own_branded_portals() {
    let ready: Conn<(), Ready> = Conn::new(()).transition();
    with_connection_resources(ready.begin_extended(), |connection| {
        let (connection, statement, parse) = connection
            .prepare(
                Bytes::from_static(b"client_statement"),
                Bytes::from_static(b"proxy_statement"),
                Bytes::from_static(b"select $1::int4"),
                vec![23],
            )
            .unwrap();
        assert_eq!(parse.tag, b'P');
        let (connection, portal, bind) = connection
            .bind(
                &statement,
                Bytes::from_static(b"client_portal"),
                Bytes::from_static(b"proxy_portal"),
                vec![1],
                vec![Some(Bytes::from_static(b"\0\0\0*"))],
                vec![1],
            )
            .unwrap();
        assert_eq!(bind.tag, b'B');
        let (connection, describe) = connection.describe_portal(&portal).unwrap();
        assert_eq!(describe.tag, b'D');
        let (connection, execute) = connection.execute(&portal, 0).unwrap();
        assert_eq!(execute.tag, b'E');
        let (connection, second_statement, parse) = connection
            .prepare(
                Bytes::from_static(b"client_statement_2"),
                Bytes::from_static(b"proxy_statement_2"),
                Bytes::from_static(b"select 2"),
                vec![],
            )
            .unwrap();
        assert_eq!(parse.tag, b'P');
        let (connection, second_portal, bind) = connection
            .bind(
                &second_statement,
                Bytes::from_static(b"client_portal_2"),
                Bytes::from_static(b"proxy_portal_2"),
                vec![],
                vec![],
                vec![],
            )
            .unwrap();
        assert_eq!(bind.tag, b'B');
        let (connection, describe) = connection.describe_statement(&second_statement).unwrap();
        assert_eq!(describe.tag, b'D');
        let (connection, flush) = connection.flush();
        assert_eq!(flush.tag, b'H');
        let (connection, close) = connection.close_portal(second_portal).unwrap();
        assert_eq!(close.tag, b'C');
        let (connection, close) = connection.close_portal(portal).unwrap();
        assert_eq!(close.tag, b'C');
        let (connection, close) = connection.close_statement(second_statement).unwrap();
        assert_eq!(close.tag, b'C');
        let (connection, close) = connection.close_statement(statement).unwrap();
        assert_eq!(close.tag, b'C');
        let (awaiting, sync) = connection.sync();
        assert_eq!(sync.tag, b'S');
        let ResourceAwaitingTransition::Continue(awaiting, _) = awaiting.offer(
            SessionItem::Message(BackendMessage::ParseComplete),
        ) else {
            panic!("ParseComplete should retain the awaiting phase")
        };
        let ResourceAwaitingTransition::Ready(ResourceReadyState::Clean(ready)) = awaiting
            .offer(SessionItem::ReadyForQuery {
                status: TransactionStatus::Idle,
                parameters_changed: false,
            })
        else {
            panic!("idle readiness should complete the extended cycle")
        };
        ready.begin_extended().into_connection().into_transport();
    });
}

#[test]
fn namespace_resolves_client_names_to_rewritten_resources() {
    with_resources(|mut resources| {
        let (statement, _) = resources
            .prepare(
                Bytes::from_static(b"client-statement"),
                Bytes::from_static(b"upstream-statement-42"),
                Bytes::from_static(b"select $1"),
                vec![25],
            )
            .unwrap();
        let (portal, _) = resources
            .bind(
                &statement,
                Bytes::from_static(b"client-portal"),
                Bytes::from_static(b"upstream-portal-42"),
                vec![0],
                vec![Some(Bytes::from_static(b"value"))],
                vec![1],
            )
            .unwrap();

        assert_eq!(
            resources
                .statement(b"client-statement")
                .unwrap()
                .upstream_name(),
            b"upstream-statement-42"
        );
        assert_eq!(
            resources.portal(b"client-portal").unwrap().upstream_name(),
            b"upstream-portal-42"
        );

        resources.close_portal(portal).unwrap();
        resources.close_statement(statement).unwrap();
        assert!(resources.portal(b"client-portal").is_none());
        assert!(resources.statement(b"client-statement").is_none());
    });
}

#[test]
fn idle_readiness_invalidates_only_the_unnamed_portal() {
    let ready: Conn<(), Ready> = Conn::new(()).transition();
    with_connection_resources(ready.begin_extended(), |connection| {
        let (connection, statement, _) = connection
            .prepare(
                Bytes::new(),
                Bytes::new(),
                Bytes::from_static(b"select 1"),
                vec![],
            )
            .unwrap();
        let (connection, portal, _) = connection
            .bind(
                &statement,
                Bytes::new(),
                Bytes::new(),
                vec![],
                vec![],
                vec![],
            )
            .unwrap();
        assert!(connection.statement_is_live(&statement));
        assert!(connection.portal_is_live(&portal));
        let (awaiting, _) = connection.sync();
        let ResourceAwaitingTransition::Ready(ResourceReadyState::Clean(ready)) = awaiting
            .offer(SessionItem::ReadyForQuery {
                status: TransactionStatus::Idle,
                parameters_changed: false,
            })
        else {
            panic!("idle readiness should complete the extended cycle")
        };

        assert!(ready.statement_is_live(&statement));
        assert!(!ready.portal_is_live(&portal));
        ready.into_connection().into_transport();
    });
}

#[test]
fn simple_query_invalidates_only_the_unnamed_statement() {
    let ready: Conn<(), Ready> = Conn::new(()).transition();
    with_connection_resources(ready.begin_extended(), |connection| {
        let (connection, unnamed, _) = connection
            .prepare(
                Bytes::new(),
                Bytes::new(),
                Bytes::from_static(b"select 1"),
                vec![],
            )
            .unwrap();
        let (connection, named, _) = connection
            .prepare(
                Bytes::from_static(b"client_named"),
                Bytes::from_static(b"proxy_named"),
                Bytes::from_static(b"select 2"),
                vec![],
            )
            .unwrap();
        let (awaiting, _) = connection.sync();
        let ResourceAwaitingTransition::Ready(ResourceReadyState::Clean(ready)) = awaiting
            .offer(SessionItem::ReadyForQuery {
                status: TransactionStatus::Idle,
                parameters_changed: false,
            })
        else {
            panic!("idle readiness should complete the extended cycle")
        };
        assert!(ready.statement_is_live(&unnamed));
        assert!(ready.statement_is_live(&named));

        let (query, frame) = ready.query(b"select 3").unwrap();
        assert_eq!(frame.tag, b'Q');
        assert!(!query.statement_is_live(&unnamed));
        assert!(query.statement_is_live(&named));
        query.into_connection().into_transport();
    });
}

#[test]
fn branded_resources_rewrite_names_without_losing_bind_details() {
    with_resources(|mut resources| {
        let (statement, parse) = resources
            .prepare(
                Bytes::from_static(b"client_statement"),
                Bytes::from_static(b"proxy_7_statement"),
                Bytes::from_static(b"select $1::int4"),
                vec![23],
            )
            .unwrap();
        assert_eq!(statement.client_name(), b"client_statement");
        assert_eq!(parse.statement, Bytes::from_static(b"proxy_7_statement"));

        let (portal, bind) = resources
            .bind(
                &statement,
                Bytes::from_static(b"client_portal"),
                Bytes::from_static(b"proxy_7_portal"),
                vec![1],
                vec![Some(Bytes::from_static(b"\0\0\0*"))],
                vec![1],
            )
            .unwrap();
        assert_eq!(bind.statement, Bytes::from_static(b"proxy_7_statement"));
        assert_eq!(bind.portal, Bytes::from_static(b"proxy_7_portal"));
        assert_eq!(bind.parameter_formats, [1]);
        assert_eq!(bind.result_formats, [1]);
        assert_eq!(portal.execute(0).portal, bind.portal);

        resources.close_portal(portal).unwrap();
        resources.close_statement(statement).unwrap();
    });
}

#[test]
fn unnamed_resources_replace_the_previous_unnamed_resource() {
    with_resources(|mut resources| {
        let (obsolete, _) = resources
            .prepare(
                Bytes::new(),
                Bytes::new(),
                Bytes::from_static(b"select 1"),
                vec![],
            )
            .unwrap();
        let (replacement, _) = resources
            .prepare(
                Bytes::new(),
                Bytes::new(),
                Bytes::from_static(b"select 2"),
                vec![],
            )
            .expect("unnamed Parse replaces the prior unnamed statement");
        assert_eq!(
            resources
                .bind(
                    &obsolete,
                    Bytes::new(),
                    Bytes::new(),
                    vec![],
                    vec![],
                    vec![],
                )
                .unwrap_err(),
            ResourceError::UnknownStatement
        );

        let (_, _) = resources
            .bind(
                &replacement,
                Bytes::new(),
                Bytes::new(),
                vec![],
                vec![],
                vec![],
            )
            .unwrap();
        resources
            .bind(
                &replacement,
                Bytes::new(),
                Bytes::new(),
                vec![],
                vec![],
                vec![],
            )
            .expect("unnamed Bind replaces the prior unnamed portal");
    });
}

#[test]
fn protocol_boundaries_invalidate_unnamed_resource_tokens() {
    with_resources(|mut resources| {
        let (statement, _) = resources
            .prepare(
                Bytes::new(),
                Bytes::new(),
                Bytes::from_static(b"select 1"),
                vec![],
            )
            .unwrap();
        let (portal, _) = resources
            .bind(
                &statement,
                Bytes::new(),
                Bytes::new(),
                vec![],
                vec![],
                vec![],
            )
            .unwrap();

        resources.simple_query_boundary();
        assert_eq!(
            resources
                .bind(
                    &statement,
                    Bytes::from_static(b"p"),
                    Bytes::from_static(b"p"),
                    vec![],
                    vec![],
                    vec![],
                )
                .unwrap_err(),
            ResourceError::UnknownStatement
        );

        resources.transaction_ended();
        assert_eq!(
            resources.close_portal(portal).unwrap_err(),
            ResourceError::UnknownPortal
        );
    });
}

#[test]
fn live_names_are_not_replaced() {
    with_resources(|mut resources| {
        let (statement, _) = resources
            .prepare(
                Bytes::from_static(b"s"),
                Bytes::from_static(b"up"),
                Bytes::from_static(b"select 1"),
                vec![],
            )
            .unwrap();
        assert_eq!(
            resources
                .prepare(
                    Bytes::from_static(b"s"),
                    Bytes::from_static(b"other"),
                    Bytes::from_static(b"select 2"),
                    vec![],
                )
                .unwrap_err(),
            ResourceError::StatementNameCollision
        );
        resources
            .bind(
                &statement,
                Bytes::from_static(b"p"),
                Bytes::from_static(b"q"),
                vec![],
                vec![],
                vec![],
            )
            .unwrap();
        assert_eq!(
            resources
                .bind(
                    &statement,
                    Bytes::from_static(b"p"),
                    Bytes::from_static(b"r"),
                    vec![],
                    vec![],
                    vec![],
                )
                .unwrap_err(),
            ResourceError::PortalNameCollision
        );
        assert_eq!(
            ResourceError::PortalNameCollision.message(),
            "portal name collision"
        );
    });
}

#[test]
fn closed_statements_are_stale() {
    with_resources(|mut resources| {
        let (statement, _) = resources
            .prepare(
                Bytes::from_static(b"s"),
                Bytes::from_static(b"up"),
                Bytes::from_static(b"select 1"),
                vec![],
            )
            .unwrap();
        let stale = resources.statement(b"s").unwrap();
        resources.close_statement(statement).unwrap();
        assert_eq!(
            resources.close_statement(stale).unwrap_err(),
            ResourceError::UnknownStatement
        );
    });
}
