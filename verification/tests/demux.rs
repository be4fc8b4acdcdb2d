//! Separation of asynchronous backend traffic.

use bytes::Bytes;
use pg_proto::codec::{BackendMessage, DiagnosticField, DiagnosticResponse, TransactionStatus};
use pg_proto::demux::{
    AsyncEvent, CommandIndex, Demux, Notification, ParameterStatus, SessionItem, TaggedNotice,
};

#[test]
fn opaque_notices_are_asynchronous_events() {
    let mut demux = Demux::default();
    let notice = BackendMessage::OpaqueNotice(Bytes::from_static(b"?"));
    assert!(Demux::is_asynchronous(&notice));
    assert_eq!(demux.route(notice), None);
    assert_eq!(demux.pop_notice(), None);
    let event = demux.pop_async_event().unwrap();
    assert_eq!(event.command, CommandIndex(0));
    assert_eq!(
        event.event,
        AsyncEvent::OpaqueNotice(Bytes::from_static(b"?"))
    );
}

#[test]
fn notices_are_attached_to_their_command_boundary() {
    let mut demux = Demux::default();
    assert_eq!(
        demux.route(BackendMessage::NoticeResponse(DiagnosticResponse {
            fields: vec![DiagnosticField {
                code: b'M',
                value: Bytes::from_static(b"notice"),
            }],
        })),
        None
    );
    let completion = demux
        .route(BackendMessage::CommandComplete(Bytes::from_static(
            b"SELECT 1",
        )))
        .expect("command completion advances the session");
    assert_eq!(
        completion,
        SessionItem::CommandComplete {
            tag: Bytes::from_static(b"SELECT 1"),
            command: CommandIndex(0),
            notices: vec![TaggedNotice {
                command: CommandIndex(0),
                fields: DiagnosticResponse {
                    fields: vec![DiagnosticField {
                        code: b'M',
                        value: Bytes::from_static(b"notice"),
                    }],
                },
            }],
        }
    );
    assert_eq!(
        demux.pop_notice(),
        Some(TaggedNotice {
            command: CommandIndex(0),
            fields: DiagnosticResponse {
                fields: vec![DiagnosticField {
                    code: b'M',
                    value: Bytes::from_static(b"notice"),
                }],
            },
        })
    );
    assert_eq!(demux.pop_notice(), None);
}

#[test]
fn startup_parameters_establish_a_clean_baseline() {
    let mut demux = Demux::default();
    assert!(
        demux
            .route(BackendMessage::ParameterStatus {
                name: Bytes::from_static(b"client_encoding"),
                value: Bytes::from_static(b"UTF8"),
            })
            .is_none()
    );
    demux.route(BackendMessage::ReadyForQuery(TransactionStatus::Idle));
    assert!(!demux.parameters_changed());

    demux.route(BackendMessage::ParameterStatus {
        name: Bytes::from_static(b"client_encoding"),
        value: Bytes::from_static(b"LATIN1"),
    });
    assert!(demux.parameters_changed());
}

#[test]
fn parameter_statuses_remain_ordered_for_proxy_forwarding() {
    let mut demux = Demux::default();
    for (name, value) in [
        (b"TimeZone".as_slice(), b"UTC".as_slice()),
        (b"TimeZone", b"GMT"),
    ] {
        assert!(
            demux
                .route(BackendMessage::ParameterStatus {
                    name: Bytes::copy_from_slice(name),
                    value: Bytes::copy_from_slice(value),
                })
                .is_none()
        );
    }

    assert_eq!(
        demux.pop_parameter_status(),
        Some(ParameterStatus {
            name: Bytes::from_static(b"TimeZone"),
            value: Bytes::from_static(b"UTC"),
        })
    );
    assert_eq!(
        demux.pop_parameter_status(),
        Some(ParameterStatus {
            name: Bytes::from_static(b"TimeZone"),
            value: Bytes::from_static(b"GMT"),
        })
    );
    assert_eq!(demux.pop_parameter_status(), None);
    assert_eq!(
        demux.parameters().get(b"TimeZone".as_slice()),
        Some(&Bytes::from_static(b"GMT"))
    );
}

#[test]
fn notification_is_not_a_session_transition() {
    let mut demux = Demux::default();
    assert!(
        demux
            .route(BackendMessage::NotificationResponse {
                process_id: 42,
                channel: Bytes::from_static(b"events"),
                payload: Bytes::from_static(b"payload"),
            })
            .is_none()
    );
    assert_eq!(
        demux.pop_notification(),
        Some(Notification {
            process_id: 42,
            channel: Bytes::from_static(b"events"),
            payload: Bytes::from_static(b"payload"),
        })
    );
}

#[test]
fn asynchronous_events_preserve_cross_kind_wire_order() {
    let mut demux = Demux::default();
    demux.route(BackendMessage::ParameterStatus {
        name: Bytes::from_static(b"TimeZone"),
        value: Bytes::from_static(b"UTC"),
    });
    demux.route(BackendMessage::NotificationResponse {
        process_id: 7,
        channel: Bytes::from_static(b"jobs"),
        payload: Bytes::from_static(b"ready"),
    });
    demux.route(BackendMessage::NoticeResponse(DiagnosticResponse {
        fields: vec![],
    }));

    let events = std::iter::from_fn(|| demux.pop_async_event()).collect::<Vec<_>>();
    assert_eq!(events.len(), 3);
    assert_eq!(events[0].sequence, 0);
    assert!(matches!(events[0].event, AsyncEvent::ParameterStatus(_)));
    assert_eq!(events[1].sequence, 1);
    assert!(matches!(events[1].event, AsyncEvent::Notification(_)));
    assert_eq!(events[2].sequence, 2);
    assert!(matches!(events[2].event, AsyncEvent::Notice(_)));
    assert!(events.iter().all(|event| event.command == CommandIndex(0)));
}

#[test]
fn command_boundaries_are_counted() {
    let mut demux = Demux::default();
    let complete = |demux: &mut Demux| {
        demux.route(BackendMessage::CommandComplete(Bytes::from_static(b"SET")))
    };
    for expected in 0..3 {
        let Some(SessionItem::CommandComplete {
            command, notices, ..
        }) = complete(&mut demux)
        else {
            panic!("a completion is an item")
        };
        assert_eq!(command, CommandIndex(expected));
        assert!(notices.is_empty());
    }
}

#[test]
fn keys_and_readiness_are_recorded() {
    let mut demux = Demux::new();
    assert!(demux.cancel_key().is_none());
    assert_eq!(demux.transaction_status(), None);
    let key = BackendMessage::BackendKeyData {
        process_id: 3,
        secret_key: Bytes::from_static(b"abcd"),
    };
    assert_eq!(demux.route(key.clone()), Some(SessionItem::Message(key)));
    assert_eq!(
        demux.route(BackendMessage::ReadyForQuery(
            TransactionStatus::FailedTransaction
        )),
        Some(SessionItem::ReadyForQuery {
            status: TransactionStatus::FailedTransaction,
            parameters_changed: false,
        })
    );
    assert_eq!(demux.cancel_key().unwrap().process_id, 3);
    assert_eq!(
        demux.transaction_status(),
        Some(TransactionStatus::FailedTransaction)
    );
}

#[test]
fn items_stand_for_their_messages() {
    let item = SessionItem::CommandComplete {
        tag: Bytes::from_static(b"SELECT 1"),
        command: CommandIndex(4),
        notices: vec![],
    };
    let expected = BackendMessage::CommandComplete(Bytes::from_static(b"SELECT 1"));
    assert_eq!(item.as_backend_message(), expected);
    assert_eq!(item.into_backend_message(), expected);
}
