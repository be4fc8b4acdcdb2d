//! Physical replication messages.

use bytes::{BufMut, Bytes, BytesMut};
use pg_proto::replication::{BackendReplication, FrontendReplication, ReplicationError};

#[test]
fn physical_replication_messages_round_trip() {
    let backend = [
        BackendReplication::XLogData {
            wal_start: 10,
            wal_end: 20,
            server_time: -30,
            data: Bytes::from_static(b"wal"),
        },
        BackendReplication::PrimaryKeepalive {
            wal_end: 40,
            server_time: 50,
            reply_requested: true,
        },
        BackendReplication::Unknown {
            tag: b'z',
            body: Bytes::from_static(b"extension"),
        },
    ];
    for message in backend {
        assert_eq!(
            BackendReplication::decode(message.encode()).unwrap(),
            message
        );
    }

    let frontend = [
        FrontendReplication::StandbyStatus {
            written: 10,
            flushed: 20,
            applied: 30,
            client_time: 40,
            reply_requested: false,
        },
        FrontendReplication::HotStandbyFeedback {
            client_time: 50,
            xmin: 60,
            xmin_epoch: 70,
            catalog_xmin: 80,
            catalog_xmin_epoch: 90,
        },
        FrontendReplication::Unknown {
            tag: b'z',
            body: Bytes::from_static(b"extension"),
        },
    ];
    for message in frontend {
        assert_eq!(
            FrontendReplication::decode(message.encode()).unwrap(),
            message
        );
    }
}

#[test]
fn known_messages_reject_invalid_shapes() {
    assert!(BackendReplication::decode(Bytes::from_static(b"kshort")).is_err());
    let mut invalid_bool = BytesMut::new();
    invalid_bool.put_u8(b'k');
    invalid_bool.extend_from_slice(&[0; 16]);
    invalid_bool.put_u8(2);
    assert!(BackendReplication::decode(invalid_bool.freeze()).is_err());
}

#[test]
fn replication_layout_is_exact() {
    assert_eq!(
        BackendReplication::PrimaryKeepalive {
            wal_end: 1,
            server_time: -1,
            reply_requested: true,
        }
        .encode(),
        Bytes::from_static(b"k\0\0\0\0\0\0\0\x01\xff\xff\xff\xff\xff\xff\xff\xff\x01")
    );
    assert_eq!(
        FrontendReplication::Unknown {
            tag: b'z',
            body: Bytes::from_static(b"rest"),
        }
        .encode(),
        Bytes::from_static(b"zrest")
    );
}

#[test]
fn empty_replication_messages_are_refused() {
    let error: ReplicationError = BackendReplication::decode(Bytes::new()).unwrap_err();
    assert_eq!(FrontendReplication::decode(Bytes::new()).unwrap_err(), error);
}

#[test]
fn each_malformed_payload_is_named() {
    let backend = |payload: &'static [u8]| {
        BackendReplication::decode(Bytes::from_static(payload)).unwrap_err()
    };
    let frontend = |payload: &'static [u8]| {
        FrontendReplication::decode(Bytes::from_static(payload)).unwrap_err()
    };
    assert_eq!(backend(b""), ReplicationError::EmptyPayload);
    assert_eq!(backend(b"wshort"), ReplicationError::TruncatedXLogData);
    assert_eq!(backend(b"kshort"), ReplicationError::KeepaliveLength);
    assert_eq!(frontend(b"rshort"), ReplicationError::StandbyStatusLength);
    assert_eq!(frontend(b"hshort"), ReplicationError::FeedbackLength);
    assert_eq!(
        backend(b"k0123456789abcdef\x02"),
        ReplicationError::InvalidBoolean
    );
    assert_eq!(
        ReplicationError::TruncatedXLogData.message(),
        "truncated XLogData"
    );
}
