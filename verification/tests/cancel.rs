//! Cancellation keys.

use bytes::Bytes;
use pg_proto::cancel::{CancelKeyMap, CancelKeyRegistry, CancellationRequest, RegisterError};
use pg_proto::demux::CancelKey;

#[test]
fn maps_variable_length_client_keys_without_overwriting_collisions() {
    let client = CancelKey {
        process_id: 7,
        secret_key: Bytes::from(vec![0xAA; 32]),
    };
    let upstream = CancelKey {
        process_id: 42,
        secret_key: Bytes::from_static(b"upstream"),
    };
    let mut map = CancelKeyMap::new();
    map.register(client.clone(), upstream.clone()).unwrap();

    assert!(map.resolve(7, &[0xAA; 32]) == Some(&upstream));
    assert_eq!(
        map.register(client.clone(), upstream.clone()),
        Err(RegisterError::ClientKeyCollision)
    );
    assert!(map.remove(&client) == Some(upstream));
    assert!(map.is_empty());
}

#[test]
fn rejects_keys_which_cannot_be_encoded_as_cancel_requests() {
    let mut map = CancelKeyMap::new();
    let client = CancelKey {
        process_id: 1,
        secret_key: Bytes::from_static(b"bad"),
    };
    let upstream = CancelKey {
        process_id: 2,
        secret_key: Bytes::from_static(b"valid"),
    };
    assert_eq!(
        map.register(client, upstream),
        Err(RegisterError::InvalidClientKeyLength(3))
    );
}

#[test]
fn reference_map_can_be_used_through_the_policy_hook() {
    let client = CancelKey {
        process_id: 11,
        secret_key: Bytes::from_static(b"client"),
    };
    let upstream = CancelKey {
        process_id: 22,
        secret_key: Bytes::from_static(b"server"),
    };
    let registry: &mut dyn CancelKeyRegistry<Error = RegisterError> = &mut CancelKeyMap::new();

    registry
        .register_cancel_key(client.clone(), upstream.clone())
        .unwrap();
    assert!(registry.resolve_cancel_key(&client) == Some(upstream.clone()));
    assert!(registry.remove_cancel_key(&client) == Some(upstream));
}

#[test]
fn upstream_keys_are_bounded_too() {
    let mut map = CancelKeyMap::new();
    let client = CancelKey {
        process_id: 1,
        secret_key: Bytes::from_static(b"good"),
    };
    let upstream = CancelKey {
        process_id: 2,
        secret_key: Bytes::from(vec![1; 257]),
    };
    assert_eq!(
        map.register(client, upstream),
        Err(RegisterError::InvalidUpstreamKeyLength(257))
    );
    assert_eq!(map.len(), 0);
}

#[test]
fn removal_undoes_registration_only_for_its_key() {
    let key = |process_id: u32| CancelKey {
        process_id,
        secret_key: Bytes::from_static(b"secret"),
    };
    let mut map = CancelKeyMap::new();
    map.register(key(1), key(10)).unwrap();
    map.register(key(2), key(20)).unwrap();
    assert!(map.remove(&key(1)) == Some(key(10)));
    assert!(map.remove(&key(1)).is_none());
    assert!(map.resolve(2, b"secret") == Some(&key(20)));
}

#[test]
fn a_cancellation_request_carries_the_presented_key() {
    let request = CancellationRequest::new(CancelKey {
        process_id: 5,
        secret_key: Bytes::from_static(b"abcd"),
    });
    assert_eq!(request.process_id(), 5);
    assert_eq!(request.secret_key(), b"abcd");
    assert_eq!(request.into_key().process_id, 5);
}
