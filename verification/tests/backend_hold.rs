//! Held backend messages.

use bytes::Bytes;
use pg_proto::backend_hold::BackendHold;
use pg_proto::codec::{BackendMessage, DataRow};

fn row(value: &'static [u8]) -> BackendMessage {
    BackendMessage::DataRow(DataRow {
        columns: vec![Some(Bytes::from_static(value))],
    })
}

#[test]
fn pending_moves_into_ordered_accounted_hold() {
    let mut hold = BackendHold::default();
    hold.set_pending(row(b"one"));
    assert_eq!(hold.pending(), Some(&row(b"one")));
    hold.hold_pending();
    hold.set_pending(row(b"two"));
    hold.hold_pending();
    assert_eq!(hold.len(), 2);
    assert!(hold.bytes() > 0);
    assert_eq!(hold.clear(), vec![row(b"one"), row(b"two")]);
    assert!(hold.is_empty());
    assert_eq!(hold.bytes(), 0);
}

#[test]
fn retained_size_is_that_of_the_frames() {
    let mut hold = BackendHold::new();
    hold.set_pending(row(b"one"));
    hold.hold_pending();
    // Tag and length, column count, value length, value.
    assert_eq!(hold.bytes(), 5 + 2 + 4 + 3);
    assert_eq!(hold.take_pending(), None);
}
