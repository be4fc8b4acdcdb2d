//! Typed payloads carried inside walsender `CopyData` messages.

use bytes::Bytes;
use vstd::prelude::*;

use crate::codec::layout::{law_network_order, number};
use crate::error::ErrorKind;
use crate::octets::{as_slice, from_vec, octets, split_to};
use crate::wire::{
    append, be32, be64, lemma_be32, lemma_be64, lemma_of32, lemma_of64, lemma_signed, of32, of64,
    u32_at, u64_at, write_u32, write_u64,
};

verus! {

pub const X_LOG_DATA: u8 = 0x77;

pub const PRIMARY_KEEPALIVE: u8 = 0x6b;

pub const STANDBY_STATUS: u8 = 0x72;

pub const HOT_STANDBY_FEEDBACK: u8 = 0x68;

/// Reason why a replication payload was rejected.
#[derive(Clone, Copy, Debug, PartialEq, Eq, Structural)]
pub enum ReplicationError {
    EmptyPayload,
    TruncatedXLogData,
    KeepaliveLength,
    StandbyStatusLength,
    FeedbackLength,
    /// A Boolean octet is neither zero nor one.
    InvalidBoolean,
}

impl ReplicationError {
    /// Description of this error.
    pub open spec fn text(self) -> Seq<char> {
        match self {
            ReplicationError::EmptyPayload => "empty replication payload"@,
            ReplicationError::TruncatedXLogData => "truncated XLogData"@,
            ReplicationError::KeepaliveLength => "invalid primary keepalive length"@,
            ReplicationError::StandbyStatusLength => "invalid standby status length"@,
            ReplicationError::FeedbackLength => "invalid hot standby feedback length"@,
            ReplicationError::InvalidBoolean => "invalid replication Boolean"@,
        }
    }

    /// Description of this error.
    pub fn message(&self) -> (message: &'static str)
        ensures
            message@ == self.text(),
    {
        match *self {
            ReplicationError::EmptyPayload => "empty replication payload",
            ReplicationError::TruncatedXLogData => "truncated XLogData",
            ReplicationError::KeepaliveLength => "invalid primary keepalive length",
            ReplicationError::StandbyStatusLength => "invalid standby status length",
            ReplicationError::FeedbackLength => "invalid hot standby feedback length",
            ReplicationError::InvalidBoolean => "invalid replication Boolean",
        }
    }

    /// Every rejected payload is malformed data.
    pub fn kind(&self) -> (kind: ErrorKind)
        ensures
            kind == ErrorKind::InvalidData,
    {
        ErrorKind::InvalidData
    }
}

/// A typed payload sent by a walsender inside backend `CopyData`.
#[derive(Clone, Debug, PartialEq, Eq)]
pub enum BackendReplication {
    /// A range of write-ahead log data.
    XLogData {
        /// WAL position of the first byte in `data`.
        wal_start: u64,
        /// Current end of WAL on the server.
        wal_end: u64,
        /// Server clock as microseconds since 2000-01-01 UTC.
        server_time: i64,
        /// WAL bytes.
        data: Bytes,
    },
    /// A primary keepalive message.
    PrimaryKeepalive {
        /// Current end of WAL on the server.
        wal_end: u64,
        /// Server clock as microseconds since 2000-01-01 UTC.
        server_time: i64,
        /// Whether the server requests an immediate status reply.
        reply_requested: bool,
    },
    /// An extension payload whose tag is not recognised by this crate.
    Unknown {
        /// Replication sub-message tag.
        tag: u8,
        /// Bytes following the tag.
        body: Bytes,
    },
}

/// A typed payload sent by a standby inside frontend `CopyData`.
#[derive(Clone, Debug, PartialEq, Eq)]
pub enum FrontendReplication {
    /// The standby's WAL receipt, flush, and replay positions.
    StandbyStatus {
        /// Last WAL position written locally.
        written: u64,
        /// Last WAL position flushed durably.
        flushed: u64,
        /// Last WAL position applied during replay.
        applied: u64,
        /// Client clock as microseconds since 2000-01-01 UTC.
        client_time: i64,
        /// Whether the standby requests an immediate keepalive reply.
        reply_requested: bool,
    },
    /// Transaction horizons used to prevent premature vacuuming on the primary.
    HotStandbyFeedback {
        /// Client clock as microseconds since 2000-01-01 UTC.
        client_time: i64,
        /// Oldest transaction identifier still needed by the standby.
        xmin: u32,
        /// Epoch disambiguating wraparound of `xmin`.
        xmin_epoch: u32,
        /// Oldest catalog transaction identifier still needed by the standby.
        catalog_xmin: u32,
        /// Epoch disambiguating wraparound of `catalog_xmin`.
        catalog_xmin_epoch: u32,
    },
    /// An extension payload whose tag is not recognised by this crate.
    Unknown {
        /// Replication sub-message tag.
        tag: u8,
        /// Bytes following the tag.
        body: Bytes,
    },
}

/// What a backend payload says.
#[verifier::ext_equal]
pub enum BackendReplicationView {
    XLogData { wal_start: u64, wal_end: u64, server_time: i64, data: Seq<u8> },
    PrimaryKeepalive { wal_end: u64, server_time: i64, reply_requested: bool },
    Unknown { tag: u8, body: Seq<u8> },
}

/// What a frontend payload says.
#[verifier::ext_equal]
pub enum FrontendReplicationView {
    StandbyStatus {
        written: u64,
        flushed: u64,
        applied: u64,
        client_time: i64,
        reply_requested: bool,
    },
    HotStandbyFeedback {
        client_time: i64,
        xmin: u32,
        xmin_epoch: u32,
        catalog_xmin: u32,
        catalog_xmin_epoch: u32,
    },
    Unknown { tag: u8, body: Seq<u8> },
}

impl View for BackendReplication {
    type V = BackendReplicationView;

    open spec fn view(&self) -> BackendReplicationView {
        match *self {
            BackendReplication::XLogData { wal_start, wal_end, server_time, data } => {
                BackendReplicationView::XLogData {
                    wal_start,
                    wal_end,
                    server_time,
                    data: octets(data),
                }
            },
            BackendReplication::PrimaryKeepalive { wal_end, server_time, reply_requested } => {
                BackendReplicationView::PrimaryKeepalive { wal_end, server_time, reply_requested }
            },
            BackendReplication::Unknown { tag, body } => BackendReplicationView::Unknown {
                tag,
                body: octets(body),
            },
        }
    }
}

impl View for FrontendReplication {
    type V = FrontendReplicationView;

    open spec fn view(&self) -> FrontendReplicationView {
        match *self {
            FrontendReplication::StandbyStatus {
                written,
                flushed,
                applied,
                client_time,
                reply_requested,
            } => FrontendReplicationView::StandbyStatus {
                written,
                flushed,
                applied,
                client_time,
                reply_requested,
            },
            FrontendReplication::HotStandbyFeedback {
                client_time,
                xmin,
                xmin_epoch,
                catalog_xmin,
                catalog_xmin_epoch,
            } => FrontendReplicationView::HotStandbyFeedback {
                client_time,
                xmin,
                xmin_epoch,
                catalog_xmin,
                catalog_xmin_epoch,
            },
            FrontendReplication::Unknown { tag, body } => FrontendReplicationView::Unknown {
                tag,
                body: octets(body),
            },
        }
    }
}

pub open spec fn boolean_octet(value: bool) -> Seq<u8> {
    seq![
        if value {
            1u8
        } else {
            0u8
        },
    ]
}

/// Octets of a backend payload.
pub open spec fn backend_octets(message: BackendReplicationView) -> Seq<u8> {
    match message {
        BackendReplicationView::XLogData { wal_start, wal_end, server_time, data } => {
            seq![X_LOG_DATA] + (be64(wal_start) + (be64(wal_end) + (be64(server_time as u64)
                + data)))
        },
        BackendReplicationView::PrimaryKeepalive { wal_end, server_time, reply_requested } => {
            seq![PRIMARY_KEEPALIVE] + (be64(wal_end) + (be64(server_time as u64) + boolean_octet(
                reply_requested,
            )))
        },
        BackendReplicationView::Unknown { tag, body } => seq![tag] + body,
    }
}

/// Octets of a frontend payload.
pub open spec fn frontend_octets(message: FrontendReplicationView) -> Seq<u8> {
    match message {
        FrontendReplicationView::StandbyStatus {
            written,
            flushed,
            applied,
            client_time,
            reply_requested,
        } => seq![STANDBY_STATUS] + (be64(written) + (be64(flushed) + (be64(applied) + (be64(
            client_time as u64,
        ) + boolean_octet(reply_requested))))),
        FrontendReplicationView::HotStandbyFeedback {
            client_time,
            xmin,
            xmin_epoch,
            catalog_xmin,
            catalog_xmin_epoch,
        } => seq![HOT_STANDBY_FEEDBACK] + (be64(client_time as u64) + (be32(xmin) + (be32(
            xmin_epoch,
        ) + (be32(catalog_xmin) + be32(catalog_xmin_epoch))))),
        FrontendReplicationView::Unknown { tag, body } => seq![tag] + body,
    }
}

pub open spec fn boolean_of(octet: u8) -> Result<bool, ReplicationError> {
    if octet == 0 {
        Ok(false)
    } else if octet == 1 {
        Ok(true)
    } else {
        Err(ReplicationError::InvalidBoolean)
    }
}

/// What the octets of a backend payload say.
pub open spec fn backend_payload(payload: Seq<u8>) -> Result<
    BackendReplicationView,
    ReplicationError,
> {
    let body = payload.skip(1);
    if payload.len() == 0 {
        Err(ReplicationError::EmptyPayload)
    } else if payload[0] == X_LOG_DATA {
        if body.len() < 24 {
            Err(ReplicationError::TruncatedXLogData)
        } else {
            Ok(
                BackendReplicationView::XLogData {
                    wal_start: of64(body),
                    wal_end: of64(body.skip(8)),
                    server_time: of64(body.skip(8).skip(8)) as i64,
                    data: body.skip(8).skip(8).skip(8),
                },
            )
        }
    } else if payload[0] == PRIMARY_KEEPALIVE {
        if body.len() != 17 {
            Err(ReplicationError::KeepaliveLength)
        } else {
            match boolean_of(body.skip(8).skip(8)[0]) {
                Ok(reply_requested) => Ok(
                    BackendReplicationView::PrimaryKeepalive {
                        wal_end: of64(body),
                        server_time: of64(body.skip(8)) as i64,
                        reply_requested,
                    },
                ),
                Err(error) => Err(error),
            }
        }
    } else {
        Ok(BackendReplicationView::Unknown { tag: payload[0], body })
    }
}

/// What the octets of a frontend payload say.
pub open spec fn frontend_payload(payload: Seq<u8>) -> Result<
    FrontendReplicationView,
    ReplicationError,
> {
    let body = payload.skip(1);
    if payload.len() == 0 {
        Err(ReplicationError::EmptyPayload)
    } else if payload[0] == STANDBY_STATUS {
        if body.len() != 33 {
            Err(ReplicationError::StandbyStatusLength)
        } else {
            match boolean_of(body.skip(8).skip(8).skip(8).skip(8)[0]) {
                Ok(reply_requested) => Ok(
                    FrontendReplicationView::StandbyStatus {
                        written: of64(body),
                        flushed: of64(body.skip(8)),
                        applied: of64(body.skip(8).skip(8)),
                        client_time: of64(body.skip(8).skip(8).skip(8)) as i64,
                        reply_requested,
                    },
                ),
                Err(error) => Err(error),
            }
        }
    } else if payload[0] == HOT_STANDBY_FEEDBACK {
        if body.len() != 24 {
            Err(ReplicationError::FeedbackLength)
        } else {
            let horizons = body.skip(8);
            Ok(
                FrontendReplicationView::HotStandbyFeedback {
                    client_time: of64(body) as i64,
                    xmin: of32(horizons),
                    xmin_epoch: of32(horizons.skip(4)),
                    catalog_xmin: of32(horizons.skip(4).skip(4)),
                    catalog_xmin_epoch: of32(horizons.skip(4).skip(4).skip(4)),
                },
            )
        }
    } else {
        Ok(FrontendReplicationView::Unknown { tag: payload[0], body })
    }
}

fn take_bool(value: u8) -> (result: Result<bool, ReplicationError>)
    ensures
        result == boolean_of(value),
{
    if value == 0 {
        Ok(false)
    } else if value == 1 {
        Ok(true)
    } else {
        Err(ReplicationError::InvalidBoolean)
    }
}

/// What follows the first `count` octets.
fn after(payload: Bytes, count: usize) -> (rest: Bytes)
    requires
        count <= octets(payload).len(),
    ensures
        octets(rest) == octets(payload).skip(count as int),
{
    let mut rest = payload;
    let _ = split_to(&mut rest, count);
    rest
}

proof fn lemma_skips(payload: Seq<u8>)
    requires
        payload.len() > 0,
    ensures
        forall|first: int, second: int|
            0 <= first && 0 <= second && first + second <= payload.len() ==> #[trigger] payload.skip(
                first,
            ).skip(second) == payload.skip(first + second),
{
    assert forall|first: int, second: int|
        0 <= first && 0 <= second && first + second
            <= payload.len() implies #[trigger] payload.skip(first).skip(second) == payload.skip(
        first + second,
    ) by {
        assert(payload.skip(first).skip(second) =~= payload.skip(first + second));
    }
}

impl BackendReplication {
    /// Decodes a backend walsender payload while preserving extension messages.
    ///
    /// # Errors
    ///
    /// Returns an error for a truncated known message or an invalid Boolean byte.
    pub fn decode(payload: Bytes) -> (result: Result<Self, ReplicationError>)
        ensures
            match result {
                Ok(message) => backend_payload(octets(payload)) == Ok::<_, ReplicationError>(
                    message@,
                ),
                Err(error) => backend_payload(octets(payload)) == Err::<BackendReplicationView, _>(
                    error,
                ),
            },
    {
        let slice = as_slice(&payload);
        let length: usize = slice.len();
        if length == 0 {
            return Err(ReplicationError::EmptyPayload);
        }
        proof {
            lemma_skips(slice@);
        }
        let tag: u8 = slice[0];
        if tag == X_LOG_DATA {
            if length < 25 {
                return Err(ReplicationError::TruncatedXLogData);
            }
            let wal_start: u64 = u64_at(slice, 1);
            let wal_end: u64 = u64_at(slice, 9);
            let server_time: i64 = u64_at(slice, 17) as i64;
            Ok(
                BackendReplication::XLogData {
                    wal_start,
                    wal_end,
                    server_time,
                    data: after(payload, 25),
                },
            )
        } else if tag == PRIMARY_KEEPALIVE {
            if length != 18 {
                return Err(ReplicationError::KeepaliveLength);
            }
            let reply_requested: bool = take_bool(slice[17])?;
            Ok(
                BackendReplication::PrimaryKeepalive {
                    wal_end: u64_at(slice, 1),
                    server_time: u64_at(slice, 9) as i64,
                    reply_requested,
                },
            )
        } else {
            Ok(BackendReplication::Unknown { tag, body: after(payload, 1) })
        }
    }

    /// Encodes this value as a backend replication sub-message.
    #[must_use]
    pub fn encode(&self) -> (payload: Bytes)
        ensures
            octets(payload) == backend_octets(self@),
    {
        let mut output: Vec<u8> = Vec::new();
        match self {
            BackendReplication::XLogData { wal_start, wal_end, server_time, data } => {
                output.push(X_LOG_DATA);
                write_u64(&mut output, *wal_start);
                write_u64(&mut output, *wal_end);
                write_u64(&mut output, *server_time as u64);
                append(&mut output, as_slice(data));
            },
            BackendReplication::PrimaryKeepalive { wal_end, server_time, reply_requested } => {
                output.push(PRIMARY_KEEPALIVE);
                write_u64(&mut output, *wal_end);
                write_u64(&mut output, *server_time as u64);
                output.push(
                    if *reply_requested {
                        1
                    } else {
                        0
                    },
                );
            },
            BackendReplication::Unknown { tag, body } => {
                output.push(*tag);
                append(&mut output, as_slice(body));
            },
        }
        assert(output@ =~= backend_octets(self@));
        from_vec(output)
    }
}

impl FrontendReplication {
    /// Decodes a standby payload while preserving extension messages.
    ///
    /// # Errors
    ///
    /// Returns an error for a truncated known message or an invalid Boolean byte.
    pub fn decode(payload: Bytes) -> (result: Result<Self, ReplicationError>)
        ensures
            match result {
                Ok(message) => frontend_payload(octets(payload)) == Ok::<_, ReplicationError>(
                    message@,
                ),
                Err(error) => frontend_payload(octets(payload)) == Err::<
                    FrontendReplicationView,
                    _,
                >(error),
            },
    {
        let slice = as_slice(&payload);
        let length: usize = slice.len();
        if length == 0 {
            return Err(ReplicationError::EmptyPayload);
        }
        proof {
            lemma_skips(slice@);
        }
        let tag: u8 = slice[0];
        if tag == STANDBY_STATUS {
            if length != 34 {
                return Err(ReplicationError::StandbyStatusLength);
            }
            let reply_requested: bool = take_bool(slice[33])?;
            Ok(
                FrontendReplication::StandbyStatus {
                    written: u64_at(slice, 1),
                    flushed: u64_at(slice, 9),
                    applied: u64_at(slice, 17),
                    client_time: u64_at(slice, 25) as i64,
                    reply_requested,
                },
            )
        } else if tag == HOT_STANDBY_FEEDBACK {
            if length != 25 {
                return Err(ReplicationError::FeedbackLength);
            }
            Ok(
                FrontendReplication::HotStandbyFeedback {
                    client_time: u64_at(slice, 1) as i64,
                    xmin: u32_at(slice, 9),
                    xmin_epoch: u32_at(slice, 13),
                    catalog_xmin: u32_at(slice, 17),
                    catalog_xmin_epoch: u32_at(slice, 21),
                },
            )
        } else {
            Ok(FrontendReplication::Unknown { tag, body: after(payload, 1) })
        }
    }

    /// Encodes this value as a frontend replication sub-message.
    #[must_use]
    pub fn encode(&self) -> (payload: Bytes)
        ensures
            octets(payload) == frontend_octets(self@),
    {
        let mut output: Vec<u8> = Vec::new();
        match self {
            FrontendReplication::StandbyStatus {
                written,
                flushed,
                applied,
                client_time,
                reply_requested,
            } => {
                output.push(STANDBY_STATUS);
                write_u64(&mut output, *written);
                write_u64(&mut output, *flushed);
                write_u64(&mut output, *applied);
                write_u64(&mut output, *client_time as u64);
                output.push(
                    if *reply_requested {
                        1
                    } else {
                        0
                    },
                );
            },
            FrontendReplication::HotStandbyFeedback {
                client_time,
                xmin,
                xmin_epoch,
                catalog_xmin,
                catalog_xmin_epoch,
            } => {
                output.push(HOT_STANDBY_FEEDBACK);
                write_u64(&mut output, *client_time as u64);
                write_u32(&mut output, *xmin);
                write_u32(&mut output, *xmin_epoch);
                write_u32(&mut output, *catalog_xmin);
                write_u32(&mut output, *catalog_xmin_epoch);
            },
            FrontendReplication::Unknown { tag, body } => {
                output.push(*tag);
                append(&mut output, as_slice(body));
            },
        }
        assert(output@ =~= frontend_octets(self@));
        from_vec(output)
    }
}

/// Whether an extension payload has a tag of its own.
pub open spec fn backend_distinct(message: BackendReplicationView) -> bool {
    message matches BackendReplicationView::Unknown { tag, .. } ==> tag != X_LOG_DATA && tag
        != PRIMARY_KEEPALIVE
}

/// Whether an extension payload has a tag of its own.
pub open spec fn frontend_distinct(message: FrontendReplicationView) -> bool {
    message matches FrontendReplicationView::Unknown { tag, .. } ==> tag != STANDBY_STATUS && tag
        != HOT_STANDBY_FEEDBACK
}

/// Every backend payload is read back as it was written.
pub proof fn law_backend_replication_round_trip(message: BackendReplicationView)
    requires
        backend_distinct(message),
    ensures
        backend_payload(backend_octets(message)) == Ok::<_, ReplicationError>(message),
{
    lemma_signed();
    let payload = backend_octets(message);
    match message {
        BackendReplicationView::XLogData { wal_start, wal_end, server_time, data } => {
            let last = be64(server_time as u64) + data;
            lemma_be64(wal_start, be64(wal_end) + last);
            lemma_be64(wal_end, last);
            lemma_be64(server_time as u64, data);
            assert(payload.skip(1) =~= be64(wal_start) + (be64(wal_end) + last));
        },
        BackendReplicationView::PrimaryKeepalive { wal_end, server_time, reply_requested } => {
            let last = boolean_octet(reply_requested);
            lemma_be64(wal_end, be64(server_time as u64) + last);
            lemma_be64(server_time as u64, last);
            assert(payload.skip(1) =~= be64(wal_end) + (be64(server_time as u64) + last));
        },
        BackendReplicationView::Unknown { tag, body } => {
            assert(payload.skip(1) =~= body);
        },
    }
}

/// Every frontend payload is read back as it was written.
pub proof fn law_frontend_replication_round_trip(message: FrontendReplicationView)
    requires
        frontend_distinct(message),
    ensures
        frontend_payload(frontend_octets(message)) == Ok::<_, ReplicationError>(message),
{
    lemma_signed();
    let payload = frontend_octets(message);
    match message {
        FrontendReplicationView::StandbyStatus {
            written,
            flushed,
            applied,
            client_time,
            reply_requested,
        } => {
            let r4 = boolean_octet(reply_requested);
            let r3 = be64(client_time as u64) + r4;
            let r2 = be64(applied) + r3;
            let r1 = be64(flushed) + r2;
            lemma_be64(written, r1);
            lemma_be64(flushed, r2);
            lemma_be64(applied, r3);
            lemma_be64(client_time as u64, r4);
            assert(payload.skip(1) =~= be64(written) + r1);
        },
        FrontendReplicationView::HotStandbyFeedback {
            client_time,
            xmin,
            xmin_epoch,
            catalog_xmin,
            catalog_xmin_epoch,
        } => {
            let r4 = be32(catalog_xmin_epoch);
            let r3 = be32(catalog_xmin) + r4;
            let r2 = be32(xmin_epoch) + r3;
            let r1 = be32(xmin) + r2;
            lemma_be64(client_time as u64, r1);
            lemma_be32(xmin, r2);
            lemma_be32(xmin_epoch, r3);
            lemma_be32(catalog_xmin, r4);
            lemma_be32(catalog_xmin_epoch, Seq::empty());
            assert(r4 + Seq::<u8>::empty() =~= r4);
            assert(payload.skip(1) =~= be64(client_time as u64) + r1);
        },
        FrontendReplicationView::Unknown { tag, body } => {
            assert(payload.skip(1) =~= body);
        },
    }
}

/// A backend payload that can be read is written as the same octets.
pub proof fn law_backend_replication_lossless(payload: Seq<u8>)
    ensures
        backend_payload(payload) matches Ok(message) ==> backend_octets(message) == payload,
{
    lemma_signed();
    if let Ok(message) = backend_payload(payload) {
        let body = payload.skip(1);
        assert(seq![payload[0]] + body =~= payload);
        if payload[0] == X_LOG_DATA {
            lemma_of64(body);
            lemma_of64(body.skip(8));
            lemma_of64(body.skip(8).skip(8));
        } else if payload[0] == PRIMARY_KEEPALIVE {
            lemma_of64(body);
            lemma_of64(body.skip(8));
            assert(body.skip(8).skip(8) =~= seq![body.skip(8).skip(8)[0]]);
        }
    }
}

/// A frontend payload that can be read is written as the same octets.
pub proof fn law_frontend_replication_lossless(payload: Seq<u8>)
    ensures
        frontend_payload(payload) matches Ok(message) ==> frontend_octets(message) == payload,
{
    lemma_signed();
    if let Ok(message) = frontend_payload(payload) {
        let body = payload.skip(1);
        assert(seq![payload[0]] + body =~= payload);
        if payload[0] == STANDBY_STATUS {
            let last = body.skip(8).skip(8).skip(8);
            lemma_of64(body);
            lemma_of64(body.skip(8));
            lemma_of64(body.skip(8).skip(8));
            lemma_of64(last);
            assert(last.skip(8) =~= seq![last.skip(8)[0]]);
        } else if payload[0] == HOT_STANDBY_FEEDBACK {
            let horizons = body.skip(8);
            let last = horizons.skip(4).skip(4).skip(4);
            lemma_of64(body);
            lemma_of32(horizons);
            lemma_of32(horizons.skip(4));
            lemma_of32(horizons.skip(4).skip(4));
            lemma_of32(last);
            assert(last.skip(4) =~= Seq::empty());
            assert(be32(of32(last)) + Seq::<u8>::empty() =~= be32(of32(last)));
        }
    }
}

/// A signed number in two's complement of 64 bits.
pub open spec fn unsigned64(value: i64) -> int {
    if value < 0 {
        value + 0x1_0000_0000_0000_0000
    } else {
        value as int
    }
}

proof fn lemma_unsigned64(value: i64)
    ensures
        value as u64 == unsigned64(value),
{
    assert(value < 0 ==> value as u64 == value + 0x1_0000_0000_0000_0000) by (bit_vector);
    assert(value >= 0 ==> value as u64 == value) by (bit_vector);
}

/// Where the parts of a backend's replication payload stand: log data behind the start
/// and the end of the log and the server's time, and a keepalive as the end of the log,
/// the server's time and whether a reply is wanted.
pub proof fn law_backend_replication_layout(message: BackendReplicationView)
    ensures
        ({
            let octets = backend_octets(message);
            match message {
                BackendReplicationView::XLogData { wal_start, wal_end, server_time, data } => {
                    &&& octets[0] == 0x77
                    &&& number(octets.subrange(1, 9)) == wal_start
                    &&& number(octets.subrange(9, 17)) == wal_end
                    &&& number(octets.subrange(17, 25)) == unsigned64(server_time)
                    &&& octets.skip(25) == data
                    &&& octets.len() == 25 + data.len()
                },
                BackendReplicationView::PrimaryKeepalive { wal_end, server_time, reply_requested } => {
                    &&& octets.len() == 18
                    &&& octets[0] == 0x6b
                    &&& number(octets.subrange(1, 9)) == wal_end
                    &&& number(octets.subrange(9, 17)) == unsigned64(server_time)
                    &&& octets[17] == if reply_requested {
                        1u8
                    } else {
                        0u8
                    }
                },
                BackendReplicationView::Unknown { tag, body } => octets == seq![tag] + body,
            }
        }),
{
    let octets = backend_octets(message);
    let none = Seq::<u8>::empty();
    match message {
        BackendReplicationView::XLogData { wal_start, wal_end, server_time, data } => {
            lemma_unsigned64(server_time);
            law_network_order(0, 0, wal_start, none);
            law_network_order(0, 0, wal_end, none);
            law_network_order(0, 0, server_time as u64, none);
            assert(octets.subrange(1, 9) =~= be64(wal_start));
            assert(octets.subrange(9, 17) =~= be64(wal_end));
            assert(octets.subrange(17, 25) =~= be64(server_time as u64));
            assert(octets.skip(25) =~= data);
        },
        BackendReplicationView::PrimaryKeepalive { wal_end, server_time, reply_requested } => {
            lemma_unsigned64(server_time);
            law_network_order(0, 0, wal_end, none);
            law_network_order(0, 0, server_time as u64, none);
            assert(octets.subrange(1, 9) =~= be64(wal_end));
            assert(octets.subrange(9, 17) =~= be64(server_time as u64));
        },
        _ => {},
    }
}

/// Where the parts of a frontend's replication payload stand: a status as the positions
/// written, flushed and applied, the client's time and whether a reply is wanted; and
/// feedback as the client's time and the two horizons with their epochs.
pub proof fn law_frontend_replication_layout(message: FrontendReplicationView)
    ensures
        ({
            let octets = frontend_octets(message);
            match message {
                FrontendReplicationView::StandbyStatus {
                    written,
                    flushed,
                    applied,
                    client_time,
                    reply_requested,
                } => {
                    &&& octets.len() == 34
                    &&& octets[0] == 0x72
                    &&& number(octets.subrange(1, 9)) == written
                    &&& number(octets.subrange(9, 17)) == flushed
                    &&& number(octets.subrange(17, 25)) == applied
                    &&& number(octets.subrange(25, 33)) == unsigned64(client_time)
                    &&& octets[33] == if reply_requested {
                        1u8
                    } else {
                        0u8
                    }
                },
                FrontendReplicationView::HotStandbyFeedback {
                    client_time,
                    xmin,
                    xmin_epoch,
                    catalog_xmin,
                    catalog_xmin_epoch,
                } => {
                    &&& octets.len() == 25
                    &&& octets[0] == 0x68
                    &&& number(octets.subrange(1, 9)) == unsigned64(client_time)
                    &&& number(octets.subrange(9, 13)) == xmin
                    &&& number(octets.subrange(13, 17)) == xmin_epoch
                    &&& number(octets.subrange(17, 21)) == catalog_xmin
                    &&& number(octets.subrange(21, 25)) == catalog_xmin_epoch
                },
                FrontendReplicationView::Unknown { tag, body } => octets == seq![tag] + body,
            }
        }),
{
    let octets = frontend_octets(message);
    let none = Seq::<u8>::empty();
    match message {
        FrontendReplicationView::StandbyStatus {
            written,
            flushed,
            applied,
            client_time,
            reply_requested,
        } => {
            lemma_unsigned64(client_time);
            law_network_order(0, 0, written, none);
            law_network_order(0, 0, flushed, none);
            law_network_order(0, 0, applied, none);
            law_network_order(0, 0, client_time as u64, none);
            assert(octets.subrange(1, 9) =~= be64(written));
            assert(octets.subrange(9, 17) =~= be64(flushed));
            assert(octets.subrange(17, 25) =~= be64(applied));
            assert(octets.subrange(25, 33) =~= be64(client_time as u64));
        },
        FrontendReplicationView::HotStandbyFeedback {
            client_time,
            xmin,
            xmin_epoch,
            catalog_xmin,
            catalog_xmin_epoch,
        } => {
            lemma_unsigned64(client_time);
            law_network_order(0, xmin, client_time as u64, none);
            law_network_order(0, xmin_epoch, 0, none);
            law_network_order(0, catalog_xmin, 0, none);
            law_network_order(0, catalog_xmin_epoch, 0, none);
            assert(octets.subrange(1, 9) =~= be64(client_time as u64));
            assert(octets.subrange(9, 13) =~= be32(xmin));
            assert(octets.subrange(13, 17) =~= be32(xmin_epoch));
            assert(octets.subrange(17, 21) =~= be32(catalog_xmin));
            assert(octets.subrange(21, 25) =~= be32(catalog_xmin_epoch));
        },
        _ => {},
    }
}

/// Why a replication payload is refused: it is empty, has the wrong length for its tag,
/// or has a Boolean octet that is neither zero nor one.
pub proof fn law_refused_replication_payloads(payload: Seq<u8>)
    ensures
        payload.len() == 0 ==> backend_payload(payload) == Err::<BackendReplicationView, _>(
            ReplicationError::EmptyPayload,
        ) && frontend_payload(payload) == Err::<FrontendReplicationView, _>(
            ReplicationError::EmptyPayload,
        ),
        payload.len() > 0 ==> {
            let tag = payload[0];
            let length = payload.len();
            &&& tag == 0x77 ==> (backend_payload(payload) is Ok <==> length >= 25)
            &&& tag == 0x77 && length < 25 ==> backend_payload(payload) == Err::<
                BackendReplicationView,
                _,
            >(ReplicationError::TruncatedXLogData)
            &&& tag == 0x6b ==> (backend_payload(payload) is Ok <==> length == 18 && (payload[17]
                == 0 || payload[17] == 1))
            &&& tag == 0x6b && length != 18 ==> backend_payload(payload) == Err::<
                BackendReplicationView,
                _,
            >(ReplicationError::KeepaliveLength)
            &&& tag == 0x6b && length == 18 && payload[17] > 1 ==> backend_payload(payload) == Err::<
                BackendReplicationView,
                _,
            >(ReplicationError::InvalidBoolean)
            &&& tag != 0x77 && tag != 0x6b ==> backend_payload(payload) == Ok::<
                _,
                ReplicationError,
            >(BackendReplicationView::Unknown { tag, body: payload.skip(1) })
            &&& tag == 0x72 ==> (frontend_payload(payload) is Ok <==> length == 34 && (payload[33]
                == 0 || payload[33] == 1))
            &&& tag == 0x72 && length != 34 ==> frontend_payload(payload) == Err::<
                FrontendReplicationView,
                _,
            >(ReplicationError::StandbyStatusLength)
            &&& tag == 0x72 && length == 34 && payload[33] > 1 ==> frontend_payload(payload)
                == Err::<FrontendReplicationView, _>(ReplicationError::InvalidBoolean)
            &&& tag == 0x68 ==> (frontend_payload(payload) is Ok <==> length == 25)
            &&& tag == 0x68 && length != 25 ==> frontend_payload(payload) == Err::<
                FrontendReplicationView,
                _,
            >(ReplicationError::FeedbackLength)
            &&& tag != 0x72 && tag != 0x68 ==> frontend_payload(payload) == Ok::<
                _,
                ReplicationError,
            >(FrontendReplicationView::Unknown { tag, body: payload.skip(1) })
        },
{
    if payload.len() == 18 {
        assert(payload.skip(1).skip(8).skip(8)[0] == payload[17]);
    }
    if payload.len() == 34 {
        assert(payload.skip(1).skip(8).skip(8).skip(8).skip(8)[0] == payload[33]);
    }
}

/// What one side of a replication stream writes the other side reads.
pub proof fn law_replication_is_understood(
    backend: &BackendReplication,
    sent: (Bytes, Result<BackendReplication, ReplicationError>),
    frontend: &FrontendReplication,
    answered: (Bytes, Result<FrontendReplication, ReplicationError>),
)
    requires
        backend_distinct(backend@),
        frontend_distinct(frontend@),
        call_ensures(BackendReplication::encode, (backend,), sent.0),
        call_ensures(BackendReplication::decode, (sent.0,), sent.1),
        call_ensures(FrontendReplication::encode, (frontend,), answered.0),
        call_ensures(FrontendReplication::decode, (answered.0,), answered.1),
    ensures
        sent.1 matches Ok(again) && again@ == backend@,
        answered.1 matches Ok(again) && again@ == frontend@,
{
    law_backend_replication_round_trip(backend@);
    law_frontend_replication_round_trip(frontend@);
}

} // verus!
