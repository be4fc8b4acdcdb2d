//! Framing and message decoding.

use bytes::{Bytes, BytesMut};
use pg_proto::codec::frame::{decode_frame, exceeds_limit};
use pg_proto::codec::{
    Backend, BackendMessage, Bind, CopyResponse, DataRow, Describe, DescribeTarget,
    DiagnosticField, DiagnosticResponse, Direction, Execute, FieldDescription, Frame, Frontend,
    FrontendMessage, Parse, PgCodec, RowDescription, TransactionStatus,
};
use pg_proto::error::{ProtocolError, Side};

#[test]
fn malformed_notices_are_kept_as_they_came() {
    let legible = Frame {
        tag: b'N',
        body: Bytes::from_static(b"Mhello\0\0"),
    };
    assert_eq!(
        Backend::decode(legible.clone()).unwrap(),
        BackendMessage::NoticeResponse(DiagnosticResponse {
            fields: vec![DiagnosticField {
                code: b'M',
                value: Bytes::from_static(b"hello"),
            }],
        })
    );
    let malformed = Frame {
        tag: b'N',
        body: Bytes::from_static(b"Mhello"),
    };
    let message = Backend::decode(malformed.clone()).unwrap();
    assert_eq!(
        message,
        BackendMessage::OpaqueNotice(Bytes::from_static(b"Mhello"))
    );
    assert_eq!(message.to_frame().unwrap(), malformed);
    assert_eq!(message.clone().lift().unwrap(), message);
}

#[test]
fn direction_disambiguates_s_tag() {
    let frontend_frame = Frame {
        tag: b'S',
        body: Bytes::new(),
    };
    assert!(matches!(
        Frontend::decode(frontend_frame),
        Ok(FrontendMessage::Recognised(_))
    ));
    assert_eq!(
        Backend::decode(Frame {
            tag: b'S',
            body: Bytes::from_static(b"client_encoding\0UTF8\0"),
        })
        .expect("valid ParameterStatus"),
        BackendMessage::ParameterStatus {
            name: Bytes::from_static(b"client_encoding"),
            value: Bytes::from_static(b"UTF8"),
        }
    );
}

#[test]
fn parse_is_losslessly_structured() {
    let mut bytes = BytesMut::from(&b"P\0\0\0\x19stmt\0select $1\0\0\x01\0\0\0\x17"[..]);
    let original = bytes.clone();
    let message = PgCodec::<Frontend>::default()
        .decode(&mut bytes)
        .expect("valid frame")
        .expect("complete frame");
    let expected = FrontendMessage::Parse(Parse {
        statement: Bytes::from_static(b"stmt"),
        query: Bytes::from_static(b"select $1"),
        parameter_types: vec![23],
    });
    assert_eq!(message, expected);

    let FrontendMessage::Parse(parsed) = message else {
        unreachable!()
    };
    let frame = parsed.to_frame().expect("reconstructable Parse");
    let mut encoded = BytesMut::new();
    PgCodec::<Frontend>::default()
        .encode(frame, &mut encoded)
        .expect("encodable frame");
    assert_eq!(encoded, original);
}

#[test]
fn incomplete_frame_does_not_consume_input() {
    let mut bytes = BytesMut::from(&b"S\0\0\0\x04"[..4]);
    let original = bytes.clone();
    assert!(PgCodec::<Frontend>::default()
        .decode(&mut bytes)
        .expect("incomplete input is not an error")
        .is_none());
    assert_eq!(bytes, original);
}

#[test]
fn bind_round_trips_nulls_formats_and_values() {
    let bind = Bind {
        portal: Bytes::from_static(b"portal"),
        statement: Bytes::from_static(b"statement"),
        parameter_formats: vec![1, 0],
        parameters: vec![None, Some(Bytes::from_static(b"value"))],
        result_formats: vec![1],
    };
    let frame = bind.to_frame().expect("valid Bind");
    assert_eq!(
        Frontend::decode(frame).expect("decodable Bind"),
        FrontendMessage::Bind(bind)
    );
}

#[test]
fn row_description_round_trips_all_metadata() {
    let description = RowDescription {
        fields: vec![FieldDescription {
            name: Bytes::from_static(b"answer"),
            table_oid: 16_384,
            column: 2,
            type_oid: 23,
            type_size: 4,
            type_modifier: -1,
            format: 1,
        }],
    };
    let frame = description.to_frame().expect("valid RowDescription");
    assert_eq!(
        Backend::decode(frame).expect("decodable RowDescription"),
        BackendMessage::RowDescription(description)
    );
}

#[test]
fn recognised_messages_can_be_lifted() {
    let sync = Frontend::decode(Frame {
        tag: b'S',
        body: Bytes::new(),
    })
    .unwrap();
    assert_eq!(sync.lift().unwrap(), FrontendMessage::Sync);

    let execute = FrontendMessage::Execute(Execute {
        portal: Bytes::from_static(b"p"),
        max_rows: 7,
    });
    let frame = execute.to_frame().unwrap();
    assert_eq!(frame.body, Bytes::from_static(b"p\0\0\0\0\x07"));
    assert_eq!(Frontend::decode(frame).unwrap().lift().unwrap(), execute);

    let row = BackendMessage::DataRow(DataRow {
        columns: vec![Some(Bytes::from_static(b"x")), None],
    });
    let frame = row.to_frame().unwrap();
    assert_eq!(
        frame.body,
        Bytes::from_static(b"\0\x02\0\0\0\x01x\xff\xff\xff\xff")
    );
    assert_eq!(Backend::decode(frame).unwrap().lift().unwrap(), row);

    let copy = BackendMessage::CopyInResponse(CopyResponse {
        overall_format: 0,
        column_formats: vec![0, 0],
    });
    let frame = copy.to_frame().unwrap();
    assert_eq!(Backend::decode(frame).unwrap().lift().unwrap(), copy);
}

#[test]
fn malformed_bodies_are_refused() {
    assert!(matches!(
        Backend::decode(Frame {
            tag: b'Z',
            body: Bytes::from_static(b"?"),
        }),
        Err(_)
    ));
    assert!(matches!(
        Frontend::decode(Frame {
            tag: b'!',
            body: Bytes::new(),
        }),
        Err(ProtocolError::UnknownTag { .. })
    ));
    assert_eq!(
        Backend::decode(Frame {
            tag: b'Z',
            body: Bytes::from_static(b"I"),
        })
        .unwrap(),
        BackendMessage::ReadyForQuery(TransactionStatus::Idle)
    );
}

#[test]
fn names_must_not_hold_nul() {
    let describe = Describe {
        target: DescribeTarget::Statement,
        name: Bytes::from_static(b"a\0b"),
    };
    assert!(describe.to_frame().is_err());
}

#[test]
fn diagnostics_keep_field_order() {
    let error = BackendMessage::ErrorResponse(DiagnosticResponse {
        fields: vec![
            DiagnosticField {
                code: b'S',
                value: Bytes::from_static(b"ERROR"),
            },
            DiagnosticField {
                code: b'M',
                value: Bytes::from_static(b"no"),
            },
        ],
    });
    let frame = error.to_frame().unwrap();
    assert_eq!(frame.body, Bytes::from_static(b"SERROR\0Mno\0\0"));
    assert_eq!(Backend::decode(frame).unwrap().lift().unwrap(), error);
}

#[test]
fn decoding_leaves_the_following_frame() {
    let mut bytes = BytesMut::from(&b"Z\0\0\0\x05IZ\0\0\0\x05T"[..]);
    let mut codec = PgCodec::<Backend>::default();
    assert_eq!(
        codec.decode(&mut bytes).unwrap(),
        Some(BackendMessage::ReadyForQuery(TransactionStatus::Idle))
    );
    assert_eq!(bytes, BytesMut::from(&b"Z\0\0\0\x05T"[..]));
    assert_eq!(
        codec.decode(&mut bytes).unwrap(),
        Some(BackendMessage::ReadyForQuery(
            TransactionStatus::InTransaction
        ))
    );
    assert_eq!(codec.decode(&mut bytes).unwrap(), None);
}

#[test]
fn oversized_frames_are_told_from_their_header() {
    assert!(!exceeds_limit(b"Q\0\0\0", 5));
    assert!(!exceeds_limit(b"Q\0\0\0\x04", 5));
    assert!(exceeds_limit(b"Q\0\0\0\x05", 5));
    assert!(exceeds_limit(b"Q\xff\xff\xff\xff", 0x8000_0000));
}

fn backend_error(tag: u8, body: &'static [u8]) -> ProtocolError {
    Backend::decode(Frame {
        tag,
        body: Bytes::from_static(body),
    })
    .and_then(BackendMessage::lift)
    .unwrap_err()
}

fn frontend_error(tag: u8, body: &'static [u8]) -> ProtocolError {
    Frontend::decode(Frame {
        tag,
        body: Bytes::from_static(body),
    })
    .and_then(FrontendMessage::lift)
    .unwrap_err()
}

#[test]
fn each_malformed_message_is_named() {
    assert_eq!(
        frontend_error(b'Q', b"select 1"),
        ProtocolError::UnterminatedString
    );
    assert_eq!(frontend_error(b'S', b"x"), ProtocolError::TrailingBytes);
    assert_eq!(frontend_error(b'B', b"\0\0\0"), ProtocolError::TruncatedBody);
    assert_eq!(
        frontend_error(b'B', b"\0\0\0\0\0\x01\xff\xff\xff\xfe"),
        ProtocolError::NegativeParameterLength
    );
    assert_eq!(frontend_error(b'D', b"Xs\0"), ProtocolError::InvalidTarget);
    assert_eq!(
        frontend_error(b'!', b""),
        ProtocolError::UnknownTag {
            side: Side::Frontend,
            tag: b'!'
        }
    );
    assert_eq!(
        backend_error(b'!', b""),
        ProtocolError::UnknownTag {
            side: Side::Backend,
            tag: b'!'
        }
    );
    assert_eq!(
        backend_error(b'R', b"\0\0\0\x63"),
        ProtocolError::UnknownAuthentication
    );
    assert_eq!(backend_error(b'K', b"\0\0\0\x01abc"), ProtocolError::KeyLength);
    assert_eq!(
        backend_error(b'Z', b"x"),
        ProtocolError::UnknownTransactionStatus
    );
    let mut short = BytesMut::from(&b"Q\0\0\0\x03"[..]);
    assert_eq!(
        decode_frame(&mut short).unwrap_err(),
        ProtocolError::LengthTooSmall
    );
    assert_eq!(
        ProtocolError::UnknownTag {
            side: Side::Backend,
            tag: 0
        }
        .message(),
        "unknown backend message tag"
    );
    assert_eq!(
        BackendMessage::BackendKeyData {
            process_id: 1,
            secret_key: Bytes::from_static(b"abc"),
        }
        .to_frame()
        .unwrap_err(),
        ProtocolError::UnencodableKeyLength
    );
    assert_eq!(
        BackendMessage::ErrorResponse(DiagnosticResponse {
            fields: vec![DiagnosticField {
                code: 0,
                value: Bytes::new(),
            }],
        })
        .to_frame()
        .unwrap_err(),
        ProtocolError::NulFieldCode
    );
    assert_eq!(
        BackendMessage::CopyInResponse(CopyResponse {
            overall_format: 0,
            column_formats: vec![0; 65_536],
        })
        .to_frame()
        .unwrap_err(),
        ProtocolError::CountExceedsU16
    );
}
