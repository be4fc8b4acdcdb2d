//! Messages sent by a backend.

use bytes::Bytes;
use vstd::prelude::*;

use super::diagnostic::{
    diagnostic_body, lemma_diagnostic, lemma_taken_diagnostic, take_diagnostic,
    DiagnosticFieldView, DiagnosticResponse,
};
use super::frame::{agrees, Direction, Frame, FrameView};
use super::frontend::{bare, decode_text, framed};
use super::tags;
use crate::error::{ProtocolError, Side};
use crate::lists::{
    lemma_followed, lemma_until_nul_reads_back, lemma_until_nul_writes_back, nullables,
    put_until_nul, read_cstrs, read_i16s, read_nullables, read_u32s, starts_non_nul,
    take_until_nul, texts, write_cstrs, write_i16s, write_nullables, write_u32s,
};
use crate::octets::{advance, as_slice, from_vec, octets, split_to};
use crate::startup::ProtocolVersion;
use crate::wire::{
    append, be16, be32, cstr_field, cstr_octets, followed, i16_field, i16_octets, joined,
    lemma_be16, lemma_be32, lemma_counted_reads_back, lemma_counted_writes_back, lemma_cstr,
    lemma_fields, lemma_many_reads_back, lemma_many_writes_back, lemma_of16, lemma_of32,
    lemma_put_all_error, lemma_put_all_step, lemma_regroup, lemma_signed, lemma_taken_cstr,
    nullable_field, nullable_octets, put_all, put_counted, put_cstr, read_cstr, read_end, read_i16,
    read_i32, read_u16, read_u32, read_u8, reads_back, take_counted, take_cstr, take_i16, take_i32,
    take_many, take_octets, take_u32, take_u8, u32_field, u32_octets, whole, write_count,
    write_cstr, write_u16, write_u32, writes_back, written_as, Put, Taken,
};

verus! {

/// Messages sent by a `PostgreSQL` backend. A type index: its value carries nothing.
#[derive(Debug)]
pub enum Backend {
    Index,
}

/// Metadata of one result column.
#[derive(Clone, Debug, PartialEq, Eq)]
pub struct FieldDescription {
    pub name: Bytes,
    pub table_oid: u32,
    pub column: i16,
    pub type_oid: u32,
    pub type_size: i16,
    pub type_modifier: i32,
    pub format: i16,
}

/// Backend row metadata retained in reconstructable form.
#[derive(Clone, Debug, PartialEq, Eq)]
pub struct RowDescription {
    pub fields: Vec<FieldDescription>,
}

/// One result row.
#[derive(Clone, Debug, PartialEq, Eq)]
pub struct DataRow {
    pub columns: Vec<Option<Bytes>>,
}

/// Formats announced when a copy starts.
#[derive(Clone, Debug, PartialEq, Eq)]
pub struct CopyResponse {
    pub overall_format: u8,
    pub column_formats: Vec<i16>,
}

/// An authentication request.
#[derive(Clone, Debug, PartialEq, Eq)]
pub enum Authentication {
    Accepted,
    KerberosV5,
    CleartextPassword,
    Md5Password { salt: [u8; 4] },
    Gss,
    GssContinue(Bytes),
    Sspi,
    Sasl { mechanisms: Vec<Bytes> },
    SaslContinue(Bytes),
    SaslFinal(Bytes),
}

/// Transaction state reported when the backend is ready.
#[derive(Clone, Copy, Debug, PartialEq, Eq, Structural)]
pub enum TransactionStatus {
    Idle,
    InTransaction,
    FailedTransaction,
}

/// Newest protocol version that the backend supports, and the options it lacks.
#[derive(Clone, Debug, PartialEq, Eq)]
pub struct NegotiateProtocolVersion {
    pub newest: ProtocolVersion,
    pub unsupported_options: Vec<Bytes>,
}

/// Backend messages, retained in reconstructable form.
#[derive(Clone, Debug, PartialEq, Eq)]
pub enum BackendMessage {
    RowDescription(RowDescription),
    Authentication(Authentication),
    ParameterStatus { name: Bytes, value: Bytes },
    NoticeResponse(DiagnosticResponse),
    /// A notice whose body is no list of fields, kept as it came.
    OpaqueNotice(Bytes),
    NotificationResponse { process_id: u32, channel: Bytes, payload: Bytes },
    BackendKeyData { process_id: u32, secret_key: Bytes },
    ReadyForQuery(TransactionStatus),
    NegotiateProtocolVersion(NegotiateProtocolVersion),
    ErrorResponse(DiagnosticResponse),
    ParseComplete,
    BindComplete,
    CloseComplete,
    CommandComplete(Bytes),
    DataRow(DataRow),
    NoData,
    ParameterDescription(Vec<u32>),
    PortalSuspended,
    EmptyQueryResponse,
    FunctionCallResponse(Bytes),
    CopyInResponse(CopyResponse),
    CopyOutResponse(CopyResponse),
    CopyBothResponse(CopyResponse),
    CopyData(Bytes),
    CopyDone,
    /// A recognised message not yet lifted into a more specific representation.
    Recognised(Frame),
}

#[verifier::ext_equal]
pub struct FieldDescriptionView {
    pub name: Seq<u8>,
    pub table_oid: u32,
    pub column: i16,
    pub type_oid: u32,
    pub type_size: i16,
    pub type_modifier: i32,
    pub format: i16,
}

#[verifier::ext_equal]
pub struct CopyResponseView {
    pub overall_format: u8,
    pub column_formats: Seq<i16>,
}

#[verifier::ext_equal]
pub enum AuthenticationView {
    Accepted,
    KerberosV5,
    CleartextPassword,
    Md5Password { salt: Seq<u8> },
    Gss,
    GssContinue(Seq<u8>),
    Sspi,
    Sasl { mechanisms: Seq<Seq<u8>> },
    SaslContinue(Seq<u8>),
    SaslFinal(Seq<u8>),
}

#[verifier::ext_equal]
pub struct NegotiateView {
    pub newest: ProtocolVersion,
    pub unsupported_options: Seq<Seq<u8>>,
}

/// What a backend message says.
#[verifier::ext_equal]
pub enum BackendView {
    RowDescription(Seq<FieldDescriptionView>),
    Authentication(AuthenticationView),
    ParameterStatus { name: Seq<u8>, value: Seq<u8> },
    NoticeResponse(Seq<DiagnosticFieldView>),
    OpaqueNotice(Seq<u8>),
    NotificationResponse { process_id: u32, channel: Seq<u8>, payload: Seq<u8> },
    BackendKeyData { process_id: u32, secret_key: Seq<u8> },
    ReadyForQuery(TransactionStatus),
    NegotiateProtocolVersion(NegotiateView),
    ErrorResponse(Seq<DiagnosticFieldView>),
    ParseComplete,
    BindComplete,
    CloseComplete,
    CommandComplete(Seq<u8>),
    DataRow(Seq<Option<Seq<u8>>>),
    NoData,
    ParameterDescription(Seq<u32>),
    PortalSuspended,
    EmptyQueryResponse,
    FunctionCallResponse(Seq<u8>),
    CopyInResponse(CopyResponseView),
    CopyOutResponse(CopyResponseView),
    CopyBothResponse(CopyResponseView),
    CopyData(Seq<u8>),
    CopyDone,
    Recognised(FrameView),
}

impl View for FieldDescription {
    type V = FieldDescriptionView;

    open spec fn view(&self) -> FieldDescriptionView {
        FieldDescriptionView {
            name: octets(self.name),
            table_oid: self.table_oid,
            column: self.column,
            type_oid: self.type_oid,
            type_size: self.type_size,
            type_modifier: self.type_modifier,
            format: self.format,
        }
    }
}

/// What each column's metadata says.
pub open spec fn row_fields(fields: Seq<FieldDescription>) -> Seq<FieldDescriptionView> {
    Seq::new(fields.len(), |i: int| fields[i]@)
}

impl View for RowDescription {
    type V = Seq<FieldDescriptionView>;

    open spec fn view(&self) -> Seq<FieldDescriptionView> {
        row_fields(self.fields@)
    }
}

impl View for DataRow {
    type V = Seq<Option<Seq<u8>>>;

    open spec fn view(&self) -> Seq<Option<Seq<u8>>> {
        nullables(self.columns@)
    }
}

impl View for CopyResponse {
    type V = CopyResponseView;

    open spec fn view(&self) -> CopyResponseView {
        CopyResponseView {
            overall_format: self.overall_format,
            column_formats: self.column_formats@,
        }
    }
}

impl View for Authentication {
    type V = AuthenticationView;

    open spec fn view(&self) -> AuthenticationView {
        match self {
            Authentication::Accepted => AuthenticationView::Accepted,
            Authentication::KerberosV5 => AuthenticationView::KerberosV5,
            Authentication::CleartextPassword => AuthenticationView::CleartextPassword,
            Authentication::Md5Password { salt } => AuthenticationView::Md5Password {
                salt: salt@,
            },
            Authentication::Gss => AuthenticationView::Gss,
            Authentication::GssContinue(data) => AuthenticationView::GssContinue(octets(*data)),
            Authentication::Sspi => AuthenticationView::Sspi,
            Authentication::Sasl { mechanisms } => AuthenticationView::Sasl {
                mechanisms: texts(mechanisms@),
            },
            Authentication::SaslContinue(data) => AuthenticationView::SaslContinue(octets(*data)),
            Authentication::SaslFinal(data) => AuthenticationView::SaslFinal(octets(*data)),
        }
    }
}

impl View for NegotiateProtocolVersion {
    type V = NegotiateView;

    open spec fn view(&self) -> NegotiateView {
        NegotiateView {
            newest: self.newest,
            unsupported_options: texts(self.unsupported_options@),
        }
    }
}

impl View for BackendMessage {
    type V = BackendView;

    open spec fn view(&self) -> BackendView {
        match self {
            BackendMessage::RowDescription(message) => BackendView::RowDescription(message@),
            BackendMessage::Authentication(message) => BackendView::Authentication(message@),
            BackendMessage::ParameterStatus { name, value } => BackendView::ParameterStatus {
                name: octets(*name),
                value: octets(*value),
            },
            BackendMessage::NoticeResponse(message) => BackendView::NoticeResponse(message@),
            BackendMessage::OpaqueNotice(body) => BackendView::OpaqueNotice(octets(*body)),
            BackendMessage::NotificationResponse { process_id, channel, payload } =>
                BackendView::NotificationResponse {
                process_id: *process_id,
                channel: octets(*channel),
                payload: octets(*payload),
            },
            BackendMessage::BackendKeyData { process_id, secret_key } =>
                BackendView::BackendKeyData {
                process_id: *process_id,
                secret_key: octets(*secret_key),
            },
            BackendMessage::ReadyForQuery(status) => BackendView::ReadyForQuery(*status),
            BackendMessage::NegotiateProtocolVersion(message) =>
                BackendView::NegotiateProtocolVersion(message@),
            BackendMessage::ErrorResponse(message) => BackendView::ErrorResponse(message@),
            BackendMessage::ParseComplete => BackendView::ParseComplete,
            BackendMessage::BindComplete => BackendView::BindComplete,
            BackendMessage::CloseComplete => BackendView::CloseComplete,
            BackendMessage::CommandComplete(tag) => BackendView::CommandComplete(octets(*tag)),
            BackendMessage::DataRow(message) => BackendView::DataRow(message@),
            BackendMessage::NoData => BackendView::NoData,
            BackendMessage::ParameterDescription(types) => BackendView::ParameterDescription(
                types@,
            ),
            BackendMessage::PortalSuspended => BackendView::PortalSuspended,
            BackendMessage::EmptyQueryResponse => BackendView::EmptyQueryResponse,
            BackendMessage::FunctionCallResponse(data) => BackendView::FunctionCallResponse(
                octets(*data),
            ),
            BackendMessage::CopyInResponse(message) => BackendView::CopyInResponse(message@),
            BackendMessage::CopyOutResponse(message) => BackendView::CopyOutResponse(message@),
            BackendMessage::CopyBothResponse(message) => BackendView::CopyBothResponse(message@),
            BackendMessage::CopyData(data) => BackendView::CopyData(octets(*data)),
            BackendMessage::CopyDone => BackendView::CopyDone,
            BackendMessage::Recognised(frame) => BackendView::Recognised(frame@),
        }
    }
}

pub open spec fn status_octet(status: TransactionStatus) -> u8 {
    match status {
        TransactionStatus::Idle => tags::IDLE,
        TransactionStatus::InTransaction => tags::IN_TRANSACTION,
        TransactionStatus::FailedTransaction => tags::FAILED_TRANSACTION,
    }
}

pub open spec fn status_of(octet: u8) -> Option<TransactionStatus> {
    if octet == tags::IDLE {
        Some(TransactionStatus::Idle)
    } else if octet == tags::IN_TRANSACTION {
        Some(TransactionStatus::InTransaction)
    } else if octet == tags::FAILED_TRANSACTION {
        Some(TransactionStatus::FailedTransaction)
    } else {
        None
    }
}

/// A cancellation key has between 4 and 256 octets.
pub open spec fn key_length(length: nat) -> bool {
    4 <= length <= 256
}

pub open spec fn put_row_field(field: FieldDescriptionView) -> Put {
    joined(
        put_cstr(field.name),
        Ok(
            be32(field.table_oid) + (be16(field.column as u16) + (be32(field.type_oid) + (be16(
                field.type_size as u16,
            ) + (be32(field.type_modifier as u32) + be16(field.format as u16))))),
        ),
    )
}

pub open spec fn take_row_field(source: Seq<u8>) -> Taken<FieldDescriptionView> {
    match take_cstr(source) {
        Err(error) => Err(error),
        Ok((name, rest)) => match take_u32(rest) {
            Err(error) => Err(error),
            Ok((table_oid, rest)) => match take_i16(rest) {
                Err(error) => Err(error),
                Ok((column, rest)) => match take_u32(rest) {
                    Err(error) => Err(error),
                    Ok((type_oid, rest)) => match take_i16(rest) {
                        Err(error) => Err(error),
                        Ok((type_size, rest)) => match take_i32(rest) {
                            Err(error) => Err(error),
                            Ok((type_modifier, rest)) => match take_i16(rest) {
                                Err(error) => Err(error),
                                Ok((format, rest)) => Ok(
                                    (
                                        FieldDescriptionView {
                                            name,
                                            table_oid,
                                            column,
                                            type_oid,
                                            type_size,
                                            type_modifier,
                                            format,
                                        },
                                        rest,
                                    ),
                                ),
                            },
                        },
                    },
                },
            },
        },
    }
}

pub open spec fn row_field() -> spec_fn(Seq<u8>) -> Taken<FieldDescriptionView> {
    |source: Seq<u8>| take_row_field(source)
}

pub open spec fn row_octets() -> spec_fn(FieldDescriptionView) -> Put {
    |field: FieldDescriptionView| put_row_field(field)
}

pub open spec fn authentication_body(message: AuthenticationView) -> Put {
    match message {
        AuthenticationView::Accepted => Ok(be32(0)),
        AuthenticationView::KerberosV5 => Ok(be32(2)),
        AuthenticationView::CleartextPassword => Ok(be32(3)),
        AuthenticationView::Md5Password { salt } => Ok(be32(5) + salt),
        AuthenticationView::Gss => Ok(be32(7)),
        AuthenticationView::GssContinue(data) => Ok(be32(8) + data),
        AuthenticationView::Sspi => Ok(be32(9)),
        AuthenticationView::Sasl { mechanisms } => joined(
            Ok(be32(10)),
            put_until_nul(cstr_octets(), mechanisms),
        ),
        AuthenticationView::SaslContinue(data) => Ok(be32(11) + data),
        AuthenticationView::SaslFinal(data) => Ok(be32(12) + data),
    }
}

/// Reads what follows an authentication request code.
pub open spec fn take_request(kind: u32, rest: Seq<u8>) -> Taken<AuthenticationView> {
    let none = Seq::<u8>::empty();
    if kind == 0 {
        Ok((AuthenticationView::Accepted, rest))
    } else if kind == 2 {
        Ok((AuthenticationView::KerberosV5, rest))
    } else if kind == 3 {
        Ok((AuthenticationView::CleartextPassword, rest))
    } else if kind == 5 {
        match take_octets(rest, 4) {
            Ok((salt, rest)) => Ok((AuthenticationView::Md5Password { salt }, rest)),
            Err(error) => Err(error),
        }
    } else if kind == 7 {
        Ok((AuthenticationView::Gss, rest))
    } else if kind == 8 {
        Ok((AuthenticationView::GssContinue(rest), none))
    } else if kind == 9 {
        Ok((AuthenticationView::Sspi, rest))
    } else if kind == 10 {
        match take_until_nul(cstr_field(), rest) {
            Ok((mechanisms, rest)) => Ok((AuthenticationView::Sasl { mechanisms }, rest)),
            Err(error) => Err(error),
        }
    } else if kind == 11 {
        Ok((AuthenticationView::SaslContinue(rest), none))
    } else if kind == 12 {
        Ok((AuthenticationView::SaslFinal(rest), none))
    } else {
        Err(ProtocolError::UnknownAuthentication)
    }
}

pub open spec fn take_authentication(body: Seq<u8>) -> Taken<AuthenticationView> {
    match take_u32(body) {
        Err(error) => Err(error),
        Ok((kind, rest)) => take_request(kind, rest),
    }
}

pub open spec fn negotiate_body(message: NegotiateView) -> Put {
    joined(
        joined(
            Ok(be32(message.newest.code_spec())),
            if message.unsupported_options.len() > u32::MAX {
                Err(ProtocolError::OptionCountExceedsU32)
            } else {
                Ok(be32(message.unsupported_options.len() as u32))
            },
        ),
        put_all(cstr_octets(), message.unsupported_options),
    )
}

pub open spec fn take_negotiate(body: Seq<u8>) -> Taken<NegotiateView> {
    match take_u32(body) {
        Err(error) => Err(error),
        Ok((code, rest)) => match take_u32(rest) {
            Err(error) => Err(error),
            Ok((count, rest)) => match take_many(cstr_field(), count as nat, rest) {
                Err(error) => Err(error),
                Ok((unsupported_options, rest)) => Ok(
                    (
                        NegotiateView {
                            newest: ProtocolVersion::of_code(code),
                            unsupported_options,
                        },
                        rest,
                    ),
                ),
            },
        },
    }
}

pub open spec fn pair_body(first: Seq<u8>, second: Seq<u8>) -> Put {
    joined(put_cstr(first), put_cstr(second))
}

pub open spec fn take_pair(source: Seq<u8>) -> Taken<(Seq<u8>, Seq<u8>)> {
    match take_cstr(source) {
        Err(error) => Err(error),
        Ok((first, rest)) => match take_cstr(rest) {
            Err(error) => Err(error),
            Ok((second, rest)) => Ok(((first, second), rest)),
        },
    }
}

pub open spec fn notification_body(process_id: u32, channel: Seq<u8>, payload: Seq<u8>) -> Put {
    joined(joined(Ok(be32(process_id)), put_cstr(channel)), put_cstr(payload))
}

pub open spec fn key_body(process_id: u32, secret_key: Seq<u8>) -> Put {
    if key_length(secret_key.len()) {
        Ok(be32(process_id) + secret_key)
    } else {
        Err(ProtocolError::UnencodableKeyLength)
    }
}

pub open spec fn copy_body(message: CopyResponseView) -> Put {
    joined(Ok(seq![message.overall_format]), put_counted(i16_octets(), message.column_formats))
}

pub open spec fn take_copy(body: Seq<u8>) -> Taken<CopyResponseView> {
    match take_u8(body) {
        Err(error) => Err(error),
        Ok((overall_format, rest)) => match take_counted(i16_field(), rest) {
            Err(error) => Err(error),
            Ok((column_formats, rest)) => Ok(
                (CopyResponseView { overall_format, column_formats }, rest),
            ),
        },
    }
}

/// Frame that a backend message is sent as.
pub open spec fn backend_frame(message: BackendView) -> Result<FrameView, ProtocolError> {
    match message {
        BackendView::RowDescription(fields) => framed(
            tags::ROW_DESCRIPTION,
            put_counted(row_octets(), fields),
        ),
        BackendView::Authentication(message) => framed(
            tags::AUTHENTICATION,
            authentication_body(message),
        ),
        BackendView::ParameterStatus { name, value } => framed(
            tags::PARAMETER_STATUS,
            pair_body(name, value),
        ),
        BackendView::NoticeResponse(fields) => framed(tags::NOTICE, diagnostic_body(fields)),
        BackendView::OpaqueNotice(body) => framed(tags::NOTICE, Ok(body)),
        BackendView::NotificationResponse { process_id, channel, payload } => framed(
            tags::NOTIFICATION,
            notification_body(process_id, channel, payload),
        ),
        BackendView::BackendKeyData { process_id, secret_key } => framed(
            tags::BACKEND_KEY_DATA,
            key_body(process_id, secret_key),
        ),
        BackendView::ReadyForQuery(status) => framed(
            tags::READY_FOR_QUERY,
            Ok(seq![status_octet(status)]),
        ),
        BackendView::NegotiateProtocolVersion(message) => framed(
            tags::NEGOTIATE_VERSION,
            negotiate_body(message),
        ),
        BackendView::ErrorResponse(fields) => framed(tags::ERROR, diagnostic_body(fields)),
        BackendView::ParseComplete => framed(tags::PARSE_COMPLETE, Ok(Seq::empty())),
        BackendView::BindComplete => framed(tags::BIND_COMPLETE, Ok(Seq::empty())),
        BackendView::CloseComplete => framed(tags::CLOSE_COMPLETE, Ok(Seq::empty())),
        BackendView::CommandComplete(tag) => framed(tags::COMMAND_COMPLETE, put_cstr(tag)),
        BackendView::DataRow(columns) => framed(
            tags::DATA_ROW,
            put_counted(nullable_octets(), columns),
        ),
        BackendView::NoData => framed(tags::NO_DATA, Ok(Seq::empty())),
        BackendView::ParameterDescription(types) => framed(
            tags::PARAMETER_DESCRIPTION,
            put_counted(u32_octets(), types),
        ),
        BackendView::PortalSuspended => framed(tags::PORTAL_SUSPENDED, Ok(Seq::empty())),
        BackendView::EmptyQueryResponse => framed(tags::EMPTY_QUERY, Ok(Seq::empty())),
        BackendView::FunctionCallResponse(data) => framed(tags::FUNCTION_RESULT, Ok(data)),
        BackendView::CopyInResponse(message) => framed(tags::COPY_IN, copy_body(message)),
        BackendView::CopyOutResponse(message) => framed(tags::COPY_OUT, copy_body(message)),
        BackendView::CopyBothResponse(message) => framed(tags::COPY_BOTH, copy_body(message)),
        BackendView::CopyData(data) => framed(tags::COPY_DATA, Ok(data)),
        BackendView::CopyDone => framed(tags::COPY_DONE, Ok(Seq::empty())),
        BackendView::Recognised(frame) => Ok(frame),
    }
}

/// Tags of backend messages that decoding leaves to be lifted later.
pub open spec fn backend_recognised(tag: u8) -> bool {
    tag == tags::PARSE_COMPLETE || tag == tags::BIND_COMPLETE || tag == tags::CLOSE_COMPLETE || tag
        == tags::COPY_DONE || tag == tags::COMMAND_COMPLETE || tag == tags::COPY_DATA || tag
        == tags::DATA_ROW || tag == tags::ERROR || tag == tags::COPY_IN || tag == tags::COPY_OUT
        || tag == tags::EMPTY_QUERY || tag == tags::NO_DATA || tag == tags::PORTAL_SUSPENDED || tag
        == tags::PARAMETER_DESCRIPTION || tag == tags::FUNCTION_RESULT || tag == tags::COPY_BOTH
}

pub open spec fn ready_of(body: Seq<u8>) -> Result<BackendView, ProtocolError> {
    match take_u8(body) {
        Err(error) => Err(error),
        Ok((octet, rest)) => match status_of(octet) {
            None => Err(ProtocolError::UnknownTransactionStatus),
            Some(status) => whole(Ok((BackendView::ReadyForQuery(status), rest))),
        },
    }
}

pub open spec fn key_of(body: Seq<u8>) -> Result<BackendView, ProtocolError> {
    match take_u32(body) {
        Err(error) => Err(error),
        Ok((process_id, secret_key)) => if key_length(secret_key.len()) {
            Ok(BackendView::BackendKeyData { process_id, secret_key })
        } else {
            Err(ProtocolError::KeyLength)
        },
    }
}

pub open spec fn notification_of(body: Seq<u8>) -> Result<BackendView, ProtocolError> {
    match take_u32(body) {
        Err(error) => Err(error),
        Ok((process_id, rest)) => match whole(take_pair(rest)) {
            Err(error) => Err(error),
            Ok((channel, payload)) => Ok(
                BackendView::NotificationResponse { process_id, channel, payload },
            ),
        },
    }
}

pub open spec fn parameter_of(body: Seq<u8>) -> Result<BackendView, ProtocolError> {
    match whole(take_pair(body)) {
        Err(error) => Err(error),
        Ok((name, value)) => Ok(BackendView::ParameterStatus { name, value }),
    }
}

/// What decoding makes of a backend frame.
pub open spec fn backend_decoded(frame: FrameView) -> Result<BackendView, ProtocolError> {
    if frame.tag == tags::ROW_DESCRIPTION {
        match whole(take_counted(row_field(), frame.body)) {
            Ok(fields) => Ok(BackendView::RowDescription(fields)),
            Err(error) => Err(error),
        }
    } else if frame.tag == tags::AUTHENTICATION {
        match whole(take_authentication(frame.body)) {
            Ok(message) => Ok(BackendView::Authentication(message)),
            Err(error) => Err(error),
        }
    } else if frame.tag == tags::PARAMETER_STATUS {
        parameter_of(frame.body)
    } else if frame.tag == tags::NOTICE {
        match whole(take_diagnostic(frame.body)) {
            Ok(fields) => Ok(BackendView::NoticeResponse(fields)),
            Err(_) => Ok(BackendView::OpaqueNotice(frame.body)),
        }
    } else if frame.tag == tags::NOTIFICATION {
        notification_of(frame.body)
    } else if frame.tag == tags::BACKEND_KEY_DATA {
        key_of(frame.body)
    } else if frame.tag == tags::READY_FOR_QUERY {
        ready_of(frame.body)
    } else if frame.tag == tags::NEGOTIATE_VERSION {
        match whole(take_negotiate(frame.body)) {
            Ok(message) => Ok(BackendView::NegotiateProtocolVersion(message)),
            Err(error) => Err(error),
        }
    } else if backend_recognised(frame.tag) {
        Ok(BackendView::Recognised(frame))
    } else {
        Err(ProtocolError::UnknownTag { side: Side::Backend, tag: frame.tag })
    }
}

/// The specific representation of a recognised backend frame.
pub open spec fn backend_specific(frame: FrameView) -> Result<BackendView, ProtocolError> {
    if frame.tag == tags::PARSE_COMPLETE {
        bare(frame.body, BackendView::ParseComplete)
    } else if frame.tag == tags::BIND_COMPLETE {
        bare(frame.body, BackendView::BindComplete)
    } else if frame.tag == tags::CLOSE_COMPLETE {
        bare(frame.body, BackendView::CloseComplete)
    } else if frame.tag == tags::COPY_DONE {
        bare(frame.body, BackendView::CopyDone)
    } else if frame.tag == tags::COMMAND_COMPLETE {
        match whole(take_cstr(frame.body)) {
            Ok(tag) => Ok(BackendView::CommandComplete(tag)),
            Err(error) => Err(error),
        }
    } else if frame.tag == tags::COPY_DATA {
        Ok(BackendView::CopyData(frame.body))
    } else if frame.tag == tags::DATA_ROW {
        match whole(take_counted(nullable_field(), frame.body)) {
            Ok(columns) => Ok(BackendView::DataRow(columns)),
            Err(error) => Err(error),
        }
    } else if frame.tag == tags::ERROR {
        match whole(take_diagnostic(frame.body)) {
            Ok(fields) => Ok(BackendView::ErrorResponse(fields)),
            Err(error) => Err(error),
        }
    } else if frame.tag == tags::COPY_IN {
        match whole(take_copy(frame.body)) {
            Ok(message) => Ok(BackendView::CopyInResponse(message)),
            Err(error) => Err(error),
        }
    } else if frame.tag == tags::COPY_OUT {
        match whole(take_copy(frame.body)) {
            Ok(message) => Ok(BackendView::CopyOutResponse(message)),
            Err(error) => Err(error),
        }
    } else if frame.tag == tags::COPY_BOTH {
        match whole(take_copy(frame.body)) {
            Ok(message) => Ok(BackendView::CopyBothResponse(message)),
            Err(error) => Err(error),
        }
    } else if frame.tag == tags::EMPTY_QUERY {
        bare(frame.body, BackendView::EmptyQueryResponse)
    } else if frame.tag == tags::NO_DATA {
        bare(frame.body, BackendView::NoData)
    } else if frame.tag == tags::PORTAL_SUSPENDED {
        bare(frame.body, BackendView::PortalSuspended)
    } else if frame.tag == tags::PARAMETER_DESCRIPTION {
        match whole(take_counted(u32_field(), frame.body)) {
            Ok(types) => Ok(BackendView::ParameterDescription(types)),
            Err(error) => Err(error),
        }
    } else if frame.tag == tags::FUNCTION_RESULT {
        Ok(BackendView::FunctionCallResponse(frame.body))
    } else {
        backend_decoded(frame)
    }
}

/// A message with its recognised frame, if any, lifted.
pub open spec fn backend_lifted(message: BackendView) -> Result<BackendView, ProtocolError> {
    match message {
        BackendView::Recognised(frame) => backend_specific(frame),
        _ => Ok(message),
    }
}

/// What a backend frame says once it is decoded and lifted.
pub open spec fn backend_message(frame: FrameView) -> Result<BackendView, ProtocolError> {
    match backend_decoded(frame) {
        Ok(message) => backend_lifted(message),
        Err(error) => Err(error),
    }
}

proof fn lemma_row_fields()
    ensures
        reads_back(row_octets(), row_field()),
        writes_back(row_octets(), row_field()),
{
    assert forall|field: FieldDescriptionView, rest: Seq<u8>|
        row_octets()(field) is Ok implies #[trigger] row_field()(row_octets()(field)->Ok_0 + rest)
        == Ok::<_, ProtocolError>((field, rest)) by {
        lemma_row_field_reads(field, rest);
    }
    assert forall|source: Seq<u8>| (#[trigger] row_field()(source)) is Ok implies written_as(
        row_octets(),
        row_field()(source)->Ok_0,
        source,
    ) by {
        lemma_row_field_writes(source);
    }
}

proof fn lemma_row_field_reads(field: FieldDescriptionView, rest: Seq<u8>)
    requires
        put_row_field(field) is Ok,
    ensures
        take_row_field(put_row_field(field)->Ok_0 + rest) == Ok::<_, ProtocolError>((field, rest)),
{
    lemma_signed();
    let r6 = be16(field.format as u16) + rest;
    let r5 = be32(field.type_modifier as u32) + r6;
    let r4 = be16(field.type_size as u16) + r5;
    let r3 = be32(field.type_oid) + r4;
    let r2 = be16(field.column as u16) + r3;
    let r1 = be32(field.table_oid) + r2;
    lemma_cstr(field.name, r1);
    lemma_be32(field.table_oid, r2);
    lemma_be16(field.column as u16, r3);
    lemma_be32(field.type_oid, r4);
    lemma_be16(field.type_size as u16, r5);
    lemma_be32(field.type_modifier as u32, r6);
    lemma_be16(field.format as u16, rest);
    assert(put_row_field(field)->Ok_0 + rest =~= field.name.push(0u8) + r1);
}

proof fn lemma_row_field_writes(source: Seq<u8>)
    ensures
        take_row_field(source) matches Ok((field, rest)) ==> put_row_field(field) is Ok
            && put_row_field(field)->Ok_0 + rest == source,
{
    lemma_signed();
    if let Ok((field, rest)) = take_row_field(source) {
        lemma_taken_cstr(source);
        let r1 = take_cstr(source)->Ok_0.1;
        lemma_of32(r1);
        let r2 = r1.skip(4);
        lemma_of16(r2);
        let r3 = r2.skip(2);
        lemma_of32(r3);
        let r4 = r3.skip(4);
        lemma_of16(r4);
        let r5 = r4.skip(2);
        lemma_of32(r5);
        let r6 = r5.skip(4);
        lemma_of16(r6);
        let name = field.name.push(0u8);
        let table = be32(field.table_oid);
        let column = be16(field.column as u16);
        let kind = be32(field.type_oid);
        let size = be16(field.type_size as u16);
        let modifier = be32(field.type_modifier as u32);
        let format = be16(field.format as u16);
        assert(rest == r6.skip(2));
        assert(r6 == format + rest);
        assert(r5 == modifier + r6);
        assert(r4 == size + r5);
        assert(r3 == kind + r4);
        assert(r2 == column + r3);
        assert(r1 == table + r2);
        lemma_regroup(modifier, format, rest);
        lemma_regroup(size, modifier + format, rest);
        lemma_regroup(kind, size + (modifier + format), rest);
        lemma_regroup(column, kind + (size + (modifier + format)), rest);
        lemma_regroup(table, column + (kind + (size + (modifier + format))), rest);
        lemma_regroup(name, table + (column + (kind + (size + (modifier + format)))), rest);
    }
}

/// A SASL mechanism list can be told from its end only if no name is empty.
pub open spec fn sound_authentication(message: AuthenticationView) -> bool {
    match message {
        AuthenticationView::Md5Password { salt } => salt.len() == 4,
        AuthenticationView::Sasl { mechanisms } => forall|i: int|
            0 <= i < mechanisms.len() ==> (#[trigger] mechanisms[i]).len() > 0,
        _ => true,
    }
}

proof fn lemma_authentication(message: AuthenticationView)
    requires
        sound_authentication(message),
        authentication_body(message) is Ok,
    ensures
        whole(take_authentication(authentication_body(message)->Ok_0)) == Ok::<_, ProtocolError>(
            message,
        ),
{
    let body = authentication_body(message)->Ok_0;
    let none = Seq::<u8>::empty();
    match message {
        AuthenticationView::Accepted => {
            lemma_be32(0, none);
            assert(body =~= be32(0) + none);
        },
        AuthenticationView::KerberosV5 => {
            lemma_be32(2, none);
            assert(body =~= be32(2) + none);
        },
        AuthenticationView::CleartextPassword => {
            lemma_be32(3, none);
            assert(body =~= be32(3) + none);
        },
        AuthenticationView::Md5Password { salt } => {
            lemma_be32(5, salt);
            assert(salt.take(4) =~= salt);
        },
        AuthenticationView::Gss => {
            lemma_be32(7, none);
            assert(body =~= be32(7) + none);
        },
        AuthenticationView::GssContinue(data) => lemma_be32(8, data),
        AuthenticationView::Sspi => {
            lemma_be32(9, none);
            assert(body =~= be32(9) + none);
        },
        AuthenticationView::Sasl { mechanisms } => {
            lemma_fields();
            let list = put_until_nul(cstr_octets(), mechanisms)->Ok_0;
            lemma_be32(10, list);
            assert forall|i: int| 0 <= i < mechanisms.len() implies starts_non_nul(
                #[trigger] cstr_octets()(mechanisms[i]),
            ) by {
                assert(mechanisms[i].len() > 0);
                assert(mechanisms[i].contains(mechanisms[i][0]));
            }
            lemma_until_nul_reads_back(cstr_octets(), cstr_field(), mechanisms, none);
            assert(list + none =~= list);
        },
        AuthenticationView::SaslContinue(data) => lemma_be32(11, data),
        AuthenticationView::SaslFinal(data) => lemma_be32(12, data),
    }
}

proof fn lemma_taken_authentication(body: Seq<u8>)
    ensures
        whole(take_authentication(body)) matches Ok(message) ==> authentication_body(message)
            == Ok::<_, ProtocolError>(body),
{
    if let Ok(message) = whole(take_authentication(body)) {
        lemma_of32(body);
        let rest = body.skip(4);
        match message {
            AuthenticationView::Md5Password { salt } => {
                assert(salt =~= rest);
            },
            AuthenticationView::Sasl { mechanisms } => {
                lemma_fields();
                lemma_until_nul_writes_back(cstr_octets(), cstr_field(), rest);
                let list = put_until_nul(cstr_octets(), mechanisms)->Ok_0;
                assert(list =~= rest);
            },
            AuthenticationView::GssContinue(data) => {},
            AuthenticationView::SaslContinue(data) => {},
            AuthenticationView::SaslFinal(data) => {},
            _ => {
                assert(be32(crate::wire::of32(body)) =~= body);
            },
        }
    }
}

proof fn lemma_negotiate(message: NegotiateView)
    requires
        negotiate_body(message) is Ok,
    ensures
        whole(take_negotiate(negotiate_body(message)->Ok_0)) == Ok::<_, ProtocolError>(message),
{
    lemma_fields();
    crate::startup::law_version_code(message.newest, 0);
    let none = Seq::<u8>::empty();
    let options = put_all(cstr_octets(), message.unsupported_options)->Ok_0;
    let count = be32(message.unsupported_options.len() as u32);
    lemma_be32(message.newest.code_spec(), count + options);
    lemma_be32(message.unsupported_options.len() as u32, options);
    lemma_many_reads_back(cstr_octets(), cstr_field(), message.unsupported_options, none);
    assert(options + none =~= options);
    lemma_regroup(be32(message.newest.code_spec()), count, options);
}

proof fn lemma_taken_negotiate(body: Seq<u8>)
    ensures
        whole(take_negotiate(body)) matches Ok(message) ==> negotiate_body(message) == Ok::<
            _,
            ProtocolError,
        >(body),
{
    lemma_fields();
    if let Ok(message) = whole(take_negotiate(body)) {
        lemma_of32(body);
        let rest = body.skip(4);
        lemma_of32(rest);
        let count = crate::wire::of32(rest);
        crate::startup::law_version_code(message.newest, crate::wire::of32(body));
        lemma_many_writes_back(cstr_octets(), cstr_field(), count as nat, rest.skip(4));
        let options = put_all(cstr_octets(), message.unsupported_options)->Ok_0;
        assert(options =~= rest.skip(4));
        lemma_regroup(be32(message.newest.code_spec()), be32(count), options);
    }
}

proof fn lemma_pair(first: Seq<u8>, second: Seq<u8>)
    requires
        pair_body(first, second) is Ok,
    ensures
        whole(take_pair(pair_body(first, second)->Ok_0)) == Ok::<_, ProtocolError>(
            (first, second),
        ),
{
    let none = Seq::<u8>::empty();
    lemma_cstr(first, second.push(0u8) + none);
    lemma_cstr(second, none);
    assert(second.push(0u8) + none =~= second.push(0u8));
}

proof fn lemma_taken_pair(source: Seq<u8>)
    ensures
        whole(take_pair(source)) matches Ok((first, second)) ==> pair_body(first, second) == Ok::<
            _,
            ProtocolError,
        >(source),
{
    lemma_taken_cstr(source);
    if let Ok((first, rest)) = take_cstr(source) {
        lemma_taken_cstr(rest);
        if let Ok((first, second)) = whole(take_pair(source)) {
            assert(pair_body(first, second)->Ok_0 =~= source);
        }
    }
}

proof fn lemma_copy(message: CopyResponseView)
    requires
        copy_body(message) is Ok,
    ensures
        whole(take_copy(copy_body(message)->Ok_0)) == Ok::<_, ProtocolError>(message),
{
    lemma_fields();
    let none = Seq::<u8>::empty();
    let formats = put_counted(i16_octets(), message.column_formats)->Ok_0;
    lemma_counted_reads_back(i16_octets(), i16_field(), message.column_formats, none);
    assert(formats + none =~= formats);
    assert(copy_body(message)->Ok_0.skip(1) =~= formats);
}

proof fn lemma_taken_copy(body: Seq<u8>)
    ensures
        whole(take_copy(body)) matches Ok(message) ==> copy_body(message) == Ok::<
            _,
            ProtocolError,
        >(body),
{
    lemma_fields();
    if let Ok(message) = whole(take_copy(body)) {
        let rest = body.skip(1);
        lemma_counted_writes_back(i16_octets(), i16_field(), rest);
        let formats = put_counted(i16_octets(), message.column_formats)->Ok_0;
        assert(formats =~= rest);
        assert(seq![body[0]] + rest =~= body);
    }
}

/// The message is one that its frame can be told apart from.
pub open spec fn sound_backend(message: BackendView) -> bool {
    match message {
        BackendView::Authentication(message) => sound_authentication(message),
        BackendView::OpaqueNotice(body) => whole(take_diagnostic(body)) is Err,
        _ => true,
    }
}

/// Every backend message that can be framed is understood again from its frame.
/// A SASL offer with an empty mechanism name is an exception: the empty name ends
/// the list. So is an opaque notice that could be read, which is.
#[verifier::rlimit(40)]
pub proof fn law_backend_round_trip(message: BackendView)
    requires
        !(message is Recognised),
        sound_backend(message),
        backend_frame(message) is Ok,
    ensures
        backend_message(backend_frame(message)->Ok_0) == Ok::<_, ProtocolError>(message),
{
    let none = Seq::<u8>::empty();
    lemma_fields();
    match message {
        BackendView::RowDescription(fields) => {
            lemma_row_fields();
            lemma_counted_reads_back(row_octets(), row_field(), fields, none);
            let body = put_counted(row_octets(), fields)->Ok_0;
            assert(body + none =~= body);
        },
        BackendView::Authentication(message) => lemma_authentication(message),
        BackendView::ParameterStatus { name, value } => lemma_pair(name, value),
        BackendView::NoticeResponse(fields) => lemma_diagnostic(fields),
        BackendView::NotificationResponse { process_id, channel, payload } => {
            let pair = pair_body(channel, payload)->Ok_0;
            lemma_be32(process_id, pair);
            lemma_pair(channel, payload);
            lemma_regroup(be32(process_id), channel.push(0u8), payload.push(0u8));
        },
        BackendView::BackendKeyData { process_id, secret_key } => lemma_be32(
            process_id,
            secret_key,
        ),
        BackendView::ReadyForQuery(status) => {},
        BackendView::NegotiateProtocolVersion(message) => lemma_negotiate(message),
        BackendView::ErrorResponse(fields) => lemma_diagnostic(fields),
        BackendView::CommandComplete(tag) => {
            lemma_cstr(tag, none);
            assert(tag.push(0u8) + none =~= tag.push(0u8));
        },
        BackendView::DataRow(columns) => {
            lemma_counted_reads_back(nullable_octets(), nullable_field(), columns, none);
            let body = put_counted(nullable_octets(), columns)->Ok_0;
            assert(body + none =~= body);
        },
        BackendView::ParameterDescription(types) => {
            lemma_counted_reads_back(u32_octets(), u32_field(), types, none);
            let body = put_counted(u32_octets(), types)->Ok_0;
            assert(body + none =~= body);
        },
        BackendView::CopyInResponse(message) => lemma_copy(message),
        BackendView::CopyOutResponse(message) => lemma_copy(message),
        BackendView::CopyBothResponse(message) => lemma_copy(message),
        _ => {},
    }
}

proof fn lemma_backend_decoded_lossless(frame: FrameView)
    ensures
        backend_decoded(frame) matches Ok(message) ==> backend_frame(message) == Ok::<
            _,
            ProtocolError,
        >(frame),
{
    let body = frame.body;
    if let Ok(message) = backend_decoded(frame) {
        match message {
            BackendView::RowDescription(fields) => {
                lemma_row_fields();
                lemma_counted_writes_back(row_octets(), row_field(), body);
                assert(put_counted(row_octets(), fields)->Ok_0 =~= body);
            },
            BackendView::Authentication(message) => lemma_taken_authentication(body),
            BackendView::ParameterStatus { name, value } => lemma_taken_pair(body),
            BackendView::NoticeResponse(fields) => lemma_taken_diagnostic(body),
            BackendView::NotificationResponse { process_id, channel, payload } => {
                lemma_of32(body);
                lemma_taken_pair(body.skip(4));
                lemma_regroup(be32(process_id), channel.push(0u8), payload.push(0u8));
            },
            BackendView::BackendKeyData { process_id, secret_key } => lemma_of32(body),
            BackendView::ReadyForQuery(status) => {
                assert(seq![status_octet(status)] =~= body);
            },
            BackendView::NegotiateProtocolVersion(message) => lemma_taken_negotiate(body),
            _ => {},
        }
    }
}

/// A backend frame that decodes is reconstructed from its message, octet for
/// octet, both before and after the message is lifted.
#[verifier::rlimit(40)]
pub proof fn law_backend_lossless(frame: FrameView)
    ensures
        backend_decoded(frame) matches Ok(message) ==> backend_frame(message) == Ok::<
            _,
            ProtocolError,
        >(frame),
        backend_message(frame) matches Ok(message) ==> backend_frame(message) == Ok::<
            _,
            ProtocolError,
        >(frame),
{
    lemma_backend_decoded_lossless(frame);
    let body = frame.body;
    if backend_recognised(frame.tag) {
        lemma_fields();
        if let Ok(message) = backend_specific(frame) {
            match message {
                BackendView::ErrorResponse(fields) => lemma_taken_diagnostic(body),
                BackendView::CommandComplete(tag) => {
                    lemma_taken_cstr(body);
                    assert(tag.push(0u8) =~= body);
                },
                BackendView::DataRow(columns) => {
                    lemma_counted_writes_back(nullable_octets(), nullable_field(), body);
                    assert(put_counted(nullable_octets(), columns)->Ok_0 =~= body);
                },
                BackendView::ParameterDescription(types) => {
                    lemma_counted_writes_back(u32_octets(), u32_field(), body);
                    assert(put_counted(u32_octets(), types)->Ok_0 =~= body);
                },
                BackendView::CopyInResponse(message) => lemma_taken_copy(body),
                BackendView::CopyOutResponse(message) => lemma_taken_copy(body),
                BackendView::CopyBothResponse(message) => lemma_taken_copy(body),
                BackendView::CopyData(data) => {},
                BackendView::FunctionCallResponse(data) => {},
                _ => {
                    assert(body =~= Seq::empty());
                },
            }
        }
    }
}

impl TransactionStatus {
    /// The status octet on the wire.
    pub fn as_byte(self) -> (octet: u8)
        ensures
            octet == status_octet(self),
    {
        match self {
            TransactionStatus::Idle => tags::IDLE,
            TransactionStatus::InTransaction => tags::IN_TRANSACTION,
            TransactionStatus::FailedTransaction => tags::FAILED_TRANSACTION,
        }
    }
}

fn write_row_field(body: &mut Vec<u8>, field: &FieldDescription) -> (result: Result<
    (),
    ProtocolError,
>)
    ensures
        match result {
            Ok(_) => joined(Ok(old(body)@), put_row_field(field@)) == Ok::<_, ProtocolError>(
                final(body)@,
            ),
            Err(error) => put_row_field(field@) == Err::<Seq<u8>, _>(error),
        },
{
    let ghost before = body@;
    write_cstr(body, as_slice(&field.name))?;
    write_u32(body, field.table_oid);
    write_u16(body, field.column as u16);
    write_u32(body, field.type_oid);
    write_u16(body, field.type_size as u16);
    write_u32(body, field.type_modifier as u32);
    write_u16(body, field.format as u16);
    assert(body@ =~= before + put_row_field(field@)->Ok_0);
    Ok(())
}

impl RowDescription {
    /// Reconstructs checked result metadata after proxy rewriting.
    ///
    /// # Errors
    ///
    /// Returns an error for excessive fields or NUL-containing field names.
    #[verifier::loop_isolation(false)]
    pub fn to_frame(&self) -> (result: Result<Frame, ProtocolError>)
        ensures
            agrees(result, backend_frame(BackendView::RowDescription(self@))),
    {
        let ghost all = self@;
        let mut body: Vec<u8> = Vec::new();
        write_count(&mut body, self.fields.len())?;
        let ghost before = body@;
        assert(before =~= be16(self.fields@.len() as u16));
        let mut done: usize = 0;
        assert(all.take(0) =~= Seq::empty());
        assert(before + Seq::empty() =~= before);
        while done < self.fields.len()
            invariant
                done <= self.fields@.len(),
                joined(Ok(before), put_all(row_octets(), all.take(done as int))) == Ok::<
                    _,
                    ProtocolError,
                >(body@),
            decreases self.fields@.len() - done,
        {
            let ghost written = put_all(row_octets(), all.take(done as int))->Ok_0;
            proof {
                lemma_put_all_step(row_octets(), all, done as int);
            }
            match write_row_field(&mut body, &self.fields[done]) {
                Ok(_) => {
                    proof {
                        lemma_regroup(before, written, put_row_field(all[done as int])->Ok_0);
                    }
                },
                Err(error) => {
                    proof {
                        lemma_put_all_error(row_octets(), all, done as int + 1);
                    }
                    return Err(error);
                },
            }
            done = done + 1;
        }
        assert(all.take(all.len() as int) =~= all);
        Ok(Frame { tag: tags::ROW_DESCRIPTION, body: from_vec(body) })
    }
}

impl NegotiateProtocolVersion {
    /// Reconstructs protocol negotiation, including unsupported option names.
    ///
    /// # Errors
    ///
    /// Returns an error for too many options or NUL-containing names.
    pub fn to_frame(&self) -> (result: Result<Frame, ProtocolError>)
        ensures
            agrees(result, backend_frame(BackendView::NegotiateProtocolVersion(self@))),
    {
        let mut body: Vec<u8> = Vec::new();
        write_u32(&mut body, self.newest.code());
        assert(body@ =~= be32(self.newest.code_spec()));
        let count: usize = self.unsupported_options.len();
        if count as u64 > u32::MAX as u64 {
            return Err(ProtocolError::OptionCountExceedsU32);
        }
        write_u32(&mut body, count as u32);
        write_cstrs(&mut body, &self.unsupported_options)?;
        Ok(Frame { tag: tags::NEGOTIATE_VERSION, body: from_vec(body) })
    }
}

fn request(kind: u32, data: &[u8]) -> (body: Vec<u8>)
    ensures
        body@ == be32(kind) + data@,
{
    let mut body: Vec<u8> = Vec::new();
    write_u32(&mut body, kind);
    append(&mut body, data);
    assert(body@ =~= be32(kind) + data@);
    body
}

fn plain_request(kind: u32) -> (body: Vec<u8>)
    ensures
        body@ == be32(kind),
{
    let mut body: Vec<u8> = Vec::new();
    write_u32(&mut body, kind);
    assert(body@ =~= be32(kind));
    body
}

fn authentication_frame(authentication: &Authentication) -> (result: Result<Frame, ProtocolError>)
    ensures
        agrees(result, backend_frame(BackendView::Authentication(authentication@))),
{
    let body: Vec<u8> = match authentication {
        Authentication::Accepted => plain_request(0),
        Authentication::KerberosV5 => plain_request(2),
        Authentication::CleartextPassword => plain_request(3),
        Authentication::Md5Password { salt } => request(5, salt.as_slice()),
        Authentication::Gss => plain_request(7),
        Authentication::GssContinue(data) => request(8, as_slice(data)),
        Authentication::Sspi => plain_request(9),
        Authentication::Sasl { mechanisms } => {
            let mut body: Vec<u8> = plain_request(10);
            let ghost kind = body@;
            write_cstrs(&mut body, mechanisms)?;
            body.push(0);
            assert(body@ =~= kind + put_until_nul(cstr_octets(), texts(mechanisms@))->Ok_0);
            body
        },
        Authentication::SaslContinue(data) => request(11, as_slice(data)),
        Authentication::SaslFinal(data) => request(12, as_slice(data)),
    };
    Ok(Frame { tag: tags::AUTHENTICATION, body: from_vec(body) })
}

fn pair_frame(tag: u8, first: &Bytes, second: &Bytes) -> (result: Result<Frame, ProtocolError>)
    ensures
        agrees(result, framed(tag, pair_body(octets(*first), octets(*second)))),
{
    let mut body: Vec<u8> = Vec::new();
    write_cstr(&mut body, as_slice(first))?;
    assert(body@ =~= put_cstr(octets(*first))->Ok_0);
    write_cstr(&mut body, as_slice(second))?;
    Ok(Frame { tag, body: from_vec(body) })
}

fn notification_frame(process_id: u32, channel: &Bytes, payload: &Bytes) -> (result: Result<
    Frame,
    ProtocolError,
>)
    ensures
        agrees(
            result,
            framed(
                tags::NOTIFICATION,
                notification_body(process_id, octets(*channel), octets(*payload)),
            ),
        ),
{
    let mut body: Vec<u8> = plain_request(process_id);
    write_cstr(&mut body, as_slice(channel))?;
    write_cstr(&mut body, as_slice(payload))?;
    Ok(Frame { tag: tags::NOTIFICATION, body: from_vec(body) })
}

fn key_frame(process_id: u32, secret_key: &Bytes) -> (result: Result<Frame, ProtocolError>)
    ensures
        agrees(
            result,
            framed(tags::BACKEND_KEY_DATA, key_body(process_id, octets(*secret_key))),
        ),
{
    let key = as_slice(secret_key);
    if key.len() < 4 || key.len() > 256 {
        return Err(ProtocolError::UnencodableKeyLength);
    }
    Ok(Frame { tag: tags::BACKEND_KEY_DATA, body: from_vec(request(process_id, key)) })
}

fn copy_frame(tag: u8, message: &CopyResponse) -> (result: Result<Frame, ProtocolError>)
    ensures
        agrees(result, framed(tag, copy_body(message@))),
{
    let mut body: Vec<u8> = Vec::new();
    body.push(message.overall_format);
    assert(body@ =~= seq![message.overall_format]);
    write_i16s(&mut body, &message.column_formats)?;
    Ok(Frame { tag, body: from_vec(body) })
}

fn row_frame(message: &DataRow) -> (result: Result<Frame, ProtocolError>)
    ensures
        agrees(result, backend_frame(BackendView::DataRow(message@))),
{
    let mut body: Vec<u8> = Vec::new();
    write_nullables(&mut body, &message.columns)?;
    assert(body@ =~= put_counted(nullable_octets(), message@)->Ok_0);
    Ok(Frame { tag: tags::DATA_ROW, body: from_vec(body) })
}

fn types_frame(types: &Vec<u32>) -> (result: Result<Frame, ProtocolError>)
    ensures
        agrees(result, backend_frame(BackendView::ParameterDescription(types@))),
{
    let mut body: Vec<u8> = Vec::new();
    write_count(&mut body, types.len())?;
    write_u32s(&mut body, types);
    assert(body@ =~= put_counted(u32_octets(), types@)->Ok_0);
    Ok(Frame { tag: tags::PARAMETER_DESCRIPTION, body: from_vec(body) })
}

fn diagnostic_frame(tag: u8, message: &DiagnosticResponse) -> (result: Result<
    Frame,
    ProtocolError,
>)
    ensures
        agrees(result, framed(tag, diagnostic_body(message@))),
{
    let body = message.to_body()?;
    Ok(Frame { tag, body: from_vec(body) })
}

fn bare_frame(tag: u8) -> (result: Result<Frame, ProtocolError>)
    ensures
        agrees(result, framed(tag, Ok(Seq::empty()))),
{
    let body: Vec<u8> = Vec::new();
    assert(body@ =~= Seq::empty());
    Ok(Frame { tag, body: from_vec(body) })
}

impl BackendMessage {
    /// Reconstructs a backend frame after inspection or modification.
    ///
    /// # Errors
    ///
    /// Returns an error when a structured message contains invalid values.
    pub fn to_frame(&self) -> (result: Result<Frame, ProtocolError>)
        ensures
            agrees(result, backend_frame(self@)),
    {
        match self {
            BackendMessage::RowDescription(message) => message.to_frame(),
            BackendMessage::Authentication(message) => authentication_frame(message),
            BackendMessage::ParameterStatus { name, value } => pair_frame(
                tags::PARAMETER_STATUS,
                name,
                value,
            ),
            BackendMessage::NoticeResponse(message) => diagnostic_frame(tags::NOTICE, message),
            BackendMessage::OpaqueNotice(body) => Ok(
                Frame { tag: tags::NOTICE, body: body.clone() },
            ),
            BackendMessage::NotificationResponse { process_id, channel, payload } =>
                notification_frame(*process_id, channel, payload),
            BackendMessage::BackendKeyData { process_id, secret_key } => key_frame(
                *process_id,
                secret_key,
            ),
            BackendMessage::ReadyForQuery(status) => {
                let mut body: Vec<u8> = Vec::new();
                body.push(status.as_byte());
                assert(body@ =~= seq![status_octet(*status)]);
                Ok(Frame { tag: tags::READY_FOR_QUERY, body: from_vec(body) })
            },
            BackendMessage::NegotiateProtocolVersion(message) => message.to_frame(),
            BackendMessage::ErrorResponse(message) => diagnostic_frame(tags::ERROR, message),
            BackendMessage::ParseComplete => bare_frame(tags::PARSE_COMPLETE),
            BackendMessage::BindComplete => bare_frame(tags::BIND_COMPLETE),
            BackendMessage::CloseComplete => bare_frame(tags::CLOSE_COMPLETE),
            BackendMessage::CommandComplete(tag) => {
                let mut body: Vec<u8> = Vec::new();
                write_cstr(&mut body, as_slice(tag))?;
                assert(body@ =~= octets(*tag).push(0u8));
                Ok(Frame { tag: tags::COMMAND_COMPLETE, body: from_vec(body) })
            },
            BackendMessage::DataRow(message) => row_frame(message),
            BackendMessage::NoData => bare_frame(tags::NO_DATA),
            BackendMessage::ParameterDescription(types) => types_frame(types),
            BackendMessage::PortalSuspended => bare_frame(tags::PORTAL_SUSPENDED),
            BackendMessage::EmptyQueryResponse => bare_frame(tags::EMPTY_QUERY),
            BackendMessage::FunctionCallResponse(data) => Ok(
                Frame { tag: tags::FUNCTION_RESULT, body: data.clone() },
            ),
            BackendMessage::CopyInResponse(message) => copy_frame(tags::COPY_IN, message),
            BackendMessage::CopyOutResponse(message) => copy_frame(tags::COPY_OUT, message),
            BackendMessage::CopyBothResponse(message) => copy_frame(tags::COPY_BOTH, message),
            BackendMessage::CopyData(data) => Ok(
                Frame { tag: tags::COPY_DATA, body: data.clone() },
            ),
            BackendMessage::CopyDone => bare_frame(tags::COPY_DONE),
            BackendMessage::Recognised(frame) => Ok(frame.duplicate()),
        }
    }

    /// Lifts a recognised frame into its specific representation.
    ///
    /// # Errors
    ///
    /// Returns an error when the body of a recognised frame is malformed.
    pub fn lift(self) -> (result: Result<BackendMessage, ProtocolError>)
        ensures
            agrees(result, backend_lifted(self@)),
    {
        match self {
            BackendMessage::Recognised(frame) => lift_frame(frame),
            other => Ok(other),
        }
    }
}

fn lift_bare(body: &Bytes, message: BackendMessage) -> (result: Result<
    BackendMessage,
    ProtocolError,
>)
    ensures
        agrees(result, bare(octets(*body), message@)),
{
    read_end(body)?;
    Ok(message)
}

fn lift_frame(frame: Frame) -> (result: Result<BackendMessage, ProtocolError>)
    ensures
        agrees(result, backend_specific(frame@)),
{
    let tag: u8 = frame.tag;
    match tag {
        tags::PARSE_COMPLETE => lift_bare(&frame.body, BackendMessage::ParseComplete),
        tags::BIND_COMPLETE => lift_bare(&frame.body, BackendMessage::BindComplete),
        tags::CLOSE_COMPLETE => lift_bare(&frame.body, BackendMessage::CloseComplete),
        tags::COPY_DONE => lift_bare(&frame.body, BackendMessage::CopyDone),
        tags::COMMAND_COMPLETE => Ok(BackendMessage::CommandComplete(decode_text(frame.body)?)),
        tags::COPY_DATA => Ok(BackendMessage::CopyData(frame.body)),
        tags::DATA_ROW => Ok(BackendMessage::DataRow(decode_data_row(frame.body)?)),
        tags::ERROR => Ok(BackendMessage::ErrorResponse(DiagnosticResponse::from_body(frame.body)?)),
        tags::COPY_IN => Ok(BackendMessage::CopyInResponse(decode_copy(frame.body)?)),
        tags::COPY_OUT => Ok(BackendMessage::CopyOutResponse(decode_copy(frame.body)?)),
        tags::COPY_BOTH => Ok(BackendMessage::CopyBothResponse(decode_copy(frame.body)?)),
        tags::EMPTY_QUERY => lift_bare(&frame.body, BackendMessage::EmptyQueryResponse),
        tags::NO_DATA => lift_bare(&frame.body, BackendMessage::NoData),
        tags::PORTAL_SUSPENDED => lift_bare(&frame.body, BackendMessage::PortalSuspended),
        tags::PARAMETER_DESCRIPTION => Ok(
            BackendMessage::ParameterDescription(decode_types(frame.body)?),
        ),
        tags::FUNCTION_RESULT => Ok(BackendMessage::FunctionCallResponse(frame.body)),
        _ => Backend::decode(frame),
    }
}

fn decode_data_row(body: Bytes) -> (result: Result<DataRow, ProtocolError>)
    ensures
        agrees(result, whole(take_counted(nullable_field(), octets(body)))),
{
    let mut body = body;
    let columns = read_nullables(&mut body)?;
    read_end(&body)?;
    Ok(DataRow { columns })
}

fn decode_types(body: Bytes) -> (result: Result<Vec<u32>, ProtocolError>)
    ensures
        agrees(result, whole(take_counted(u32_field(), octets(body)))),
{
    let mut body = body;
    let count: u16 = read_u16(&mut body)?;
    let types = read_u32s(&mut body, count as u32)?;
    read_end(&body)?;
    Ok(types)
}

fn decode_copy(body: Bytes) -> (result: Result<CopyResponse, ProtocolError>)
    ensures
        agrees(result, whole(take_copy(octets(body)))),
{
    let mut body = body;
    let overall_format: u8 = read_u8(&mut body)?;
    let column_formats = read_i16s(&mut body)?;
    read_end(&body)?;
    Ok(CopyResponse { overall_format, column_formats })
}

#[verifier::loop_isolation(false)]
fn read_mechanisms(body: &mut Bytes) -> (result: Result<Vec<Bytes>, ProtocolError>)
    ensures
        match result {
            Ok(items) => take_until_nul(cstr_field(), octets(*old(body))) == Ok::<
                _,
                ProtocolError,
            >((texts(items@), octets(*final(body)))),
            Err(error) => take_until_nul(cstr_field(), octets(*old(body))) == Err::<
                (Seq<Seq<u8>>, Seq<u8>),
                _,
            >(error),
        },
{
    let ghost source = octets(*body);
    let mut items: Vec<Bytes> = Vec::new();
    assert(texts(items@) =~= Seq::empty());
    proof {
        if let Ok((all, rest)) = take_until_nul(cstr_field(), source) {
            assert(Seq::<Seq<u8>>::empty() + all =~= all);
        }
    }
    while as_slice(body).len() > 0 && as_slice(body)[0] != 0
        invariant
            take_until_nul(cstr_field(), source) == followed(
                texts(items@),
                take_until_nul(cstr_field(), octets(*body)),
            ),
        decreases octets(*body).len(),
    {
        proof {
            lemma_taken_cstr(octets(*body));
        }
        let value = read_cstr(body)?;
        proof {
            lemma_followed(
                texts(items@),
                octets(value),
                take_until_nul(cstr_field(), octets(*body)),
            );
            assert(texts(items@.push(value)) =~= texts(items@).push(octets(value)));
        }
        items.push(value);
    }
    if as_slice(body).len() == 0 {
        return Err(ProtocolError::TruncatedBody);
    }
    advance(body, 1);
    assert(texts(items@) + Seq::empty() =~= texts(items@));
    Ok(items)
}

fn decode_authentication(body: Bytes) -> (result: Result<Authentication, ProtocolError>)
    ensures
        agrees(result, whole(take_authentication(octets(body)))),
{
    let mut body = body;
    let kind: u32 = read_u32(&mut body)?;
    let authentication = match kind {
        0 => Authentication::Accepted,
        2 => Authentication::KerberosV5,
        3 => Authentication::CleartextPassword,
        5 => {
            if as_slice(&body).len() < 4 {
                return Err(ProtocolError::TruncatedBody);
            }
            let octets = split_to(&mut body, 4);
            let slice = as_slice(&octets);
            let salt: [u8; 4] = [slice[0], slice[1], slice[2], slice[3]];
            assert(salt@ =~= slice@);
            Authentication::Md5Password { salt }
        },
        7 => Authentication::Gss,
        8 => return Ok(Authentication::GssContinue(body)),
        9 => Authentication::Sspi,
        10 => Authentication::Sasl { mechanisms: read_mechanisms(&mut body)? },
        11 => return Ok(Authentication::SaslContinue(body)),
        12 => return Ok(Authentication::SaslFinal(body)),
        _ => return Err(ProtocolError::UnknownAuthentication),
    };
    read_end(&body)?;
    Ok(authentication)
}

fn decode_parameter_status(body: Bytes) -> (result: Result<BackendMessage, ProtocolError>)
    ensures
        agrees(result, parameter_of(octets(body))),
{
    let mut body = body;
    let name = read_cstr(&mut body)?;
    let value = read_cstr(&mut body)?;
    read_end(&body)?;
    Ok(BackendMessage::ParameterStatus { name, value })
}

fn decode_notification(body: Bytes) -> (result: Result<BackendMessage, ProtocolError>)
    ensures
        agrees(result, notification_of(octets(body))),
{
    let mut body = body;
    let process_id: u32 = read_u32(&mut body)?;
    let channel = read_cstr(&mut body)?;
    let payload = read_cstr(&mut body)?;
    read_end(&body)?;
    Ok(BackendMessage::NotificationResponse { process_id, channel, payload })
}

fn decode_backend_key_data(body: Bytes) -> (result: Result<BackendMessage, ProtocolError>)
    ensures
        agrees(result, key_of(octets(body))),
{
    let mut body = body;
    let process_id: u32 = read_u32(&mut body)?;
    let length: usize = as_slice(&body).len();
    if length < 4 || length > 256 {
        return Err(ProtocolError::KeyLength);
    }
    Ok(BackendMessage::BackendKeyData { process_id, secret_key: body })
}

fn decode_ready(body: Bytes) -> (result: Result<BackendMessage, ProtocolError>)
    ensures
        agrees(result, ready_of(octets(body))),
{
    let mut body = body;
    let status = match read_u8(&mut body)? {
        tags::IDLE => TransactionStatus::Idle,
        tags::IN_TRANSACTION => TransactionStatus::InTransaction,
        tags::FAILED_TRANSACTION => TransactionStatus::FailedTransaction,
        _ => return Err(ProtocolError::UnknownTransactionStatus),
    };
    read_end(&body)?;
    Ok(BackendMessage::ReadyForQuery(status))
}

fn decode_negotiate_protocol_version(body: Bytes) -> (result: Result<
    NegotiateProtocolVersion,
    ProtocolError,
>)
    ensures
        agrees(result, whole(take_negotiate(octets(body)))),
{
    let mut body = body;
    let code: u32 = read_u32(&mut body)?;
    let count: u32 = read_u32(&mut body)?;
    let unsupported_options = read_cstrs(&mut body, count)?;
    read_end(&body)?;
    Ok(NegotiateProtocolVersion { newest: ProtocolVersion::from_code(code), unsupported_options })
}

fn read_row_field(body: &mut Bytes) -> (result: Result<FieldDescription, ProtocolError>)
    ensures
        match result {
            Ok(field) => take_row_field(octets(*old(body))) == Ok::<_, ProtocolError>(
                (field@, octets(*final(body))),
            ),
            Err(error) => take_row_field(octets(*old(body))) == Err::<
                (FieldDescriptionView, Seq<u8>),
                _,
            >(error),
        },
{
    let name = read_cstr(body)?;
    let table_oid: u32 = read_u32(body)?;
    let column: i16 = read_i16(body)?;
    let type_oid: u32 = read_u32(body)?;
    let type_size: i16 = read_i16(body)?;
    let type_modifier: i32 = read_i32(body)?;
    let format: i16 = read_i16(body)?;
    Ok(
        FieldDescription {
            name,
            table_oid,
            column,
            type_oid,
            type_size,
            type_modifier,
            format,
        },
    )
}

#[verifier::loop_isolation(false)]
fn decode_row_description(body: Bytes) -> (result: Result<RowDescription, ProtocolError>)
    ensures
        agrees(result, whole(take_counted(row_field(), octets(body)))),
{
    let mut body = body;
    let count: u16 = read_u16(&mut body)?;
    let ghost source = octets(body);
    let mut fields: Vec<FieldDescription> = Vec::new();
    let mut done: u16 = 0;
    assert(row_fields(fields@) =~= Seq::empty());
    while done < count
        invariant
            done <= count,
            take_many(row_field(), count as nat, source) == followed(
                row_fields(fields@),
                take_many(row_field(), (count - done) as nat, octets(body)),
            ),
        decreases count - done,
    {
        let field = read_row_field(&mut body)?;
        proof {
            lemma_followed(
                row_fields(fields@),
                field@,
                take_many(row_field(), (count - done - 1) as nat, octets(body)),
            );
            assert(row_fields(fields@.push(field)) =~= row_fields(fields@).push(field@));
        }
        fields.push(field);
        done = done + 1;
    }
    assert(row_fields(fields@) + Seq::empty() =~= row_fields(fields@));
    read_end(&body)?;
    Ok(RowDescription { fields })
}

impl Direction for Backend {
    type Message = BackendMessage;

    open spec fn decoded(frame: FrameView) -> Result<BackendView, ProtocolError> {
        backend_decoded(frame)
    }

    fn decode(frame: Frame) -> (result: Result<BackendMessage, ProtocolError>) {
        let tag: u8 = frame.tag;
        match tag {
            tags::ROW_DESCRIPTION => Ok(
                BackendMessage::RowDescription(decode_row_description(frame.body)?),
            ),
            tags::AUTHENTICATION => Ok(
                BackendMessage::Authentication(decode_authentication(frame.body)?),
            ),
            tags::PARAMETER_STATUS => decode_parameter_status(frame.body),
            tags::NOTICE => match DiagnosticResponse::from_body(frame.body.clone()) {
                Ok(fields) => Ok(BackendMessage::NoticeResponse(fields)),
                Err(_) => Ok(BackendMessage::OpaqueNotice(frame.body)),
            },
            tags::NOTIFICATION => decode_notification(frame.body),
            tags::BACKEND_KEY_DATA => decode_backend_key_data(frame.body),
            tags::READY_FOR_QUERY => decode_ready(frame.body),
            tags::NEGOTIATE_VERSION => Ok(
                BackendMessage::NegotiateProtocolVersion(
                    decode_negotiate_protocol_version(frame.body)?,
                ),
            ),
            tags::PARSE_COMPLETE
            | tags::BIND_COMPLETE
            | tags::CLOSE_COMPLETE
            | tags::COPY_DONE
            | tags::COMMAND_COMPLETE
            | tags::COPY_DATA
            | tags::DATA_ROW
            | tags::ERROR
            | tags::COPY_IN
            | tags::COPY_OUT
            | tags::EMPTY_QUERY
            | tags::NO_DATA
            | tags::PORTAL_SUSPENDED
            | tags::PARAMETER_DESCRIPTION
            | tags::FUNCTION_RESULT
            | tags::COPY_BOTH => Ok(BackendMessage::Recognised(frame)),
            _ => Err(ProtocolError::UnknownTag { side: Side::Backend, tag }),
        }
    }
}

} // verus!
