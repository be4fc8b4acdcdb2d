//! Copies of messages. A copy shares the octets and says the same.

use bytes::Bytes;
use vstd::prelude::*;

use super::backend::{
    Authentication, BackendMessage, CopyResponse, DataRow, FieldDescription,
    NegotiateProtocolVersion, RowDescription,
};
use super::frontend::{
    Bind, Close, Describe, Execute, FrontendMessage, FunctionCall, Parse,
};
use crate::demux::SessionItem;
use crate::lists::{nullables, texts};

verus! {

fn copy_texts(items: &Vec<Bytes>) -> (copy: Vec<Bytes>)
    ensures
        texts(copy@) == texts(items@),
{
    let copy = items.clone();
    assert(texts(copy@) =~= texts(items@));
    copy
}

fn copy_nullables(items: &Vec<Option<Bytes>>) -> (copy: Vec<Option<Bytes>>)
    ensures
        nullables(copy@) == nullables(items@),
{
    let copy = items.clone();
    assert(nullables(copy@) =~= nullables(items@));
    copy
}

fn copy_formats(items: &Vec<i16>) -> (copy: Vec<i16>)
    ensures
        copy@ == items@,
{
    let copy = items.clone();
    assert(copy@ =~= items@);
    copy
}

fn copy_types(items: &Vec<u32>) -> (copy: Vec<u32>)
    ensures
        copy@ == items@,
{
    let copy = items.clone();
    assert(copy@ =~= items@);
    copy
}

impl FrontendMessage {
    /// Another handle on the same message.
    pub fn duplicate(&self) -> (copy: FrontendMessage)
        ensures
            copy@ == self@,
    {
        match self {
            FrontendMessage::Parse(message) => FrontendMessage::Parse(
                Parse {
                    statement: message.statement.clone(),
                    query: message.query.clone(),
                    parameter_types: copy_types(&message.parameter_types),
                },
            ),
            FrontendMessage::Bind(message) => FrontendMessage::Bind(
                Bind {
                    portal: message.portal.clone(),
                    statement: message.statement.clone(),
                    parameter_formats: copy_formats(&message.parameter_formats),
                    parameters: copy_nullables(&message.parameters),
                    result_formats: copy_formats(&message.result_formats),
                },
            ),
            FrontendMessage::Describe(message) => FrontendMessage::Describe(
                Describe { target: message.target, name: message.name.clone() },
            ),
            FrontendMessage::Execute(message) => FrontendMessage::Execute(
                Execute { portal: message.portal.clone(), max_rows: message.max_rows },
            ),
            FrontendMessage::Close(message) => FrontendMessage::Close(
                Close { target: message.target, name: message.name.clone() },
            ),
            FrontendMessage::Query(query) => FrontendMessage::Query(query.clone()),
            FrontendMessage::FunctionCall(message) => FrontendMessage::FunctionCall(
                FunctionCall {
                    function: message.function,
                    argument_formats: copy_formats(&message.argument_formats),
                    arguments: copy_nullables(&message.arguments),
                    result_format: message.result_format,
                },
            ),
            FrontendMessage::CopyData(data) => FrontendMessage::CopyData(data.clone()),
            FrontendMessage::CopyDone => FrontendMessage::CopyDone,
            FrontendMessage::CopyFail(reason) => FrontendMessage::CopyFail(reason.clone()),
            FrontendMessage::PasswordResponse(data) => FrontendMessage::PasswordResponse(
                data.clone(),
            ),
            FrontendMessage::Flush => FrontendMessage::Flush,
            FrontendMessage::Sync => FrontendMessage::Sync,
            FrontendMessage::Terminate => FrontendMessage::Terminate,
            FrontendMessage::Recognised(frame) => FrontendMessage::Recognised(frame.duplicate()),
        }
    }
}

#[verifier::loop_isolation(false)]
fn copy_fields(message: &RowDescription) -> (copy: RowDescription)
    ensures
        copy@ == message@,
{
    let mut fields: Vec<FieldDescription> = Vec::new();
    while fields.len() < message.fields.len()
        invariant
            fields@.len() <= message.fields@.len(),
            forall|i: int| 0 <= i < fields@.len() ==> (#[trigger] fields@[i])@ == message.fields@[i]@,
        decreases message.fields@.len() - fields@.len(),
    {
        let field = &message.fields[fields.len()];
        let copied = FieldDescription {
            name: field.name.clone(),
            table_oid: field.table_oid,
            column: field.column,
            type_oid: field.type_oid,
            type_size: field.type_size,
            type_modifier: field.type_modifier,
            format: field.format,
        };
        assert(copied@ == field@);
        fields.push(copied);
    }
    let copy = RowDescription { fields };
    assert(copy@ =~= message@);
    copy
}

fn copy_authentication(message: &Authentication) -> (copy: Authentication)
    ensures
        copy@ == message@,
{
    match message {
        Authentication::Accepted => Authentication::Accepted,
        Authentication::KerberosV5 => Authentication::KerberosV5,
        Authentication::CleartextPassword => Authentication::CleartextPassword,
        Authentication::Md5Password { salt } => Authentication::Md5Password { salt: *salt },
        Authentication::Gss => Authentication::Gss,
        Authentication::GssContinue(token) => Authentication::GssContinue(token.clone()),
        Authentication::Sspi => Authentication::Sspi,
        Authentication::Sasl { mechanisms } => Authentication::Sasl {
            mechanisms: copy_texts(mechanisms),
        },
        Authentication::SaslContinue(data) => Authentication::SaslContinue(data.clone()),
        Authentication::SaslFinal(data) => Authentication::SaslFinal(data.clone()),
    }
}

fn copy_response(message: &CopyResponse) -> (copy: CopyResponse)
    ensures
        copy@ == message@,
{
    CopyResponse {
        overall_format: message.overall_format,
        column_formats: copy_formats(&message.column_formats),
    }
}

impl BackendMessage {
    /// Another handle on the same message.
    pub fn duplicate(&self) -> (copy: BackendMessage)
        ensures
            copy@ == self@,
    {
        match self {
            BackendMessage::RowDescription(message) => BackendMessage::RowDescription(
                copy_fields(message),
            ),
            BackendMessage::Authentication(message) => BackendMessage::Authentication(
                copy_authentication(message),
            ),
            BackendMessage::ParameterStatus { name, value } => BackendMessage::ParameterStatus {
                name: name.clone(),
                value: value.clone(),
            },
            BackendMessage::NoticeResponse(message) => BackendMessage::NoticeResponse(
                message.duplicate(),
            ),
            BackendMessage::OpaqueNotice(body) => BackendMessage::OpaqueNotice(body.clone()),
            BackendMessage::NotificationResponse { process_id, channel, payload } =>
                BackendMessage::NotificationResponse {
                process_id: *process_id,
                channel: channel.clone(),
                payload: payload.clone(),
            },
            BackendMessage::BackendKeyData { process_id, secret_key } =>
                BackendMessage::BackendKeyData {
                process_id: *process_id,
                secret_key: secret_key.clone(),
            },
            BackendMessage::ReadyForQuery(status) => BackendMessage::ReadyForQuery(*status),
            BackendMessage::NegotiateProtocolVersion(message) =>
                BackendMessage::NegotiateProtocolVersion(
                NegotiateProtocolVersion {
                    newest: message.newest,
                    unsupported_options: copy_texts(&message.unsupported_options),
                },
            ),
            BackendMessage::ErrorResponse(message) => BackendMessage::ErrorResponse(
                message.duplicate(),
            ),
            BackendMessage::ParseComplete => BackendMessage::ParseComplete,
            BackendMessage::BindComplete => BackendMessage::BindComplete,
            BackendMessage::CloseComplete => BackendMessage::CloseComplete,
            BackendMessage::CommandComplete(tag) => BackendMessage::CommandComplete(tag.clone()),
            BackendMessage::DataRow(message) => BackendMessage::DataRow(
                DataRow { columns: copy_nullables(&message.columns) },
            ),
            BackendMessage::NoData => BackendMessage::NoData,
            BackendMessage::ParameterDescription(types) => BackendMessage::ParameterDescription(
                copy_types(types),
            ),
            BackendMessage::PortalSuspended => BackendMessage::PortalSuspended,
            BackendMessage::EmptyQueryResponse => BackendMessage::EmptyQueryResponse,
            BackendMessage::FunctionCallResponse(data) => BackendMessage::FunctionCallResponse(
                data.clone(),
            ),
            BackendMessage::CopyInResponse(message) => BackendMessage::CopyInResponse(
                copy_response(message),
            ),
            BackendMessage::CopyOutResponse(message) => BackendMessage::CopyOutResponse(
                copy_response(message),
            ),
            BackendMessage::CopyBothResponse(message) => BackendMessage::CopyBothResponse(
                copy_response(message),
            ),
            BackendMessage::CopyData(data) => BackendMessage::CopyData(data.clone()),
            BackendMessage::CopyDone => BackendMessage::CopyDone,
            BackendMessage::Recognised(frame) => BackendMessage::Recognised(frame.duplicate()),
        }
    }
}

impl SessionItem {
    /// The backend message of this item, which is kept.
    pub fn as_backend_message(&self) -> (message: BackendMessage)
        ensures
            message@ == SessionItem::backend(self@),
    {
        match self {
            SessionItem::Message(message) => message.duplicate(),
            SessionItem::ReadyForQuery { status, .. } => BackendMessage::ReadyForQuery(*status),
            SessionItem::CommandComplete { tag, .. } => BackendMessage::CommandComplete(
                tag.clone(),
            ),
        }
    }
}

} // verus!
