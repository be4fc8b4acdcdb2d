//! Messages sent by a frontend.

use bytes::Bytes;
use vstd::prelude::*;

use super::frame::{agrees, Direction, Frame, FrameView};
use super::tags;
use crate::error::{ProtocolError, Side};
use crate::lists::{
    nullables, read_i16s, read_nullables, read_u32s, write_i16s, write_nullables, write_u32s,
};
use crate::octets::{as_slice, from_vec, octets};
use crate::wire::{
    be16, be32, i16_field, i16_octets, joined, lemma_be16, lemma_be32, lemma_counted_reads_back,
    lemma_counted_writes_back, lemma_cstr, lemma_fields, lemma_of16, lemma_of32, lemma_signed,
    lemma_taken_cstr, nullable_field, nullable_octets, put_counted, put_cstr, read_cstr, read_end,
    read_i16, read_i32, read_u16, read_u32, read_u8, take_counted, take_cstr, take_i16, take_i32,
    take_u32, take_u8, u32_field, u32_octets, whole, write_count, write_cstr, write_u16, write_u32,
    Put, Taken,
};

verus! {

/// Messages sent by a `PostgreSQL` frontend. A type index: its value carries nothing.
#[derive(Debug)]
pub enum Frontend {
    Index,
}

/// Prepares a statement.
#[derive(Clone, Debug, PartialEq, Eq)]
pub struct Parse {
    pub statement: Bytes,
    pub query: Bytes,
    pub parameter_types: Vec<u32>,
}

/// Binds a portal to a prepared statement.
#[derive(Clone, Debug, PartialEq, Eq)]
pub struct Bind {
    pub portal: Bytes,
    pub statement: Bytes,
    pub parameter_formats: Vec<i16>,
    pub parameters: Vec<Option<Bytes>>,
    pub result_formats: Vec<i16>,
}

/// Whether a name denotes a prepared statement or a portal.
#[derive(Clone, Copy, Debug, PartialEq, Eq, Structural)]
pub enum DescribeTarget {
    Statement,
    Portal,
}

/// Asks for the description of a statement or portal.
#[derive(Clone, Debug, PartialEq, Eq)]
pub struct Describe {
    pub target: DescribeTarget,
    pub name: Bytes,
}

/// Runs a portal, up to `max_rows` rows unless it is zero.
#[derive(Clone, Debug, PartialEq, Eq)]
pub struct Execute {
    pub portal: Bytes,
    pub max_rows: i32,
}

/// Closes a statement or portal.
#[derive(Clone, Debug, PartialEq, Eq)]
pub struct Close {
    pub target: DescribeTarget,
    pub name: Bytes,
}

/// Calls a function by object identifier.
#[derive(Clone, Debug, PartialEq, Eq)]
pub struct FunctionCall {
    pub function: u32,
    pub argument_formats: Vec<i16>,
    pub arguments: Vec<Option<Bytes>>,
    pub result_format: i16,
}

/// Frontend messages whose contents a rewriting proxy must retain structurally.
#[derive(Clone, Debug, PartialEq, Eq)]
pub enum FrontendMessage {
    Parse(Parse),
    Bind(Bind),
    Describe(Describe),
    Execute(Execute),
    Close(Close),
    Query(Bytes),
    FunctionCall(FunctionCall),
    CopyData(Bytes),
    CopyDone,
    CopyFail(Bytes),
    PasswordResponse(Bytes),
    Flush,
    Sync,
    Terminate,
    /// A recognised message not yet lifted into a more specific representation.
    Recognised(Frame),
}

#[verifier::ext_equal]
pub struct ParseView {
    pub statement: Seq<u8>,
    pub query: Seq<u8>,
    pub parameter_types: Seq<u32>,
}

#[verifier::ext_equal]
pub struct BindView {
    pub portal: Seq<u8>,
    pub statement: Seq<u8>,
    pub parameter_formats: Seq<i16>,
    pub parameters: Seq<Option<Seq<u8>>>,
    pub result_formats: Seq<i16>,
}

/// A target octet with a name, as in Describe and Close.
#[verifier::ext_equal]
pub struct NamedView {
    pub target: DescribeTarget,
    pub name: Seq<u8>,
}

#[verifier::ext_equal]
pub struct ExecuteView {
    pub portal: Seq<u8>,
    pub max_rows: i32,
}

#[verifier::ext_equal]
pub struct FunctionCallView {
    pub function: u32,
    pub argument_formats: Seq<i16>,
    pub arguments: Seq<Option<Seq<u8>>>,
    pub result_format: i16,
}

/// What a frontend message says.
#[verifier::ext_equal]
pub enum FrontendView {
    Parse(ParseView),
    Bind(BindView),
    Describe(NamedView),
    Execute(ExecuteView),
    Close(NamedView),
    Query(Seq<u8>),
    FunctionCall(FunctionCallView),
    CopyData(Seq<u8>),
    CopyDone,
    CopyFail(Seq<u8>),
    PasswordResponse(Seq<u8>),
    Flush,
    Sync,
    Terminate,
    Recognised(FrameView),
}

impl View for Parse {
    type V = ParseView;

    open spec fn view(&self) -> ParseView {
        ParseView {
            statement: octets(self.statement),
            query: octets(self.query),
            parameter_types: self.parameter_types@,
        }
    }
}

impl View for Bind {
    type V = BindView;

    open spec fn view(&self) -> BindView {
        BindView {
            portal: octets(self.portal),
            statement: octets(self.statement),
            parameter_formats: self.parameter_formats@,
            parameters: nullables(self.parameters@),
            result_formats: self.result_formats@,
        }
    }
}

impl View for Describe {
    type V = NamedView;

    open spec fn view(&self) -> NamedView {
        NamedView { target: self.target, name: octets(self.name) }
    }
}

impl View for Close {
    type V = NamedView;

    open spec fn view(&self) -> NamedView {
        NamedView { target: self.target, name: octets(self.name) }
    }
}

impl View for Execute {
    type V = ExecuteView;

    open spec fn view(&self) -> ExecuteView {
        ExecuteView { portal: octets(self.portal), max_rows: self.max_rows }
    }
}

impl View for FunctionCall {
    type V = FunctionCallView;

    open spec fn view(&self) -> FunctionCallView {
        FunctionCallView {
            function: self.function,
            argument_formats: self.argument_formats@,
            arguments: nullables(self.arguments@),
            result_format: self.result_format,
        }
    }
}

impl View for FrontendMessage {
    type V = FrontendView;

    open spec fn view(&self) -> FrontendView {
        match self {
            FrontendMessage::Parse(message) => FrontendView::Parse(message@),
            FrontendMessage::Bind(message) => FrontendView::Bind(message@),
            FrontendMessage::Describe(message) => FrontendView::Describe(message@),
            FrontendMessage::Execute(message) => FrontendView::Execute(message@),
            FrontendMessage::Close(message) => FrontendView::Close(message@),
            FrontendMessage::Query(query) => FrontendView::Query(octets(*query)),
            FrontendMessage::FunctionCall(message) => FrontendView::FunctionCall(message@),
            FrontendMessage::CopyData(data) => FrontendView::CopyData(octets(*data)),
            FrontendMessage::CopyDone => FrontendView::CopyDone,
            FrontendMessage::CopyFail(reason) => FrontendView::CopyFail(octets(*reason)),
            FrontendMessage::PasswordResponse(data) => FrontendView::PasswordResponse(
                octets(*data),
            ),
            FrontendMessage::Flush => FrontendView::Flush,
            FrontendMessage::Sync => FrontendView::Sync,
            FrontendMessage::Terminate => FrontendView::Terminate,
            FrontendMessage::Recognised(frame) => FrontendView::Recognised(frame@),
        }
    }
}

pub open spec fn target_octet(target: DescribeTarget) -> u8 {
    match target {
        DescribeTarget::Statement => tags::STATEMENT,
        DescribeTarget::Portal => tags::PORTAL,
    }
}

/// Frame of a message with the given body, where the body can be written.
pub open spec fn framed(tag: u8, body: Put) -> Result<FrameView, ProtocolError> {
    match body {
        Ok(body) => Ok(FrameView { tag, body }),
        Err(error) => Err(error),
    }
}

pub open spec fn parse_body(message: ParseView) -> Put {
    joined(
        joined(put_cstr(message.statement), put_cstr(message.query)),
        put_counted(u32_octets(), message.parameter_types),
    )
}

pub open spec fn bind_body(message: BindView) -> Put {
    joined(
        joined(
            joined(
                joined(put_cstr(message.portal), put_cstr(message.statement)),
                put_counted(i16_octets(), message.parameter_formats),
            ),
            put_counted(nullable_octets(), message.parameters),
        ),
        put_counted(i16_octets(), message.result_formats),
    )
}

pub open spec fn named_body(message: NamedView) -> Put {
    joined(Ok(seq![target_octet(message.target)]), put_cstr(message.name))
}

pub open spec fn execute_body(message: ExecuteView) -> Put {
    joined(put_cstr(message.portal), Ok(be32(message.max_rows as u32)))
}

pub open spec fn function_call_body(message: FunctionCallView) -> Put {
    joined(
        joined(
            joined(
                Ok(be32(message.function)),
                put_counted(i16_octets(), message.argument_formats),
            ),
            put_counted(nullable_octets(), message.arguments),
        ),
        Ok(be16(message.result_format as u16)),
    )
}

/// Frame that a frontend message is sent as.
pub open spec fn frontend_frame(message: FrontendView) -> Result<FrameView, ProtocolError> {
    match message {
        FrontendView::Parse(message) => framed(tags::PARSE, parse_body(message)),
        FrontendView::Bind(message) => framed(tags::BIND, bind_body(message)),
        FrontendView::Describe(message) => framed(tags::DESCRIBE, named_body(message)),
        FrontendView::Execute(message) => framed(tags::EXECUTE, execute_body(message)),
        FrontendView::Close(message) => framed(tags::CLOSE, named_body(message)),
        FrontendView::Query(query) => framed(tags::QUERY, put_cstr(query)),
        FrontendView::FunctionCall(message) => framed(tags::FUNCTION_CALL, function_call_body(message)),
        FrontendView::CopyData(data) => framed(tags::COPY_DATA, Ok(data)),
        FrontendView::CopyDone => framed(tags::COPY_DONE, Ok(Seq::empty())),
        FrontendView::CopyFail(reason) => framed(tags::COPY_FAIL, put_cstr(reason)),
        FrontendView::PasswordResponse(data) => framed(tags::PASSWORD, Ok(data)),
        FrontendView::Flush => framed(tags::FLUSH, Ok(Seq::empty())),
        FrontendView::Sync => framed(tags::SYNC, Ok(Seq::empty())),
        FrontendView::Terminate => framed(tags::TERMINATE, Ok(Seq::empty())),
        FrontendView::Recognised(frame) => Ok(frame),
    }
}

pub open spec fn take_parse(body: Seq<u8>) -> Taken<ParseView> {
    match take_cstr(body) {
        Err(error) => Err(error),
        Ok((statement, rest)) => match take_cstr(rest) {
            Err(error) => Err(error),
            Ok((query, rest)) => match take_counted(u32_field(), rest) {
                Err(error) => Err(error),
                Ok((parameter_types, rest)) => Ok(
                    (ParseView { statement, query, parameter_types }, rest),
                ),
            },
        },
    }
}

pub open spec fn take_bind(body: Seq<u8>) -> Taken<BindView> {
    match take_cstr(body) {
        Err(error) => Err(error),
        Ok((portal, rest)) => match take_cstr(rest) {
            Err(error) => Err(error),
            Ok((statement, rest)) => match take_counted(i16_field(), rest) {
                Err(error) => Err(error),
                Ok((parameter_formats, rest)) => match take_counted(nullable_field(), rest) {
                    Err(error) => Err(error),
                    Ok((parameters, rest)) => match take_counted(i16_field(), rest) {
                        Err(error) => Err(error),
                        Ok((result_formats, rest)) => Ok(
                            (
                                BindView {
                                    portal,
                                    statement,
                                    parameter_formats,
                                    parameters,
                                    result_formats,
                                },
                                rest,
                            ),
                        ),
                    },
                },
            },
        },
    }
}

pub open spec fn target_of(octet: u8) -> Option<DescribeTarget> {
    if octet == tags::STATEMENT {
        Some(DescribeTarget::Statement)
    } else if octet == tags::PORTAL {
        Some(DescribeTarget::Portal)
    } else {
        None
    }
}

pub open spec fn take_named(body: Seq<u8>) -> Taken<NamedView> {
    match take_u8(body) {
        Err(error) => Err(error),
        Ok((octet, rest)) => match target_of(octet) {
            None => Err(ProtocolError::InvalidTarget),
            Some(target) => match take_cstr(rest) {
                Err(error) => Err(error),
                Ok((name, rest)) => Ok((NamedView { target, name }, rest)),
            },
        },
    }
}

pub open spec fn take_execute(body: Seq<u8>) -> Taken<ExecuteView> {
    match take_cstr(body) {
        Err(error) => Err(error),
        Ok((portal, rest)) => match take_i32(rest) {
            Err(error) => Err(error),
            Ok((max_rows, rest)) => Ok((ExecuteView { portal, max_rows }, rest)),
        },
    }
}

pub open spec fn take_function_call(body: Seq<u8>) -> Taken<FunctionCallView> {
    match take_u32(body) {
        Err(error) => Err(error),
        Ok((function, rest)) => match take_counted(i16_field(), rest) {
            Err(error) => Err(error),
            Ok((argument_formats, rest)) => match take_counted(nullable_field(), rest) {
                Err(error) => Err(error),
                Ok((arguments, rest)) => match take_i16(rest) {
                    Err(error) => Err(error),
                    Ok((result_format, rest)) => Ok(
                        (
                            FunctionCallView {
                                function,
                                argument_formats,
                                arguments,
                                result_format,
                            },
                            rest,
                        ),
                    ),
                },
            },
        },
    }
}

/// Tags of frontend messages that decoding leaves to be lifted later.
pub open spec fn frontend_recognised(tag: u8) -> bool {
    tag == tags::CLOSE || tag == tags::EXECUTE || tag == tags::FUNCTION_CALL || tag == tags::FLUSH || tag == tags::QUERY || tag == tags::SYNC || tag == tags::TERMINATE || tag
        == tags::COPY_DONE || tag == tags::COPY_DATA || tag == tags::COPY_FAIL || tag == tags::PASSWORD
}

/// What decoding makes of a frontend frame.
pub open spec fn frontend_decoded(frame: FrameView) -> Result<FrontendView, ProtocolError> {
    if frame.tag == tags::PARSE {
        match whole(take_parse(frame.body)) {
            Ok(message) => Ok(FrontendView::Parse(message)),
            Err(error) => Err(error),
        }
    } else if frame.tag == tags::BIND {
        match whole(take_bind(frame.body)) {
            Ok(message) => Ok(FrontendView::Bind(message)),
            Err(error) => Err(error),
        }
    } else if frame.tag == tags::DESCRIBE {
        match whole(take_named(frame.body)) {
            Ok(message) => Ok(FrontendView::Describe(message)),
            Err(error) => Err(error),
        }
    } else if frontend_recognised(frame.tag) {
        Ok(FrontendView::Recognised(frame))
    } else {
        Err(ProtocolError::UnknownTag { side: Side::Frontend, tag: frame.tag })
    }
}

/// A message without fields.
pub open spec fn bare<T>(body: Seq<u8>, message: T) -> Result<T, ProtocolError> {
    if body.len() == 0 {
        Ok(message)
    } else {
        Err(ProtocolError::TrailingBytes)
    }
}

/// The specific representation of a recognised frontend frame.
pub open spec fn frontend_specific(frame: FrameView) -> Result<FrontendView, ProtocolError> {
    if frame.tag == tags::CLOSE {
        match whole(take_named(frame.body)) {
            Ok(message) => Ok(FrontendView::Close(message)),
            Err(error) => Err(error),
        }
    } else if frame.tag == tags::EXECUTE {
        match whole(take_execute(frame.body)) {
            Ok(message) => Ok(FrontendView::Execute(message)),
            Err(error) => Err(error),
        }
    } else if frame.tag == tags::FUNCTION_CALL {
        match whole(take_function_call(frame.body)) {
            Ok(message) => Ok(FrontendView::FunctionCall(message)),
            Err(error) => Err(error),
        }
    } else if frame.tag == tags::FLUSH {
        bare(frame.body, FrontendView::Flush)
    } else if frame.tag == tags::QUERY {
        match whole(take_cstr(frame.body)) {
            Ok(query) => Ok(FrontendView::Query(query)),
            Err(error) => Err(error),
        }
    } else if frame.tag == tags::SYNC {
        bare(frame.body, FrontendView::Sync)
    } else if frame.tag == tags::TERMINATE {
        bare(frame.body, FrontendView::Terminate)
    } else if frame.tag == tags::COPY_DONE {
        bare(frame.body, FrontendView::CopyDone)
    } else if frame.tag == tags::COPY_DATA {
        Ok(FrontendView::CopyData(frame.body))
    } else if frame.tag == tags::COPY_FAIL {
        match whole(take_cstr(frame.body)) {
            Ok(reason) => Ok(FrontendView::CopyFail(reason)),
            Err(error) => Err(error),
        }
    } else if frame.tag == tags::PASSWORD {
        Ok(FrontendView::PasswordResponse(frame.body))
    } else {
        frontend_decoded(frame)
    }
}

/// A message with its recognised frame, if any, lifted.
pub open spec fn frontend_lifted(message: FrontendView) -> Result<FrontendView, ProtocolError> {
    match message {
        FrontendView::Recognised(frame) => frontend_specific(frame),
        _ => Ok(message),
    }
}

/// What a frontend frame says once it is decoded and lifted.
pub open spec fn frontend_message(frame: FrameView) -> Result<FrontendView, ProtocolError> {
    match frontend_decoded(frame) {
        Ok(message) => frontend_lifted(message),
        Err(error) => Err(error),
    }
}

proof fn lemma_parse(message: ParseView)
    requires
        parse_body(message) is Ok,
    ensures
        whole(take_parse(parse_body(message)->Ok_0)) == Ok::<_, ProtocolError>(message),
{
    lemma_fields();
    let types = put_counted(u32_octets(), message.parameter_types)->Ok_0;
    let none = Seq::<u8>::empty();
    let tail = message.query.push(0) + (types + none);
    lemma_cstr(message.statement, tail);
    lemma_cstr(message.query, types + none);
    lemma_counted_reads_back(u32_octets(), u32_field(), message.parameter_types, none);
    assert(parse_body(message)->Ok_0 =~= message.statement.push(0) + tail);
}

proof fn lemma_taken_parse(body: Seq<u8>)
    ensures
        whole(take_parse(body)) matches Ok(message) ==> parse_body(message) == Ok::<
            _,
            ProtocolError,
        >(body),
{
    lemma_fields();
    lemma_taken_cstr(body);
    if let Ok((statement, rest)) = take_cstr(body) {
        lemma_taken_cstr(rest);
        if let Ok((query, rest)) = take_cstr(rest) {
            lemma_counted_writes_back(u32_octets(), u32_field(), rest);
            if let Ok(message) = whole(take_parse(body)) {
                assert(parse_body(message)->Ok_0 =~= body);
            }
        }
    }
}

proof fn lemma_bind(message: BindView)
    requires
        bind_body(message) is Ok,
    ensures
        whole(take_bind(bind_body(message)->Ok_0)) == Ok::<_, ProtocolError>(message),
{
    lemma_fields();
    let none = Seq::<u8>::empty();
    let results = put_counted(i16_octets(), message.result_formats)->Ok_0 + none;
    let values = put_counted(nullable_octets(), message.parameters)->Ok_0 + results;
    let formats = put_counted(i16_octets(), message.parameter_formats)->Ok_0 + values;
    let statement = message.statement.push(0) + formats;
    lemma_cstr(message.portal, statement);
    lemma_cstr(message.statement, formats);
    lemma_counted_reads_back(i16_octets(), i16_field(), message.parameter_formats, values);
    lemma_counted_reads_back(nullable_octets(), nullable_field(), message.parameters, results);
    lemma_counted_reads_back(i16_octets(), i16_field(), message.result_formats, none);
    assert(bind_body(message)->Ok_0 =~= message.portal.push(0) + statement);
}

proof fn lemma_taken_bind(body: Seq<u8>)
    ensures
        whole(take_bind(body)) matches Ok(message) ==> bind_body(message) == Ok::<
            _,
            ProtocolError,
        >(body),
{
    lemma_fields();
    lemma_taken_cstr(body);
    if let Ok((portal, rest)) = take_cstr(body) {
        lemma_taken_cstr(rest);
        if let Ok((statement, rest)) = take_cstr(rest) {
            lemma_counted_writes_back(i16_octets(), i16_field(), rest);
            if let Ok((formats, rest)) = take_counted(i16_field(), rest) {
                lemma_counted_writes_back(nullable_octets(), nullable_field(), rest);
                if let Ok((values, rest)) = take_counted(nullable_field(), rest) {
                    lemma_counted_writes_back(i16_octets(), i16_field(), rest);
                    if let Ok(message) = whole(take_bind(body)) {
                        assert(bind_body(message)->Ok_0 =~= body);
                    }
                }
            }
        }
    }
}

proof fn lemma_named(message: NamedView)
    requires
        named_body(message) is Ok,
    ensures
        whole(take_named(named_body(message)->Ok_0)) == Ok::<_, ProtocolError>(message),
{
    let body = named_body(message)->Ok_0;
    lemma_cstr(message.name, Seq::empty());
    assert(body.skip(1) =~= message.name.push(0) + Seq::empty());
}

proof fn lemma_taken_named(body: Seq<u8>)
    ensures
        whole(take_named(body)) matches Ok(message) ==> named_body(message) == Ok::<
            _,
            ProtocolError,
        >(body),
{
    if body.len() > 0 {
        lemma_taken_cstr(body.skip(1));
        if let Ok(message) = whole(take_named(body)) {
            assert(named_body(message)->Ok_0 =~= body);
        }
    }
}

proof fn lemma_execute(message: ExecuteView)
    requires
        execute_body(message) is Ok,
    ensures
        whole(take_execute(execute_body(message)->Ok_0)) == Ok::<_, ProtocolError>(message),
{
    lemma_signed();
    let none = Seq::<u8>::empty();
    let rows = be32(message.max_rows as u32) + none;
    lemma_cstr(message.portal, rows);
    lemma_be32(message.max_rows as u32, none);
    assert(execute_body(message)->Ok_0 =~= message.portal.push(0) + rows);
}

proof fn lemma_taken_execute(body: Seq<u8>)
    ensures
        whole(take_execute(body)) matches Ok(message) ==> execute_body(message) == Ok::<
            _,
            ProtocolError,
        >(body),
{
    lemma_signed();
    lemma_taken_cstr(body);
    if let Ok((portal, rest)) = take_cstr(body) {
        if let Ok(message) = whole(take_execute(body)) {
            lemma_of32(rest);
            assert(execute_body(message)->Ok_0 =~= body);
        }
    }
}

proof fn lemma_function_call(message: FunctionCallView)
    requires
        function_call_body(message) is Ok,
    ensures
        whole(take_function_call(function_call_body(message)->Ok_0)) == Ok::<_, ProtocolError>(
            message,
        ),
{
    lemma_fields();
    lemma_signed();
    let none = Seq::<u8>::empty();
    let result = be16(message.result_format as u16) + none;
    let arguments = put_counted(nullable_octets(), message.arguments)->Ok_0 + result;
    let formats = put_counted(i16_octets(), message.argument_formats)->Ok_0 + arguments;
    lemma_be32(message.function, formats);
    lemma_counted_reads_back(i16_octets(), i16_field(), message.argument_formats, arguments);
    lemma_counted_reads_back(nullable_octets(), nullable_field(), message.arguments, result);
    lemma_be16(message.result_format as u16, none);
    assert(function_call_body(message)->Ok_0 =~= be32(message.function) + formats);
}

proof fn lemma_taken_function_call(body: Seq<u8>)
    ensures
        whole(take_function_call(body)) matches Ok(message) ==> function_call_body(message)
            == Ok::<_, ProtocolError>(body),
{
    lemma_fields();
    lemma_signed();
    if let Ok((function, rest)) = take_u32(body) {
        lemma_of32(body);
        lemma_counted_writes_back(i16_octets(), i16_field(), rest);
        if let Ok((formats, rest)) = take_counted(i16_field(), rest) {
            lemma_counted_writes_back(nullable_octets(), nullable_field(), rest);
            if let Ok((arguments, rest)) = take_counted(nullable_field(), rest) {
                if let Ok(message) = whole(take_function_call(body)) {
                    lemma_of16(rest);
                    assert(function_call_body(message)->Ok_0 =~= body);
                }
            }
        }
    }
}

/// Every frontend message that can be framed is understood again from its frame.
pub proof fn law_frontend_round_trip(message: FrontendView)
    requires
        !(message is Recognised),
        frontend_frame(message) is Ok,
    ensures
        frontend_message(frontend_frame(message)->Ok_0) == Ok::<_, ProtocolError>(message),
{
    match message {
        FrontendView::Parse(message) => lemma_parse(message),
        FrontendView::Bind(message) => lemma_bind(message),
        FrontendView::Describe(message) => lemma_named(message),
        FrontendView::Close(message) => lemma_named(message),
        FrontendView::Execute(message) => lemma_execute(message),
        FrontendView::FunctionCall(message) => lemma_function_call(message),
        FrontendView::Query(query) => {
            lemma_cstr(query, Seq::empty());
            assert(query.push(0) + Seq::empty() =~= query.push(0));
        },
        FrontendView::CopyFail(reason) => {
            lemma_cstr(reason, Seq::empty());
            assert(reason.push(0) + Seq::empty() =~= reason.push(0));
        },
        _ => {},
    }
}

/// A frontend frame that decodes is reconstructed from its message, octet for
/// octet, both before and after the message is lifted.
pub proof fn law_frontend_lossless(frame: FrameView)
    ensures
        frontend_decoded(frame) matches Ok(message) ==> frontend_frame(message) == Ok::<
            _,
            ProtocolError,
        >(frame),
        frontend_message(frame) matches Ok(message) ==> frontend_frame(message) == Ok::<
            _,
            ProtocolError,
        >(frame),
{
    lemma_taken_parse(frame.body);
    lemma_taken_bind(frame.body);
    lemma_taken_named(frame.body);
    lemma_taken_execute(frame.body);
    lemma_taken_function_call(frame.body);
    lemma_taken_cstr(frame.body);
    if let Ok(text) = whole(take_cstr(frame.body)) {
        assert(text.push(0) =~= frame.body);
    }
    if frame.body.len() == 0 {
        assert(frame.body =~= Seq::empty());
    }
}

fn named_frame(tag: u8, target: DescribeTarget, name: &Bytes) -> (result: Result<
    Frame,
    ProtocolError,
>)
    ensures
        agrees(result, framed(tag, named_body(NamedView { target, name: octets(*name) }))),
{
    let mut body: Vec<u8> = Vec::new();
    body.push(
        match target {
            DescribeTarget::Statement => tags::STATEMENT,
            DescribeTarget::Portal => tags::PORTAL,
        },
    );
    assert(body@ =~= seq![target_octet(target)]);
    write_cstr(&mut body, as_slice(name))?;
    Ok(Frame { tag, body: from_vec(body) })
}

fn text_frame(tag: u8, text: &Bytes) -> (result: Result<Frame, ProtocolError>)
    ensures
        agrees(result, framed(tag, put_cstr(octets(*text)))),
{
    let mut body: Vec<u8> = Vec::new();
    write_cstr(&mut body, as_slice(text))?;
    proof {
        assert(body@ =~= octets(*text).push(0));
    }
    Ok(Frame { tag, body: from_vec(body) })
}

fn bare_frame(tag: u8) -> (result: Result<Frame, ProtocolError>)
    ensures
        agrees(result, framed(tag, Ok(Seq::empty()))),
{
    let body: Vec<u8> = Vec::new();
    assert(body@ =~= Seq::empty());
    Ok(Frame { tag, body: from_vec(body) })
}

impl Parse {
    /// Reconstructs a checked Parse frame after inspection or rewriting.
    ///
    /// # Errors
    ///
    /// Returns an error for NUL-containing strings or too many parameter types.
    pub fn to_frame(&self) -> (result: Result<Frame, ProtocolError>)
        ensures
            agrees(result, frontend_frame(FrontendView::Parse(self@))),
    {
        let mut body: Vec<u8> = Vec::new();
        write_cstr(&mut body, as_slice(&self.statement))?;
        assert(body@ =~= put_cstr(self@.statement)->Ok_0);
        write_cstr(&mut body, as_slice(&self.query))?;
        let ghost names = body@;
        write_count(&mut body, self.parameter_types.len())?;
        write_u32s(&mut body, &self.parameter_types);
        assert(body@ =~= names + put_counted(u32_octets(), self@.parameter_types)->Ok_0);
        Ok(Frame { tag: tags::PARSE, body: from_vec(body) })
    }
}

impl Bind {
    /// Reconstructs a checked Bind frame, retaining every format code and value.
    ///
    /// # Errors
    ///
    /// Returns an error for invalid names, excessive counts, or oversized values.
    pub fn to_frame(&self) -> (result: Result<Frame, ProtocolError>)
        ensures
            agrees(result, frontend_frame(FrontendView::Bind(self@))),
    {
        let mut body: Vec<u8> = Vec::new();
        write_cstr(&mut body, as_slice(&self.portal))?;
        assert(body@ =~= put_cstr(self@.portal)->Ok_0);
        write_cstr(&mut body, as_slice(&self.statement))?;
        write_i16s(&mut body, &self.parameter_formats)?;
        write_nullables(&mut body, &self.parameters)?;
        write_i16s(&mut body, &self.result_formats)?;
        Ok(Frame { tag: tags::BIND, body: from_vec(body) })
    }
}

impl Describe {
    /// Reconstructs a checked Describe frame.
    ///
    /// # Errors
    ///
    /// Returns an error if the name contains a NUL byte.
    pub fn to_frame(&self) -> (result: Result<Frame, ProtocolError>)
        ensures
            agrees(result, frontend_frame(FrontendView::Describe(self@))),
    {
        named_frame(tags::DESCRIBE, self.target, &self.name)
    }
}

impl Close {
    /// Reconstructs a checked Close frame.
    ///
    /// # Errors
    ///
    /// Returns an error if the name contains a NUL byte.
    pub fn to_frame(&self) -> (result: Result<Frame, ProtocolError>)
        ensures
            agrees(result, frontend_frame(FrontendView::Close(self@))),
    {
        named_frame(tags::CLOSE, self.target, &self.name)
    }
}

impl Execute {
    /// Reconstructs a checked Execute frame.
    ///
    /// # Errors
    ///
    /// Returns an error if the portal name contains a NUL byte.
    pub fn to_frame(&self) -> (result: Result<Frame, ProtocolError>)
        ensures
            agrees(result, frontend_frame(FrontendView::Execute(self@))),
    {
        let mut body: Vec<u8> = Vec::new();
        write_cstr(&mut body, as_slice(&self.portal))?;
        assert(body@ =~= put_cstr(self@.portal)->Ok_0);
        write_u32(&mut body, self.max_rows as u32);
        Ok(Frame { tag: tags::EXECUTE, body: from_vec(body) })
    }
}

impl FunctionCall {
    /// Reconstructs a checked FunctionCall frame.
    ///
    /// # Errors
    ///
    /// Returns an error for excessive counts or oversized arguments.
    pub fn to_frame(&self) -> (result: Result<Frame, ProtocolError>)
        ensures
            agrees(result, frontend_frame(FrontendView::FunctionCall(self@))),
    {
        let mut body: Vec<u8> = Vec::new();
        write_u32(&mut body, self.function);
        assert(body@ =~= be32(self.function));
        write_i16s(&mut body, &self.argument_formats)?;
        write_nullables(&mut body, &self.arguments)?;
        write_u16(&mut body, self.result_format as u16);
        Ok(Frame { tag: tags::FUNCTION_CALL, body: from_vec(body) })
    }
}

impl FrontendMessage {
    /// Reconstructs a frontend frame after inspection or modification.
    ///
    /// # Errors
    ///
    /// Returns an error when a structured message contains invalid values.
    pub fn to_frame(&self) -> (result: Result<Frame, ProtocolError>)
        ensures
            agrees(result, frontend_frame(self@)),
    {
        match self {
            FrontendMessage::Parse(message) => message.to_frame(),
            FrontendMessage::Bind(message) => message.to_frame(),
            FrontendMessage::Describe(message) => message.to_frame(),
            FrontendMessage::Execute(message) => message.to_frame(),
            FrontendMessage::Close(message) => message.to_frame(),
            FrontendMessage::Query(query) => text_frame(tags::QUERY, query),
            FrontendMessage::FunctionCall(message) => message.to_frame(),
            FrontendMessage::CopyData(data) => Ok(Frame { tag: tags::COPY_DATA, body: data.clone() }),
            FrontendMessage::CopyDone => bare_frame(tags::COPY_DONE),
            FrontendMessage::CopyFail(reason) => text_frame(tags::COPY_FAIL, reason),
            FrontendMessage::PasswordResponse(data) => Ok(Frame { tag: tags::PASSWORD, body: data.clone() }),
            FrontendMessage::Flush => bare_frame(tags::FLUSH),
            FrontendMessage::Sync => bare_frame(tags::SYNC),
            FrontendMessage::Terminate => bare_frame(tags::TERMINATE),
            FrontendMessage::Recognised(frame) => Ok(frame.duplicate()),
        }
    }

    /// Lifts a recognised frame into its specific representation.
    ///
    /// # Errors
    ///
    /// Returns an error when the body of a recognised frame is malformed.
    pub fn lift(self) -> (result: Result<FrontendMessage, ProtocolError>)
        ensures
            agrees(result, frontend_lifted(self@)),
    {
        match self {
            FrontendMessage::Recognised(frame) => lift_frame(frame),
            other => Ok(other),
        }
    }
}

fn lift_frame(frame: Frame) -> (result: Result<FrontendMessage, ProtocolError>)
    ensures
        agrees(result, frontend_specific(frame@)),
{
    let tag: u8 = frame.tag;
    match tag {
        tags::CLOSE => {
            let named = decode_named(frame.body)?;
            Ok(FrontendMessage::Close(Close { target: named.target, name: named.name }))
        },
        tags::EXECUTE => Ok(FrontendMessage::Execute(decode_execute(frame.body)?)),
        tags::FUNCTION_CALL => Ok(FrontendMessage::FunctionCall(decode_function_call(frame.body)?)),
        tags::FLUSH => {
            read_end(&frame.body)?;
            Ok(FrontendMessage::Flush)
        },
        tags::QUERY => Ok(FrontendMessage::Query(decode_text(frame.body)?)),
        tags::SYNC => {
            read_end(&frame.body)?;
            Ok(FrontendMessage::Sync)
        },
        tags::TERMINATE => {
            read_end(&frame.body)?;
            Ok(FrontendMessage::Terminate)
        },
        tags::COPY_DONE => {
            read_end(&frame.body)?;
            Ok(FrontendMessage::CopyDone)
        },
        tags::COPY_DATA => Ok(FrontendMessage::CopyData(frame.body)),
        tags::COPY_FAIL => Ok(FrontendMessage::CopyFail(decode_text(frame.body)?)),
        tags::PASSWORD => Ok(FrontendMessage::PasswordResponse(frame.body)),
        _ => Frontend::decode(frame),
    }
}

/// Decodes a body that is one string.
pub(crate) fn decode_text(body: Bytes) -> (result: Result<Bytes, ProtocolError>)
    ensures
        match result {
            Ok(text) => whole(take_cstr(octets(body))) == Ok::<_, ProtocolError>(octets(text)),
            Err(error) => whole(take_cstr(octets(body))) == Err::<Seq<u8>, _>(error),
        },
{
    let mut body = body;
    let text = read_cstr(&mut body)?;
    read_end(&body)?;
    Ok(text)
}

fn decode_parse(body: Bytes) -> (result: Result<Parse, ProtocolError>)
    ensures
        agrees(result, whole(take_parse(octets(body)))),
{
    let mut body = body;
    let statement = read_cstr(&mut body)?;
    let query = read_cstr(&mut body)?;
    let count: u16 = read_u16(&mut body)?;
    let parameter_types = read_u32s(&mut body, count as u32)?;
    read_end(&body)?;
    Ok(Parse { statement, query, parameter_types })
}

fn decode_bind(body: Bytes) -> (result: Result<Bind, ProtocolError>)
    ensures
        agrees(result, whole(take_bind(octets(body)))),
{
    let mut body = body;
    let portal = read_cstr(&mut body)?;
    let statement = read_cstr(&mut body)?;
    let parameter_formats = read_i16s(&mut body)?;
    let parameters = read_nullables(&mut body)?;
    let result_formats = read_i16s(&mut body)?;
    read_end(&body)?;
    Ok(Bind { portal, statement, parameter_formats, parameters, result_formats })
}

fn decode_named(body: Bytes) -> (result: Result<Describe, ProtocolError>)
    ensures
        agrees(result, whole(take_named(octets(body)))),
{
    let mut body = body;
    let target = match read_u8(&mut body)? {
        tags::STATEMENT => DescribeTarget::Statement,
        tags::PORTAL => DescribeTarget::Portal,
        _ => return Err(ProtocolError::InvalidTarget),
    };
    let name = read_cstr(&mut body)?;
    read_end(&body)?;
    Ok(Describe { target, name })
}

fn decode_execute(body: Bytes) -> (result: Result<Execute, ProtocolError>)
    ensures
        agrees(result, whole(take_execute(octets(body)))),
{
    let mut body = body;
    let portal = read_cstr(&mut body)?;
    let max_rows: i32 = read_i32(&mut body)?;
    read_end(&body)?;
    Ok(Execute { portal, max_rows })
}

fn decode_function_call(body: Bytes) -> (result: Result<FunctionCall, ProtocolError>)
    ensures
        agrees(result, whole(take_function_call(octets(body)))),
{
    let mut body = body;
    let function: u32 = read_u32(&mut body)?;
    let argument_formats = read_i16s(&mut body)?;
    let arguments = read_nullables(&mut body)?;
    let result_format: i16 = read_i16(&mut body)?;
    read_end(&body)?;
    Ok(FunctionCall { function, argument_formats, arguments, result_format })
}

impl Direction for Frontend {
    type Message = FrontendMessage;

    open spec fn decoded(frame: FrameView) -> Result<FrontendView, ProtocolError> {
        frontend_decoded(frame)
    }

    fn decode(frame: Frame) -> (result: Result<FrontendMessage, ProtocolError>) {
        let tag: u8 = frame.tag;
        match tag {
            tags::PARSE => Ok(FrontendMessage::Parse(decode_parse(frame.body)?)),
            tags::BIND => Ok(FrontendMessage::Bind(decode_bind(frame.body)?)),
            tags::DESCRIBE => Ok(FrontendMessage::Describe(decode_named(frame.body)?)),
            tags::CLOSE | tags::EXECUTE | tags::FUNCTION_CALL | tags::FLUSH | tags::QUERY | tags::SYNC | tags::TERMINATE | tags::COPY_DONE | tags::COPY_DATA | tags::COPY_FAIL | tags::PASSWORD => Ok(
                FrontendMessage::Recognised(frame),
            ),
            _ => Err(ProtocolError::UnknownTag { side: Side::Frontend, tag }),
        }
    }
}

} // verus!
