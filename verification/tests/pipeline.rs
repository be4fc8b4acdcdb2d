//! Bounded pipeline orchestration.

use std::convert::Infallible;

use bytes::Bytes;
use pg_proto::codec::{
    BackendMessage, Bind, Close, CopyResponse, DataRow, Describe, DescribeTarget,
    DiagnosticResponse, Execute, FrontendMessage, Parse, TransactionStatus,
};
use pg_proto::demux::Demux;
use pg_proto::grammar::backend;
use pg_proto::intermediary::SessionPair;
use pg_proto::pipeline::{
    adapt_backend, adapt_frontend, BackendAction, BackendPipelineWireAdapterError,
    BackendSequenceError, BoundedPipeline, FrontendAction, FrontendAdmission, FrontendHandling,
    FrontendPhase, FrontendPipelineWireAdapterError, FrontendProjectionError, NoPipeline,
    OperationId, Pipeline, PipelineConfigError, PipelineMiddlewareError, PipelineState,
    PipelineWireAdapter, PreparedResponse,
};

fn parse(name: &'static [u8]) -> FrontendMessage {
    FrontendMessage::Parse(Parse {
        statement: Bytes::from_static(name),
        query: Bytes::from_static(b"select 1"),
        parameter_types: vec![],
    })
}

fn bind() -> FrontendMessage {
    FrontendMessage::Bind(Bind {
        portal: Bytes::new(),
        statement: Bytes::new(),
        parameter_formats: vec![],
        parameters: vec![],
        result_formats: vec![],
    })
}

fn describe() -> FrontendMessage {
    FrontendMessage::Describe(Describe {
        target: DescribeTarget::Portal,
        name: Bytes::new(),
    })
}

fn execute() -> FrontendMessage {
    FrontendMessage::Execute(Execute {
        portal: Bytes::new(),
        max_rows: 0,
    })
}

fn close() -> FrontendMessage {
    FrontendMessage::Close(Close {
        target: DescribeTarget::Portal,
        name: Bytes::new(),
    })
}

fn error() -> BackendMessage {
    BackendMessage::ErrorResponse(DiagnosticResponse { fields: vec![] })
}

fn forwarded_id(admission: FrontendAdmission) -> OperationId {
    match admission.into_action() {
        FrontendAction::Forward { id, .. } => id,
        other @ FrontendAction::Discard { .. } => {
            panic!("expected forwarding action, got {other:?}")
        }
    }
}

fn local_id(admission: FrontendAdmission) -> OperationId {
    match admission.into_action() {
        FrontendAction::Discard { id } => id,
        other @ FrontendAction::Forward { .. } => {
            panic!("expected discard action, got {other:?}")
        }
    }
}

fn bounded(limit: usize) -> Pipeline<BoundedPipeline> {
    Pipeline::new(BoundedPipeline::new(limit).unwrap())
}

#[test]
fn extended_copy_in_uses_the_post_copy_sync_as_its_recovery_barrier() {
    let mut pipeline = bounded(8);
    for message in [bind(), execute(), FrontendMessage::Sync] {
        pipeline
            .accept_frontend(message, FrontendHandling::Forward)
            .expect("extended COPY start is accepted");
    }
    pipeline
        .accept_backend(BackendMessage::BindComplete)
        .expect("Bind completes");
    pipeline
        .accept_backend(BackendMessage::CopyInResponse(CopyResponse {
            overall_format: 0,
            column_formats: vec![0],
        }))
        .expect("COPY IN starts");
    for message in [
        FrontendMessage::CopyData(Bytes::from_static(b"1\n")),
        FrontendMessage::CopyDone,
        FrontendMessage::Sync,
    ] {
        pipeline
            .accept_frontend(message, FrontendHandling::Forward)
            .expect("COPY data and completion are accepted");
    }
    pipeline
        .accept_backend(BackendMessage::CommandComplete(Bytes::from_static(
            b"COPY 1",
        )))
        .expect("COPY completes");
    pipeline
        .accept_backend(BackendMessage::ReadyForQuery(TransactionStatus::Idle))
        .expect("post-COPY Sync restores readiness");

    pipeline
        .accept_frontend(parse(b"after-copy"), FrontendHandling::Forward)
        .expect("a new statement is accepted after COPY");
    assert!(matches!(
        pipeline
            .accept_backend(BackendMessage::ParseComplete)
            .expect("new statement response is legal"),
        BackendAction::Emit(BackendMessage::ParseComplete)
    ));
}

#[test]
fn extended_copy_in_data_error_recovers_after_copy_done() {
    let mut pipeline = bounded(7);
    for message in [bind(), execute(), FrontendMessage::Sync] {
        pipeline
            .accept_frontend(message, FrontendHandling::Forward)
            .expect("extended COPY start is accepted");
    }
    pipeline
        .accept_backend(BackendMessage::BindComplete)
        .expect("Bind completes");
    pipeline
        .accept_backend(BackendMessage::CopyInResponse(CopyResponse {
            overall_format: 0,
            column_formats: vec![0],
        }))
        .expect("COPY IN starts");
    for message in [FrontendMessage::CopyDone, FrontendMessage::Sync] {
        pipeline
            .accept_frontend(message, FrontendHandling::Forward)
            .expect("COPY completion is accepted");
    }
    assert!(matches!(
        pipeline
            .accept_backend(error())
            .expect("invalid copied data produces a legal ErrorResponse"),
        BackendAction::Emit(BackendMessage::ErrorResponse(_))
    ));
    pipeline
        .accept_backend(BackendMessage::ReadyForQuery(TransactionStatus::Idle))
        .expect("post-COPY Sync recovers from the data error");
    pipeline
        .accept_frontend(parse(b"after-copy-error"), FrontendHandling::Forward)
        .expect("new work is legal after recovery");
    assert!(matches!(
        pipeline
            .accept_backend(BackendMessage::ParseComplete)
            .expect("new statement response is emitted"),
        BackendAction::Emit(BackendMessage::ParseComplete)
    ));
}

#[test]
fn bounded_capacity_returns_owned_message_and_recovers() {
    let mut pipeline = bounded(1);
    pipeline
        .accept_frontend(
            FrontendMessage::Query(Bytes::from_static(b"select 1")),
            FrontendHandling::Forward,
        )
        .unwrap();
    let retry = FrontendMessage::Query(Bytes::from_static(b"select 2"));
    let FrontendProjectionError::Capacity(retry) = pipeline
        .accept_frontend(retry, FrontendHandling::Forward)
        .unwrap_err()
    else {
        panic!("capacity must be distinguished from illegality")
    };
    pipeline
        .accept_backend(BackendMessage::ReadyForQuery(TransactionStatus::Idle))
        .unwrap();
    assert!(
        pipeline
            .accept_frontend(*retry, FrontendHandling::Forward)
            .is_ok()
    );
}

#[test]
fn large_payload_is_returned_not_retained() {
    let body = Bytes::from(vec![7_u8; 2 * 1024 * 1024]);
    let pointer = body.as_ptr();
    let mut pipeline = bounded(2);
    let admission = pipeline
        .accept_frontend(FrontendMessage::Query(body), FrontendHandling::Forward)
        .unwrap();
    let FrontendAction::Forward {
        message: FrontendMessage::Query(body),
        ..
    } = admission.into_action()
    else {
        panic!("query must be returned to the application")
    };
    assert_eq!(body.as_ptr(), pointer);
    assert_eq!(pipeline.len(), 1);
}

#[test]
fn simple_query_stream_stays_at_head_until_ready() {
    let mut pipeline = bounded(2);
    pipeline
        .accept_frontend(
            FrontendMessage::Query(Bytes::from_static(b"select 1")),
            FrontendHandling::Forward,
        )
        .unwrap();
    for response in [
        BackendMessage::DataRow(DataRow {
            columns: vec![Some(Bytes::from_static(b"1"))],
        }),
        BackendMessage::CommandComplete(Bytes::from_static(b"SELECT 1")),
    ] {
        assert!(matches!(
            pipeline.accept_backend(response).unwrap(),
            BackendAction::Emit(_)
        ));
        assert_eq!(pipeline.len(), 1);
    }
    pipeline
        .accept_backend(BackendMessage::ReadyForQuery(TransactionStatus::Idle))
        .unwrap();
    assert!(pipeline.is_empty());
}

#[test]
fn backend_batch_preparation_is_atomic_and_span_preserving() {
    let mut pipeline = bounded(2);
    pipeline
        .accept_frontend(
            FrontendMessage::Query(Bytes::from_static(b"select 1")),
            FrontendHandling::Forward,
        )
        .unwrap();
    let sources = vec![
        BackendMessage::DataRow(DataRow {
            columns: vec![Some(Bytes::from_static(b"encrypted"))],
        }),
        BackendMessage::CommandComplete(Bytes::from_static(b"SELECT 1")),
    ];
    let replacements = vec![
        BackendMessage::DataRow(DataRow {
            columns: vec![Some(Bytes::from_static(b"clear"))],
        }),
        BackendMessage::CommandComplete(Bytes::from_static(b"SELECT 1")),
    ];
    let prepared = pipeline
        .prepare_backend_replacements(&sources, &replacements)
        .unwrap();
    assert_eq!(
        pipeline.len(),
        1,
        "preparation must not mutate the live ledger"
    );
    pipeline = prepared;
    assert_eq!(pipeline.len(), 1, "command completion awaits ReadyForQuery");

    let before = pipeline.len();
    assert!(
        pipeline
            .prepare_backend_replacements(
                &[BackendMessage::ReadyForQuery(TransactionStatus::Idle)],
                &[BackendMessage::DataRow(DataRow { columns: vec![] })],
            )
            .is_err()
    );
    assert_eq!(pipeline.len(), before, "failed preparation is atomic");
}

#[test]
fn complete_extended_pipeline_is_ordered() {
    let mut pipeline = bounded(8);
    for message in [
        parse(b"s"),
        bind(),
        describe(),
        execute(),
        close(),
        FrontendMessage::Flush,
        FrontendMessage::Sync,
    ] {
        pipeline
            .accept_frontend(message, FrontendHandling::Forward)
            .unwrap();
    }
    assert_eq!(pipeline.len(), 7);
    for response in [
        BackendMessage::ParseComplete,
        BackendMessage::BindComplete,
        BackendMessage::NoData,
        BackendMessage::CommandComplete(Bytes::from_static(b"SELECT 1")),
        BackendMessage::CloseComplete,
        BackendMessage::ReadyForQuery(TransactionStatus::Idle),
    ] {
        pipeline.accept_backend(response).unwrap();
    }
    assert!(pipeline.is_empty());
}

#[test]
fn completing_an_earlier_sync_does_not_rewind_the_projected_frontend_state() {
    let mut pipeline = bounded(8);
    for message in [
        parse(b"first"),
        FrontendMessage::Sync,
        parse(b"second"),
        describe(),
    ] {
        pipeline
            .accept_frontend(message, FrontendHandling::Forward)
            .unwrap();
    }

    pipeline
        .accept_backend(BackendMessage::ParseComplete)
        .unwrap();
    pipeline
        .accept_backend(BackendMessage::ReadyForQuery(TransactionStatus::Idle))
        .unwrap();

    assert_eq!(pipeline.state(), PipelineState::Extended);
    pipeline
        .accept_frontend(FrontendMessage::Sync, FrontendHandling::Forward)
        .unwrap();
}

#[test]
fn multiple_operations_are_accepted_before_responses_and_flush_is_inert() {
    let mut pipeline = bounded(5);
    assert!(matches!(
        pipeline
            .accept_frontend(parse(b"a"), FrontendHandling::Forward)
            .unwrap(),
        FrontendAdmission::Immediate(_)
    ));
    for message in [bind(), FrontendMessage::Flush, FrontendMessage::Sync] {
        assert!(matches!(
            pipeline
                .accept_frontend(message, FrontendHandling::Forward)
                .unwrap(),
            FrontendAdmission::Waiting(_)
        ));
    }
    pipeline
        .accept_backend(BackendMessage::ParseComplete)
        .unwrap();
    pipeline
        .accept_backend(BackendMessage::BindComplete)
        .unwrap();
    pipeline
        .accept_backend(BackendMessage::ReadyForQuery(TransactionStatus::Idle))
        .unwrap();
    assert!(pipeline.is_empty());
}

#[test]
fn local_rejection_waits_behind_forwarded_parse() {
    let mut pipeline = bounded(4);
    pipeline
        .accept_frontend(parse(b"a"), FrontendHandling::Forward)
        .unwrap();
    let rejected = local_id(
        pipeline
            .accept_frontend(parse(b"b"), FrontendHandling::Local)
            .unwrap(),
    );
    assert!(matches!(
        pipeline.try_emit_local(rejected, error()).unwrap(),
        BackendAction::Deferred(_)
    ));
    assert!(matches!(
        pipeline
            .accept_frontend(describe(), FrontendHandling::Forward)
            .unwrap()
            .into_action(),
        FrontendAction::Discard { .. }
    ));
    pipeline
        .accept_frontend(FrontendMessage::Sync, FrontendHandling::Forward)
        .unwrap();
    pipeline
        .accept_backend(BackendMessage::ParseComplete)
        .unwrap();
    assert!(matches!(
        pipeline.try_emit_local(rejected, error()).unwrap(),
        BackendAction::Emit(BackendMessage::ErrorResponse(_))
    ));
    pipeline
        .accept_backend(BackendMessage::ReadyForQuery(TransactionStatus::Idle))
        .unwrap();
    assert!(pipeline.is_empty());
}

#[test]
fn first_local_rejection_discards_through_sync() {
    let mut pipeline = bounded(4);
    let rejected = local_id(
        pipeline
            .accept_frontend(parse(b"bad"), FrontendHandling::Local)
            .unwrap(),
    );
    assert!(matches!(
        pipeline.try_emit_local(rejected, error()).unwrap(),
        BackendAction::Emit(BackendMessage::ErrorResponse(_))
    ));
    assert!(matches!(
        pipeline
            .accept_frontend(bind(), FrontendHandling::Forward)
            .unwrap()
            .into_action(),
        FrontendAction::Discard { .. }
    ));
    pipeline
        .accept_frontend(FrontendMessage::Sync, FrontendHandling::Forward)
        .unwrap();
    assert_eq!(pipeline.state(), PipelineState::Ready);
    assert_eq!(
        pipeline.len(),
        1,
        "discarded Bind must not await a response"
    );
    pipeline
        .accept_backend(BackendMessage::ReadyForQuery(TransactionStatus::Idle))
        .unwrap();
    assert!(pipeline.is_empty());
}

#[test]
fn upstream_error_discards_following_operations_until_sync() {
    let mut pipeline = bounded(4);
    for message in [parse(b"bad"), bind(), FrontendMessage::Sync] {
        pipeline
            .accept_frontend(message, FrontendHandling::Forward)
            .unwrap();
    }
    pipeline.accept_backend(error()).unwrap();
    assert_eq!(pipeline.len(), 1);
    pipeline
        .accept_backend(BackendMessage::ReadyForQuery(TransactionStatus::Idle))
        .unwrap();
    assert!(pipeline.is_empty());
}

#[test]
fn an_error_before_an_accepted_sync_preserves_later_cycle_projection() {
    let mut pipeline = bounded(8);
    for message in [parse(b"bad"), bind(), FrontendMessage::Sync, parse(b"next")] {
        pipeline
            .accept_frontend(message, FrontendHandling::Forward)
            .unwrap();
    }

    pipeline.accept_backend(error()).unwrap();

    assert_eq!(pipeline.state(), PipelineState::Extended);
    pipeline
        .accept_frontend(FrontendMessage::Sync, FrontendHandling::Forward)
        .unwrap();
}

#[test]
fn illegal_frontend_and_backend_messages_are_not_deferred() {
    let mut pipeline = bounded(3);
    let illegal = FrontendMessage::CopyData(Bytes::from_static(b"outside COPY"));
    assert!(matches!(
        pipeline
            .accept_frontend(illegal, FrontendHandling::Forward)
            .unwrap_err(),
        FrontendProjectionError::Illegal { .. }
    ));
    pipeline
        .accept_frontend(parse(b"s"), FrontendHandling::Forward)
        .unwrap();
    assert!(
        pipeline
            .accept_backend(BackendMessage::BindComplete)
            .is_err()
    );
}

#[test]
fn copy_in_out_and_both_preserve_nested_legality() {
    let copy = CopyResponse {
        overall_format: 0,
        column_formats: vec![],
    };

    let mut input = bounded(6);
    for message in [parse(b"s"), bind(), execute()] {
        input
            .accept_frontend(message, FrontendHandling::Forward)
            .unwrap();
    }
    input.accept_backend(BackendMessage::ParseComplete).unwrap();
    input.accept_backend(BackendMessage::BindComplete).unwrap();
    input
        .accept_backend(BackendMessage::CopyInResponse(copy.clone()))
        .unwrap();
    assert_eq!(input.state(), PipelineState::CopyIn);
    input
        .accept_frontend(
            FrontendMessage::CopyData(Bytes::from_static(b"row\n")),
            FrontendHandling::Forward,
        )
        .unwrap();
    input
        .accept_frontend(FrontendMessage::CopyDone, FrontendHandling::Forward)
        .unwrap();

    for (response, expected) in [
        (
            BackendMessage::CopyOutResponse(copy.clone()),
            PipelineState::CopyOut,
        ),
        (
            BackendMessage::CopyBothResponse(copy),
            PipelineState::CopyBoth,
        ),
    ] {
        let mut pipeline = bounded(4);
        for message in [parse(b"s"), bind(), execute()] {
            pipeline
                .accept_frontend(message, FrontendHandling::Forward)
                .unwrap();
        }
        pipeline
            .accept_backend(BackendMessage::ParseComplete)
            .unwrap();
        pipeline
            .accept_backend(BackendMessage::BindComplete)
            .unwrap();
        pipeline.accept_backend(response).unwrap();
        assert_eq!(pipeline.state(), expected);
        pipeline
            .accept_backend(BackendMessage::CopyData(Bytes::from_static(b"row\n")))
            .unwrap();
    }
}

#[test]
fn asynchronous_messages_do_not_advance_the_ledger() {
    let mut pipeline = bounded(2);
    pipeline
        .accept_frontend(parse(b"s"), FrontendHandling::Forward)
        .unwrap();
    for message in [
        BackendMessage::NoticeResponse(DiagnosticResponse { fields: vec![] }),
        BackendMessage::NotificationResponse {
            process_id: 7,
            channel: Bytes::from_static(b"events"),
            payload: Bytes::from_static(b"changed"),
        },
        BackendMessage::ParameterStatus {
            name: Bytes::from_static(b"TimeZone"),
            value: Bytes::from_static(b"UTC"),
        },
        BackendMessage::BackendKeyData {
            process_id: 9,
            secret_key: Bytes::from_static(b"secret-key"),
        },
    ] {
        assert!(matches!(
            pipeline.accept_backend(message).unwrap(),
            BackendAction::Emit(_)
        ));
        assert_eq!(pipeline.len(), 1);
    }
}

#[test]
fn demuxed_session_items_share_the_pipeline_ordering_path() {
    let mut demux = Demux::default();
    let mut pipeline = bounded(2);
    pipeline
        .accept_frontend(parse(b"s"), FrontendHandling::Forward)
        .unwrap();
    assert!(
        demux
            .route(BackendMessage::NoticeResponse(DiagnosticResponse {
                fields: vec![],
            }))
            .is_none()
    );
    assert!(demux.pop_async_event().is_some());
    let item = demux
        .route(BackendMessage::ParseComplete)
        .expect("ParseComplete advances the session");
    assert!(matches!(
        pipeline
            .accept_backend(item.into_backend_message())
            .unwrap(),
        BackendAction::Emit(BackendMessage::ParseComplete)
    ));
}

#[test]
fn no_pipeline_backpressures_until_current_cycle_completes() {
    let mut pipeline = Pipeline::new(NoPipeline);
    pipeline
        .accept_frontend(
            FrontendMessage::Query(Bytes::from_static(b"select 1")),
            FrontendHandling::Forward,
        )
        .unwrap();
    assert!(matches!(
        pipeline
            .accept_frontend(
                FrontendMessage::Query(Bytes::from_static(b"select 2")),
                FrontendHandling::Forward
            )
            .unwrap_err(),
        FrontendProjectionError::Capacity(_)
    ));
}

#[test]
fn intermediary_preserves_old_constructor_and_can_opt_into_bounding() {
    let old = SessionPair::new(1_u8, 2_u8);
    assert_eq!(*old.downstream(), 1);
    let mut bounded = old.with_pipeline(BoundedPipeline::new(4).unwrap());
    bounded
        .pipeline_mut()
        .accept_frontend(parse(b"s"), FrontendHandling::Forward)
        .unwrap();
    assert_eq!(bounded.pipeline().len(), 1);
}

#[test]
fn later_valid_backend_response_is_deferred_not_illegal() {
    let mut pipeline = bounded(3);
    let first = forwarded_id(
        pipeline
            .accept_frontend(parse(b"s"), FrontendHandling::Forward)
            .unwrap(),
    );
    assert_eq!(first, first);
    pipeline
        .accept_frontend(bind(), FrontendHandling::Forward)
        .unwrap();
    assert!(matches!(
        pipeline
            .accept_backend(BackendMessage::BindComplete)
            .unwrap(),
        BackendAction::Deferred(BackendMessage::BindComplete)
    ));
}

#[test]
fn runtime_pipeline_dispatches_to_compile_time_checked_phase_hooks() {
    let mut pipeline = bounded(4);
    let mut seen: Vec<FrontendPhase> = Vec::new();

    let action = pipeline
        .accept_frontend_typed(
            |phase, _message| {
                seen.push(phase);
                Ok::<_, Infallible>(parse(b"rewritten"))
            },
            FrontendMessage::Query(Bytes::from_static(b"select secret")),
            FrontendHandling::Forward,
        )
        .expect("ready middleware replacement is legal")
        .into_action();
    assert!(matches!(
        action,
        FrontendAction::Forward {
            message: FrontendMessage::Parse(_),
            ..
        }
    ));

    pipeline
        .accept_frontend_typed(
            |phase, message| {
                seen.push(phase);
                Ok::<_, Infallible>(message)
            },
            FrontendMessage::Sync,
            FrontendHandling::Forward,
        )
        .expect("building middleware accepts Sync");
    assert_eq!(seen, [FrontendPhase::Ready, FrontendPhase::Building]);
    assert!(matches!(
        pipeline
            .accept_backend_typed(
                |prepared, _message| {
                    assert_eq!(
                        prepared,
                        PreparedResponse::Emit {
                            phase: backend::RuntimeState::ParseResponse
                        }
                    );
                    Ok::<_, &'static str>(error())
                },
                BackendMessage::ParseComplete
            )
            .expect("Parse response middleware replacement is legal"),
        BackendAction::Emit(BackendMessage::ErrorResponse(_))
    ));
    assert_eq!(pipeline.state(), PipelineState::Ready);
    pipeline
        .accept_backend_typed(
            |_, message| Ok::<_, Infallible>(message),
            BackendMessage::ReadyForQuery(TransactionStatus::Idle),
        )
        .expect("Sync response is legal");
    assert!(pipeline.is_empty());
}

#[test]
fn deferred_backend_messages_are_intercepted_only_when_retried_at_head() {
    let mut pipeline = bounded(3);
    pipeline
        .accept_frontend(parse(b"s"), FrontendHandling::Forward)
        .unwrap();
    pipeline
        .accept_frontend(bind(), FrontendHandling::Forward)
        .unwrap();
    let mut calls = 0;

    let deferred = pipeline
        .accept_backend_typed(
            |_, message| {
                calls += 1;
                Ok::<_, Infallible>(message)
            },
            BackendMessage::BindComplete,
        )
        .expect("later Bind response is deferred");
    assert!(matches!(deferred, BackendAction::Deferred(_)));
    assert_eq!(calls, 0);

    pipeline
        .accept_backend(BackendMessage::ParseComplete)
        .expect("Parse completes");
    pipeline
        .accept_backend_typed(
            |_, message| {
                calls += 1;
                Ok::<_, Infallible>(message)
            },
            BackendMessage::BindComplete,
        )
        .expect("retried Bind response is emitted");
    assert_eq!(calls, 1);
}

struct DirectionWide {
    calls: usize,
}

impl DirectionWide {
    fn frontend(&mut self, message: FrontendMessage) -> Result<FrontendMessage, Infallible> {
        self.calls += 1;
        Ok(message)
    }

    fn backend(&mut self, message: BackendMessage) -> Result<BackendMessage, Infallible> {
        self.calls += 1;
        Ok(message)
    }
}

#[test]
fn direction_wide_middleware_adapts_to_typed_pipeline_dispatch() {
    let mut pipeline = bounded(2);
    let mut adapter = PipelineWireAdapter::new(DirectionWide { calls: 0 });
    pipeline
        .accept_frontend_typed(
            |phase, message| {
                assert_eq!(phase, FrontendPhase::Ready);
                let outcome = adapter.handler_mut().frontend(message);
                adapt_frontend::<backend::ReadyExternalMessage, _>(outcome)
                    .map(|message| message.into_wire())
            },
            FrontendMessage::Query(Bytes::from_static(b"select 1")),
            FrontendHandling::Forward,
        )
        .expect("direction-wide frontend policy remains phase legal");
    pipeline
        .accept_backend_typed(
            |prepared, message| {
                assert_eq!(
                    prepared,
                    PreparedResponse::Emit {
                        phase: backend::RuntimeState::Simple
                    }
                );
                let outcome = adapter.handler_mut().backend(message);
                adapt_backend::<backend::SimpleInternalMessage, _>(outcome)
                    .map(|message| message.into_wire())
            },
            BackendMessage::ReadyForQuery(TransactionStatus::Idle),
        )
        .expect("direction-wide backend policy remains operation legal");
    assert_eq!(adapter.into_inner().calls, 2);
    assert!(pipeline.is_empty());
}

#[test]
fn adapters_refuse_what_the_phase_does_not_allow() {
    let query = || FrontendMessage::Query(Bytes::from_static(b"select 1"));
    let admitted: backend::ReadyExternalMessage =
        adapt_frontend(Ok::<_, Infallible>(query())).expect("a query is legal while ready");
    assert_eq!(admitted.into_wire(), query());
    let refused: Result<backend::ReadyExternalMessage, _> =
        adapt_frontend(Ok::<_, Infallible>(FrontendMessage::CopyDone));
    assert!(matches!(
        refused,
        Err(FrontendPipelineWireAdapterError::IllegalFrontend(
            FrontendMessage::CopyDone
        ))
    ));
    let refused: Result<backend::SyncResponseInternalMessage, _> =
        adapt_backend(Ok::<_, Infallible>(BackendMessage::ParseComplete));
    assert!(matches!(
        refused,
        Err(BackendPipelineWireAdapterError::Illegal(
            BackendMessage::ParseComplete
        ))
    ));
    let rejected: Result<backend::SyncResponseInternalMessage, _> = adapt_backend(Err("no"));
    assert!(matches!(
        rejected,
        Err(BackendPipelineWireAdapterError::Middleware("no"))
    ));
}

#[test]
fn completed_execute_and_query_set_the_projection() {
    let mut pipeline = bounded(8);
    for message in [bind(), execute(), FrontendMessage::Sync] {
        pipeline
            .accept_frontend(message, FrontendHandling::Forward)
            .unwrap();
    }
    pipeline.accept_backend(BackendMessage::BindComplete).unwrap();
    assert_eq!(pipeline.state(), PipelineState::Ready);
    pipeline
        .accept_backend(BackendMessage::CommandComplete(Bytes::from_static(
            b"SELECT 1",
        )))
        .unwrap();
    assert_eq!(pipeline.state(), PipelineState::Extended);
    let query = || FrontendMessage::Query(Bytes::from_static(b"select 1"));
    assert!(matches!(
        pipeline.accept_frontend(query(), FrontendHandling::Forward),
        Err(FrontendProjectionError::Illegal { .. })
    ));
    pipeline
        .accept_backend(BackendMessage::ReadyForQuery(TransactionStatus::Idle))
        .unwrap();
    assert_eq!(pipeline.state(), PipelineState::Ready);

    for message in [query(), parse(b"later")] {
        pipeline
            .accept_frontend(message, FrontendHandling::Forward)
            .unwrap();
    }
    assert_eq!(pipeline.state(), PipelineState::Extended);
    pipeline
        .accept_backend(BackendMessage::ReadyForQuery(TransactionStatus::Idle))
        .unwrap();
    assert_eq!(pipeline.state(), PipelineState::Ready);
}

#[test]
fn waiting_rejections_outlast_completed_operations() {
    let mut pipeline = bounded(8);
    for message in [bind(), execute()] {
        pipeline
            .accept_frontend(message, FrontendHandling::Forward)
            .unwrap();
    }
    let rejected = local_id(
        pipeline
            .accept_frontend(parse(b"b"), FrontendHandling::Local)
            .unwrap(),
    );
    assert!(matches!(
        pipeline.try_emit_local(rejected, error()).unwrap(),
        BackendAction::Deferred(_)
    ));
    pipeline.accept_backend(BackendMessage::BindComplete).unwrap();
    pipeline
        .accept_backend(BackendMessage::CommandComplete(Bytes::from_static(
            b"SELECT 1",
        )))
        .unwrap();
    assert!(matches!(
        pipeline
            .accept_frontend(describe(), FrontendHandling::Forward)
            .unwrap()
            .into_action(),
        FrontendAction::Discard { .. }
    ));
}

#[test]
fn a_full_ledger_refuses_illegal_messages_for_capacity() {
    let mut pipeline = bounded(1);
    pipeline
        .accept_frontend(
            FrontendMessage::Query(Bytes::from_static(b"copy t from stdin")),
            FrontendHandling::Forward,
        )
        .unwrap();
    assert_eq!(pipeline.state(), PipelineState::Ready);
    assert!(matches!(
        pipeline.accept_frontend(FrontendMessage::CopyDone, FrontendHandling::Forward),
        Err(FrontendProjectionError::Capacity(message)) if *message == FrontendMessage::CopyDone
    ));
    assert_eq!(pipeline.len(), 1);
    pipeline
        .accept_backend(BackendMessage::CopyInResponse(CopyResponse {
            overall_format: 0,
            column_formats: vec![],
        }))
        .unwrap();
    assert_eq!(pipeline.state(), PipelineState::CopyIn);
    assert!(pipeline
        .accept_frontend(
            FrontendMessage::CopyData(Bytes::from_static(b"row")),
            FrontendHandling::Forward
        )
        .is_ok());
}

#[test]
fn capacity_skips_typed_middleware_but_async_backend_traffic_does_not() {
    let mut pipeline = bounded(1);
    pipeline
        .accept_frontend(parse(b"full"), FrontendHandling::Forward)
        .unwrap();
    let mut calls = 0;
    let body = Bytes::from(vec![7_u8; 2 * 1024 * 1024]);
    let pointer = body.as_ptr();
    assert!(matches!(
        pipeline
            .accept_frontend_typed(
                |_, message| {
                    calls += 1;
                    Ok::<_, Infallible>(message)
                },
                FrontendMessage::Query(body),
                FrontendHandling::Forward,
            )
            .unwrap_err(),
        PipelineMiddlewareError::Projection(
            FrontendProjectionError::Capacity(message)
        ) if matches!(&*message, FrontendMessage::Query(body) if body.as_ptr() == pointer)
    ));
    assert_eq!(calls, 0);

    pipeline
        .accept_backend_typed(
            |prepared, message| {
                assert_eq!(prepared, PreparedResponse::Asynchronous);
                calls += 1;
                Ok::<_, Infallible>(message)
            },
            BackendMessage::NoticeResponse(DiagnosticResponse { fields: vec![] }),
        )
        .expect("asynchronous traffic is always emittable");
    assert_eq!(calls, 1);
    assert_eq!(pipeline.len(), 1);
}

#[test]
fn copy_hooks_preserve_simple_and_extended_origins() {
    let copy = CopyResponse {
        overall_format: 0,
        column_formats: vec![],
    };
    let mut origins: Vec<FrontendPhase> = Vec::new();

    let mut simple = bounded(3);
    simple
        .accept_frontend(
            FrontendMessage::Query(Bytes::from_static(b"copy records from stdin")),
            FrontendHandling::Forward,
        )
        .unwrap();
    simple
        .accept_backend(BackendMessage::CopyInResponse(copy.clone()))
        .unwrap();
    simple
        .accept_frontend_typed(
            |phase, message| {
                origins.push(phase);
                Ok::<_, Infallible>(message)
            },
            FrontendMessage::CopyData(Bytes::from_static(b"simple\n")),
            FrontendHandling::Forward,
        )
        .expect("simple COPY-IN dispatches");

    let mut extended = bounded(5);
    for message in [parse(b"copy"), bind(), execute()] {
        extended
            .accept_frontend(message, FrontendHandling::Forward)
            .unwrap();
    }
    extended
        .accept_backend(BackendMessage::ParseComplete)
        .unwrap();
    extended
        .accept_backend(BackendMessage::BindComplete)
        .unwrap();
    extended
        .accept_backend(BackendMessage::CopyInResponse(copy))
        .unwrap();
    extended
        .accept_frontend_typed(
            |phase, message| {
                origins.push(phase);
                Ok::<_, Infallible>(message)
            },
            FrontendMessage::CopyData(Bytes::from_static(b"extended\n")),
            FrontendHandling::Forward,
        )
        .expect("extended COPY-IN dispatches");

    assert_eq!(
        origins,
        [FrontendPhase::SimpleCopyIn, FrontendPhase::ExtendedCopyIn]
    );
}

#[test]
fn backend_copy_responses_dispatch_through_exact_generated_subphases() {
    let mut pipeline = bounded(2);
    pipeline
        .accept_frontend(
            FrontendMessage::Query(Bytes::from_static(b"copy records to stdout")),
            FrontendHandling::Forward,
        )
        .unwrap();
    let mut phases: Vec<PreparedResponse> = Vec::new();
    let copy = CopyResponse {
        overall_format: 0,
        column_formats: vec![],
    };

    pipeline
        .accept_backend(BackendMessage::CopyOutResponse(copy))
        .expect("Query enters SimpleCopyOut");
    assert!(matches!(
        pipeline
            .accept_backend_typed(
                |prepared, _| {
                    phases.push(prepared);
                    Ok::<_, Infallible>(BackendMessage::CopyDone)
                },
                BackendMessage::CopyData(Bytes::from_static(b"row\n")),
            )
            .expect("COPY data is rewritten within its exact phase"),
        BackendAction::Emit(BackendMessage::CopyDone)
    ));
    for message in [
        BackendMessage::CommandComplete(Bytes::from_static(b"COPY 1")),
        BackendMessage::ReadyForQuery(TransactionStatus::Idle),
    ] {
        pipeline
            .accept_backend_typed(
                |prepared, message| {
                    phases.push(prepared);
                    Ok::<_, Infallible>(message)
                },
                message,
            )
            .expect("completion follows in order");
    }
    let emitted = |phase| PreparedResponse::Emit { phase };
    assert_eq!(
        phases,
        [
            emitted(backend::RuntimeState::SimpleCopyOut),
            emitted(backend::RuntimeState::SimpleCopyOutDone),
            emitted(backend::RuntimeState::SimpleCopyReady),
        ]
    );
}

#[test]
fn typed_and_untyped_paths_commit_the_same_prepared_decisions() {
    let mut untyped = bounded(2);
    let mut typed = bounded(2);
    for message in [parse(b"parity"), bind()] {
        let expected = untyped
            .accept_frontend(message.clone(), FrontendHandling::Forward)
            .unwrap();
        assert_eq!(
            typed
                .accept_frontend_typed(
                    |_, message| Ok::<_, Infallible>(message),
                    message,
                    FrontendHandling::Forward
                )
                .unwrap(),
            expected
        );
    }
    for message in [
        BackendMessage::BindComplete,
        BackendMessage::ParseComplete,
        BackendMessage::BindComplete,
    ] {
        let expected = untyped.accept_backend(message.clone()).unwrap();
        assert_eq!(
            typed
                .accept_backend_typed(|_, message| Ok::<_, Infallible>(message), message)
                .unwrap(),
            expected
        );
    }
    assert_eq!(typed.state(), untyped.state());
    assert_eq!(typed.len(), untyped.len());
}

#[test]
fn rejected_middleware_does_not_commit_a_prepared_decision() {
    let mut pipeline = bounded(2);
    let state = pipeline.state();
    let error = pipeline
        .accept_frontend_typed(
            |_, _| Err("rejected"),
            parse(b"rejected"),
            FrontendHandling::Forward,
        )
        .unwrap_err();

    assert!(matches!(
        error,
        PipelineMiddlewareError::Middleware("rejected")
    ));
    assert_eq!(pipeline.state(), state);
    assert!(pipeline.is_empty());

    let accepted_after_rejection = pipeline
        .accept_frontend(parse(b"accepted"), FrontendHandling::Forward)
        .unwrap();
    let first_fresh_admission = bounded(2)
        .accept_frontend(parse(b"accepted"), FrontendHandling::Forward)
        .unwrap();
    assert_eq!(accepted_after_rejection, first_fresh_admission);
}

#[test]
fn a_replacement_of_another_kind_is_refused() {
    let mut pipeline = bounded(2);
    pipeline
        .accept_frontend(parse(b"s"), FrontendHandling::Forward)
        .unwrap();
    let refused = pipeline
        .accept_backend_typed(
            |_, _| Ok::<_, Infallible>(BackendMessage::BindComplete),
            BackendMessage::ParseComplete,
        )
        .unwrap_err();
    assert!(matches!(refused, PipelineMiddlewareError::Projection(_)));
    assert_eq!(pipeline.len(), 1);
}

#[test]
fn an_emittable_local_operation_is_at_the_head() {
    let mut pipeline = bounded(2);
    pipeline
        .accept_frontend(parse(b"a"), FrontendHandling::Forward)
        .unwrap();
    let local = local_id(
        pipeline
            .accept_frontend(parse(b"b"), FrontendHandling::Local)
            .unwrap(),
    );
    assert!(!pipeline.is_emittable(local));
    assert_eq!(pipeline.len(), 2);
    pipeline
        .accept_backend(BackendMessage::ParseComplete)
        .unwrap();
    assert!(pipeline.is_emittable(local));
}

#[test]
fn limits_must_be_positive() {
    assert_eq!(BoundedPipeline::new(0), Err(PipelineConfigError));
    assert_eq!(BoundedPipeline::new(3).unwrap().max_operations(), 3);
}

#[test]
fn replacement_errors_name_the_cause() {
    let mut pipeline = bounded(2);
    pipeline
        .accept_frontend(parse(b"s"), FrontendHandling::Forward)
        .unwrap();
    assert_eq!(
        pipeline
            .prepare_backend_replacements(&[BackendMessage::ParseComplete], &[])
            .unwrap_err(),
        BackendSequenceError::Cardinality {
            expected: 1,
            actual: 0
        }
    );
    assert_eq!(
        pipeline
            .prepare_backend_replacements(
                &[BackendMessage::NoData],
                &[BackendMessage::ParseComplete]
            )
            .unwrap_err(),
        BackendSequenceError::Source(0)
    );
    assert_eq!(
        pipeline
            .prepare_backend_replacements(
                &[BackendMessage::ParseComplete],
                &[BackendMessage::NoData]
            )
            .unwrap_err(),
        BackendSequenceError::Replacement(0)
    );
    assert_eq!(
        pipeline
            .prepare_backend_replacements(&[BackendMessage::ParseComplete], &[error()])
            .unwrap_err(),
        BackendSequenceError::DifferentSpan
    );
}
