//! Session grammars.

use bytes::Bytes;
use pg_proto::auth::AuthOffer;
use pg_proto::codec::{
    Authentication, BackendMessage, Bind, CopyResponse, Execute, Frame, FrontendMessage, Parse,
    TransactionStatus,
};
use pg_proto::conn::{Conn, Dirty};
use pg_proto::demux::{CommandIndex, SessionItem};
use pg_proto::error::{ErrorKind, ProtocolError};
use pg_proto::grammar::frontend::{Event, RuntimeFsm, RuntimeState, Session};
use pg_proto::grammar::{
    authentication, backend, frontend, pre_startup, server_authentication, server_pre_startup,
};
use pg_proto::octet_map::OctetMap;
use pg_proto::pre_startup::{EncryptionReply, PreStartupMessage};
use pg_proto::session::{
    AwaitingReadyTransition, ReadyState, ResetCompleteTransition, ResettingTransition,
};
use pg_proto::startup::{ProtocolVersion, StartupMessage};

#[derive(Debug)]
struct InitiallyClean;

#[derive(Debug)]
struct Clean;

struct Tcp;

struct Tls(Tcp);

fn visit_frontend(runtime: frontend::RuntimeFsm, depth: usize) {
    for event in frontend::all_events() {
        let state = runtime.state();
        let mut next = runtime;
        match next.step(event) {
            Ok(()) if depth > 0 => visit_frontend(next, depth - 1),
            Ok(()) => {}
            Err(error) => {
                assert_eq!(error.state, state);
                assert_eq!(error.event, event);
                assert_eq!(next.state(), state);
            }
        }
    }
}

fn visit_backend(runtime: backend::RuntimeFsm, depth: usize) {
    for event in backend::all_events() {
        let state = runtime.state();
        let mut next = runtime;
        match next.step(event) {
            Ok(()) if depth > 0 => visit_backend(next, depth - 1),
            Ok(()) => {}
            Err(error) => {
                assert_eq!(error.state, state);
                assert_eq!(error.event, event);
                assert_eq!(next.state(), state);
            }
        }
    }
}

fn visit_pre_startup(runtime: pre_startup::RuntimeFsm, depth: usize) {
    for event in pre_startup::all_events() {
        let state = runtime.state();
        let mut next = runtime;
        match next.step(event) {
            Ok(()) if depth > 0 => visit_pre_startup(next, depth - 1),
            Ok(()) => {}
            Err(error) => {
                assert_eq!(error.state, state);
                assert_eq!(error.event, event);
                assert_eq!(next.state(), state);
            }
        }
    }
}

fn visit_server_pre_startup(runtime: server_pre_startup::RuntimeFsm, depth: usize) {
    for event in server_pre_startup::all_events() {
        let state = runtime.state();
        let mut next = runtime;
        match next.step(event) {
            Ok(()) if depth > 0 => visit_server_pre_startup(next, depth - 1),
            Ok(()) => {}
            Err(error) => {
                assert_eq!(error.state, state);
                assert_eq!(error.event, event);
                assert_eq!(next.state(), state);
            }
        }
    }
}

fn visit_authentication(runtime: authentication::RuntimeFsm, depth: usize) {
    for event in authentication::all_events() {
        let state = runtime.state();
        let mut next = runtime;
        match next.step(event) {
            Ok(()) if depth > 0 => visit_authentication(next, depth - 1),
            Ok(()) => {}
            Err(error) => {
                assert_eq!(error.state, state);
                assert_eq!(error.event, event);
                assert_eq!(next.state(), state);
            }
        }
    }
}

fn visit_server_authentication(runtime: server_authentication::RuntimeFsm, depth: usize) {
    for event in server_authentication::all_events() {
        let state = runtime.state();
        let mut next = runtime;
        match next.step(event) {
            Ok(()) if depth > 0 => visit_server_authentication(next, depth - 1),
            Ok(()) => {}
            Err(error) => {
                assert_eq!(error.state, state);
                assert_eq!(error.event, event);
                assert_eq!(next.state(), state);
            }
        }
    }
}

#[test]
fn every_generated_protocol_exhausts_reachable_valid_and_invalid_events() {
    visit_frontend(frontend::RuntimeFsm::new(), 5);
    visit_backend(backend::RuntimeFsm::new(), 5);
    visit_pre_startup(pre_startup::RuntimeFsm::new(), 5);
    visit_server_pre_startup(server_pre_startup::RuntimeFsm::new(), 5);
    visit_authentication(authentication::RuntimeFsm::new(), 6);
    visit_server_authentication(server_authentication::RuntimeFsm::new(), 6);
}

#[test]
fn generated_backend_projection_is_state_aware() {
    let parse = FrontendMessage::Parse(Parse {
        statement: Bytes::from_static(b"statement"),
        query: Bytes::from_static(b"select 1"),
        parameter_types: Vec::new(),
    });
    assert_eq!(
        backend::project_external(backend::RuntimeState::Ready, &parse),
        Some(backend::Event::Parse)
    );
    assert_eq!(
        backend::project_external(backend::RuntimeState::SimpleCopyIn, &parse),
        None
    );
    assert_eq!(
        backend::project_external(backend::RuntimeState::ExtendedError, &FrontendMessage::Sync,),
        Some(backend::Event::Sync)
    );
    assert_eq!(
        backend::project_external(
            backend::RuntimeState::ExtendedError,
            &FrontendMessage::Flush,
        ),
        Some(backend::Event::Discard)
    );
    assert_eq!(
        backend::project_internal(
            backend::RuntimeState::Simple,
            &BackendMessage::ReadyForQuery(TransactionStatus::Idle),
        ),
        Some(backend::Event::Ready)
    );
    assert_eq!(
        backend::project_internal(
            backend::RuntimeState::ExtendedCopyOut,
            &BackendMessage::CopyDone,
        ),
        Some(backend::Event::Done)
    );
}

#[test]
fn generated_frontend_projection_covers_wire_messages_only() {
    assert_eq!(
        frontend::project_internal(frontend::RuntimeState::Building, &FrontendMessage::Sync,),
        Some(frontend::Event::Sync)
    );
    assert_eq!(
        frontend::project_external(
            frontend::RuntimeState::Simple,
            &BackendMessage::ReadyForQuery(TransactionStatus::Idle),
        ),
        Some(frontend::Event::Ready)
    );
    assert_eq!(
        frontend::project_external(
            frontend::RuntimeState::ResetComplete,
            &BackendMessage::ReadyForQuery(TransactionStatus::FailedTransaction),
        ),
        Some(frontend::Event::ReadyDirty)
    );
    assert_eq!(
        frontend::project_external(
            frontend::RuntimeState::CopyIn,
            &BackendMessage::CopyData(Bytes::from_static(b"illegal direction")),
        ),
        None
    );
}

#[test]
fn codec_messages_drive_generated_extended_and_copy_sequences() {
    let parse = FrontendMessage::Parse(Parse {
        statement: Bytes::new(),
        query: Bytes::from_static(b"select $1"),
        parameter_types: vec![23],
    });
    let mut extended = backend::RuntimeFsm::new();
    extended
        .step_projected(&parse, backend::project_external)
        .unwrap();
    extended
        .step_projected(&BackendMessage::ParseComplete, backend::project_internal)
        .unwrap();
    extended
        .step_projected(&FrontendMessage::Sync, backend::project_external)
        .unwrap();
    extended
        .step_projected(
            &BackendMessage::ReadyForQuery(TransactionStatus::Idle),
            backend::project_internal,
        )
        .unwrap();
    assert_eq!(extended.state(), backend::RuntimeState::Ready);

    let mut copy = backend::RuntimeFsm::new();
    copy.step_projected(
        &FrontendMessage::Query(Bytes::from_static(b"copy t from stdin")),
        backend::project_external,
    )
    .unwrap();
    copy.step_projected(
        &BackendMessage::CopyInResponse(CopyResponse {
            overall_format: 0,
            column_formats: vec![0],
        }),
        backend::project_internal,
    )
    .unwrap();
    assert_eq!(copy.state(), backend::RuntimeState::SimpleCopyIn);
    assert!(
        copy.step_projected(
            &FrontendMessage::Query(Bytes::from_static(b"select 1")),
            backend::project_external,
        )
        .is_err()
    );
    assert_eq!(copy.state(), backend::RuntimeState::SimpleCopyIn);
}

#[test]
fn generated_typestate_and_runtime_accept_the_extended_loop() {
    let _typed = Session::new()
        .begin_extended()
        .parse()
        .bind()
        .execute()
        .sync()
        .ready();

    let mut runtime = RuntimeFsm::new();
    for event in [
        Event::BeginExtended,
        Event::Parse,
        Event::Bind,
        Event::Execute,
        Event::Sync,
        Event::Ready,
    ] {
        runtime.step(event).unwrap();
    }
    assert_eq!(runtime.state(), RuntimeState::Ready);
}

#[test]
fn generated_backend_discards_failed_pipeline_until_sync() {
    let _typed = backend::Session::new()
        .parse()
        .error()
        .discard()
        .discard()
        .sync()
        .ready()
        .terminate();

    let mut runtime = backend::RuntimeFsm::new();
    for event in [
        backend::Event::Parse,
        backend::Event::Error,
        backend::Event::Discard,
        backend::Event::Discard,
        backend::Event::Sync,
        backend::Event::Ready,
        backend::Event::Terminate,
    ] {
        runtime.step(event).unwrap();
    }
    assert_eq!(runtime.state(), backend::RuntimeState::Terminated);
}

#[test]
fn generated_backend_copy_resumes_its_enclosing_session() {
    let _simple = backend::Session::new()
        .query()
        .copy_in()
        .data()
        .done()
        .command_complete()
        .ready();
    let _extended = backend::Session::new()
        .execute()
        .copy_out()
        .data()
        .done()
        .command_complete()
        .sync()
        .ready();

    let mut runtime = backend::RuntimeFsm::new();
    for event in [
        backend::Event::Execute,
        backend::Event::CopyOut,
        backend::Event::Data,
        backend::Event::Done,
        backend::Event::CommandComplete,
    ] {
        runtime.step(event).unwrap();
    }
    assert_eq!(runtime.state(), backend::RuntimeState::Building);
    runtime.step(backend::Event::Sync).unwrap();
    runtime.step(backend::Event::Ready).unwrap();
    assert_eq!(runtime.state(), backend::RuntimeState::Ready);
}

#[test]
fn generated_backend_copy_both_tracks_independent_half_closes() {
    let _server_first = backend::Session::new()
        .query()
        .copy_both()
        .send_data()
        .receive_data()
        .send_done()
        .receive_data()
        .receive_done()
        .command_complete()
        .ready();
    let _client_first = backend::Session::new()
        .execute()
        .copy_both()
        .receive_done()
        .send_data()
        .send_done()
        .command_complete()
        .sync()
        .ready();

    let mut runtime = backend::RuntimeFsm::new();
    runtime.step(backend::Event::Query).unwrap();
    runtime.step(backend::Event::CopyBoth).unwrap();
    assert_eq!(runtime.choice(), backend::ChoiceKind::Mixed);
    assert_eq!(
        runtime.event_choice(backend::Event::SendData),
        Some(backend::ChoiceKind::Internal)
    );
    assert_eq!(
        runtime.event_choice(backend::Event::ReceiveData),
        Some(backend::ChoiceKind::External)
    );
    runtime.step(backend::Event::SendDone).unwrap();
    assert!(runtime.step(backend::Event::SendData).is_err());
    runtime.step(backend::Event::ReceiveDone).unwrap();
    runtime.step(backend::Event::CommandComplete).unwrap();
    runtime.step(backend::Event::Ready).unwrap();
    assert_eq!(runtime.state(), backend::RuntimeState::Ready);
}

#[test]
fn generated_runtime_rejects_query_during_copy() {
    let mut runtime = RuntimeFsm::new();
    runtime.step(Event::Query).unwrap();
    runtime.step(Event::CopyIn).unwrap();
    assert!(runtime.step(Event::Query).is_err());
    assert_eq!(
        runtime.event_choice(Event::Error),
        Some(frontend::ChoiceKind::External)
    );
    runtime.step(Event::Error).unwrap();
    assert_eq!(runtime.state(), RuntimeState::Draining);
}

#[test]
fn generated_copy_both_waits_for_both_half_closes() {
    let mut directions = RuntimeFsm::new();
    directions.step(Event::Query).unwrap();
    directions.step(Event::CopyBoth).unwrap();
    assert_eq!(directions.choice(), frontend::ChoiceKind::Mixed);
    assert_eq!(
        directions.event_choice(Event::SendCopyData),
        Some(frontend::ChoiceKind::Internal)
    );
    assert_eq!(
        directions.event_choice(Event::ReceiveCopyData),
        Some(frontend::ChoiceKind::External)
    );

    let mut client_first = RuntimeFsm::new();
    for event in [
        Event::Query,
        Event::CopyBoth,
        Event::SendCopyDone,
        Event::ReceiveCopyData,
        Event::ReceiveCopyDone,
    ] {
        client_first.step(event).unwrap();
    }
    assert_eq!(client_first.state(), RuntimeState::AwaitingReady);

    let mut server_first = RuntimeFsm::new();
    for event in [
        Event::Query,
        Event::CopyBoth,
        Event::ReceiveCopyDone,
        Event::SendCopyData,
        Event::SendCopyDone,
    ] {
        server_first.step(event).unwrap();
    }
    assert_eq!(server_first.state(), RuntimeState::AwaitingReady);
}

#[test]
fn generated_function_call_and_termination_match_typed_paths() {
    let _function = Session::new()
        .function_call()
        .function_response()
        .ready()
        .terminate();

    let mut runtime = RuntimeFsm::new();
    for event in [
        Event::FunctionCall,
        Event::FunctionResponse,
        Event::Ready,
        Event::Terminate,
    ] {
        runtime.step(event).unwrap();
    }
    assert_eq!(runtime.state(), RuntimeState::Terminated);
}

#[test]
fn generated_pool_reset_requires_discard_and_ready_evidence() {
    let _typed = Session::new()
        .reset()
        .continue_reset()
        .discard_complete()
        .continue_reset()
        .ready_clean();

    let mut runtime = RuntimeFsm::new();
    runtime.step(Event::Reset).unwrap();
    assert!(runtime.step(Event::ReadyClean).is_err());
    runtime.step(Event::DiscardComplete).unwrap();
    runtime.step(Event::ReadyClean).unwrap();
    assert_eq!(runtime.state(), RuntimeState::Ready);

    let dirty: Conn<(), pg_proto::auth::Ready, Dirty> =
        Conn::new(()).transition().mark_dirty();
    let (resetting, _) = dirty.begin_reset().unwrap();
    let ResettingTransition::Complete(complete) =
        resetting.offer(SessionItem::CommandComplete {
            tag: Bytes::from_static(b"DISCARD ALL"),
            command: CommandIndex(1),
            notices: Vec::new(),
        })
    else {
        panic!("DISCARD ALL did not advance reset recovery")
    };
    let ResetCompleteTransition::Ready(ready) =
        complete.offer(SessionItem::ReadyForQuery {
            status: TransactionStatus::Idle,
            parameters_changed: false,
        })
    else {
        panic!("idle readiness did not restore pristine evidence")
    };
    ready.release();
}

#[test]
fn generated_transport_session_tracks_cleanliness_effects() {
    let ready: frontend::TypedSession<(), frontend::Ready, InitiallyClean> =
        frontend::TypedSession::with_transport(());
    let (dirty, query): (
        frontend::TypedSession<(), frontend::Simple, frontend::Dirty>,
        Bytes,
    ) = ready
        .query(Bytes::from_static(b"select 1"), |(), query| {
            ((), Ok::<_, std::convert::Infallible>(query))
        })
        .expect("query handler is infallible");
    assert_eq!(query, Bytes::from_static(b"select 1"));
    let (dirty, _status): (
        frontend::TypedSession<(), frontend::Ready, frontend::Dirty>,
        TransactionStatus,
    ) = dirty
        .ready(TransactionStatus::Idle, |(), status| {
            ((), Ok::<_, std::convert::Infallible>(status))
        })
        .expect("readiness handler is infallible");
    assert_eq!(dirty.into_transport(), ());

    let dirty: frontend::TypedSession<(), frontend::Ready, frontend::Dirty> =
        frontend::TypedSession::with_transport(());
    let (reset_complete, _tag) = dirty
        .reset()
        .discard_complete(Bytes::from_static(b"DISCARD ALL"), |(), tag| {
            ((), Ok::<_, std::convert::Infallible>(tag))
        })
        .expect("command handler is infallible");
    let (clean, _status): (
        frontend::TypedSession<(), frontend::Ready, frontend::Pristine>,
        TransactionStatus,
    ) = reset_complete
        .ready_clean(TransactionStatus::Idle, |(), status| {
            ((), Ok::<_, std::convert::Infallible>(status))
        })
        .expect("readiness handler is infallible");
    assert_eq!(clean.into_transport(), ());
}

#[test]
fn generated_frontend_parse_payload_is_inspectable_and_fallible() {
    let ready: frontend::TypedSession<Vec<Frame>, frontend::Ready, Clean> =
        frontend::TypedSession::with_transport(Vec::new());
    let parse = Parse {
        statement: Bytes::from_static(b"statement"),
        query: Bytes::from_static(b"select encrypted_column"),
        parameter_types: vec![23],
    };
    let (building, query): (
        frontend::TypedSession<Vec<Frame>, frontend::Building, frontend::Dirty>,
        Bytes,
    ) = ready
        .begin_extended()
        .parse(parse, |mut frames, message| {
            let query = message.query.clone();
            match message.to_frame() {
                Ok(frame) => {
                    frames.push(frame);
                    (frames, Ok::<_, ProtocolError>(query))
                }
                Err(error) => (frames, Err(error)),
            }
        })
        .unwrap();
    assert_eq!(query, Bytes::from_static(b"select encrypted_column"));
    assert_eq!(building.into_transport()[0].tag, b'P');

    let ready: frontend::TypedSession<Vec<Frame>, frontend::Ready, Clean> =
        frontend::TypedSession::with_transport(Vec::new());
    let invalid = Parse {
        statement: Bytes::from_static(b"bad\0statement"),
        query: Bytes::from_static(b"select 1"),
        parameter_types: vec![],
    };
    let (building, error) = ready
        .begin_extended()
        .parse(invalid, |mut frames, message| match message.to_frame() {
            Ok(frame) => {
                frames.push(frame);
                (frames, Ok::<_, ProtocolError>(()))
            }
            Err(error) => (frames, Err(error)),
        })
        .unwrap_err();
    assert_eq!(error.kind(), ErrorKind::InvalidInput);
    assert!(building.into_transport().is_empty());
}

#[test]
fn generated_pre_startup_requires_handshake_before_startup() {
    let _typed = pre_startup::Session::new()
        .ssl_request()
        .accept()
        .complete()
        .startup();

    let mut runtime = pre_startup::RuntimeFsm::new();
    runtime.step(pre_startup::Event::SslRequest).unwrap();
    assert!(runtime.step(pre_startup::Event::Startup).is_err());
    runtime.step(pre_startup::Event::Accept).unwrap();
    runtime.step(pre_startup::Event::HandshakeComplete).unwrap();
    runtime.step(pre_startup::Event::Startup).unwrap();

    let pre_startup: pre_startup::TypedSession<Tcp, pre_startup::PreStartup, Clean> =
        pre_startup::TypedSession::with_transport(Tcp);
    let startup = StartupMessage {
        version: ProtocolVersion::v3_0(),
        parameters: OctetMap::new(),
    };
    let auth = pre_startup
        .ssl_request()
        .accept()
        .map_transport(Tls)
        .complete()
        .startup(startup, |transport, startup| {
            (transport, Ok::<_, std::convert::Infallible>(startup))
        });
    let (auth, _startup): (
        pre_startup::TypedSession<Tls, pre_startup::Auth, Clean>,
        StartupMessage,
    ) = match auth {
        Ok(success) => success,
        Err((_session, never)) => match never {},
    };
    let Tls(_tcp) = auth.into_transport();

    assert_eq!(
        pre_startup::project_internal(
            pre_startup::RuntimeState::PreStartup,
            &PreStartupMessage::SslRequest,
        ),
        Some(pre_startup::Event::SslRequest)
    );
    assert_eq!(
        pre_startup::project_external(
            pre_startup::RuntimeState::AwaitingSslReply,
            &EncryptionReply::Accepted,
        ),
        Some(pre_startup::Event::Accept)
    );
}

#[test]
fn generated_server_pre_startup_is_the_client_facing_dual() {
    let _plaintext = server_pre_startup::Session::new()
        .ssl_request()
        .reject()
        .startup();
    let _encrypted = server_pre_startup::Session::new()
        .ssl_request()
        .accept()
        .complete()
        .startup();

    let mut runtime = server_pre_startup::RuntimeFsm::new();
    assert_eq!(runtime.choice(), server_pre_startup::ChoiceKind::External);
    runtime.step(server_pre_startup::Event::SslRequest).unwrap();
    assert_eq!(runtime.choice(), server_pre_startup::ChoiceKind::Internal);
    assert!(runtime.step(server_pre_startup::Event::Startup).is_err());
    runtime.step(server_pre_startup::Event::Reject).unwrap();
    runtime.step(server_pre_startup::Event::Startup).unwrap();
    assert_eq!(runtime.state(), server_pre_startup::RuntimeState::Auth);

    assert_eq!(
        pre_startup::RuntimeFsm::new().dual_event_choice(pre_startup::Event::SslRequest),
        Some(pre_startup::ChoiceKind::External)
    );
}

#[test]
fn generated_sasl_continuation_is_recursive() {
    let _typed = authentication::Session::new()
        .sasl()
        .initial()
        .continue_response()
        .response()
        .continue_response()
        .response()
        .final_response()
        .verified()
        .ok()
        .ready();

    let mut runtime = authentication::RuntimeFsm::new();
    for event in [
        authentication::Event::Sasl,
        authentication::Event::Initial,
        authentication::Event::Continue,
        authentication::Event::Response,
        authentication::Event::Continue,
        authentication::Event::Response,
        authentication::Event::Final,
        authentication::Event::Verified,
        authentication::Event::Accepted,
        authentication::Event::Ready,
    ] {
        runtime.step(event).unwrap();
    }
    assert_eq!(runtime.state(), authentication::RuntimeState::Ready);
    assert_eq!(
        authentication::project_external(
            authentication::RuntimeState::Sasl,
            &BackendMessage::Authentication(Authentication::SaslContinue(Bytes::from_static(
                b"challenge"
            ),)),
        ),
        Some(authentication::Event::Continue)
    );
    assert_eq!(
        authentication::project_internal(
            authentication::RuntimeState::SaslChallenge,
            &FrontendMessage::PasswordResponse(Bytes::from_static(b"response")),
        ),
        Some(authentication::Event::Response)
    );
}

#[test]
fn generated_token_authentication_is_recursive() {
    let _typed = authentication::Session::new()
        .gss()
        .response()
        .continue_token()
        .response()
        .ok()
        .ready();

    let mut runtime = authentication::RuntimeFsm::new();
    for event in [
        authentication::Event::Gss,
        authentication::Event::Response,
        authentication::Event::Continue,
        authentication::Event::Response,
        authentication::Event::Accepted,
        authentication::Event::Ready,
    ] {
        runtime.step(event).unwrap();
    }
    assert_eq!(runtime.state(), authentication::RuntimeState::Ready);
}

#[test]
fn generated_server_authentication_keeps_mechanisms_independent() {
    let _typed = server_authentication::Session::new()
        .begin()
        .negotiate()
        .sasl()
        .initial()
        .continue_response()
        .response()
        .final_response()
        .ok()
        .parameter_status()
        .backend_key_data()
        .ready();

    let mut runtime = server_authentication::RuntimeFsm::new();
    for event in [
        server_authentication::Event::Begin,
        server_authentication::Event::Negotiate,
        server_authentication::Event::Gss,
        server_authentication::Event::Response,
        server_authentication::Event::Continue,
        server_authentication::Event::Response,
        server_authentication::Event::Verified,
        server_authentication::Event::Accepted,
        server_authentication::Event::Ready,
    ] {
        runtime.step(event).unwrap();
    }
    assert_eq!(runtime.state(), server_authentication::RuntimeState::Ready);
}

#[test]
fn runtime_fsm_tracks_the_handwritten_extended_typestate() {
    let message = StartupMessage {
        version: ProtocolVersion::v3_2(),
        parameters: OctetMap::new(),
    };
    let (startup, _) = Conn::new(()).startup(&message).unwrap();
    let AuthOffer::Accepted(awaiting_ready) =
        startup.authentication().offer(Authentication::Accepted).unwrap()
    else {
        panic!("authentication projected to the wrong branch")
    };
    let ready = awaiting_ready
        .offer_ready(SessionItem::ReadyForQuery {
            status: TransactionStatus::Idle,
            parameters_changed: false,
        })
        .unwrap();
    let mut runtime = RuntimeFsm::new();

    let building = ready.begin_extended();
    runtime.step(Event::BeginExtended).unwrap();
    let (building, _) = building
        .push_parse(&Parse {
            statement: Bytes::from_static(b"s"),
            query: Bytes::from_static(b"select $1"),
            parameter_types: vec![23],
        })
        .unwrap();
    runtime.step(Event::Parse).unwrap();
    let (bound, _) = building
        .push_bind(&Bind {
            portal: Bytes::new(),
            statement: Bytes::from_static(b"s"),
            parameter_formats: vec![],
            parameters: vec![Some(Bytes::from_static(b"42"))],
            result_formats: vec![],
        })
        .unwrap();
    runtime.step(Event::Bind).unwrap();
    let (bound, _) = bound
        .push_execute(&Execute {
            portal: Bytes::new(),
            max_rows: 0,
        })
        .unwrap();
    runtime.step(Event::Execute).unwrap();
    let (awaiting_ready, _) = bound.push_sync();
    runtime.step(Event::Sync).unwrap();
    let AwaitingReadyTransition::Ready(ReadyState::Clean(ready)) =
        awaiting_ready.offer(SessionItem::ReadyForQuery {
            status: TransactionStatus::Idle,
            parameters_changed: false,
        })
    else {
        panic!("ready evidence projected to the wrong branch")
    };
    runtime.step(Event::Ready).unwrap();

    assert_eq!(runtime.state(), RuntimeState::Ready);
    ready.into_transport();
}
