//! Which grammar phase each connection typestate is in.

use vstd::prelude::*;

use super::{ClientRole, Inbound, Outbound, PhaseAssociation, ServerRole, TypedBackendMessage};
use crate::auth;
use crate::codec::{BackendMessage, FrontendMessage};
use crate::grammar::{
    authentication, backend, frontend, pre_startup as pre_startup_grammar, server_authentication,
    server_pre_startup,
};
use crate::pre_startup;
use crate::pre_startup::{EncryptionReply, PreStartupMessage};
use crate::server_auth;
use crate::server_session;
use crate::session;

verus! {

impl PhaseAssociation<Inbound, ServerRole, BackendMessage> for auth::Ready {
    type ProtocolPhase = frontend::Ready;

    type Message = TypedBackendMessage<frontend::ExternalMessage<frontend::Ready>>;
}

impl PhaseAssociation<Outbound, ClientRole, FrontendMessage> for auth::Ready {
    type ProtocolPhase = frontend::Ready;

    type Message = frontend::InternalMessage<frontend::Ready>;
}

impl PhaseAssociation<Inbound, ServerRole, BackendMessage> for session::FunctionCalling {
    type ProtocolPhase = frontend::FunctionCalling;

    type Message = TypedBackendMessage<frontend::ExternalMessage<frontend::FunctionCalling>>;
}

impl PhaseAssociation<Inbound, ServerRole, BackendMessage> for session::SimpleQuery {
    type ProtocolPhase = frontend::Simple;

    type Message = TypedBackendMessage<frontend::ExternalMessage<frontend::Simple>>;
}

impl PhaseAssociation<Inbound, ServerRole, BackendMessage> for session::Building {
    type ProtocolPhase = frontend::Building;

    type Message = TypedBackendMessage<frontend::ExternalMessage<frontend::Building>>;
}

impl PhaseAssociation<Outbound, ClientRole, FrontendMessage> for session::Building {
    type ProtocolPhase = frontend::Building;

    type Message = frontend::InternalMessage<frontend::Building>;
}

impl PhaseAssociation<Inbound, ServerRole, BackendMessage> for session::BoundBuilding {
    type ProtocolPhase = frontend::BoundBuilding;

    type Message = TypedBackendMessage<frontend::ExternalMessage<frontend::BoundBuilding>>;
}

impl PhaseAssociation<Outbound, ClientRole, FrontendMessage> for session::BoundBuilding {
    type ProtocolPhase = frontend::BoundBuilding;

    type Message = frontend::InternalMessage<frontend::BoundBuilding>;
}

impl PhaseAssociation<Inbound, ServerRole, BackendMessage> for session::AwaitingReady {
    type ProtocolPhase = frontend::AwaitingReady;

    type Message = TypedBackendMessage<frontend::ExternalMessage<frontend::AwaitingReady>>;
}

impl PhaseAssociation<Inbound, ServerRole, BackendMessage> for session::CopyIn {
    type ProtocolPhase = frontend::CopyIn;

    type Message = TypedBackendMessage<frontend::ExternalMessage<frontend::CopyIn>>;
}

impl PhaseAssociation<Outbound, ClientRole, FrontendMessage> for session::CopyIn {
    type ProtocolPhase = frontend::CopyIn;

    type Message = frontend::InternalMessage<frontend::CopyIn>;
}

impl PhaseAssociation<Inbound, ServerRole, BackendMessage> for session::CopyOut {
    type ProtocolPhase = frontend::CopyOut;

    type Message = TypedBackendMessage<frontend::ExternalMessage<frontend::CopyOut>>;
}

impl PhaseAssociation<Inbound, ServerRole, BackendMessage> for session::CopyBoth {
    type ProtocolPhase = frontend::CopyBoth;

    type Message = TypedBackendMessage<frontend::ExternalMessage<frontend::CopyBoth>>;
}

impl PhaseAssociation<Outbound, ClientRole, FrontendMessage> for session::CopyBoth {
    type ProtocolPhase = frontend::CopyBoth;

    type Message = frontend::InternalMessage<frontend::CopyBoth>;
}

impl PhaseAssociation<Inbound, ServerRole, BackendMessage> for session::CopyBothClientDone {
    type ProtocolPhase = frontend::CopyBothClientDone;

    type Message = TypedBackendMessage<frontend::ExternalMessage<frontend::CopyBothClientDone>>;
}

impl PhaseAssociation<Inbound, ServerRole, BackendMessage> for session::CopyBothServerDone {
    type ProtocolPhase = frontend::CopyBothServerDone;

    type Message = TypedBackendMessage<frontend::ExternalMessage<frontend::CopyBothServerDone>>;
}

impl PhaseAssociation<Outbound, ClientRole, FrontendMessage> for session::CopyBothServerDone {
    type ProtocolPhase = frontend::CopyBothServerDone;

    type Message = frontend::InternalMessage<frontend::CopyBothServerDone>;
}

impl PhaseAssociation<Inbound, ServerRole, BackendMessage> for session::Draining {
    type ProtocolPhase = frontend::Draining;

    type Message = TypedBackendMessage<frontend::ExternalMessage<frontend::Draining>>;
}

impl PhaseAssociation<Inbound, ServerRole, BackendMessage> for session::Resetting {
    type ProtocolPhase = frontend::Resetting;

    type Message = TypedBackendMessage<frontend::ExternalMessage<frontend::Resetting>>;
}

impl PhaseAssociation<Inbound, ServerRole, BackendMessage> for session::ResetComplete {
    type ProtocolPhase = frontend::ResetComplete;

    type Message = TypedBackendMessage<frontend::ExternalMessage<frontend::ResetComplete>>;
}

impl PhaseAssociation<Outbound, ClientRole, PreStartupMessage> for pre_startup::PreStartup {
    type ProtocolPhase = pre_startup_grammar::PreStartup;

    type Message = pre_startup_grammar::InternalMessage<pre_startup_grammar::PreStartup>;
}

impl PhaseAssociation<Inbound, ServerRole, EncryptionReply> for pre_startup::AwaitingSslReply {
    type ProtocolPhase = pre_startup_grammar::AwaitingSslReply;

    type Message = pre_startup_grammar::ExternalMessage<pre_startup_grammar::AwaitingSslReply>;
}

impl PhaseAssociation<Inbound, ServerRole, EncryptionReply> for pre_startup::AwaitingGssReply {
    type ProtocolPhase = pre_startup_grammar::AwaitingGssReply;

    type Message = pre_startup_grammar::ExternalMessage<pre_startup_grammar::AwaitingGssReply>;
}

impl PhaseAssociation<Inbound, ClientRole, PreStartupMessage> for pre_startup::PreStartup {
    type ProtocolPhase = server_pre_startup::PreStartup;

    type Message = server_pre_startup::ExternalMessage<server_pre_startup::PreStartup>;
}

impl PhaseAssociation<Outbound, ServerRole, EncryptionReply> for pre_startup::ServerSslDecision {
    type ProtocolPhase = server_pre_startup::SslDecision;

    type Message = server_pre_startup::InternalMessage<server_pre_startup::SslDecision>;
}

impl PhaseAssociation<Outbound, ServerRole, EncryptionReply> for pre_startup::ServerGssDecision {
    type ProtocolPhase = server_pre_startup::GssDecision;

    type Message = server_pre_startup::InternalMessage<server_pre_startup::GssDecision>;
}

impl PhaseAssociation<Inbound, ServerRole, BackendMessage> for auth::Auth {
    type ProtocolPhase = authentication::Auth;

    type Message = TypedBackendMessage<authentication::ExternalMessage<authentication::Auth>>;
}

impl PhaseAssociation<Outbound, ClientRole, FrontendMessage> for auth::PasswordResponse {
    type ProtocolPhase = authentication::PasswordResponse;

    type Message = authentication::InternalMessage<authentication::PasswordResponse>;
}

impl PhaseAssociation<Outbound, ClientRole, FrontendMessage> for auth::TokenResponse {
    type ProtocolPhase = authentication::TokenResponse;

    type Message = authentication::InternalMessage<authentication::TokenResponse>;
}

impl PhaseAssociation<Inbound, ServerRole, BackendMessage> for auth::TokenChallenge {
    type ProtocolPhase = authentication::TokenChallenge;

    type Message = TypedBackendMessage<authentication::ExternalMessage<authentication::TokenChallenge>>;
}

impl PhaseAssociation<Outbound, ClientRole, FrontendMessage> for auth::SaslInitial {
    type ProtocolPhase = authentication::SaslInitial;

    type Message = authentication::InternalMessage<authentication::SaslInitial>;
}

impl PhaseAssociation<Inbound, ServerRole, BackendMessage> for auth::Sasl {
    type ProtocolPhase = authentication::Sasl;

    type Message = TypedBackendMessage<authentication::ExternalMessage<authentication::Sasl>>;
}

impl PhaseAssociation<Outbound, ClientRole, FrontendMessage> for auth::SaslChallenge {
    type ProtocolPhase = authentication::SaslChallenge;

    type Message = authentication::InternalMessage<authentication::SaslChallenge>;
}

impl PhaseAssociation<Inbound, ServerRole, BackendMessage> for auth::AwaitingAuthOk {
    type ProtocolPhase = authentication::AwaitingAuthOk;

    type Message = TypedBackendMessage<authentication::ExternalMessage<authentication::AwaitingAuthOk>>;
}

impl PhaseAssociation<Inbound, ServerRole, BackendMessage> for auth::AwaitingStartupReady {
    type ProtocolPhase = authentication::AwaitingStartupReady;

    type Message = TypedBackendMessage<authentication::ExternalMessage<authentication::AwaitingStartupReady>>;
}

impl PhaseAssociation<Inbound, ClientRole, FrontendMessage> for auth::Ready {
    type ProtocolPhase = backend::Ready;

    type Message = backend::ExternalMessage<backend::Ready>;
}

impl PhaseAssociation<Outbound, ServerRole, BackendMessage> for server_session::ServerSimpleQuery {
    type ProtocolPhase = backend::Simple;

    type Message = TypedBackendMessage<backend::InternalMessage<backend::Simple>>;
}

impl PhaseAssociation<Outbound, ServerRole, BackendMessage> for server_session::ServerSimpleError {
    type ProtocolPhase = backend::SimpleError;

    type Message = TypedBackendMessage<backend::InternalMessage<backend::SimpleError>>;
}

impl PhaseAssociation<Inbound, ClientRole, FrontendMessage> for server_session::ServerBuilding {
    type ProtocolPhase = backend::Building;

    type Message = backend::ExternalMessage<backend::Building>;
}

impl PhaseAssociation<Outbound, ServerRole, BackendMessage> for server_session::ServerBuilding {
    type ProtocolPhase = backend::Building;

    type Message = TypedBackendMessage<backend::InternalMessage<backend::Building>>;
}

impl PhaseAssociation<Outbound, ServerRole, BackendMessage> for server_session::ServerParse {
    type ProtocolPhase = backend::ParseResponse;

    type Message = TypedBackendMessage<backend::InternalMessage<backend::ParseResponse>>;
}

impl PhaseAssociation<Outbound, ServerRole, BackendMessage> for server_session::ServerBind {
    type ProtocolPhase = backend::BindResponse;

    type Message = TypedBackendMessage<backend::InternalMessage<backend::BindResponse>>;
}

impl PhaseAssociation<Outbound, ServerRole, BackendMessage> for server_session::ServerDescribe {
    type ProtocolPhase = backend::DescribeResponse;

    type Message = TypedBackendMessage<backend::InternalMessage<backend::DescribeResponse>>;
}

impl PhaseAssociation<Outbound, ServerRole, BackendMessage> for server_session::ServerExecute {
    type ProtocolPhase = backend::ExecuteResponse;

    type Message = TypedBackendMessage<backend::InternalMessage<backend::ExecuteResponse>>;
}

impl PhaseAssociation<Outbound, ServerRole, BackendMessage> for server_session::ServerClose {
    type ProtocolPhase = backend::CloseResponse;

    type Message = TypedBackendMessage<backend::InternalMessage<backend::CloseResponse>>;
}

impl PhaseAssociation<Inbound, ClientRole, FrontendMessage> for server_session::ServerExtendedError {
    type ProtocolPhase = backend::ExtendedError;

    type Message = backend::ExternalMessage<backend::ExtendedError>;
}

impl PhaseAssociation<Outbound, ServerRole, BackendMessage> for server_session::ServerExtendedError {
    type ProtocolPhase = backend::ExtendedError;

    type Message = TypedBackendMessage<backend::InternalMessage<backend::ExtendedError>>;
}

impl PhaseAssociation<Outbound, ServerRole, BackendMessage> for server_session::ServerSync {
    type ProtocolPhase = backend::SyncResponse;

    type Message = TypedBackendMessage<backend::InternalMessage<backend::SyncResponse>>;
}

impl PhaseAssociation<Outbound, ServerRole, BackendMessage> for server_session::ServerFunctionCall {
    type ProtocolPhase = backend::FunctionResponse;

    type Message = TypedBackendMessage<backend::InternalMessage<backend::FunctionResponse>>;
}

impl PhaseAssociation<Outbound, ServerRole, BackendMessage> for server_session::ServerFunctionCallDone {
    type ProtocolPhase = backend::FunctionReady;

    type Message = TypedBackendMessage<backend::InternalMessage<backend::FunctionReady>>;
}

impl PhaseAssociation<Outbound, ServerRole, BackendMessage> for server_session::ServerFunctionCallError {
    type ProtocolPhase = backend::FunctionReady;

    type Message = TypedBackendMessage<backend::InternalMessage<backend::FunctionReady>>;
}

impl PhaseAssociation<Inbound, ClientRole, FrontendMessage> for server_session::ServerCopyIn<server_session::CopySimple> {
    type ProtocolPhase = backend::SimpleCopyIn;

    type Message = backend::ExternalMessage<backend::SimpleCopyIn>;
}

impl PhaseAssociation<Outbound, ServerRole, BackendMessage> for server_session::ServerCopyIn<server_session::CopySimple> {
    type ProtocolPhase = backend::SimpleCopyIn;

    type Message = TypedBackendMessage<backend::InternalMessage<backend::SimpleCopyIn>>;
}

impl PhaseAssociation<Outbound, ServerRole, BackendMessage> for server_session::ServerCopyInDone<server_session::CopySimple> {
    type ProtocolPhase = backend::SimpleCopyInDone;

    type Message = TypedBackendMessage<backend::InternalMessage<backend::SimpleCopyInDone>>;
}

impl PhaseAssociation<Outbound, ServerRole, BackendMessage> for server_session::ServerCopyInFailed<server_session::CopySimple> {
    type ProtocolPhase = backend::SimpleCopyInFailed;

    type Message = TypedBackendMessage<backend::InternalMessage<backend::SimpleCopyInFailed>>;
}

impl PhaseAssociation<Outbound, ServerRole, BackendMessage> for server_session::ServerCopyOut<server_session::CopySimple> {
    type ProtocolPhase = backend::SimpleCopyOut;

    type Message = TypedBackendMessage<backend::InternalMessage<backend::SimpleCopyOut>>;
}

impl PhaseAssociation<Outbound, ServerRole, BackendMessage> for server_session::ServerCopyOutDone<server_session::CopySimple> {
    type ProtocolPhase = backend::SimpleCopyOutDone;

    type Message = TypedBackendMessage<backend::InternalMessage<backend::SimpleCopyOutDone>>;
}

impl PhaseAssociation<Inbound, ClientRole, FrontendMessage> for server_session::ServerCopyIn<server_session::CopyExtended> {
    type ProtocolPhase = backend::ExtendedCopyIn;

    type Message = backend::ExternalMessage<backend::ExtendedCopyIn>;
}

impl PhaseAssociation<Outbound, ServerRole, BackendMessage> for server_session::ServerCopyIn<server_session::CopyExtended> {
    type ProtocolPhase = backend::ExtendedCopyIn;

    type Message = TypedBackendMessage<backend::InternalMessage<backend::ExtendedCopyIn>>;
}

impl PhaseAssociation<Outbound, ServerRole, BackendMessage> for server_session::ServerCopyInDone<server_session::CopyExtended> {
    type ProtocolPhase = backend::ExtendedCopyInDone;

    type Message = TypedBackendMessage<backend::InternalMessage<backend::ExtendedCopyInDone>>;
}

impl PhaseAssociation<Outbound, ServerRole, BackendMessage> for server_session::ServerCopyInFailed<server_session::CopyExtended> {
    type ProtocolPhase = backend::ExtendedCopyInFailed;

    type Message = TypedBackendMessage<backend::InternalMessage<backend::ExtendedCopyInFailed>>;
}

impl PhaseAssociation<Outbound, ServerRole, BackendMessage> for server_session::ServerCopyOut<server_session::CopyExtended> {
    type ProtocolPhase = backend::ExtendedCopyOut;

    type Message = TypedBackendMessage<backend::InternalMessage<backend::ExtendedCopyOut>>;
}

impl PhaseAssociation<Outbound, ServerRole, BackendMessage> for server_session::ServerCopyOutDone<server_session::CopyExtended> {
    type ProtocolPhase = backend::ExtendedCopyOutDone;

    type Message = TypedBackendMessage<backend::InternalMessage<backend::ExtendedCopyOutDone>>;
}

impl PhaseAssociation<Inbound, ClientRole, FrontendMessage> for server_session::ServerCopyBoth<server_session::CopySimple, server_session::BothOpen> {
    type ProtocolPhase = backend::SimpleCopyBoth;

    type Message = backend::ExternalMessage<backend::SimpleCopyBoth>;
}

impl PhaseAssociation<Outbound, ServerRole, BackendMessage> for server_session::ServerCopyBoth<server_session::CopySimple, server_session::BothOpen> {
    type ProtocolPhase = backend::SimpleCopyBoth;

    type Message = TypedBackendMessage<backend::InternalMessage<backend::SimpleCopyBoth>>;
}

impl PhaseAssociation<Outbound, ServerRole, BackendMessage> for server_session::ServerCopyBoth<server_session::CopySimple, server_session::BothClientDone> {
    type ProtocolPhase = backend::SimpleCopyBothClientDone;

    type Message = TypedBackendMessage<backend::InternalMessage<backend::SimpleCopyBothClientDone>>;
}

impl PhaseAssociation<Inbound, ClientRole, FrontendMessage> for server_session::ServerCopyBoth<server_session::CopySimple, server_session::BothServerDone> {
    type ProtocolPhase = backend::SimpleCopyBothServerDone;

    type Message = backend::ExternalMessage<backend::SimpleCopyBothServerDone>;
}

impl PhaseAssociation<Outbound, ServerRole, BackendMessage> for server_session::ServerCopyBoth<server_session::CopySimple, server_session::BothServerDone> {
    type ProtocolPhase = backend::SimpleCopyBothServerDone;

    type Message = TypedBackendMessage<backend::InternalMessage<backend::SimpleCopyBothServerDone>>;
}

impl PhaseAssociation<Outbound, ServerRole, BackendMessage> for server_session::ServerCopyBoth<server_session::CopySimple, server_session::BothDone> {
    type ProtocolPhase = backend::SimpleCopyBothDone;

    type Message = TypedBackendMessage<backend::InternalMessage<backend::SimpleCopyBothDone>>;
}

impl PhaseAssociation<Outbound, ServerRole, BackendMessage> for server_session::ServerCopyBothFailed<server_session::CopySimple> {
    type ProtocolPhase = backend::SimpleCopyBothFailed;

    type Message = TypedBackendMessage<backend::InternalMessage<backend::SimpleCopyBothFailed>>;
}

impl PhaseAssociation<Inbound, ClientRole, FrontendMessage> for server_session::ServerCopyBoth<server_session::CopyExtended, server_session::BothOpen> {
    type ProtocolPhase = backend::ExtendedCopyBoth;

    type Message = backend::ExternalMessage<backend::ExtendedCopyBoth>;
}

impl PhaseAssociation<Outbound, ServerRole, BackendMessage> for server_session::ServerCopyBoth<server_session::CopyExtended, server_session::BothOpen> {
    type ProtocolPhase = backend::ExtendedCopyBoth;

    type Message = TypedBackendMessage<backend::InternalMessage<backend::ExtendedCopyBoth>>;
}

impl PhaseAssociation<Outbound, ServerRole, BackendMessage> for server_session::ServerCopyBoth<server_session::CopyExtended, server_session::BothClientDone> {
    type ProtocolPhase = backend::ExtendedCopyBothClientDone;

    type Message = TypedBackendMessage<backend::InternalMessage<backend::ExtendedCopyBothClientDone>>;
}

impl PhaseAssociation<Inbound, ClientRole, FrontendMessage> for server_session::ServerCopyBoth<server_session::CopyExtended, server_session::BothServerDone> {
    type ProtocolPhase = backend::ExtendedCopyBothServerDone;

    type Message = backend::ExternalMessage<backend::ExtendedCopyBothServerDone>;
}

impl PhaseAssociation<Outbound, ServerRole, BackendMessage> for server_session::ServerCopyBoth<server_session::CopyExtended, server_session::BothServerDone> {
    type ProtocolPhase = backend::ExtendedCopyBothServerDone;

    type Message = TypedBackendMessage<backend::InternalMessage<backend::ExtendedCopyBothServerDone>>;
}

impl PhaseAssociation<Outbound, ServerRole, BackendMessage> for server_session::ServerCopyBoth<server_session::CopyExtended, server_session::BothDone> {
    type ProtocolPhase = backend::ExtendedCopyBothDone;

    type Message = TypedBackendMessage<backend::InternalMessage<backend::ExtendedCopyBothDone>>;
}

impl PhaseAssociation<Outbound, ServerRole, BackendMessage> for server_session::ServerCopyBothFailed<server_session::CopyExtended> {
    type ProtocolPhase = backend::ExtendedCopyBothFailed;

    type Message = TypedBackendMessage<backend::InternalMessage<backend::ExtendedCopyBothFailed>>;
}

impl PhaseAssociation<Outbound, ServerRole, BackendMessage> for server_auth::ServerStartupRejected {
    type ProtocolPhase = server_authentication::Startup;

    type Message = TypedBackendMessage<server_authentication::InternalMessage<server_authentication::Startup>>;
}

impl PhaseAssociation<Inbound, ClientRole, FrontendMessage> for server_auth::ServerAuth {
    type ProtocolPhase = server_authentication::Auth;

    type Message = server_authentication::ExternalMessage<server_authentication::Auth>;
}

impl PhaseAssociation<Outbound, ServerRole, BackendMessage> for server_auth::ServerAuth {
    type ProtocolPhase = server_authentication::Auth;

    type Message = TypedBackendMessage<server_authentication::InternalMessage<server_authentication::Auth>>;
}

impl PhaseAssociation<Inbound, ClientRole, FrontendMessage> for server_auth::ServerPassword {
    type ProtocolPhase = server_authentication::PasswordResponse;

    type Message = server_authentication::ExternalMessage<server_authentication::PasswordResponse>;
}

impl PhaseAssociation<Outbound, ServerRole, BackendMessage> for server_auth::ServerPassword {
    type ProtocolPhase = server_authentication::PasswordResponse;

    type Message = TypedBackendMessage<server_authentication::InternalMessage<server_authentication::PasswordResponse>>;
}

impl PhaseAssociation<Inbound, ClientRole, FrontendMessage> for server_auth::ServerSaslInitial {
    type ProtocolPhase = server_authentication::SaslInitial;

    type Message = server_authentication::ExternalMessage<server_authentication::SaslInitial>;
}

impl PhaseAssociation<Outbound, ServerRole, BackendMessage> for server_auth::ServerSaslInitial {
    type ProtocolPhase = server_authentication::SaslInitial;

    type Message = TypedBackendMessage<server_authentication::InternalMessage<server_authentication::SaslInitial>>;
}

impl PhaseAssociation<Outbound, ServerRole, BackendMessage> for server_auth::ServerSasl {
    type ProtocolPhase = server_authentication::Sasl;

    type Message = TypedBackendMessage<server_authentication::InternalMessage<server_authentication::Sasl>>;
}

impl PhaseAssociation<Inbound, ClientRole, FrontendMessage> for server_auth::ServerSaslResponse {
    type ProtocolPhase = server_authentication::SaslResponse;

    type Message = server_authentication::ExternalMessage<server_authentication::SaslResponse>;
}

impl PhaseAssociation<Outbound, ServerRole, BackendMessage> for server_auth::ServerSaslResponse {
    type ProtocolPhase = server_authentication::SaslResponse;

    type Message = TypedBackendMessage<server_authentication::InternalMessage<server_authentication::SaslResponse>>;
}

impl PhaseAssociation<Inbound, ClientRole, FrontendMessage> for server_auth::ServerAuthResponse {
    type ProtocolPhase = server_authentication::TokenResponse;

    type Message = server_authentication::ExternalMessage<server_authentication::TokenResponse>;
}

impl PhaseAssociation<Outbound, ServerRole, BackendMessage> for server_auth::ServerAuthResponse {
    type ProtocolPhase = server_authentication::TokenResponse;

    type Message = TypedBackendMessage<server_authentication::InternalMessage<server_authentication::TokenResponse>>;
}

impl PhaseAssociation<Outbound, ServerRole, BackendMessage> for server_auth::ServerAuthPolicy {
    type ProtocolPhase = server_authentication::TokenPolicy;

    type Message = TypedBackendMessage<server_authentication::InternalMessage<server_authentication::TokenPolicy>>;
}

impl PhaseAssociation<Inbound, ClientRole, FrontendMessage> for server_auth::ServerStartupReady {
    type ProtocolPhase = server_authentication::StartupReady;

    type Message = server_authentication::ExternalMessage<server_authentication::StartupReady>;
}

impl PhaseAssociation<Outbound, ServerRole, BackendMessage> for server_auth::ServerStartupReady {
    type ProtocolPhase = server_authentication::StartupReady;

    type Message = TypedBackendMessage<server_authentication::InternalMessage<server_authentication::StartupReady>>;
}

} // verus!
