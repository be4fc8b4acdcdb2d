//! Exact runtime erasure for storage and forwarding boundaries.

use vstd::prelude::*;

use crate::auth;
use crate::conn::{Conn, Dirty, Pristine};
use crate::pre_startup;
use crate::server_auth;
use crate::server_session;
use crate::session;

verus! {

/// Runtime identity of a phase index.
#[derive(Clone, Copy, Debug, PartialEq, Eq, Structural)]
pub enum PhaseTag {
    PreStartup,
    Startup,
    AwaitingSslReply,
    AwaitingGssReply,
    TlsHandshake,
    GssHandshake,
    Terminated,
    ServerSslDecision,
    ServerGssDecision,
    Auth,
    PasswordResponse,
    SaslInitial,
    Sasl,
    SaslChallenge,
    SaslFinal,
    TokenResponse,
    TokenChallenge,
    AwaitingAuthOk,
    Ready,
    AwaitingStartupReady,
    Building,
    BoundBuilding,
    SimpleQuery,
    AwaitingReady,
    Draining,
    CopyIn,
    CopyOut,
    CopyBoth,
    Resetting,
    ResetComplete,
    CopyBothClientDone,
    CopyBothServerDone,
    FunctionCalling,
    ServerStartupRejected,
    ServerAuth,
    ServerPassword,
    ServerSaslInitial,
    ServerSasl,
    ServerSaslResponse,
    ServerAuthResponse,
    ServerAuthPolicy,
    ServerStartupReady,
    ServerSimpleQuery,
    ServerSimpleError,
    ServerBuilding,
    ServerParse,
    ServerBind,
    ServerDescribe,
    ServerExecute,
    ServerClose,
    ServerExtendedError,
    ServerSync,
    ServerFunctionCall,
    ServerFunctionCallDone,
    ServerFunctionCallError,
    ServerSimpleCopyIn,
    ServerExtendedCopyIn,
    ServerSimpleCopyInDone,
    ServerExtendedCopyInDone,
    ServerSimpleCopyInFailed,
    ServerExtendedCopyInFailed,
    ServerSimpleCopyOut,
    ServerExtendedCopyOut,
    ServerSimpleCopyOutDone,
    ServerExtendedCopyOutDone,
    ServerSimpleCopyBothFailed,
    ServerExtendedCopyBothFailed,
    ServerSimpleCopyBothOpen,
    ServerSimpleCopyBothClientDone,
    ServerSimpleCopyBothServerDone,
    ServerSimpleCopyBothDone,
    ServerExtendedCopyBothOpen,
    ServerExtendedCopyBothClientDone,
    ServerExtendedCopyBothServerDone,
    ServerExtendedCopyBothDone,
}

/// Runtime identity of a cleanliness index.
#[derive(Clone, Copy, Debug, PartialEq, Eq, Structural)]
pub enum CleanlinessTag {
    Pristine,
    Dirty,
}

/// A type index of a connection's phase.
pub trait PhaseIndex {
    /// The identity of this index, which no other index of this library has.
    spec fn identity() -> PhaseTag;

    fn tag() -> (tag: PhaseTag)
        ensures
            tag == Self::identity(),
    ;
}

/// A type index of a connection's cleanliness.
pub trait CleanlinessIndex {
    /// The identity of this index, which no other index of this library has.
    spec fn identity() -> CleanlinessTag;

    fn tag() -> (tag: CleanlinessTag)
        ensures
            tag == Self::identity(),
    ;
}

impl PhaseIndex for pre_startup::PreStartup {
    open spec fn identity() -> PhaseTag {
        PhaseTag::PreStartup
    }

    fn tag() -> (tag: PhaseTag) {
        PhaseTag::PreStartup
    }
}

impl PhaseIndex for pre_startup::Startup {
    open spec fn identity() -> PhaseTag {
        PhaseTag::Startup
    }

    fn tag() -> (tag: PhaseTag) {
        PhaseTag::Startup
    }
}

impl PhaseIndex for pre_startup::AwaitingSslReply {
    open spec fn identity() -> PhaseTag {
        PhaseTag::AwaitingSslReply
    }

    fn tag() -> (tag: PhaseTag) {
        PhaseTag::AwaitingSslReply
    }
}

impl PhaseIndex for pre_startup::AwaitingGssReply {
    open spec fn identity() -> PhaseTag {
        PhaseTag::AwaitingGssReply
    }

    fn tag() -> (tag: PhaseTag) {
        PhaseTag::AwaitingGssReply
    }
}

impl PhaseIndex for pre_startup::TlsHandshake {
    open spec fn identity() -> PhaseTag {
        PhaseTag::TlsHandshake
    }

    fn tag() -> (tag: PhaseTag) {
        PhaseTag::TlsHandshake
    }
}

impl PhaseIndex for pre_startup::GssHandshake {
    open spec fn identity() -> PhaseTag {
        PhaseTag::GssHandshake
    }

    fn tag() -> (tag: PhaseTag) {
        PhaseTag::GssHandshake
    }
}

impl PhaseIndex for pre_startup::Terminated {
    open spec fn identity() -> PhaseTag {
        PhaseTag::Terminated
    }

    fn tag() -> (tag: PhaseTag) {
        PhaseTag::Terminated
    }
}

impl PhaseIndex for pre_startup::ServerSslDecision {
    open spec fn identity() -> PhaseTag {
        PhaseTag::ServerSslDecision
    }

    fn tag() -> (tag: PhaseTag) {
        PhaseTag::ServerSslDecision
    }
}

impl PhaseIndex for pre_startup::ServerGssDecision {
    open spec fn identity() -> PhaseTag {
        PhaseTag::ServerGssDecision
    }

    fn tag() -> (tag: PhaseTag) {
        PhaseTag::ServerGssDecision
    }
}

impl PhaseIndex for auth::Auth {
    open spec fn identity() -> PhaseTag {
        PhaseTag::Auth
    }

    fn tag() -> (tag: PhaseTag) {
        PhaseTag::Auth
    }
}

impl PhaseIndex for auth::PasswordResponse {
    open spec fn identity() -> PhaseTag {
        PhaseTag::PasswordResponse
    }

    fn tag() -> (tag: PhaseTag) {
        PhaseTag::PasswordResponse
    }
}

impl PhaseIndex for auth::SaslInitial {
    open spec fn identity() -> PhaseTag {
        PhaseTag::SaslInitial
    }

    fn tag() -> (tag: PhaseTag) {
        PhaseTag::SaslInitial
    }
}

impl PhaseIndex for auth::Sasl {
    open spec fn identity() -> PhaseTag {
        PhaseTag::Sasl
    }

    fn tag() -> (tag: PhaseTag) {
        PhaseTag::Sasl
    }
}

impl PhaseIndex for auth::SaslChallenge {
    open spec fn identity() -> PhaseTag {
        PhaseTag::SaslChallenge
    }

    fn tag() -> (tag: PhaseTag) {
        PhaseTag::SaslChallenge
    }
}

impl PhaseIndex for auth::SaslFinal {
    open spec fn identity() -> PhaseTag {
        PhaseTag::SaslFinal
    }

    fn tag() -> (tag: PhaseTag) {
        PhaseTag::SaslFinal
    }
}

impl PhaseIndex for auth::TokenResponse {
    open spec fn identity() -> PhaseTag {
        PhaseTag::TokenResponse
    }

    fn tag() -> (tag: PhaseTag) {
        PhaseTag::TokenResponse
    }
}

impl PhaseIndex for auth::TokenChallenge {
    open spec fn identity() -> PhaseTag {
        PhaseTag::TokenChallenge
    }

    fn tag() -> (tag: PhaseTag) {
        PhaseTag::TokenChallenge
    }
}

impl PhaseIndex for auth::AwaitingAuthOk {
    open spec fn identity() -> PhaseTag {
        PhaseTag::AwaitingAuthOk
    }

    fn tag() -> (tag: PhaseTag) {
        PhaseTag::AwaitingAuthOk
    }
}

impl PhaseIndex for auth::Ready {
    open spec fn identity() -> PhaseTag {
        PhaseTag::Ready
    }

    fn tag() -> (tag: PhaseTag) {
        PhaseTag::Ready
    }
}

impl PhaseIndex for auth::AwaitingStartupReady {
    open spec fn identity() -> PhaseTag {
        PhaseTag::AwaitingStartupReady
    }

    fn tag() -> (tag: PhaseTag) {
        PhaseTag::AwaitingStartupReady
    }
}

impl PhaseIndex for session::Building {
    open spec fn identity() -> PhaseTag {
        PhaseTag::Building
    }

    fn tag() -> (tag: PhaseTag) {
        PhaseTag::Building
    }
}

impl PhaseIndex for session::BoundBuilding {
    open spec fn identity() -> PhaseTag {
        PhaseTag::BoundBuilding
    }

    fn tag() -> (tag: PhaseTag) {
        PhaseTag::BoundBuilding
    }
}

impl PhaseIndex for session::SimpleQuery {
    open spec fn identity() -> PhaseTag {
        PhaseTag::SimpleQuery
    }

    fn tag() -> (tag: PhaseTag) {
        PhaseTag::SimpleQuery
    }
}

impl PhaseIndex for session::AwaitingReady {
    open spec fn identity() -> PhaseTag {
        PhaseTag::AwaitingReady
    }

    fn tag() -> (tag: PhaseTag) {
        PhaseTag::AwaitingReady
    }
}

impl PhaseIndex for session::Draining {
    open spec fn identity() -> PhaseTag {
        PhaseTag::Draining
    }

    fn tag() -> (tag: PhaseTag) {
        PhaseTag::Draining
    }
}

impl PhaseIndex for session::CopyIn {
    open spec fn identity() -> PhaseTag {
        PhaseTag::CopyIn
    }

    fn tag() -> (tag: PhaseTag) {
        PhaseTag::CopyIn
    }
}

impl PhaseIndex for session::CopyOut {
    open spec fn identity() -> PhaseTag {
        PhaseTag::CopyOut
    }

    fn tag() -> (tag: PhaseTag) {
        PhaseTag::CopyOut
    }
}

impl PhaseIndex for session::CopyBoth {
    open spec fn identity() -> PhaseTag {
        PhaseTag::CopyBoth
    }

    fn tag() -> (tag: PhaseTag) {
        PhaseTag::CopyBoth
    }
}

impl PhaseIndex for session::Resetting {
    open spec fn identity() -> PhaseTag {
        PhaseTag::Resetting
    }

    fn tag() -> (tag: PhaseTag) {
        PhaseTag::Resetting
    }
}

impl PhaseIndex for session::ResetComplete {
    open spec fn identity() -> PhaseTag {
        PhaseTag::ResetComplete
    }

    fn tag() -> (tag: PhaseTag) {
        PhaseTag::ResetComplete
    }
}

impl PhaseIndex for session::CopyBothClientDone {
    open spec fn identity() -> PhaseTag {
        PhaseTag::CopyBothClientDone
    }

    fn tag() -> (tag: PhaseTag) {
        PhaseTag::CopyBothClientDone
    }
}

impl PhaseIndex for session::CopyBothServerDone {
    open spec fn identity() -> PhaseTag {
        PhaseTag::CopyBothServerDone
    }

    fn tag() -> (tag: PhaseTag) {
        PhaseTag::CopyBothServerDone
    }
}

impl PhaseIndex for session::FunctionCalling {
    open spec fn identity() -> PhaseTag {
        PhaseTag::FunctionCalling
    }

    fn tag() -> (tag: PhaseTag) {
        PhaseTag::FunctionCalling
    }
}

impl PhaseIndex for server_auth::ServerStartupRejected {
    open spec fn identity() -> PhaseTag {
        PhaseTag::ServerStartupRejected
    }

    fn tag() -> (tag: PhaseTag) {
        PhaseTag::ServerStartupRejected
    }
}

impl PhaseIndex for server_auth::ServerAuth {
    open spec fn identity() -> PhaseTag {
        PhaseTag::ServerAuth
    }

    fn tag() -> (tag: PhaseTag) {
        PhaseTag::ServerAuth
    }
}

impl PhaseIndex for server_auth::ServerPassword {
    open spec fn identity() -> PhaseTag {
        PhaseTag::ServerPassword
    }

    fn tag() -> (tag: PhaseTag) {
        PhaseTag::ServerPassword
    }
}

impl PhaseIndex for server_auth::ServerSaslInitial {
    open spec fn identity() -> PhaseTag {
        PhaseTag::ServerSaslInitial
    }

    fn tag() -> (tag: PhaseTag) {
        PhaseTag::ServerSaslInitial
    }
}

impl PhaseIndex for server_auth::ServerSasl {
    open spec fn identity() -> PhaseTag {
        PhaseTag::ServerSasl
    }

    fn tag() -> (tag: PhaseTag) {
        PhaseTag::ServerSasl
    }
}

impl PhaseIndex for server_auth::ServerSaslResponse {
    open spec fn identity() -> PhaseTag {
        PhaseTag::ServerSaslResponse
    }

    fn tag() -> (tag: PhaseTag) {
        PhaseTag::ServerSaslResponse
    }
}

impl PhaseIndex for server_auth::ServerAuthResponse {
    open spec fn identity() -> PhaseTag {
        PhaseTag::ServerAuthResponse
    }

    fn tag() -> (tag: PhaseTag) {
        PhaseTag::ServerAuthResponse
    }
}

impl PhaseIndex for server_auth::ServerAuthPolicy {
    open spec fn identity() -> PhaseTag {
        PhaseTag::ServerAuthPolicy
    }

    fn tag() -> (tag: PhaseTag) {
        PhaseTag::ServerAuthPolicy
    }
}

impl PhaseIndex for server_auth::ServerStartupReady {
    open spec fn identity() -> PhaseTag {
        PhaseTag::ServerStartupReady
    }

    fn tag() -> (tag: PhaseTag) {
        PhaseTag::ServerStartupReady
    }
}

impl PhaseIndex for server_session::ServerSimpleQuery {
    open spec fn identity() -> PhaseTag {
        PhaseTag::ServerSimpleQuery
    }

    fn tag() -> (tag: PhaseTag) {
        PhaseTag::ServerSimpleQuery
    }
}

impl PhaseIndex for server_session::ServerSimpleError {
    open spec fn identity() -> PhaseTag {
        PhaseTag::ServerSimpleError
    }

    fn tag() -> (tag: PhaseTag) {
        PhaseTag::ServerSimpleError
    }
}

impl PhaseIndex for server_session::ServerBuilding {
    open spec fn identity() -> PhaseTag {
        PhaseTag::ServerBuilding
    }

    fn tag() -> (tag: PhaseTag) {
        PhaseTag::ServerBuilding
    }
}

impl PhaseIndex for server_session::ServerParse {
    open spec fn identity() -> PhaseTag {
        PhaseTag::ServerParse
    }

    fn tag() -> (tag: PhaseTag) {
        PhaseTag::ServerParse
    }
}

impl PhaseIndex for server_session::ServerBind {
    open spec fn identity() -> PhaseTag {
        PhaseTag::ServerBind
    }

    fn tag() -> (tag: PhaseTag) {
        PhaseTag::ServerBind
    }
}

impl PhaseIndex for server_session::ServerDescribe {
    open spec fn identity() -> PhaseTag {
        PhaseTag::ServerDescribe
    }

    fn tag() -> (tag: PhaseTag) {
        PhaseTag::ServerDescribe
    }
}

impl PhaseIndex for server_session::ServerExecute {
    open spec fn identity() -> PhaseTag {
        PhaseTag::ServerExecute
    }

    fn tag() -> (tag: PhaseTag) {
        PhaseTag::ServerExecute
    }
}

impl PhaseIndex for server_session::ServerClose {
    open spec fn identity() -> PhaseTag {
        PhaseTag::ServerClose
    }

    fn tag() -> (tag: PhaseTag) {
        PhaseTag::ServerClose
    }
}

impl PhaseIndex for server_session::ServerExtendedError {
    open spec fn identity() -> PhaseTag {
        PhaseTag::ServerExtendedError
    }

    fn tag() -> (tag: PhaseTag) {
        PhaseTag::ServerExtendedError
    }
}

impl PhaseIndex for server_session::ServerSync {
    open spec fn identity() -> PhaseTag {
        PhaseTag::ServerSync
    }

    fn tag() -> (tag: PhaseTag) {
        PhaseTag::ServerSync
    }
}

impl PhaseIndex for server_session::ServerFunctionCall {
    open spec fn identity() -> PhaseTag {
        PhaseTag::ServerFunctionCall
    }

    fn tag() -> (tag: PhaseTag) {
        PhaseTag::ServerFunctionCall
    }
}

impl PhaseIndex for server_session::ServerFunctionCallDone {
    open spec fn identity() -> PhaseTag {
        PhaseTag::ServerFunctionCallDone
    }

    fn tag() -> (tag: PhaseTag) {
        PhaseTag::ServerFunctionCallDone
    }
}

impl PhaseIndex for server_session::ServerFunctionCallError {
    open spec fn identity() -> PhaseTag {
        PhaseTag::ServerFunctionCallError
    }

    fn tag() -> (tag: PhaseTag) {
        PhaseTag::ServerFunctionCallError
    }
}

impl PhaseIndex for server_session::ServerCopyIn<server_session::CopySimple> {
    open spec fn identity() -> PhaseTag {
        PhaseTag::ServerSimpleCopyIn
    }

    fn tag() -> (tag: PhaseTag) {
        PhaseTag::ServerSimpleCopyIn
    }
}

impl PhaseIndex for server_session::ServerCopyIn<server_session::CopyExtended> {
    open spec fn identity() -> PhaseTag {
        PhaseTag::ServerExtendedCopyIn
    }

    fn tag() -> (tag: PhaseTag) {
        PhaseTag::ServerExtendedCopyIn
    }
}

impl PhaseIndex for server_session::ServerCopyInDone<server_session::CopySimple> {
    open spec fn identity() -> PhaseTag {
        PhaseTag::ServerSimpleCopyInDone
    }

    fn tag() -> (tag: PhaseTag) {
        PhaseTag::ServerSimpleCopyInDone
    }
}

impl PhaseIndex for server_session::ServerCopyInDone<server_session::CopyExtended> {
    open spec fn identity() -> PhaseTag {
        PhaseTag::ServerExtendedCopyInDone
    }

    fn tag() -> (tag: PhaseTag) {
        PhaseTag::ServerExtendedCopyInDone
    }
}

impl PhaseIndex for server_session::ServerCopyInFailed<server_session::CopySimple> {
    open spec fn identity() -> PhaseTag {
        PhaseTag::ServerSimpleCopyInFailed
    }

    fn tag() -> (tag: PhaseTag) {
        PhaseTag::ServerSimpleCopyInFailed
    }
}

impl PhaseIndex for server_session::ServerCopyInFailed<server_session::CopyExtended> {
    open spec fn identity() -> PhaseTag {
        PhaseTag::ServerExtendedCopyInFailed
    }

    fn tag() -> (tag: PhaseTag) {
        PhaseTag::ServerExtendedCopyInFailed
    }
}

impl PhaseIndex for server_session::ServerCopyOut<server_session::CopySimple> {
    open spec fn identity() -> PhaseTag {
        PhaseTag::ServerSimpleCopyOut
    }

    fn tag() -> (tag: PhaseTag) {
        PhaseTag::ServerSimpleCopyOut
    }
}

impl PhaseIndex for server_session::ServerCopyOut<server_session::CopyExtended> {
    open spec fn identity() -> PhaseTag {
        PhaseTag::ServerExtendedCopyOut
    }

    fn tag() -> (tag: PhaseTag) {
        PhaseTag::ServerExtendedCopyOut
    }
}

impl PhaseIndex for server_session::ServerCopyOutDone<server_session::CopySimple> {
    open spec fn identity() -> PhaseTag {
        PhaseTag::ServerSimpleCopyOutDone
    }

    fn tag() -> (tag: PhaseTag) {
        PhaseTag::ServerSimpleCopyOutDone
    }
}

impl PhaseIndex for server_session::ServerCopyOutDone<server_session::CopyExtended> {
    open spec fn identity() -> PhaseTag {
        PhaseTag::ServerExtendedCopyOutDone
    }

    fn tag() -> (tag: PhaseTag) {
        PhaseTag::ServerExtendedCopyOutDone
    }
}

impl PhaseIndex for server_session::ServerCopyBothFailed<server_session::CopySimple> {
    open spec fn identity() -> PhaseTag {
        PhaseTag::ServerSimpleCopyBothFailed
    }

    fn tag() -> (tag: PhaseTag) {
        PhaseTag::ServerSimpleCopyBothFailed
    }
}

impl PhaseIndex for server_session::ServerCopyBothFailed<server_session::CopyExtended> {
    open spec fn identity() -> PhaseTag {
        PhaseTag::ServerExtendedCopyBothFailed
    }

    fn tag() -> (tag: PhaseTag) {
        PhaseTag::ServerExtendedCopyBothFailed
    }
}

impl PhaseIndex for server_session::ServerCopyBoth<
    server_session::CopySimple,
    server_session::BothOpen,
> {
    open spec fn identity() -> PhaseTag {
        PhaseTag::ServerSimpleCopyBothOpen
    }

    fn tag() -> (tag: PhaseTag) {
        PhaseTag::ServerSimpleCopyBothOpen
    }
}

impl PhaseIndex for server_session::ServerCopyBoth<
    server_session::CopySimple,
    server_session::BothClientDone,
> {
    open spec fn identity() -> PhaseTag {
        PhaseTag::ServerSimpleCopyBothClientDone
    }

    fn tag() -> (tag: PhaseTag) {
        PhaseTag::ServerSimpleCopyBothClientDone
    }
}

impl PhaseIndex for server_session::ServerCopyBoth<
    server_session::CopySimple,
    server_session::BothServerDone,
> {
    open spec fn identity() -> PhaseTag {
        PhaseTag::ServerSimpleCopyBothServerDone
    }

    fn tag() -> (tag: PhaseTag) {
        PhaseTag::ServerSimpleCopyBothServerDone
    }
}

impl PhaseIndex for server_session::ServerCopyBoth<
    server_session::CopySimple,
    server_session::BothDone,
> {
    open spec fn identity() -> PhaseTag {
        PhaseTag::ServerSimpleCopyBothDone
    }

    fn tag() -> (tag: PhaseTag) {
        PhaseTag::ServerSimpleCopyBothDone
    }
}

impl PhaseIndex for server_session::ServerCopyBoth<
    server_session::CopyExtended,
    server_session::BothOpen,
> {
    open spec fn identity() -> PhaseTag {
        PhaseTag::ServerExtendedCopyBothOpen
    }

    fn tag() -> (tag: PhaseTag) {
        PhaseTag::ServerExtendedCopyBothOpen
    }
}

impl PhaseIndex for server_session::ServerCopyBoth<
    server_session::CopyExtended,
    server_session::BothClientDone,
> {
    open spec fn identity() -> PhaseTag {
        PhaseTag::ServerExtendedCopyBothClientDone
    }

    fn tag() -> (tag: PhaseTag) {
        PhaseTag::ServerExtendedCopyBothClientDone
    }
}

impl PhaseIndex for server_session::ServerCopyBoth<
    server_session::CopyExtended,
    server_session::BothServerDone,
> {
    open spec fn identity() -> PhaseTag {
        PhaseTag::ServerExtendedCopyBothServerDone
    }

    fn tag() -> (tag: PhaseTag) {
        PhaseTag::ServerExtendedCopyBothServerDone
    }
}

impl PhaseIndex for server_session::ServerCopyBoth<
    server_session::CopyExtended,
    server_session::BothDone,
> {
    open spec fn identity() -> PhaseTag {
        PhaseTag::ServerExtendedCopyBothDone
    }

    fn tag() -> (tag: PhaseTag) {
        PhaseTag::ServerExtendedCopyBothDone
    }
}

impl CleanlinessIndex for Pristine {
    open spec fn identity() -> CleanlinessTag {
        CleanlinessTag::Pristine
    }

    fn tag() -> (tag: CleanlinessTag) {
        CleanlinessTag::Pristine
    }
}

impl CleanlinessIndex for Dirty {
    open spec fn identity() -> CleanlinessTag {
        CleanlinessTag::Dirty
    }

    fn tag() -> (tag: CleanlinessTag) {
        CleanlinessTag::Dirty
    }
}

impl PhaseTag {
    /// Name of the erased phase index.
    pub open spec fn title(self) -> Seq<char> {
        match self {
            PhaseTag::PreStartup => "pg_proto::pre_startup::PreStartup"@,
            PhaseTag::Startup => "pg_proto::pre_startup::Startup"@,
            PhaseTag::AwaitingSslReply => "pg_proto::pre_startup::AwaitingSslReply"@,
            PhaseTag::AwaitingGssReply => "pg_proto::pre_startup::AwaitingGssReply"@,
            PhaseTag::TlsHandshake => "pg_proto::pre_startup::TlsHandshake"@,
            PhaseTag::GssHandshake => "pg_proto::pre_startup::GssHandshake"@,
            PhaseTag::Terminated => "pg_proto::pre_startup::Terminated"@,
            PhaseTag::ServerSslDecision => "pg_proto::pre_startup::ServerSslDecision"@,
            PhaseTag::ServerGssDecision => "pg_proto::pre_startup::ServerGssDecision"@,
            PhaseTag::Auth => "pg_proto::auth::Auth"@,
            PhaseTag::PasswordResponse => "pg_proto::auth::PasswordResponse"@,
            PhaseTag::SaslInitial => "pg_proto::auth::SaslInitial"@,
            PhaseTag::Sasl => "pg_proto::auth::Sasl"@,
            PhaseTag::SaslChallenge => "pg_proto::auth::SaslChallenge"@,
            PhaseTag::SaslFinal => "pg_proto::auth::SaslFinal"@,
            PhaseTag::TokenResponse => "pg_proto::auth::TokenResponse"@,
            PhaseTag::TokenChallenge => "pg_proto::auth::TokenChallenge"@,
            PhaseTag::AwaitingAuthOk => "pg_proto::auth::AwaitingAuthOk"@,
            PhaseTag::Ready => "pg_proto::auth::Ready"@,
            PhaseTag::AwaitingStartupReady => "pg_proto::auth::AwaitingStartupReady"@,
            PhaseTag::Building => "pg_proto::session::Building"@,
            PhaseTag::BoundBuilding => "pg_proto::session::BoundBuilding"@,
            PhaseTag::SimpleQuery => "pg_proto::session::SimpleQuery"@,
            PhaseTag::AwaitingReady => "pg_proto::session::AwaitingReady"@,
            PhaseTag::Draining => "pg_proto::session::Draining"@,
            PhaseTag::CopyIn => "pg_proto::session::CopyIn"@,
            PhaseTag::CopyOut => "pg_proto::session::CopyOut"@,
            PhaseTag::CopyBoth => "pg_proto::session::CopyBoth"@,
            PhaseTag::Resetting => "pg_proto::session::Resetting"@,
            PhaseTag::ResetComplete => "pg_proto::session::ResetComplete"@,
            PhaseTag::CopyBothClientDone => "pg_proto::session::CopyBothClientDone"@,
            PhaseTag::CopyBothServerDone => "pg_proto::session::CopyBothServerDone"@,
            PhaseTag::FunctionCalling => "pg_proto::session::FunctionCalling"@,
            PhaseTag::ServerStartupRejected => "pg_proto::server_auth::ServerStartupRejected"@,
            PhaseTag::ServerAuth => "pg_proto::server_auth::ServerAuth"@,
            PhaseTag::ServerPassword => "pg_proto::server_auth::ServerPassword"@,
            PhaseTag::ServerSaslInitial => "pg_proto::server_auth::ServerSaslInitial"@,
            PhaseTag::ServerSasl => "pg_proto::server_auth::ServerSasl"@,
            PhaseTag::ServerSaslResponse => "pg_proto::server_auth::ServerSaslResponse"@,
            PhaseTag::ServerAuthResponse => "pg_proto::server_auth::ServerAuthResponse"@,
            PhaseTag::ServerAuthPolicy => "pg_proto::server_auth::ServerAuthPolicy"@,
            PhaseTag::ServerStartupReady => "pg_proto::server_auth::ServerStartupReady"@,
            PhaseTag::ServerSimpleQuery => "pg_proto::server_session::ServerSimpleQuery"@,
            PhaseTag::ServerSimpleError => "pg_proto::server_session::ServerSimpleError"@,
            PhaseTag::ServerBuilding => "pg_proto::server_session::ServerBuilding"@,
            PhaseTag::ServerParse => "pg_proto::server_session::ServerParse"@,
            PhaseTag::ServerBind => "pg_proto::server_session::ServerBind"@,
            PhaseTag::ServerDescribe => "pg_proto::server_session::ServerDescribe"@,
            PhaseTag::ServerExecute => "pg_proto::server_session::ServerExecute"@,
            PhaseTag::ServerClose => "pg_proto::server_session::ServerClose"@,
            PhaseTag::ServerExtendedError => "pg_proto::server_session::ServerExtendedError"@,
            PhaseTag::ServerSync => "pg_proto::server_session::ServerSync"@,
            PhaseTag::ServerFunctionCall => "pg_proto::server_session::ServerFunctionCall"@,
            PhaseTag::ServerFunctionCallDone => "pg_proto::server_session::ServerFunctionCallDone"@,
            PhaseTag::ServerFunctionCallError =>
                "pg_proto::server_session::ServerFunctionCallError"@,
            PhaseTag::ServerSimpleCopyIn =>
                "pg_proto::server_session::ServerCopyIn<pg_proto::server_session::CopySimple>"@,
            PhaseTag::ServerExtendedCopyIn =>
                "pg_proto::server_session::ServerCopyIn<pg_proto::server_session::CopyExtended>"@,
            PhaseTag::ServerSimpleCopyInDone =>
                "pg_proto::server_session::ServerCopyInDone<pg_proto::server_session::CopySimple>"@,
            PhaseTag::ServerExtendedCopyInDone =>
                "pg_proto::server_session::ServerCopyInDone<pg_proto::server_session::CopyExtended>"@,
            PhaseTag::ServerSimpleCopyInFailed =>
                "pg_proto::server_session::ServerCopyInFailed<pg_proto::server_session::CopySimple>"@,
            PhaseTag::ServerExtendedCopyInFailed =>
                "pg_proto::server_session::ServerCopyInFailed<pg_proto::server_session::CopyExtended>"@,
            PhaseTag::ServerSimpleCopyOut =>
                "pg_proto::server_session::ServerCopyOut<pg_proto::server_session::CopySimple>"@,
            PhaseTag::ServerExtendedCopyOut =>
                "pg_proto::server_session::ServerCopyOut<pg_proto::server_session::CopyExtended>"@,
            PhaseTag::ServerSimpleCopyOutDone =>
                "pg_proto::server_session::ServerCopyOutDone<pg_proto::server_session::CopySimple>"@,
            PhaseTag::ServerExtendedCopyOutDone =>
                "pg_proto::server_session::ServerCopyOutDone<pg_proto::server_session::CopyExtended>"@,
            PhaseTag::ServerSimpleCopyBothFailed =>
                "pg_proto::server_session::ServerCopyBothFailed<pg_proto::server_session::CopySimple>"@,
            PhaseTag::ServerExtendedCopyBothFailed =>
                "pg_proto::server_session::ServerCopyBothFailed<pg_proto::server_session::CopyExtended>"@,
            PhaseTag::ServerSimpleCopyBothOpen =>
                "pg_proto::server_session::ServerCopyBoth<pg_proto::server_session::CopySimple, pg_proto::server_session::BothOpen>"@,
            PhaseTag::ServerSimpleCopyBothClientDone =>
                "pg_proto::server_session::ServerCopyBoth<pg_proto::server_session::CopySimple, pg_proto::server_session::BothClientDone>"@,
            PhaseTag::ServerSimpleCopyBothServerDone =>
                "pg_proto::server_session::ServerCopyBoth<pg_proto::server_session::CopySimple, pg_proto::server_session::BothServerDone>"@,
            PhaseTag::ServerSimpleCopyBothDone =>
                "pg_proto::server_session::ServerCopyBoth<pg_proto::server_session::CopySimple, pg_proto::server_session::BothDone>"@,
            PhaseTag::ServerExtendedCopyBothOpen =>
                "pg_proto::server_session::ServerCopyBoth<pg_proto::server_session::CopyExtended, pg_proto::server_session::BothOpen>"@,
            PhaseTag::ServerExtendedCopyBothClientDone =>
                "pg_proto::server_session::ServerCopyBoth<pg_proto::server_session::CopyExtended, pg_proto::server_session::BothClientDone>"@,
            PhaseTag::ServerExtendedCopyBothServerDone =>
                "pg_proto::server_session::ServerCopyBoth<pg_proto::server_session::CopyExtended, pg_proto::server_session::BothServerDone>"@,
            PhaseTag::ServerExtendedCopyBothDone =>
                "pg_proto::server_session::ServerCopyBoth<pg_proto::server_session::CopyExtended, pg_proto::server_session::BothDone>"@,
        }
    }

    /// Name of the erased phase index.
    pub fn name(&self) -> (name: &'static str)
        ensures
            name@ == self.title(),
    {
        match *self {
            PhaseTag::PreStartup => "pg_proto::pre_startup::PreStartup",
            PhaseTag::Startup => "pg_proto::pre_startup::Startup",
            PhaseTag::AwaitingSslReply => "pg_proto::pre_startup::AwaitingSslReply",
            PhaseTag::AwaitingGssReply => "pg_proto::pre_startup::AwaitingGssReply",
            PhaseTag::TlsHandshake => "pg_proto::pre_startup::TlsHandshake",
            PhaseTag::GssHandshake => "pg_proto::pre_startup::GssHandshake",
            PhaseTag::Terminated => "pg_proto::pre_startup::Terminated",
            PhaseTag::ServerSslDecision => "pg_proto::pre_startup::ServerSslDecision",
            PhaseTag::ServerGssDecision => "pg_proto::pre_startup::ServerGssDecision",
            PhaseTag::Auth => "pg_proto::auth::Auth",
            PhaseTag::PasswordResponse => "pg_proto::auth::PasswordResponse",
            PhaseTag::SaslInitial => "pg_proto::auth::SaslInitial",
            PhaseTag::Sasl => "pg_proto::auth::Sasl",
            PhaseTag::SaslChallenge => "pg_proto::auth::SaslChallenge",
            PhaseTag::SaslFinal => "pg_proto::auth::SaslFinal",
            PhaseTag::TokenResponse => "pg_proto::auth::TokenResponse",
            PhaseTag::TokenChallenge => "pg_proto::auth::TokenChallenge",
            PhaseTag::AwaitingAuthOk => "pg_proto::auth::AwaitingAuthOk",
            PhaseTag::Ready => "pg_proto::auth::Ready",
            PhaseTag::AwaitingStartupReady => "pg_proto::auth::AwaitingStartupReady",
            PhaseTag::Building => "pg_proto::session::Building",
            PhaseTag::BoundBuilding => "pg_proto::session::BoundBuilding",
            PhaseTag::SimpleQuery => "pg_proto::session::SimpleQuery",
            PhaseTag::AwaitingReady => "pg_proto::session::AwaitingReady",
            PhaseTag::Draining => "pg_proto::session::Draining",
            PhaseTag::CopyIn => "pg_proto::session::CopyIn",
            PhaseTag::CopyOut => "pg_proto::session::CopyOut",
            PhaseTag::CopyBoth => "pg_proto::session::CopyBoth",
            PhaseTag::Resetting => "pg_proto::session::Resetting",
            PhaseTag::ResetComplete => "pg_proto::session::ResetComplete",
            PhaseTag::CopyBothClientDone => "pg_proto::session::CopyBothClientDone",
            PhaseTag::CopyBothServerDone => "pg_proto::session::CopyBothServerDone",
            PhaseTag::FunctionCalling => "pg_proto::session::FunctionCalling",
            PhaseTag::ServerStartupRejected => "pg_proto::server_auth::ServerStartupRejected",
            PhaseTag::ServerAuth => "pg_proto::server_auth::ServerAuth",
            PhaseTag::ServerPassword => "pg_proto::server_auth::ServerPassword",
            PhaseTag::ServerSaslInitial => "pg_proto::server_auth::ServerSaslInitial",
            PhaseTag::ServerSasl => "pg_proto::server_auth::ServerSasl",
            PhaseTag::ServerSaslResponse => "pg_proto::server_auth::ServerSaslResponse",
            PhaseTag::ServerAuthResponse => "pg_proto::server_auth::ServerAuthResponse",
            PhaseTag::ServerAuthPolicy => "pg_proto::server_auth::ServerAuthPolicy",
            PhaseTag::ServerStartupReady => "pg_proto::server_auth::ServerStartupReady",
            PhaseTag::ServerSimpleQuery => "pg_proto::server_session::ServerSimpleQuery",
            PhaseTag::ServerSimpleError => "pg_proto::server_session::ServerSimpleError",
            PhaseTag::ServerBuilding => "pg_proto::server_session::ServerBuilding",
            PhaseTag::ServerParse => "pg_proto::server_session::ServerParse",
            PhaseTag::ServerBind => "pg_proto::server_session::ServerBind",
            PhaseTag::ServerDescribe => "pg_proto::server_session::ServerDescribe",
            PhaseTag::ServerExecute => "pg_proto::server_session::ServerExecute",
            PhaseTag::ServerClose => "pg_proto::server_session::ServerClose",
            PhaseTag::ServerExtendedError => "pg_proto::server_session::ServerExtendedError",
            PhaseTag::ServerSync => "pg_proto::server_session::ServerSync",
            PhaseTag::ServerFunctionCall => "pg_proto::server_session::ServerFunctionCall",
            PhaseTag::ServerFunctionCallDone => "pg_proto::server_session::ServerFunctionCallDone",
            PhaseTag::ServerFunctionCallError =>
                "pg_proto::server_session::ServerFunctionCallError",
            PhaseTag::ServerSimpleCopyIn =>
                "pg_proto::server_session::ServerCopyIn<pg_proto::server_session::CopySimple>",
            PhaseTag::ServerExtendedCopyIn =>
                "pg_proto::server_session::ServerCopyIn<pg_proto::server_session::CopyExtended>",
            PhaseTag::ServerSimpleCopyInDone =>
                "pg_proto::server_session::ServerCopyInDone<pg_proto::server_session::CopySimple>",
            PhaseTag::ServerExtendedCopyInDone =>
                "pg_proto::server_session::ServerCopyInDone<pg_proto::server_session::CopyExtended>",
            PhaseTag::ServerSimpleCopyInFailed =>
                "pg_proto::server_session::ServerCopyInFailed<pg_proto::server_session::CopySimple>",
            PhaseTag::ServerExtendedCopyInFailed =>
                "pg_proto::server_session::ServerCopyInFailed<pg_proto::server_session::CopyExtended>",
            PhaseTag::ServerSimpleCopyOut =>
                "pg_proto::server_session::ServerCopyOut<pg_proto::server_session::CopySimple>",
            PhaseTag::ServerExtendedCopyOut =>
                "pg_proto::server_session::ServerCopyOut<pg_proto::server_session::CopyExtended>",
            PhaseTag::ServerSimpleCopyOutDone =>
                "pg_proto::server_session::ServerCopyOutDone<pg_proto::server_session::CopySimple>",
            PhaseTag::ServerExtendedCopyOutDone =>
                "pg_proto::server_session::ServerCopyOutDone<pg_proto::server_session::CopyExtended>",
            PhaseTag::ServerSimpleCopyBothFailed =>
                "pg_proto::server_session::ServerCopyBothFailed<pg_proto::server_session::CopySimple>",
            PhaseTag::ServerExtendedCopyBothFailed =>
                "pg_proto::server_session::ServerCopyBothFailed<pg_proto::server_session::CopyExtended>",
            PhaseTag::ServerSimpleCopyBothOpen =>
                "pg_proto::server_session::ServerCopyBoth<pg_proto::server_session::CopySimple, pg_proto::server_session::BothOpen>",
            PhaseTag::ServerSimpleCopyBothClientDone =>
                "pg_proto::server_session::ServerCopyBoth<pg_proto::server_session::CopySimple, pg_proto::server_session::BothClientDone>",
            PhaseTag::ServerSimpleCopyBothServerDone =>
                "pg_proto::server_session::ServerCopyBoth<pg_proto::server_session::CopySimple, pg_proto::server_session::BothServerDone>",
            PhaseTag::ServerSimpleCopyBothDone =>
                "pg_proto::server_session::ServerCopyBoth<pg_proto::server_session::CopySimple, pg_proto::server_session::BothDone>",
            PhaseTag::ServerExtendedCopyBothOpen =>
                "pg_proto::server_session::ServerCopyBoth<pg_proto::server_session::CopyExtended, pg_proto::server_session::BothOpen>",
            PhaseTag::ServerExtendedCopyBothClientDone =>
                "pg_proto::server_session::ServerCopyBoth<pg_proto::server_session::CopyExtended, pg_proto::server_session::BothClientDone>",
            PhaseTag::ServerExtendedCopyBothServerDone =>
                "pg_proto::server_session::ServerCopyBoth<pg_proto::server_session::CopyExtended, pg_proto::server_session::BothServerDone>",
            PhaseTag::ServerExtendedCopyBothDone =>
                "pg_proto::server_session::ServerCopyBoth<pg_proto::server_session::CopyExtended, pg_proto::server_session::BothDone>",
        }
    }
}

impl CleanlinessTag {
    /// Name of the erased cleanliness index.
    pub open spec fn title(self) -> Seq<char> {
        match self {
            CleanlinessTag::Pristine => "pg_proto::conn::Pristine"@,
            CleanlinessTag::Dirty => "pg_proto::conn::Dirty"@,
        }
    }

    /// Name of the erased cleanliness index.
    pub fn name(&self) -> (name: &'static str)
        ensures
            name@ == self.title(),
    {
        match *self {
            CleanlinessTag::Pristine => "pg_proto::conn::Pristine",
            CleanlinessTag::Dirty => "pg_proto::conn::Dirty",
        }
    }
}

/// The identities of all phase indices of this library.
pub open spec fn phase_identities() -> Seq<PhaseTag> {
    seq![
        <pre_startup::PreStartup as PhaseIndex>::identity(),
        <pre_startup::Startup as PhaseIndex>::identity(),
        <pre_startup::AwaitingSslReply as PhaseIndex>::identity(),
        <pre_startup::AwaitingGssReply as PhaseIndex>::identity(),
        <pre_startup::TlsHandshake as PhaseIndex>::identity(),
        <pre_startup::GssHandshake as PhaseIndex>::identity(),
        <pre_startup::Terminated as PhaseIndex>::identity(),
        <pre_startup::ServerSslDecision as PhaseIndex>::identity(),
        <pre_startup::ServerGssDecision as PhaseIndex>::identity(),
        <auth::Auth as PhaseIndex>::identity(),
        <auth::PasswordResponse as PhaseIndex>::identity(),
        <auth::SaslInitial as PhaseIndex>::identity(),
        <auth::Sasl as PhaseIndex>::identity(),
        <auth::SaslChallenge as PhaseIndex>::identity(),
        <auth::SaslFinal as PhaseIndex>::identity(),
        <auth::TokenResponse as PhaseIndex>::identity(),
        <auth::TokenChallenge as PhaseIndex>::identity(),
        <auth::AwaitingAuthOk as PhaseIndex>::identity(),
        <auth::Ready as PhaseIndex>::identity(),
        <auth::AwaitingStartupReady as PhaseIndex>::identity(),
        <session::Building as PhaseIndex>::identity(),
        <session::BoundBuilding as PhaseIndex>::identity(),
        <session::SimpleQuery as PhaseIndex>::identity(),
        <session::AwaitingReady as PhaseIndex>::identity(),
        <session::Draining as PhaseIndex>::identity(),
        <session::CopyIn as PhaseIndex>::identity(),
        <session::CopyOut as PhaseIndex>::identity(),
        <session::CopyBoth as PhaseIndex>::identity(),
        <session::Resetting as PhaseIndex>::identity(),
        <session::ResetComplete as PhaseIndex>::identity(),
        <session::CopyBothClientDone as PhaseIndex>::identity(),
        <session::CopyBothServerDone as PhaseIndex>::identity(),
        <session::FunctionCalling as PhaseIndex>::identity(),
        <server_auth::ServerStartupRejected as PhaseIndex>::identity(),
        <server_auth::ServerAuth as PhaseIndex>::identity(),
        <server_auth::ServerPassword as PhaseIndex>::identity(),
        <server_auth::ServerSaslInitial as PhaseIndex>::identity(),
        <server_auth::ServerSasl as PhaseIndex>::identity(),
        <server_auth::ServerSaslResponse as PhaseIndex>::identity(),
        <server_auth::ServerAuthResponse as PhaseIndex>::identity(),
        <server_auth::ServerAuthPolicy as PhaseIndex>::identity(),
        <server_auth::ServerStartupReady as PhaseIndex>::identity(),
        <server_session::ServerSimpleQuery as PhaseIndex>::identity(),
        <server_session::ServerSimpleError as PhaseIndex>::identity(),
        <server_session::ServerBuilding as PhaseIndex>::identity(),
        <server_session::ServerParse as PhaseIndex>::identity(),
        <server_session::ServerBind as PhaseIndex>::identity(),
        <server_session::ServerDescribe as PhaseIndex>::identity(),
        <server_session::ServerExecute as PhaseIndex>::identity(),
        <server_session::ServerClose as PhaseIndex>::identity(),
        <server_session::ServerExtendedError as PhaseIndex>::identity(),
        <server_session::ServerSync as PhaseIndex>::identity(),
        <server_session::ServerFunctionCall as PhaseIndex>::identity(),
        <server_session::ServerFunctionCallDone as PhaseIndex>::identity(),
        <server_session::ServerFunctionCallError as PhaseIndex>::identity(),
        <server_session::ServerCopyIn<server_session::CopySimple> as PhaseIndex>::identity(),
        <server_session::ServerCopyIn<server_session::CopyExtended> as PhaseIndex>::identity(),
        <server_session::ServerCopyInDone<server_session::CopySimple> as PhaseIndex>::identity(),
        <server_session::ServerCopyInDone<server_session::CopyExtended> as PhaseIndex>::identity(),
        <server_session::ServerCopyInFailed<server_session::CopySimple> as PhaseIndex>::identity(),
        <server_session::ServerCopyInFailed<
            server_session::CopyExtended,
        > as PhaseIndex>::identity(),
        <server_session::ServerCopyOut<server_session::CopySimple> as PhaseIndex>::identity(),
        <server_session::ServerCopyOut<server_session::CopyExtended> as PhaseIndex>::identity(),
        <server_session::ServerCopyOutDone<server_session::CopySimple> as PhaseIndex>::identity(),
        <server_session::ServerCopyOutDone<server_session::CopyExtended> as PhaseIndex>::identity(),
        <server_session::ServerCopyBothFailed<
            server_session::CopySimple,
        > as PhaseIndex>::identity(),
        <server_session::ServerCopyBothFailed<
            server_session::CopyExtended,
        > as PhaseIndex>::identity(),
        <server_session::ServerCopyBoth<
            server_session::CopySimple,
            server_session::BothOpen,
        > as PhaseIndex>::identity(),
        <server_session::ServerCopyBoth<
            server_session::CopySimple,
            server_session::BothClientDone,
        > as PhaseIndex>::identity(),
        <server_session::ServerCopyBoth<
            server_session::CopySimple,
            server_session::BothServerDone,
        > as PhaseIndex>::identity(),
        <server_session::ServerCopyBoth<
            server_session::CopySimple,
            server_session::BothDone,
        > as PhaseIndex>::identity(),
        <server_session::ServerCopyBoth<
            server_session::CopyExtended,
            server_session::BothOpen,
        > as PhaseIndex>::identity(),
        <server_session::ServerCopyBoth<
            server_session::CopyExtended,
            server_session::BothClientDone,
        > as PhaseIndex>::identity(),
        <server_session::ServerCopyBoth<
            server_session::CopyExtended,
            server_session::BothServerDone,
        > as PhaseIndex>::identity(),
        <server_session::ServerCopyBoth<
            server_session::CopyExtended,
            server_session::BothDone,
        > as PhaseIndex>::identity(),
    ]
}

/// The identities of all cleanliness indices of this library.
pub open spec fn cleanliness_identities() -> Seq<CleanlinessTag> {
    seq![
        <Pristine as CleanlinessIndex>::identity(),
        <Dirty as CleanlinessIndex>::identity(),
    ]
}

/// Where a phase stands among the identities.
spec fn position(tag: PhaseTag) -> int {
    match tag {
        PhaseTag::PreStartup => 0,
        PhaseTag::Startup => 1,
        PhaseTag::AwaitingSslReply => 2,
        PhaseTag::AwaitingGssReply => 3,
        PhaseTag::TlsHandshake => 4,
        PhaseTag::GssHandshake => 5,
        PhaseTag::Terminated => 6,
        PhaseTag::ServerSslDecision => 7,
        PhaseTag::ServerGssDecision => 8,
        PhaseTag::Auth => 9,
        PhaseTag::PasswordResponse => 10,
        PhaseTag::SaslInitial => 11,
        PhaseTag::Sasl => 12,
        PhaseTag::SaslChallenge => 13,
        PhaseTag::SaslFinal => 14,
        PhaseTag::TokenResponse => 15,
        PhaseTag::TokenChallenge => 16,
        PhaseTag::AwaitingAuthOk => 17,
        PhaseTag::Ready => 18,
        PhaseTag::AwaitingStartupReady => 19,
        PhaseTag::Building => 20,
        PhaseTag::BoundBuilding => 21,
        PhaseTag::SimpleQuery => 22,
        PhaseTag::AwaitingReady => 23,
        PhaseTag::Draining => 24,
        PhaseTag::CopyIn => 25,
        PhaseTag::CopyOut => 26,
        PhaseTag::CopyBoth => 27,
        PhaseTag::Resetting => 28,
        PhaseTag::ResetComplete => 29,
        PhaseTag::CopyBothClientDone => 30,
        PhaseTag::CopyBothServerDone => 31,
        PhaseTag::FunctionCalling => 32,
        PhaseTag::ServerStartupRejected => 33,
        PhaseTag::ServerAuth => 34,
        PhaseTag::ServerPassword => 35,
        PhaseTag::ServerSaslInitial => 36,
        PhaseTag::ServerSasl => 37,
        PhaseTag::ServerSaslResponse => 38,
        PhaseTag::ServerAuthResponse => 39,
        PhaseTag::ServerAuthPolicy => 40,
        PhaseTag::ServerStartupReady => 41,
        PhaseTag::ServerSimpleQuery => 42,
        PhaseTag::ServerSimpleError => 43,
        PhaseTag::ServerBuilding => 44,
        PhaseTag::ServerParse => 45,
        PhaseTag::ServerBind => 46,
        PhaseTag::ServerDescribe => 47,
        PhaseTag::ServerExecute => 48,
        PhaseTag::ServerClose => 49,
        PhaseTag::ServerExtendedError => 50,
        PhaseTag::ServerSync => 51,
        PhaseTag::ServerFunctionCall => 52,
        PhaseTag::ServerFunctionCallDone => 53,
        PhaseTag::ServerFunctionCallError => 54,
        PhaseTag::ServerSimpleCopyIn => 55,
        PhaseTag::ServerExtendedCopyIn => 56,
        PhaseTag::ServerSimpleCopyInDone => 57,
        PhaseTag::ServerExtendedCopyInDone => 58,
        PhaseTag::ServerSimpleCopyInFailed => 59,
        PhaseTag::ServerExtendedCopyInFailed => 60,
        PhaseTag::ServerSimpleCopyOut => 61,
        PhaseTag::ServerExtendedCopyOut => 62,
        PhaseTag::ServerSimpleCopyOutDone => 63,
        PhaseTag::ServerExtendedCopyOutDone => 64,
        PhaseTag::ServerSimpleCopyBothFailed => 65,
        PhaseTag::ServerExtendedCopyBothFailed => 66,
        PhaseTag::ServerSimpleCopyBothOpen => 67,
        PhaseTag::ServerSimpleCopyBothClientDone => 68,
        PhaseTag::ServerSimpleCopyBothServerDone => 69,
        PhaseTag::ServerSimpleCopyBothDone => 70,
        PhaseTag::ServerExtendedCopyBothOpen => 71,
        PhaseTag::ServerExtendedCopyBothClientDone => 72,
        PhaseTag::ServerExtendedCopyBothServerDone => 73,
        PhaseTag::ServerExtendedCopyBothDone => 74,
    }
}

/// No two indices of this library share an identity, so that a connection re-enters
/// only the phase and the cleanliness that were erased.
pub proof fn law_identities_are_distinct()
    ensures
        phase_identities().no_duplicates(),
        cleanliness_identities().no_duplicates(),
{
    let identities = phase_identities();
    assert forall|at: int| 0 <= at < identities.len() implies position(
        #[trigger] identities[at],
    ) == at by {}
}

/// A connection whose phase and cleanliness markers are retained as exact
/// runtime identities rather than generic parameters.
#[must_use]
#[derive(Debug)]
pub struct ErasedConn<S> {
    transport: S,
    phase: PhaseTag,
    cleanliness: CleanlinessTag,
}

impl<S> ErasedConn<S> {
    /// The transport held.
    pub closed spec fn held(self) -> S {
        self.transport
    }

    /// The erased phase.
    pub closed spec fn erased_phase(self) -> PhaseTag {
        self.phase
    }

    /// The erased cleanliness.
    pub closed spec fn erased_cleanliness(self) -> CleanlinessTag {
        self.cleanliness
    }

    /// Reports the erased phase marker for diagnostics.
    #[must_use]
    pub fn phase_name(&self) -> (name: &'static str)
        ensures
            name@ == self.erased_phase().title(),
    {
        self.phase.name()
    }

    /// Reports the erased cleanliness marker for diagnostics.
    #[must_use]
    pub fn cleanliness_name(&self) -> (name: &'static str)
        ensures
            name@ == self.erased_cleanliness().title(),
    {
        self.cleanliness.name()
    }

    /// Checks whether the exact requested phase marker was erased.
    #[must_use]
    pub fn phase_is<P: PhaseIndex>(&self) -> (result: bool)
        ensures
            result == (self.erased_phase() == P::identity()),
    {
        self.phase == P::tag()
    }

    /// Checks whether the exact requested cleanliness marker was erased.
    #[must_use]
    pub fn cleanliness_is<C: CleanlinessIndex>(&self) -> (result: bool)
        ensures
            result == (self.erased_cleanliness() == C::identity()),
    {
        self.cleanliness == C::tag()
    }

    /// Re-enters the typed API only when both runtime identities exactly match.
    ///
    /// # Errors
    ///
    /// Returns the unchanged connection when either requested marker differs.
    pub fn try_reenter<P: PhaseIndex, C: CleanlinessIndex>(self) -> (result: Result<
        Conn<S, P, C>,
        Self,
    >)
        ensures
            match result {
                Ok(conn) => self.erased_phase() == P::identity() && self.erased_cleanliness()
                    == C::identity() && conn.held() == self.held(),
                Err(unchanged) => unchanged == self && (self.erased_phase() != P::identity()
                    || self.erased_cleanliness() != C::identity()),
            },
    {
        if !self.phase_is::<P>() || !self.cleanliness_is::<C>() {
            return Err(self);
        }
        Ok(Conn::indexed(self.transport))
    }

    /// Changes only the transport representation while retaining exact state
    /// identities.
    pub fn map_transport<T, F: FnOnce(S) -> T>(self, map: F) -> (next: ErasedConn<T>)
        requires
            call_requires(map, (self.held(),)),
        ensures
            call_ensures(map, (self.held(),), next.held()),
            next.erased_phase() == self.erased_phase(),
            next.erased_cleanliness() == self.erased_cleanliness(),
    {
        ErasedConn {
            transport: map(self.transport),
            phase: self.phase,
            cleanliness: self.cleanliness,
        }
    }

    /// Irreversibly leaves state tracking and returns the underlying transport.
    pub fn into_transport(self) -> (transport: S)
        ensures
            transport == self.held(),
    {
        self.transport
    }
}

impl<S, P: PhaseIndex, C: CleanlinessIndex> Conn<S, P, C> {
    /// Erases monomorphised state markers while retaining their exact runtime
    /// identities for checked re-entry.
    pub fn erase(self) -> (erased: ErasedConn<S>)
        ensures
            erased.held() == self.held(),
            erased.erased_phase() == P::identity(),
            erased.erased_cleanliness() == C::identity(),
    {
        ErasedConn { transport: self.into_transport(), phase: P::tag(), cleanliness: C::tag() }
    }
}

} // verus!
