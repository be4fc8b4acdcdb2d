//! Typestates of a server that answers an authenticated client.

use std::marker::PhantomData;

use vstd::prelude::*;

verus! {

/// The response to a simple query is owed. A type index.
#[derive(Debug)]
pub enum ServerSimpleQuery {
    Index,
}

/// A simple query failed and readiness is owed. A type index.
#[derive(Debug)]
pub enum ServerSimpleError {
    Index,
}

/// An extended-query cycle is open. A type index.
#[derive(Debug)]
pub enum ServerBuilding {
    Index,
}

/// The response to Parse is owed. A type index.
#[derive(Debug)]
pub enum ServerParse {
    Index,
}

/// The response to Bind is owed. A type index.
#[derive(Debug)]
pub enum ServerBind {
    Index,
}

/// The response to Describe is owed. A type index.
#[derive(Debug)]
pub enum ServerDescribe {
    Index,
}

/// The response to Execute is owed. A type index.
#[derive(Debug)]
pub enum ServerExecute {
    Index,
}

/// The response to Close is owed. A type index.
#[derive(Debug)]
pub enum ServerClose {
    Index,
}

/// An extended-query cycle failed and is discarded up to Sync. A type index.
#[derive(Debug)]
pub enum ServerExtendedError {
    Index,
}

/// Readiness is owed after Sync. A type index.
#[derive(Debug)]
pub enum ServerSync {
    Index,
}

/// The response to a function call is owed. A type index.
#[derive(Debug)]
pub enum ServerFunctionCall {
    Index,
}

/// A function call returned and readiness is owed. A type index.
#[derive(Debug)]
pub enum ServerFunctionCallDone {
    Index,
}

/// A function call failed and readiness is owed. A type index.
#[derive(Debug)]
pub enum ServerFunctionCallError {
    Index,
}

/// COPY within a simple query. A type index.
#[derive(Debug)]
pub enum CopySimple {
    Index,
}

/// COPY within an extended-query cycle. A type index.
#[derive(Debug)]
pub enum CopyExtended {
    Index,
}

/// Neither side of a bidirectional COPY has finished. A type index.
#[derive(Debug)]
pub enum BothOpen {
    Index,
}

/// The client has finished its side of a bidirectional COPY. A type index.
#[derive(Debug)]
pub enum BothClientDone {
    Index,
}

/// The server has finished its side of a bidirectional COPY. A type index.
#[derive(Debug)]
pub enum BothServerDone {
    Index,
}

/// Both sides of a bidirectional COPY have finished. A type index.
#[derive(Debug)]
pub enum BothDone {
    Index,
}

/// The client sends COPY data, in the given kind of cycle. A type index.
#[derive(Debug)]
pub struct ServerCopyIn<Cycle> {
    _cycle: PhantomData<Cycle>,
}

/// The client finished sending COPY data, in the given kind of cycle. A type index.
#[derive(Debug)]
pub struct ServerCopyInDone<Cycle> {
    _cycle: PhantomData<Cycle>,
}

/// The client aborted its COPY data, in the given kind of cycle. A type index.
#[derive(Debug)]
pub struct ServerCopyInFailed<Cycle> {
    _cycle: PhantomData<Cycle>,
}

/// The server sends COPY data, in the given kind of cycle. A type index.
#[derive(Debug)]
pub struct ServerCopyOut<Cycle> {
    _cycle: PhantomData<Cycle>,
}

/// The server finished sending COPY data, in the given kind of cycle. A type index.
#[derive(Debug)]
pub struct ServerCopyOutDone<Cycle> {
    _cycle: PhantomData<Cycle>,
}

/// The client aborted a bidirectional COPY, in the given kind of cycle. A type index.
#[derive(Debug)]
pub struct ServerCopyBothFailed<Cycle> {
    _cycle: PhantomData<Cycle>,
}

/// Both sides may send COPY data, in the given kind of cycle and as far as neither
/// side finished. A type index.
#[derive(Debug)]
pub struct ServerCopyBoth<Cycle, Progress> {
    _index: PhantomData<(Cycle, Progress)>,
}

} // verus!
