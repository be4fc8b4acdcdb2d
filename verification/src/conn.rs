//! Connections indexed by phase and cleanliness.

use std::marker::PhantomData;
use vstd::prelude::*;

verus! {

/// The connection has no known session-local changes. A type index.
#[derive(Debug)]
pub enum Pristine {
    Index,
}

/// The connection has state which prevents unconditional pool release. A type
/// index.
#[derive(Debug)]
pub enum Dirty {
    Index,
}

/// A connection whose legal operations are selected by `Phase` and `Cleanliness`.
#[must_use]
#[derive(Debug)]
pub struct Conn<Transport, Phase, Cleanliness = Pristine> {
    transport: Transport,
    _state: PhantomData<(Phase, Cleanliness)>,
}

impl<Transport, Phase, Cleanliness> Conn<Transport, Phase, Cleanliness> {
    /// The transport held.
    pub closed spec fn held(self) -> Transport {
        self.transport
    }

    /// A connection with these indices on a transport.
    pub(crate) fn indexed(transport: Transport) -> (conn: Self)
        ensures
            conn.held() == transport,
    {
        Conn { transport, _state: PhantomData }
    }

    /// Moves to other indices on the same transport.
    pub fn transition<NextPhase, NextCleanliness>(self) -> (next: Conn<
        Transport,
        NextPhase,
        NextCleanliness,
    >)
        ensures
            next.held() == self.held(),
    {
        Conn { transport: self.transport, _state: PhantomData }
    }

    /// Returns the underlying transport when deliberately leaving the typed API.
    pub fn into_transport(self) -> (transport: Transport)
        ensures
            transport == self.held(),
    {
        self.transport
    }

    /// Changes transport representation without changing either state index.
    pub fn map_transport<Next, F: FnOnce(Transport) -> Next>(self, map: F) -> (next: Conn<
        Next,
        Phase,
        Cleanliness,
    >)
        requires
            call_requires(map, (self.held(),)),
        ensures
            call_ensures(map, (self.held(),), next.held()),
    {
        Conn { transport: map(self.transport), _state: PhantomData }
    }

    /// Borrows the transport.
    pub fn transport(&self) -> (transport: &Transport)
        ensures
            *transport == self.held(),
    {
        &self.transport
    }

    /// Mutably borrows the transport.
    pub fn transport_mut(&mut self) -> (transport: &mut Transport)
        ensures
            *transport == old(self).held(),
            final(self).held() == *final(transport),
    {
        &mut self.transport
    }
}

impl<Transport> Conn<Transport, crate::pre_startup::PreStartup, Pristine> {
    /// Starts a new connection before any startup packet has been sent.
    pub fn new(transport: Transport) -> (conn: Self)
        ensures
            conn.held() == transport,
    {
        Conn { transport, _state: PhantomData }
    }
}

} // verus!
