//! Branded prepared-statement and portal resources with proxy name rewriting.

use bytes::Bytes;
use std::marker::PhantomData;
use vstd::prelude::*;

use crate::auth::Ready;
use crate::codec::frame::FrameView;
use crate::codec::frontend::{
    BindView, ExecuteView, FrontendView, NamedView, ParseView, frontend_frame,
};
use crate::codec::{
    BackendMessage, Bind, Close, Describe, DescribeTarget, Execute, Frame, Parse,
    TransactionStatus,
};
use crate::conn::{Conn, Dirty};
use crate::demux::SessionItem;
use crate::error::ProtocolError;
use crate::lists::nullables;
use crate::octet_map::{same, OctetMap};
use crate::octets::{as_slice, copy_from_slice, octets};
use crate::session::{
    clean_evidence, AwaitingReady, AwaitingReadyTransition, BoundBuilding, Building, Draining,
    DrainingTransition, ErrorResponse, ReadyState, SimpleQuery,
};

verus! {

/// Names of one kind of resource.
#[verifier::ext_equal]
pub struct NamespaceView {
    /// Upstream names of live resources with the generation that is live.
    pub live: Map<Seq<u8>, u64>,
    /// Client names with the upstream name and generation they stand for.
    pub clients: Map<Seq<u8>, (Seq<u8>, u64)>,
}

/// Statement and portal namespaces of one connection.
#[verifier::ext_equal]
pub struct ScopeView {
    pub statements: NamespaceView,
    pub portals: NamespaceView,
    pub next_generation: u64,
}

/// A resource token: the names it was made with and its generation.
#[verifier::ext_equal]
pub struct TokenView {
    pub client: Seq<u8>,
    pub upstream: Seq<u8>,
    pub generation: u64,
}

struct Namespace {
    live: OctetMap<u64>,
    clients: OctetMap<(Bytes, u64)>,
}

/// Upstream names and generations of a client map.
spec fn targets(clients: Map<Seq<u8>, (Bytes, u64)>) -> Map<Seq<u8>, (Seq<u8>, u64)> {
    Map::new(
        |name: Seq<u8>| clients.dom().contains(name),
        |name: Seq<u8>| (octets(clients[name].0), clients[name].1),
    )
}

impl View for Namespace {
    type V = NamespaceView;

    closed spec fn view(&self) -> NamespaceView {
        NamespaceView { live: self.live@, clients: targets(self.clients@) }
    }
}

/// Connection-local statement and portal namespaces.
pub struct ResourceScope<'id> {
    statements: Namespace,
    portals: Namespace,
    next_generation: u64,
    _brand: PhantomData<&'id mut &'id ()>,
}

impl<'id> View for ResourceScope<'id> {
    type V = ScopeView;

    closed spec fn view(&self) -> ScopeView {
        ScopeView {
            statements: self.statements@,
            portals: self.portals@,
            next_generation: self.next_generation,
        }
    }
}

/// A prepared statement tied to one generative connection brand.
#[derive(Debug)]
pub struct PreparedStatement<'id> {
    client_name: Bytes,
    upstream_name: Bytes,
    generation: u64,
    _brand: PhantomData<&'id mut &'id ()>,
}

impl<'id> View for PreparedStatement<'id> {
    type V = TokenView;

    closed spec fn view(&self) -> TokenView {
        TokenView {
            client: octets(self.client_name),
            upstream: octets(self.upstream_name),
            generation: self.generation,
        }
    }
}

/// A bound portal tied to the same brand as its statement.
#[derive(Debug)]
pub struct Portal<'id> {
    client_name: Bytes,
    upstream_name: Bytes,
    generation: u64,
    _brand: PhantomData<&'id mut &'id ()>,
}

impl<'id> View for Portal<'id> {
    type V = TokenView;

    closed spec fn view(&self) -> TokenView {
        TokenView {
            client: octets(self.client_name),
            upstream: octets(self.upstream_name),
            generation: self.generation,
        }
    }
}

/// Failure to resolve or allocate a branded protocol resource.
#[derive(Clone, Copy, Debug, PartialEq, Eq, Structural)]
pub enum ResourceError {
    /// A live prepared statement already uses the requested name.
    StatementNameCollision,
    /// A live portal already uses the requested name.
    PortalNameCollision,
    /// The prepared-statement token or client name is unknown or stale.
    UnknownStatement,
    /// The portal token or client name is unknown or stale.
    UnknownPortal,
}

impl ResourceError {
    /// Description of the failure.
    pub fn message(&self) -> (message: &'static str)
        ensures
            message@ == match *self {
                ResourceError::StatementNameCollision => "prepared statement name collision"@,
                ResourceError::PortalNameCollision => "portal name collision"@,
                ResourceError::UnknownStatement => "unknown or stale prepared statement"@,
                ResourceError::UnknownPortal => "unknown or stale portal"@,
            },
    {
        match *self {
            ResourceError::StatementNameCollision => "prepared statement name collision",
            ResourceError::PortalNameCollision => "portal name collision",
            ResourceError::UnknownStatement => "unknown or stale prepared statement",
            ResourceError::UnknownPortal => "unknown or stale portal",
        }
    }
}

/// A resource-namespace or wire-encoding failure.
#[derive(Clone, Copy, Debug, PartialEq, Eq, Structural)]
pub enum ResourceProtocolError {
    /// Resource identity or lifetime validation failed.
    Resource(ResourceError),
    /// Reconstruction of the wire message failed.
    Wire(ProtocolError),
}

/// Whether a token is the live one of its upstream name.
pub open spec fn live(names: NamespaceView, token: TokenView) -> bool {
    names.live.dom().contains(token.upstream) && names.live[token.upstream] == token.generation
}

/// Whether a named resource with either name exists. Unnamed resources are
/// replaced instead.
pub open spec fn collides(names: NamespaceView, client: Seq<u8>, upstream: Seq<u8>) -> bool {
    (upstream.len() > 0 && names.live.dom().contains(upstream)) || (client.len() > 0
        && names.clients.dom().contains(client))
}

/// The namespace with a new resource in it.
pub open spec fn with_resource(names: NamespaceView, token: TokenView) -> NamespaceView {
    NamespaceView {
        live: names.live.insert(token.upstream, token.generation),
        clients: names.clients.insert(token.client, (token.upstream, token.generation)),
    }
}

/// The namespace after a resource was closed.
pub open spec fn without_resource(names: NamespaceView, token: TokenView) -> NamespaceView {
    NamespaceView {
        live: names.live.remove(token.upstream),
        clients: Map::new(
            |name: Seq<u8>|
                names.clients.dom().contains(name) && names.clients[name] != (
                    token.upstream,
                    token.generation,
                ),
            |name: Seq<u8>| names.clients[name],
        ),
    }
}

/// The namespace after the unnamed resource was destroyed.
pub open spec fn without_unnamed(names: NamespaceView) -> NamespaceView {
    NamespaceView {
        live: names.live.remove(Seq::empty()),
        clients: Map::new(
            |name: Seq<u8>|
                names.clients.dom().contains(name) && names.clients[name].0 != Seq::<u8>::empty(),
            |name: Seq<u8>| names.clients[name],
        ),
    }
}

/// Generations saturate.
pub open spec fn following(generation: u64) -> u64 {
    if generation == u64::MAX {
        generation
    } else {
        (generation + 1) as u64
    }
}

pub open spec fn no_names() -> NamespaceView {
    NamespaceView { live: Map::empty(), clients: Map::empty() }
}

pub open spec fn fresh_scope() -> ScopeView {
    ScopeView { statements: no_names(), portals: no_names(), next_generation: 0 }
}

/// The token that a scope issues next for a pair of names.
pub open spec fn next_token(scope: ScopeView, client: Seq<u8>, upstream: Seq<u8>) -> TokenView {
    TokenView { client, upstream, generation: scope.next_generation }
}

/// The scope after a statement was prepared.
pub open spec fn prepared(scope: ScopeView, client: Seq<u8>, upstream: Seq<u8>) -> ScopeView {
    ScopeView {
        statements: with_resource(scope.statements, next_token(scope, client, upstream)),
        portals: scope.portals,
        next_generation: following(scope.next_generation),
    }
}

/// The scope after a portal was bound.
pub open spec fn bound(scope: ScopeView, client: Seq<u8>, upstream: Seq<u8>) -> ScopeView {
    ScopeView {
        statements: scope.statements,
        portals: with_resource(scope.portals, next_token(scope, client, upstream)),
        next_generation: following(scope.next_generation),
    }
}

pub open spec fn statement_closed(scope: ScopeView, token: TokenView) -> ScopeView {
    ScopeView { statements: without_resource(scope.statements, token), ..scope }
}

pub open spec fn portal_closed(scope: ScopeView, token: TokenView) -> ScopeView {
    ScopeView { portals: without_resource(scope.portals, token), ..scope }
}

/// A simple query destroys the unnamed statement.
pub open spec fn queried(scope: ScopeView) -> ScopeView {
    ScopeView { statements: without_unnamed(scope.statements), ..scope }
}

/// The end of a transaction destroys the unnamed portal.
pub open spec fn ended(scope: ScopeView) -> ScopeView {
    ScopeView { portals: without_unnamed(scope.portals), ..scope }
}

/// What a client name stands for.
pub open spec fn resolved(names: NamespaceView, client: Seq<u8>) -> Option<TokenView> {
    if names.clients.dom().contains(client) {
        Some(
            TokenView {
                client,
                upstream: names.clients[client].0,
                generation: names.clients[client].1,
            },
        )
    } else {
        None
    }
}

/// Whether an entry is to go: it stands for the upstream name and, where one is
/// given, for the generation.
fn stands_for(target: &(Bytes, u64), upstream: &[u8], generation: Option<u64>) -> (result: bool)
    ensures
        result == (octets(target.0) == upstream@ && (generation matches Some(wanted) ==> target.1
            == wanted)),
{
    if !same(as_slice(&target.0), upstream) {
        return false;
    }
    match generation {
        Some(wanted) => target.1 == wanted,
        None => true,
    }
}

impl Namespace {
    fn new() -> (names: Namespace)
        ensures
            names@ == no_names(),
    {
        let names = Namespace { live: OctetMap::new(), clients: OctetMap::new() };
        assert(names@ =~= no_names());
        names
    }

    fn is_live(&self, upstream: &Bytes, generation: u64) -> (result: bool)
        ensures
            result == (self@.live.dom().contains(octets(*upstream))
                && self@.live[octets(*upstream)] == generation),
    {
        match self.live.get(as_slice(upstream)) {
            Some(current) => *current == generation,
            None => false,
        }
    }

    fn is_taken(&self, client: &Bytes, upstream: &Bytes) -> (result: bool)
        ensures
            result == collides(self@, octets(*client), octets(*upstream)),
    {
        (as_slice(upstream).len() > 0 && self.live.contains_key(as_slice(upstream))) || (as_slice(
            client,
        ).len() > 0 && self.clients.contains_key(as_slice(client)))
    }

    fn add_resource(&mut self, client: Bytes, upstream: Bytes, generation: u64)
        ensures
            final(self)@ == with_resource(
                old(self)@,
                TokenView { client: octets(client), upstream: octets(upstream), generation },
            ),
    {
        let _ = self.live.insert(upstream.clone(), generation);
        let _ = self.clients.insert(client, (upstream, generation));
        assert(self@ =~= with_resource(
            old(self)@,
            TokenView { client: octets(client), upstream: octets(upstream), generation },
        ));
    }

    /// Client entries that do not stand for the upstream name and, where one is
    /// given, the generation.
    #[verifier::loop_isolation(false)]
    fn forget(&mut self, upstream: &[u8], generation: Option<u64>)
        ensures
            final(self)@.live == old(self)@.live.remove(upstream@),
            final(self)@.clients == Map::new(
                |name: Seq<u8>|
                    old(self)@.clients.dom().contains(name) && !(old(self)@.clients[name].0
                        == upstream@ && (generation matches Some(wanted) ==> old(
                        self,
                    )@.clients[name].1 == wanted)),
                |name: Seq<u8>| old(self)@.clients[name],
            ),
    {
        let _ = self.live.remove(upstream);
        let mut kept: OctetMap<(Bytes, u64)> = OctetMap::new();
        let count: usize = self.clients.len();
        let ghost listed = self.clients.listed();
        let ghost known = self.clients@;
        let ghost gone = |target: (Bytes, u64)|
            octets(target.0) == upstream@ && (generation matches Some(wanted) ==> target.1
                == wanted);
        let mut at: usize = 0;
        while at < count
            invariant
                at <= count == listed.len(),
                listed == self.clients.listed(),
                known == self.clients@,
                forall|name: Seq<u8>| #[trigger]
                    kept@.dom().contains(name) ==> known.dom().contains(name) && !gone(known[name])
                        && octets(kept@[name].0) == octets(known[name].0) && kept@[name].1
                        == known[name].1,
                forall|i: int|
                    0 <= i < at && !gone((#[trigger] listed[i]).1) ==> kept@.dom().contains(
                        listed[i].0,
                    ),
                forall|i: int|
                    0 <= i < at ==> known[(#[trigger] listed[i]).0] == listed[i].1,
            decreases count - at,
        {
            let name = self.clients.key_at(at);
            let target = self.clients.value_at(at);
            if !stands_for(target, upstream, generation) {
                let _ = kept.insert(name.clone(), (target.0.clone(), target.1));
            }
            at = at + 1;
        }
        proof {
            assert forall|name: Seq<u8>| #[trigger]
                known.dom().contains(name) && !gone(known[name]) implies kept@.dom().contains(
                name,
            ) by {
                let i = choose|i: int| 0 <= i < listed.len() && (#[trigger] listed[i]).0 == name;
                assert(listed[i].1 == known[name]);
            }
            assert(targets(kept@) =~= Map::new(
                |name: Seq<u8>|
                    old(self)@.clients.dom().contains(name) && !(old(self)@.clients[name].0
                        == upstream@ && (generation matches Some(wanted) ==> old(
                        self,
                    )@.clients[name].1 == wanted)),
                |name: Seq<u8>| old(self)@.clients[name],
            ));
        }
        self.clients = kept;
    }
}

impl<'id> ResourceScope<'id> {
    fn new() -> (scope: Self)
        ensures
            scope@ == fresh_scope(),
    {
        ResourceScope {
            statements: Namespace::new(),
            portals: Namespace::new(),
            next_generation: 0,
            _brand: PhantomData,
        }
    }

    fn advance(&mut self) -> (generation: u64)
        ensures
            generation == old(self)@.next_generation,
            final(self)@ == (ScopeView {
                next_generation: following(old(self)@.next_generation),
                ..old(self)@
            }),
    {
        let generation: u64 = self.next_generation;
        if generation < u64::MAX {
            self.next_generation = generation + 1;
        }
        generation
    }

    /// Records a simple-query boundary, which destroys the unnamed statement.
    pub fn simple_query_boundary(&mut self)
        ensures
            final(self)@ == queried(old(self)@),
    {
        let unnamed: Vec<u8> = Vec::new();
        self.statements.forget(unnamed.as_slice(), None);
        assert(unnamed@ =~= Seq::<u8>::empty());
        assert(self@.statements =~= without_unnamed(old(self)@.statements));
    }

    /// Records transaction end, which destroys the unnamed portal.
    pub fn transaction_ended(&mut self)
        ensures
            final(self)@ == ended(old(self)@),
    {
        let unnamed: Vec<u8> = Vec::new();
        self.portals.forget(unnamed.as_slice(), None);
        assert(unnamed@ =~= Seq::<u8>::empty());
        assert(self@.portals =~= without_unnamed(old(self)@.portals));
    }

    /// Allocates a statement token and reconstructable upstream `Parse` message.
    ///
    /// # Errors
    ///
    /// Rejects duplicate statement names.
    pub fn prepare(
        &mut self,
        client_name: Bytes,
        upstream_name: Bytes,
        query: Bytes,
        parameter_types: Vec<u32>,
    ) -> (result: Result<(PreparedStatement<'id>, Parse), ResourceError>)
        ensures
            match result {
                Ok((statement, message)) => {
                    &&& !collides(
                        old(self)@.statements,
                        octets(client_name),
                        octets(upstream_name),
                    )
                    &&& final(self)@ == prepared(
                        old(self)@,
                        octets(client_name),
                        octets(upstream_name),
                    )
                    &&& statement@ == next_token(
                        old(self)@,
                        octets(client_name),
                        octets(upstream_name),
                    )
                    &&& message@ == (ParseView {
                        statement: octets(upstream_name),
                        query: octets(query),
                        parameter_types: parameter_types@,
                    })
                },
                Err(error) => collides(
                    old(self)@.statements,
                    octets(client_name),
                    octets(upstream_name),
                ) && error == ResourceError::StatementNameCollision && final(self)@ == old(self)@,
            },
    {
        if self.statements.is_taken(&client_name, &upstream_name) {
            return Err(ResourceError::StatementNameCollision);
        }
        let generation: u64 = self.advance();
        self.statements.add_resource(client_name.clone(), upstream_name.clone(), generation);
        let statement = PreparedStatement {
            client_name,
            upstream_name: upstream_name.clone(),
            generation,
            _brand: PhantomData,
        };
        Ok((statement, Parse { statement: upstream_name, query, parameter_types }))
    }

    /// Binds a branded statement into a rewritten portal namespace.
    ///
    /// # Errors
    ///
    /// Rejects statements not present in this scope and duplicate portal names.
    pub fn bind(
        &mut self,
        statement: &PreparedStatement<'id>,
        client_name: Bytes,
        upstream_name: Bytes,
        parameter_formats: Vec<i16>,
        parameters: Vec<Option<Bytes>>,
        result_formats: Vec<i16>,
    ) -> (result: Result<(Portal<'id>, Bind), ResourceError>)
        ensures
            match result {
                Ok((portal, message)) => {
                    &&& live(old(self)@.statements, statement@)
                    &&& !collides(old(self)@.portals, octets(client_name), octets(upstream_name))
                    &&& final(self)@ == bound(
                        old(self)@,
                        octets(client_name),
                        octets(upstream_name),
                    )
                    &&& portal@ == next_token(
                        old(self)@,
                        octets(client_name),
                        octets(upstream_name),
                    )
                    &&& message@ == (Bind {
                        portal: upstream_name,
                        statement: message.statement,
                        parameter_formats,
                        parameters,
                        result_formats,
                    })@
                    &&& octets(message.statement) == statement@.upstream
                },
                Err(error) => final(self)@ == old(self)@ && if !live(
                    old(self)@.statements,
                    statement@,
                ) {
                    error == ResourceError::UnknownStatement
                } else {
                    collides(old(self)@.portals, octets(client_name), octets(upstream_name))
                        && error == ResourceError::PortalNameCollision
                },
            },
    {
        if !self.statements.is_live(&statement.upstream_name, statement.generation) {
            return Err(ResourceError::UnknownStatement);
        }
        if self.portals.is_taken(&client_name, &upstream_name) {
            return Err(ResourceError::PortalNameCollision);
        }
        let generation: u64 = self.advance();
        self.portals.add_resource(client_name.clone(), upstream_name.clone(), generation);
        let portal = Portal {
            client_name,
            upstream_name: upstream_name.clone(),
            generation,
            _brand: PhantomData,
        };
        let message = Bind {
            portal: upstream_name,
            statement: statement.upstream_name.clone(),
            parameter_formats,
            parameters,
            result_formats,
        };
        Ok((portal, message))
    }

    /// Closes a statement and removes its upstream name from this scope.
    ///
    /// # Errors
    ///
    /// Rejects a token which has already been closed.
    pub fn close_statement(&mut self, statement: PreparedStatement<'id>) -> (result: Result<
        Close,
        ResourceError,
    >)
        ensures
            match result {
                Ok(message) => live(old(self)@.statements, statement@) && final(self)@
                    == statement_closed(old(self)@, statement@) && message@ == (NamedView {
                    target: DescribeTarget::Statement,
                    name: statement@.upstream,
                }),
                Err(error) => !live(old(self)@.statements, statement@) && error
                    == ResourceError::UnknownStatement && final(self)@ == old(self)@,
            },
    {
        if !self.statements.is_live(&statement.upstream_name, statement.generation) {
            return Err(ResourceError::UnknownStatement);
        }
        self.statements.forget(as_slice(&statement.upstream_name), Some(statement.generation));
        assert(self@.statements =~= without_resource(old(self)@.statements, statement@));
        Ok(Close { target: DescribeTarget::Statement, name: statement.upstream_name })
    }

    /// Closes a portal and removes its upstream name from this scope.
    ///
    /// # Errors
    ///
    /// Rejects a token which has already been closed.
    pub fn close_portal(&mut self, portal: Portal<'id>) -> (result: Result<Close, ResourceError>)
        ensures
            match result {
                Ok(message) => live(old(self)@.portals, portal@) && final(self)@ == portal_closed(
                    old(self)@,
                    portal@,
                ) && message@ == (NamedView {
                    target: DescribeTarget::Portal,
                    name: portal@.upstream,
                }),
                Err(error) => !live(old(self)@.portals, portal@) && error
                    == ResourceError::UnknownPortal && final(self)@ == old(self)@,
            },
    {
        if !self.portals.is_live(&portal.upstream_name, portal.generation) {
            return Err(ResourceError::UnknownPortal);
        }
        self.portals.forget(as_slice(&portal.upstream_name), Some(portal.generation));
        assert(self@.portals =~= without_resource(old(self)@.portals, portal@));
        Ok(Close { target: DescribeTarget::Portal, name: portal.upstream_name })
    }

    fn execute(&self, portal: &Portal<'id>, max_rows: i32) -> (result: Result<
        Execute,
        ResourceError,
    >)
        ensures
            match result {
                Ok(message) => live(self@.portals, portal@) && message@ == (ExecuteView {
                    portal: portal@.upstream,
                    max_rows,
                }),
                Err(error) => !live(self@.portals, portal@) && error
                    == ResourceError::UnknownPortal,
            },
    {
        if !self.portals.is_live(&portal.upstream_name, portal.generation) {
            return Err(ResourceError::UnknownPortal);
        }
        Ok(portal.execute(max_rows))
    }

    fn describe_portal(&self, portal: &Portal<'id>) -> (result: Result<Describe, ResourceError>)
        ensures
            match result {
                Ok(message) => live(self@.portals, portal@) && message@ == (NamedView {
                    target: DescribeTarget::Portal,
                    name: portal@.upstream,
                }),
                Err(error) => !live(self@.portals, portal@) && error
                    == ResourceError::UnknownPortal,
            },
    {
        if !self.portals.is_live(&portal.upstream_name, portal.generation) {
            return Err(ResourceError::UnknownPortal);
        }
        Ok(portal.describe())
    }

    fn describe_statement(&self, statement: &PreparedStatement<'id>) -> (result: Result<
        Describe,
        ResourceError,
    >)
        ensures
            match result {
                Ok(message) => live(self@.statements, statement@) && message@ == (NamedView {
                    target: DescribeTarget::Statement,
                    name: statement@.upstream,
                }),
                Err(error) => !live(self@.statements, statement@) && error
                    == ResourceError::UnknownStatement,
            },
    {
        if !self.statements.is_live(&statement.upstream_name, statement.generation) {
            return Err(ResourceError::UnknownStatement);
        }
        Ok(statement.describe())
    }

    /// Resolves a client-visible statement name to its branded upstream token.
    #[must_use]
    pub fn statement(&self, client_name: &[u8]) -> (statement: Option<PreparedStatement<'id>>)
        ensures
            match statement {
                Some(statement) => resolved(self@.statements, client_name@) == Some(statement@),
                None => resolved(self@.statements, client_name@) is None,
            },
    {
        match self.statements.clients.get(client_name) {
            Some((upstream_name, generation)) => Some(
                PreparedStatement {
                    client_name: copy_from_slice(client_name),
                    upstream_name: upstream_name.clone(),
                    generation: *generation,
                    _brand: PhantomData,
                },
            ),
            None => None,
        }
    }

    /// Resolves a client-visible portal name to its branded upstream token.
    #[must_use]
    pub fn portal(&self, client_name: &[u8]) -> (portal: Option<Portal<'id>>)
        ensures
            match portal {
                Some(portal) => resolved(self@.portals, client_name@) == Some(portal@),
                None => resolved(self@.portals, client_name@) is None,
            },
    {
        match self.portals.clients.get(client_name) {
            Some((upstream_name, generation)) => Some(
                Portal {
                    client_name: copy_from_slice(client_name),
                    upstream_name: upstream_name.clone(),
                    generation: *generation,
                    _brand: PhantomData,
                },
            ),
            None => None,
        }
    }
}

impl<'id> PreparedStatement<'id> {
    /// Returns the statement name presented by the client.
    #[must_use]
    pub fn client_name(&self) -> (name: &[u8])
        ensures
            name@ == self@.client,
    {
        as_slice(&self.client_name)
    }

    /// Returns the rewritten statement name sent upstream.
    #[must_use]
    pub fn upstream_name(&self) -> (name: &[u8])
        ensures
            name@ == self@.upstream,
    {
        as_slice(&self.upstream_name)
    }

    /// Constructs a `Describe` message using the rewritten statement name.
    #[must_use]
    pub fn describe(&self) -> (message: Describe)
        ensures
            message@ == (NamedView { target: DescribeTarget::Statement, name: self@.upstream }),
    {
        Describe { target: DescribeTarget::Statement, name: self.upstream_name.clone() }
    }
}

impl<'id> Portal<'id> {
    /// Returns the portal name presented by the client.
    #[must_use]
    pub fn client_name(&self) -> (name: &[u8])
        ensures
            name@ == self@.client,
    {
        as_slice(&self.client_name)
    }

    /// Returns the rewritten portal name sent upstream.
    #[must_use]
    pub fn upstream_name(&self) -> (name: &[u8])
        ensures
            name@ == self@.upstream,
    {
        as_slice(&self.upstream_name)
    }

    /// Constructs a `Describe` message using the rewritten portal name.
    #[must_use]
    pub fn describe(&self) -> (message: Describe)
        ensures
            message@ == (NamedView { target: DescribeTarget::Portal, name: self@.upstream }),
    {
        Describe { target: DescribeTarget::Portal, name: self.upstream_name.clone() }
    }

    /// Constructs an `Execute` message using the rewritten portal name.
    #[must_use]
    pub fn execute(&self, max_rows: i32) -> (message: Execute)
        ensures
            message@ == (ExecuteView { portal: self@.upstream, max_rows }),
    {
        Execute { portal: self.upstream_name.clone(), max_rows }
    }
}

/// Runs an operation with a fresh resource brand which cannot escape the closure.
pub fn with_resources<R, F: for<'id> FnOnce(ResourceScope<'id>) -> R>(operation: F) -> (output: R)
    requires
        forall|scope: ResourceScope<'_>|
            scope@ == fresh_scope() ==> #[trigger] call_requires(operation, (scope,)),
    ensures
        exists|scope: ResourceScope<'_>|
            scope@ == fresh_scope() && #[trigger] call_ensures(operation, (scope,), output),
{
    let scope = ResourceScope::new();
    operation(scope)
}

/// A connection paired with its generative statement and portal namespace.
pub struct ResourceConnection<'id, S, P, C> {
    conn: Conn<S, P, C>,
    resources: ResourceScope<'id>,
}

/// Readiness projected while retaining the connection's resource brand.
pub enum ResourceReadyState<'id, S, C> {
    /// The connection retained its existing cleanliness index.
    Clean(ResourceConnection<'id, S, Ready, C>),
    /// Transaction or parameter evidence made the connection dirty.
    Dirty {
        /// Ready, dirty connection and its resource namespace.
        conn: ResourceConnection<'id, S, Ready, Dirty>,
        /// Transaction status reported by `ReadyForQuery`.
        status: TransactionStatus,
        /// Whether reported parameters differ from their startup values.
        parameters_changed: bool,
    },
}

/// Projection while awaiting readiness after an extended-query result.
pub enum ResourceAwaitingTransition<'id, S, C> {
    /// A non-terminal item was consumed; continue waiting.
    Continue(ResourceConnection<'id, S, AwaitingReady, C>, SessionItem),
    /// `ReadyForQuery` completed the cycle.
    Ready(ResourceReadyState<'id, S, C>),
    /// An error entered the drain-until-ready recovery phase.
    Error(ResourceConnection<'id, S, Draining, C>, ErrorResponse),
}

/// Projection while draining an errored resource-aware pipeline.
pub enum ResourceDrainingTransition<'id, S, C> {
    /// A non-terminal item was consumed; continue draining.
    Continue(ResourceConnection<'id, S, Draining, C>, SessionItem),
    /// `ReadyForQuery` completed recovery.
    Ready(ResourceReadyState<'id, S, C>),
}

/// Result of preparing a statement.
pub type PrepareResult<'id, S, P> = Result<
    (ResourceConnection<'id, S, P, Dirty>, PreparedStatement<'id>, Frame),
    ResourceProtocolError,
>;

/// Result of binding a portal, which makes the pipeline executable.
pub type BindResult<'id, S> = Result<
    (ResourceConnection<'id, S, BoundBuilding, Dirty>, Portal<'id>, Frame),
    ResourceProtocolError,
>;

/// Result of a step that keeps the phase.
pub type StepResult<'id, S, P, C> = Result<
    (ResourceConnection<'id, S, P, C>, Frame),
    ResourceProtocolError,
>;

impl<'id, S, P, C> ResourceConnection<'id, S, P, C> {
    /// The transport held.
    pub closed spec fn held(self) -> S {
        self.conn.held()
    }

    /// The namespaces held.
    pub closed spec fn scope(self) -> ScopeView {
        self.resources@
    }

    /// Borrows the typed connection for transport-only operations such as
    /// buffering a frame returned by this wrapper.
    pub fn connection(&self) -> (conn: &Conn<S, P, C>)
        ensures
            conn.held() == self.held(),
    {
        &self.conn
    }

    /// Mutably borrows the typed connection for transport-only operations such
    /// as buffering and flushing returned frames.
    pub fn connection_mut(&mut self) -> (conn: &mut Conn<S, P, C>)
        ensures
            conn.held() == old(self).held(),
            final(self).held() == final(conn).held(),
            final(self).scope() == old(self).scope(),
    {
        &mut self.conn
    }

    /// Reports whether a prepared-statement token is still live in this
    /// connection's namespace.
    #[must_use]
    pub fn statement_is_live(&self, statement: &PreparedStatement<'id>) -> (result: bool)
        ensures
            result == live(self.scope().statements, statement@),
    {
        self.resources.statements.is_live(&statement.upstream_name, statement.generation)
    }

    /// Reports whether a portal token is still live in this connection's
    /// namespace.
    #[must_use]
    pub fn portal_is_live(&self, portal: &Portal<'id>) -> (result: bool)
        ensures
            result == live(self.scope().portals, portal@),
    {
        self.resources.portals.is_live(&portal.upstream_name, portal.generation)
    }

    /// Deliberately leaves resource-aware handling while retaining typestate.
    pub fn into_connection(self) -> (conn: Conn<S, P, C>)
        ensures
            conn.held() == self.held(),
    {
        self.conn
    }
}

/// Runs an extended-query operation with one brand shared by its connection
/// and resource namespace.
pub fn with_connection_resources<
    S,
    P,
    C,
    R,
    F: for<'id> FnOnce(ResourceConnection<'id, S, P, C>) -> R,
>(conn: Conn<S, P, C>, operation: F) -> (output: R)
    requires
        forall|connection: ResourceConnection<'_, S, P, C>|
            connection.held() == conn.held() && connection.scope() == fresh_scope()
                ==> #[trigger] call_requires(operation, (connection,)),
    ensures
        exists|connection: ResourceConnection<'_, S, P, C>|
            connection.held() == conn.held() && connection.scope() == fresh_scope()
                && #[trigger] call_ensures(operation, (connection,), output),
{
    let connection = ResourceConnection { conn, resources: ResourceScope::new() };
    operation(connection)
}

/// Whether preparing a statement on a scope and transport gives `result`.
pub open spec fn prepares<'id, S, P>(
    result: PrepareResult<'id, S, P>,
    scope: ScopeView,
    held: S,
    client: Seq<u8>,
    message: ParseView,
) -> bool {
    match result {
        Ok((connection, statement, frame)) => {
            &&& !collides(scope.statements, client, message.statement)
            &&& connection.held() == held
            &&& connection.scope() == prepared(scope, client, message.statement)
            &&& statement@ == next_token(scope, client, message.statement)
            &&& frontend_frame(FrontendView::Parse(message)) == Ok::<_, ProtocolError>(frame@)
        },
        Err(ResourceProtocolError::Resource(error)) => collides(
            scope.statements,
            client,
            message.statement,
        ) && error == ResourceError::StatementNameCollision,
        Err(ResourceProtocolError::Wire(error)) => !collides(
            scope.statements,
            client,
            message.statement,
        ) && frontend_frame(FrontendView::Parse(message)) == Err::<FrameView, _>(error),
    }
}

/// Whether binding a portal to a statement on a scope and transport gives `result`.
pub open spec fn binds<'id, S>(
    result: BindResult<'id, S>,
    scope: ScopeView,
    held: S,
    statement: TokenView,
    client: Seq<u8>,
    message: BindView,
) -> bool {
    match result {
        Ok((connection, portal, frame)) => {
            &&& live(scope.statements, statement)
            &&& !collides(scope.portals, client, message.portal)
            &&& connection.held() == held
            &&& connection.scope() == bound(scope, client, message.portal)
            &&& portal@ == next_token(scope, client, message.portal)
            &&& frontend_frame(FrontendView::Bind(message)) == Ok::<_, ProtocolError>(frame@)
        },
        Err(ResourceProtocolError::Resource(error)) => if !live(scope.statements, statement) {
            error == ResourceError::UnknownStatement
        } else {
            collides(scope.portals, client, message.portal) && error
                == ResourceError::PortalNameCollision
        },
        Err(ResourceProtocolError::Wire(error)) => live(scope.statements, statement) && !collides(
            scope.portals,
            client,
            message.portal,
        ) && frontend_frame(FrontendView::Bind(message)) == Err::<FrameView, _>(error),
    }
}

/// Whether a step that needs a live token gives `result`: it sends `message` and
/// leaves the scope `after`, or reports `stale`.
pub open spec fn steps<'id, S, P, C>(
    result: StepResult<'id, S, P, C>,
    held: S,
    is_live: bool,
    stale: ResourceError,
    after: ScopeView,
    message: FrontendView,
) -> bool {
    match result {
        Ok((connection, frame)) => {
            &&& is_live
            &&& connection.held() == held
            &&& connection.scope() == after
            &&& frontend_frame(message) == Ok::<_, ProtocolError>(frame@)
        },
        Err(ResourceProtocolError::Resource(error)) => !is_live && error == stale,
        Err(ResourceProtocolError::Wire(error)) => is_live && frontend_frame(message) == Err::<
            FrameView,
            _,
        >(error),
    }
}

impl<'id, S, C> ResourceConnection<'id, S, Building, C> {
    /// Creates and sends a branded prepared statement on this connection.
    ///
    /// # Errors
    ///
    /// Returns namespace or wire reconstruction errors.
    pub fn prepare(
        self,
        client_name: Bytes,
        upstream_name: Bytes,
        query: Bytes,
        parameter_types: Vec<u32>,
    ) -> (result: PrepareResult<'id, S, Building>)
        ensures
            prepares(
                result,
                self.scope(),
                self.held(),
                octets(client_name),
                ParseView {
                    statement: octets(upstream_name),
                    query: octets(query),
                    parameter_types: parameter_types@,
                },
            ),
    {
        let ResourceConnection { conn, mut resources } = self;
        let (statement, message) = match resources.prepare(
            client_name,
            upstream_name,
            query,
            parameter_types,
        ) {
            Ok(prepared) => prepared,
            Err(error) => return Err(ResourceProtocolError::Resource(error)),
        };
        match conn.push_parse(&message) {
            Ok((conn, frame)) => Ok((ResourceConnection { conn, resources }, statement, frame)),
            Err(error) => Err(ResourceProtocolError::Wire(error)),
        }
    }

    /// Creates and sends a branded portal on this connection.
    ///
    /// # Errors
    ///
    /// Returns namespace or wire reconstruction errors.
    pub fn bind(
        self,
        statement: &PreparedStatement<'id>,
        client_name: Bytes,
        upstream_name: Bytes,
        parameter_formats: Vec<i16>,
        parameters: Vec<Option<Bytes>>,
        result_formats: Vec<i16>,
    ) -> (result: BindResult<'id, S>)
        ensures
            binds(
                result,
                self.scope(),
                self.held(),
                statement@,
                octets(client_name),
                BindView {
                    portal: octets(upstream_name),
                    statement: statement@.upstream,
                    parameter_formats: parameter_formats@,
                    parameters: nullables(parameters@),
                    result_formats: result_formats@,
                },
            ),
    {
        let ResourceConnection { conn, mut resources } = self;
        let (portal, message) = match resources.bind(
            statement,
            client_name,
            upstream_name,
            parameter_formats,
            parameters,
            result_formats,
        ) {
            Ok(bound) => bound,
            Err(error) => return Err(ResourceProtocolError::Resource(error)),
        };
        match conn.push_bind(&message) {
            Ok((conn, frame)) => Ok((ResourceConnection { conn, resources }, portal, frame)),
            Err(error) => Err(ResourceProtocolError::Wire(error)),
        }
    }

    /// Describes only a live statement from this connection.
    ///
    /// # Errors
    ///
    /// Returns an error for a stale token or invalid wire value.
    pub fn describe_statement(self, statement: &PreparedStatement<'id>) -> (result: StepResult<'id, S, Building, C>)
        ensures
            steps(
                result,
                self.held(),
                live(self.scope().statements, statement@),
                ResourceError::UnknownStatement,
                self.scope(),
                FrontendView::Describe(
                    NamedView {
                        target: DescribeTarget::Statement,
                        name: statement@.upstream,
                    },
                ),
            ),
    {
        let ResourceConnection { conn, resources } = self;
        let message = match resources.describe_statement(statement) {
            Ok(message) => message,
            Err(error) => return Err(ResourceProtocolError::Resource(error)),
        };
        match conn.push_describe(&message) {
            Ok((conn, frame)) => Ok((ResourceConnection { conn, resources }, frame)),
            Err(error) => Err(ResourceProtocolError::Wire(error)),
        }
    }

    /// Closes a live statement and invalidates its token.
    ///
    /// # Errors
    ///
    /// Returns an error for a stale token or invalid wire value.
    pub fn close_statement(self, statement: PreparedStatement<'id>) -> (result: StepResult<'id, S, Building, C>)
        ensures
            steps(
                result,
                self.held(),
                live(self.scope().statements, statement@),
                ResourceError::UnknownStatement,
                statement_closed(self.scope(), statement@),
                FrontendView::Close(
                    NamedView {
                        target: DescribeTarget::Statement,
                        name: statement@.upstream,
                    },
                ),
            ),
    {
        let ResourceConnection { conn, mut resources } = self;
        let message = match resources.close_statement(statement) {
            Ok(message) => message,
            Err(error) => return Err(ResourceProtocolError::Resource(error)),
        };
        match conn.push_close(&message) {
            Ok((conn, frame)) => Ok((ResourceConnection { conn, resources }, frame)),
            Err(error) => Err(ResourceProtocolError::Wire(error)),
        }
    }

    /// Closes a live portal and invalidates its token.
    ///
    /// # Errors
    ///
    /// Returns an error for a stale token or invalid wire value.
    pub fn close_portal(self, portal: Portal<'id>) -> (result: StepResult<'id, S, Building, C>)
        ensures
            steps(
                result,
                self.held(),
                live(self.scope().portals, portal@),
                ResourceError::UnknownPortal,
                portal_closed(self.scope(), portal@),
                FrontendView::Close(
                    NamedView { target: DescribeTarget::Portal, name: portal@.upstream },
                ),
            ),
    {
        let ResourceConnection { conn, mut resources } = self;
        let message = match resources.close_portal(portal) {
            Ok(message) => message,
            Err(error) => return Err(ResourceProtocolError::Resource(error)),
        };
        match conn.push_close(&message) {
            Ok((conn, frame)) => Ok((ResourceConnection { conn, resources }, frame)),
            Err(error) => Err(ResourceProtocolError::Wire(error)),
        }
    }

    /// Emits Flush without changing resource or phase evidence.
    #[must_use]
    pub fn flush(self) -> (result: (Self, Frame))
        ensures
            result.0.held() == self.held(),
            result.0.scope() == self.scope(),
            frontend_frame(FrontendView::Flush) == Ok::<_, ProtocolError>(result.1@),
    {
        let ResourceConnection { conn, resources } = self;
        let (conn, frame) = conn.push_flush();
        (ResourceConnection { conn, resources }, frame)
    }

    /// Emits Sync while retaining the namespace through response consumption.
    #[must_use]
    pub fn sync(self) -> (result: (ResourceConnection<'id, S, AwaitingReady, C>, Frame))
        ensures
            result.0.held() == self.held(),
            result.0.scope() == self.scope(),
            frontend_frame(FrontendView::Sync) == Ok::<_, ProtocolError>(result.1@),
    {
        let ResourceConnection { conn, resources } = self;
        let (conn, frame) = conn.push_sync();
        (ResourceConnection { conn, resources }, frame)
    }
}

impl<'id, S, C> ResourceConnection<'id, S, BoundBuilding, C> {
    /// Creates and sends a branded prepared statement on this connection.
    ///
    /// # Errors
    ///
    /// Returns namespace or wire reconstruction errors.
    pub fn prepare(
        self,
        client_name: Bytes,
        upstream_name: Bytes,
        query: Bytes,
        parameter_types: Vec<u32>,
    ) -> (result: PrepareResult<'id, S, BoundBuilding>)
        ensures
            prepares(
                result,
                self.scope(),
                self.held(),
                octets(client_name),
                ParseView {
                    statement: octets(upstream_name),
                    query: octets(query),
                    parameter_types: parameter_types@,
                },
            ),
    {
        let ResourceConnection { conn, mut resources } = self;
        let (statement, message) = match resources.prepare(
            client_name,
            upstream_name,
            query,
            parameter_types,
        ) {
            Ok(prepared) => prepared,
            Err(error) => return Err(ResourceProtocolError::Resource(error)),
        };
        match conn.push_parse(&message) {
            Ok((conn, frame)) => Ok((ResourceConnection { conn, resources }, statement, frame)),
            Err(error) => Err(ResourceProtocolError::Wire(error)),
        }
    }

    /// Creates and sends a branded portal on this connection.
    ///
    /// # Errors
    ///
    /// Returns namespace or wire reconstruction errors.
    pub fn bind(
        self,
        statement: &PreparedStatement<'id>,
        client_name: Bytes,
        upstream_name: Bytes,
        parameter_formats: Vec<i16>,
        parameters: Vec<Option<Bytes>>,
        result_formats: Vec<i16>,
    ) -> (result: BindResult<'id, S>)
        ensures
            binds(
                result,
                self.scope(),
                self.held(),
                statement@,
                octets(client_name),
                BindView {
                    portal: octets(upstream_name),
                    statement: statement@.upstream,
                    parameter_formats: parameter_formats@,
                    parameters: nullables(parameters@),
                    result_formats: result_formats@,
                },
            ),
    {
        let ResourceConnection { conn, mut resources } = self;
        let (portal, message) = match resources.bind(
            statement,
            client_name,
            upstream_name,
            parameter_formats,
            parameters,
            result_formats,
        ) {
            Ok(bound) => bound,
            Err(error) => return Err(ResourceProtocolError::Resource(error)),
        };
        match conn.push_bind(&message) {
            Ok((conn, frame)) => Ok((ResourceConnection { conn, resources }, portal, frame)),
            Err(error) => Err(ResourceProtocolError::Wire(error)),
        }
    }

    /// Describes only a live statement from this connection.
    ///
    /// # Errors
    ///
    /// Returns an error for a stale token or invalid wire value.
    pub fn describe_statement(self, statement: &PreparedStatement<'id>) -> (result: StepResult<'id, S, BoundBuilding, C>)
        ensures
            steps(
                result,
                self.held(),
                live(self.scope().statements, statement@),
                ResourceError::UnknownStatement,
                self.scope(),
                FrontendView::Describe(
                    NamedView {
                        target: DescribeTarget::Statement,
                        name: statement@.upstream,
                    },
                ),
            ),
    {
        let ResourceConnection { conn, resources } = self;
        let message = match resources.describe_statement(statement) {
            Ok(message) => message,
            Err(error) => return Err(ResourceProtocolError::Resource(error)),
        };
        match conn.push_describe(&message) {
            Ok((conn, frame)) => Ok((ResourceConnection { conn, resources }, frame)),
            Err(error) => Err(ResourceProtocolError::Wire(error)),
        }
    }

    /// Describes only a live portal from this connection.
    ///
    /// # Errors
    ///
    /// Returns an error for a stale token or invalid wire value.
    pub fn describe_portal(self, portal: &Portal<'id>) -> (result: StepResult<'id, S, BoundBuilding, C>)
        ensures
            steps(
                result,
                self.held(),
                live(self.scope().portals, portal@),
                ResourceError::UnknownPortal,
                self.scope(),
                FrontendView::Describe(
                    NamedView { target: DescribeTarget::Portal, name: portal@.upstream },
                ),
            ),
    {
        let ResourceConnection { conn, resources } = self;
        let message = match resources.describe_portal(portal) {
            Ok(message) => message,
            Err(error) => return Err(ResourceProtocolError::Resource(error)),
        };
        match conn.push_describe(&message) {
            Ok((conn, frame)) => Ok((ResourceConnection { conn, resources }, frame)),
            Err(error) => Err(ResourceProtocolError::Wire(error)),
        }
    }

    /// Sends an execute which can name only a live portal from this connection.
    ///
    /// # Errors
    ///
    /// Returns an error for a stale token or invalid wire value.
    pub fn execute(self, portal: &Portal<'id>, max_rows: i32) -> (result: StepResult<'id, S, BoundBuilding, C>)
        ensures
            steps(
                result,
                self.held(),
                live(self.scope().portals, portal@),
                ResourceError::UnknownPortal,
                self.scope(),
                FrontendView::Execute(ExecuteView { portal: portal@.upstream, max_rows }),
            ),
    {
        let ResourceConnection { conn, resources } = self;
        let message = match resources.execute(portal, max_rows) {
            Ok(message) => message,
            Err(error) => return Err(ResourceProtocolError::Resource(error)),
        };
        match conn.push_execute(&message) {
            Ok((conn, frame)) => Ok((ResourceConnection { conn, resources }, frame)),
            Err(error) => Err(ResourceProtocolError::Wire(error)),
        }
    }

    /// Closes a live statement and invalidates its token.
    ///
    /// # Errors
    ///
    /// Returns an error for a stale token or invalid wire value.
    pub fn close_statement(self, statement: PreparedStatement<'id>) -> (result: StepResult<'id, S, BoundBuilding, C>)
        ensures
            steps(
                result,
                self.held(),
                live(self.scope().statements, statement@),
                ResourceError::UnknownStatement,
                statement_closed(self.scope(), statement@),
                FrontendView::Close(
                    NamedView {
                        target: DescribeTarget::Statement,
                        name: statement@.upstream,
                    },
                ),
            ),
    {
        let ResourceConnection { conn, mut resources } = self;
        let message = match resources.close_statement(statement) {
            Ok(message) => message,
            Err(error) => return Err(ResourceProtocolError::Resource(error)),
        };
        match conn.push_close(&message) {
            Ok((conn, frame)) => Ok((ResourceConnection { conn, resources }, frame)),
            Err(error) => Err(ResourceProtocolError::Wire(error)),
        }
    }

    /// Closes a live portal and invalidates its token.
    ///
    /// # Errors
    ///
    /// Returns an error for a stale token or invalid wire value.
    pub fn close_portal(self, portal: Portal<'id>) -> (result: StepResult<'id, S, BoundBuilding, C>)
        ensures
            steps(
                result,
                self.held(),
                live(self.scope().portals, portal@),
                ResourceError::UnknownPortal,
                portal_closed(self.scope(), portal@),
                FrontendView::Close(
                    NamedView { target: DescribeTarget::Portal, name: portal@.upstream },
                ),
            ),
    {
        let ResourceConnection { conn, mut resources } = self;
        let message = match resources.close_portal(portal) {
            Ok(message) => message,
            Err(error) => return Err(ResourceProtocolError::Resource(error)),
        };
        match conn.push_close(&message) {
            Ok((conn, frame)) => Ok((ResourceConnection { conn, resources }, frame)),
            Err(error) => Err(ResourceProtocolError::Wire(error)),
        }
    }

    /// Emits Flush without changing resource or phase evidence.
    #[must_use]
    pub fn flush(self) -> (result: (Self, Frame))
        ensures
            result.0.held() == self.held(),
            result.0.scope() == self.scope(),
            frontend_frame(FrontendView::Flush) == Ok::<_, ProtocolError>(result.1@),
    {
        let ResourceConnection { conn, resources } = self;
        let (conn, frame) = conn.push_flush();
        (ResourceConnection { conn, resources }, frame)
    }

    /// Emits Sync while retaining the namespace through response consumption.
    #[must_use]
    pub fn sync(self) -> (result: (ResourceConnection<'id, S, AwaitingReady, C>, Frame))
        ensures
            result.0.held() == self.held(),
            result.0.scope() == self.scope(),
            frontend_frame(FrontendView::Sync) == Ok::<_, ProtocolError>(result.1@),
    {
        let ResourceConnection { conn, resources } = self;
        let (conn, frame) = conn.push_sync();
        (ResourceConnection { conn, resources }, frame)
    }
}

impl<'id, S, C> ResourceConnection<'id, S, Ready, C> {
    /// Begins another extended-query cycle with the same resource namespace.
    #[must_use]
    pub fn begin_extended(self) -> (connection: ResourceConnection<'id, S, Building, C>)
        ensures
            connection.held() == self.held(),
            connection.scope() == self.scope(),
    {
        let ResourceConnection { conn, resources } = self;
        ResourceConnection { conn: conn.begin_extended(), resources }
    }

    /// Begins a simple query and invalidates the unnamed prepared statement.
    ///
    /// # Errors
    ///
    /// Returns an error if the query cannot be reconstructed on the wire.
    pub fn query(self, query: &[u8]) -> (result: StepResult<'id, S, SimpleQuery, Dirty>)
        ensures
            steps(
                result,
                self.held(),
                true,
                ResourceError::UnknownStatement,
                queried(self.scope()),
                FrontendView::Query(query@),
            ),
    {
        let ResourceConnection { conn, mut resources } = self;
        resources.simple_query_boundary();
        match conn.push_query(query) {
            Ok((conn, frame)) => Ok((ResourceConnection { conn, resources }, frame)),
            Err(error) => Err(ResourceProtocolError::Wire(error)),
        }
    }
}

/// Whether `ready` is what readiness evidence gives on a scope and transport. An
/// idle backend has ended its transaction.
pub open spec fn readies<'id, S, C>(
    ready: ResourceReadyState<'id, S, C>,
    scope: ScopeView,
    held: S,
    status: TransactionStatus,
    parameters_changed: bool,
) -> bool {
    let after = if status == TransactionStatus::Idle {
        ended(scope)
    } else {
        scope
    };
    match ready {
        ResourceReadyState::Clean(connection) => clean_evidence(status, parameters_changed)
            && connection.held() == held && connection.scope() == after,
        ResourceReadyState::Dirty { conn, status: reported, parameters_changed: changed } => {
            !clean_evidence(status, parameters_changed) && conn.held() == held && conn.scope()
                == after && reported == status && changed == parameters_changed
        },
    }
}

impl<'id, S, C> ResourceConnection<'id, S, AwaitingReady, C> {
    /// Consumes one backend response while retaining the branded namespace.
    #[must_use]
    pub fn offer(self, item: SessionItem) -> (transition: ResourceAwaitingTransition<'id, S, C>)
        ensures
            match item {
                SessionItem::ReadyForQuery { status, parameters_changed } => transition matches
                    ResourceAwaitingTransition::Ready(ready) && readies(
                    ready,
                    self.scope(),
                    self.held(),
                    status,
                    parameters_changed,
                ),
                SessionItem::Message(BackendMessage::ErrorResponse(diagnostic)) => transition
                    matches ResourceAwaitingTransition::Error(connection, error)
                    && connection.held() == self.held() && connection.scope() == self.scope()
                    && error == diagnostic,
                _ => transition matches ResourceAwaitingTransition::Continue(connection, returned)
                    && connection.held() == self.held() && connection.scope() == self.scope()
                    && returned == item,
            },
    {
        let ResourceConnection { conn, resources } = self;
        match conn.offer(item) {
            AwaitingReadyTransition::Continue(conn, item) => ResourceAwaitingTransition::Continue(
                ResourceConnection { conn, resources },
                item,
            ),
            AwaitingReadyTransition::Ready(ready) => ResourceAwaitingTransition::Ready(
                resource_ready(resources, ready),
            ),
            AwaitingReadyTransition::Error(conn, error) => ResourceAwaitingTransition::Error(
                ResourceConnection { conn, resources },
                error,
            ),
        }
    }
}

impl<'id, S, C> ResourceConnection<'id, S, Draining, C> {
    /// Drains one backend response after an error while retaining resources.
    #[must_use]
    pub fn offer(self, item: SessionItem) -> (transition: ResourceDrainingTransition<'id, S, C>)
        ensures
            match item {
                SessionItem::ReadyForQuery { status, parameters_changed } => transition matches
                    ResourceDrainingTransition::Ready(ready) && readies(
                    ready,
                    self.scope(),
                    self.held(),
                    status,
                    parameters_changed,
                ),
                _ => transition matches ResourceDrainingTransition::Continue(connection, returned)
                    && connection.held() == self.held() && connection.scope() == self.scope()
                    && returned == item,
            },
    {
        let ResourceConnection { conn, resources } = self;
        match conn.offer(item) {
            DrainingTransition::Continue(conn, item) => ResourceDrainingTransition::Continue(
                ResourceConnection { conn, resources },
                item,
            ),
            DrainingTransition::Ready(ready) => ResourceDrainingTransition::Ready(
                resource_ready(resources, ready),
            ),
        }
    }
}

fn resource_ready<'id, S, C>(resources: ResourceScope<'id>, ready: ReadyState<S, C>) -> (result:
    ResourceReadyState<'id, S, C>)
    ensures
        match (ready, result) {
            (ReadyState::Clean(conn), ResourceReadyState::Clean(connection)) => connection.held()
                == conn.held() && connection.scope() == ended(resources@),
            (
                ReadyState::Dirty { conn, status, parameters_changed },
                ResourceReadyState::Dirty {
                    conn: connection,
                    status: reported,
                    parameters_changed: changed,
                },
            ) => connection.held() == conn.held() && connection.scope() == (if status
                == TransactionStatus::Idle {
                ended(resources@)
            } else {
                resources@
            }) && reported == status && changed == parameters_changed,
            _ => false,
        },
{
    let mut resources = resources;
    match ready {
        ReadyState::Clean(conn) => {
            resources.transaction_ended();
            ResourceReadyState::Clean(ResourceConnection { conn, resources })
        },
        ReadyState::Dirty { conn, status, parameters_changed } => {
            match status {
                TransactionStatus::Idle => resources.transaction_ended(),
                _ => {},
            }
            ResourceReadyState::Dirty {
                conn: ResourceConnection { conn, resources },
                status,
                parameters_changed,
            }
        },
    }
}

/// Whether every live generation was issued before the next one, and every client
/// name stands for a generation that was.
pub open spec fn issued(scope: ScopeView) -> bool {
    &&& issued_names(scope.statements, scope.next_generation)
    &&& issued_names(scope.portals, scope.next_generation)
}

pub open spec fn issued_names(names: NamespaceView, next: u64) -> bool {
    &&& forall|name: Seq<u8>| #[trigger] names.live.dom().contains(name) ==> names.live[name] < next
    &&& forall|name: Seq<u8>| #[trigger]
        names.clients.dom().contains(name) ==> names.clients[name].1 < next
}

/// As long as the generation counter has not saturated, a token is distinguished
/// by its generation: every operation keeps all generations below the next one.
pub proof fn law_generations_are_fresh(
    scope: ScopeView,
    client: Seq<u8>,
    upstream: Seq<u8>,
    token: TokenView,
)
    requires
        issued(scope),
    ensures
        scope.next_generation < u64::MAX ==> issued(prepared(scope, client, upstream)) && issued(
            bound(scope, client, upstream),
        ),
        issued(statement_closed(scope, token)),
        issued(portal_closed(scope, token)),
        issued(queried(scope)),
        issued(ended(scope)),
        issued(fresh_scope()),
{
}

/// A prepared statement is live and resolves from its client name; every other
/// live statement with another upstream name stays live, and portals are untouched.
pub proof fn law_prepared_statement_resolves(
    scope: ScopeView,
    client: Seq<u8>,
    upstream: Seq<u8>,
    other: TokenView,
)
    ensures
        live(prepared(scope, client, upstream).statements, next_token(scope, client, upstream)),
        resolved(prepared(scope, client, upstream).statements, client) == Some(
            next_token(scope, client, upstream),
        ),
        other.upstream != upstream ==> (live(
            prepared(scope, client, upstream).statements,
            other,
        ) <==> live(scope.statements, other)),
        prepared(scope, client, upstream).portals == scope.portals,
{
}

/// A bound portal is live and resolves from its client name; every other live
/// portal with another upstream name stays live, and statements are untouched.
pub proof fn law_bound_portal_resolves(
    scope: ScopeView,
    client: Seq<u8>,
    upstream: Seq<u8>,
    other: TokenView,
)
    ensures
        live(bound(scope, client, upstream).portals, next_token(scope, client, upstream)),
        resolved(bound(scope, client, upstream).portals, client) == Some(
            next_token(scope, client, upstream),
        ),
        other.upstream != upstream ==> (live(bound(scope, client, upstream).portals, other)
            <==> live(scope.portals, other)),
        bound(scope, client, upstream).statements == scope.statements,
{
}

/// A new unnamed statement or portal replaces the previous one: tokens issued
/// before it are stale.
pub proof fn law_unnamed_resource_is_replaced(scope: ScopeView, client: Seq<u8>, earlier: TokenView)
    requires
        issued(scope),
        earlier.upstream == Seq::<u8>::empty(),
        earlier.generation < scope.next_generation,
    ensures
        !live(prepared(scope, client, Seq::empty()).statements, earlier),
        !live(bound(scope, client, Seq::empty()).portals, earlier),
{
}

/// Closing a token makes it stale and unresolvable, and leaves every resource with
/// another upstream name live.
pub proof fn law_closed_resource_is_stale(
    names: NamespaceView,
    token: TokenView,
    client: Seq<u8>,
    other: TokenView,
)
    ensures
        !live(without_resource(names, token), token),
        resolved(without_resource(names, token), client) matches Some(found) ==> (
        found.upstream != token.upstream || found.generation != token.generation),
        other.upstream != token.upstream ==> (live(without_resource(names, token), other) <==> live(
            names,
            other,
        )),
{
}

/// A simple query makes the unnamed statement stale and nothing else; the end of a
/// transaction makes the unnamed portal stale and nothing else.
pub proof fn law_boundaries_destroy_only_unnamed(scope: ScopeView, token: TokenView)
    ensures
        live(queried(scope).statements, token) <==> live(scope.statements, token)
            && token.upstream != Seq::<u8>::empty(),
        live(ended(scope).portals, token) <==> live(scope.portals, token) && token.upstream
            != Seq::<u8>::empty(),
        queried(scope).portals == scope.portals,
        ended(scope).statements == scope.statements,
{
}

/// A new statement or portal changes nothing for other client names, and a token stands
/// for the names it was made with.
pub proof fn law_other_names_keep_their_meaning(
    scope: ScopeView,
    client: Seq<u8>,
    upstream: Seq<u8>,
    other: Seq<u8>,
)
    requires
        other != client,
    ensures
        resolved(prepared(scope, client, upstream).statements, other) == resolved(
            scope.statements,
            other,
        ),
        resolved(bound(scope, client, upstream).portals, other) == resolved(scope.portals, other),
        next_token(scope, client, upstream).client == client,
        next_token(scope, client, upstream).upstream == upstream,
        scope.next_generation < u64::MAX ==> prepared(scope, client, upstream).next_generation
            == scope.next_generation + 1 && bound(scope, client, upstream).next_generation
            == scope.next_generation + 1,
{
}

/// Names collide if and only if one of them is not empty and in use on its side.
pub proof fn law_only_names_in_use_collide(names: NamespaceView, client: Seq<u8>, upstream: Seq<u8>)
    ensures
        collides(names, client, upstream) <==> (upstream != Seq::<u8>::empty() && exists|
            generation: u64,
        | #[trigger]
            live(names, TokenView { client, upstream, generation })) || (client
            != Seq::<u8>::empty() && resolved(names, client) is Some),
{
    if names.live.dom().contains(upstream) {
        assert(live(names, TokenView { client, upstream, generation: names.live[upstream] }));
    }
    assert(upstream.len() == 0 <==> upstream =~= Seq::<u8>::empty());
    assert(client.len() == 0 <==> client =~= Seq::<u8>::empty());
}

/// Closing a resource takes away the client names that stand for it and no others; the
/// end of an unnamed one takes away those that stand for an unnamed one.
pub proof fn law_names_go_with_their_resource(
    names: NamespaceView,
    token: TokenView,
    client: Seq<u8>,
)
    ensures
        resolved(without_resource(names, token), client) == match resolved(names, client) {
            Some(found) => if found.upstream == token.upstream && found.generation
                == token.generation {
                None
            } else {
                Some(found)
            },
            None => None,
        },
        resolved(without_unnamed(names), client) == match resolved(names, client) {
            Some(found) => if found.upstream == Seq::<u8>::empty() {
                None
            } else {
                Some(found)
            },
            None => None,
        },
{
}

/// A token is live while its upstream name stands for its generation.
pub proof fn law_live_tokens(names: NamespaceView, first: TokenView, second: TokenView)
    requires
        live(names, first),
        live(names, second),
        first.upstream == second.upstream,
    ensures
        first.generation == second.generation,
{
}

/// Closing a statement leaves portals alone, and closing a portal statements; neither
/// gives a generation back.
pub proof fn law_closing_keeps_the_other_kind(scope: ScopeView, token: TokenView)
    ensures
        statement_closed(scope, token).portals == scope.portals,
        portal_closed(scope, token).statements == scope.statements,
        !live(statement_closed(scope, token).statements, token),
        !live(portal_closed(scope, token).portals, token),
        statement_closed(scope, token).next_generation == scope.next_generation,
        portal_closed(scope, token).next_generation == scope.next_generation,
{
}

/// An idle backend has ended its transaction, and the unnamed portal with it; otherwise
/// readiness changes no name.
pub proof fn law_idle_readiness_ends_the_transaction<'id, S, C>(
    ready: ResourceReadyState<'id, S, C>,
    scope: ScopeView,
    held: S,
    status: TransactionStatus,
    parameters_changed: bool,
    portal: TokenView,
)
    requires
        readies(ready, scope, held, status, parameters_changed),
    ensures
        ({
            let after = match ready {
                ResourceReadyState::Clean(connection) => connection.scope(),
                ResourceReadyState::Dirty { conn, .. } => conn.scope(),
            };
            &&& after.statements == scope.statements
            &&& status != TransactionStatus::Idle ==> after == scope
            &&& status == TransactionStatus::Idle ==> (live(after.portals, portal) <==> live(
                scope.portals,
                portal,
            ) && portal.upstream != Seq::<u8>::empty())
        }),
        ready is Clean <==> status == TransactionStatus::Idle && !parameters_changed,
{
}

/// A statement is prepared if and only if no name collides and the message can be
/// written; a collision is told first.
pub proof fn law_preparation<'id, S, P>(
    result: PrepareResult<'id, S, P>,
    scope: ScopeView,
    held: S,
    client: Seq<u8>,
    message: ParseView,
)
    requires
        prepares(result, scope, held, client, message),
    ensures
        result is Ok <==> !collides(scope.statements, client, message.statement) && frontend_frame(
            FrontendView::Parse(message),
        ) is Ok,
        result matches Ok((connection, statement, frame)) ==> {
            &&& live(connection.scope().statements, statement@)
            &&& resolved(connection.scope().statements, client) == Some(statement@)
            &&& statement@.upstream == message.statement
            &&& connection.scope().portals == scope.portals
            &&& connection.held() == held
            &&& frontend_frame(FrontendView::Parse(message)) == Ok::<_, ProtocolError>(frame@)
        },
        collides(scope.statements, client, message.statement) <==> result matches Err(
            ResourceProtocolError::Resource(_),
        ),
{
}

/// A portal is bound if and only if the statement is live, no name collides and the
/// message can be written; a stale statement is told first.
pub proof fn law_binding<'id, S>(
    result: BindResult<'id, S>,
    scope: ScopeView,
    held: S,
    statement: TokenView,
    client: Seq<u8>,
    message: BindView,
)
    requires
        binds(result, scope, held, statement, client, message),
    ensures
        result is Ok <==> live(scope.statements, statement) && !collides(
            scope.portals,
            client,
            message.portal,
        ) && frontend_frame(FrontendView::Bind(message)) is Ok,
        result matches Ok((connection, portal, frame)) ==> {
            &&& live(connection.scope().portals, portal@)
            &&& resolved(connection.scope().portals, client) == Some(portal@)
            &&& portal@.upstream == message.portal
            &&& connection.scope().statements == scope.statements
            &&& connection.held() == held
        },
        !live(scope.statements, statement) ==> result matches Err(
            ResourceProtocolError::Resource(ResourceError::UnknownStatement),
        ),
        live(scope.statements, statement) && collides(scope.portals, client, message.portal)
            ==> result matches Err(
            ResourceProtocolError::Resource(ResourceError::PortalNameCollision),
        ),
{
}

/// A step with a token is taken if and only if the token is live and the message can be
/// written.
pub proof fn law_token_steps<'id, S, P, C>(
    result: StepResult<'id, S, P, C>,
    held: S,
    is_live: bool,
    stale: ResourceError,
    after: ScopeView,
    message: FrontendView,
)
    requires
        steps(result, held, is_live, stale, after, message),
    ensures
        result is Ok <==> is_live && frontend_frame(message) is Ok,
        result matches Ok((connection, frame)) ==> connection.scope() == after && connection.held()
            == held && frontend_frame(message) == Ok::<_, ProtocolError>(frame@),
        !is_live <==> result == Err::<
            (ResourceConnection<'id, S, P, C>, crate::codec::Frame),
            _,
        >(ResourceProtocolError::Resource(stale)),
{
}

/// A statement that a scope prepares is the one its client name means from then on, and
/// is parsed upstream under its upstream name. A name in use is refused without a change.
pub proof fn law_scopes_prepare<'id>(
    scope: &mut ResourceScope<'id>,
    client_name: Bytes,
    upstream_name: Bytes,
    query: Bytes,
    parameter_types: Vec<u32>,
    result: Result<(PreparedStatement<'id>, Parse), ResourceError>,
)
    requires
        call_ensures(
            ResourceScope::<'id>::prepare,
            (scope, client_name, upstream_name, query, parameter_types),
            result,
        ),
    ensures
        result matches Ok((statement, message)) ==> {
            &&& statement@.client == octets(client_name)
            &&& statement@.upstream == octets(upstream_name)
            &&& resolved(final(scope)@.statements, octets(client_name)) == Some(statement@)
            &&& live(final(scope)@.statements, statement@)
            &&& final(scope)@.portals == old(scope)@.portals
            &&& message@.statement == octets(upstream_name)
            &&& message@.query == octets(query)
            &&& message@.parameter_types == parameter_types@
        },
        result matches Err(error) ==> final(scope)@ == old(scope)@ && error
            == ResourceError::StatementNameCollision,
{
    if result is Ok {
        law_prepared_statement_resolves(
            scope@,
            octets(client_name),
            octets(upstream_name),
            result->Ok_0.0@,
        );
    }
}

/// A portal that a scope binds is the one its client name means from then on, and is
/// bound upstream to its statement under their upstream names.
pub proof fn law_scopes_bind<'id>(
    scope: &mut ResourceScope<'id>,
    statement: &PreparedStatement<'id>,
    client_name: Bytes,
    upstream_name: Bytes,
    parameter_formats: Vec<i16>,
    parameters: Vec<Option<Bytes>>,
    result_formats: Vec<i16>,
    result: Result<(Portal<'id>, Bind), ResourceError>,
)
    requires
        call_ensures(
            ResourceScope::<'id>::bind,
            (
                scope,
                statement,
                client_name,
                upstream_name,
                parameter_formats,
                parameters,
                result_formats,
            ),
            result,
        ),
    ensures
        result matches Ok((portal, message)) ==> {
            &&& live(old(scope)@.statements, statement@)
            &&& portal@.client == octets(client_name)
            &&& portal@.upstream == octets(upstream_name)
            &&& resolved(final(scope)@.portals, octets(client_name)) == Some(portal@)
            &&& live(final(scope)@.portals, portal@)
            &&& final(scope)@.statements == old(scope)@.statements
            &&& message@.portal == octets(upstream_name)
            &&& message@.statement == statement@.upstream
            &&& message@.parameter_formats == parameter_formats@
            &&& message@.result_formats == result_formats@
        },
        result is Err ==> final(scope)@ == old(scope)@,
        !live(old(scope)@.statements, statement@) <==> result == Err::<(Portal<'id>, Bind), _>(
            ResourceError::UnknownStatement,
        ),
{
    if result is Ok {
        law_bound_portal_resolves(
            scope@,
            octets(client_name),
            octets(upstream_name),
            result->Ok_0.0@,
        );
    }
}

/// Upstream, a resource is described, executed and closed under its upstream name and as
/// what it is.
pub proof fn law_resources_are_named_upstream<'id>(
    statement: &PreparedStatement<'id>,
    described: Describe,
    portal: &Portal<'id>,
    shown: Describe,
    max_rows: i32,
    executed: Execute,
)
    requires
        call_ensures(PreparedStatement::<'id>::describe, (statement,), described),
        call_ensures(Portal::<'id>::describe, (portal,), shown),
        call_ensures(Portal::<'id>::execute, (portal, max_rows), executed),
    ensures
        described@.target == DescribeTarget::Statement && described@.name == statement@.upstream,
        shown@.target == DescribeTarget::Portal && shown@.name == portal@.upstream,
        executed@.portal == portal@.upstream && executed@.max_rows == max_rows,
{
}

/// A token of a resource that is no longer live closes nothing; a live one closes its own
/// resource and no other.
pub proof fn law_scopes_close<'id>(
    scope: &mut ResourceScope<'id>,
    statement: PreparedStatement<'id>,
    result: Result<Close, ResourceError>,
)
    requires
        call_ensures(ResourceScope::<'id>::close_statement, (scope, statement), result),
    ensures
        result is Ok <==> live(old(scope)@.statements, statement@),
        result matches Ok(message) ==> message@.target == DescribeTarget::Statement && message@.name
            == statement@.upstream && !live(final(scope)@.statements, statement@),
        final(scope)@.portals == old(scope)@.portals,
        result is Err ==> final(scope)@ == old(scope)@,
{
}

} // verus!
