//! Session-external cancellation-key translation for proxies.

use vstd::prelude::*;

use crate::demux::{CancelKey, CancelKeyView};
use crate::octet_map::same;
use crate::octets::as_slice;

verus! {

/// Shortest secret that a cancellation request can carry.
pub const MIN_SECRET_LENGTH: usize = 4;

/// Longest secret that a cancellation request can carry.
pub const MAX_SECRET_LENGTH: usize = 256;

/// Application policy for minting client-facing cancellation keys.
///
/// Implementations may use cryptographic randomness, an external allocator, or
/// another process-specific strategy. The protocol library does not prescribe
/// key lifecycle or storage.
pub trait CancelKeyMint {
    type Error;

    /// Mints a key to expose in client-facing `BackendKeyData`.
    ///
    /// # Errors
    ///
    /// Returns an implementation-defined allocation or entropy error.
    fn mint_cancel_key(&mut self) -> Result<CancelKey, Self::Error>;
}

/// Application-owned translation policy for out-of-band cancellation keys.
///
/// A proxy can implement this over local memory, shared storage, or routing
/// metadata. [`CancelKeyMap`] is deliberately only a small reference
/// implementation.
pub trait CancelKeyRegistry {
    type Error;

    /// Observes the association between a client-facing and upstream key.
    ///
    /// # Errors
    ///
    /// Returns an implementation-defined validation, collision, or storage
    /// error.
    fn register_cancel_key(&mut self, client: CancelKey, upstream: CancelKey) -> Result<
        (),
        Self::Error,
    >;

    /// Resolves an incoming client cancellation request without borrowing the
    /// registry, so the result can safely cross an asynchronous boundary.
    fn resolve_cancel_key(&self, client: &CancelKey) -> Option<CancelKey>;

    /// Removes an association when either side of a session is detached.
    fn remove_cancel_key(&mut self, client: &CancelKey) -> Option<CancelKey>;
}

/// An out-of-band request to cancel what a session is doing.
#[derive(Clone, PartialEq, Eq)]
pub struct CancellationRequest {
    key: CancelKey,
}

impl View for CancellationRequest {
    type V = CancelKeyView;

    closed spec fn view(&self) -> CancelKeyView {
        self.key@
    }
}

impl CancellationRequest {
    pub fn new(key: CancelKey) -> (request: Self)
        ensures
            request@ == key@,
    {
        CancellationRequest { key }
    }

    /// Process identifier that the client presented.
    pub fn process_id(&self) -> (process_id: u32)
        ensures
            process_id == self@.process_id,
    {
        self.key.process_id
    }

    /// Secret that the client presented.
    pub fn secret_key(&self) -> (secret_key: &[u8])
        ensures
            secret_key@ == self@.secret_key,
    {
        as_slice(&self.key.secret_key)
    }

    /// The presented key.
    pub fn into_key(self) -> (key: CancelKey)
        ensures
            key@ == self@,
    {
        self.key
    }
}

/// Client-facing cancellation keys mapped to their current upstream keys.
pub struct CancelKeyMap {
    mappings: Vec<(CancelKey, CancelKey)>,
}

#[derive(Clone, Copy, Debug, PartialEq, Eq, Structural)]
pub enum RegisterError {
    InvalidClientKeyLength(usize),
    InvalidUpstreamKeyLength(usize),
    ClientKeyCollision,
}

/// Client keys in order of registration.
spec fn clients(mappings: Seq<(CancelKey, CancelKey)>) -> Seq<CancelKeyView> {
    Seq::new(mappings.len(), |at: int| mappings[at].0@)
}

spec fn upstreams(mappings: Seq<(CancelKey, CancelKey)>) -> Map<CancelKeyView, CancelKeyView> {
    Map::new(
        |client: CancelKeyView| clients(mappings).contains(client),
        |client: CancelKeyView| mappings[clients(mappings).index_of(client)].1@,
    )
}

impl View for CancelKeyMap {
    type V = Map<CancelKeyView, CancelKeyView>;

    closed spec fn view(&self) -> Map<CancelKeyView, CancelKeyView> {
        upstreams(self.mappings@)
    }
}

/// Whether a key can be carried by a cancellation request.
pub open spec fn encodable(key: CancelKeyView) -> bool {
    MIN_SECRET_LENGTH <= key.secret_key.len() <= MAX_SECRET_LENGTH
}

/// Whether every key of a translation can be carried by a cancellation request.
pub open spec fn all_encodable(keys: Map<CancelKeyView, CancelKeyView>) -> bool {
    forall|client: CancelKeyView| #[trigger]
        keys.dom().contains(client) ==> encodable(client) && encodable(keys[client])
}

/// Whether registering answers `result` and turns `before` into `after`.
pub open spec fn registers(
    before: Map<CancelKeyView, CancelKeyView>,
    client: CancelKeyView,
    upstream: CancelKeyView,
    result: Result<(), RegisterError>,
    after: Map<CancelKeyView, CancelKeyView>,
) -> bool {
    match result {
        Ok(_) => encodable(client) && encodable(upstream) && !before.dom().contains(client) && after
            == before.insert(client, upstream),
        Err(RegisterError::InvalidClientKeyLength(length)) => !encodable(client) && length
            == client.secret_key.len() && after == before,
        Err(RegisterError::InvalidUpstreamKeyLength(length)) => encodable(client) && !encodable(
            upstream,
        ) && length == upstream.secret_key.len() && after == before,
        Err(RegisterError::ClientKeyCollision) => encodable(client) && encodable(upstream)
            && before.dom().contains(client) && after == before,
    }
}

/// Upstream key of a client key, if it is registered.
pub open spec fn resolved(keys: Map<CancelKeyView, CancelKeyView>, client: CancelKeyView) -> Option<
    CancelKeyView,
> {
    if keys.dom().contains(client) {
        Some(keys[client])
    } else {
        None
    }
}

/// What an optional key holds.
pub open spec fn key_view(key: Option<CancelKey>) -> Option<CancelKeyView> {
    match key {
        Some(key) => Some(key@),
        None => None,
    }
}

impl CancelKeyMap {
    #[verifier::type_invariant]
    spec fn sound(&self) -> bool {
        clients(self.mappings@).no_duplicates()
    }

    #[must_use]
    pub fn new() -> (map: Self)
        ensures
            map@ == Map::<CancelKeyView, CancelKeyView>::empty(),
    {
        let map = CancelKeyMap { mappings: Vec::new() };
        assert(map@ =~= Map::<CancelKeyView, CancelKeyView>::empty());
        map
    }

    #[verifier::loop_isolation(false)]
    fn position(&self, process_id: u32, secret_key: &[u8]) -> (position: Option<usize>)
        ensures
            match position {
                Some(at) => at < self.mappings@.len() && self.mappings@[at as int].0@ == (
                CancelKeyView { process_id, secret_key: secret_key@ }),
                None => !clients(self.mappings@).contains(
                    CancelKeyView { process_id, secret_key: secret_key@ },
                ),
            },
    {
        let ghost wanted = CancelKeyView { process_id, secret_key: secret_key@ };
        let mut at: usize = 0;
        while at < self.mappings.len()
            invariant
                at <= self.mappings@.len(),
                forall|before: int|
                    0 <= before < at ==> (#[trigger] clients(self.mappings@)[before]) != wanted,
            decreases self.mappings@.len() - at,
        {
            let key = &self.mappings[at].0;
            if key.process_id == process_id && same(as_slice(&key.secret_key), secret_key) {
                return Some(at);
            }
            at = at + 1;
        }
        None
    }

    /// Registers one proxy-minted client key for an attached upstream session.
    ///
    /// # Errors
    ///
    /// Rejects keys outside the protocol's 4–256 byte range and client-key
    /// collisions. Existing mappings are never silently replaced.
    pub fn register(&mut self, client: CancelKey, upstream: CancelKey) -> (result: Result<
        (),
        RegisterError,
    >)
        ensures
            registers(old(self)@, client@, upstream@, result, final(self)@),
    {
        proof {
            use_type_invariant(&*self);
        }
        let length: usize = as_slice(&client.secret_key).len();
        if length < MIN_SECRET_LENGTH || length > MAX_SECRET_LENGTH {
            return Err(RegisterError::InvalidClientKeyLength(length));
        }
        let length: usize = as_slice(&upstream.secret_key).len();
        if length < MIN_SECRET_LENGTH || length > MAX_SECRET_LENGTH {
            return Err(RegisterError::InvalidUpstreamKeyLength(length));
        }
        match self.position(client.process_id, as_slice(&client.secret_key)) {
            Some(at) => {
                proof {
                    assert(clients(self.mappings@)[at as int] == client@);
                }
                return Err(RegisterError::ClientKeyCollision);
            },
            None => {},
        }
        let ghost before = self.mappings@;
        let mut mappings: Vec<(CancelKey, CancelKey)> = Vec::new();
        std::mem::swap(&mut mappings, &mut self.mappings);
        mappings.push((client, upstream));
        proof {
            lemma_push(before, (client, upstream));
        }
        *self = CancelKeyMap { mappings };
        Ok(())
    }

    /// Resolves an inspected client `CancelRequest` to its upstream key.
    #[must_use]
    pub fn resolve(&self, process_id: u32, secret_key: &[u8]) -> (upstream: Option<&CancelKey>)
        ensures
            match upstream {
                Some(upstream) => resolved(
                    self@,
                    CancelKeyView { process_id, secret_key: secret_key@ },
                ) == Some(upstream@),
                None => resolved(self@, CancelKeyView { process_id, secret_key: secret_key@ })
                    is None,
            },
    {
        proof {
            use_type_invariant(self);
        }
        match self.position(process_id, secret_key) {
            Some(at) => {
                proof {
                    lemma_found(self.mappings@, at as int);
                }
                Some(&self.mappings[at].1)
            },
            None => None,
        }
    }

    /// Detaches a client key when its upstream session is released or replaced.
    pub fn remove(&mut self, client: &CancelKey) -> (upstream: Option<CancelKey>)
        ensures
            key_view(upstream) == resolved(old(self)@, client@),
            final(self)@ == old(self)@.remove(client@),
    {
        proof {
            use_type_invariant(&*self);
        }
        match self.position(client.process_id, as_slice(&client.secret_key)) {
            Some(at) => {
                let ghost before = self.mappings@;
                let mut mappings: Vec<(CancelKey, CancelKey)> = Vec::new();
                std::mem::swap(&mut mappings, &mut self.mappings);
                let (_, upstream) = mappings.remove(at);
                proof {
                    lemma_found(before, at as int);
                    lemma_remove(before, at as int);
                }
                *self = CancelKeyMap { mappings };
                Some(upstream)
            },
            None => {
                assert(self@ =~= self@.remove(client@));
                None
            },
        }
    }

    #[must_use]
    pub fn len(&self) -> (length: usize)
        ensures
            self@.dom().finite(),
            length == self@.dom().len(),
    {
        proof {
            use_type_invariant(self);
            clients(self.mappings@).unique_seq_to_set();
            assert(self@.dom() =~= clients(self.mappings@).to_set());
        }
        self.mappings.len()
    }

    #[must_use]
    pub fn is_empty(&self) -> (empty: bool)
        ensures
            empty == (self@ == Map::<CancelKeyView, CancelKeyView>::empty()),
    {
        proof {
            if self.mappings@.len() == 0 {
                assert(self@ =~= Map::<CancelKeyView, CancelKeyView>::empty());
            } else {
                assert(clients(self.mappings@)[0] == self.mappings@[0].0@);
                assert(self@.dom().contains(self.mappings@[0].0@));
            }
        }
        self.mappings.len() == 0
    }
}

impl Default for CancelKeyMap {
    fn default() -> (map: Self)
        ensures
            map@ == Map::<CancelKeyView, CancelKeyView>::empty(),
    {
        CancelKeyMap::new()
    }
}

impl CancelKeyRegistry for CancelKeyMap {
    type Error = RegisterError;

    fn register_cancel_key(&mut self, client: CancelKey, upstream: CancelKey) -> (result: Result<
        (),
        RegisterError,
    >)
        ensures
            registers(old(self)@, client@, upstream@, result, final(self)@),
    {
        self.register(client, upstream)
    }

    fn resolve_cancel_key(&self, client: &CancelKey) -> (upstream: Option<CancelKey>)
        ensures
            key_view(upstream) == resolved(self@, client@),
    {
        match self.resolve(client.process_id, as_slice(&client.secret_key)) {
            Some(upstream) => Some(upstream.duplicate()),
            None => None,
        }
    }

    fn remove_cancel_key(&mut self, client: &CancelKey) -> (upstream: Option<CancelKey>)
        ensures
            key_view(upstream) == resolved(old(self)@, client@),
            final(self)@ == old(self)@.remove(client@),
    {
        self.remove(client)
    }
}

proof fn lemma_found(mappings: Seq<(CancelKey, CancelKey)>, at: int)
    requires
        clients(mappings).no_duplicates(),
        0 <= at < mappings.len(),
    ensures
        resolved(upstreams(mappings), mappings[at].0@) == Some(mappings[at].1@),
{
    let client = mappings[at].0@;
    assert(clients(mappings)[at] == client);
    assert(clients(mappings).contains(client));
    assert(clients(mappings).index_of(client) == at);
}

proof fn lemma_push(mappings: Seq<(CancelKey, CancelKey)>, mapping: (CancelKey, CancelKey))
    requires
        clients(mappings).no_duplicates(),
        !clients(mappings).contains(mapping.0@),
    ensures
        clients(mappings.push(mapping)).no_duplicates(),
        upstreams(mappings.push(mapping)) == upstreams(mappings).insert(mapping.0@, mapping.1@),
{
    let more = mappings.push(mapping);
    assert(clients(more) =~= clients(mappings).push(mapping.0@));
    assert forall|client: CancelKeyView|
        upstreams(more).dom().contains(client) <==> upstreams(mappings).insert(
            mapping.0@,
            mapping.1@,
        ).dom().contains(client) by {
        if clients(mappings).contains(client) {
            let at = clients(mappings).index_of(client);
            assert(clients(more)[at] == client);
        }
        assert(clients(more)[mappings.len() as int] == mapping.0@);
        if clients(more).contains(client) && client != mapping.0@ {
            let at = clients(more).index_of(client);
            assert(clients(mappings)[at] == client);
        }
    }
    assert forall|client: CancelKeyView| #[trigger]
        upstreams(more).dom().contains(client) implies upstreams(more)[client] == upstreams(
        mappings,
    ).insert(mapping.0@, mapping.1@)[client] by {
        let at = clients(more).index_of(client);
        lemma_found(more, at);
        if client != mapping.0@ {
            assert(clients(mappings)[at] == client);
            lemma_found(mappings, at);
        }
    }
    assert(upstreams(more) =~= upstreams(mappings).insert(mapping.0@, mapping.1@));
}

proof fn lemma_remove(mappings: Seq<(CancelKey, CancelKey)>, at: int)
    requires
        clients(mappings).no_duplicates(),
        0 <= at < mappings.len(),
    ensures
        clients(mappings.remove(at)).no_duplicates(),
        upstreams(mappings.remove(at)) == upstreams(mappings).remove(mappings[at].0@),
{
    let fewer = mappings.remove(at);
    assert(clients(fewer) =~= clients(mappings).remove(at));
    assert forall|client: CancelKeyView|
        upstreams(fewer).dom().contains(client) <==> upstreams(mappings).remove(
            mappings[at].0@,
        ).dom().contains(client) by {
        if clients(fewer).contains(client) {
            let i = clients(fewer).index_of(client);
            let j = if i < at {
                i
            } else {
                i + 1
            };
            assert(clients(mappings)[j] == client);
            assert(clients(mappings)[at] == mappings[at].0@);
        }
        if clients(mappings).contains(client) && client != mappings[at].0@ {
            let j = clients(mappings).index_of(client);
            let i = if j < at {
                j
            } else {
                j - 1
            };
            assert(clients(fewer)[i] == client);
        }
    }
    assert forall|client: CancelKeyView| #[trigger]
        upstreams(fewer).dom().contains(client) implies upstreams(fewer)[client] == upstreams(
        mappings,
    ).remove(mappings[at].0@)[client] by {
        let i = clients(fewer).index_of(client);
        lemma_found(fewer, i);
        lemma_found(
            mappings,
            if i < at {
                i
            } else {
                i + 1
            },
        );
    }
    assert(upstreams(fewer) =~= upstreams(mappings).remove(mappings[at].0@));
}

/// Registration keeps every association that is already there, and every key of
/// the translation encodable.
pub proof fn law_registration_never_replaces(
    before: Map<CancelKeyView, CancelKeyView>,
    client: CancelKeyView,
    upstream: CancelKeyView,
    result: Result<(), RegisterError>,
    after: Map<CancelKeyView, CancelKeyView>,
)
    requires
        registers(before, client, upstream, result, after),
    ensures
        forall|known: CancelKeyView| #[trigger]
            before.dom().contains(known) ==> resolved(after, known) == Some(before[known]),
        all_encodable(before) ==> all_encodable(after),
        result is Ok ==> resolved(after, client) == Some(upstream),
{
}

/// A registered key resolves until it is removed, and removing it restores the
/// translation.
pub proof fn law_removal_undoes_registration(
    before: Map<CancelKeyView, CancelKeyView>,
    client: CancelKeyView,
    upstream: CancelKeyView,
    after: Map<CancelKeyView, CancelKeyView>,
)
    requires
        registers(before, client, upstream, Ok(()), after),
    ensures
        resolved(after, client) == Some(upstream),
        after.remove(client) == before,
        resolved(after.remove(client), client) is None,
{
    assert(after.remove(client) =~= before);
}

/// A key can be registered, and is, if and only if both keys have 4 to 256 octets and
/// the client's is not known yet; otherwise nothing changes, and the client's key is
/// looked at before the upstream's.
pub proof fn law_registration_is_owed(
    before: Map<CancelKeyView, CancelKeyView>,
    client: CancelKeyView,
    upstream: CancelKeyView,
    result: Result<(), RegisterError>,
    after: Map<CancelKeyView, CancelKeyView>,
)
    requires
        registers(before, client, upstream, result, after),
    ensures
        ({
            let ours = 4 <= client.secret_key.len() <= 256;
            let theirs = 4 <= upstream.secret_key.len() <= 256;
            &&& result is Ok <==> ours && theirs && !before.dom().contains(client)
            &&& result is Ok ==> after == before.insert(client, upstream)
            &&& result is Err ==> after == before
            &&& !ours <==> result matches Err(RegisterError::InvalidClientKeyLength(_))
        }),
        4 <= client.secret_key.len() <= 256 && !(4 <= upstream.secret_key.len() <= 256)
            <==> result matches Err(RegisterError::InvalidUpstreamKeyLength(_)),
        result matches Err(RegisterError::InvalidClientKeyLength(length)) ==> length
            == client.secret_key.len(),
        result matches Err(RegisterError::InvalidUpstreamKeyLength(length)) ==> length
            == upstream.secret_key.len(),
{
}

/// A registered key is found, and found no more once it is removed; every other key
/// resolves as it did.
pub proof fn law_maps_translate_keys(
    map: &mut CancelKeyMap,
    client: CancelKey,
    upstream: CancelKey,
    result: Result<(), RegisterError>,
    other: CancelKeyView,
)
    requires
        call_ensures(CancelKeyMap::register, (map, client, upstream), result),
    ensures
        result is Ok ==> resolved(final(map)@, client@) == Some(upstream@),
        result is Err ==> final(map)@ == old(map)@,
        other != client@ ==> resolved(final(map)@, other) == resolved(old(map)@, other),
        old(map)@.dom().contains(client@) ==> resolved(final(map)@, client@) == Some(
            old(map)@[client@],
        ),
{
}

} // verus!
