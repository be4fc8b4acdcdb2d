//! Maps keyed by octet strings, kept in lexicographic key order.

use bytes::Bytes;
use vstd::prelude::*;

use crate::octets::{as_slice, octets};

verus! {

/// How one octet string compares with another, octet by octet.
#[derive(Clone, Copy, Debug, PartialEq, Eq, Structural)]
pub enum Relation {
    Before,
    Same,
    After,
}

/// `first` comes before `second` in lexicographic order.
pub open spec fn precedes(first: Seq<u8>, second: Seq<u8>) -> bool
    decreases first.len(),
{
    if second.len() == 0 {
        false
    } else if first.len() == 0 {
        true
    } else if first[0] == second[0] {
        precedes(first.skip(1), second.skip(1))
    } else {
        first[0] < second[0]
    }
}

proof fn lemma_irreflexive(text: Seq<u8>)
    ensures
        !precedes(text, text),
    decreases text.len(),
{
    if text.len() > 0 {
        lemma_irreflexive(text.skip(1));
    }
}

proof fn lemma_transitive(first: Seq<u8>, second: Seq<u8>, third: Seq<u8>)
    requires
        precedes(first, second),
        precedes(second, third),
    ensures
        precedes(first, third),
    decreases first.len(),
{
    if first.len() > 0 && second.len() > 0 && third.len() > 0 {
        if first[0] == second[0] && second[0] == third[0] {
            lemma_transitive(first.skip(1), second.skip(1), third.skip(1));
        }
    }
}

proof fn lemma_common_prefix(first: Seq<u8>, second: Seq<u8>, length: int)
    requires
        0 <= length <= first.len(),
        length <= second.len(),
        forall|i: int| 0 <= i < length ==> first[i] == second[i],
    ensures
        precedes(first, second) == precedes(first.skip(length), second.skip(length)),
    decreases length,
{
    if length > 0 {
        lemma_common_prefix(first.skip(1), second.skip(1), length - 1);
        assert(first.skip(1).skip(length - 1) =~= first.skip(length));
        assert(second.skip(1).skip(length - 1) =~= second.skip(length));
    } else {
        assert(first.skip(0) =~= first);
        assert(second.skip(0) =~= second);
    }
}

/// Compares two octet strings.
pub(crate) fn relate(first: &[u8], second: &[u8]) -> (relation: Relation)
    ensures
        match relation {
            Relation::Before => precedes(first@, second@) && first@ != second@,
            Relation::Same => first@ == second@,
            Relation::After => precedes(second@, first@) && first@ != second@,
        },
{
    let mut at: usize = 0;
    while at < first.len() && at < second.len()
        invariant
            at <= first@.len(),
            at <= second@.len(),
            forall|i: int| 0 <= i < at ==> first@[i] == second@[i],
        decreases first@.len() - at,
    {
        if first[at] != second[at] {
            proof {
                lemma_common_prefix(first@, second@, at as int);
                lemma_common_prefix(second@, first@, at as int);
                assert(first@.skip(at as int)[0] == first@[at as int]);
                assert(second@.skip(at as int)[0] == second@[at as int]);
            }
            if first[at] < second[at] {
                return Relation::Before;
            }
            return Relation::After;
        }
        at = at + 1;
    }
    proof {
        lemma_common_prefix(first@, second@, at as int);
        lemma_common_prefix(second@, first@, at as int);
    }
    if at < second.len() {
        Relation::Before
    } else if at < first.len() {
        Relation::After
    } else {
        assert(first@ =~= second@);
        Relation::Same
    }
}

/// Whether two octet strings hold the same octets.
pub(crate) fn same(first: &[u8], second: &[u8]) -> (result: bool)
    ensures
        result == (first@ == second@),
{
    match relate(first, second) {
        Relation::Same => true,
        _ => false,
    }
}

/// A map keyed by octet strings.
#[derive(Debug, PartialEq, Eq)]
pub struct OctetMap<V> {
    entries: Vec<(Bytes, V)>,
}

/// The key of entry `at`.
spec fn key<V>(entries: Seq<(Bytes, V)>, at: int) -> Seq<u8> {
    octets(entries[at].0)
}

/// Keys come in strictly ascending order, so that none occurs twice.
spec fn ascending<V>(entries: Seq<(Bytes, V)>) -> bool {
    forall|i: int, j: int| 0 <= i < j < entries.len() ==> precedes(#[trigger] key(entries, i), #[trigger] key(entries, j))
}

spec fn occurs<V>(entries: Seq<(Bytes, V)>, wanted: Seq<u8>) -> bool {
    exists|i: int| 0 <= i < entries.len() && #[trigger] key(entries, i) == wanted
}

spec fn place<V>(entries: Seq<(Bytes, V)>, wanted: Seq<u8>) -> int {
    choose|i: int| 0 <= i < entries.len() && #[trigger] key(entries, i) == wanted
}

spec fn mapping<V>(entries: Seq<(Bytes, V)>) -> Map<Seq<u8>, V> {
    Map::new(
        |wanted: Seq<u8>| occurs(entries, wanted),
        |wanted: Seq<u8>| entries[place(entries, wanted)].1,
    )
}

proof fn lemma_place<V>(entries: Seq<(Bytes, V)>, at: int)
    requires
        ascending(entries),
        0 <= at < entries.len(),
    ensures
        occurs(entries, key(entries, at)),
        place(entries, key(entries, at)) == at,
        mapping(entries).dom().contains(key(entries, at)),
        mapping(entries)[key(entries, at)] == entries[at].1,
{
    let wanted = key(entries, at);
    let found = place(entries, wanted);
    lemma_irreflexive(wanted);
    if found < at {
        assert(precedes(key(entries, found), key(entries, at)));
    } else if at < found {
        assert(precedes(key(entries, at), key(entries, found)));
    }
}

proof fn lemma_absent<V>(entries: Seq<(Bytes, V)>, at: int, wanted: Seq<u8>)
    requires
        ascending(entries),
        0 <= at <= entries.len(),
        forall|i: int| 0 <= i < at ==> precedes(#[trigger] key(entries, i), wanted),
        at < entries.len() ==> precedes(wanted, key(entries, at)),
    ensures
        !occurs(entries, wanted),
        forall|i: int| at <= i < entries.len() ==> precedes(wanted, #[trigger] key(entries, i)),
{
    assert forall|i: int| at <= i < entries.len() implies precedes(
        wanted,
        #[trigger] key(entries, i),
    ) by {
        if at < i {
            assert(precedes(key(entries, at), key(entries, i)));
            lemma_transitive(wanted, key(entries, at), key(entries, i));
        }
    }
    if occurs(entries, wanted) {
        let found = place(entries, wanted);
        lemma_irreflexive(wanted);
        if found < at {
            assert(precedes(key(entries, found), wanted));
        } else {
            assert(precedes(wanted, key(entries, found)));
        }
    }
}

impl<V> View for OctetMap<V> {
    type V = Map<Seq<u8>, V>;

    closed spec fn view(&self) -> Map<Seq<u8>, V> {
        mapping(self.entries@)
    }
}

impl<V> OctetMap<V> {
    #[verifier::type_invariant]
    spec fn well_formed(self) -> bool {
        ascending(self.entries@)
    }

    /// The entries in key order.
    pub closed spec fn listed(self) -> Seq<(Seq<u8>, V)> {
        Seq::new(self.entries@.len(), |i: int| (octets(self.entries@[i].0), self.entries@[i].1))
    }

    /// An empty map.
    pub fn new() -> (map: Self)
        ensures
            map@ == Map::<Seq<u8>, V>::empty(),
            map.listed() == Seq::<(Seq<u8>, V)>::empty(),
    {
        let map = OctetMap { entries: Vec::new() };
        assert(map@ =~= Map::<Seq<u8>, V>::empty());
        assert(map.listed() =~= Seq::<(Seq<u8>, V)>::empty());
        map
    }

    /// Number of entries. The listing holds each key of the map, in ascending order.
    pub fn len(&self) -> (length: usize)
        ensures
            length == self.listed().len(),
            length == self@.dom().len(),
            self@.dom().finite(),
            forall|i: int, j: int|
                0 <= i < j < self.listed().len() ==> precedes(
                    (#[trigger] self.listed()[i]).0,
                    (#[trigger] self.listed()[j]).0,
                ),
            forall|wanted: Seq<u8>| #[trigger]
                self@.dom().contains(wanted) ==> exists|i: int|
                    0 <= i < self.listed().len() && (#[trigger] self.listed()[i]).0 == wanted,
    {
        proof {
            use_type_invariant(self);
            lemma_size(self.entries@);
            assert forall|i: int, j: int| 0 <= i < j < self.listed().len() implies precedes(
                (#[trigger] self.listed()[i]).0,
                (#[trigger] self.listed()[j]).0,
            ) by {
                assert(precedes(key(self.entries@, i), key(self.entries@, j)));
            }
            assert forall|wanted: Seq<u8>| #[trigger] self@.dom().contains(wanted) implies exists|
                i: int,
            |
                0 <= i < self.listed().len() && (#[trigger] self.listed()[i]).0 == wanted by {
                let i = place(self.entries@, wanted);
                assert(self.listed()[i].0 == wanted);
            }
        }
        self.entries.len()
    }

    /// Whether there is no entry.
    pub fn is_empty(&self) -> (empty: bool)
        ensures
            empty == (self@ == Map::<Seq<u8>, V>::empty()),
    {
        proof {
            use_type_invariant(self);
            if self.entries@.len() > 0 {
                lemma_place(self.entries@, 0);
                assert(self@.dom().contains(key(self.entries@, 0)));
            } else {
                assert(self@ =~= Map::<Seq<u8>, V>::empty());
            }
        }
        self.entries.len() == 0
    }

    /// The first entry whose key is not before `wanted`.
    fn search(&self, wanted: &[u8]) -> (found: (usize, bool))
        ensures
            0 <= found.0 <= self.entries@.len(),
            forall|i: int| 0 <= i < found.0 ==> precedes(#[trigger] key(self.entries@, i), wanted@),
            found.1 ==> found.0 < self.entries@.len() && key(self.entries@, found.0 as int)
                == wanted@,
            !found.1 ==> !occurs(self.entries@, wanted@) && forall|i: int|
                found.0 <= i < self.entries@.len() ==> precedes(
                    wanted@,
                    #[trigger] key(self.entries@, i),
                ),
    {
        proof {
            use_type_invariant(self);
        }
        let mut at: usize = 0;
        while at < self.entries.len()
            invariant
                ascending(self.entries@),
                at <= self.entries@.len(),
                forall|i: int| 0 <= i < at ==> precedes(#[trigger] key(self.entries@, i), wanted@),
            decreases self.entries@.len() - at,
        {
            match relate(as_slice(&self.entries[at].0), wanted) {
                Relation::Before => {
                    assert(precedes(key(self.entries@, at as int), wanted@));
                    at = at + 1;
                },
                Relation::Same => {
                    assert(key(self.entries@, at as int) == wanted@);
                    return (at, true);
                },
                Relation::After => {
                    proof {
                        lemma_absent(self.entries@, at as int, wanted@);
                    }
                    return (at, false);
                },
            }
        }
        proof {
            lemma_absent(self.entries@, at as int, wanted@);
        }
        (at, false)
    }

    /// The value of a key.
    pub fn get(&self, wanted: &[u8]) -> (value: Option<&V>)
        ensures
            match value {
                Some(value) => self@.dom().contains(wanted@) && self@[wanted@] == *value,
                None => !self@.dom().contains(wanted@),
            },
    {
        let (at, found) = self.search(wanted);
        if found {
            proof {
                use_type_invariant(self);
                lemma_place(self.entries@, at as int);
            }
            Some(&self.entries[at].1)
        } else {
            None
        }
    }

    /// Whether a key has a value.
    pub fn contains_key(&self, wanted: &[u8]) -> (found: bool)
        ensures
            found == self@.dom().contains(wanted@),
    {
        self.get(wanted).is_some()
    }

    /// Gives a key a value, and returns the value it had.
    pub fn insert(&mut self, name: Bytes, value: V) -> (previous: Option<V>)
        ensures
            final(self)@ == old(self)@.insert(octets(name), value),
            match previous {
                Some(previous) => old(self)@.dom().contains(octets(name)) && old(
                    self,
                )@[octets(name)] == previous,
                None => !old(self)@.dom().contains(octets(name)),
            },
    {
        let (at, found) = self.search(as_slice(&name));
        proof {
            use_type_invariant(&*self);
        }
        let ghost before = self.entries@;
        let ghost wanted = octets(name);
        let mut entries: Vec<(Bytes, V)> = Vec::new();
        std::mem::swap(&mut entries, &mut self.entries);
        let mut previous: Option<V> = None;
        if found {
            proof {
                lemma_place(before, at as int);
            }
            let (_, replaced) = entries.remove(at);
            previous = Some(replaced);
        }
        let ghost without = entries@;
        assert(without == if found { before.remove(at as int) } else { before });
        entries.insert(at, (name, value));
        proof {
            lemma_inserted(before, entries@, at as int, found, name, value);
        }
        *self = OctetMap { entries };
        previous
    }

    /// Removes a key, and returns the value it had.
    pub fn remove(&mut self, wanted: &[u8]) -> (previous: Option<V>)
        ensures
            final(self)@ == old(self)@.remove(wanted@),
            match previous {
                Some(previous) => old(self)@.dom().contains(wanted@) && old(self)@[wanted@]
                    == previous,
                None => !old(self)@.dom().contains(wanted@),
            },
    {
        let (at, found) = self.search(wanted);
        proof {
            use_type_invariant(&*self);
        }
        if !found {
            assert(self@.remove(wanted@) =~= self@);
            return None;
        }
        let ghost before = self.entries@;
        proof {
            lemma_place(before, at as int);
        }
        let mut entries: Vec<(Bytes, V)> = Vec::new();
        std::mem::swap(&mut entries, &mut self.entries);
        let (_, removed) = entries.remove(at);
        proof {
            lemma_removed(before, entries@, at as int);
        }
        *self = OctetMap { entries };
        Some(removed)
    }

    /// The key of the entry at a position in key order.
    pub fn key_at(&self, at: usize) -> (name: &Bytes)
        requires
            at < self.listed().len(),
        ensures
            octets(*name) == self.listed()[at as int].0,
            self@.dom().contains(octets(*name)),
            self@[octets(*name)] == self.listed()[at as int].1,
    {
        proof {
            use_type_invariant(self);
            lemma_place(self.entries@, at as int);
        }
        &self.entries[at].0
    }

    /// The value of the entry at a position in key order.
    pub fn value_at(&self, at: usize) -> (value: &V)
        requires
            at < self.listed().len(),
        ensures
            *value == self.listed()[at as int].1,
    {
        &self.entries[at].1
    }
}

impl<V: Clone> Clone for OctetMap<V> {
    /// The same keys with clones of their values.
    fn clone(&self) -> (copy: Self)
        ensures
            copy@.dom() == self@.dom(),
            copy.listed().len() == self.listed().len(),
            forall|i: int|
                0 <= i < self.listed().len() ==> (#[trigger] copy.listed()[i]).0
                    == self.listed()[i].0 && cloned(self.listed()[i].1, copy.listed()[i].1),
            forall|name: Seq<u8>| #[trigger]
                self@.dom().contains(name) ==> cloned(self@[name], copy@[name]),
    {
        proof {
            use_type_invariant(self);
        }
        let mut entries: Vec<(Bytes, V)> = Vec::new();
        let mut at: usize = 0;
        while at < self.entries.len()
            invariant
                at <= self.entries@.len(),
                entries@.len() == at,
                forall|i: int|
                    0 <= i < at ==> #[trigger] key(entries@, i) == key(self.entries@, i) && cloned(
                        self.entries@[i].1,
                        entries@[i].1,
                    ),
            decreases self.entries@.len() - at,
        {
            let ghost before = entries@;
            entries.push((self.entries[at].0.clone(), self.entries[at].1.clone()));
            assert forall|i: int| 0 <= i < at + 1 implies #[trigger] key(entries@, i) == key(
                self.entries@,
                i,
            ) && cloned(self.entries@[i].1, entries@[i].1) by {
                if i < at {
                    assert(key(before, i) == key(self.entries@, i));
                    assert(entries@[i] == before[i]);
                }
            }
            at = at + 1;
        }
        proof {
            assert forall|i: int, j: int| 0 <= i < j < entries@.len() implies precedes(
                #[trigger] key(entries@, i),
                #[trigger] key(entries@, j),
            ) by {
                assert(precedes(key(self.entries@, i), key(self.entries@, j)));
            }
            assert forall|name: Seq<u8>| occurs(entries@, name) == occurs(
                self.entries@,
                name,
            ) by {
                if occurs(entries@, name) {
                    let i = place(entries@, name);
                    assert(key(entries@, i) == name);
                    assert(key(self.entries@, i) == name);
                }
                if occurs(self.entries@, name) {
                    let i = place(self.entries@, name);
                    assert(key(self.entries@, i) == name);
                    assert(key(entries@, i) == name);
                }
            }
            assert forall|name: Seq<u8>| occurs(self.entries@, name) implies cloned(
                mapping(self.entries@)[name],
                mapping(entries@)[name],
            ) by {
                let i = place(self.entries@, name);
                assert(key(entries@, i) == key(self.entries@, i));
                lemma_place(self.entries@, i);
                lemma_place(entries@, i);
            }
            assert(mapping(entries@).dom() =~= mapping(self.entries@).dom());
        }
        let copy = OctetMap { entries };
        assert forall|i: int| 0 <= i < self.listed().len() implies (#[trigger] copy.listed()[i]).0
            == self.listed()[i].0 && cloned(self.listed()[i].1, copy.listed()[i].1) by {
            assert(key(copy.entries@, i) == key(self.entries@, i));
        }
        copy
    }
}

/// The octets of each value.
pub open spec fn text_map(map: Map<Seq<u8>, Bytes>) -> Map<Seq<u8>, Seq<u8>> {
    Map::new(|name: Seq<u8>| map.dom().contains(name), |name: Seq<u8>| octets(map[name]))
}

/// The octets of each listed key and value.
pub open spec fn text_list(list: Seq<(Seq<u8>, Bytes)>) -> Seq<(Seq<u8>, Seq<u8>)> {
    Seq::new(list.len(), |i: int| (list[i].0, octets(list[i].1)))
}

impl OctetMap<Bytes> {
    /// Whether both maps give the same keys the same octets.
    pub fn same_texts(&self, other: &OctetMap<Bytes>) -> (result: bool)
        ensures
            result == (text_map(self@) == text_map(other@)),
    {
        proof {
            use_type_invariant(self);
            use_type_invariant(other);
        }
        if self.entries.len() != other.entries.len() {
            proof {
                lemma_size(self.entries@);
                lemma_size(other.entries@);
                assert(text_map(self@).dom() =~= self@.dom());
                assert(text_map(other@).dom() =~= other@.dom());
            }
            return false;
        }
        let mut at: usize = 0;
        while at < self.entries.len()
            invariant
                ascending(self.entries@),
                ascending(other.entries@),
                self.entries@.len() == other.entries@.len(),
                at <= self.entries@.len(),
                forall|i: int|
                    0 <= i < at ==> #[trigger] other@.dom().contains(key(self.entries@, i)) && octets(
                        other@[key(self.entries@, i)],
                    ) == octets(self.entries@[i].1),
            decreases self.entries@.len() - at,
        {
            let (name, value) = &self.entries[at];
            proof {
                lemma_place(self.entries@, at as int);
                assert(text_map(self@).dom().contains(octets(*name)));
            }
            match other.get(as_slice(name)) {
                None => {
                    assert(!text_map(other@).dom().contains(octets(*name)));
                    return false;
                },
                Some(found) => {
                    if !same(as_slice(value), as_slice(found)) {
                        assert(text_map(self@)[octets(*name)] != text_map(other@)[octets(*name)]);
                        return false;
                    }
                },
            }
            at = at + 1;
        }
        proof {
            lemma_size(self.entries@);
            lemma_size(other.entries@);
            assert forall|name: Seq<u8>| self@.dom().contains(name) implies other@.dom().contains(
                name,
            ) && octets(other@[name]) == octets(self@[name]) by {
                let i = place(self.entries@, name);
                lemma_place(self.entries@, i);
                assert(other@.dom().contains(key(self.entries@, i)));
            }
            vstd::set_lib::lemma_subset_equality(self@.dom(), other@.dom());
            assert(text_map(self@) =~= text_map(other@));
        }
        true
    }
}

proof fn lemma_size<V>(entries: Seq<(Bytes, V)>)
    requires
        ascending(entries),
    ensures
        mapping(entries).dom().finite(),
        mapping(entries).dom().len() == entries.len(),
    decreases entries.len(),
{
    if entries.len() == 0 {
        assert(mapping(entries).dom() =~= Set::empty());
    } else {
        let front = entries.drop_last();
        let last = entries.len() - 1;
        assert forall|i: int, j: int| 0 <= i < j < front.len() implies precedes(
            #[trigger] key(front, i),
            #[trigger] key(front, j),
        ) by {
            assert(precedes(key(entries, i), key(entries, j)));
        }
        lemma_size(front);
        lemma_place(entries, last);
        assert(!occurs(front, key(entries, last))) by {
            if occurs(front, key(entries, last)) {
                let found = place(front, key(entries, last));
                assert(precedes(key(entries, found), key(entries, last)));
                lemma_irreflexive(key(entries, last));
                assert(key(front, found) == key(entries, found));
            }
        }
        assert(mapping(entries).dom() =~= mapping(front).dom().insert(key(entries, last))) by {
            assert forall|wanted: Seq<u8>| occurs(entries, wanted) == (occurs(front, wanted)
                || wanted == key(entries, last)) by {
                if occurs(entries, wanted) {
                    let found = place(entries, wanted);
                    if found < last {
                        assert(key(front, found) == wanted);
                    }
                }
                if occurs(front, wanted) {
                    let found = place(front, wanted);
                    assert(key(entries, found) == wanted);
                }
            }
        }
    }
}

proof fn lemma_removed<V>(before: Seq<(Bytes, V)>, after: Seq<(Bytes, V)>, at: int)
    requires
        ascending(before),
        0 <= at < before.len(),
        after == before.remove(at),
    ensures
        ascending(after),
        mapping(after) == mapping(before).remove(key(before, at)),
{
    let wanted = key(before, at);
    assert forall|i: int| 0 <= i < after.len() implies #[trigger] key(after, i) == key(
        before,
        if i < at { i } else { i + 1 },
    ) by {}
    assert forall|i: int, j: int| 0 <= i < j < after.len() implies precedes(
        #[trigger] key(after, i),
        #[trigger] key(after, j),
    ) by {
        let p = if i < at { i } else { i + 1 };
        let q = if j < at { j } else { j + 1 };
        assert(precedes(key(before, p), key(before, q)));
    }
    assert forall|other: Seq<u8>| occurs(after, other) == (occurs(before, other) && other
        != wanted) by {
        if occurs(after, other) {
            let i = place(after, other);
            let p = if i < at { i } else { i + 1 };
            assert(key(before, p) == other);
            lemma_irreflexive(wanted);
            if p < at {
                assert(precedes(key(before, p), key(before, at)));
            } else {
                assert(precedes(key(before, at), key(before, p)));
            }
        }
        if occurs(before, other) && other != wanted {
            let p = place(before, other);
            let i = if p < at { p } else { p - 1 };
            assert(key(after, i) == other);
        }
    }
    assert forall|other: Seq<u8>| occurs(after, other) implies mapping(after)[other] == mapping(
        before,
    )[other] by {
        let i = place(after, other);
        let p = if i < at { i } else { i + 1 };
        lemma_place(after, i);
        lemma_place(before, p);
    }
    assert(mapping(after) =~= mapping(before).remove(wanted));
}

proof fn lemma_inserted<V>(
    before: Seq<(Bytes, V)>,
    after: Seq<(Bytes, V)>,
    at: int,
    found: bool,
    name: Bytes,
    value: V,
)
    requires
        ascending(before),
        0 <= at <= before.len(),
        forall|i: int| 0 <= i < at ==> precedes(#[trigger] key(before, i), octets(name)),
        found ==> at < before.len() && key(before, at) == octets(name),
        !found ==> !occurs(before, octets(name)) && forall|i: int|
            at <= i < before.len() ==> precedes(octets(name), #[trigger] key(before, i)),
        after == (if found {
            before.remove(at)
        } else {
            before
        }).insert(at, (name, value)),
    ensures
        ascending(after),
        mapping(after) == mapping(before).insert(octets(name), value),
{
    let wanted = octets(name);
    let shift: int = if found { 0 } else { 1 };
    assert forall|i: int| 0 <= i < after.len() implies #[trigger] key(after, i) == (if i == at {
        wanted
    } else {
        key(
            before,
            if i < at { i } else { i - shift },
        )
    }) by {}
    assert forall|i: int, j: int| 0 <= i < j < after.len() implies precedes(
        #[trigger] key(after, i),
        #[trigger] key(after, j),
    ) by {
        let p = if i < at { i } else { i - shift };
        let q = if j < at { j } else { j - shift };
        if i == at {
            if found {
                assert(precedes(key(before, at), key(before, q)));
            } else {
                assert(precedes(wanted, key(before, q)));
            }
        } else if j == at {
            assert(precedes(key(before, p), wanted));
        } else {
            assert(precedes(key(before, p), key(before, q)));
        }
    }
    lemma_place(after, at);
    assert forall|other: Seq<u8>| other != wanted implies occurs(after, other) == occurs(
        before,
        other,
    ) by {
        if occurs(after, other) {
            let i = place(after, other);
            let p = if i < at { i } else { i - shift };
            assert(key(before, p) == other);
        }
        if occurs(before, other) {
            let p = place(before, other);
            let i = if p < at { p } else { p + shift };
            assert(key(after, i) == other);
        }
    }
    assert forall|other: Seq<u8>| other != wanted && occurs(after, other) implies mapping(
        after,
    )[other] == mapping(before)[other] by {
        let i = place(after, other);
        let p = if i < at { i } else { i - shift };
        lemma_place(after, i);
        lemma_place(before, p);
    }
    assert(mapping(after) =~= mapping(before).insert(wanted, value));
}

/// The order of keys: the first octet in which two differ decides, and a key comes
/// before those that it begins.
pub proof fn law_keys_are_ordered_by_octets(first: Seq<u8>, second: Seq<u8>, at: int)
    requires
        0 <= at <= first.len(),
        at <= second.len(),
        forall|i: int| 0 <= i < at ==> first[i] == second[i],
    ensures
        at < first.len() && at < second.len() && first[at] < second[at] ==> precedes(first, second)
            && !precedes(second, first),
        at == first.len() ==> (precedes(first, second) <==> at < second.len()),
        at == first.len() ==> !precedes(second, first),
{
    lemma_common_prefix(first, second, at);
    lemma_common_prefix(second, first, at);
    if at < first.len() {
        assert(first.skip(at)[0] == first[at]);
    }
    if at < second.len() {
        assert(second.skip(at)[0] == second[at]);
    }
}

} // verus!
