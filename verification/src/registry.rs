//! The client registry: which identities are registered, and since when.
//!
//! The registry is a map from identity to record. It is kept as a vector of
//! records in ascending order of identity, so that the list of identities it
//! hands out depends on nothing but which identities are registered.

use vstd::prelude::*;
use crate::text::{
    compare,
    lemma_str_lt_asymmetric,
    lemma_str_lt_irreflexive,
    lemma_str_lt_total,
    lemma_str_lt_transitive,
    str_lt,
    Order,
};
use crate::time::Timestamp;

verus! {

/// The state of a client's connection.
#[derive(Clone, Copy, Debug, PartialEq, Eq, Structural)]
pub enum ConnectionState {
    ACTIVE,
}

/// What the registry knows of one client.
#[derive(Debug, PartialEq, Eq)]
pub struct ClientRecord {
    pub identity: String,
    pub state: ConnectionState,
    pub registered_at: Timestamp,
}

/// View of a `ClientRecord`.
pub struct ClientRecordView {
    pub identity: Seq<char>,
    pub state: ConnectionState,
    pub registered_at: Seq<char>,
}

impl View for ClientRecord {
    type V = ClientRecordView;

    open spec fn view(&self) -> ClientRecordView {
        ClientRecordView {
            identity: self.identity@,
            state: self.state,
            registered_at: self.registered_at@,
        }
    }
}

impl Clone for ClientRecord {
    fn clone(&self) -> (copy: Self)
        ensures
            copy@ == self@,
    {
        ClientRecord {
            identity: self.identity.clone(),
            state: self.state,
            registered_at: self.registered_at.clone(),
        }
    }
}

/// The record that registration at time `now` makes for `identity`.
pub open spec fn fresh_record(identity: Seq<char>, now: Seq<char>) -> ClientRecordView {
    ClientRecordView { identity, state: ConnectionState::ACTIVE, registered_at: now }
}

/// Why a registry operation was refused.
#[derive(Clone, Copy, Debug, PartialEq, Eq, Structural)]
pub enum RegistryError {
    AlreadyRegistered,
    NotRegistered,
}

/// The identities come in strictly ascending order.
pub open spec fn ascending(ids: Seq<Seq<char>>) -> bool {
    forall|i: int, j: int| 0 <= i < j < ids.len() ==> str_lt(#[trigger] ids[i], #[trigger] ids[j])
}

/// `ids` lists the members of `members`: each of them once, in ascending
/// order, and nothing else.
pub open spec fn lists(ids: Seq<Seq<char>>, members: Set<Seq<char>>) -> bool {
    &&& ascending(ids)
    &&& forall|id: Seq<char>| members.contains(id) <==> ids.contains(id)
}

/// A set of identities has at most one list: the list that the registry
/// hands out is determined by which identities are registered.
pub proof fn lemma_list_unique(a: Seq<Seq<char>>, b: Seq<Seq<char>>, members: Set<Seq<char>>)
    requires
        lists(a, members),
        lists(b, members),
    ensures
        a == b,
    decreases a.len(),
{
    if a.len() == 0 {
        if b.len() > 0 {
            assert(b.contains(b[0]));
            assert(a.contains(b[0]));
        }
        assert(a =~= b);
    } else if b.len() == 0 {
        assert(a.contains(a[0]));
        assert(b.contains(a[0]));
    } else {
        // Both heads are the least member.
        assert(a.contains(a[0]));
        assert(b.contains(b[0]));
        assert(b.contains(a[0]));
        assert(a.contains(b[0]));
        let i = choose|i: int| 0 <= i < b.len() && b[i] == a[0];
        let j = choose|j: int| 0 <= j < a.len() && a[j] == b[0];
        if i > 0 {
            assert(str_lt(b[0], b[i]));
            if j > 0 {
                assert(str_lt(a[0], a[j]));
                lemma_str_lt_asymmetric(a[0], b[0]);
            } else {
                lemma_str_lt_irreflexive(a[0]);
            }
        }
        assert(a[0] == b[0]);
        let ra = a.drop_first();
        let rb = b.drop_first();
        let rest = members.remove(a[0]);
        assert forall|id: Seq<char>| rest.contains(id) <==> ra.contains(id) by {
            if ra.contains(id) {
                let k = choose|k: int| 0 <= k < ra.len() && ra[k] == id;
                assert(a[k + 1] == id);
                assert(a.contains(id));
                assert(str_lt(a[0], a[k + 1]));
                lemma_str_lt_asymmetric(a[0], id);
            }
            if rest.contains(id) {
                assert(a.contains(id));
                let k = choose|k: int| 0 <= k < a.len() && a[k] == id;
                assert(ra[k - 1] == id);
            }
        }
        assert forall|id: Seq<char>| rest.contains(id) <==> rb.contains(id) by {
            if rb.contains(id) {
                let k = choose|k: int| 0 <= k < rb.len() && rb[k] == id;
                assert(b[k + 1] == id);
                assert(b.contains(id));
                assert(str_lt(b[0], b[k + 1]));
                lemma_str_lt_asymmetric(b[0], id);
            }
            if rest.contains(id) {
                assert(b.contains(id));
                let k = choose|k: int| 0 <= k < b.len() && b[k] == id;
                assert(rb[k - 1] == id);
            }
        }
        assert(ascending(ra)) by {
            assert forall|x: int, y: int| 0 <= x < y < ra.len() implies str_lt(
                #[trigger] ra[x],
                #[trigger] ra[y],
            ) by {
                assert(str_lt(a[x + 1], a[y + 1]));
            }
        }
        assert(ascending(rb)) by {
            assert forall|x: int, y: int| 0 <= x < y < rb.len() implies str_lt(
                #[trigger] rb[x],
                #[trigger] rb[y],
            ) by {
                assert(str_lt(b[x + 1], b[y + 1]));
            }
        }
        lemma_list_unique(ra, rb, rest);
        assert(a =~= seq![a[0]] + ra);
        assert(b =~= seq![b[0]] + rb);
    }
}

/// The list of the members of a finite set of identities.
pub open spec fn listing(members: Set<Seq<char>>) -> Seq<Seq<char>> {
    choose|ids: Seq<Seq<char>>| lists(ids, members)
}

/// Where `id` goes in an ascending list that does not hold it: the index
/// before which everything comes before `id`, and from which on everything
/// comes after it.
proof fn lemma_place(ids: Seq<Seq<char>>, id: Seq<char>) -> (p: int)
    requires
        ascending(ids),
        !ids.contains(id),
    ensures
        0 <= p <= ids.len(),
        forall|i: int| 0 <= i < p ==> str_lt(#[trigger] ids[i], id),
        forall|i: int| p <= i < ids.len() ==> str_lt(id, #[trigger] ids[i]),
    decreases ids.len(),
{
    if ids.len() == 0 {
        0
    } else {
        let n = ids.len() - 1;
        let last = ids[n];
        assert(ids.contains(last));
        lemma_str_lt_total(last, id);
        if str_lt(last, id) {
            assert forall|i: int| 0 <= i < ids.len() implies str_lt(#[trigger] ids[i], id) by {
                if i < n {
                    assert(str_lt(ids[i], ids[n]));
                    lemma_str_lt_transitive(ids[i], last, id);
                }
            }
            ids.len() as int
        } else {
            let front = ids.drop_last();
            assert(ascending(front)) by {
                assert forall|x: int, y: int| 0 <= x < y < front.len() implies str_lt(
                    #[trigger] front[x],
                    #[trigger] front[y],
                ) by {
                    assert(str_lt(ids[x], ids[y]));
                }
            }
            assert(!front.contains(id)) by {
                if front.contains(id) {
                    let k = choose|k: int| 0 <= k < front.len() && front[k] == id;
                    assert(ids[k] == id);
                }
            }
            let p = lemma_place(front, id);
            assert forall|i: int| 0 <= i < p implies str_lt(#[trigger] ids[i], id) by {
                assert(front[i] == ids[i]);
            }
            assert forall|i: int| p <= i < ids.len() implies str_lt(id, #[trigger] ids[i]) by {
                if i < n {
                    assert(front[i] == ids[i]);
                }
            }
            p
        }
    }
}

/// Every finite set of identities has a list, and `listing` is it.
pub proof fn lemma_finite_set_listed(members: Set<Seq<char>>)
    requires
        members.finite(),
    ensures
        lists(listing(members), members),
        listing(members).len() == members.len(),
    decreases members.len(),
{
    if members.len() == 0 {
        members.lemma_len0_is_empty();
        let none = Seq::<Seq<char>>::empty();
        assert(lists(none, members));
        lemma_list_unique(none, listing(members), members);
    } else {
        let id = members.choose();
        let rest = members.remove(id);
        lemma_finite_set_listed(rest);
        let ids = listing(rest);
        assert(!ids.contains(id));
        let p = lemma_place(ids, id);
        let all = ids.insert(p, id);
        assert(ascending(all)) by {
            assert forall|i: int, j: int| 0 <= i < j < all.len() implies str_lt(
                #[trigger] all[i],
                #[trigger] all[j],
            ) by {
                if j < p {
                    assert(str_lt(ids[i], ids[j]));
                } else if j == p {
                    assert(str_lt(ids[i], id));
                } else if i < p {
                    assert(str_lt(ids[i], ids[j - 1]));
                } else if i == p {
                    assert(str_lt(id, ids[j - 1]));
                } else {
                    assert(str_lt(ids[i - 1], ids[j - 1]));
                }
            }
        }
        assert forall|x: Seq<char>| members.contains(x) <==> all.contains(x) by {
            if members.contains(x) {
                if x == id {
                    assert(all[p] == x);
                } else {
                    assert(rest.contains(x));
                    let k = choose|k: int| 0 <= k < ids.len() && ids[k] == x;
                    if k < p {
                        assert(all[k] == x);
                    } else {
                        assert(all[k + 1] == x);
                    }
                }
            }
            if all.contains(x) {
                let k = choose|k: int| 0 <= k < all.len() && all[k] == x;
                if k < p {
                    assert(ids[k] == x);
                    assert(ids.contains(x));
                } else if k > p {
                    assert(ids[k - 1] == x);
                    assert(ids.contains(x));
                }
            }
        }
        assert(lists(all, members));
        lemma_list_unique(all, listing(members), members);
    }
}

/// The identities of a sequence of records.
pub open spec fn identities(entries: Seq<ClientRecordView>) -> Seq<Seq<char>> {
    Seq::new(entries.len(), |i: int| entries[i].identity)
}

/// `entries` holds a record for `id` at index `i`.
pub open spec fn holds_at(entries: Seq<ClientRecordView>, id: Seq<char>, i: int) -> bool {
    0 <= i < entries.len() && entries[i].identity == id
}

/// The map that a sequence of records stands for.
pub open spec fn map_of(entries: Seq<ClientRecordView>) -> Map<Seq<char>, ClientRecordView> {
    Map::new(
        |id: Seq<char>| exists|i: int| holds_at(entries, id, i),
        |id: Seq<char>| entries[choose|i: int| holds_at(entries, id, i)],
    )
}

proof fn lemma_index_unique(entries: Seq<ClientRecordView>, i: int, j: int)
    requires
        ascending(identities(entries)),
        0 <= i < entries.len(),
        0 <= j < entries.len(),
        entries[i].identity == entries[j].identity,
    ensures
        i == j,
{
    let ids = identities(entries);
    if i < j {
        assert(str_lt(ids[i], ids[j]));
        lemma_str_lt_irreflexive(ids[i]);
    } else if j < i {
        assert(str_lt(ids[j], ids[i]));
        lemma_str_lt_irreflexive(ids[j]);
    }
}

proof fn lemma_map_at(entries: Seq<ClientRecordView>, i: int)
    requires
        ascending(identities(entries)),
        0 <= i < entries.len(),
    ensures
        map_of(entries).dom().contains(entries[i].identity),
        map_of(entries)[entries[i].identity] == entries[i],
{
    let id = entries[i].identity;
    assert(holds_at(entries, id, i));
    let c = choose|c: int| holds_at(entries, id, c);
    lemma_index_unique(entries, i, c);
}

proof fn lemma_map_insert(entries: Seq<ClientRecordView>, p: int, record: ClientRecordView)
    requires
        0 <= p <= entries.len(),
        ascending(identities(entries)),
        ascending(identities(entries.insert(p, record))),
    ensures
        map_of(entries.insert(p, record)) == map_of(entries).insert(record.identity, record),
{
    let after = entries.insert(p, record);
    let lhs = map_of(after);
    let rhs = map_of(entries).insert(record.identity, record);
    assert forall|id: Seq<char>| lhs.dom().contains(id) <==> rhs.dom().contains(id) by {
        if lhs.dom().contains(id) {
            let i = choose|i: int| holds_at(after, id, i);
            if i < p {
                assert(holds_at(entries, id, i));
            } else if i > p {
                assert(holds_at(entries, id, i - 1));
            }
        }
        if rhs.dom().contains(id) {
            if id == record.identity {
                assert(holds_at(after, id, p));
            } else {
                let i = choose|i: int| holds_at(entries, id, i);
                if i < p {
                    assert(holds_at(after, id, i));
                } else {
                    assert(holds_at(after, id, i + 1));
                }
            }
        }
    }
    assert forall|id: Seq<char>| lhs.dom().contains(id) implies lhs[id] == rhs[id] by {
        let i = choose|i: int| holds_at(after, id, i);
        lemma_map_at(after, i);
        if i != p {
            if id == record.identity {
                lemma_index_unique(after, i, p);
            }
            if i < p {
                lemma_map_at(entries, i);
            } else {
                lemma_map_at(entries, i - 1);
            }
        }
    }
    assert(lhs =~= rhs);
}

proof fn lemma_map_remove(entries: Seq<ClientRecordView>, p: int)
    requires
        0 <= p < entries.len(),
        ascending(identities(entries)),
    ensures
        ascending(identities(entries.remove(p))),
        map_of(entries.remove(p)) == map_of(entries).remove(entries[p].identity),
{
    let after = entries.remove(p);
    let ids = identities(entries);
    let ids_after = identities(after);
    assert forall|i: int, j: int| 0 <= i < j < ids_after.len() implies str_lt(
        #[trigger] ids_after[i],
        #[trigger] ids_after[j],
    ) by {
        let x = if i < p {
            i
        } else {
            i + 1
        };
        let y = if j < p {
            j
        } else {
            j + 1
        };
        assert(str_lt(ids[x], ids[y]));
    }
    let gone = entries[p].identity;
    let lhs = map_of(after);
    let rhs = map_of(entries).remove(gone);
    assert forall|id: Seq<char>| lhs.dom().contains(id) <==> rhs.dom().contains(id) by {
        if lhs.dom().contains(id) {
            let i = choose|i: int| holds_at(after, id, i);
            let x = if i < p {
                i
            } else {
                i + 1
            };
            assert(holds_at(entries, id, x));
            if id == gone {
                lemma_index_unique(entries, x, p);
            }
        }
        if rhs.dom().contains(id) {
            let i = choose|i: int| holds_at(entries, id, i);
            if i < p {
                assert(holds_at(after, id, i));
            } else {
                assert(holds_at(after, id, i - 1));
            }
        }
    }
    assert forall|id: Seq<char>| lhs.dom().contains(id) implies lhs[id] == rhs[id] by {
        let i = choose|i: int| holds_at(after, id, i);
        lemma_map_at(after, i);
        let x = if i < p {
            i
        } else {
            i + 1
        };
        lemma_map_at(entries, x);
    }
    assert(lhs =~= rhs);
}

/// The views of a sequence of records.
pub open spec fn entries_of(records: Seq<ClientRecord>) -> Seq<ClientRecordView> {
    Seq::new(records.len(), |i: int| records[i]@)
}

/// The registered clients, by identity.
pub struct Registry {
    records: Vec<ClientRecord>,
}

impl View for Registry {
    type V = Map<Seq<char>, ClientRecordView>;

    closed spec fn view(&self) -> Map<Seq<char>, ClientRecordView> {
        map_of(self.entries())
    }
}

impl Registry {
    /// The records in the order in which they are kept.
    pub closed spec fn entries(&self) -> Seq<ClientRecordView> {
        entries_of(self.records@)
    }

    /// The records are kept in ascending order of identity, so no identity
    /// occurs twice.
    #[verifier::type_invariant]
    closed spec fn ordered(&self) -> bool {
        ascending(identities(self.entries()))
    }

    /// An empty registry.
    pub fn new() -> (registry: Registry)
        ensures
            registry@ == Map::<Seq<char>, ClientRecordView>::empty(),
    {
        let registry = Registry { records: Vec::new() };
        assert(registry@ =~= Map::<Seq<char>, ClientRecordView>::empty());
        registry
    }

    /// The number of registered clients.
    pub fn len(&self) -> (n: usize)
        ensures
            n == self@.dom().len(),
            self@.dom().finite(),
    {
        proof {
            use_type_invariant(self);
            self.lemma_domain_size();
        }
        self.records.len()
    }

    proof fn lemma_domain_size(&self)
        requires
            self.ordered(),
        ensures
            self@.dom().finite(),
            self@.dom().len() == self.records@.len(),
    {
        lemma_domain_of(self.entries());
    }

    /// Where `identity` is, or where it would go: the index of the first
    /// record that does not come before it, and whether that record is its
    /// own.
    fn locate(&self, identity: &str) -> (r: (usize, bool))
        ensures
            r.0 <= self.entries().len(),
            forall|i: int| 0 <= i < r.0 ==> str_lt(self.entries()[i].identity, identity@),
            r.1 ==> r.0 < self.entries().len() && self.entries()[r.0 as int].identity == identity@,
            !r.1 ==> forall|i: int|
                r.0 <= i < self.entries().len() ==> str_lt(identity@, self.entries()[i].identity),
            r.1 == self@.dom().contains(identity@),
    {
        proof {
            use_type_invariant(self);
        }
        let mut i: usize = 0;
        while i < self.records.len()
            invariant
                self.ordered(),
                i <= self.records@.len(),
                self.entries().len() == self.records@.len(),
                forall|k: int| 0 <= k < i ==> str_lt(self.entries()[k].identity, identity@),
            decreases self.records@.len() - i,
        {
            match compare(self.records[i].identity.as_str(), identity) {
                Order::Less => {},
                Order::Equal => {
                    proof {
                        assert(holds_at(self.entries(), identity@, i as int));
                    }
                    return (i, true);
                },
                Order::Greater => {
                    proof {
                        let entries = self.entries();
                        let ids = identities(entries);
                        assert forall|k: int| i <= k < entries.len() implies str_lt(
                            identity@,
                            entries[k].identity,
                        ) by {
                            if k > i {
                                assert(str_lt(ids[i as int], ids[k]));
                                lemma_str_lt_transitive(identity@, ids[i as int], ids[k]);
                            }
                        }
                        self.lemma_absent(identity@, i as int);
                    }
                    return (i, false);
                },
            }
            i += 1;
        }
        proof {
            self.lemma_absent(identity@, i as int);
        }
        (i, false)
    }

    proof fn lemma_absent(&self, id: Seq<char>, p: int)
        requires
            self.ordered(),
            0 <= p <= self.entries().len(),
            forall|i: int| 0 <= i < p ==> str_lt(self.entries()[i].identity, id),
            forall|i: int| p <= i < self.entries().len() ==> str_lt(id, self.entries()[i].identity),
        ensures
            !self@.dom().contains(id),
    {
        if self@.dom().contains(id) {
            let i = choose|i: int| holds_at(self.entries(), id, i);
            lemma_str_lt_irreflexive(id);
        }
    }

    /// Whether `identity` is registered.
    pub fn contains(&self, identity: &str) -> (found: bool)
        ensures
            found == self@.dom().contains(identity@),
            self@.dom().finite(),
    {
        proof {
            use_type_invariant(self);
            self.lemma_domain_size();
        }
        self.locate(identity).1
    }

    /// The record of `identity`, if it is registered.
    pub fn get(&self, identity: &str) -> (r: Option<&ClientRecord>)
        ensures
            match r {
                Some(record) => self@.dom().contains(identity@) && record@ == self@[identity@],
                None => !self@.dom().contains(identity@),
            },
    {
        let (p, found) = self.locate(identity);
        if found {
            proof {
                use_type_invariant(self);
                lemma_map_at(self.entries(), p as int);
            }
            Some(&self.records[p])
        } else {
            None
        }
    }

    /// Registers `identity` as of `now`, unless it is registered already; a
    /// refusal leaves the registry as it was.
    pub fn try_register(&mut self, identity: String, now: Timestamp) -> (r: Result<
        (),
        RegistryError,
    >)
        ensures
            final(self)@.dom().finite(),
            match r {
                Ok(()) => !old(self)@.dom().contains(identity@) && final(self)@ == old(self)@.insert(
                    identity@,
                    fresh_record(identity@, now@),
                ),
                Err(e) => e == RegistryError::AlreadyRegistered && old(self)@.dom().contains(
                    identity@,
                ) && final(self)@ == old(self)@,
            },
    {
        proof {
            use_type_invariant(&*self);
            self.lemma_domain_size();
        }
        let (p, found) = self.locate(identity.as_str());
        if found {
            return Err(RegistryError::AlreadyRegistered);
        }
        let ghost before = self.entries();
        let ghost id = identity@;
        let record = ClientRecord { identity, state: ConnectionState::ACTIVE, registered_at: now };
        let ghost added = record@;
        let mut records: Vec<ClientRecord> = Vec::new();
        std::mem::swap(&mut self.records, &mut records);
        records.insert(p, record);
        proof {
            let after = entries_of(records@);
            assert(after =~= before.insert(p as int, added));
            let ids = identities(before);
            let ids_after = identities(after);
            assert forall|i: int, j: int| 0 <= i < j < ids_after.len() implies str_lt(
                #[trigger] ids_after[i],
                #[trigger] ids_after[j],
            ) by {
                if j < p {
                    assert(str_lt(ids[i], ids[j]));
                } else if j == p {
                    assert(str_lt(before[i].identity, id));
                } else if i < p {
                    assert(str_lt(ids[i], ids[j - 1]));
                } else if i == p {
                    assert(str_lt(id, before[j - 1].identity));
                } else {
                    assert(str_lt(ids[i - 1], ids[j - 1]));
                }
            }
            lemma_map_insert(before, p as int, added);
            lemma_domain_of(after);
        }
        self.records = records;
        Ok(())
    }

    /// Removes the record of `identity`; a refusal leaves the registry as
    /// it was.
    pub fn unregister(&mut self, identity: &str) -> (r: Result<(), RegistryError>)
        ensures
            final(self)@.dom().finite(),
            match r {
                Ok(()) => old(self)@.dom().contains(identity@) && final(self)@ == old(self)@.remove(
                    identity@,
                ),
                Err(e) => e == RegistryError::NotRegistered && !old(self)@.dom().contains(
                    identity@,
                ) && final(self)@ == old(self)@,
            },
    {
        proof {
            use_type_invariant(&*self);
            self.lemma_domain_size();
        }
        let (p, found) = self.locate(identity);
        if !found {
            return Err(RegistryError::NotRegistered);
        }
        let ghost before = self.entries();
        let mut records: Vec<ClientRecord> = Vec::new();
        std::mem::swap(&mut self.records, &mut records);
        let _ = records.remove(p);
        proof {
            let after = entries_of(records@);
            assert(after =~= before.remove(p as int));
            lemma_map_remove(before, p as int);
            lemma_domain_of(after);
        }
        self.records = records;
        Ok(())
    }

    /// The registered identities, in ascending order.
    pub fn list(&self) -> (names: Vec<String>)
        ensures
            lists(names.deep_view(), self@.dom()),
            names.deep_view() == listing(self@.dom()),
            names@.len() == self@.dom().len(),
    {
        proof {
            use_type_invariant(self);
        }
        let mut names: Vec<String> = Vec::new();
        let mut i: usize = 0;
        while i < self.records.len()
            invariant
                i <= self.records@.len(),
                self.entries().len() == self.records@.len(),
                names@.len() == i,
                forall|k: int| 0 <= k < i ==> names@[k]@ == self.entries()[k].identity,
            decreases self.records@.len() - i,
        {
            names.push(self.records[i].identity.clone());
            i += 1;
        }
        proof {
            let listed = names.deep_view();
            let entries = self.entries();
            assert(listed =~= identities(entries)) by {
                assert(listed.len() == entries.len());
                assert forall|k: int| 0 <= k < listed.len() implies listed[k] == identities(
                    entries,
                )[k] by {
                    assert(listed[k] == names@[k]@);
                }
            }
            assert forall|id: Seq<char>| self@.dom().contains(id) <==> listed.contains(id) by {
                if self@.dom().contains(id) {
                    let k = choose|k: int| holds_at(entries, id, k);
                    assert(listed[k] == id);
                }
                if listed.contains(id) {
                    let k = choose|k: int| 0 <= k < listed.len() && listed[k] == id;
                    assert(holds_at(entries, id, k));
                }
            }
            self.lemma_domain_size();
            lemma_list_unique(listed, listing(self@.dom()), self@.dom());
        }
        names
    }
}

/// A sequence of records in ascending order stands for a finite map with
/// one entry for each record.
proof fn lemma_domain_of(entries: Seq<ClientRecordView>)
    requires
        ascending(identities(entries)),
    ensures
        map_of(entries).dom().finite(),
        map_of(entries).dom().len() == entries.len(),
    decreases entries.len(),
{
    if entries.len() == 0 {
        assert(map_of(entries).dom() =~= Set::<Seq<char>>::empty());
    } else {
        let last = entries.len() - 1;
        let shorter = entries.remove(last);
        lemma_map_remove(entries, last);
        lemma_domain_of(shorter);
        lemma_map_at(entries, last);
        let id = entries[last].identity;
        assert(map_of(entries).dom() =~= map_of(shorter).dom().insert(id));
        assert(!map_of(shorter).dom().contains(id));
    }
}

} // verus!
