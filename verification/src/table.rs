//! Finite maps in insertion order, with each key at most once.

use vstd::prelude::*;

use crate::sequences;

verus! {

/// A key type: values with the same identity denote the same key.
pub trait Key: Sized {
    /// The identities.
    type Id;

    /// The identity of a key.
    spec fn id(&self) -> Self::Id;

    /// Whether two keys have the same identity.
    fn same(&self, other: &Self) -> (r: bool)
        ensures
            r == (self.id() == other.id()),
    ;
}

impl Key for String {
    type Id = Seq<char>;

    open spec fn id(&self) -> Seq<char> {
        self@
    }

    fn same(&self, other: &Self) -> (r: bool) {
        *self == *other
    }
}

impl Key for u128 {
    type Id = u128;

    open spec fn id(&self) -> u128 {
        *self
    }

    fn same(&self, other: &Self) -> (r: bool) {
        *self == *other
    }
}

impl Key for u8 {
    type Id = u8;

    open spec fn id(&self) -> u8 {
        *self
    }

    fn same(&self, other: &Self) -> (r: bool) {
        *self == *other
    }
}

/// A map from keys to values. Entries stay in the order in which their keys
/// first came.
#[derive(Debug)]
pub struct Table<K: Key, V> {
    keys: Vec<K>,
    values: Vec<V>,
}

spec fn distinct<K: Key>(s: Seq<K>) -> bool {
    forall|i: int, j: int| 0 <= i < j < s.len() ==> #[trigger] s[i].id() != #[trigger] s[j].id()
}

spec fn holds<K: Key>(s: Seq<K>, k: K::Id) -> bool {
    exists|i: int| 0 <= i < s.len() && #[trigger] s[i].id() == k
}

spec fn place<K: Key>(s: Seq<K>, k: K::Id) -> int {
    choose|i: int| 0 <= i < s.len() && #[trigger] s[i].id() == k
}

spec fn as_map<K: Key, V>(keys: Seq<K>, values: Seq<V>) -> Map<K::Id, V> {
    Map::new(|k: K::Id| holds(keys, k), |k: K::Id| values[place(keys, k)])
}

proof fn place_is<K: Key>(s: Seq<K>, i: int)
    requires
        distinct(s),
        0 <= i < s.len(),
    ensures
        holds(s, s[i].id()),
        place(s, s[i].id()) == i,
{
    let k = s[i].id();
    assert(holds(s, k));
    let p = place(s, k);
    assert(s[p].id() == k);
}

impl<K: Key, V> View for Table<K, V> {
    type V = Map<K::Id, V>;

    closed spec fn view(&self) -> Map<K::Id, V> {
        if self.inv() {
            as_map(self.keys@, self.values@)
        } else {
            Map::empty()
        }
    }
}

impl<K: Key, V> Table<K, V> {
    #[verifier::type_invariant]
    spec fn inv(self) -> bool {
        distinct(self.keys@) && self.values@.len() == self.keys@.len()
    }

    /// The identities of the keys, in order.
    pub closed spec fn ids(&self) -> Seq<K::Id> {
        if self.inv() {
            Seq::new(self.keys@.len(), |i: int| self.keys@[i].id())
        } else {
            Seq::empty()
        }
    }

    /// An empty table.
    pub fn new() -> (t: Self)
        ensures
            t@ == Map::<K::Id, V>::empty(),
            t.ids() == Seq::<K::Id>::empty(),
    {
        let t = Table { keys: Vec::new(), values: Vec::new() };
        assert(t@ =~= Map::<K::Id, V>::empty());
        assert(t.ids() =~= Seq::<K::Id>::empty());
        t
    }

    /// Number of entries.
    pub fn len(&self) -> (n: usize)
        ensures
            n == self.ids().len(),
            n == self@.dom().len(),
            self@.dom().finite(),
    {
        proof {
            use_type_invariant(self);
            order_lists_keys(*self);
        }
        self.keys.len()
    }

    fn find(&self, key: &K) -> (r: Option<usize>)
        ensures
            match r {
                Some(i) => i < self.keys@.len() && self.keys@[i as int].id() == key.id() && holds(
                    self.keys@,
                    key.id(),
                ) && place(self.keys@, key.id()) == i,
                None => !holds(self.keys@, key.id()),
            },
    {
        proof {
            use_type_invariant(self);
        }
        let mut i: usize = 0;
        while i < self.keys.len()
            invariant
                distinct(self.keys@),
                i <= self.keys.len(),
                forall|j: int| 0 <= j < i ==> #[trigger] self.keys@[j].id() != key.id(),
            decreases self.keys.len() - i,
        {
            if self.keys[i].same(key) {
                proof {
                    place_is(self.keys@, i as int);
                }
                return Some(i);
            }
            i += 1;
        }
        None
    }

    /// Whether the key is present.
    pub fn contains_key(&self, key: &K) -> (r: bool)
        ensures
            r == self@.dom().contains(key.id()),
    {
        proof {
            use_type_invariant(self);
        }
        self.find(key).is_some()
    }

    /// The value of a key.
    pub fn get(&self, key: &K) -> (r: Option<&V>)
        ensures
            match r {
                Some(v) => self@.dom().contains(key.id()) && *v == self@[key.id()],
                None => !self@.dom().contains(key.id()),
            },
    {
        proof {
            use_type_invariant(self);
        }
        match self.find(key) {
            Some(i) => Some(&self.values[i]),
            None => None,
        }
    }

    /// The value of a key, to be changed.
    pub fn get_mut(&mut self, key: &K) -> (r: Option<&mut V>)
        ensures
            match r {
                Some(v) => {
                    &&& old(self)@.dom().contains(key.id())
                    &&& *v == old(self)@[key.id()]
                    &&& final(self)@ == old(self)@.insert(key.id(), *final(v))
                    &&& final(self).ids() == old(self).ids()
                },
                None => !old(self)@.dom().contains(key.id()) && *final(self) == *old(self),
            },
    {
        proof {
            use_type_invariant(&*self);
        }
        match self.find(key) {
            Some(i) => {
                let ghost keys = self.keys@;
                let ghost values = self.values@;
                proof {
                    assert forall|x: V|
                        #[trigger] as_map(keys, values.update(i as int, x)) == as_map(
                            keys,
                            values,
                        ).insert(key.id(), x) by {
                        let m = as_map(keys, values.update(i as int, x));
                        assert forall|k: K::Id| holds(keys, k) && k != key.id() implies place(
                            keys,
                            k,
                        ) != i && 0 <= place(keys, k) < keys.len() by {
                            assert(keys[place(keys, k)].id() == k);
                        }
                        assert(m =~= as_map(keys, values).insert(key.id(), x));
                    }
                }
                Some(&mut self.values[i])
            },
            None => None,
        }
    }

    /// The key at a position of the order.
    pub fn key_at(&self, i: usize) -> (k: &K)
        requires
            i < self.ids().len(),
        ensures
            k.id() == self.ids()[i as int],
            self@.dom().contains(k.id()),
    {
        proof {
            use_type_invariant(self);
            place_is(self.keys@, i as int);
        }
        &self.keys[i]
    }

    /// The value at a position of the order.
    pub fn value_at(&self, i: usize) -> (v: &V)
        requires
            i < self.ids().len(),
        ensures
            *v == self@[self.ids()[i as int]],
            self@.dom().contains(self.ids()[i as int]),
    {
        proof {
            use_type_invariant(self);
            place_is(self.keys@, i as int);
        }
        &self.values[i]
    }

    /// Binds a key to a value; a key that is present keeps its place.
    pub fn insert(&mut self, key: K, value: V)
        ensures
            final(self)@ == old(self)@.insert(key.id(), value),
            old(self)@.dom().contains(key.id()) ==> final(self).ids() == old(self).ids(),
            !old(self)@.dom().contains(key.id()) ==> final(self).ids() == old(self).ids().push(
                key.id(),
            ),
    {
        let at = self.find(&key);
        proof {
            use_type_invariant(&*self);
        }
        let ghost before = self.keys@;
        let ghost held = self.values@;
        let ghost old_ids = self.ids();
        match at {
            Some(_) => {
                match self.get_mut(&key) {
                    Some(v) => {
                        *v = value;
                    },
                    None => {},
                }
            },
            None => {
                let mut t: Table<K, V> = Table::new();
                std::mem::swap(self, &mut t);
                let Table { mut keys, mut values } = t;
                keys.push(key);
                values.push(value);
                proof {
                    let after = keys@;
                    assert forall|a: int, b: int| 0 <= a < b < after.len() implies #[trigger] after[a].id()
                        != #[trigger] after[b].id() by {
                        assert(after[a] == before[a]);
                        if b < before.len() {
                            assert(after[b] == before[b]);
                        }
                    }
                }
                *self = Table { keys, values };
                proof {
                    let after = self.keys@;
                    assert(self.ids() =~= old_ids.push(key.id()));
                    place_is(after, before.len() as int);
                    assert forall|k: K::Id| k != key.id() implies holds(after, k) == holds(before, k)
                        && (holds(before, k) ==> self.values@[place(after, k)] == held[place(before, k)]) by {
                        if holds(after, k) {
                            let p = place(after, k);
                            assert(before[p].id() == k);
                        }
                        if holds(before, k) {
                            let p = place(before, k);
                            assert(after[p].id() == k);
                            place_is(after, p);
                        }
                    }
                    assert(self@ =~= as_map(before, held).insert(key.id(), value));
                }
            },
        }
    }

    /// Removes a key and hands out its value; the other entries keep their
    /// order.
    pub fn remove(&mut self, key: &K) -> (r: Option<V>)
        ensures
            match r {
                Some(v) => old(self)@.dom().contains(key.id()) && v == old(self)@[key.id()],
                None => !old(self)@.dom().contains(key.id()),
            },
            final(self)@ == old(self)@.remove(key.id()),
            final(self).ids() == old(self).ids().filter(|k: K::Id| k != key.id()),
    {
        let at = self.find(key);
        proof {
            use_type_invariant(&*self);
        }
        match at {
            Some(i) => {
                let ghost old_ids = self.ids();
                let ghost before = self.keys@;
                proof {
                    assert forall|j: int| 0 <= j < old_ids.len() && j != i implies old_ids[j]
                        != old_ids[i as int] by {
                        if j < i {
                            assert(before[j].id() != before[i as int].id());
                        } else {
                            assert(before[i as int].id() != before[j].id());
                        }
                    }
                    filter_one(old_ids, i as int);
                }
                let (_, value) = self.remove_at(i);
                Some(value)
            },
            None => {
                let ghost old_ids = self.ids();
                let ghost before = self.keys@;
                proof {
                    assert(self@ =~= self@.remove(key.id()));
                    assert forall|j: int| 0 <= j < old_ids.len() implies old_ids[j] != key.id() by {
                        assert(before[j].id() == old_ids[j]);
                    }
                    filter_none(old_ids, key.id());
                }
                None
            },
        }
    }

    /// Removes the entry at a position of the order and hands it out.
    pub fn remove_at(&mut self, i: usize) -> (r: (K, V))
        requires
            i < old(self).ids().len(),
        ensures
            r.0.id() == old(self).ids()[i as int],
            old(self)@.dom().contains(r.0.id()),
            r.1 == old(self)@[r.0.id()],
            final(self)@ == old(self)@.remove(r.0.id()),
            final(self).ids() == old(self).ids().remove(i as int),
    {
        proof {
            use_type_invariant(&*self);
        }
        let ghost before = self.keys@;
        let ghost held = self.values@;
        let ghost old_ids = self.ids();
        let mut t: Table<K, V> = Table::new();
        std::mem::swap(self, &mut t);
        let Table { mut keys, mut values } = t;
        proof {
            place_is(before, i as int);
        }
        let key = keys.remove(i);
        let value = values.remove(i);
        proof {
            let after = keys@;
            assert forall|a: int, b: int| 0 <= a < b < after.len() implies #[trigger] after[a].id()
                != #[trigger] after[b].id() by {
                let a0 = if a < i { a } else { a + 1 };
                let b0 = if b < i { b } else { b + 1 };
                assert(after[a] == before[a0]);
                assert(after[b] == before[b0]);
                assert(before[a0].id() != before[b0].id());
            }
        }
        *self = Table { keys, values };
        proof {
            let after = self.keys@;
            assert forall|k: K::Id| k != key.id() implies holds(after, k) == holds(before, k) && (
            holds(before, k) ==> self.values@[place(after, k)] == held[place(before, k)]) by {
                if holds(after, k) {
                    let p = place(after, k);
                    let p0 = if p < i { p } else { p + 1 };
                    assert(before[p0].id() == k);
                }
                if holds(before, k) {
                    let p = place(before, k);
                    let p0 = if p < i { p } else { p - 1 };
                    assert(after[p0] == before[p]);
                    assert(after[p0].id() == k);
                    place_is(after, p0);
                }
            }
            assert(!holds(after, key.id())) by {
                if holds(after, key.id()) {
                    let p = place(after, key.id());
                    let p0 = if p < i { p } else { p + 1 };
                    assert(after[p] == before[p0]);
                    if p0 < i {
                        assert(before[p0].id() != before[i as int].id());
                    } else {
                        assert(before[i as int].id() != before[p0].id());
                    }
                }
            }
            assert(self@ =~= as_map(before, held).remove(key.id()));
            assert(self.ids() =~= old_ids.remove(i as int));
        }
        (key, value)
    }

    /// Removes every entry.
    pub fn clear(&mut self)
        ensures
            final(self)@ == Map::<K::Id, V>::empty(),
            final(self).ids() == Seq::<K::Id>::empty(),
    {
        *self = Table::new();
    }
}

/// The order of a table lists each of its keys exactly once.
pub proof fn order_lists_keys<K: Key, V>(t: Table<K, V>)
    ensures
        sequences::enumerates(t.ids(), t@.dom()),
        t@.dom().finite(),
        t@.dom().len() == t.ids().len(),
{
    let s = t.keys@;
    if t.inv() {
        assert forall|k: K::Id| t.ids().contains(k) <==> t@.dom().contains(k) by {
            if t.ids().contains(k) {
                let i = choose|i: int| 0 <= i < t.ids().len() && t.ids()[i] == k;
                assert(s[i].id() == k);
            }
            if t@.dom().contains(k) {
                let i = place(s, k);
                assert(t.ids()[i] == k);
            }
        }
    }
    assert(t.ids().to_set() =~= t@.dom());
    t.ids().unique_seq_to_set();
}

/// Filtering out an absent element changes nothing.
proof fn filter_none<A>(s: Seq<A>, x: A)
    requires
        forall|j: int| 0 <= j < s.len() ==> s[j] != x,
    ensures
        s.filter(|k: A| k != x) == s,
    decreases s.len(),
{
    reveal(Seq::filter);
    if s.len() > 0 {
        filter_none(s.drop_last(), x);
        assert(s =~= s.drop_last().push(s.last()));
    }
}

/// Filtering out an element that occurs once removes that occurrence.
proof fn filter_one<A>(s: Seq<A>, i: int)
    requires
        0 <= i < s.len(),
        forall|j: int| 0 <= j < s.len() && j != i ==> s[j] != s[i],
    ensures
        s.filter(|k: A| k != s[i]) == s.remove(i),
    decreases s.len(),
{
    reveal(Seq::filter);
    let x = s[i];
    if i == s.len() - 1 {
        filter_none(s.drop_last(), x);
        assert(s.remove(i) =~= s.drop_last());
    } else {
        filter_one(s.drop_last(), i);
        assert(s.remove(i) =~= s.drop_last().remove(i).push(s.last()));
    }
}

impl<V> Table<String, V> {
    /// The value of a key given as a string slice.
    pub fn get_text(&self, key: &str) -> (r: Option<&V>)
        ensures
            match r {
                Some(v) => self@.dom().contains(key@) && *v == self@[key@],
                None => !self@.dom().contains(key@),
            },
    {
        self.get(&key.to_owned())
    }
}

} // verus!
