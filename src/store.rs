use vstd::prelude::*;

verus! {

/// A keyed store of whole records: every record sits under a numeric key, and a
/// write replaces the record under its key as a whole.
///
/// Keys are kept in the order of their latest write; a scan walks that order.
pub struct Store<V> {
    keys: Vec<u64>,
    slots: Vec<V>,
    model: Ghost<Map<u64, V>>,
}

impl<V> View for Store<V> {
    type V = Map<u64, V>;

    closed spec fn view(&self) -> Map<u64, V> {
        self.model@
    }
}

impl<V> Store<V> {
    /// The keys in scan order.
    pub closed spec fn ids(&self) -> Seq<u64> {
        self.keys@
    }

    /// The records in scan order, one for each key of `ids`.
    pub closed spec fn vals(&self) -> Seq<V> {
        self.slots@
    }

    pub open spec fn wf(&self) -> bool {
        &&& self.ids().len() == self.vals().len()
        &&& self.ids().no_duplicates()
        &&& forall|i: int|
            0 <= i < self.ids().len() ==> #[trigger] self@.contains_key(self.ids()[i])
                && self@[self.ids()[i]] == self.vals()[i]
        &&& forall|k: u64| #[trigger] self@.contains_key(k) ==> self.ids().contains(k)
    }

    pub fn new() -> (r: Store<V>)
        ensures
            r.wf(),
            r@ == Map::<u64, V>::empty(),
            r.ids().len() == 0,
    {
        Store { keys: Vec::new(), slots: Vec::new(), model: Ghost(Map::empty()) }
    }

    fn position(&self, id: u64) -> (r: Option<usize>)
        requires
            self.wf(),
        ensures
            match r {
                Some(i) => i < self.ids().len() && self.ids()[i as int] == id,
                None => !self@.contains_key(id),
            },
    {
        let mut i: usize = 0;
        while i < self.keys.len()
            invariant
                self.wf(),
                0 <= i <= self.ids().len(),
                forall|j: int| 0 <= j < i ==> self.ids()[j] != id,
            decreases self.ids().len() - i,
        {
            if self.keys[i] == id {
                return Some(i);
            }
            i = i + 1;
        }
        None
    }

    /// Number of records held.
    pub fn len(&self) -> (r: usize)
        requires
            self.wf(),
        ensures
            r == self.ids().len(),
    {
        self.keys.len()
    }

    pub fn contains(&self, id: u64) -> (r: bool)
        requires
            self.wf(),
        ensures
            r == self@.contains_key(id),
    {
        match self.position(id) {
            Some(_) => true,
            None => false,
        }
    }

    /// The record under `id`, if there is one.
    pub fn get(&self, id: u64) -> (r: Option<&V>)
        requires
            self.wf(),
        ensures
            match r {
                Some(v) => self@.contains_key(id) && *v == self@[id],
                None => !self@.contains_key(id),
            },
    {
        match self.position(id) {
            Some(i) => {
                assert(self@.contains_key(self.ids()[i as int]));
                Some(&self.slots[i])
            },
            None => None,
        }
    }

    /// The key and record at position `i` of the scan order.
    pub fn entry(&self, i: usize) -> (r: (u64, &V))
        requires
            self.wf(),
            i < self.ids().len(),
        ensures
            r.0 == self.ids()[i as int],
            *r.1 == self.vals()[i as int],
    {
        (self.keys[i], &self.slots[i])
    }

    /// All keys, each once, in scan order.
    pub fn scan(&self) -> (r: Vec<u64>)
        requires
            self.wf(),
        ensures
            r@ == self.ids(),
    {
        self.keys.clone()
    }

    /// Removes the record under `id` and hands it over.
    pub fn take(&mut self, id: u64) -> (r: Option<V>)
        requires
            old(self).wf(),
        ensures
            final(self).wf(),
            match r {
                Some(v) => old(self)@.contains_key(id) && v == old(self)@[id],
                None => !old(self)@.contains_key(id),
            },
            final(self)@ == old(self)@.remove(id),
            final(self).ids().len() == old(self).ids().len() - (if r is Some { 1int } else { 0 }),
    {
        match self.position(id) {
            None => {
                proof {
                    assert(self@.remove(id) =~= self@);
                }
                None
            },
            Some(i) => {
                let ghost old_keys = self.ids();
                assert(self@.contains_key(self.ids()[i as int]));
                let k = self.keys.remove(i);
                let v = self.slots.remove(i);
                self.model = Ghost(self.model@.remove(id));
                proof {
                    assert forall|j: int| 0 <= j < self.ids().len() implies
                        #[trigger] self@.contains_key(self.ids()[j])
                        && self@[self.ids()[j]] == self.vals()[j] by {
                        if j < i {
                            assert(old_keys[j] != id);
                            assert(old(self)@.contains_key(old_keys[j]));
                        } else {
                            assert(self.ids()[j] == old_keys[j + 1]);
                            assert(old(self)@.contains_key(old_keys[j + 1]));
                            assert(old_keys[j + 1] != id);
                        }
                    }
                    assert forall|kk: u64| #[trigger] self@.contains_key(kk) implies
                        self.ids().contains(kk) by {
                        assert(old(self)@.contains_key(kk));
                        assert(old_keys.contains(kk));
                        let j = choose|j: int| 0 <= j < old_keys.len() && old_keys[j] == kk;
                        if j < i {
                            assert(self.ids()[j] == kk);
                        } else {
                            assert(j != i);
                            assert(self.ids()[j - 1] == kk);
                        }
                    }
                    assert forall|a: int, b: int|
                        0 <= a < self.ids().len() && 0 <= b < self.ids().len() && a != b implies
                        self.ids()[a] != self.ids()[b] by {
                        let oa = if a < i { a } else { a + 1 };
                        let ob = if b < i { b } else { b + 1 };
                        assert(old_keys[oa] != old_keys[ob]);
                    }
                    assert(self.ids().no_duplicates());
                    assert(self.ids().len() == self.vals().len());
                    assert(forall|j: int|
                        0 <= j < self.ids().len() ==> #[trigger] self@.contains_key(self.ids()[j])
                            && self@[self.ids()[j]] == self.vals()[j]);
                    assert(forall|k: u64| #[trigger] self@.contains_key(k) ==> self.ids().contains(k));
                }
                Some(v)
            },
        }
    }

    /// Takes the record under `id` out for rewriting, with the position it held
    /// in the scan order, so that `put_back` can return it to the same place.
    pub fn checkout(&mut self, id: u64) -> (r: Option<(usize, V)>)
        requires
            old(self).wf(),
        ensures
            final(self).wf(),
            final(self)@ == old(self)@.remove(id),
            match r {
                Some((i, v)) => old(self)@.contains_key(id) && v == old(self)@[id] && i < old(self).ids().len()
                    && old(self).ids()[i as int] == id && final(self).ids() == old(self).ids().remove(i as int)
                    && final(self).vals() == old(self).vals().remove(i as int),
                None => !old(self)@.contains_key(id) && *final(self) == *old(self),
            },
    {
        match self.position(id) {
            None => {
                proof {
                    assert(self@.remove(id) =~= self@);
                }
                None
            },
            Some(i) => {
                let ghost old_keys = self.ids();
                assert(self@.contains_key(self.ids()[i as int]));
                let k = self.keys.remove(i);
                let v = self.slots.remove(i);
                self.model = Ghost(self.model@.remove(id));
                proof {
                    assert forall|j: int| 0 <= j < self.ids().len() implies
                        #[trigger] self@.contains_key(self.ids()[j])
                        && self@[self.ids()[j]] == self.vals()[j] by {
                        if j < i {
                            assert(old_keys[j] != id);
                            assert(old(self)@.contains_key(old_keys[j]));
                        } else {
                            assert(self.ids()[j] == old_keys[j + 1]);
                            assert(old(self)@.contains_key(old_keys[j + 1]));
                            assert(old_keys[j + 1] != id);
                        }
                    }
                    assert forall|kk: u64| #[trigger] self@.contains_key(kk) implies
                        self.ids().contains(kk) by {
                        assert(old(self)@.contains_key(kk));
                        assert(old_keys.contains(kk));
                        let j = choose|j: int| 0 <= j < old_keys.len() && old_keys[j] == kk;
                        if j < i {
                            assert(self.ids()[j] == kk);
                        } else {
                            assert(j != i);
                            assert(self.ids()[j - 1] == kk);
                        }
                    }
                    assert forall|a: int, b: int|
                        0 <= a < self.ids().len() && 0 <= b < self.ids().len() && a != b implies
                        self.ids()[a] != self.ids()[b] by {
                        let oa = if a < i { a } else { a + 1 };
                        let ob = if b < i { b } else { b + 1 };
                        assert(old_keys[oa] != old_keys[ob]);
                    }
                    assert(self.ids().no_duplicates());
                    assert(self.ids() =~= old_keys.remove(i as int));
                    assert(self.vals() =~= old(self).vals().remove(i as int));
                }
                Some((i, v))
            },
        }
    }

    /// Writes `v` under a key that is not present, at position `i` of the scan
    /// order.
    pub fn put_back(&mut self, i: usize, id: u64, v: V)
        requires
            old(self).wf(),
            !old(self)@.contains_key(id),
            i <= old(self).ids().len(),
        ensures
            final(self).wf(),
            final(self)@ == old(self)@.insert(id, v),
            final(self).ids() == old(self).ids().insert(i as int, id),
            final(self).vals() == old(self).vals().insert(i as int, v),
    {
        let ghost old_keys = self.ids();
        self.keys.insert(i, id);
        self.slots.insert(i, v);
        self.model = Ghost(self.model@.insert(id, v));
        proof {
            assert(self.ids() =~= old_keys.insert(i as int, id));
            assert(self.vals() =~= old(self).vals().insert(i as int, v));
            assert forall|j: int| 0 <= j < self.ids().len() implies
                #[trigger] self@.contains_key(self.ids()[j])
                && self@[self.ids()[j]] == self.vals()[j] by {
                if j < i {
                    assert(old(self)@.contains_key(old_keys[j]));
                    assert(old_keys.contains(old_keys[j]));
                    assert(old_keys[j] != id);
                } else if j > i {
                    assert(self.ids()[j] == old_keys[j - 1]);
                    assert(self.vals()[j] == old(self).vals()[j - 1]);
                    assert(old(self)@.contains_key(old_keys[j - 1]));
                    assert(old_keys.contains(old_keys[j - 1]));
                    assert(old_keys[j - 1] != id);
                }
            }
            assert forall|kk: u64| #[trigger] self@.contains_key(kk) implies
                self.ids().contains(kk) by {
                if kk == id {
                    assert(self.ids()[i as int] == kk);
                } else {
                    assert(old(self)@.contains_key(kk));
                    assert(old_keys.contains(kk));
                    let j = choose|j: int| 0 <= j < old_keys.len() && old_keys[j] == kk;
                    if j < i {
                        assert(self.ids()[j] == kk);
                    } else {
                        assert(self.ids()[j + 1] == kk);
                    }
                }
            }
            assert forall|a: int, b: int|
                0 <= a < self.ids().len() && 0 <= b < self.ids().len() && a != b implies
                self.ids()[a] != self.ids()[b] by {
                if a == i {
                    let ob = if b < i { b } else { b - 1 };
                    assert(old_keys.contains(old_keys[ob]));
                } else if b == i {
                    let oa = if a < i { a } else { a - 1 };
                    assert(old_keys.contains(old_keys[oa]));
                } else {
                    let oa = if a < i { a } else { a - 1 };
                    let ob = if b < i { b } else { b - 1 };
                    assert(old_keys[oa] != old_keys[ob]);
                }
            }
            assert(self.ids().no_duplicates());
        }
    }

    /// Writes `v` under `id`, replacing whatever was there.
    pub fn put(&mut self, id: u64, v: V)
        requires
            old(self).wf(),
        ensures
            final(self).wf(),
            final(self)@ == old(self)@.insert(id, v),
            !old(self)@.contains_key(id) ==> final(self).ids() == old(self).ids().push(id)
                && final(self).vals() == old(self).vals().push(v),
            old(self)@.contains_key(id) ==> final(self).ids().len() == old(self).ids().len(),
    {
        match self.position(id) {
            Some(i) => {
                let ghost old_keys = self.ids();
                self.slots.set(i, v);
                self.model = Ghost(self.model@.insert(id, v));
                proof {
                    assert forall|j: int| 0 <= j < self.ids().len() implies
                        #[trigger] self@.contains_key(self.ids()[j])
                        && self@[self.ids()[j]] == self.vals()[j] by {
                        if j != i {
                            assert(old_keys[j] != old_keys[i as int]);
                            assert(old(self)@.contains_key(old_keys[j]));
                        }
                    }
                    assert forall|kk: u64| #[trigger] self@.contains_key(kk) implies
                        self.ids().contains(kk) by {
                        if kk == id {
                            assert(self.ids()[i as int] == kk);
                        } else {
                            assert(old(self)@.contains_key(kk));
                        }
                    }
                    assert(self.ids().no_duplicates());
                }
            },
            None => {
                let ghost old_keys = self.ids();
                self.keys.push(id);
                self.slots.push(v);
                self.model = Ghost(self.model@.insert(id, v));
                proof {
                    assert forall|j: int| 0 <= j < self.ids().len() implies
                        #[trigger] self@.contains_key(self.ids()[j])
                        && self@[self.ids()[j]] == self.vals()[j] by {
                        if j < old_keys.len() {
                            assert(old(self)@.contains_key(old_keys[j]));
                            assert(old_keys[j] != id);
                            assert(self.ids()[j] == old_keys[j]);
                            assert(self.vals()[j] == old(self).vals()[j]);
                        } else {
                            assert(self.ids()[j] == id);
                            assert(self.vals()[j] == v);
                        }
                    }
                    assert forall|kk: u64| #[trigger] self@.contains_key(kk) implies
                        self.ids().contains(kk) by {
                        if kk == id {
                            assert(self.ids()[old_keys.len() as int] == kk);
                        } else {
                            assert(old(self)@.contains_key(kk));
                            assert(old_keys.contains(kk));
                            let j = choose|j: int| 0 <= j < old_keys.len() && old_keys[j] == kk;
                            assert(self.ids()[j] == kk);
                        }
                    }
                    assert forall|a: int, b: int|
                        0 <= a < self.ids().len() && 0 <= b < self.ids().len() && a != b implies
                        self.ids()[a] != self.ids()[b] by {
                        if a < old_keys.len() && b < old_keys.len() {
                        } else if a < old_keys.len() {
                            assert(old_keys.contains(old_keys[a]));
                        } else if b < old_keys.len() {
                            assert(old_keys.contains(old_keys[b]));
                        }
                    }
                }
            },
        }
    }
}

/// Reading a key right after writing it gives back exactly the record written.
pub proof fn lemma_put_then_get<V>(before: Store<V>, after: Store<V>, id: u64, v: V)
    requires
        before.wf(),
        after@ == before@.insert(id, v),
    ensures
        after@.contains_key(id),
        after@[id] == v,
{
}

/// How many steps of a run added a record.
pub open spec fn count_added(added: Seq<bool>) -> nat
    decreases added.len(),
{
    if added.len() == 0 {
        0
    } else {
        count_added(added.drop_last()) + if added.last() {
            1nat
        } else {
            0nat
        }
    }
}

/// Over a run that starts from an empty store, where each step either writes a
/// fresh key (appended to the scan) or keeps the scan's keys as they are, a
/// scan after step `n` holds one entry for each step so far that added a key,
/// each key once.
pub proof fn lemma_scan_counts_additions<V>(states: Seq<Store<V>>, added: Seq<bool>, n: int)
    requires
        states.len() == added.len() + 1,
        0 <= n < states.len(),
        states[0].ids().len() == 0,
        forall|k: int| 0 <= k < states.len() ==> #[trigger] states[k].wf(),
        forall|k: int| 0 <= k < added.len() ==> if #[trigger] added[k] {
            exists|id: u64| !states[k]@.contains_key(id) && states[k + 1].ids() == states[k].ids().push(id)
        } else {
            states[k + 1].ids() == states[k].ids()
        },
    ensures
        states[n].ids().len() == count_added(added.take(n)),
        states[n].ids().no_duplicates(),
    decreases n,
{
    assert(states[n].wf());
    if n == 0 {
        assert(added.take(0).len() == 0);
    } else {
        let k = n - 1;
        lemma_scan_counts_additions(states, added, k);
        assert(added.take(n).drop_last() =~= added.take(k));
        assert(added.take(n).last() == added[k]);
    }
}

} // verus!
