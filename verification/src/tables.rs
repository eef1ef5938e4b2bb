//! Keyed views of record lists.
//!
//! The statement fetchers re-key lists of records into mappings. For integer
//! keys the standard `HashMap` serves; for string keys this module provides
//! `StrMap`, a small association table whose view is a `Map` from key
//! characters to values, with last-write-wins insertion as the fetchers rely
//! on it.

use vstd::prelude::*;

verus! {

/// The mapping that re-keying a record list produces: every record is
/// inserted in order, so a later record with the same key silently replaces
/// an earlier one.
pub open spec fn keyed_last_wins<R>(rows: Seq<R>, key: spec_fn(R) -> i64) -> Map<i64, R>
    decreases rows.len(),
{
    if rows.len() == 0 {
        Map::empty()
    } else {
        keyed_last_wins(rows.drop_last(), key).insert(key(rows.last()), rows.last())
    }
}

/// As `keyed_last_wins`, for string keys.
pub open spec fn str_keyed_last_wins<R>(rows: Seq<R>, key: spec_fn(R) -> Seq<char>) -> Map<
    Seq<char>,
    R,
> decreases rows.len(),
{
    if rows.len() == 0 {
        Map::empty()
    } else {
        str_keyed_last_wins(rows.drop_last(), key).insert(key(rows.last()), rows.last())
    }
}

/// A key is in the re-keyed mapping exactly when some record carries it.
pub proof fn lemma_keyed_last_wins_dom<R>(rows: Seq<R>, key: spec_fn(R) -> i64)
    ensures
        forall|k: i64|
            keyed_last_wins(rows, key).contains_key(k) <==> exists|i: int|
                0 <= i < rows.len() && key(#[trigger] rows[i]) == k,
    decreases rows.len(),
{
    if rows.len() > 0 {
        let shorter = rows.drop_last();
        lemma_keyed_last_wins_dom(shorter, key);
        assert forall|k: i64| keyed_last_wins(rows, key).contains_key(k) implies exists|i: int|
            0 <= i < rows.len() && key(#[trigger] rows[i]) == k by {
            if k == key(rows.last()) {
                assert(key(rows[rows.len() - 1]) == k);
            } else {
                assert(keyed_last_wins(shorter, key).contains_key(k));
                let i = choose|i: int|
                    0 <= i < shorter.len() && key(#[trigger] shorter[i]) == k;
                assert(key(rows[i]) == k);
            }
        }
        assert forall|k: i64|
            exists|i: int|
                0 <= i < rows.len() && key(#[trigger] rows[i]) == k implies keyed_last_wins(
            rows,
            key,
        ).contains_key(k) by {
            let i = choose|i: int| 0 <= i < rows.len() && key(#[trigger] rows[i]) == k;
            if i < rows.len() - 1 {
                assert(key(shorter[i]) == k);
                assert(keyed_last_wins(shorter, key).contains_key(k));
            }
        }
    }
}

/// Records with pairwise-distinct keys re-key without loss: the mapping has
/// one entry per record, and each record sits under its own key.
pub proof fn lemma_keyed_last_wins_distinct<R>(rows: Seq<R>, key: spec_fn(R) -> i64)
    requires
        forall|i: int, j: int|
            0 <= i < j < rows.len() ==> key(#[trigger] rows[i]) != key(#[trigger] rows[j]),
    ensures
        keyed_last_wins(rows, key).dom().finite(),
        keyed_last_wins(rows, key).dom().len() == rows.len(),
        forall|i: int|
            0 <= i < rows.len() ==> keyed_last_wins(rows, key)[key(#[trigger] rows[i])]
                == rows[i],
    decreases rows.len(),
{
    if rows.len() > 0 {
        let shorter = rows.drop_last();
        lemma_keyed_last_wins_distinct(shorter, key);
        lemma_keyed_last_wins_dom(shorter, key);
        assert(!keyed_last_wins(shorter, key).contains_key(key(rows.last())));
        assert forall|i: int| 0 <= i < rows.len() implies keyed_last_wins(rows, key)[key(
            #[trigger] rows[i],
        )] == rows[i] by {
            if i < rows.len() - 1 {
                assert(key(rows[i]) != key(rows[rows.len() - 1]));
                assert(keyed_last_wins(shorter, key)[key(shorter[i])] == shorter[i]);
            }
        }
    }
}

/// An association table keyed by strings, compared by their characters.
pub struct StrMap<V> {
    keys: Vec<String>,
    vals: Vec<V>,
}

impl<V> View for StrMap<V> {
    type V = Map<Seq<char>, V>;

    closed spec fn view(&self) -> Map<Seq<char>, V> {
        Map::new(
            |k: Seq<char>| exists|i: int| 0 <= i < self.keys@.len() && self.keys@[i]@ == k,
            |k: Seq<char>|
                self.vals@[choose|i: int| 0 <= i < self.keys@.len() && self.keys@[i]@ == k],
        )
    }
}

impl<V> StrMap<V> {
    /// One entry per distinct key, and values aligned with keys. Every
    /// operation preserves it; `new` establishes it.
    pub closed spec fn wf(self) -> bool {
        &&& self.keys@.len() == self.vals@.len()
        &&& forall|i: int, j: int|
            0 <= i < j < self.keys@.len() ==> self.keys@[i]@ != self.keys@[j]@
    }

    /// The key views, as a sequence.
    closed spec fn key_views(self) -> Seq<Seq<char>> {
        self.keys@.map_values(|k: String| k@)
    }

    /// An empty table.
    pub fn new() -> (r: StrMap<V>)
        ensures
            r.wf(),
            r@ == Map::<Seq<char>, V>::empty(),
    {
        let r = StrMap { keys: Vec::new(), vals: Vec::new() };
        proof {
            assert(r@ =~= Map::<Seq<char>, V>::empty());
        }
        r
    }

    /// The index holding `k`, if any.
    fn find(&self, k: &String) -> (r: Option<usize>)
        ensures
            match r {
                Some(i) => i < self.keys@.len() && self.keys@[i as int]@ == k@,
                None => forall|i: int| 0 <= i < self.keys@.len() ==> self.keys@[i]@ != k@,
            },
    {
        let mut i: usize = 0;
        while i < self.keys.len()
            invariant
                i <= self.keys@.len(),
                forall|j: int| 0 <= j < i ==> self.keys@[j]@ != k@,
            decreases self.keys@.len() - i,
        {
            if self.keys[i].eq(k) {
                return Some(i);
            }
            i += 1;
        }
        None
    }

    /// Whether the table holds `k`.
    pub fn contains_key(&self, k: &str) -> (r: bool)
        requires
            self.wf(),
        ensures
            r == self@.contains_key(k@),
    {
        let owned: String = k.to_owned();
        match self.find(&owned) {
            Some(_) => true,
            None => false,
        }
    }

    /// The value under `k`, if any.
    pub fn get(&self, k: &str) -> (r: Option<&V>)
        requires
            self.wf(),
        ensures
            match r {
                Some(v) => self@.contains_key(k@) && *v == self@[k@],
                None => !self@.contains_key(k@),
            },
    {
        let owned: String = k.to_owned();
        match self.find(&owned) {
            Some(i) => {
                let v = &self.vals[i];
                proof {
                    let j = choose|j: int| 0 <= j < self.keys@.len() && self.keys@[j]@ == k@;
                    assert(j == i);
                }
                Some(v)
            },
            None => None,
        }
    }

    /// Insert `v` under `k`, replacing any value the key already has.
    pub fn insert(&mut self, k: String, v: V)
        requires
            old(self).wf(),
        ensures
            final(self).wf(),
            final(self)@ == old(self)@.insert(k@, v),
    {
        let found = self.find(&k);
        match found {
            Some(i) => {
                self.vals.set(i, v);
                proof {
                    assert(self.keys@ == old(self).keys@);
                    assert(old(self)@.contains_key(k@));
                    assert forall|kk: Seq<char>| #[trigger]
                        self@.contains_key(kk) implies self@[kk] == old(self)@.insert(
                        k@,
                        v,
                    )[kk] by {
                        let j = choose|j: int| 0 <= j < self.keys@.len() && self.keys@[j]@ == kk;
                        if kk == k@ {
                            assert(j == i);
                        } else {
                            assert(j != i);
                        }
                    }
                    assert(self@ =~= old(self)@.insert(k@, v));
                }
            },
            None => {
                let n = self.keys.len();
                self.keys.push(k);
                self.vals.push(v);
                proof {
                    assert forall|i: int, j: int|
                        0 <= i < j < self.keys@.len() implies self.keys@[i]@
                        != self.keys@[j]@ by {
                        if j < n {
                            assert(old(self).keys@[i]@ != old(self).keys@[j]@);
                        }
                    }
                    assert forall|kk: Seq<char>| #[trigger]
                        self@.contains_key(kk) implies old(self)@.insert(k@, v).contains_key(
                        kk,
                    ) && self@[kk] == old(self)@.insert(k@, v)[kk] by {
                        let j = choose|j: int| 0 <= j < self.keys@.len() && self.keys@[j]@ == kk;
                        if j < n {
                            assert(old(self)@.contains_key(kk));
                            let j0 = choose|j0: int|
                                0 <= j0 < old(self).keys@.len() && old(self).keys@[j0]@ == kk;
                            assert(j0 == j);
                        }
                    }
                    assert forall|kk: Seq<char>| #[trigger]
                        old(self)@.insert(k@, v).contains_key(kk) implies self@.contains_key(
                        kk,
                    ) by {
                        if kk == k@ {
                            assert(self.keys@[n as int]@ == kk);
                        } else {
                            let j0 = choose|j0: int|
                                0 <= j0 < old(self).keys@.len() && old(self).keys@[j0]@ == kk;
                            assert(self.keys@[j0]@ == kk);
                        }
                    }
                    assert(self@ =~= old(self)@.insert(k@, v));
                }
            },
        }
    }

    /// How many entries the table holds.
    pub fn len(&self) -> (r: usize)
        requires
            self.wf(),
        ensures
            r == self@.dom().len(),
    {
        proof {
            assert forall|kk: Seq<char>|
                self@.dom().contains(kk) == self.key_views().to_set().contains(kk) by {
                if self@.contains_key(kk) {
                    let i = choose|i: int| 0 <= i < self.keys@.len() && self.keys@[i]@ == kk;
                    assert(self.key_views()[i] == kk);
                    assert(self.key_views().contains(kk));
                }
                if self.key_views().to_set().contains(kk) {
                    let i = choose|i: int|
                        0 <= i < self.key_views().len() && self.key_views()[i] == kk;
                    assert(self.keys@[i]@ == kk);
                }
            }
            assert(self@.dom() =~= self.key_views().to_set());
            assert forall|i: int, j: int|
                0 <= i < j < self.key_views().len() implies self.key_views()[i]
                != self.key_views()[j] by {
                assert(self.keys@[i]@ != self.keys@[j]@);
            }
            assert(self.key_views().no_duplicates());
            self.key_views().unique_seq_to_set();
        }
        self.keys.len()
    }
}

} // verus!
