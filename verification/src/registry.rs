//! The tab-surface registry: the single source of truth mapping a tab
//! identifier to the label of its rendering surface. At most one live
//! label per tab; absence means the tab has no dedicated surface.

use vstd::prelude::*;
use vstd::map::*;

verus! {

/// The mapping an association list denotes: later entries win, though the
/// registry keeps its keys unique so each key occurs once.
pub open spec fn map_of_pairs(ps: Seq<(Seq<char>, Seq<char>)>) -> Map<Seq<char>, Seq<char>>
    decreases ps.len(),
{
    if ps.len() == 0 {
        Map::empty()
    } else {
        map_of_pairs(ps.drop_last()).insert(ps.last().0, ps.last().1)
    }
}

/// No key occurs twice in the list.
pub open spec fn unique_keys(ps: Seq<(Seq<char>, Seq<char>)>) -> bool {
    forall|i: int, j: int| 0 <= i < j < ps.len() ==> (#[trigger] ps[i]).0 != (#[trigger] ps[j]).0
}

/// Every entry of `a` also stands somewhere in `b`.
pub open spec fn entries_among(
    a: Seq<(Seq<char>, Seq<char>)>,
    b: Seq<(Seq<char>, Seq<char>)>,
) -> bool {
    forall|i: int| 0 <= i < a.len()
        ==> exists|j: int| 0 <= j < b.len() && b[j] == #[trigger] a[i]
}

/// A key is in the denoted map exactly when some entry holds it.
pub proof fn lemma_map_of_pairs_contains(ps: Seq<(Seq<char>, Seq<char>)>, k: Seq<char>)
    ensures
        map_of_pairs(ps).contains_key(k) <==> exists|i: int|
            0 <= i < ps.len() && (#[trigger] ps[i]).0 == k,
    decreases ps.len(),
{
    if ps.len() > 0 {
        lemma_map_of_pairs_contains(ps.drop_last(), k);
        if ps.last().0 == k {
            assert(ps[ps.len() - 1].0 == k);
        } else if map_of_pairs(ps).contains_key(k) {
            let i = choose|i: int| 0 <= i < ps.drop_last().len() && (#[trigger] ps.drop_last()[i]).0 == k;
            assert(ps[i].0 == k);
        } else {
            assert forall|i: int| 0 <= i < ps.len() implies (#[trigger] ps[i]).0 != k by {
                if i < ps.len() - 1 {
                    assert(ps.drop_last()[i].0 == ps[i].0);
                }
            }
        }
    }
}

/// Under unique keys, each entry's value is the one the map assigns.
pub proof fn lemma_map_of_pairs_value(ps: Seq<(Seq<char>, Seq<char>)>, i: int)
    requires
        unique_keys(ps),
        0 <= i < ps.len(),
    ensures
        map_of_pairs(ps).contains_key(ps[i].0),
        map_of_pairs(ps)[ps[i].0] == ps[i].1,
    decreases ps.len(),
{
    if i == ps.len() - 1 {
    } else {
        assert(unique_keys(ps.drop_last())) by {
            assert forall|a: int, b: int| 0 <= a < b < ps.drop_last().len()
                implies (#[trigger] ps.drop_last()[a]).0 != (#[trigger] ps.drop_last()[b]).0 by {
                assert(ps[a].0 != ps[b].0);
            }
        };
        lemma_map_of_pairs_value(ps.drop_last(), i);
        assert(ps.drop_last()[i] == ps[i]);
        assert(ps[i].0 != ps.last().0);
    }
}

/// Removing one entry removes exactly its key from the denoted map.
pub proof fn lemma_map_of_pairs_remove(ps: Seq<(Seq<char>, Seq<char>)>, i: int)
    requires
        unique_keys(ps),
        0 <= i < ps.len(),
    ensures
        map_of_pairs(ps.remove(i)) == map_of_pairs(ps).remove(ps[i].0),
    decreases ps.len(),
{
    lemma_map_of_pairs_contains(ps.drop_last(), ps[i].0);
    if i == ps.len() - 1 {
        assert(ps.remove(i) =~= ps.drop_last());
        assert(!map_of_pairs(ps.drop_last()).contains_key(ps[i].0)) by {
            if map_of_pairs(ps.drop_last()).contains_key(ps[i].0) {
                let j = choose|j: int|
                    0 <= j < ps.drop_last().len() && (#[trigger] ps.drop_last()[j]).0 == ps[i].0;
                assert(ps[j].0 == ps[i].0);
            }
        };
        assert(map_of_pairs(ps.drop_last()) =~= map_of_pairs(ps).remove(ps[i].0));
    } else {
        assert(unique_keys(ps.drop_last())) by {
            assert forall|a: int, b: int| 0 <= a < b < ps.drop_last().len()
                implies (#[trigger] ps.drop_last()[a]).0 != (#[trigger] ps.drop_last()[b]).0 by {
                assert(ps[a].0 != ps[b].0);
            }
        };
        lemma_map_of_pairs_remove(ps.drop_last(), i);
        assert(ps.remove(i).drop_last() =~= ps.drop_last().remove(i));
        assert(ps.remove(i).last() == ps.last());
        assert(ps.drop_last()[i] == ps[i]);
        assert(ps[i].0 != ps.last().0);
        assert(map_of_pairs(ps.remove(i))
            == map_of_pairs(ps.drop_last().remove(i)).insert(ps.last().0, ps.last().1));
        assert(map_of_pairs(ps.drop_last()).remove(ps[i].0).insert(ps.last().0, ps.last().1)
            =~= map_of_pairs(ps.drop_last()).insert(ps.last().0, ps.last().1).remove(ps[i].0));
    }
}

/// State tracking the live tab surfaces: tab identifier to surface label.
pub struct WebviewState {
    entries: Vec<(String, String)>,
}

impl WebviewState {
    /// The registry's entries as pairs of character sequences, in order.
    pub closed spec fn pairs(&self) -> Seq<(Seq<char>, Seq<char>)> {
        self.entries@.map_values(|e: (String, String)| (e.0@, e.1@))
    }

    /// The mapping the registry denotes.
    pub open spec fn as_map(&self) -> Map<Seq<char>, Seq<char>> {
        map_of_pairs(self.pairs())
    }

    /// Each tab identifier occurs at most once.
    pub open spec fn wf(&self) -> bool {
        unique_keys(self.pairs())
    }

    /// An empty registry.
    pub fn new() -> (r: Self)
        ensures
            r.wf(),
            r.as_map() == Map::<Seq<char>, Seq<char>>::empty(),
            r.pairs().len() == 0,
    {
        WebviewState { entries: Vec::new() }
    }

    /// Number of registered surfaces.
    pub fn len(&self) -> (n: usize)
        ensures
            n == self.pairs().len(),
    {
        self.entries.len()
    }

    fn index_of(&self, tab_id: &String) -> (r: Option<usize>)
        ensures
            match r {
                Some(i) => i < self.pairs().len() && self.pairs()[i as int].0 == tab_id@,
                None => forall|i: int| 0 <= i < self.pairs().len()
                    ==> (#[trigger] self.pairs()[i]).0 != tab_id@,
            },
    {
        let n = self.entries.len();
        let mut i: usize = 0;
        while i < n
            invariant
                n == self.entries@.len(),
                i <= n,
                forall|j: int| 0 <= j < i ==> (#[trigger] self.pairs()[j]).0 != tab_id@,
            decreases n - i,
        {
            if self.entries[i].0 == *tab_id {
                assert(self.pairs()[i as int].0 == tab_id@);
                return Some(i);
            }
            assert(self.pairs()[i as int].0 != tab_id@);
            i += 1;
        }
        None
    }

    /// Looks a tab up; `Some` carries the label of its surface.
    pub fn lookup(&self, tab_id: &String) -> (r: Option<String>)
        requires
            self.wf(),
        ensures
            match r {
                Some(l) => self.as_map().contains_key(tab_id@)
                    && l@ == self.as_map()[tab_id@],
                None => !self.as_map().contains_key(tab_id@),
            },
    {
        proof {
            lemma_map_of_pairs_contains(self.pairs(), tab_id@);
        }
        match self.index_of(tab_id) {
            Some(i) => {
                proof {
                    lemma_map_of_pairs_value(self.pairs(), i as int);
                }
                Some(self.entries[i].1.clone())
            },
            None => None,
        }
    }

    /// Removes a tab's entry, returning the prior label if one existed.
    /// The entry is gone afterwards whatever the host later reports.
    pub fn remove(&mut self, tab_id: &String) -> (r: Option<String>)
        requires
            old(self).wf(),
        ensures
            final(self).wf(),
            final(self).as_map() == old(self).as_map().remove(tab_id@),
            entries_among(final(self).pairs(), old(self).pairs()),
            match r {
                Some(l) => old(self).as_map().contains_key(tab_id@)
                    && l@ == old(self).as_map()[tab_id@],
                None => !old(self).as_map().contains_key(tab_id@),
            },
    {
        proof {
            lemma_map_of_pairs_contains(self.pairs(), tab_id@);
        }
        match self.index_of(tab_id) {
            Some(i) => {
                proof {
                    lemma_map_of_pairs_value(self.pairs(), i as int);
                    lemma_map_of_pairs_remove(self.pairs(), i as int);
                }
                let ghost prev = self.pairs();
                let entry = self.entries.remove(i);
                proof {
                    assert(self.pairs() =~= prev.remove(i as int));
                    assert(unique_keys(self.pairs())) by {
                        assert forall|a: int, b: int| 0 <= a < b < self.pairs().len()
                            implies (#[trigger] self.pairs()[a]).0
                                != (#[trigger] self.pairs()[b]).0 by {
                            let a0 = if a < i { a } else { a + 1 };
                            let b0 = if b < i { b } else { b + 1 };
                            assert(self.pairs()[a] == prev[a0]);
                            assert(self.pairs()[b] == prev[b0]);
                        }
                    };
                    assert(entries_among(self.pairs(), prev)) by {
                        assert forall|a: int| 0 <= a < self.pairs().len()
                            implies exists|j: int| 0 <= j < prev.len()
                                && prev[j] == #[trigger] self.pairs()[a] by {
                            let a0 = if a < i { a } else { a + 1 };
                            assert(prev[a0] == self.pairs()[a]);
                        }
                    };
                }
                Some(entry.1)
            },
            None => {
                proof {
                    assert(!self.as_map().contains_key(tab_id@));
                    assert(self.as_map() =~= self.as_map().remove(tab_id@));
                }
                None
            },
        }
    }

    /// Inserts or overwrites the mapping for a tab.
    pub fn register(&mut self, tab_id: &String, label: &String)
        requires
            old(self).wf(),
        ensures
            final(self).wf(),
            final(self).as_map() == old(self).as_map().insert(tab_id@, label@),
            forall|i: int| 0 <= i < final(self).pairs().len()
                ==> (#[trigger] final(self).pairs()[i]) == (tab_id@, label@)
                    || exists|j: int| 0 <= j < old(self).pairs().len()
                        && old(self).pairs()[j] == final(self).pairs()[i],
    {
        let ghost orig = self.pairs();
        let _prev = self.remove(tab_id);
        let ghost mid = self.pairs();
        proof {
            lemma_map_of_pairs_contains(mid, tab_id@);
        }
        self.entries.push((tab_id.clone(), label.clone()));
        proof {
            assert(self.pairs() =~= mid.push((tab_id@, label@)));
            assert(self.pairs().drop_last() =~= mid);
            assert(self.as_map() == map_of_pairs(mid).insert(tab_id@, label@));
            assert(old(self).as_map().remove(tab_id@).insert(tab_id@, label@)
                =~= old(self).as_map().insert(tab_id@, label@));
            assert(unique_keys(self.pairs())) by {
                assert forall|a: int, b: int| 0 <= a < b < self.pairs().len()
                    implies (#[trigger] self.pairs()[a]).0 != (#[trigger] self.pairs()[b]).0 by {
                    if b < self.pairs().len() - 1 {
                        assert(self.pairs()[a] == mid[a]);
                        assert(self.pairs()[b] == mid[b]);
                    } else {
                        assert(self.pairs()[a] == mid[a]);
                    }
                }
            };
            assert forall|a: int| 0 <= a < self.pairs().len()
                implies (#[trigger] self.pairs()[a]) == (tab_id@, label@)
                    || exists|j: int| 0 <= j < orig.len()
                        && orig[j] == self.pairs()[a] by {
                if a < self.pairs().len() - 1 {
                    assert(self.pairs()[a] == mid[a]);
                    assert(entries_among(mid, orig));
                }
            };
        }
    }

    /// A snapshot of every entry, tab identifier and surface label, in
    /// registry order, taken so the caller can release the registry
    /// before issuing host commands.
    pub fn entries_snapshot(&self) -> (r: Vec<(String, String)>)
        ensures
            r@.len() == self.pairs().len(),
            forall|i: int| 0 <= i < r@.len()
                ==> (#[trigger] r@[i]).0@ == self.pairs()[i].0
                    && r@[i].1@ == self.pairs()[i].1,
    {
        let n = self.entries.len();
        let mut out: Vec<(String, String)> = Vec::new();
        let mut i: usize = 0;
        while i < n
            invariant
                n == self.entries@.len(),
                i <= n,
                out@.len() == i,
                forall|j: int| 0 <= j < i
                    ==> (#[trigger] out@[j]).0@ == self.pairs()[j].0
                        && out@[j].1@ == self.pairs()[j].1,
            decreases n - i,
        {
            out.push((self.entries[i].0.clone(), self.entries[i].1.clone()));
            i += 1;
        }
        out
    }

    /// A snapshot of every registered surface label, in registry order,
    /// for broadcast operations such as hide-all and resize-all.
    pub fn all_handles(&self) -> (r: Vec<String>)
        ensures
            r@.len() == self.pairs().len(),
            forall|i: int| 0 <= i < r@.len()
                ==> (#[trigger] r@[i])@ == self.pairs()[i].1,
    {
        let n = self.entries.len();
        let mut out: Vec<String> = Vec::new();
        let mut i: usize = 0;
        while i < n
            invariant
                n == self.entries@.len(),
                i <= n,
                out@.len() == i,
                forall|j: int| 0 <= j < i
                    ==> (#[trigger] out@[j])@ == self.pairs()[j].1,
            decreases n - i,
        {
            out.push(self.entries[i].1.clone());
            i += 1;
        }
        out
    }
}

} // verus!
