//! The vote store: a mapping from tally-key strings to vote counts,
//! initialized empty, mutated only by incrementing one key's count.

use vstd::prelude::*;

verus! {

/// The count a tally map holds for a key: its entry, or zero where it
/// has none.
pub open spec fn tally(m: Map<Seq<char>, int>, k: Seq<char>) -> int {
    if m.contains_key(k) {
        m[k]
    } else {
        0
    }
}

/// One more vote, held at the top of the signed 64-bit range.
pub open spec fn bumped(c: int) -> int {
    if c < i64::MAX {
        c + 1
    } else {
        c
    }
}

/// What one vote with key `k` does to a tally map.
pub open spec fn apply_vote(m: Map<Seq<char>, int>, k: Seq<char>) -> Map<Seq<char>, int> {
    m.insert(k, bumped(tally(m, k)))
}

struct Entry {
    key: String,
    count: i64,
}

spec fn distinct_keys(entries: Seq<Entry>) -> bool {
    forall|i: int, j: int|
        0 <= i < j < entries.len() ==> entries[i].key@ != entries[j].key@
}

spec fn map_of(entries: Seq<Entry>) -> Map<Seq<char>, int>
    decreases entries.len(),
{
    if entries.len() == 0 {
        Map::empty()
    } else {
        map_of(entries.drop_last()).insert(entries.last().key@, entries.last().count as int)
    }
}

/// The in-memory vote store. Counts start at one on a key's first vote
/// and never go down; the store forgets nothing until the process ends.
pub struct VoteStore {
    entries: Vec<Entry>,
}

proof fn lemma_map_of_index(entries: Seq<Entry>, i: int)
    requires
        distinct_keys(entries),
        0 <= i < entries.len(),
    ensures
        map_of(entries).contains_key(entries[i].key@),
        map_of(entries)[entries[i].key@] == entries[i].count as int,
    decreases entries.len(),
{
    if i < entries.len() - 1 {
        lemma_map_of_index(entries.drop_last(), i);
    }
}

proof fn lemma_map_of_absent(entries: Seq<Entry>, k: Seq<char>)
    requires
        forall|j: int| 0 <= j < entries.len() ==> entries[j].key@ != k,
    ensures
        !map_of(entries).contains_key(k),
    decreases entries.len(),
{
    if entries.len() > 0 {
        lemma_map_of_absent(entries.drop_last(), k);
    }
}

proof fn lemma_map_of_update(entries: Seq<Entry>, i: int, c: i64)
    requires
        distinct_keys(entries),
        0 <= i < entries.len(),
    ensures
        map_of(entries.update(i, Entry { key: entries[i].key, count: c }))
            =~= map_of(entries).insert(entries[i].key@, c as int),
    decreases entries.len(),
{
    let updated = entries.update(i, Entry { key: entries[i].key, count: c });
    if i == entries.len() - 1 {
        assert(updated.drop_last() =~= entries.drop_last());
    } else {
        assert(updated.drop_last() =~= entries.drop_last().update(i, Entry {
            key: entries[i].key,
            count: c,
        }));
        lemma_map_of_update(entries.drop_last(), i, c);
    }
}

impl VoteStore {
    #[verifier::type_invariant]
    spec fn inv(&self) -> bool {
        &&& distinct_keys(self.entries@)
        &&& forall|i: int| 0 <= i < self.entries@.len() ==> 1 <= self.entries@[i].count
    }

    /// A fresh store with no tallies at all.
    pub fn new() -> (s: VoteStore)
        ensures
            s@ == Map::<Seq<char>, int>::empty(),
    {
        let entries: Vec<Entry> = Vec::new();
        assert(map_of(entries@) =~= Map::<Seq<char>, int>::empty());
        VoteStore { entries }
    }

    fn find_index(&self, key: &String) -> (r: Option<usize>)
        ensures
            match r {
                Some(i) => i < self.entries@.len() && self.entries@[i as int].key@ == key@,
                None => forall|j: int| 0 <= j < self.entries@.len() ==> self.entries@[j].key@ != key@,
            },
    {
        let n = self.entries.len();
        let mut i: usize = 0;
        while i < n
            invariant
                i <= n,
                n == self.entries@.len(),
                forall|j: int| 0 <= j < i ==> self.entries@[j].key@ != key@,
            decreases n - i,
        {
            if self.entries[i].key == *key {
                return Some(i);
            }
            i += 1;
        }
        None
    }

    /// Record one vote under `key`: the key's count rises by one (held at
    /// the top of the `i64` range), every other key's count is untouched,
    /// and the count returned is the key's new tally.
    pub fn record_vote(&mut self, key: &String) -> (count: i64)
        ensures
            final(self)@ == apply_vote(old(self)@, key@),
            count as int == tally(final(self)@, key@),
            count as int == bumped(tally(old(self)@, key@)),
            0 <= tally(old(self)@, key@),
            1 <= count,
    {
        proof {
            use_type_invariant(&*self);
        }
        match self.find_index(key) {
            Some(i) => {
                proof {
                    lemma_map_of_index(self.entries@, i as int);
                }
                let c = self.entries[i].count;
                let newc: i64 = if c < i64::MAX {
                    c + 1
                } else {
                    c
                };
                let k = self.entries[i].key.clone();
                let mut entries: Vec<Entry> = Vec::new();
                std::mem::swap(&mut entries, &mut self.entries);
                entries[i] = Entry { key: k, count: newc };
                proof {
                    assert(forall|j: int|
                        0 <= j < entries@.len() ==> entries@[j].key@ == old(self).entries@[j].key@);
                    assert(distinct_keys(entries@));
                }
                self.entries = entries;
                proof {
                    lemma_map_of_update(old(self).entries@, i as int, newc);
                }
                newc
            },
            None => {
                proof {
                    lemma_map_of_absent(self.entries@, key@);
                }
                let mut entries: Vec<Entry> = Vec::new();
                std::mem::swap(&mut entries, &mut self.entries);
                entries.push(Entry { key: key.clone(), count: 1 });
                self.entries = entries;
                proof {
                    assert(self.entries@.drop_last() =~= old(self).entries@);
                    assert(map_of(self.entries@) =~= map_of(old(self).entries@).insert(key@, 1));
                }
                1
            },
        }
    }

    /// The current tally for `key`; zero where no vote has named it.
    pub fn count_for(&self, key: &String) -> (count: i64)
        ensures
            count as int == tally(self@, key@),
    {
        proof {
            use_type_invariant(&*self);
        }
        match self.find_index(key) {
            Some(i) => {
                proof {
                    lemma_map_of_index(self.entries@, i as int);
                }
                self.entries[i].count
            },
            None => {
                proof {
                    lemma_map_of_absent(self.entries@, key@);
                }
                0
            },
        }
    }
}

impl View for VoteStore {
    type V = Map<Seq<char>, int>;

    closed spec fn view(&self) -> Map<Seq<char>, int> {
        map_of(self.entries@)
    }
}

} // verus!
