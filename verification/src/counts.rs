//! Outcome counts: a small map from an outcome label to how often it was seen.
//!
//! The entries are kept in insertion order in a vector whose labels are
//! pairwise distinct, so that the view as a map is unambiguous and the number
//! of entries is the size of the map.

use vstd::prelude::*;
use vstd::string::StringExecFns;

verus! {

/// The label of the `i`-th entry.
pub open spec fn label_at(entries: Seq<(String, i64)>, i: int) -> Seq<char> {
    entries[i].0@
}

/// No label occurs twice.
pub open spec fn labels_distinct(entries: Seq<(String, i64)>) -> bool {
    forall|i: int, j: int|
        0 <= i < j < entries.len() ==> #[trigger] label_at(entries, i) != #[trigger] label_at(
            entries,
            j,
        )
}

/// The map that a list of entries stands for: each label with its count.
pub open spec fn entries_map(entries: Seq<(String, i64)>) -> Map<Seq<char>, i64>
    decreases entries.len(),
{
    if entries.len() == 0 {
        Map::empty()
    } else {
        entries_map(entries.drop_last()).insert(entries.last().0@, entries.last().1)
    }
}

/// With distinct labels, the map holds exactly the listed labels, each with
/// the count listed beside it, and has as many keys as there are entries.
pub proof fn lemma_entries_map(entries: Seq<(String, i64)>)
    requires
        labels_distinct(entries),
    ensures
        forall|k: Seq<char>|
            entries_map(entries).contains_key(k) <==> exists|i: int|
                0 <= i < entries.len() && #[trigger] label_at(entries, i) == k,
        forall|i: int|
            0 <= i < entries.len() ==> entries_map(entries).contains_key(
                #[trigger] label_at(entries, i),
            ) && entries_map(entries)[label_at(entries, i)] == entries[i].1,
        entries_map(entries).dom().finite(),
        entries_map(entries).dom().len() == entries.len(),
    decreases entries.len(),
{
    if entries.len() > 0 {
        let init = entries.drop_last();
        let last = entries.last();
        assert forall|i: int, j: int| 0 <= i < j < init.len() implies #[trigger] label_at(init, i)
            != #[trigger] label_at(init, j) by {
            assert(label_at(entries, i) != label_at(entries, j));
        }
        lemma_entries_map(init);
        assert forall|k: Seq<char>|
            entries_map(entries).contains_key(k) <==> exists|i: int|
                0 <= i < entries.len() && #[trigger] label_at(entries, i) == k by {
            if entries_map(entries).contains_key(k) {
                if k == last.0@ {
                    assert(label_at(entries, entries.len() - 1) == k);
                } else {
                    let i = choose|i: int| 0 <= i < init.len() && #[trigger] label_at(init, i) == k;
                    assert(label_at(entries, i) == k);
                }
            }
            if exists|i: int| 0 <= i < entries.len() && #[trigger] label_at(entries, i) == k {
                let i = choose|i: int|
                    0 <= i < entries.len() && #[trigger] label_at(entries, i) == k;
                if i < init.len() {
                    assert(label_at(init, i) == k);
                }
            }
        }
        assert forall|i: int| 0 <= i < entries.len() implies entries_map(entries).contains_key(
            #[trigger] label_at(entries, i),
        ) && entries_map(entries)[label_at(entries, i)] == entries[i].1 by {
            if i < init.len() {
                assert(label_at(init, i) == label_at(entries, i));
                assert(label_at(entries, i) != label_at(entries, entries.len() - 1));
            }
        }
        assert(!entries_map(init).contains_key(last.0@)) by {
            if entries_map(init).contains_key(last.0@) {
                let i = choose|i: int|
                    0 <= i < init.len() && #[trigger] label_at(init, i) == last.0@;
                assert(label_at(entries, i) != label_at(entries, entries.len() - 1));
            }
        }
        assert(entries_map(entries).dom() =~= entries_map(init).dom().insert(last.0@));
    } else {
        assert(entries_map(entries).dom() =~= Set::<Seq<char>>::empty());
    }
}

/// A map from outcome label to count.
#[derive(Debug)]
pub struct Counts {
    entries: Vec<(String, i64)>,
}

impl View for Counts {
    type V = Map<Seq<char>, i64>;

    closed spec fn view(&self) -> Map<Seq<char>, i64> {
        entries_map(self.entries@)
    }
}

impl Counts {
    #[verifier::type_invariant]
    spec fn labels_are_distinct(self) -> bool {
        labels_distinct(self.entries@)
    }

    /// An empty map.
    pub fn new() -> (r: Counts)
        ensures
            r@ == Map::<Seq<char>, i64>::empty(),
    {
        Counts { entries: Vec::new() }
    }

    /// Where `label` stands among the entries, if it does.
    fn position(&self, label: &String) -> (r: Option<usize>)
        ensures
            match r {
                Some(i) => i < self.entries@.len() && label_at(self.entries@, i as int) == label@,
                None => forall|j: int|
                    0 <= j < self.entries@.len() ==> #[trigger] label_at(self.entries@, j)
                        != label@,
            },
    {
        let mut i: usize = 0;
        while i < self.entries.len()
            invariant
                i <= self.entries@.len(),
                forall|j: int| 0 <= j < i ==> #[trigger] label_at(self.entries@, j) != label@,
            decreases self.entries@.len() - i,
        {
            if self.entries[i].0 == *label {
                return Some(i);
            }
            i = i + 1;
        }
        None
    }

    /// Sets the count of `label`, replacing the count it had, if any.
    pub fn insert(&mut self, label: String, count: i64)
        ensures
            final(self)@ == old(self)@.insert(label@, count),
    {
        proof {
            use_type_invariant(&*self);
            lemma_entries_map(self.entries@);
        }
        let found = self.position(&label);
        let ghost before = self.entries@;
        // The entries are taken out while they change, so that the labels
        // held in `self` are distinct at every moment.
        let mut entries: Vec<(String, i64)> = Vec::new();
        std::mem::swap(&mut self.entries, &mut entries);
        match found {
            Some(i) => {
                entries.set(i, (label, count));
            },
            None => {
                entries.push((label, count));
            },
        }
        proof {
            let after = entries@;
            match found {
                Some(i) => {
                    assert forall|a: int, b: int| 0 <= a < b < after.len() implies #[trigger] label_at(
                        after,
                        a,
                    ) != #[trigger] label_at(after, b) by {
                        assert(label_at(before, a) != label_at(before, b));
                    }
                    lemma_entries_map(after);
                    assert forall|k: Seq<char>| #[trigger]
                        entries_map(after).contains_key(k) <==> entries_map(before).insert(
                            label@,
                            count,
                        ).contains_key(k) by {
                        if entries_map(after).contains_key(k) {
                            let a = choose|a: int|
                                0 <= a < after.len() && #[trigger] label_at(after, a) == k;
                            assert(label_at(before, a) == k);
                        }
                        if entries_map(before).contains_key(k) {
                            let a = choose|a: int|
                                0 <= a < before.len() && #[trigger] label_at(before, a) == k;
                            assert(label_at(after, a) == k);
                        }
                        if k == label@ {
                            assert(label_at(after, i as int) == k);
                        }
                    }
                    assert forall|k: Seq<char>| #[trigger]
                        entries_map(after).contains_key(k) implies entries_map(after)[k]
                        == entries_map(before).insert(label@, count)[k] by {
                        let a = choose|a: int|
                            0 <= a < after.len() && #[trigger] label_at(after, a) == k;
                        assert(label_at(before, a) == k);
                        assert(entries_map(after)[label_at(after, a)] == after[a].1);
                        assert(entries_map(before)[label_at(before, a)] == before[a].1);
                        if a != i {
                            assert(label_at(before, a) != label_at(before, i as int));
                        }
                    }
                    assert(entries_map(after) =~= entries_map(before).insert(label@, count));
                },
                None => {
                    assert(after.drop_last() =~= before);
                    assert forall|a: int, b: int| 0 <= a < b < after.len() implies #[trigger] label_at(
                        after,
                        a,
                    ) != #[trigger] label_at(after, b) by {
                        if b < before.len() {
                            assert(label_at(before, a) != label_at(before, b));
                        } else {
                            assert(label_at(before, a) != label@);
                        }
                    }
                },
            }
        }
        self.entries = entries;
    }

    /// The count recorded for `label`, if there is one.
    pub fn get(&self, label: &str) -> (r: Option<i64>)
        ensures
            r == (if self@.contains_key(label@) {
                Some(self@[label@])
            } else {
                None
            }),
    {
        proof {
            use_type_invariant(self);
            lemma_entries_map(self.entries@);
        }
        let wanted = String::from_str(label);
        match self.position(&wanted) {
            Some(i) => {
                assert(label_at(self.entries@, i as int) == label@);
                Some(self.entries[i].1)
            },
            None => {
                assert(!self@.contains_key(label@)) by {
                    if self@.contains_key(label@) {
                        let j = choose|j: int|
                            0 <= j < self.entries@.len() && #[trigger] label_at(self.entries@, j)
                                == label@;
                        assert(label_at(self.entries@, j) != label@);
                    }
                }
                None
            },
        }
    }

    /// The number of labels.
    pub fn len(&self) -> (r: usize)
        ensures
            self@.dom().finite(),
            r == self@.dom().len(),
    {
        proof {
            use_type_invariant(self);
            lemma_entries_map(self.entries@);
        }
        self.entries.len()
    }

    /// Whether no label has a count.
    pub fn is_empty(&self) -> (r: bool)
        ensures
            r == (self@ == Map::<Seq<char>, i64>::empty()),
    {
        proof {
            use_type_invariant(self);
            lemma_entries_map(self.entries@);
            if self.entries@.len() > 0 {
                assert(self@.contains_key(label_at(self.entries@, 0)));
            }
        }
        self.entries.len() == 0
    }

    /// The labels with their counts, each label once, in the order in which
    /// the labels were first inserted.
    pub fn to_vec(&self) -> (r: Vec<(String, i64)>)
        ensures
            labels_distinct(r@),
            entries_map(r@) == self@,
    {
        proof {
            use_type_invariant(self);
        }
        let mut out: Vec<(String, i64)> = Vec::new();
        let mut i: usize = 0;
        while i < self.entries.len()
            invariant
                i <= self.entries@.len(),
                out@ == self.entries@.subrange(0, i as int),
            decreases self.entries@.len() - i,
        {
            let label = self.entries[i].0.clone();
            let count = self.entries[i].1;
            out.push((label, count));
            assert(out@ =~= self.entries@.subrange(0, i + 1));
            i = i + 1;
        }
        assert(out@ =~= self.entries@);
        out
    }
}

impl Clone for Counts {
    fn clone(&self) -> (r: Counts)
        ensures
            r@ == self@,
    {
        Counts { entries: self.to_vec() }
    }
}

} // verus!
