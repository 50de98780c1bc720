//! Counters keyed by text labels, kept in insertion order with each label once.

use vstd::prelude::*;
use crate::text::str_equal;

verus! {

/// Counters keyed by text label.
#[derive(Debug)]
pub struct LabelCounts {
    entries: Vec<(String, u64)>,
}

/// The labels of a list of entries.
pub open spec fn entry_labels(e: Seq<(String, u64)>) -> Seq<Seq<char>> {
    e.map_values(|p: (String, u64)| p.0@)
}

impl LabelCounts {
    /// No label occurs twice.
    pub closed spec fn wf(&self) -> bool {
        forall|i: int, j: int|
            0 <= i < j < self.entries@.len() ==> #[trigger] self.entries@[i].0@ != #[trigger] self.entries@[j].0@
    }

    /// The count of each label that has one.
    pub closed spec fn counts(&self) -> Map<Seq<char>, u64> {
        Map::new(
            |l: Seq<char>| exists|i: int| 0 <= i < self.entries@.len() && self.entries@[i].0@ == l,
            |l: Seq<char>| self.entries@[choose|i: int| 0 <= i < self.entries@.len() && self.entries@[i].0@ == l].1,
        )
    }

    /// No counters.
    pub fn new() -> (c: LabelCounts)
        ensures
            c.wf(),
            c.counts() == Map::<Seq<char>, u64>::empty(),
    {
        let c = LabelCounts { entries: Vec::new() };
        assert(c.counts() =~= Map::<Seq<char>, u64>::empty());
        c
    }

    /// Position of `label`, if counted.
    fn find(&self, label: &str) -> (r: Option<usize>)
        ensures
            match r {
                Some(i) => i < self.entries@.len() && self.entries@[i as int].0@ == label@,
                None => forall|i: int| 0 <= i < self.entries@.len() ==> self.entries@[i].0@ != label@,
            },
    {
        let mut i: usize = 0;
        while i < self.entries.len()
            invariant
                i <= self.entries@.len(),
                forall|k: int| 0 <= k < i ==> self.entries@[k].0@ != label@,
            decreases self.entries.len() - i,
        {
            if str_equal(self.entries[i].0.as_str(), label) {
                return Some(i);
            }
            i = i + 1;
        }
        None
    }

    /// The count of `label`, zero when it was never counted.
    pub fn get(&self, label: &str) -> (n: u64)
        requires
            self.wf(),
        ensures
            n == (if self.counts().contains_key(label@) { self.counts()[label@] } else { 0 }),
    {
        match self.find(label) {
            Some(i) => {
                proof {
                    let j = choose|j: int| 0 <= j < self.entries@.len() && self.entries@[j].0@ == label@;
                    assert(j == i as int);
                }
                self.entries[i].1
            },
            None => 0,
        }
    }

    /// Add one to the count of `label`, starting it at one when new.
    pub fn increment(&mut self, label: &str)
        requires
            old(self).wf(),
            old(self).counts().contains_key(label@) ==> old(self).counts()[label@] < u64::MAX,
        ensures
            final(self).wf(),
            final(self).counts() == old(self).counts().insert(
                label@,
                if old(self).counts().contains_key(label@) { (old(self).counts()[label@] + 1) as u64 } else { 1 },
            ),
    {
        let ghost old_counts = self.counts();
        match self.find(label) {
            Some(i) => {
                proof {
                    let j = choose|j: int| 0 <= j < self.entries@.len() && self.entries@[j].0@ == label@;
                    assert(j == i as int);
                }
                let name = self.entries[i].0.clone();
                let v = self.entries[i].1 + 1;
                self.entries.set(i, (name, v));
                proof {
                    assert forall|a: int, b: int|
                        0 <= a < b < self.entries@.len() implies #[trigger] self.entries@[a].0@ != #[trigger] self.entries@[b].0@ by {
                        assert(old(self).entries@[a].0@ != old(self).entries@[b].0@);
                    }
                    assert forall|l: Seq<char>| #[trigger] self.counts().contains_key(l) == old_counts.insert(label@, v).contains_key(l) by {
                        if old_counts.contains_key(l) {
                            let k = choose|k: int| 0 <= k < old(self).entries@.len() && old(self).entries@[k].0@ == l;
                            assert(self.entries@[k].0@ == l);
                        }
                        if self.counts().contains_key(l) {
                            let k = choose|k: int| 0 <= k < self.entries@.len() && self.entries@[k].0@ == l;
                            assert(old(self).entries@[k].0@ == l);
                        }
                    }
                    assert forall|l: Seq<char>| #[trigger] self.counts().contains_key(l) implies self.counts()[l] == old_counts.insert(label@, v)[l] by {
                        let k = choose|k: int| 0 <= k < self.entries@.len() && self.entries@[k].0@ == l;
                        assert(old(self).entries@[k].0@ == l);
                        let k0 = choose|k0: int| 0 <= k0 < old(self).entries@.len() && old(self).entries@[k0].0@ == l;
                        assert(k0 == k);
                    }
                    assert(self.counts() =~= old_counts.insert(label@, v));
                }
            },
            None => {
                self.entries.push((label.to_owned(), 1));
                proof {
                    let n = old(self).entries@.len() as int;
                    assert forall|a: int, b: int|
                        0 <= a < b < self.entries@.len() implies #[trigger] self.entries@[a].0@ != #[trigger] self.entries@[b].0@ by {
                        if b < n {
                            assert(old(self).entries@[a].0@ != old(self).entries@[b].0@);
                        }
                    }
                    assert forall|l: Seq<char>| #[trigger] self.counts().contains_key(l) == old_counts.insert(label@, 1).contains_key(l) by {
                        if old_counts.contains_key(l) {
                            let k = choose|k: int| 0 <= k < old(self).entries@.len() && old(self).entries@[k].0@ == l;
                            assert(self.entries@[k].0@ == l);
                        }
                        if l == label@ {
                            assert(self.entries@[n].0@ == l);
                        }
                        if self.counts().contains_key(l) && l != label@ {
                            let k = choose|k: int| 0 <= k < self.entries@.len() && self.entries@[k].0@ == l;
                            assert(k < n);
                            assert(old(self).entries@[k].0@ == l);
                        }
                    }
                    assert forall|l: Seq<char>| #[trigger] self.counts().contains_key(l) implies self.counts()[l] == old_counts.insert(label@, 1)[l] by {
                        let k = choose|k: int| 0 <= k < self.entries@.len() && self.entries@[k].0@ == l;
                        if l == label@ {
                            assert(k == n);
                        } else {
                            assert(k < n);
                            let k0 = choose|k0: int| 0 <= k0 < old(self).entries@.len() && old(self).entries@[k0].0@ == l;
                            assert(old(self).entries@[k].0@ == l);
                            assert(k0 == k);
                        }
                    }
                    assert(self.counts() =~= old_counts.insert(label@, 1));
                }
            },
        }
    }
}

} // verus!
