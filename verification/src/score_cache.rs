//! Caches of computed scores: each entry is kept under the key of the gap it was
//! computed for, until the time it expires at.

use vstd::prelude::*;
use crate::gap_analyzer::{gap_type_label, DetectedGap, GapType};
use crate::text::{append_decimal, decimal, str_equal};

verus! {

/// How a confidence given in hundredths reads as a decimal number: the whole part, then
/// the hundredths without trailing zeros (`0.9` for 90, `1` for 100, `0.05` for 5).
pub open spec fn hundredths_text(p: nat) -> Seq<char> {
    let whole = decimal(p / 100);
    let frac = p % 100;
    if frac == 0 {
        whole
    } else if frac % 10 == 0 {
        whole + "."@ + decimal(frac / 10)
    } else {
        whole + "."@ + decimal(frac / 10) + decimal(frac % 10)
    }
}

/// Append a confidence given in hundredths as a decimal number (see `hundredths_text`).
fn append_hundredths(s: &mut String, p: u8)
    ensures
        final(s)@ == old(s)@ + hundredths_text(p as nat),
{
    let whole: u64 = (p / 100) as u64;
    let frac: u64 = (p % 100) as u64;
    append_decimal(s, whole);
    if frac != 0 {
        s.append(".");
        append_decimal(s, frac / 10);
        if frac % 10 != 0 {
            append_decimal(s, frac % 10);
        }
    }
    assert(final(s)@ =~= old(s)@ + hundredths_text(p as nat)) by {
        let w = decimal(p as nat / 100);
        let f = p as nat % 100;
        if f == 0 {
        } else if f % 10 == 0 {
            assert(old(s)@ + w + "."@ + decimal(f / 10) =~= old(s)@ + (w + "."@ + decimal(f / 10)));
        } else {
            assert(old(s)@ + w + "."@ + decimal(f / 10) + decimal(f % 10) =~= old(s)@ + (w + "."@
                + decimal(f / 10) + decimal(f % 10)));
        }
    }
}

/// The key that a gap's score is cached under: its file, line, gap type and confidence,
/// separated by colons.
pub open spec fn gap_key(file_path: Seq<char>, line_number: nat, gap_type: GapType, confidence_percent: nat) -> Seq<char> {
    file_path + ":"@ + decimal(line_number) + ":"@ + gap_type_label(gap_type) + ":"@ + hundredths_text(
        confidence_percent,
    )
}

/// The key that a gap's priority score is cached under.
pub fn score_cache_key(gap: &DetectedGap) -> (k: String)
    ensures
        k@ == gap_key(gap.file_path@, gap.line_number as nat, gap.gap_type, gap.confidence_percent as nat),
{
    let mut s = String::new();
    s.append(gap.file_path.as_str());
    s.append(":");
    append_decimal(&mut s, gap.line_number as u64);
    s.append(":");
    let label = gap.gap_type.to_string();
    s.append(label.as_str());
    s.append(":");
    append_hundredths(&mut s, gap.confidence_percent);
    assert(s@ =~= gap_key(gap.file_path@, gap.line_number as nat, gap.gap_type, gap.confidence_percent as nat));
    s
}

/// The key that a gap's impact assessment is cached under: the score key after `impact:`.
pub fn impact_cache_key(gap: &DetectedGap) -> (k: String)
    ensures
        k@ == "impact:"@ + gap_key(gap.file_path@, gap.line_number as nat, gap.gap_type, gap.confidence_percent as nat),
{
    let mut s = String::new();
    s.append("impact:");
    let key = score_cache_key(gap);
    s.append(key.as_str());
    s
}

/// Nanoseconds in a second.
pub const NANOS_PER_SEC: u64 = 1_000_000_000;

/// When an entry cached at `now_nanos` for `ttl_secs` seconds expires, saturated at the
/// last instant that nanoseconds since the Unix epoch reach in an `i64`.
pub open spec fn expiry_after(now_nanos: i64, ttl_secs: u64) -> i64 {
    let t = now_nanos + ttl_secs * NANOS_PER_SEC;
    if t > i64::MAX {
        i64::MAX
    } else {
        t as i64
    }
}

/// The value held under `key` at `now_nanos`: present only until it expires.
pub open spec fn live_value<T>(m: Map<Seq<char>, (T, i64)>, key: Seq<char>, now_nanos: i64) -> Option<T> {
    if m.contains_key(key) && now_nanos < m[key].1 {
        Some(m[key].0)
    } else {
        None
    }
}

/// What a cache read gives back of a write: the value cached under a key is read back
/// under that key from the moment it was cached until it expires, and every other key
/// reads as before.
pub proof fn lemma_read_after_insert<T>(
    m: Map<Seq<char>, (T, i64)>,
    key: Seq<char>,
    value: T,
    now_nanos: i64,
    ttl_secs: u64,
    later_nanos: i64,
    other: Seq<char>,
)
    requires
        now_nanos <= later_nanos < expiry_after(now_nanos, ttl_secs),
        other != key,
    ensures
        live_value(m.insert(key, (value, expiry_after(now_nanos, ttl_secs))), key, later_nanos) == Some(value),
        live_value(m.insert(key, (value, expiry_after(now_nanos, ttl_secs))), other, later_nanos) == live_value(
            m,
            other,
            later_nanos,
        ),
{
}

/// Values cached under text keys, each with the time it expires at, each key once.
#[derive(Debug)]
pub struct ExpiringCache<T> {
    entries: Vec<(String, T, i64)>,
}

impl<T> View for ExpiringCache<T> {
    type V = Map<Seq<char>, (T, i64)>;

    /// Each key with its value and expiry.
    closed spec fn view(&self) -> Map<Seq<char>, (T, i64)> {
        Map::new(
            |k: Seq<char>| exists|i: int| 0 <= i < self.entries@.len() && self.entries@[i].0@ == k,
            |k: Seq<char>| {
                let i = choose|i: int| 0 <= i < self.entries@.len() && self.entries@[i].0@ == k;
                (self.entries@[i].1, self.entries@[i].2)
            },
        )
    }
}

impl<T> ExpiringCache<T> {
    /// No key is held twice.
    pub closed spec fn wf(&self) -> bool {
        forall|i: int, j: int|
            0 <= i < j < self.entries@.len() ==> #[trigger] self.entries@[i].0@ != #[trigger] self.entries@[j].0@
    }

    /// The entry at position `i` is what the view holds under its key.
    proof fn lemma_entry(&self, i: int)
        requires
            self.wf(),
            0 <= i < self.entries@.len(),
        ensures
            self@.contains_key(self.entries@[i].0@),
            self@[self.entries@[i].0@] == (self.entries@[i].1, self.entries@[i].2),
    {
        let k = self.entries@[i].0@;
        assert(self@.contains_key(k));
        let j = choose|j: int| 0 <= j < self.entries@.len() && self.entries@[j].0@ == k;
        if j != i {
            if j < i {
                assert(self.entries@[j].0@ != self.entries@[i].0@);
            } else {
                assert(self.entries@[i].0@ != self.entries@[j].0@);
            }
        }
    }

    /// An empty cache.
    pub fn new() -> (c: ExpiringCache<T>)
        ensures
            c.wf(),
            c@ == Map::<Seq<char>, (T, i64)>::empty(),
    {
        let c = ExpiringCache { entries: Vec::new() };
        assert(c@ =~= Map::<Seq<char>, (T, i64)>::empty());
        c
    }

    /// Position of the entry under `key`.
    fn find(&self, key: &str) -> (r: Option<usize>)
        ensures
            match r {
                Some(i) => i < self.entries@.len() && self.entries@[i as int].0@ == key@,
                None => forall|i: int| 0 <= i < self.entries@.len() ==> self.entries@[i].0@ != key@,
            },
    {
        let mut i: usize = 0;
        while i < self.entries.len()
            invariant
                i <= self.entries@.len(),
                forall|k: int| 0 <= k < i ==> self.entries@[k].0@ != key@,
            decreases self.entries.len() - i,
        {
            if str_equal(self.entries[i].0.as_str(), key) {
                return Some(i);
            }
            i = i + 1;
        }
        None
    }

    /// The value under `key`, where it has not expired at `now_nanos`.
    pub fn get_at(&self, key: &str, now_nanos: i64) -> (r: Option<&T>)
        requires
            self.wf(),
        ensures
            match r {
                Some(v) => live_value(self@, key@, now_nanos) == Some(*v),
                None => live_value(self@, key@, now_nanos) is None,
            },
    {
        match self.find(key) {
            Some(i) => {
                proof {
                    self.lemma_entry(i as int);
                }
                if now_nanos < self.entries[i].2 {
                    Some(&self.entries[i].1)
                } else {
                    None
                }
            },
            None => None,
        }
    }

    /// Cache `value` under `key` at `now_nanos` for `ttl_secs` seconds, in place of what
    /// the key held.
    pub fn insert_at(&mut self, key: String, value: T, now_nanos: i64, ttl_secs: u64)
        requires
            old(self).wf(),
        ensures
            final(self).wf(),
            final(self)@ == old(self)@.insert(key@, (value, expiry_after(now_nanos, ttl_secs))),
    {
        let t: i128 = now_nanos as i128 + ttl_secs as i128 * 1_000_000_000;
        let expires: i64 = if t > 9_223_372_036_854_775_807i128 {
            i64::MAX
        } else {
            t as i64
        };
        let ghost k = key@;
        let ghost v = (value, expires);
        let ghost m0 = old(self)@;
        match self.find(key.as_str()) {
            Some(i) => {
                self.entries.set(i, (key, value, expires));
                proof {
                    assert forall|a: int, b: int| 0 <= a < b < self.entries@.len() implies #[trigger] self.entries@[a].0@
                        != #[trigger] self.entries@[b].0@ by {
                        assert(old(self).entries@[a].0@ != old(self).entries@[b].0@);
                    }
                    assert forall|s: Seq<char>| #[trigger] self@.contains_key(s) == m0.insert(k, v).contains_key(s) by {
                        if m0.contains_key(s) {
                            let w = choose|w: int| 0 <= w < old(self).entries@.len() && old(self).entries@[w].0@ == s;
                            assert(self.entries@[w].0@ == s);
                        }
                        if self@.contains_key(s) {
                            let w = choose|w: int| 0 <= w < self.entries@.len() && self.entries@[w].0@ == s;
                            if w != i {
                                assert(old(self).entries@[w].0@ == s);
                            }
                        }
                        if s == k {
                            assert(self.entries@[i as int].0@ == s);
                        }
                    }
                    assert forall|s: Seq<char>| #[trigger] self@.contains_key(s) implies self@[s] == m0.insert(k, v)[s] by {
                        let w = choose|w: int| 0 <= w < self.entries@.len() && self.entries@[w].0@ == s;
                        self.lemma_entry(w);
                        if w != i {
                            old(self).lemma_entry(w);
                        }
                    }
                    assert(self@ =~= m0.insert(k, v));
                }
            },
            None => {
                self.entries.push((key, value, expires));
                proof {
                    let n = old(self).entries@.len() as int;
                    assert forall|a: int, b: int| 0 <= a < b < self.entries@.len() implies #[trigger] self.entries@[a].0@
                        != #[trigger] self.entries@[b].0@ by {
                        if b < n {
                            assert(old(self).entries@[a].0@ != old(self).entries@[b].0@);
                        }
                    }
                    assert forall|s: Seq<char>| #[trigger] self@.contains_key(s) == m0.insert(k, v).contains_key(s) by {
                        if m0.contains_key(s) {
                            let w = choose|w: int| 0 <= w < old(self).entries@.len() && old(self).entries@[w].0@ == s;
                            assert(self.entries@[w].0@ == s);
                        }
                        if self@.contains_key(s) {
                            let w = choose|w: int| 0 <= w < self.entries@.len() && self.entries@[w].0@ == s;
                            if w < n {
                                assert(old(self).entries@[w].0@ == s);
                            }
                        }
                        if s == k {
                            assert(self.entries@[n].0@ == s);
                        }
                    }
                    assert forall|s: Seq<char>| #[trigger] self@.contains_key(s) implies self@[s] == m0.insert(k, v)[s] by {
                        let w = choose|w: int| 0 <= w < self.entries@.len() && self.entries@[w].0@ == s;
                        self.lemma_entry(w);
                        if w < n {
                            old(self).lemma_entry(w);
                        }
                    }
                    assert(self@ =~= m0.insert(k, v));
                }
            },
        }
    }

    /// Drop every entry.
    pub fn clear(&mut self)
        ensures
            final(self).wf(),
            final(self)@ == Map::<Seq<char>, (T, i64)>::empty(),
    {
        self.entries.clear();
        assert(self@ =~= Map::<Seq<char>, (T, i64)>::empty());
    }
}

} // verus!
