//! An ordered, key-unique heart-rate time series and its relative-offset view.
use vstd::prelude::*;

verus! {

/// Keys strictly ascending: the sequence is ordered and no key repeats.
pub open spec fn strictly_ascending(s: Seq<(u32, u8)>) -> bool {
    forall|i: int, j: int| 0 <= i < j < s.len() ==> s[i].0 < s[j].0
}

/// The mapping that a sequence of (key, value) pairs describes.
pub open spec fn as_map(s: Seq<(u32, u8)>) -> Map<u32, u8>
    decreases s.len(),
{
    if s.len() == 0 {
        Map::empty()
    } else {
        as_map(s.drop_last()).insert(s.last().0, s.last().1)
    }
}

/// Each sample as (seconds after the earliest key, value), in key order.
pub open spec fn offset_lines(s: Seq<(u32, u8)>) -> Seq<(u32, u8)> {
    Seq::new(s.len(), |i: int| ((s[i].0 - s[0].0) as u32, s[i].1))
}

/// In an ascending sequence, the map holds exactly the listed keys, each with its value.
pub proof fn lemma_as_map(s: Seq<(u32, u8)>)
    requires
        strictly_ascending(s),
    ensures
        forall|k: u32| #[trigger] as_map(s).contains_key(k) <==> exists|i: int| 0 <= i < s.len() && s[i].0 == k,
        forall|i: int| 0 <= i < s.len() ==> #[trigger] as_map(s)[s[i].0] == s[i].1,
    decreases s.len(),
{
    if s.len() > 0 {
        let p = s.drop_last();
        lemma_as_map(p);
        assert(as_map(s) == as_map(p).insert(s.last().0, s.last().1));
        assert forall|k: u32| #[trigger] as_map(s).contains_key(k) <==> exists|i: int| 0 <= i < s.len() && s[i].0 == k by {
            if as_map(s).contains_key(k) && k != s.last().0 {
                assert(as_map(p).contains_key(k));
                let i = choose|i: int| 0 <= i < p.len() && p[i].0 == k;
                assert(s[i].0 == k);
            }
            if exists|i: int| 0 <= i < s.len() && s[i].0 == k {
                let i = choose|i: int| 0 <= i < s.len() && s[i].0 == k;
                if i < p.len() {
                    assert(p[i].0 == k);
                }
            }
        }
        assert forall|i: int| 0 <= i < s.len() implies #[trigger] as_map(s)[s[i].0] == s[i].1 by {
            if i < p.len() {
                assert(p[i] == s[i]);
                assert(s[i].0 < s.last().0);
            }
        }
    }
}

/// A heart-rate time series: samples keyed by recorder timestamp (seconds), kept in
/// ascending key order with no key twice.
pub struct TimeSeries {
    pub entries: Vec<(u32, u8)>,
}

impl View for TimeSeries {
    type V = Seq<(u32, u8)>;

    open spec fn view(&self) -> Seq<(u32, u8)> {
        self.entries@
    }
}

impl TimeSeries {
    pub open spec fn wf(&self) -> bool {
        strictly_ascending(self@)
    }

    /// The series as a mapping from timestamp to heart rate.
    pub open spec fn samples(&self) -> Map<u32, u8> {
        as_map(self@)
    }

    pub fn new() -> (r: TimeSeries)
        ensures
            r.wf(),
            r@.len() == 0,
            r.samples() == Map::<u32, u8>::empty(),
    {
        TimeSeries { entries: Vec::new() }
    }

    pub fn len(&self) -> (r: usize)
        ensures
            r == self@.len(),
    {
        self.entries.len()
    }

    pub fn is_empty(&self) -> (r: bool)
        ensures
            r == (self@.len() == 0),
    {
        self.entries.len() == 0
    }

    /// Whether a sample is stored at `key`.
    pub fn contains(&self, key: u32) -> (r: bool)
        requires
            self.wf(),
        ensures
            r == self.samples().contains_key(key),
    {
        let mut i: usize = 0;
        while i < self.entries.len()
            invariant
                self.wf(),
                i <= self@.len(),
                forall|j: int| 0 <= j < i ==> self@[j].0 != key,
            decreases self@.len() - i,
        {
            if self.entries[i].0 == key {
                proof {
                    lemma_as_map(self@);
                    assert(self@[i as int].0 == key);
                }
                return true;
            }
            i = i + 1;
        }
        proof {
            lemma_as_map(self@);
        }
        false
    }

    /// Records `value` at `key` unless a sample is already stored there.
    pub fn insert_if_absent(&mut self, key: u32, value: u8)
        requires
            old(self).wf(),
        ensures
            final(self).wf(),
            final(self).samples() == if old(self).samples().contains_key(key) {
                old(self).samples()
            } else {
                old(self).samples().insert(key, value)
            },
    {
        if !self.contains(key) {
            self.insert(key, value);
        }
    }

    /// Records `value` at `key`, replacing what an earlier sample stored there.
    pub fn insert(&mut self, key: u32, value: u8)
        requires
            old(self).wf(),
        ensures
            final(self).wf(),
            final(self).samples() == old(self).samples().insert(key, value),
    {
        let ghost s = self@;
        let mut pos: usize = 0;
        while pos < self.entries.len() && self.entries[pos].0 < key
            invariant
                self@ == s,
                pos <= s.len(),
                forall|i: int| 0 <= i < pos ==> s[i].0 < key,
            decreases s.len() - pos,
        {
            pos = pos + 1;
        }
        proof {
            lemma_as_map(s);
        }
        if pos < self.entries.len() && self.entries[pos].0 == key {
            self.entries.set(pos, (key, value));
            let ghost t = self@;
            assert(t =~= s.update(pos as int, (key, value)));
            assert(strictly_ascending(t));
            proof {
                lemma_as_map(t);
                assert forall|k: u32| #[trigger] as_map(t).contains_key(k) <==> as_map(s).insert(key, value).contains_key(k) by {
                    if as_map(s).contains_key(k) {
                        let i = choose|i: int| 0 <= i < s.len() && s[i].0 == k;
                        assert(t[i].0 == k);
                    }
                    if as_map(t).contains_key(k) {
                        let i = choose|i: int| 0 <= i < t.len() && t[i].0 == k;
                        assert(s[i].0 == k);
                    }
                }
                assert forall|k: u32| #[trigger] as_map(t).contains_key(k) implies as_map(t)[k] == as_map(s).insert(key, value)[k] by {
                    let i = choose|i: int| 0 <= i < t.len() && t[i].0 == k;
                    assert(as_map(t)[t[i].0] == t[i].1);
                    if k != key {
                        assert(as_map(s)[s[i].0] == s[i].1);
                    }
                }
                assert(as_map(t) =~= as_map(s).insert(key, value));
            }
        } else {
            self.entries.insert(pos, (key, value));
            let ghost t = self@;
            assert(t =~= s.insert(pos as int, (key, value)));
            assert forall|i: int, j: int| 0 <= i < j < t.len() implies t[i].0 < t[j].0 by {
                if j < pos {
                } else if j == pos {
                } else if i < pos {
                    assert(t[j] == s[j - 1]);
                    assert(s[j - 1].0 >= s[pos as int].0 || j - 1 == pos);
                } else if i == pos {
                    assert(t[j] == s[j - 1]);
                    assert(s[j - 1].0 >= s[pos as int].0 || j - 1 == pos);
                } else {
                    assert(t[i] == s[i - 1]);
                    assert(t[j] == s[j - 1]);
                }
            }
            proof {
                lemma_as_map(t);
                assert forall|k: u32| #[trigger] as_map(t).contains_key(k) <==> as_map(s).insert(key, value).contains_key(k) by {
                    if as_map(s).contains_key(k) {
                        let i = choose|i: int| 0 <= i < s.len() && s[i].0 == k;
                        if i < pos {
                            assert(t[i].0 == k);
                        } else {
                            assert(t[i + 1].0 == k);
                        }
                    }
                    if k == key {
                        assert(t[pos as int].0 == k);
                    }
                    if as_map(t).contains_key(k) && k != key {
                        let i = choose|i: int| 0 <= i < t.len() && t[i].0 == k;
                        if i < pos {
                            assert(s[i].0 == k);
                        } else {
                            assert(s[i - 1].0 == k);
                        }
                    }
                }
                assert forall|k: u32| #[trigger] as_map(t).contains_key(k) implies as_map(t)[k] == as_map(s).insert(key, value)[k] by {
                    let i = choose|i: int| 0 <= i < t.len() && t[i].0 == k;
                    assert(as_map(t)[t[i].0] == t[i].1);
                    if i < pos {
                        assert(as_map(s)[s[i].0] == s[i].1);
                    } else if i > pos {
                        assert(as_map(s)[s[i - 1].0] == s[i - 1].1);
                    }
                }
                assert(as_map(t) =~= as_map(s).insert(key, value));
            }
        }
    }

    /// Each sample as (seconds after the earliest sample, heart rate), in ascending
    /// time order; `None` when the series is empty, since no sample anchors the offsets.
    pub fn offsets(&self) -> (r: Option<Vec<(u32, u8)>>)
        requires
            self.wf(),
        ensures
            r.is_none() <==> self@.len() == 0,
            r matches Some(lines) ==> lines@ == offset_lines(self@),
    {
        if self.entries.len() == 0 {
            return None;
        }
        let start = self.entries[0].0;
        let mut lines: Vec<(u32, u8)> = Vec::new();
        let mut i: usize = 0;
        while i < self.entries.len()
            invariant
                self.wf(),
                self@.len() > 0,
                start == self@[0].0,
                i <= self@.len(),
                lines@ =~= offset_lines(self@).subrange(0, i as int),
            decreases self@.len() - i,
        {
            let (key, value) = self.entries[i];
            assert(i == 0 || self@[0].0 < self@[i as int].0);
            lines.push((key - start, value));
            i = i + 1;
        }
        assert(lines@ =~= offset_lines(self@));
        Some(lines)
    }
}

} // verus!
