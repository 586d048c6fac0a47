//! The metrics hierarchy of an authorization: which parent metric each
//! child metric reports into.
//!
//! The hierarchy is a small association from a parent metric's name to the
//! names of its children, keyed uniquely and kept in insertion order. Its
//! model is the sequence of `(parent, children)` pairs of names; every
//! operation below is specified against that sequence, with distinctness of
//! the keys as the standing invariant.

use vstd::prelude::*;

verus! {

/// The model of one entry: a parent's name and its children's names.
pub type HierarchyEntry = (Seq<char>, Seq<Seq<char>>);

/// Whether some entry carries the key `k`.
pub open spec fn has_key(s: Seq<HierarchyEntry>, k: Seq<char>) -> bool {
    exists|i: int| 0 <= i < s.len() && s[i].0 == k
}

/// The position of the entry carrying `k`; meaningful when keys are
/// distinct and `k` is present.
pub open spec fn key_index(s: Seq<HierarchyEntry>, k: Seq<char>) -> int {
    choose|i: int| 0 <= i < s.len() && s[i].0 == k
}

/// No two entries share a key.
pub open spec fn distinct_keys(s: Seq<HierarchyEntry>) -> bool {
    forall|i: int, j: int| 0 <= i < j < s.len() ==> s[i].0 != s[j].0
}

/// The first parent, in entry order, whose children include `m`; `None`
/// when no entry lists it.
pub open spec fn spec_parent_of(s: Seq<HierarchyEntry>, m: Seq<char>) -> Option<Seq<char>>
    decreases s.len(),
{
    if s.len() == 0 {
        None
    } else if s[0].1.contains(m) {
        Some(s[0].0)
    } else {
        spec_parent_of(s.drop_first(), m)
    }
}

/// A parent-to-children association with distinct keys, in insertion order.
#[derive(Debug, Clone, PartialEq, Eq)]
pub struct MetricsHierarchy {
    entries: Vec<(String, Vec<String>)>,
}

impl MetricsHierarchy {
    /// The entries as their model: pairs of a parent's name and its
    /// children's names, in order.
    pub closed spec fn entries_view(self) -> Seq<HierarchyEntry> {
        self.entries@.map_values(|p: (String, Vec<String>)| (p.0@, p.1.deep_view()))
    }

    /// The standing invariant: every parent occurs at most once.
    pub open spec fn wf(self) -> bool {
        distinct_keys(self.entries_view())
    }

    pub fn new() -> (r: MetricsHierarchy)
        ensures
            r.entries_view() == Seq::<HierarchyEntry>::empty(),
            r.wf(),
    {
        let r = MetricsHierarchy { entries: Vec::new() };
        proof {
            assert(r.entries_view() =~= Seq::<HierarchyEntry>::empty());
        }
        r
    }

    /// The position of the entry keyed by `key`, if any, together with the
    /// fact that no earlier entry carries it.
    fn find(&self, key: &String) -> (r: Option<usize>)
        ensures
            match r {
                Some(i) => i < self.entries_view().len() && self.entries_view()[i as int].0
                    == key@ && forall|j: int|
                    0 <= j < i ==> self.entries_view()[j].0 != key@,
                None => forall|j: int|
                    0 <= j < self.entries_view().len() ==> self.entries_view()[j].0 != key@,
            },
    {
        let n: usize = self.entries.len();
        let mut i: usize = 0;
        while i < n
            invariant
                n == self.entries@.len(),
                n == self.entries_view().len(),
                0 <= i <= n,
                forall|j: int| 0 <= j < i ==> self.entries_view()[j].0 != key@,
            decreases n - i,
        {
            let e = &self.entries[i];
            if e.0 == *key {
                return Some(i);
            }
            i = i + 1;
        }
        None
    }

    /// Associates `parent` with `children`: an existing entry for `parent`
    /// is replaced in place, otherwise a new entry is appended. Keys stay
    /// distinct either way.
    pub fn insert(&mut self, parent: &str, children: Vec<String>)
        requires
            old(self).wf(),
        ensures
            final(self).wf(),
            !has_key(old(self).entries_view(), parent@) ==> final(self).entries_view() == old(
                self,
            ).entries_view().push((parent@, children.deep_view())),
            has_key(old(self).entries_view(), parent@) ==> final(self).entries_view() == old(
                self,
            ).entries_view().update(
                key_index(old(self).entries_view(), parent@),
                (parent@, children.deep_view()),
            ),
    {
        let key = parent.to_owned();
        let ghost old_view = self.entries_view();
        match self.find(&key) {
            Some(i) => {
                self.entries[i] = (key, children);
                proof {
                    assert(has_key(old_view, parent@));
                    let w = key_index(old_view, parent@);
                    assert(0 <= w < old_view.len() && old_view[w].0 == parent@);
                    assert(w == i as int);
                    assert(self.entries_view() =~= old_view.update(
                        i as int,
                        (parent@, children.deep_view()),
                    ));
                    assert forall|a: int, b: int|
                        0 <= a < b < self.entries_view().len() implies self.entries_view()[a].0
                        != self.entries_view()[b].0 by {
                        assert(self.entries_view()[a].0 == old_view[a].0);
                        assert(self.entries_view()[b].0 == old_view[b].0);
                    }
                }
            },
            None => {
                self.entries.push((key, children));
                proof {
                    assert(self.entries_view() =~= old_view.push(
                        (parent@, children.deep_view()),
                    ));
                    assert(!has_key(old_view, parent@));
                }
            },
        }
    }

    /// Drops the entry for `parent`, if there is one; the other entries
    /// keep their order.
    pub fn remove(&mut self, parent: &str)
        requires
            old(self).wf(),
        ensures
            final(self).wf(),
            !has_key(old(self).entries_view(), parent@) ==> final(self).entries_view() == old(
                self,
            ).entries_view(),
            has_key(old(self).entries_view(), parent@) ==> final(self).entries_view() == old(
                self,
            ).entries_view().remove(key_index(old(self).entries_view(), parent@)),
    {
        let key = parent.to_owned();
        let ghost old_view = self.entries_view();
        match self.find(&key) {
            Some(i) => {
                self.entries.remove(i);
                proof {
                    assert(has_key(old_view, parent@));
                    let w = key_index(old_view, parent@);
                    assert(0 <= w < old_view.len() && old_view[w].0 == parent@);
                    assert(w == i as int);
                    assert(self.entries_view() =~= old_view.remove(i as int));
                    assert forall|a: int, b: int|
                        0 <= a < b < self.entries_view().len() implies self.entries_view()[a].0
                        != self.entries_view()[b].0 by {
                        let oa = if a < i as int {
                            a
                        } else {
                            a + 1
                        };
                        let ob = if b < i as int {
                            b
                        } else {
                            b + 1
                        };
                        assert(self.entries_view()[a] == old_view[oa]);
                        assert(self.entries_view()[b] == old_view[ob]);
                    }
                }
            },
            None => {
                proof {
                    assert(!has_key(old_view, parent@));
                }
            },
        }
    }

    /// The entries as stored: each parent's name with its children's
    /// names, in insertion order.
    pub fn entries(&self) -> (r: &Vec<(String, Vec<String>)>)
        ensures
            r@.len() == self.entries_view().len(),
            forall|i: int|
                0 <= i < r@.len() ==> (#[trigger] r@[i].0@, r@[i].1.deep_view())
                    == self.entries_view()[i],
    {
        &self.entries
    }

    /// The parent under which `metric` is listed as a child: the first
    /// entry, in insertion order, whose children include it.
    pub fn parent_of(&self, metric: &str) -> (r: Option<String>)
        ensures
            match r {
                Some(p) => spec_parent_of(self.entries_view(), metric@) == Some(p@),
                None => spec_parent_of(self.entries_view(), metric@) == None::<Seq<char>>,
            },
    {
        let m = metric.to_owned();
        let n: usize = self.entries.len();
        let mut i: usize = 0;
        proof {
            assert(self.entries_view().skip(0) =~= self.entries_view());
        }
        while i < n
            invariant
                n == self.entries@.len(),
                n == self.entries_view().len(),
                0 <= i <= n,
                m@ == metric@,
                spec_parent_of(self.entries_view(), metric@) == spec_parent_of(
                    self.entries_view().skip(i as int),
                    metric@,
                ),
            decreases n - i,
        {
            let e = &self.entries[i];
            let mut j: usize = 0;
            let k: usize = e.1.len();
            let mut found = false;
            while j < k
                invariant
                    k == e.1@.len(),
                    0 <= j <= k,
                    m@ == metric@,
                    e.1.deep_view() == self.entries_view()[i as int].1,
                    i < self.entries_view().len(),
                    found <==> exists|t: int|
                        0 <= t < j && self.entries_view()[i as int].1[t] == metric@,
                decreases k - j,
            {
                proof {
                    assert(self.entries_view()[i as int].1[j as int] == e.1@[j as int]@);
                }
                let c: &String = &e.1[j];
                if *c == m {
                    found = true;
                }
                j = j + 1;
            }
            proof {
                let tail = self.entries_view().skip(i as int);
                assert(tail[0] == self.entries_view()[i as int]);
                if found {
                    assert(self.entries_view()[i as int].1.contains(metric@));
                } else {
                    assert(!self.entries_view()[i as int].1.contains(metric@)) by {
                        assert(forall|t: int|
                            0 <= t < self.entries_view()[i as int].1.len()
                                ==> self.entries_view()[i as int].1[t] != metric@);
                    }
                    assert(tail.drop_first() =~= self.entries_view().skip(i as int + 1));
                }
            }
            if found {
                return Some(e.0.clone());
            }
            i = i + 1;
        }
        proof {
            assert(self.entries_view().skip(n as int) =~= Seq::<HierarchyEntry>::empty());
        }
        None
    }
}

} // verus!
