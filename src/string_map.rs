//! A map from string to string that keeps its entries in order of first
//! insertion, each name once: the environment of a spawned server process,
//! and the per-service lines of a health report.

use vstd::prelude::*;
use crate::text::same_text;

verus! {

/// The entries of a map, as pairs of name and value.
pub open spec fn entries_view(v: Seq<(String, String)>) -> Seq<(Seq<char>, Seq<char>)> {
    v.map_values(|p: (String, String)| (p.0@, p.1@))
}

/// No name occurs twice.
pub open spec fn names_distinct(s: Seq<(Seq<char>, Seq<char>)>) -> bool {
    forall|i: int, j: int| 0 <= i < j < s.len() ==> #[trigger] s[i].0 != #[trigger] s[j].0
}

/// The position of the entry named `k`, if any.
pub open spec fn index_of_name(s: Seq<(Seq<char>, Seq<char>)>, k: Seq<char>) -> Option<int> {
    if exists|i: int| 0 <= i < s.len() && #[trigger] s[i].0 == k {
        Some(choose|i: int| 0 <= i < s.len() && #[trigger] s[i].0 == k)
    } else {
        None
    }
}

/// The entries after setting `k` to `v`: an entry of that name takes the new
/// value in place, otherwise the entry is added at the end.
pub open spec fn with_entry(
    s: Seq<(Seq<char>, Seq<char>)>,
    k: Seq<char>,
    v: Seq<char>,
) -> Seq<(Seq<char>, Seq<char>)> {
    match index_of_name(s, k) {
        Some(i) => s.update(i, (k, v)),
        None => s.push((k, v)),
    }
}

/// The entries that setting each pair of `p` in turn gives, starting empty.
pub open spec fn from_entries(p: Seq<(Seq<char>, Seq<char>)>) -> Seq<(Seq<char>, Seq<char>)>
    decreases p.len(),
{
    if p.len() == 0 {
        Seq::empty()
    } else {
        with_entry(from_entries(p.drop_last()), p.last().0, p.last().1)
    }
}

/// With distinct names, the entry at `i` is the one named `s[i].0`.
pub proof fn lemma_index_of_name(s: Seq<(Seq<char>, Seq<char>)>, i: int)
    requires
        names_distinct(s),
        0 <= i < s.len(),
    ensures
        index_of_name(s, s[i].0) == Some(i),
{
    let k = s[i].0;
    assert(exists|j: int| 0 <= j < s.len() && #[trigger] s[j].0 == k);
    let j = choose|j: int| 0 <= j < s.len() && #[trigger] s[j].0 == k;
    if j < i {
        assert(s[j].0 != s[i].0);
    } else if i < j {
        assert(s[i].0 != s[j].0);
    }
}

/// Setting pairs with distinct names in turn gives those pairs.
pub proof fn lemma_from_distinct_entries(p: Seq<(Seq<char>, Seq<char>)>)
    requires
        names_distinct(p),
    ensures
        from_entries(p) == p,
    decreases p.len(),
{
    if p.len() > 0 {
        let init = p.drop_last();
        assert(names_distinct(init)) by {
            assert forall|i: int, j: int| 0 <= i < j < init.len() implies #[trigger] init[i].0 != #[trigger] init[j].0 by {
                assert(init[i] == p[i] && init[j] == p[j]);
            }
        }
        lemma_from_distinct_entries(init);
        assert forall|i: int| 0 <= i < init.len() implies #[trigger] init[i].0 != p.last().0 by {
            assert(init[i] == p[i]);
            assert(p[i].0 != p[p.len() - 1].0);
        }
        assert(index_of_name(init, p.last().0) is None);
        assert(init.push((p.last().0, p.last().1)) =~= p);
    }
}

/// A map from name to value, in order of first insertion.
#[derive(Debug)]
pub struct StringMap {
    entries: Vec<(String, String)>,
}

impl View for StringMap {
    type V = Seq<(Seq<char>, Seq<char>)>;

    closed spec fn view(&self) -> Seq<(Seq<char>, Seq<char>)> {
        entries_view(self.entries@)
    }
}

impl StringMap {
    #[verifier::type_invariant]
    closed spec fn inv(self) -> bool {
        names_distinct(entries_view(self.entries@))
    }

    /// A map with no entries.
    pub fn new() -> (r: StringMap)
        ensures
            r@ == Seq::<(Seq<char>, Seq<char>)>::empty(),
    {
        let r = StringMap { entries: Vec::new() };
        assert(r@ =~= Seq::<(Seq<char>, Seq<char>)>::empty());
        r
    }

    /// Entries that already have distinct names, kept in their order.
    pub(crate) fn from_distinct(entries: Vec<(String, String)>) -> (r: StringMap)
        requires
            names_distinct(entries_view(entries@)),
        ensures
            r@ == entries_view(entries@),
    {
        StringMap { entries }
    }

    /// Builds a map by setting each pair in turn; a later pair overrides an
    /// earlier one of the same name.
    pub fn from_pairs(pairs: Vec<(String, String)>) -> (r: StringMap)
        ensures
            r@ == from_entries(entries_view(pairs@)),
    {
        let mut r = StringMap::new();
        let ghost pv = entries_view(pairs@);
        for p in it: pairs.into_iter()
            invariant
                it.seq() == pairs@,
                pv == entries_view(pairs@),
                r@ == from_entries(pv.take(it.index() as int)),
        {
            proof {
                assert(pv.take(it.index() as int + 1).drop_last() =~= pv.take(it.index() as int));
            }
            r.insert(p.0, p.1);
        }
        proof {
            assert(pv.take(pv.len() as int) =~= pv);
        }
        r
    }

    /// Sets `key` to `value`.
    pub fn insert(&mut self, key: String, value: String)
        ensures
            final(self)@ == with_entry(old(self)@, key@, value@),
    {
        proof {
            use_type_invariant(&*self);
        }
        let ghost s = self@;
        let n = self.entries.len();
        let mut out: Vec<(String, String)> = Vec::new();
        let mut found: bool = false;
        let ghost t = with_entry(s, key@, value@);
        let mut i: usize = 0;
        while i < n
            invariant
                0 <= i <= n,
                n == self.entries@.len(),
                s == entries_view(self.entries@),
                names_distinct(s),
                t == with_entry(s, key@, value@),
                found ==> index_of_name(s, key@) is Some && index_of_name(s, key@)->Some_0 < i,
                !found ==> forall|j: int| 0 <= j < i ==> #[trigger] s[j].0 != key@,
                found ==> entries_view(out@) =~= t.take(i as int),
                !found ==> entries_view(out@) =~= s.take(i as int),
            decreases n - i,
        {
            proof {
                assert(s[i as int] == (self.entries@[i as int].0@, self.entries@[i as int].1@));
            }
            let ghost before = out@;
            if !found && self.entries[i].0 == key {
                proof {
                    lemma_index_of_name(s, i as int);
                }
                found = true;
                out.push((key.clone(), value.clone()));
                proof {
                    assert(entries_view(out@) =~= entries_view(before).push((key@, value@)));
                    assert(t == s.update(i as int, (key@, value@)));
                    assert(entries_view(out@) =~= t.take(i as int + 1));
                }
            } else {
                let k = self.entries[i].0.clone();
                let v = self.entries[i].1.clone();
                out.push((k, v));
                proof {
                    assert(entries_view(out@) =~= entries_view(before).push(s[i as int]));
                    if found {
                        assert(t == s.update(index_of_name(s, key@)->Some_0, (key@, value@)));
                        assert(t[i as int] == s[i as int]);
                        assert(entries_view(out@) =~= t.take(i as int + 1));
                    }
                }
            }
            i += 1;
        }
        if !found {
            proof {
                assert(index_of_name(s, key@) is None);
            }
            let ghost before = out@;
            out.push((key, value));
            proof {
                assert(entries_view(out@) =~= entries_view(before).push((key@, value@)));
                assert(s.take(n as int) =~= s);
            }
        } else {
            proof {
                assert(t.take(n as int) =~= t);
            }
        }
        proof {
            assert(entries_view(out@) =~= t);
            assert forall|a: int, b: int| 0 <= a < b < t.len() implies #[trigger] t[a].0 != #[trigger] t[b].0 by {
                if found {
                    let m = index_of_name(s, key@)->Some_0;
                    if a == m {
                        assert(s[m].0 == key@);
                    }
                    if b == m {
                        assert(s[m].0 == key@);
                    }
                }
            }
        }
        *self = StringMap { entries: out };
    }

    /// The value of `key`, if it is set.
    pub fn get(&self, key: &str) -> (r: Option<&String>)
        ensures
            match index_of_name(self@, key@) {
                Some(i) => r is Some && r->Some_0@ == self@[i].1,
                None => r is None,
            },
    {
        proof {
            use_type_invariant(self);
        }
        let n = self.entries.len();
        let mut i: usize = 0;
        while i < n
            invariant
                0 <= i <= n,
                n == self.entries@.len(),
                names_distinct(self@),
                forall|j: int| 0 <= j < i ==> #[trigger] self@[j].0 != key@,
            decreases n - i,
        {
            proof {
                assert(self@[i as int] == (self.entries@[i as int].0@, self.entries@[i as int].1@));
            }
            if same_text(self.entries[i].0.as_str(), key) {
                proof {
                    lemma_index_of_name(self@, i as int);
                }
                return Some(&self.entries[i].1);
            }
            i += 1;
        }
        None
    }

    /// The number of entries.
    pub fn len(&self) -> (r: usize)
        ensures
            r == self@.len(),
    {
        self.entries.len()
    }

    /// Whether the map has no entry.
    pub fn is_empty(&self) -> (r: bool)
        ensures
            r == (self@.len() == 0),
    {
        self.entries.len() == 0
    }

    /// The entries, in order.
    pub fn entries(&self) -> (r: &Vec<(String, String)>)
        ensures
            entries_view(r@) == self@,
            names_distinct(self@),
    {
        proof {
            use_type_invariant(self);
        }
        &self.entries
    }

    /// A copy with the same entries.
    pub fn duplicate(&self) -> (r: StringMap)
        ensures
            r@ == self@,
    {
        proof {
            use_type_invariant(self);
        }
        let mut out: Vec<(String, String)> = Vec::new();
        let n = self.entries.len();
        let mut i: usize = 0;
        while i < n
            invariant
                0 <= i <= n,
                n == self.entries@.len(),
                entries_view(out@) =~= self@.take(i as int),
            decreases n - i,
        {
            proof {
                assert(self@[i as int] == (self.entries@[i as int].0@, self.entries@[i as int].1@));
            }
            let k = self.entries[i].0.clone();
            let v = self.entries[i].1.clone();
            assert(k@ == self@[i as int].0);
            assert(v@ == self@[i as int].1);
            let ghost before = out@;
            out.push((k, v));
            assert(entries_view(out@) =~= entries_view(before).push(self@[i as int]));
            i += 1;
        }
        proof {
            assert(self@.take(n as int) =~= self@);
        }
        StringMap { entries: out }
    }
}

impl Clone for StringMap {
    fn clone(&self) -> (r: Self)
        ensures
            r@ == self@,
    {
        self.duplicate()
    }
}

} // verus!
